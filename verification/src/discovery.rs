//! Local-network discovery, as far as it computes: the query that a host
//! answers, the broadcast address of an interface, and the reading of a
//! host's answer.

use crate::auth_store::{clone_name, name_view};
use crate::protocol::{fields_view, FieldValue, FieldView};
use vstd::prelude::*;
use vstd::string::StringExecFns;

verus! {

/// The UDP port on which hosts listen for the query.
pub const DISCOVERY_PORT: u16 = 45321;

/// The port of the control channel where an answer names none.
pub const DEFAULT_CONTROL_PORT: u16 = 3030;

/// The text of the query.
pub open spec fn discovery_query() -> Seq<char> {
    "FOSSDECK_DISCOVERY_V1?"@
}

/// The path of the control channel on a host.
pub open spec fn control_path() -> Seq<char> {
    "/ws"@
}

/// A host that answered the query.
#[derive(Debug, PartialEq, Eq)]
pub struct DiscoveredHost {
    pub ip: String,
    pub port: u16,
    pub name: Option<String>,
    pub path: Option<String>,
    pub version: Option<String>,
}

/// A `DiscoveredHost` as plain values.
pub struct DiscoveredHostView {
    pub ip: Seq<char>,
    pub port: u16,
    pub name: Option<Seq<char>>,
    pub path: Option<Seq<char>>,
    pub version: Option<Seq<char>>,
}

impl View for DiscoveredHost {
    type V = DiscoveredHostView;

    open spec fn view(&self) -> DiscoveredHostView {
        DiscoveredHostView {
            ip: self.ip@,
            port: self.port,
            name: name_view(self.name),
            path: name_view(self.path),
            version: name_view(self.version),
        }
    }
}

impl Clone for DiscoveredHost {
    fn clone(&self) -> (copy: Self)
        ensures
            copy@ == self@,
    {
        DiscoveredHost {
            ip: self.ip.clone(),
            port: self.port,
            name: clone_name(&self.name),
            path: clone_name(&self.path),
            version: clone_name(&self.version),
        }
    }
}

/// Whether a datagram is the query.
pub fn is_discovery_query(message: &str) -> (is_query: bool)
    ensures
        is_query == (message@ == discovery_query()),
{
    message.to_owned() == String::from_str("FOSSDECK_DISCOVERY_V1?")
}

/// The version of the discovery protocol that a host announces.
pub open spec fn protocol_version() -> Seq<char> {
    "0.1.0"@
}

/// The fields of a host's answer to the query, in order.
pub open spec fn answer_fields(name: Seq<char>, port: u16) -> Seq<(Seq<char>, FieldView)> {
    seq![
        ("name"@, FieldView::Text(name)),
        ("proto"@, FieldView::Text("ws"@)),
        ("port"@, FieldView::Number(port as u64)),
        ("path"@, FieldView::Text(control_path())),
        ("version"@, FieldView::Text(protocol_version())),
    ]
}

/// What a host named `name`, with its control channel at `port`, answers to
/// the query.
pub fn discovery_answer(name: String, port: u16) -> (fields: Vec<(&'static str, FieldValue)>)
    ensures
        fields_view(fields@) == answer_fields(name@, port),
{
    let mut fields: Vec<(&'static str, FieldValue)> = Vec::new();
    fields.push(("name", FieldValue::Text(name)));
    fields.push(("proto", FieldValue::Text(String::from_str("ws"))));
    fields.push(("port", FieldValue::Number(port as u64)));
    fields.push(("path", FieldValue::Text(String::from_str("/ws"))));
    fields.push(("version", FieldValue::Text(String::from_str("0.1.0"))));
    fields
}

/// The address to which a broadcast on an interface goes: the interface's
/// address with every bit outside the netmask set.
pub fn directed_broadcast(address: u32, netmask: u32) -> (broadcast: u32)
    ensures
        broadcast == address | !netmask,
{
    address | !netmask
}

/// The address that reaches every host on the local link.
pub const LIMITED_BROADCAST: u32 = 0xffff_ffff;

/// The broadcast address of the interface at `i`, given as address and
/// netmask.
pub open spec fn interface_broadcast(interfaces: Seq<(u32, u32)>, i: int) -> u32 {
    interfaces[i].0 | !interfaces[i].1
}

/// `target` is an address to which the query goes: the limited broadcast, or
/// the directed broadcast of one of the interfaces.
pub open spec fn is_query_target(interfaces: Seq<(u32, u32)>, target: u32) -> bool {
    target == LIMITED_BROADCAST || exists|i: int|
        0 <= i < interfaces.len() && #[trigger] interface_broadcast(interfaces, i) == target
}

fn is_listed(targets: &Vec<u32>, target: u32) -> (listed: bool)
    ensures
        listed == targets@.contains(target),
{
    let mut i: usize = 0;
    while i < targets.len()
        invariant
            i <= targets.len(),
            forall|k: int| 0 <= k < i ==> targets@[k] != target,
        decreases targets.len() - i,
    {
        if targets[i] == target {
            return true;
        }
        i = i + 1;
    }
    false
}

/// The addresses to which the query goes, each once: the limited broadcast
/// and the directed broadcast of every interface, given as address and
/// netmask.
pub fn query_targets(interfaces: &Vec<(u32, u32)>) -> (targets: Vec<u32>)
    ensures
        targets@.no_duplicates(),
        forall|target: u32| targets@.contains(target) <==> is_query_target(interfaces@, target),
{
    let mut targets: Vec<u32> = Vec::new();
    targets.push(LIMITED_BROADCAST);
    assert(targets@[0] == LIMITED_BROADCAST);
    let mut k: usize = 0;
    while k < interfaces.len()
        invariant
            k <= interfaces.len(),
            targets@.no_duplicates(),
            forall|target: u32|
                targets@.contains(target) <==> (target == LIMITED_BROADCAST || exists|i: int|
                    0 <= i < k && #[trigger] interface_broadcast(interfaces@, i) == target),
        decreases interfaces.len() - k,
    {
        let broadcast = directed_broadcast(interfaces[k].0, interfaces[k].1);
        assert(broadcast == interface_broadcast(interfaces@, k as int));
        let ghost before = targets@;
        if !is_listed(&targets, broadcast) {
            targets.push(broadcast);
            assert forall|target: u32| targets@.contains(target) <==> (target
                == LIMITED_BROADCAST || exists|i: int|
                0 <= i < k + 1 && #[trigger] interface_broadcast(interfaces@, i) == target) by {
                if targets@.contains(target) {
                    let at = choose|at: int| 0 <= at < targets@.len() && targets@[at] == target;
                    if at < before.len() {
                        assert(before[at] == target);
                        assert(before.contains(target));
                    }
                }
                if before.contains(target) {
                    let at = choose|at: int| 0 <= at < before.len() && before[at] == target;
                    assert(targets@[at] == target);
                }
                if target == broadcast {
                    assert(targets@[before.len() as int] == target);
                }
                if exists|i: int|
                    0 <= i < k + 1 && #[trigger] interface_broadcast(interfaces@, i) == target {
                    let i = choose|i: int|
                        0 <= i < k + 1 && #[trigger] interface_broadcast(interfaces@, i) == target;
                    if i < k {
                        assert(before.contains(target));
                    }
                }
            }
        }
        k = k + 1;
    }
    targets
}

/// The port that an answer names: its low sixteen bits, or the default where
/// it names none.
pub open spec fn answered_port(port: Option<u64>) -> u16 {
    match port {
        Some(number) => (number % 65536) as u16,
        None => DEFAULT_CONTROL_PORT,
    }
}

/// The port that an answer names.
pub fn port_from_answer(port: Option<u64>) -> (chosen: u16)
    ensures
        chosen == answered_port(port),
{
    match port {
        Some(number) => (number % 65536) as u16,
        None => DEFAULT_CONTROL_PORT,
    }
}

impl DiscoveredHost {
    /// The host behind an answer that could be read.
    pub fn from_answer(
        ip: String,
        port: Option<u64>,
        name: Option<String>,
        path: Option<String>,
        version: Option<String>,
    ) -> (host: DiscoveredHost)
        ensures
            host@ == (DiscoveredHostView {
                ip: ip@,
                port: answered_port(port),
                name: name_view(name),
                path: name_view(path),
                version: name_view(version),
            }),
    {
        DiscoveredHost { ip, port: port_from_answer(port), name, path, version }
    }

    /// The host behind an answer that could not be read: it is taken to
    /// serve the control channel at the default port and path.
    pub fn unreadable(ip: String) -> (host: DiscoveredHost)
        ensures
            host@ == (DiscoveredHostView {
                ip: ip@,
                port: DEFAULT_CONTROL_PORT,
                name: None,
                path: Some(control_path()),
                version: None,
            }),
    {
        DiscoveredHost {
            ip,
            port: DEFAULT_CONTROL_PORT,
            name: None,
            path: Some(String::from_str("/ws")),
            version: None,
        }
    }
}

/// Some host on the list has the address `ip`.
pub open spec fn lists_address(hosts: Seq<DiscoveredHost>, ip: Seq<char>) -> bool {
    exists|i: int| 0 <= i < hosts.len() && (#[trigger] hosts[i]).ip@ == ip
}

/// No address occurs twice on the list.
pub open spec fn addresses_distinct(hosts: Seq<DiscoveredHost>) -> bool {
    forall|i: int, j: int|
        0 <= i < j < hosts.len() ==> (#[trigger] hosts[i]).ip@ != (#[trigger] hosts[j]).ip@
}

/// Takes an answer into the list of hosts: the first answer from an address
/// is put at the end of the list, and any later one from that address is
/// dropped. So the list holds each address once, in order of first arrival.
pub fn record_answer(hosts: &mut Vec<DiscoveredHost>, host: DiscoveredHost) -> (added: bool)
    ensures
        added == !lists_address(old(hosts)@, host.ip@),
        final(hosts)@ == if added {
            old(hosts)@.push(host)
        } else {
            old(hosts)@
        },
        addresses_distinct(old(hosts)@) ==> addresses_distinct(final(hosts)@),
{
    let mut i: usize = 0;
    while i < hosts.len()
        invariant
            i <= hosts.len(),
            hosts@ == old(hosts)@,
            forall|k: int| 0 <= k < i ==> (#[trigger] hosts@[k]).ip@ != host.ip@,
        decreases hosts.len() - i,
    {
        if hosts[i].ip == host.ip {
            return false;
        }
        i = i + 1;
    }
    hosts.push(host);
    true
}

} // verus!
