//! The allow-list of trusted devices.
//!
//! The store maps a device id to what is kept of the device: its display
//! name, the hash of its credential, and two Unix times. It is held as a
//! list of records in which no id occurs twice.

use crate::digest::{credential_hash, sha256_hex};
use vstd::prelude::*;

verus! {

/// What is kept of a trusted device.
#[derive(Debug, PartialEq, Eq)]
pub struct AuthorizedDevice {
    pub name: Option<String>,
    pub token_hash: String,
    pub added_at: i64,
    pub last_seen: i64,
}

/// An `AuthorizedDevice` as plain values.
pub struct DeviceView {
    pub name: Option<Seq<char>>,
    pub token_hash: Seq<char>,
    pub added_at: i64,
    pub last_seen: i64,
}

/// An optional text as plain values.
pub open spec fn name_view(name: Option<String>) -> Option<Seq<char>> {
    match name {
        Some(text) => Some(text@),
        None => None,
    }
}

impl View for AuthorizedDevice {
    type V = DeviceView;

    open spec fn view(&self) -> DeviceView {
        DeviceView {
            name: name_view(self.name),
            token_hash: self.token_hash@,
            added_at: self.added_at,
            last_seen: self.last_seen,
        }
    }
}

impl Clone for AuthorizedDevice {
    fn clone(&self) -> (copy: Self)
        ensures
            copy@ == self@,
    {
        AuthorizedDevice {
            name: clone_name(&self.name),
            token_hash: self.token_hash.clone(),
            added_at: self.added_at,
            last_seen: self.last_seen,
        }
    }
}

/// A copy of an optional text.
pub fn clone_name(name: &Option<String>) -> (copy: Option<String>)
    ensures
        name_view(copy) == name_view(*name),
{
    match name {
        Some(text) => Some(text.clone()),
        None => None,
    }
}

/// The id of the record at `i`.
pub open spec fn record_id(records: Seq<(String, AuthorizedDevice)>, i: int) -> Seq<char> {
    records[i].0@
}

/// No id occurs twice among the records.
pub open spec fn ids_distinct(records: Seq<(String, AuthorizedDevice)>) -> bool {
    forall|i: int, j: int|
        0 <= i < j < records.len() ==> #[trigger] record_id(records, i) != #[trigger] record_id(
            records,
            j,
        )
}

/// Some record has the id `id`.
pub open spec fn holds_id(records: Seq<(String, AuthorizedDevice)>, id: Seq<char>) -> bool {
    exists|i: int| 0 <= i < records.len() && #[trigger] record_id(records, i) == id
}

/// The mapping that a list of records stands for. Where an id occurs more
/// than once, the last record with it counts.
pub open spec fn records_map(records: Seq<(String, AuthorizedDevice)>) -> Map<
    Seq<char>,
    DeviceView,
>
    decreases records.len(),
{
    if records.len() == 0 {
        Map::empty()
    } else {
        records_map(records.drop_last()).insert(records.last().0@, records.last().1@)
    }
}

/// Most recently seen first.
pub open spec fn newest_first(records: Seq<(String, AuthorizedDevice)>) -> bool {
    forall|i: int, j: int|
        0 <= i < j < records.len() ==> (#[trigger] records[i]).1.last_seen >= (
        #[trigger] records[j]).1.last_seen
}

/// The mapping of a list of records holds exactly the ids of the list, and,
/// where no id occurs twice, for each id what its record holds.
pub proof fn lemma_records_map(records: Seq<(String, AuthorizedDevice)>)
    ensures
        records_map(records).dom().finite(),
        forall|id: Seq<char>| #[trigger]
            records_map(records).contains_key(id) <==> holds_id(records, id),
        ids_distinct(records) ==> forall|i: int|
            0 <= i < records.len() ==> records_map(records)[#[trigger] record_id(records, i)]
                == records[i].1@,
        ids_distinct(records) ==> records_map(records).len() == records.len(),
    decreases records.len(),
{
    if records.len() > 0 {
        let before = records.drop_last();
        let last = records.len() - 1;
        lemma_records_map(before);
        assert forall|i: int| 0 <= i < before.len() implies record_id(before, i) == record_id(
            records,
            i,
        ) by {}
        if ids_distinct(records) {
            assert(!holds_id(before, record_id(records, last))) by {
                if holds_id(before, record_id(records, last)) {
                    let i = choose|i: int|
                        0 <= i < before.len() && record_id(before, i) == record_id(records, last);
                    assert(record_id(records, i) != record_id(records, last));
                }
            }
        }
    }
}

/// A mapping that holds exactly the ids of a list without repeated ids, and
/// for each what its record holds, is the mapping of that list.
pub proof fn lemma_map_of_records(
    records: Seq<(String, AuthorizedDevice)>,
    map: Map<Seq<char>, DeviceView>,
)
    requires
        ids_distinct(records),
        forall|id: Seq<char>| #[trigger] map.contains_key(id) <==> holds_id(records, id),
        forall|i: int|
            0 <= i < records.len() ==> map[#[trigger] record_id(records, i)] == records[i].1@,
    ensures
        map == records_map(records),
{
    lemma_records_map(records);
}

/// The allow-list: a mapping from device id to `AuthorizedDevice`.
pub struct AuthorizedStore {
    devices: Vec<(String, AuthorizedDevice)>,
}

impl View for AuthorizedStore {
    type V = Map<Seq<char>, DeviceView>;

    closed spec fn view(&self) -> Map<Seq<char>, DeviceView> {
        records_map(self.devices@)
    }
}

impl Clone for AuthorizedStore {
    /// A copy made by writing the records out and reading them back: the
    /// round trip through `list` and `from_records` keeps the mapping.
    fn clone(&self) -> (copy: Self)
        ensures
            copy@ == self@,
    {
        AuthorizedStore::from_records(self.list())
    }
}

/// Where the record of `id` stands, if there is one.
fn position(records: &Vec<(String, AuthorizedDevice)>, id: &String) -> (found: Option<usize>)
    ensures
        match found {
            Some(i) => i < records.len() && record_id(records@, i as int) == id@,
            None => !holds_id(records@, id@),
        },
{
    let mut i: usize = 0;
    while i < records.len()
        invariant
            i <= records.len(),
            forall|k: int| 0 <= k < i ==> #[trigger] record_id(records@, k) != id@,
        decreases records.len() - i,
    {
        if records[i].0 == *id {
            return Some(i);
        }
        i = i + 1;
    }
    None
}

impl AuthorizedStore {
    #[verifier::type_invariant]
    spec fn well_formed(&self) -> bool {
        ids_distinct(self.devices@)
    }

    /// The empty allow-list.
    pub fn new() -> (store: Self)
        ensures
            store@ == Map::<Seq<char>, DeviceView>::empty(),
    {
        AuthorizedStore { devices: Vec::new() }
    }

    /// The number of trusted devices.
    pub fn len(&self) -> (count: usize)
        ensures
            count == self@.len(),
            self@.dom().finite(),
    {
        proof {
            use_type_invariant(self);
            lemma_records_map(self.devices@);
        }
        self.devices.len()
    }

    /// Whether `device_id` is on the list.
    pub fn contains(&self, device_id: &str) -> (held: bool)
        ensures
            held == self@.contains_key(device_id@),
    {
        proof {
            lemma_records_map(self.devices@);
        }
        let wanted = device_id.to_owned();
        position(&self.devices, &wanted).is_some()
    }

    /// What is kept of `device_id`, if it is on the list.
    pub fn get(&self, device_id: &str) -> (found: Option<&AuthorizedDevice>)
        ensures
            match found {
                Some(device) => self@.contains_key(device_id@) && device@ == self@[device_id@],
                None => !self@.contains_key(device_id@),
            },
    {
        proof {
            use_type_invariant(self);
            lemma_records_map(self.devices@);
        }
        let wanted = device_id.to_owned();
        match position(&self.devices, &wanted) {
            Some(i) => Some(&self.devices[i].1),
            None => None,
        }
    }

    /// Puts `device_id` on the list with a new credential, first seen and
    /// last seen at `now`. What was kept of the id before is replaced.
    pub fn upsert(
        &mut self,
        device_id: String,
        name: Option<String>,
        token_hash: String,
        now: i64,
    )
        ensures
            final(self)@ == old(self)@.insert(
                device_id@,
                (DeviceView {
                    name: name_view(name),
                    token_hash: token_hash@,
                    added_at: now,
                    last_seen: now,
                }),
            ),
    {
        proof {
            use_type_invariant(&*self);
        }
        let mut devices: Vec<(String, AuthorizedDevice)> = Vec::new();
        std::mem::swap(&mut devices, &mut self.devices);
        let ghost before = devices@;
        let device = AuthorizedDevice { name, token_hash, added_at: now, last_seen: now };
        match position(&devices, &device_id) {
            Some(i) => {
                devices.set(i, (device_id, device));
                proof {
                    lemma_replaced(before, devices@, i as int);
                }
            },
            None => {
                devices.push((device_id, device));
                proof {
                    lemma_appended(before, devices@);
                }
            },
        }
        self.devices = devices;
    }

    /// Takes `device_id` off the list, and says whether it was on it.
    pub fn remove(&mut self, device_id: &str) -> (removed: bool)
        ensures
            final(self)@ == old(self)@.remove(device_id@),
            removed == old(self)@.contains_key(device_id@),
    {
        proof {
            use_type_invariant(&*self);
            lemma_records_map(self.devices@);
        }
        let wanted = device_id.to_owned();
        let mut devices: Vec<(String, AuthorizedDevice)> = Vec::new();
        std::mem::swap(&mut devices, &mut self.devices);
        let ghost before = devices@;
        let removed = match position(&devices, &wanted) {
            Some(i) => {
                devices.remove(i);
                proof {
                    lemma_removed(before, devices@, i as int);
                }
                true
            },
            None => {
                false
            },
        };
        self.devices = devices;
        removed
    }

    /// Whether `token` is the credential of `device_id`: the hash of the
    /// token is compared with the hash that is kept.
    pub fn is_authorized(&self, device_id: &str, token: &str) -> (granted: bool)
        ensures
            granted == (self@.contains_key(device_id@) && self@[device_id@].token_hash
                == credential_hash(token@)),
    {
        let token_hash = sha256_hex(token);
        match self.get(device_id) {
            Some(device) => device.token_hash == token_hash,
            None => false,
        }
    }

    /// Sets the last-seen time of `device_id`, and says whether it is on the
    /// list. A list without the id is left as it is.
    pub fn touch(&mut self, device_id: &str, now: i64) -> (known: bool)
        ensures
            known == old(self)@.contains_key(device_id@),
            final(self)@ == if known {
                old(self)@.insert(
                    device_id@,
                    (DeviceView { last_seen: now, ..old(self)@[device_id@] }),
                )
            } else {
                old(self)@
            },
    {
        proof {
            use_type_invariant(&*self);
            lemma_records_map(self.devices@);
        }
        let wanted = device_id.to_owned();
        let mut devices: Vec<(String, AuthorizedDevice)> = Vec::new();
        std::mem::swap(&mut devices, &mut self.devices);
        let ghost before = devices@;
        let known = match position(&devices, &wanted) {
            Some(i) => {
                let held = &devices[i].1;
                let device = AuthorizedDevice {
                    name: clone_name(&held.name),
                    token_hash: held.token_hash.clone(),
                    added_at: held.added_at,
                    last_seen: now,
                };
                devices.set(i, (wanted, device));
                proof {
                    lemma_replaced(before, devices@, i as int);
                }
                true
            },
            None => false,
        };
        self.devices = devices;
        known
    }

    /// The records of the list, most recently seen first: each id once, with
    /// what is kept of it.
    pub fn list(&self) -> (records: Vec<(String, AuthorizedDevice)>)
        ensures
            records_map(records@) == self@,
            ids_distinct(records@),
            records@.len() == self@.len(),
            newest_first(records@),
    {
        proof {
            use_type_invariant(self);
            lemma_records_map(self.devices@);
        }
        let mut records: Vec<(String, AuthorizedDevice)> = Vec::new();
        let mut k: usize = 0;
        while k < self.devices.len()
            invariant
                k <= self.devices.len(),
                ids_distinct(self.devices@),
                records@.len() == k,
                ids_distinct(records@),
                newest_first(records@),
                records_map(records@) == records_map(self.devices@.take(k as int)),
            decreases self.devices.len() - k,
        {
            let id = self.devices[k].0.clone();
            let device = self.devices[k].1.clone();
            let seen = device.last_seen;
            let mut at: usize = 0;
            while at < records.len() && records[at].1.last_seen >= seen
                invariant
                    at <= records.len(),
                    forall|i: int| 0 <= i < at ==> (#[trigger] records@[i]).1.last_seen >= seen,
                decreases records.len() - at,
            {
                at = at + 1;
            }
            let ghost sorted = records@;
            let ghost seen_so_far = self.devices@.take(k as int);
            proof {
                lemma_records_map(sorted);
                lemma_records_map(seen_so_far);
                assert(!holds_id(seen_so_far, id@)) by {
                    if holds_id(seen_so_far, id@) {
                        let i = choose|i: int|
                            0 <= i < seen_so_far.len() && record_id(seen_so_far, i) == id@;
                        assert(record_id(self.devices@, i) != record_id(self.devices@, k as int));
                    }
                }
                assert(!records_map(sorted).contains_key(id@));
            }
            records.insert(at, (id, device));
            proof {
                lemma_inserted(sorted, records@, at as int);
                assert(self.devices@.take(k + 1).drop_last() =~= seen_so_far);
            }
            k = k + 1;
        }
        assert(self.devices@.take(k as int) =~= self.devices@);
        records
    }

    /// The allow-list that a list of records stands for. Where an id occurs
    /// more than once, the last record with it counts.
    pub fn from_records(records: Vec<(String, AuthorizedDevice)>) -> (store: Self)
        ensures
            store@ == records_map(records@),
    {
        let mut devices: Vec<(String, AuthorizedDevice)> = Vec::new();
        let mut k: usize = 0;
        while k < records.len()
            invariant
                k <= records.len(),
                ids_distinct(devices@),
                records_map(devices@) == records_map(records@.take(k as int)),
            decreases records.len() - k,
        {
            let id = records[k].0.clone();
            let device = records[k].1.clone();
            let ghost before = devices@;
            match position(&devices, &id) {
                Some(i) => {
                    devices.set(i, (id, device));
                    proof {
                        lemma_replaced(before, devices@, i as int);
                    }
                },
                None => {
                    devices.push((id, device));
                    proof {
                        lemma_appended(before, devices@);
                    }
                },
            }
            assert(records@.take(k + 1).drop_last() =~= records@.take(k as int));
            k = k + 1;
        }
        assert(records@.take(k as int) =~= records@);
        AuthorizedStore { devices }
    }
}

/// Replacing the record at `at` by one with the same id replaces what the
/// mapping holds for that id.
proof fn lemma_replaced(
    before: Seq<(String, AuthorizedDevice)>,
    after: Seq<(String, AuthorizedDevice)>,
    at: int,
)
    requires
        ids_distinct(before),
        0 <= at < before.len(),
        after == before.update(at, after[at]),
        record_id(after, at) == record_id(before, at),
    ensures
        ids_distinct(after),
        records_map(after) == records_map(before).insert(record_id(after, at), after[at].1@),
{
    lemma_records_map(before);
    let map = records_map(before).insert(record_id(after, at), after[at].1@);
    assert forall|i: int| 0 <= i < before.len() implies record_id(after, i) == record_id(
        before,
        i,
    ) by {}
    lemma_map_of_records(after, map);
}

/// Taking out the record at `at` takes its id out of the mapping.
proof fn lemma_removed(
    before: Seq<(String, AuthorizedDevice)>,
    after: Seq<(String, AuthorizedDevice)>,
    at: int,
)
    requires
        ids_distinct(before),
        0 <= at < before.len(),
        after == before.remove(at),
    ensures
        ids_distinct(after),
        records_map(after) == records_map(before).remove(record_id(before, at)),
{
    lemma_records_map(before);
    let gone = record_id(before, at);
    let map = records_map(before).remove(gone);
    assert forall|i: int| 0 <= i < after.len() implies record_id(after, i) == record_id(
        before,
        if i < at {
            i
        } else {
            i + 1
        },
    ) by {}
    assert forall|id: Seq<char>| #[trigger] map.contains_key(id) <==> holds_id(after, id) by {
        if holds_id(after, id) {
            let i = choose|i: int| 0 <= i < after.len() && record_id(after, i) == id;
            let bi = if i < at {
                i
            } else {
                i + 1
            };
            assert(record_id(before, bi) == id);
        }
        if map.contains_key(id) {
            let i = choose|i: int| 0 <= i < before.len() && record_id(before, i) == id;
            let ai = if i < at {
                i
            } else {
                i - 1
            };
            assert(record_id(after, ai) == id);
        }
    }
    lemma_map_of_records(after, map);
}

/// Appending a record with a new id adds it to the mapping.
proof fn lemma_appended(
    before: Seq<(String, AuthorizedDevice)>,
    after: Seq<(String, AuthorizedDevice)>,
)
    requires
        ids_distinct(before),
        after == before.push(after.last()),
        !holds_id(before, after.last().0@),
    ensures
        ids_distinct(after),
        records_map(after) == records_map(before).insert(after.last().0@, after.last().1@),
{
    assert(after =~= before.insert(before.len() as int, after.last()));
    lemma_inserted(before, after, before.len() as int);
}

/// Putting a record with a new id anywhere into the list adds it to the
/// mapping.
proof fn lemma_inserted(
    before: Seq<(String, AuthorizedDevice)>,
    after: Seq<(String, AuthorizedDevice)>,
    at: int,
)
    requires
        ids_distinct(before),
        0 <= at <= before.len(),
        after == before.insert(at, after[at]),
        !holds_id(before, record_id(after, at)),
    ensures
        ids_distinct(after),
        records_map(after) == records_map(before).insert(record_id(after, at), after[at].1@),
{
    lemma_records_map(before);
    let added = record_id(after, at);
    let map = records_map(before).insert(added, after[at].1@);
    assert forall|i: int, j: int| 0 <= i < j < after.len() implies #[trigger] record_id(after, i)
        != #[trigger] record_id(after, j) by {
        let bi = if i < at {
            i
        } else {
            i - 1
        };
        let bj = if j < at {
            j
        } else {
            j - 1
        };
        if i != at && j != at {
            assert(record_id(before, bi) != record_id(before, bj));
            assert(record_id(before, bi) == record_id(after, i));
            assert(record_id(before, bj) == record_id(after, j));
        } else if i == at {
            assert(record_id(before, bj) == record_id(after, j));
        } else {
            assert(record_id(before, bi) == record_id(after, i));
        }
    }
    assert forall|id: Seq<char>| #[trigger] map.contains_key(id) <==> holds_id(after, id) by {
        if holds_id(after, id) {
            let i = choose|i: int| 0 <= i < after.len() && record_id(after, i) == id;
            if i != at {
                let bi = if i < at {
                    i
                } else {
                    i - 1
                };
                assert(record_id(before, bi) == id);
            }
        }
        if map.contains_key(id) {
            if id == added {
                assert(record_id(after, at) == id);
            } else {
                let i = choose|i: int| 0 <= i < before.len() && record_id(before, i) == id;
                let ai = if i < at {
                    i
                } else {
                    i + 1
                };
                assert(record_id(after, ai) == id);
            }
        }
    }
    assert forall|i: int| 0 <= i < after.len() implies map[#[trigger] record_id(after, i)]
        == after[i].1@ by {
        if i != at {
            let bi = if i < at {
                i
            } else {
                i - 1
            };
            assert(record_id(before, bi) == record_id(after, i));
            assert(after[i] == before[bi]);
        }
    }
    lemma_map_of_records(after, map);
}

} // verus!
