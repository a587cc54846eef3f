//! The pairing authority: the pairing code, the single active session, the
//! allow-list and the rate limiter, and the rules that decide every pairing
//! and authentication attempt.
//!
//! The rules are spec functions on `PairingView`, the state as plain values.
//! Each executable function ending in `_at` takes its readings of the clocks,
//! and the token it may issue, as arguments, and is proved to follow those
//! rules for every value of them; the function of the same name without the
//! ending reads the state's own clocks, and draws the token, first.

use crate::auth_store::{
    ids_distinct,
    name_view,
    newest_first,
    records_map,
    AuthorizedDevice,
    AuthorizedStore,
    DeviceView,
};
use crate::clock::{unix_secs, Clock, Reading};
use crate::digest::{credential_hash, generate_token, is_token, sha256_hex, EntropyError};
use crate::rate_limit::{account_of, elapsed_since, RateCheck, RateLimitEntry, RateLimiter, SourceAddr};
use vstd::prelude::*;
use vstd::string::StringExecFns;

verus! {

/// Lifetime of a pairing code, in milliseconds.
pub const PAIRING_TTL_MS: u64 = 300_000;

/// Silence after which the active session is reclaimed, in milliseconds.
pub const PAIRING_IDLE_TIMEOUT_MS: u64 = 10_000;

/// Period at which the watchdog looks at the session, in milliseconds.
pub const WATCHDOG_PERIOD_MS: u64 = 5_000;

/// The decimal digit of a value below ten.
pub open spec fn decimal_digit(value: int) -> char {
    seq!['0', '1', '2', '3', '4', '5', '6', '7', '8', '9'][value]
}

/// The pairing code of a wall-clock reading: the last six decimal digits of
/// the seconds, the most significant first.
pub open spec fn pairing_code_for(secs: u64) -> Seq<char> {
    let n = secs as int % 1_000_000;
    seq![
        decimal_digit(n / 100_000 % 10),
        decimal_digit(n / 10_000 % 10),
        decimal_digit(n / 1_000 % 10),
        decimal_digit(n / 100 % 10),
        decimal_digit(n / 10 % 10),
        decimal_digit(n % 10),
    ]
}

/// The shape of a pairing code: six decimal digits.
pub open spec fn is_pairing_code(code: Seq<char>) -> bool {
    &&& code.len() == 6
    &&& forall|i: int| 0 <= i < 6 ==> '0' <= #[trigger] code[i] <= '9'
}

fn digit_text(value: u64) -> (text: &'static str)
    requires
        value < 10,
    ensures
        text@ == seq![decimal_digit(value as int)],
{
    proof {
        reveal_strlit("0");
        reveal_strlit("1");
        reveal_strlit("2");
        reveal_strlit("3");
        reveal_strlit("4");
        reveal_strlit("5");
        reveal_strlit("6");
        reveal_strlit("7");
        reveal_strlit("8");
        reveal_strlit("9");
    }
    let text = if value == 0 {
        "0"
    } else if value == 1 {
        "1"
    } else if value == 2 {
        "2"
    } else if value == 3 {
        "3"
    } else if value == 4 {
        "4"
    } else if value == 5 {
        "5"
    } else if value == 6 {
        "6"
    } else if value == 7 {
        "7"
    } else if value == 8 {
        "8"
    } else {
        "9"
    };
    text
}

/// The pairing code of a wall-clock reading.
pub fn pairing_code_from_secs(secs: u64) -> (code: String)
    ensures
        code@ == pairing_code_for(secs),
        is_pairing_code(code@),
{
    let n: u64 = secs % 1_000_000;
    let mut code = String::new();
    code.append(digit_text(n / 100_000 % 10));
    code.append(digit_text(n / 10_000 % 10));
    code.append(digit_text(n / 1_000 % 10));
    code.append(digit_text(n / 100 % 10));
    code.append(digit_text(n / 10 % 10));
    code.append(digit_text(n % 10));
    assert(code@ =~= pairing_code_for(secs));
    code
}

/// A pairing code from the wall clock as it stands.
pub fn generate_pairing_code() -> (code: String)
    ensures
        is_pairing_code(code@),
        exists|secs: u64| code@ == #[trigger] pairing_code_for(secs),
{
    pairing_code_from_secs(unix_secs())
}

/// The one device that may issue commands.
#[derive(Debug, PartialEq, Eq)]
pub struct ActiveSession {
    pub device_id: String,
    pub source: SourceAddr,
    pub last_seen: u64,
}

/// An `ActiveSession` as plain values.
pub struct SessionView {
    pub device_id: Seq<char>,
    pub source: SourceAddr,
    pub last_seen: u64,
}

impl View for ActiveSession {
    type V = SessionView;

    open spec fn view(&self) -> SessionView {
        SessionView { device_id: self.device_id@, source: self.source, last_seen: self.last_seen }
    }
}

/// An optional session as plain values.
pub open spec fn session_view(session: Option<ActiveSession>) -> Option<SessionView> {
    match session {
        Some(active) => Some(active@),
        None => None,
    }
}

/// How the authority answers a pairing attempt, before any token is issued.
#[derive(Debug, Clone, Copy, PartialEq, Eq)]
pub enum PairingVerdict {
    RateLimited(u64),
    InvalidCode,
    Accepted,
}

/// Outcome of a pairing attempt. `Paired` carries the token in plain text,
/// the only time it is ever handed out.
#[derive(Debug, PartialEq, Eq)]
pub enum PairingOutcome {
    RateLimited(u64),
    InvalidCode,
    Paired(String),
}

impl PairingOutcome {
    /// The verdict that led to the outcome.
    pub open spec fn verdict(self) -> PairingVerdict {
        match self {
            PairingOutcome::RateLimited(secs) => PairingVerdict::RateLimited(secs),
            PairingOutcome::InvalidCode => PairingVerdict::InvalidCode,
            PairingOutcome::Paired(_) => PairingVerdict::Accepted,
        }
    }
}

/// Outcome of an authentication attempt.
#[derive(Debug, Clone, Copy, PartialEq, Eq)]
pub enum AuthOutcome {
    RateLimited(u64),
    InvalidCredential,
    Authenticated,
}

/// What the watchdog does after it has looked at the session.
#[derive(Debug, Clone, Copy, PartialEq, Eq)]
pub enum WatchdogStep {
    /// Sleep for so many milliseconds, then look again.
    Sleep(u64),
    /// The service is shutting down: end.
    Stop,
}

/// The state of the authority as plain values.
pub struct PairingView {
    pub code: Seq<char>,
    pub created_at: u64,
    pub session: Option<SessionView>,
    pub devices: Map<Seq<char>, DeviceView>,
    pub limits: Map<SourceAddr, RateLimitEntry>,
}

impl PairingView {
    /// The pairing code is older than its lifetime.
    pub open spec fn expired(self, now: u64) -> bool {
        elapsed_since(self.created_at, now) > PAIRING_TTL_MS
    }

    /// A session is active and has been silent for longer than the timeout.
    pub open spec fn idle_too_long(self, now: u64) -> bool {
        match self.session {
            Some(active) => elapsed_since(active.last_seen, now) > PAIRING_IDLE_TIMEOUT_MS,
            None => false,
        }
    }

    /// The id of the device that holds the session.
    pub open spec fn active_device(self) -> Option<Seq<char>> {
        match self.session {
            Some(active) => Some(active.device_id),
            None => None,
        }
    }

    /// The source from which the session was opened.
    pub open spec fn active_source(self) -> Option<SourceAddr> {
        match self.session {
            Some(active) => Some(active.source),
            None => None,
        }
    }

    /// When the holder of the session was last heard.
    pub open spec fn last_seen(self) -> Option<u64> {
        match self.session {
            Some(active) => Some(active.last_seen),
            None => None,
        }
    }

    /// `device_id` holds the active session.
    pub open spec fn is_session_owner(self, device_id: Seq<char>) -> bool {
        self.active_device() == Some(device_id)
    }

    /// `token` is the credential of `device_id`.
    pub open spec fn is_authorized(self, device_id: Seq<char>, token: Seq<char>) -> bool {
        self.devices.contains_key(device_id) && self.devices[device_id].token_hash
            == credential_hash(token)
    }

    /// The state without an active session.
    pub open spec fn cleared(self) -> Self {
        PairingView { session: None, ..self }
    }

    /// The state after the watchdog has looked at it.
    pub open spec fn expire_idle(self, now: u64) -> Self {
        if self.idle_too_long(now) {
            self.cleared()
        } else {
            self
        }
    }

    /// The state after `device_id` is taken off the allow-list: the session
    /// ends if that device held it and stays otherwise.
    pub open spec fn revoked(self, device_id: Seq<char>) -> Self {
        PairingView {
            devices: self.devices.remove(device_id),
            session: if self.is_session_owner(device_id) {
                None
            } else {
                self.session
            },
            ..self
        }
    }

    /// The allow-list after `device_id` was seen at `unix`.
    pub open spec fn devices_seen(self, device_id: Seq<char>, unix: i64) -> Map<
        Seq<char>,
        DeviceView,
    > {
        if self.devices.contains_key(device_id) {
            self.devices.insert(
                device_id,
                DeviceView { last_seen: unix, ..self.devices[device_id] },
            )
        } else {
            self.devices
        }
    }

    /// The session after a sign of life at `now`.
    pub open spec fn session_seen(self, now: u64) -> Option<SessionView> {
        match self.session {
            Some(active) => Some(SessionView { last_seen: now, ..active }),
            None => None,
        }
    }

    /// The state after a command of `device_id`: an active session counts as
    /// heard, and the record of the device, if it has one, is dated.
    pub open spec fn touched(self, device_id: Seq<char>, at: Reading) -> Self {
        PairingView {
            session: self.session_seen(at.mono_ms),
            devices: self.devices_seen(device_id, at.unix_time()),
            ..self
        }
    }

    /// The state after the holder of the session was heard.
    pub open spec fn seen(self, at: Reading) -> Self {
        match self.session {
            Some(active) => self.touched(active.device_id, at),
            None => self,
        }
    }

    /// The state after `device_id` is put on the allow-list at `unix`.
    pub open spec fn upserted(
        self,
        device_id: Seq<char>,
        token_hash: Seq<char>,
        name: Option<Seq<char>>,
        unix: i64,
    ) -> Self {
        PairingView {
            devices: self.devices.insert(
                device_id,
                DeviceView { name, token_hash, added_at: unix, last_seen: unix },
            ),
            ..self
        }
    }

    /// The failure account of `source`.
    pub open spec fn account(self, source: SourceAddr, now: u64) -> RateLimitEntry {
        account_of(self.limits, source, now)
    }

    /// The state after a failure of `source` is counted.
    pub open spec fn failure_counted(self, source: SourceAddr, now: u64) -> Self {
        PairingView {
            limits: self.limits.insert(source, self.account(source, now).after_failure(now)),
            ..self
        }
    }

    /// The state after a success of `source` is counted.
    pub open spec fn success_counted(self, source: SourceAddr, now: u64) -> Self {
        PairingView {
            limits: self.limits.insert(source, self.account(source, now).after_success(now)),
            ..self
        }
    }

    /// A code that has expired is replaced, but only while no session is
    /// active.
    pub open spec fn rotation_due(self, now: u64) -> bool {
        self.expired(now) && self.session is None
    }

    /// The state after the code was rotated, if rotation was due.
    pub open spec fn rotated(self, at: Reading) -> Self {
        if self.rotation_due(at.mono_ms) {
            PairingView {
                code: pairing_code_for(at.unix_secs),
                created_at: at.mono_ms,
                ..self
            }
        } else {
            self
        }
    }

    /// How a pairing attempt is answered: a locked source is turned away;
    /// then the code, rotated if due, must equal the code presented.
    pub open spec fn pairing_verdict(
        self,
        code: Seq<char>,
        source: SourceAddr,
        at: Reading,
    ) -> PairingVerdict {
        let account = self.account(source, at.mono_ms);
        if account.locked(at.mono_ms) {
            PairingVerdict::RateLimited(account.remaining(at.mono_ms) as u64)
        } else if self.rotated(at).code != code {
            PairingVerdict::InvalidCode
        } else {
            PairingVerdict::Accepted
        }
    }

    /// The state after a pairing attempt. Of the token only the hash enters.
    pub open spec fn after_pairing(
        self,
        code: Seq<char>,
        device_id: Seq<char>,
        name: Option<Seq<char>>,
        source: SourceAddr,
        token_hash: Seq<char>,
        at: Reading,
    ) -> Self {
        match self.pairing_verdict(code, source, at) {
            PairingVerdict::RateLimited(_) => self,
            PairingVerdict::InvalidCode => self.rotated(at).failure_counted(source, at.mono_ms),
            PairingVerdict::Accepted => PairingView {
                session: Some(SessionView { device_id, source, last_seen: at.mono_ms }),
                ..self.rotated(at).success_counted(source, at.mono_ms).upserted(
                    device_id,
                    token_hash,
                    name,
                    at.unix_time(),
                )
            },
        }
    }

    /// How an authentication attempt is answered.
    pub open spec fn auth_outcome(
        self,
        device_id: Seq<char>,
        token: Seq<char>,
        source: SourceAddr,
        at: Reading,
    ) -> AuthOutcome {
        let account = self.account(source, at.mono_ms);
        if account.locked(at.mono_ms) {
            AuthOutcome::RateLimited(account.remaining(at.mono_ms) as u64)
        } else if self.is_authorized(device_id, token) {
            AuthOutcome::Authenticated
        } else {
            AuthOutcome::InvalidCredential
        }
    }

    /// The state after an authentication attempt.
    pub open spec fn after_auth(
        self,
        device_id: Seq<char>,
        token: Seq<char>,
        source: SourceAddr,
        at: Reading,
    ) -> Self {
        match self.auth_outcome(device_id, token, source, at) {
            AuthOutcome::RateLimited(_) => self,
            AuthOutcome::InvalidCredential => self.failure_counted(source, at.mono_ms),
            AuthOutcome::Authenticated => PairingView {
                session: Some(SessionView { device_id, source, last_seen: at.mono_ms }),
                devices: self.devices_seen(device_id, at.unix_time()),
                ..self.success_counted(source, at.mono_ms)
            },
        }
    }
}

/// The pairing authority.
pub struct PairingState {
    code: String,
    created_at: u64,
    session: Option<ActiveSession>,
    store: AuthorizedStore,
    rate_limit: RateLimiter,
    clock: Clock,
}

impl View for PairingState {
    type V = PairingView;

    closed spec fn view(&self) -> PairingView {
        PairingView {
            code: self.code@,
            created_at: self.created_at,
            session: session_view(self.session),
            devices: self.store@,
            limits: self.rate_limit@,
        }
    }
}

impl PairingState {
    /// An authority with the code `code`, issued at `created_at`, no active
    /// session, the allow-list `store` and no failures on record.
    pub fn new_at(code: String, store: AuthorizedStore, created_at: u64) -> (state: Self)
        ensures
            state@ == (PairingView {
                code: code@,
                created_at,
                session: None,
                devices: store@,
                limits: Map::empty(),
            }),
    {
        PairingState {
            code,
            created_at,
            session: None,
            store,
            rate_limit: RateLimiter::new(),
            clock: Clock::new(),
        }
    }

    /// An authority whose code is issued now.
    pub fn new(code: String, store: AuthorizedStore) -> (state: Self)
        ensures
            state@.code == code@,
            state@.session is None,
            state@.devices == store@,
            state@.limits == Map::<SourceAddr, RateLimitEntry>::empty(),
    {
        let clock = Clock::new();
        let created_at = clock.now_ms();
        PairingState {
            code,
            created_at,
            session: None,
            store,
            rate_limit: RateLimiter::new(),
            clock,
        }
    }

    /// A reading of the state's clocks.
    pub fn read_clock(&self) -> (at: Reading) {
        self.clock.read()
    }

    /// The pairing code in force.
    pub fn code(&self) -> (code: String)
        ensures
            code@ == self@.code,
    {
        self.code.clone()
    }

    /// When the pairing code was issued.
    pub fn created_at(&self) -> (created_at: u64)
        ensures
            created_at == self@.created_at,
    {
        self.created_at
    }

    /// The device that holds the session.
    pub fn active_device_id(&self) -> (device_id: Option<String>)
        ensures
            name_view(device_id) == self@.active_device(),
    {
        match &self.session {
            Some(active) => Some(active.device_id.clone()),
            None => None,
        }
    }

    /// The source from which the session was opened.
    pub fn active_client_ip(&self) -> (source: Option<SourceAddr>)
        ensures
            source == self@.active_source(),
    {
        match &self.session {
            Some(active) => Some(active.source),
            None => None,
        }
    }

    /// When the holder of the session was last heard.
    pub fn last_seen(&self) -> (last_seen: Option<u64>)
        ensures
            last_seen == self@.last_seen(),
            last_seen is Some <==> self@.active_device() is Some,
    {
        match &self.session {
            Some(active) => Some(active.last_seen),
            None => None,
        }
    }

    /// Whether the pairing code is older than its lifetime at `now`.
    pub fn is_expired_at(&self, now: u64) -> (expired: bool)
        ensures
            expired == self@.expired(now),
    {
        now >= self.created_at && now - self.created_at > PAIRING_TTL_MS
    }

    /// Whether the pairing code is older than its lifetime.
    pub fn is_expired(&self) -> (expired: bool)
        ensures
            exists|now: u64| expired == #[trigger] self@.expired(now),
    {
        let at = self.clock.read();
        self.is_expired_at(at.mono_ms)
    }

    /// Whether a session is active and has been silent for longer than the
    /// timeout at `now`.
    pub fn is_idle_too_long_at(&self, now: u64) -> (idle: bool)
        ensures
            idle == self@.idle_too_long(now),
    {
        match &self.session {
            Some(active) => now >= active.last_seen && now - active.last_seen
                > PAIRING_IDLE_TIMEOUT_MS,
            None => false,
        }
    }

    /// Whether a session is active and has been silent for longer than the
    /// timeout.
    pub fn is_idle_too_long(&self) -> (idle: bool)
        ensures
            exists|now: u64| idle == #[trigger] self@.idle_too_long(now),
    {
        let at = self.clock.read();
        self.is_idle_too_long_at(at.mono_ms)
    }

    /// Whether `device_id` holds the active session.
    pub fn is_session_owner(&self, device_id: &str) -> (owner: bool)
        ensures
            owner == self@.is_session_owner(device_id@),
    {
        match &self.session {
            Some(active) => {
                let claimed = device_id.to_owned();
                active.device_id == claimed
            },
            None => false,
        }
    }

    /// Ends the active session.
    pub fn clear_active(&mut self)
        ensures
            final(self)@ == old(self)@.cleared(),
    {
        self.session = None;
    }

    /// The watchdog's step: ends a session that has been silent for longer
    /// than the timeout, and says whether it did.
    pub fn expire_idle_if_needed_at(&mut self, now: u64) -> (expired: bool)
        ensures
            expired == old(self)@.idle_too_long(now),
            final(self)@ == old(self)@.expire_idle(now),
    {
        if self.is_idle_too_long_at(now) {
            self.session = None;
            true
        } else {
            false
        }
    }

    /// The watchdog's step as of now.
    pub fn expire_idle_if_needed(&mut self) -> (expired: bool)
        ensures
            exists|now: u64|
                expired == old(self)@.idle_too_long(now) && final(self)@
                    == #[trigger] old(self)@.expire_idle(now),
    {
        let at = self.clock.read();
        self.expire_idle_if_needed_at(at.mono_ms)
    }

    /// One round of the watchdog. While the service runs, a session that has
    /// been silent for too long is ended and the watchdog sleeps for its
    /// period; once the service is cancelled, nothing changes and the
    /// watchdog ends.
    pub fn watchdog_step_at(&mut self, cancelled: bool, now: u64) -> (step: WatchdogStep)
        ensures
            step == if cancelled {
                WatchdogStep::Stop
            } else {
                WatchdogStep::Sleep(WATCHDOG_PERIOD_MS)
            },
            final(self)@ == if cancelled {
                old(self)@
            } else {
                old(self)@.expire_idle(now)
            },
    {
        if cancelled {
            WatchdogStep::Stop
        } else {
            self.expire_idle_if_needed_at(now);
            WatchdogStep::Sleep(WATCHDOG_PERIOD_MS)
        }
    }

    /// One round of the watchdog as of now.
    pub fn watchdog_step(&mut self, cancelled: bool) -> (step: WatchdogStep)
        ensures
            step == if cancelled {
                WatchdogStep::Stop
            } else {
                WatchdogStep::Sleep(WATCHDOG_PERIOD_MS)
            },
            cancelled ==> final(self)@ == old(self)@,
            !cancelled ==> exists|now: u64| final(self)@ == #[trigger] old(self)@.expire_idle(now),
    {
        let at = self.clock.read();
        self.watchdog_step_at(cancelled, at.mono_ms)
    }

    /// A command of `device_id` arrived: an active session counts as heard,
    /// and the record of the device is dated. Says whether the allow-list
    /// changed and is to be written out.
    pub fn touch_at(&mut self, device_id: &str, at: Reading) -> (persist: bool)
        ensures
            final(self)@ == old(self)@.touched(device_id@, at),
            persist == old(self)@.devices.contains_key(device_id@),
    {
        let now = at.mono_ms;
        let mut session: Option<ActiveSession> = None;
        std::mem::swap(&mut session, &mut self.session);
        self.session = match session {
            Some(active) => Some(
                ActiveSession { device_id: active.device_id, source: active.source, last_seen: now },
            ),
            None => None,
        };
        self.store.touch(device_id, at.unix())
    }

    /// A command of `device_id` arrived just now.
    pub fn touch(&mut self, device_id: &str) -> (persist: bool)
        ensures
            exists|at: Reading| final(self)@ == #[trigger] old(self)@.touched(device_id@, at),
            persist == old(self)@.devices.contains_key(device_id@),
    {
        let at = self.clock.read();
        self.touch_at(device_id, at)
    }

    /// The holder of the session was heard at `at`. Says whether the
    /// allow-list changed and is to be written out.
    pub fn mark_seen_at(&mut self, at: Reading) -> (persist: bool)
        ensures
            final(self)@ == old(self)@.seen(at),
            persist == match old(self)@.active_device() {
                Some(device_id) => old(self)@.devices.contains_key(device_id),
                None => false,
            },
    {
        match self.active_device_id() {
            Some(device_id) => self.touch_at(device_id.as_str(), at),
            None => false,
        }
    }

    /// The holder of the session was heard just now.
    pub fn mark_seen(&mut self) -> (persist: bool)
        ensures
            exists|at: Reading| final(self)@ == #[trigger] old(self)@.seen(at),
            persist == match old(self)@.active_device() {
                Some(device_id) => old(self)@.devices.contains_key(device_id),
                None => false,
            },
    {
        let at = self.clock.read();
        self.mark_seen_at(at)
    }

    /// The number of trusted devices.
    pub fn authorized_count(&self) -> (count: usize)
        ensures
            count == self@.devices.len(),
    {
        self.store.len()
    }

    /// The trusted devices, most recently seen first.
    pub fn list_authorized(&self) -> (records: Vec<(String, AuthorizedDevice)>)
        ensures
            records_map(records@) == self@.devices,
            ids_distinct(records@),
            records@.len() == self@.devices.len(),
            newest_first(records@),
    {
        self.store.list()
    }

    /// Takes `device_id` off the allow-list; a session that it holds ends.
    pub fn revoke_device(&mut self, device_id: &str)
        ensures
            final(self)@ == old(self)@.revoked(device_id@),
    {
        let owner = self.is_session_owner(device_id);
        self.store.remove(device_id);
        if owner {
            self.session = None;
        }
    }

    /// Whether `token` is the credential of `device_id`.
    pub fn is_authorized(&self, device_id: &str, token: &str) -> (granted: bool)
        ensures
            granted == self@.is_authorized(device_id@, token@),
    {
        self.store.is_authorized(device_id, token)
    }

    /// Puts `device_id` on the allow-list, dated `unix`.
    pub fn upsert_authorized_at(
        &mut self,
        device_id: String,
        token_hash: String,
        device_name: Option<String>,
        unix: i64,
    )
        ensures
            final(self)@ == old(self)@.upserted(
                device_id@,
                token_hash@,
                name_view(device_name),
                unix,
            ),
    {
        self.store.upsert(device_id, device_name, token_hash, unix);
    }

    /// Puts `device_id` on the allow-list, dated now.
    pub fn upsert_authorized(
        &mut self,
        device_id: String,
        token_hash: String,
        device_name: Option<String>,
    )
        ensures
            exists|unix: i64|
                unix >= 0 && final(self)@ == #[trigger] old(self)@.upserted(
                    device_id@,
                    token_hash@,
                    name_view(device_name),
                    unix,
                ),
    {
        let at = self.clock.read();
        self.upsert_authorized_at(device_id, token_hash, device_name, at.unix());
    }

    /// The seconds of lockout that remain for `source`, if it is locked.
    pub fn rl_is_locked_at(&self, source: SourceAddr, now: u64) -> (locked: Option<u64>)
        ensures
            locked == match self@.account(source, now).check(now) {
                RateCheck::Locked(secs) => Some(secs),
                RateCheck::Allowed => None,
            },
    {
        match self.rate_limit.check(source, now) {
            RateCheck::Locked(secs) => Some(secs),
            RateCheck::Allowed => None,
        }
    }

    /// The seconds of lockout that remain for `source` now, if it is locked.
    pub fn rl_is_locked(&self, source: SourceAddr) -> (locked: Option<u64>)
        ensures
            exists|now: u64|
                locked == match (#[trigger] self@.account(source, now)).check(now) {
                    RateCheck::Locked(secs) => Some(secs),
                    RateCheck::Allowed => None,
                },
    {
        let at = self.clock.read();
        self.rl_is_locked_at(source, at.mono_ms)
    }

    /// Counts a success of `source` at `now`.
    pub fn rl_register_success_at(&mut self, source: SourceAddr, now: u64)
        ensures
            final(self)@ == old(self)@.success_counted(source, now),
    {
        self.rate_limit.record_success(source, now);
    }

    /// Counts a success of `source` now.
    pub fn rl_register_success(&mut self, source: SourceAddr)
        ensures
            exists|now: u64| final(self)@ == #[trigger] old(self)@.success_counted(source, now),
    {
        let at = self.clock.read();
        self.rl_register_success_at(source, at.mono_ms);
    }

    /// Counts a failure of `source` at `now`.
    pub fn rl_register_failure_at(&mut self, source: SourceAddr, now: u64)
        ensures
            final(self)@ == old(self)@.failure_counted(source, now),
    {
        self.rate_limit.record_failure(source, now);
    }

    /// Counts a failure of `source` now.
    pub fn rl_register_failure(&mut self, source: SourceAddr)
        ensures
            exists|now: u64| final(self)@ == #[trigger] old(self)@.failure_counted(source, now),
    {
        let at = self.clock.read();
        self.rl_register_failure_at(source, at.mono_ms);
    }

    /// How a pairing attempt would be answered at `at`. Nothing changes.
    pub fn pairing_verdict_at(&self, code: &str, source: SourceAddr, at: Reading) -> (verdict:
        PairingVerdict)
        ensures
            verdict == self@.pairing_verdict(code@, source, at),
    {
        let now = at.mono_ms;
        match self.rate_limit.check(source, now) {
            RateCheck::Locked(secs) => {
                return PairingVerdict::RateLimited(secs);
            },
            RateCheck::Allowed => {},
        }
        let presented = code.to_owned();
        let matches = if self.is_expired_at(now) && self.session.is_none() {
            pairing_code_from_secs(at.unix_secs) == presented
        } else {
            self.code == presented
        };
        if matches {
            PairingVerdict::Accepted
        } else {
            PairingVerdict::InvalidCode
        }
    }

    /// A pairing attempt with the token that is to be issued if it succeeds.
    ///
    /// A locked source is turned away and nothing changes. Otherwise an
    /// expired code is rotated while no session is active; a wrong code counts
    /// as a failure of the source; the right code counts as a success, puts
    /// the device on the allow-list with the hash of `token`, makes it the
    /// holder of the session, and hands the token out.
    pub fn attempt_pairing_at(
        &mut self,
        code: &str,
        device_id: String,
        device_name: Option<String>,
        source: SourceAddr,
        token: String,
        at: Reading,
    ) -> (outcome: PairingOutcome)
        ensures
            outcome.verdict() == old(self)@.pairing_verdict(code@, source, at),
            outcome matches PairingOutcome::Paired(issued) ==> issued@ == token@,
            final(self)@ == old(self)@.after_pairing(
                code@,
                device_id@,
                name_view(device_name),
                source,
                credential_hash(token@),
                at,
            ),
    {
        let now = at.mono_ms;
        match self.rate_limit.check(source, now) {
            RateCheck::Locked(secs) => {
                return PairingOutcome::RateLimited(secs);
            },
            RateCheck::Allowed => {},
        }
        if self.is_expired_at(now) && self.session.is_none() {
            self.code = pairing_code_from_secs(at.unix_secs);
            self.created_at = now;
        }
        let presented = code.to_owned();
        if !(self.code == presented) {
            self.rate_limit.record_failure(source, now);
            return PairingOutcome::InvalidCode;
        }
        self.rate_limit.record_success(source, now);
        let token_hash = sha256_hex(token.as_str());
        self.store.upsert(device_id.clone(), device_name, token_hash, at.unix());
        self.session = Some(ActiveSession { device_id, source, last_seen: now });
        PairingOutcome::Paired(token)
    }

    /// An authentication attempt.
    ///
    /// A locked source is turned away and nothing changes. Otherwise the
    /// right token counts as a success, makes the device the holder of the
    /// session and dates its record; anything else counts as a failure of
    /// the source.
    pub fn attempt_auth_at(
        &mut self,
        device_id: &str,
        token: &str,
        source: SourceAddr,
        at: Reading,
    ) -> (outcome: AuthOutcome)
        ensures
            outcome == old(self)@.auth_outcome(device_id@, token@, source, at),
            final(self)@ == old(self)@.after_auth(device_id@, token@, source, at),
    {
        let now = at.mono_ms;
        match self.rate_limit.check(source, now) {
            RateCheck::Locked(secs) => {
                return AuthOutcome::RateLimited(secs);
            },
            RateCheck::Allowed => {},
        }
        if self.store.is_authorized(device_id, token) {
            self.rate_limit.record_success(source, now);
            self.session = Some(
                ActiveSession { device_id: device_id.to_owned(), source, last_seen: now },
            );
            self.store.touch(device_id, at.unix());
            AuthOutcome::Authenticated
        } else {
            self.rate_limit.record_failure(source, now);
            AuthOutcome::InvalidCredential
        }
    }

    /// A pairing attempt as of now. A token is drawn from the operating
    /// system only where the attempt is accepted; where none can be had,
    /// nothing changes and the error is returned. An attempt that is turned
    /// away, for a locked source or a wrong code, never ends in an error.
    pub fn attempt_pairing(
        &mut self,
        code: &str,
        device_id: String,
        device_name: Option<String>,
        source: SourceAddr,
    ) -> (outcome: Result<PairingOutcome, EntropyError>)
        ensures
            match outcome {
                Ok(result) => exists|at: Reading, token: Seq<char>|
                    (result matches PairingOutcome::Paired(issued) ==> issued@ == token
                        && is_token(token)) && result.verdict() == old(self)@.pairing_verdict(
                        code@,
                        source,
                        at,
                    ) && final(self)@ == #[trigger] old(self)@.after_pairing(
                        code@,
                        device_id@,
                        name_view(device_name),
                        source,
                        credential_hash(token),
                        at,
                    ),
                Err(_) => final(self)@ == old(self)@ && exists|at: Reading|
                    #[trigger] old(self)@.pairing_verdict(code@, source, at) is Accepted,
            },
    {
        let at = self.clock.read();
        let token = match self.pairing_verdict_at(code, source, at) {
            PairingVerdict::Accepted => match generate_token() {
                Ok(token) => token,
                Err(error) => {
                    return Err(error);
                },
            },
            _ => String::new(),
        };
        let result = self.attempt_pairing_at(code, device_id, device_name, source, token, at);
        Ok(result)
    }

    /// An authentication attempt as of now.
    pub fn attempt_auth(&mut self, device_id: &str, token: &str, source: SourceAddr) -> (outcome:
        AuthOutcome)
        ensures
            exists|at: Reading|
                outcome == old(self)@.auth_outcome(device_id@, token@, source, at) && final(self)@
                    == #[trigger] old(self)@.after_auth(device_id@, token@, source, at),
    {
        let at = self.clock.read();
        self.attempt_auth_at(device_id, token, source, at)
    }
}

/// At most one device holds the active session.
pub proof fn law_single_session_owner(state: PairingView, first: Seq<char>, second: Seq<char>)
    requires
        state.is_session_owner(first),
        state.is_session_owner(second),
    ensures
        first == second,
{
}

/// A session is held exactly when its holder has a last-seen time.
pub proof fn law_session_has_holder_and_time(state: PairingView)
    ensures
        state.active_device() is Some <==> state.last_seen() is Some,
{
}

/// Pairing with the code in force, before it expires and from a source that
/// is not locked out, is accepted: the device is put on the allow-list with
/// the hash of the token that is issued, that token authenticates it, and it
/// holds the session. Of the token the state keeps the hash alone: a token
/// with the same hash would have left the very same state.
pub proof fn law_pairing_keeps_the_hash_alone(
    state: PairingView,
    device_id: Seq<char>,
    name: Option<Seq<char>>,
    source: SourceAddr,
    token: Seq<char>,
    other: Seq<char>,
    at: Reading,
)
    requires
        !state.expired(at.mono_ms),
        !state.account(source, at.mono_ms).locked(at.mono_ms),
    ensures
        state.pairing_verdict(state.code, source, at) is Accepted,
        ({
            let after = state.after_pairing(
                state.code,
                device_id,
                name,
                source,
                credential_hash(token),
                at,
            );
            &&& after.devices.contains_key(device_id)
            &&& after.devices[device_id].token_hash == credential_hash(token)
            &&& after.is_authorized(device_id, token)
            &&& after.is_session_owner(device_id)
            &&& credential_hash(other) == credential_hash(token) ==> after == state.after_pairing(
                state.code,
                device_id,
                name,
                source,
                credential_hash(other),
                at,
            )
        }),
{
}

/// When a second device authenticates, it takes the session from the first.
pub proof fn law_second_auth_wins(
    state: PairingView,
    first: Seq<char>,
    second: Seq<char>,
    token: Seq<char>,
    source: SourceAddr,
    at: Reading,
)
    requires
        first != second,
        state.auth_outcome(second, token, source, at) is Authenticated,
    ensures
        state.after_auth(second, token, source, at).is_session_owner(second),
        !state.after_auth(second, token, source, at).is_session_owner(first),
{
}

/// A locked source is turned away before anything else is looked at, and
/// nothing changes: not the code, not the session, not the allow-list, not
/// the failure accounts.
pub proof fn law_locked_source_changes_nothing(
    state: PairingView,
    code: Seq<char>,
    device_id: Seq<char>,
    name: Option<Seq<char>>,
    token: Seq<char>,
    source: SourceAddr,
    at: Reading,
)
    requires
        state.account(source, at.mono_ms).locked(at.mono_ms),
    ensures
        state.pairing_verdict(code, source, at) is RateLimited,
        state.after_pairing(code, device_id, name, source, credential_hash(token), at) == state,
        state.auth_outcome(device_id, token, source, at) is RateLimited,
        state.after_auth(device_id, token, source, at) == state,
{
}

/// The code is rotated only while no session is active: with a session held,
/// an attempt leaves the code and its date as they are, however old.
pub proof fn law_no_rotation_under_a_session(
    state: PairingView,
    code: Seq<char>,
    device_id: Seq<char>,
    name: Option<Seq<char>>,
    token_hash: Seq<char>,
    source: SourceAddr,
    at: Reading,
)
    requires
        state.session is Some,
    ensures
        state.after_pairing(code, device_id, name, source, token_hash, at).code == state.code,
        state.after_pairing(code, device_id, name, source, token_hash, at).created_at
            == state.created_at,
{
}

/// The watchdog ends a session that has been silent for longer than the
/// timeout, whatever else happens or fails to happen, and leaves every other
/// state as it is.
pub proof fn law_watchdog_reclaims_idle_session(state: PairingView, now: u64)
    ensures
        state.session matches Some(active) && now > active.last_seen + PAIRING_IDLE_TIMEOUT_MS
            ==> state.expire_idle(now).session is None,
        !(state.session matches Some(active) && now > active.last_seen
            + PAIRING_IDLE_TIMEOUT_MS) ==> state.expire_idle(now) == state,
        state.expire_idle(now).devices == state.devices,
        state.expire_idle(now).limits == state.limits,
        state.expire_idle(now).code == state.code,
{
}

/// Revoking the device that holds the session ends the session; revoking
/// any other device leaves the session untouched. Either way the device is
/// off the allow-list and the other devices stay.
pub proof fn law_revocation(state: PairingView, device_id: Seq<char>, other: Seq<char>)
    ensures
        state.is_session_owner(device_id) ==> state.revoked(device_id).session is None,
        !state.is_session_owner(device_id) ==> state.revoked(device_id).session == state.session,
        !state.revoked(device_id).devices.contains_key(device_id),
        other != device_id ==> (state.revoked(device_id).devices.contains_key(other)
            <==> state.devices.contains_key(other)),
        other != device_id && state.devices.contains_key(other) ==> state.revoked(
            device_id,
        ).devices[other] == state.devices[other],
{
}

} // verus!
