//! The state machine of one connection.
//!
//! A connection starts unauthenticated, becomes authenticated by pairing or
//! by presenting its token, and ends closed. It remembers which device it
//! speaks for, but the authority decides who holds the session: after each
//! message the connection holds its own belief against the authority's and
//! gives it up where the two differ.
//!
//! The library decides; the caller moves the bytes. One message is handled
//! by one call, which says what to send or whether to carry out a command.

use crate::auth_store::name_view;
use crate::clock::Reading;
use crate::digest::{credential_hash, generate_token, is_token, EntropyError};
use crate::pairing::{AuthOutcome, PairingOutcome, PairingState, PairingVerdict, PairingView};
use crate::protocol::{
    Attempt,
    Handled,
    Inbound,
    InboundView,
    Reason,
    Reply,
    ReplyView,
    Step,
    StepView,
};
use crate::rate_limit::SourceAddr;
use vstd::prelude::*;
use vstd::string::StringExecFns;

verus! {

/// Where a connection stands.
#[derive(Debug, PartialEq, Eq)]
pub enum Phase {
    Unauthenticated,
    /// Authenticated, speaking for the device named.
    Authenticated { device_id: String },
    Closed,
}

/// A `Phase` as plain values.
pub enum PhaseView {
    Unauthenticated,
    Authenticated { device_id: Seq<char> },
    Closed,
}

impl View for Phase {
    type V = PhaseView;

    open spec fn view(&self) -> PhaseView {
        match *self {
            Phase::Unauthenticated => PhaseView::Unauthenticated,
            Phase::Authenticated { device_id } => PhaseView::Authenticated {
                device_id: device_id@,
            },
            Phase::Closed => PhaseView::Closed,
        }
    }
}

/// One connection: its phase and the address of its peer, where known.
#[derive(Debug)]
pub struct Connection {
    phase: Phase,
    source: Option<SourceAddr>,
}

/// A `Connection` as plain values.
pub struct ConnectionView {
    pub phase: PhaseView,
    pub source: Option<SourceAddr>,
}

impl View for Connection {
    type V = ConnectionView;

    closed spec fn view(&self) -> ConnectionView {
        ConnectionView { phase: self.phase@, source: self.source }
    }
}

/// What one message does: to the connection, to the authority, and what is
/// to be done next.
pub struct Reaction {
    pub connection: ConnectionView,
    pub authority: PairingView,
    pub step: StepView,
    pub persist: bool,
}

/// The notice that is sent when the service shuts down.
pub open spec fn shutdown_message() -> Seq<char> {
    "server stopped"@
}

/// The announcement that opens a connection.
pub open spec fn hello(authority: PairingView, now: u64) -> ReplyView {
    ReplyView::Hello {
        paired: authority.session is Some,
        active_device_id: authority.active_device(),
        authorized_count: authority.devices.len() as usize,
        pairing_code: authority.code,
        code_expired: authority.expired(now),
    }
}

impl ConnectionView {
    /// The connection speaks for a device.
    pub open spec fn authenticated(self) -> bool {
        self.phase is Authenticated
    }

    /// The device that the connection speaks for.
    pub open spec fn claimed_device(self) -> Option<Seq<char>> {
        match self.phase {
            PhaseView::Authenticated { device_id } => Some(device_id),
            _ => None,
        }
    }

    /// The connection in another phase.
    pub open spec fn with_phase(self, phase: PhaseView) -> Self {
        ConnectionView { phase, ..self }
    }

    /// The connection after it has held its belief against the authority: an
    /// authenticated connection whose device does not hold the session is
    /// unauthenticated from here on.
    pub open spec fn revalidated(self, authority: PairingView) -> Self {
        match self.phase {
            PhaseView::Authenticated { device_id } => if authority.is_session_owner(device_id) {
                self
            } else {
                self.with_phase(PhaseView::Unauthenticated)
            },
            _ => self,
        }
    }

    /// A reply that leaves the authority as it is.
    pub open spec fn answer(self, authority: PairingView, reply: ReplyView) -> Reaction {
        Reaction {
            connection: self.revalidated(authority),
            authority,
            step: StepView::Send(reply),
            persist: false,
        }
    }

    /// A closed connection handles nothing.
    pub open spec fn ignored(self, authority: PairingView) -> Reaction {
        Reaction { connection: self, authority, step: StepView::Stop, persist: false }
    }

    /// What a pairing request does. `token` is issued if the request is
    /// accepted and plays no part otherwise.
    pub open spec fn on_pair(
        self,
        authority: PairingView,
        code: Seq<char>,
        device_id: Seq<char>,
        device_name: Option<Seq<char>>,
        token: Seq<char>,
        at: Reading,
    ) -> Reaction {
        if self.phase is Closed {
            self.ignored(authority)
        } else {
            match self.source {
                None => self.answer(
                    authority,
                    ReplyView::PairingError { reason: Reason::NoRemoteIp },
                ),
                Some(source) => {
                    let after = authority.after_pairing(
                        code,
                        device_id,
                        device_name,
                        source,
                        credential_hash(token),
                        at,
                    );
                    match authority.pairing_verdict(code, source, at) {
                        PairingVerdict::RateLimited(secs) => self.answer(
                            after,
                            ReplyView::RateLimited {
                                reason: Attempt::Pair,
                                retry_after_secs: secs,
                            },
                        ),
                        PairingVerdict::InvalidCode => self.answer(
                            after,
                            ReplyView::PairingError { reason: Reason::InvalidCode },
                        ),
                        PairingVerdict::Accepted => Reaction {
                            connection: self.with_phase(PhaseView::Authenticated { device_id }),
                            authority: after,
                            step: StepView::Send(ReplyView::PairingOk { token }),
                            persist: true,
                        },
                    }
                },
            }
        }
    }

    /// What an authentication request does.
    pub open spec fn on_auth(
        self,
        authority: PairingView,
        device_id: Seq<char>,
        token: Seq<char>,
        at: Reading,
    ) -> Reaction {
        if self.phase is Closed {
            self.ignored(authority)
        } else {
            match self.source {
                None => self.answer(
                    authority,
                    ReplyView::AuthError { reason: Reason::NoRemoteIp },
                ),
                Some(source) => {
                    let after = authority.after_auth(device_id, token, source, at);
                    match authority.auth_outcome(device_id, token, source, at) {
                        AuthOutcome::RateLimited(secs) => self.answer(
                            after,
                            ReplyView::RateLimited {
                                reason: Attempt::Auth,
                                retry_after_secs: secs,
                            },
                        ),
                        AuthOutcome::InvalidCredential => Reaction {
                            connection: self.with_phase(PhaseView::Unauthenticated),
                            authority: after,
                            step: StepView::Send(
                                ReplyView::AuthError { reason: Reason::InvalidToken },
                            ),
                            persist: false,
                        },
                        AuthOutcome::Authenticated => Reaction {
                            connection: self.with_phase(PhaseView::Authenticated { device_id }),
                            authority: after,
                            step: StepView::Send(ReplyView::AuthOk),
                            persist: true,
                        },
                    }
                },
            }
        }
    }

    /// What any other well-formed message does: an unauthenticated
    /// connection is turned away and nothing changes; an authenticated one
    /// counts as heard, and its command is to be carried out.
    pub open spec fn on_command(self, authority: PairingView, at: Reading) -> Reaction {
        match self.phase {
            PhaseView::Closed => self.ignored(authority),
            PhaseView::Unauthenticated => Reaction {
                connection: self,
                authority,
                step: StepView::Send(ReplyView::Error { reason: Reason::NotAuthenticated }),
                persist: false,
            },
            PhaseView::Authenticated { device_id } => Reaction {
                connection: self,
                authority: authority.touched(device_id, at),
                step: StepView::Execute,
                persist: authority.devices.contains_key(device_id),
            },
        }
    }

    /// What a message that cannot be read does: it is answered, and the
    /// connection stays as it is.
    pub open spec fn on_malformed(self, authority: PairingView) -> Reaction {
        if self.phase is Closed {
            self.ignored(authority)
        } else {
            Reaction {
                connection: self,
                authority,
                step: StepView::Send(ReplyView::Error { reason: Reason::BadRequest }),
                persist: false,
            }
        }
    }

    /// What a message does.
    pub open spec fn react(
        self,
        authority: PairingView,
        message: InboundView,
        token: Seq<char>,
        at: Reading,
    ) -> Reaction {
        match message {
            InboundView::Pair { code, device_id, device_name } => self.on_pair(
                authority,
                code,
                device_id,
                device_name,
                token,
                at,
            ),
            InboundView::Auth { device_id, token: presented } => self.on_auth(
                authority,
                device_id,
                presented,
                at,
            ),
            InboundView::Command => self.on_command(authority, at),
            InboundView::Malformed => self.on_malformed(authority),
        }
    }

    /// Whether handling `message` draws a new token: only a pairing request
    /// that is accepted does.
    pub open spec fn draws_token(
        self,
        authority: PairingView,
        message: InboundView,
        at: Reading,
    ) -> bool {
        match message {
            InboundView::Pair { code, .. } => !(self.phase is Closed) && match self.source {
                Some(source) => authority.pairing_verdict(code, source, at)
                    is Accepted,
                None => false,
            },
            _ => false,
        }
    }

    /// The connection after a command was carried out.
    pub open spec fn after_command(self, authority: PairingView) -> Self {
        self.revalidated(authority)
    }

    /// What is sent in place of the result of a command: nothing where the
    /// command went well or the connection is closed.
    pub open spec fn command_reply(self, succeeded: bool) -> Option<ReplyView> {
        if succeeded || self.phase is Closed {
            None
        } else {
            Some(ReplyView::Error { reason: Reason::CommandFailed })
        }
    }
}

/// An optional reply as plain values.
pub open spec fn reply_view(reply: Option<Reply>) -> Option<ReplyView> {
    match reply {
        Some(reply) => Some(reply@),
        None => None,
    }
}

impl Connection {
    /// A new connection from `source`, unauthenticated, with the
    /// announcement that is sent first.
    pub fn connect_at(authority: &PairingState, source: Option<SourceAddr>, now: u64) -> (opened: (
        Connection,
        Reply,
    ))
        ensures
            opened.0@ == (ConnectionView { phase: PhaseView::Unauthenticated, source }),
            opened.1@ == hello(authority@, now),
    {
        let active_device_id = authority.active_device_id();
        let announcement = Reply::Hello {
            paired: active_device_id.is_some(),
            active_device_id,
            authorized_count: authority.authorized_count(),
            pairing_code: authority.code(),
            code_expired: authority.is_expired_at(now),
        };
        (Connection { phase: Phase::Unauthenticated, source }, announcement)
    }

    /// A new connection from `source`, announced as of now.
    pub fn connect(authority: &PairingState, source: Option<SourceAddr>) -> (opened: (
        Connection,
        Reply,
    ))
        ensures
            opened.0@ == (ConnectionView { phase: PhaseView::Unauthenticated, source }),
            exists|now: u64| opened.1@ == #[trigger] hello(authority@, now),
    {
        let at = authority.read_clock();
        Connection::connect_at(authority, source, at.mono_ms)
    }

    /// Whether the connection speaks for a device.
    pub fn is_authenticated(&self) -> (authenticated: bool)
        ensures
            authenticated == self@.authenticated(),
    {
        match &self.phase {
            Phase::Authenticated { .. } => true,
            _ => false,
        }
    }

    /// Whether the connection has ended.
    pub fn is_closed(&self) -> (closed: bool)
        ensures
            closed == (self@.phase is Closed),
    {
        match &self.phase {
            Phase::Closed => true,
            _ => false,
        }
    }

    /// The device that the connection speaks for.
    pub fn claimed_device_id(&self) -> (device_id: Option<String>)
        ensures
            name_view(device_id) == self@.claimed_device(),
    {
        match &self.phase {
            Phase::Authenticated { device_id } => Some(device_id.clone()),
            _ => None,
        }
    }

    /// The address of the peer, where known.
    pub fn source(&self) -> (source: Option<SourceAddr>)
        ensures
            source == self@.source,
    {
        self.source
    }

    /// Holds the connection's belief against the authority.
    pub fn revalidate(&mut self, authority: &PairingState)
        ensures
            final(self)@ == old(self)@.revalidated(authority@),
    {
        let demote = match &self.phase {
            Phase::Authenticated { device_id } => !authority.is_session_owner(device_id.as_str()),
            _ => false,
        };
        if demote {
            self.phase = Phase::Unauthenticated;
        }
    }

    /// Handles a pairing request. `token` is issued if the request is
    /// accepted.
    pub fn on_pair_at(
        &mut self,
        authority: &mut PairingState,
        code: &str,
        device_id: String,
        device_name: Option<String>,
        token: String,
        at: Reading,
    ) -> (handled: Handled)
        ensures
            (Reaction {
                connection: final(self)@,
                authority: final(authority)@,
                step: handled.step@,
                persist: handled.persist,
            }) == old(self)@.on_pair(
                old(authority)@,
                code@,
                device_id@,
                name_view(device_name),
                token@,
                at,
            ),
    {
        if self.is_closed() {
            return Handled { step: Step::Stop, persist: false };
        }
        let source = match self.source {
            Some(source) => source,
            None => {
                self.revalidate(authority);
                return Handled {
                    step: Step::Send(Reply::PairingError { reason: Reason::NoRemoteIp }),
                    persist: false,
                };
            },
        };
        let claimed = device_id.clone();
        match authority.attempt_pairing_at(code, device_id, device_name, source, token, at) {
            PairingOutcome::RateLimited(secs) => {
                self.revalidate(authority);
                Handled {
                    step: Step::Send(
                        Reply::RateLimited { reason: Attempt::Pair, retry_after_secs: secs },
                    ),
                    persist: false,
                }
            },
            PairingOutcome::InvalidCode => {
                self.revalidate(authority);
                Handled {
                    step: Step::Send(Reply::PairingError { reason: Reason::InvalidCode }),
                    persist: false,
                }
            },
            PairingOutcome::Paired(issued) => {
                self.phase = Phase::Authenticated { device_id: claimed };
                Handled { step: Step::Send(Reply::PairingOk { token: issued }), persist: true }
            },
        }
    }

    /// Handles an authentication request.
    pub fn on_auth_at(
        &mut self,
        authority: &mut PairingState,
        device_id: &str,
        token: &str,
        at: Reading,
    ) -> (handled: Handled)
        ensures
            (Reaction {
                connection: final(self)@,
                authority: final(authority)@,
                step: handled.step@,
                persist: handled.persist,
            }) == old(self)@.on_auth(old(authority)@, device_id@, token@, at),
    {
        if self.is_closed() {
            return Handled { step: Step::Stop, persist: false };
        }
        let source = match self.source {
            Some(source) => source,
            None => {
                self.revalidate(authority);
                return Handled {
                    step: Step::Send(Reply::AuthError { reason: Reason::NoRemoteIp }),
                    persist: false,
                };
            },
        };
        match authority.attempt_auth_at(device_id, token, source, at) {
            AuthOutcome::RateLimited(secs) => {
                self.revalidate(authority);
                Handled {
                    step: Step::Send(
                        Reply::RateLimited { reason: Attempt::Auth, retry_after_secs: secs },
                    ),
                    persist: false,
                }
            },
            AuthOutcome::InvalidCredential => {
                self.phase = Phase::Unauthenticated;
                Handled {
                    step: Step::Send(Reply::AuthError { reason: Reason::InvalidToken }),
                    persist: false,
                }
            },
            AuthOutcome::Authenticated => {
                self.phase = Phase::Authenticated { device_id: device_id.to_owned() };
                Handled { step: Step::Send(Reply::AuthOk), persist: true }
            },
        }
    }

    /// Handles any other well-formed message.
    pub fn on_command_at(&mut self, authority: &mut PairingState, at: Reading) -> (handled:
        Handled)
        ensures
            (Reaction {
                connection: final(self)@,
                authority: final(authority)@,
                step: handled.step@,
                persist: handled.persist,
            }) == old(self)@.on_command(old(authority)@, at),
    {
        match &self.phase {
            Phase::Closed => Handled { step: Step::Stop, persist: false },
            Phase::Unauthenticated => Handled {
                step: Step::Send(Reply::Error { reason: Reason::NotAuthenticated }),
                persist: false,
            },
            Phase::Authenticated { device_id } => {
                let persist = authority.touch_at(device_id.as_str(), at);
                Handled { step: Step::Execute, persist }
            },
        }
    }

    /// Handles a message that could not be read.
    pub fn on_malformed(&mut self, authority: &PairingState) -> (handled: Handled)
        ensures
            (Reaction {
                connection: final(self)@,
                authority: authority@,
                step: handled.step@,
                persist: handled.persist,
            }) == old(self)@.on_malformed(authority@),
    {
        if self.is_closed() {
            Handled { step: Step::Stop, persist: false }
        } else {
            Handled {
                step: Step::Send(Reply::Error { reason: Reason::BadRequest }),
                persist: false,
            }
        }
    }

    /// Handles one message at the reading `at`, with the token that is
    /// issued if the message is a pairing request that is accepted.
    pub fn handle_at(
        &mut self,
        authority: &mut PairingState,
        message: Inbound,
        token: String,
        at: Reading,
    ) -> (handled: Handled)
        ensures
            (Reaction {
                connection: final(self)@,
                authority: final(authority)@,
                step: handled.step@,
                persist: handled.persist,
            }) == old(self)@.react(old(authority)@, message@, token@, at),
    {
        match message {
            Inbound::Pair { code, device_id, device_name } => self.on_pair_at(
                authority,
                code.as_str(),
                device_id,
                device_name,
                token,
                at,
            ),
            Inbound::Auth { device_id, token: presented } => self.on_auth_at(
                authority,
                device_id.as_str(),
                presented.as_str(),
                at,
            ),
            Inbound::Command => self.on_command_at(authority, at),
            Inbound::Malformed => self.on_malformed(authority),
        }
    }

    /// Whether handling `message` at `at` draws a new token.
    pub fn draws_token_at(&self, authority: &PairingState, message: &Inbound, at: Reading) -> (draws:
        bool)
        ensures
            draws == self@.draws_token(authority@, message@, at),
    {
        match message {
            Inbound::Pair { code, .. } => {
                if self.is_closed() {
                    false
                } else {
                    match self.source {
                        Some(source) => match authority.pairing_verdict_at(
                            code.as_str(),
                            source,
                            at,
                        ) {
                            PairingVerdict::Accepted => true,
                            _ => false,
                        },
                        None => false,
                    }
                }
            },
            _ => false,
        }
    }

    /// Handles one message as of now. A token is drawn from the operating
    /// system only for a pairing request that is accepted; where none can be
    /// had, nothing changes and the error is returned. Every other message,
    /// and every pairing request that is turned away, is answered.
    pub fn handle(&mut self, authority: &mut PairingState, message: Inbound) -> (outcome: Result<
        Handled,
        EntropyError,
    >)
        ensures
            match outcome {
                Ok(handled) => exists|at: Reading, token: Seq<char>|
                    (old(self)@.draws_token(old(authority)@, message@, at) ==> is_token(token))
                        && (Reaction {
                        connection: final(self)@,
                        authority: final(authority)@,
                        step: handled.step@,
                        persist: handled.persist,
                    }) == #[trigger] old(self)@.react(old(authority)@, message@, token, at),
                Err(_) => final(self)@ == old(self)@ && final(authority)@ == old(authority)@
                    && exists|at: Reading| #[trigger]
                    old(self)@.draws_token(old(authority)@, message@, at),
            },
    {
        let at = authority.read_clock();
        let token = if self.draws_token_at(authority, &message, at) {
            match generate_token() {
                Ok(token) => token,
                Err(error) => {
                    return Err(error);
                },
            }
        } else {
            String::new()
        };
        let handled = self.handle_at(authority, message, token, at);
        Ok(handled)
    }

    /// A command was carried out. The connection holds its belief against
    /// the authority; where the command failed, the reply to send in place
    /// of its result is returned.
    pub fn command_done(&mut self, authority: &PairingState, succeeded: bool) -> (reply: Option<
        Reply,
    >)
        ensures
            final(self)@ == old(self)@.after_command(authority@),
            reply_view(reply) == old(self)@.command_reply(succeeded),
    {
        let closed = self.is_closed();
        self.revalidate(authority);
        if succeeded || closed {
            None
        } else {
            Some(Reply::Error { reason: Reason::CommandFailed })
        }
    }

    /// The service shuts down: the notice to send, after which the
    /// connection is closed. A closed connection sends nothing.
    pub fn shutdown(&mut self) -> (notice: Option<Reply>)
        ensures
            final(self)@ == old(self)@.with_phase(PhaseView::Closed),
            reply_view(notice) == if old(self)@.phase is Closed {
                None
            } else {
                Some(ReplyView::Shutdown { message: shutdown_message() })
            },
    {
        let closed = self.is_closed();
        self.phase = Phase::Closed;
        if closed {
            None
        } else {
            Some(Reply::Shutdown { message: String::from_str("server stopped") })
        }
    }

    /// The peer is gone. The authority is left as it is: only the watchdog
    /// or another device ends a session.
    pub fn disconnected(&mut self)
        ensures
            final(self)@ == old(self)@.with_phase(PhaseView::Closed),
    {
        self.phase = Phase::Closed;
    }
}

/// A connection whose device has lost the session to another is displaced
/// on its next command: that command is still carried out, and from then on
/// the connection is unauthenticated and turned away.
pub proof fn law_displaced_on_next_command(
    connection: ConnectionView,
    authority: PairingView,
    device_id: Seq<char>,
    at: Reading,
    later: Reading,
)
    requires
        connection.phase == (PhaseView::Authenticated { device_id }),
        !authority.is_session_owner(device_id),
    ensures
        connection.on_command(authority, at).step is Execute,
        ({
            let heard = connection.on_command(authority, at);
            let after = heard.connection.after_command(heard.authority);
            &&& after.phase is Unauthenticated
            &&& after.on_command(heard.authority, later).step == StepView::Send(
                ReplyView::Error { reason: Reason::NotAuthenticated },
            )
            &&& after.on_command(heard.authority, later).authority == heard.authority
        }),
{
}

/// An unauthenticated connection has no command carried out, and nothing
/// changes.
pub proof fn law_unauthenticated_is_turned_away(
    connection: ConnectionView,
    authority: PairingView,
    at: Reading,
)
    requires
        connection.phase is Unauthenticated,
    ensures
        connection.on_command(authority, at) == (Reaction {
            connection,
            authority,
            step: StepView::Send(ReplyView::Error { reason: Reason::NotAuthenticated }),
            persist: false,
        }),
{
}

} // verus!
