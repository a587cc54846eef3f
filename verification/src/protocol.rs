//! The messages of the control channel, as values.
//!
//! An inbound message is classified before it reaches the library; a reply
//! leaves it as a value, with the words that go over the wire as strings.

use crate::auth_store::name_view;
use vstd::prelude::*;
use vstd::string::StringExecFns;

verus! {

/// Why a request was turned down.
#[derive(Debug, Clone, Copy, PartialEq, Eq)]
pub enum Reason {
    InvalidCode,
    Expired,
    NoRemoteIp,
    InvalidToken,
    NotAuthenticated,
    BadRequest,
    CommandFailed,
}

impl Reason {
    /// The word that stands for the reason on the wire.
    pub open spec fn wire_name(self) -> Seq<char> {
        match self {
            Reason::InvalidCode => "invalid_code"@,
            Reason::Expired => "expired"@,
            Reason::NoRemoteIp => "no_remote_ip"@,
            Reason::InvalidToken => "invalid_token"@,
            Reason::NotAuthenticated => "not_authenticated"@,
            Reason::BadRequest => "bad_request"@,
            Reason::CommandFailed => "command_failed"@,
        }
    }

    /// The word that stands for the reason on the wire.
    pub fn as_str(&self) -> (text: &'static str)
        ensures
            text@ == self.wire_name(),
    {
        match self {
            Reason::InvalidCode => "invalid_code",
            Reason::Expired => "expired",
            Reason::NoRemoteIp => "no_remote_ip",
            Reason::InvalidToken => "invalid_token",
            Reason::NotAuthenticated => "not_authenticated",
            Reason::BadRequest => "bad_request",
            Reason::CommandFailed => "command_failed",
        }
    }
}

/// The kind of attempt that a locked source was making.
#[derive(Debug, Clone, Copy, PartialEq, Eq)]
pub enum Attempt {
    Pair,
    Auth,
}

impl Attempt {
    /// The word that stands for the attempt on the wire.
    pub open spec fn wire_name(self) -> Seq<char> {
        match self {
            Attempt::Pair => "pair"@,
            Attempt::Auth => "auth"@,
        }
    }

    /// The word that stands for the attempt on the wire.
    pub fn as_str(&self) -> (text: &'static str)
        ensures
            text@ == self.wire_name(),
    {
        match self {
            Attempt::Pair => "pair",
            Attempt::Auth => "auth",
        }
    }
}

/// An inbound message, classified.
#[derive(Debug, PartialEq, Eq)]
pub enum Inbound {
    Pair { code: String, device_id: String, device_name: Option<String> },
    Auth { device_id: String, token: String },
    /// Any well-formed message that is neither of the above. What it asks
    /// for is no concern of the library.
    Command,
    /// A message that could not be read.
    Malformed,
}

/// An `Inbound` as plain values.
pub enum InboundView {
    Pair { code: Seq<char>, device_id: Seq<char>, device_name: Option<Seq<char>> },
    Auth { device_id: Seq<char>, token: Seq<char> },
    Command,
    Malformed,
}

impl View for Inbound {
    type V = InboundView;

    open spec fn view(&self) -> InboundView {
        match *self {
            Inbound::Pair { code, device_id, device_name } => InboundView::Pair {
                code: code@,
                device_id: device_id@,
                device_name: name_view(device_name),
            },
            Inbound::Auth { device_id, token } => InboundView::Auth {
                device_id: device_id@,
                token: token@,
            },
            Inbound::Command => InboundView::Command,
            Inbound::Malformed => InboundView::Malformed,
        }
    }
}

/// An outbound message.
#[derive(Debug, PartialEq, Eq)]
pub enum Reply {
    Hello {
        paired: bool,
        active_device_id: Option<String>,
        authorized_count: usize,
        pairing_code: String,
        code_expired: bool,
    },
    PairingOk { token: String },
    PairingError { reason: Reason },
    AuthOk,
    AuthError { reason: Reason },
    RateLimited { reason: Attempt, retry_after_secs: u64 },
    Error { reason: Reason },
    Shutdown { message: String },
}

/// A `Reply` as plain values.
pub enum ReplyView {
    Hello {
        paired: bool,
        active_device_id: Option<Seq<char>>,
        authorized_count: usize,
        pairing_code: Seq<char>,
        code_expired: bool,
    },
    PairingOk { token: Seq<char> },
    PairingError { reason: Reason },
    AuthOk,
    AuthError { reason: Reason },
    RateLimited { reason: Attempt, retry_after_secs: u64 },
    Error { reason: Reason },
    Shutdown { message: Seq<char> },
}

impl View for Reply {
    type V = ReplyView;

    open spec fn view(&self) -> ReplyView {
        match *self {
            Reply::Hello {
                paired,
                active_device_id,
                authorized_count,
                pairing_code,
                code_expired,
            } => ReplyView::Hello {
                paired,
                active_device_id: name_view(active_device_id),
                authorized_count,
                pairing_code: pairing_code@,
                code_expired,
            },
            Reply::PairingOk { token } => ReplyView::PairingOk { token: token@ },
            Reply::PairingError { reason } => ReplyView::PairingError { reason },
            Reply::AuthOk => ReplyView::AuthOk,
            Reply::AuthError { reason } => ReplyView::AuthError { reason },
            Reply::RateLimited { reason, retry_after_secs } => ReplyView::RateLimited {
                reason,
                retry_after_secs,
            },
            Reply::Error { reason } => ReplyView::Error { reason },
            Reply::Shutdown { message } => ReplyView::Shutdown { message: message@ },
        }
    }
}

impl ReplyView {
    /// The tag that names the kind of the reply on the wire.
    pub open spec fn wire_type(self) -> Seq<char> {
        match self {
            ReplyView::Hello { .. } => "hello"@,
            ReplyView::PairingOk { .. } => "pairing_ok"@,
            ReplyView::PairingError { .. } => "pairing_error"@,
            ReplyView::AuthOk => "auth_ok"@,
            ReplyView::AuthError { .. } => "auth_error"@,
            ReplyView::RateLimited { .. } => "rate_limited"@,
            ReplyView::Error { .. } => "error"@,
            ReplyView::Shutdown { .. } => "shutdown"@,
        }
    }
}

impl Reply {
    /// The tag that names the kind of the reply on the wire.
    pub fn kind(&self) -> (text: &'static str)
        ensures
            text@ == self@.wire_type(),
    {
        match self {
            Reply::Hello { .. } => "hello",
            Reply::PairingOk { .. } => "pairing_ok",
            Reply::PairingError { .. } => "pairing_error",
            Reply::AuthOk => "auth_ok",
            Reply::AuthError { .. } => "auth_error",
            Reply::RateLimited { .. } => "rate_limited",
            Reply::Error { .. } => "error",
            Reply::Shutdown { .. } => "shutdown",
        }
    }
}

/// The value of one field of a message on the wire.
#[derive(Debug, PartialEq, Eq)]
pub enum FieldValue {
    Null,
    Bool(bool),
    Number(u64),
    Text(String),
}

/// A `FieldValue` as plain values.
pub enum FieldView {
    Null,
    Bool(bool),
    Number(u64),
    Text(Seq<char>),
}

impl View for FieldValue {
    type V = FieldView;

    open spec fn view(&self) -> FieldView {
        match *self {
            FieldValue::Null => FieldView::Null,
            FieldValue::Bool(flag) => FieldView::Bool(flag),
            FieldValue::Number(number) => FieldView::Number(number),
            FieldValue::Text(text) => FieldView::Text(text@),
        }
    }
}

/// A text, or null where there is none.
pub open spec fn text_or_null(text: Option<Seq<char>>) -> FieldView {
    match text {
        Some(text) => FieldView::Text(text),
        None => FieldView::Null,
    }
}

/// The fields of a list by name and value.
pub open spec fn fields_view(fields: Seq<(&'static str, FieldValue)>) -> Seq<
    (Seq<char>, FieldView),
> {
    Seq::new(fields.len(), |i: int| (fields[i].0@, fields[i].1@))
}

impl ReplyView {
    /// The fields of a reply on the wire, in order: its type first, then
    /// what it carries.
    pub open spec fn wire_fields(self) -> Seq<(Seq<char>, FieldView)> {
        let kind = ("type"@, FieldView::Text(self.wire_type()));
        match self {
            ReplyView::Hello {
                paired,
                active_device_id,
                authorized_count,
                pairing_code,
                code_expired,
            } => seq![
                kind,
                ("paired"@, FieldView::Bool(paired)),
                ("active_device_id"@, text_or_null(active_device_id)),
                ("authorized_count"@, FieldView::Number(authorized_count as u64)),
                ("pairing_code"@, FieldView::Text(pairing_code)),
                ("code_expired"@, FieldView::Bool(code_expired)),
            ],
            ReplyView::PairingOk { token } => seq![kind, ("token"@, FieldView::Text(token))],
            ReplyView::PairingError { reason } => seq![
                kind,
                ("reason"@, FieldView::Text(reason.wire_name())),
            ],
            ReplyView::AuthOk => seq![kind],
            ReplyView::AuthError { reason } => seq![
                kind,
                ("reason"@, FieldView::Text(reason.wire_name())),
            ],
            ReplyView::RateLimited { reason, retry_after_secs } => seq![
                kind,
                ("reason"@, FieldView::Text(reason.wire_name())),
                ("retry_after_secs"@, FieldView::Number(retry_after_secs)),
            ],
            ReplyView::Error { reason } => seq![
                kind,
                ("reason"@, FieldView::Text(reason.wire_name())),
            ],
            ReplyView::Shutdown { message } => seq![kind, ("message"@, FieldView::Text(message))],
        }
    }
}

fn text_field(text: &str) -> (value: FieldValue)
    ensures
        value@ == FieldView::Text(text@),
{
    FieldValue::Text(String::from_str(text))
}

impl Reply {
    /// The fields of the reply on the wire, in order.
    pub fn fields(&self) -> (fields: Vec<(&'static str, FieldValue)>)
        ensures
            fields_view(fields@) == self@.wire_fields(),
    {
        let mut fields: Vec<(&'static str, FieldValue)> = Vec::new();
        fields.push(("type", text_field(self.kind())));
        match self {
            Reply::Hello {
                paired,
                active_device_id,
                authorized_count,
                pairing_code,
                code_expired,
            } => {
                fields.push(("paired", FieldValue::Bool(*paired)));
                let device = match active_device_id {
                    Some(device_id) => text_field(device_id.as_str()),
                    None => FieldValue::Null,
                };
                fields.push(("active_device_id", device));
                fields.push(("authorized_count", FieldValue::Number(*authorized_count as u64)));
                fields.push(("pairing_code", text_field(pairing_code.as_str())));
                fields.push(("code_expired", FieldValue::Bool(*code_expired)));
            },
            Reply::PairingOk { token } => {
                fields.push(("token", text_field(token.as_str())));
            },
            Reply::PairingError { reason } => {
                fields.push(("reason", text_field(reason.as_str())));
            },
            Reply::AuthOk => {},
            Reply::AuthError { reason } => {
                fields.push(("reason", text_field(reason.as_str())));
            },
            Reply::RateLimited { reason, retry_after_secs } => {
                fields.push(("reason", text_field(reason.as_str())));
                fields.push(("retry_after_secs", FieldValue::Number(*retry_after_secs)));
            },
            Reply::Error { reason } => {
                fields.push(("reason", text_field(reason.as_str())));
            },
            Reply::Shutdown { message } => {
                fields.push(("message", text_field(message.as_str())));
            },
        }
        fields
    }
}

/// What is to be done after a message was handled.
#[derive(Debug, PartialEq, Eq)]
pub enum Step {
    /// Send the reply.
    Send(Reply),
    /// Carry out the command of the message, then report how it went.
    Execute,
    /// The connection is closed: nothing is sent.
    Stop,
}

/// A `Step` as plain values.
pub enum StepView {
    Send(ReplyView),
    Execute,
    Stop,
}

impl View for Step {
    type V = StepView;

    open spec fn view(&self) -> StepView {
        match *self {
            Step::Send(reply) => StepView::Send(reply@),
            Step::Execute => StepView::Execute,
            Step::Stop => StepView::Stop,
        }
    }
}

/// What came of one message: the step to take, and whether the allow-list
/// changed and is to be written out.
#[derive(Debug, PartialEq, Eq)]
pub struct Handled {
    pub step: Step,
    pub persist: bool,
}

} // verus!
