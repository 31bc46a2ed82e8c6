//! What a successful request is answered with. Byte fields are lower-case
//! hexadecimal text.

use vstd::prelude::*;

use crate::relay::SecureSessionMaterial;
use crate::text;

verus! {

/// A command frame for the client to relay to the card.
#[derive(Debug)]
pub struct Command {
    pub code: u8,
    pub frame: String,
    /// How long the card may take, in milliseconds.
    pub timeout_ms: u16,
}

/// What a [`Command`] holds.
pub struct CommandView {
    pub code: u8,
    pub frame: Seq<char>,
    pub timeout_ms: u16,
}

impl View for Command {
    type V = CommandView;

    open spec fn view(&self) -> CommandView {
        CommandView { code: self.code, frame: self.frame@, timeout_ms: self.timeout_ms }
    }
}

/// What the client needs to go on talking to the card by itself.
#[derive(Debug)]
pub struct SecureSession {
    pub scheme: String,
    pub key: String,
    pub transaction_id: String,
    pub transaction_number: u16,
}

/// What a [`SecureSession`] holds.
pub struct SecureSessionView {
    pub scheme: Seq<char>,
    pub key: Seq<char>,
    pub transaction_id: Seq<char>,
    pub transaction_number: u16,
}

impl View for SecureSession {
    type V = SecureSessionView;

    open spec fn view(&self) -> SecureSessionView {
        SecureSessionView {
            scheme: self.scheme@,
            key: self.key@,
            transaction_id: self.transaction_id@,
            transaction_number: self.transaction_number,
        }
    }
}

/// A finished authentication.
#[derive(Debug)]
pub struct AuthResult {
    pub issue_id: String,
    pub issue_parameter: String,
    pub session: SecureSession,
}

/// What an [`AuthResult`] holds.
pub struct AuthResultView {
    pub issue_id: Seq<char>,
    pub issue_parameter: Seq<char>,
    pub session: SecureSessionView,
}

impl View for AuthResult {
    type V = AuthResultView;

    open spec fn view(&self) -> AuthResultView {
        AuthResultView {
            issue_id: self.issue_id@,
            issue_parameter: self.issue_parameter@,
            session: self.session@,
        }
    }
}

/// The body of a successful response; an absent field is left out of it.
#[derive(Debug)]
pub struct AuthReply {
    pub phase: String,
    pub step: String,
    pub command: Option<Command>,
    pub result: Option<AuthResult>,
    pub session_id: String,
    pub session_created: Option<bool>,
}

/// What an [`AuthReply`] says.
pub struct ReplyView {
    pub phase: Seq<char>,
    pub step: Seq<char>,
    pub command: Option<CommandView>,
    pub result: Option<AuthResultView>,
    pub session_id: Seq<char>,
    pub session_created: Option<bool>,
}

impl View for AuthReply {
    type V = ReplyView;

    open spec fn view(&self) -> ReplyView {
        ReplyView {
            phase: self.phase@,
            step: self.step@,
            command: match self.command {
                Some(command) => Some(command@),
                None => None,
            },
            result: match self.result {
                Some(result) => Some(result@),
                None => None,
            },
            session_id: self.session_id@,
            session_created: self.session_created,
        }
    }
}

/// How a frame is written in a reply.
pub open spec fn command_of(code: u8, frame: Seq<u8>, timeout_ms: u16) -> CommandView {
    CommandView { code, frame: text::hex_text(frame), timeout_ms }
}

/// How the session material is written in a reply.
pub open spec fn session_of(material: SecureSessionMaterial) -> SecureSessionView {
    SecureSessionView {
        scheme: "des"@,
        key: text::hex_text(material.key@),
        transaction_id: text::hex_text(material.transaction_id@),
        transaction_number: material.transaction_number,
    }
}

/// How a finished authentication is written in a reply.
pub open spec fn result_of(
    issue_id: [u8; 8],
    issue_parameter: [u8; 8],
    material: SecureSessionMaterial,
) -> AuthResultView {
    AuthResultView {
        issue_id: text::hex_text(issue_id@),
        issue_parameter: text::hex_text(issue_parameter@),
        session: session_of(material),
    }
}

/// Writes a frame for the client.
pub fn command(code: u8, frame: &[u8], timeout_ms: u16) -> (made: Command)
    requires
        2 * frame@.len() <= isize::MAX,
    ensures
        made@ == command_of(code, frame@, timeout_ms),
{
    Command { code, frame: text::hex_encode(frame), timeout_ms }
}

/// Writes the session material for the client.
pub fn secure_session(material: &SecureSessionMaterial) -> (made: SecureSession)
    ensures
        made@ == session_of(*material),
{
    SecureSession {
        scheme: "des".to_owned(),
        key: text::hex_encode(material.key.as_slice()),
        transaction_id: text::hex_encode(material.transaction_id.as_slice()),
        transaction_number: material.transaction_number,
    }
}

/// Writes a finished authentication for the client.
pub fn auth_result(
    issue_id: &[u8; 8],
    issue_parameter: &[u8; 8],
    material: &SecureSessionMaterial,
) -> (made: AuthResult)
    ensures
        made@ == result_of(*issue_id, *issue_parameter, *material),
{
    AuthResult {
        issue_id: text::hex_encode(issue_id.as_slice()),
        issue_parameter: text::hex_encode(issue_parameter.as_slice()),
        session: secure_session(material),
    }
}

} // verus!
