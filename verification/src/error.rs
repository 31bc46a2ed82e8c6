//! The error that a request is answered with.

use vstd::prelude::*;

verus! {

/// An error on its way to the client: the HTTP status, the message, and the FeliCa
/// status flags where the card reported some.
#[derive(Debug)]
pub struct ProtocolError {
    pub status: u16,
    pub message: String,
    pub code: Option<u16>,
}

/// What a [`ProtocolError`] says.
pub struct ErrorView {
    pub status: u16,
    pub message: Seq<char>,
    pub code: Option<u16>,
}

impl View for ProtocolError {
    type V = ErrorView;

    open spec fn view(&self) -> ErrorView {
        ErrorView { status: self.status, message: self.message@, code: self.code }
    }
}

/// The error with this status and message, and no status flags.
pub open spec fn error(status: u16, message: Seq<char>) -> ErrorView {
    ErrorView { status, message, code: None }
}

/// A card's two status flags as one number, the first flag in the high byte.
pub open spec fn flags_code(sf1: u8, sf2: u8) -> u16 {
    (sf1 * 256 + sf2) as u16
}

/// The error for a failed exchange with the card: 400 and the flags' code where the
/// card reported status flags, 500 otherwise.
pub open spec fn card_error(message: Seq<char>, flags: Option<(u8, u8)>) -> ErrorView {
    match flags {
        Some((sf1, sf2)) => ErrorView { status: 400, message, code: Some(flags_code(sf1, sf2)) },
        None => error(500, message),
    }
}

impl ProtocolError {
    /// An error with any status.
    pub fn new(status: u16, message: String) -> (made: Self)
        ensures
            made@ == error(status, message@),
    {
        ProtocolError { status, message, code: None }
    }

    /// A request that is malformed, or out of order.
    pub fn bad_request(message: String) -> (made: Self)
        ensures
            made@ == error(400, message@),
    {
        Self::new(400, message)
    }

    /// A request for more than the server is set up to grant.
    pub fn forbidden(message: String) -> (made: Self)
        ensures
            made@ == error(403, message@),
    {
        Self::new(403, message)
    }

    /// A request that names something unknown.
    pub fn not_found(message: String) -> (made: Self)
        ensures
            made@ == error(404, message@),
    {
        Self::new(404, message)
    }

    /// A failure of the server itself.
    pub fn internal(message: String) -> (made: Self)
        ensures
            made@ == error(500, message@),
    {
        Self::new(500, message)
    }

    /// A failure of the exchange with the card. Status flags that the card reported go
    /// to the client as the error's code.
    pub fn card_failure(message: String, flags: Option<(u8, u8)>) -> (made: Self)
        ensures
            made@ == card_error(message@, flags),
    {
        match flags {
            Some((sf1, sf2)) => {
                let code: u16 = sf1 as u16 * 256 + sf2 as u16;
                ProtocolError { status: 400, message, code: Some(code) }
            },
            None => Self::internal(message),
        }
    }
}

} // verus!
