//! What passes between a session and its worker.
//!
//! The worker drives one mutual authentication against the card, through the client.
//! It is given a request to start, then one card response after another; each time it
//! gives back the next frame to relay, the finished authentication, or an error.

use vstd::prelude::*;

use crate::error::ErrorView;
use crate::error::ProtocolError;

verus! {

/// A request that the worker authenticate these nodes.
#[derive(Debug)]
pub struct StartAuth {
    pub system_code: u16,
    pub areas: Vec<u16>,
    pub services: Vec<u16>,
}

/// What a [`StartAuth`] asks for.
pub struct StartView {
    pub system_code: u16,
    pub areas: Seq<u16>,
    pub services: Seq<u16>,
}

impl View for StartAuth {
    type V = StartView;

    open spec fn view(&self) -> StartView {
        StartView {
            system_code: self.system_code,
            areas: self.areas@,
            services: self.services@,
        }
    }
}

/// The one input that a client request hands to the worker.
#[derive(Debug)]
pub enum Delivery {
    /// Start an authentication.
    Start(StartAuth),
    /// A card response, for the frame that was relayed last.
    Card(Vec<u8>),
}

/// What a [`Delivery`] carries.
pub enum DeliveryView {
    Start(StartView),
    Card(Seq<u8>),
}

impl View for Delivery {
    type V = DeliveryView;

    open spec fn view(&self) -> DeliveryView {
        match self {
            Delivery::Start(start) => DeliveryView::Start(start@),
            Delivery::Card(card) => DeliveryView::Card(card@),
        }
    }
}

/// The ephemeral session material that an authentication establishes.
#[derive(Clone, Copy, Debug)]
pub struct SecureSessionMaterial {
    pub key: [u8; 8],
    pub transaction_id: [u8; 6],
    pub transaction_number: u16,
}

/// The one answer that the worker gives to each input.
#[derive(Debug)]
pub enum Out {
    /// The next frame to relay to the card.
    Frame { code: u8, frame: Vec<u8>, timeout_ms: u16 },
    /// The authentication succeeded.
    AuthComplete {
        issue_id: [u8; 8],
        issue_parameter: [u8; 8],
        session: SecureSessionMaterial,
    },
    /// The authentication failed.
    Error(ProtocolError),
}

/// What an [`Out`] says.
pub enum OutView {
    Frame { code: u8, frame: Seq<u8>, timeout_ms: u16 },
    AuthComplete {
        issue_id: [u8; 8],
        issue_parameter: [u8; 8],
        session: SecureSessionMaterial,
    },
    Error(ErrorView),
}

impl View for Out {
    type V = OutView;

    open spec fn view(&self) -> OutView {
        match self {
            Out::Frame { code, frame, timeout_ms } => OutView::Frame {
                code: *code,
                frame: frame@,
                timeout_ms: *timeout_ms,
            },
            Out::AuthComplete { issue_id, issue_parameter, session } => OutView::AuthComplete {
                issue_id: *issue_id,
                issue_parameter: *issue_parameter,
                session: *session,
            },
            Out::Error(error) => OutView::Error(error@),
        }
    }
}

impl Out {
    /// Whether a frame's text can be allocated; anything but a frame is short enough.
    pub open spec fn fits(&self) -> bool {
        match self {
            Out::Frame { frame, .. } => 2 * frame@.len() <= isize::MAX,
            _ => true,
        }
    }
}

/// Why the worker gave no answer.
#[derive(Clone, Copy, Debug, PartialEq, Eq, Structural)]
pub enum WorkerFault {
    /// It no longer takes input.
    Unavailable,
    /// It stopped before it answered.
    Terminated,
}

/// What the client is told of a worker that gave no answer.
pub open spec fn fault_message(fault: WorkerFault) -> Seq<char> {
    match fault {
        WorkerFault::Unavailable => "session worker unavailable"@,
        WorkerFault::Terminated => "session worker terminated"@,
    }
}

/// The error for a worker that gave no answer.
pub fn fault_error(fault: WorkerFault) -> (made: ProtocolError)
    ensures
        made@ == crate::error::error(500, fault_message(fault)),
{
    match fault {
        WorkerFault::Unavailable => ProtocolError::internal(
            "session worker unavailable".to_owned(),
        ),
        WorkerFault::Terminated => ProtocolError::internal("session worker terminated".to_owned()),
    }
}

} // verus!
