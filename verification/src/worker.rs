//! What the worker of a session does, step by step: it polls the card once, then runs
//! one mutual authentication for each request that comes in, and reports the session
//! material for the client to use.
//!
//! The card, the FeliCa cryptography and the channels are the caller's. After each of
//! them [`run_session`] decides what is to be done next.

use vstd::prelude::*;

use crate::error;
use crate::error::ErrorView;
use crate::error::ProtocolError;
use crate::keystore;
use crate::keystore::KeyStore;
use crate::keystore::NodeKeys;
use crate::keystore::NodeKeysView;
use crate::keystore::StoredKey;
use crate::relay::Out;
use crate::relay::OutView;
use crate::relay::SecureSessionMaterial;
use crate::relay::StartAuth;
use crate::relay::StartView;
use crate::table::Block8;

verus! {

/// The system code that every card answers to.
pub const ANY_SYSTEM: u16 = 0xFFFF;

/// The secret of a secure session, by its scheme.
#[derive(Clone, Copy, Debug)]
pub enum Credentials {
    /// A DES session key.
    Des(Block8),
    /// Any other scheme.
    Other,
}

/// A secure session as the card layer holds it.
#[derive(Clone, Copy, Debug)]
pub struct AuthenticatedContext {
    pub credentials: Credentials,
    pub transaction_id: [u8; 6],
    pub transaction_number: u16,
}

/// What came of a mutual authentication that succeeded.
#[derive(Clone, Copy, Debug)]
pub struct Authentication {
    pub issue_id: Block8,
    pub issue_parameter: Block8,
    /// The secure session, if the card layer holds one.
    pub context: Option<AuthenticatedContext>,
}

/// What has come of the last thing that the worker did. `K` is what the keys of an
/// authentication are derived to.
pub enum WorkerPhase<K> {
    /// It has been started.
    Started,
    /// It has polled the card.
    Polled(Result<(), ProtocolError>),
    /// A request has come in; without one, none will come any more.
    Requested(Option<StartAuth>),
    /// The keys for a request have been derived.
    KeysDerived { request: StartAuth, derived: Result<K, ProtocolError> },
    /// A mutual authentication has ended.
    Authenticated(Result<Authentication, ProtocolError>),
}

/// What the worker does next.
pub enum WorkerAction<K> {
    /// Poll for a card.
    Poll { target: &'static str, system_code: u16, request_code: u8, time_slots: u8 },
    /// Wait for a request.
    AwaitRequest,
    /// Derive the keys for the request from the keys of its nodes.
    DeriveKeys { request: StartAuth, keys: NodeKeys },
    /// Run the mutual authentication.
    Authenticate { request: StartAuth, derived: K },
    /// Report this, then wait for the next request. Before it, drop the secure
    /// session if `clear_context` is set.
    Report { out: Out, clear_context: bool },
    /// Report this, if anything, and end.
    Stop { last: Option<Out> },
}

/// What a [`WorkerPhase`] says.
pub enum WorkerPhaseView<K> {
    Started,
    Polled(Result<(), ErrorView>),
    Requested(Option<StartView>),
    KeysDerived { request: StartView, derived: Result<K, ErrorView> },
    Authenticated(Result<Authentication, ErrorView>),
}

/// What a [`WorkerAction`] says.
pub enum WorkerActionView<K> {
    Poll { target: Seq<char>, system_code: u16, request_code: u8, time_slots: u8 },
    AwaitRequest,
    DeriveKeys { request: StartView, keys: NodeKeysView },
    Authenticate { request: StartView, derived: K },
    Report { out: OutView, clear_context: bool },
    Stop { last: Option<OutView> },
}

/// A result whose error is taken by its view.
pub open spec fn error_view<T>(result: Result<T, ProtocolError>) -> Result<T, ErrorView> {
    match result {
        Ok(value) => Ok(value),
        Err(err) => Err(err@),
    }
}

impl<K> View for WorkerPhase<K> {
    type V = WorkerPhaseView<K>;

    open spec fn view(&self) -> WorkerPhaseView<K> {
        match self {
            WorkerPhase::Started => WorkerPhaseView::Started,
            WorkerPhase::Polled(polled) => WorkerPhaseView::Polled(error_view(*polled)),
            WorkerPhase::Requested(Some(request)) => WorkerPhaseView::Requested(Some(request@)),
            WorkerPhase::Requested(None) => WorkerPhaseView::Requested(None),
            WorkerPhase::KeysDerived { request, derived } => WorkerPhaseView::KeysDerived {
                request: request@,
                derived: error_view(*derived),
            },
            WorkerPhase::Authenticated(ended) => WorkerPhaseView::Authenticated(
                error_view(*ended),
            ),
        }
    }
}

impl<K> View for WorkerAction<K> {
    type V = WorkerActionView<K>;

    open spec fn view(&self) -> WorkerActionView<K> {
        match self {
            WorkerAction::Poll { target, system_code, request_code, time_slots } =>
                WorkerActionView::Poll {
                target: target@,
                system_code: *system_code,
                request_code: *request_code,
                time_slots: *time_slots,
            },
            WorkerAction::AwaitRequest => WorkerActionView::AwaitRequest,
            WorkerAction::DeriveKeys { request, keys } => WorkerActionView::DeriveKeys {
                request: request@,
                keys: keys@,
            },
            WorkerAction::Authenticate { request, derived } => WorkerActionView::Authenticate {
                request: request@,
                derived: *derived,
            },
            WorkerAction::Report { out, clear_context } => WorkerActionView::Report {
                out: out@,
                clear_context: *clear_context,
            },
            WorkerAction::Stop { last: Some(out) } => WorkerActionView::Stop { last: Some(out@) },
            WorkerAction::Stop { last: None } => WorkerActionView::Stop { last: None },
        }
    }
}

/// The session material that a secure session holds, if it is there and is a DES one.
pub open spec fn material_in(context: Option<AuthenticatedContext>) -> Result<
    SecureSessionMaterial,
    ErrorView,
> {
    match context {
        None => Err(
            error::error(500, "authenticated context missing after mutual authentication"@),
        ),
        Some(context) => match context.credentials {
            Credentials::Des(key) => Ok(
                SecureSessionMaterial {
                    key,
                    transaction_id: context.transaction_id,
                    transaction_number: context.transaction_number,
                },
            ),
            Credentials::Other => Err(
                error::error(500, "unexpected secure session scheme (expected DES)"@),
            ),
        },
    }
}

/// What is reported of a mutual authentication.
pub open spec fn report_of(ended: Result<Authentication, ErrorView>) -> OutView {
    match ended {
        Err(err) => OutView::Error(err),
        Ok(authentication) => match material_in(authentication.context) {
            Err(err) => OutView::Error(err),
            Ok(session) => OutView::AuthComplete {
                issue_id: authentication.issue_id,
                issue_parameter: authentication.issue_parameter,
                session,
            },
        },
    }
}

/// What the worker for the card `idm` does next, with these long-term keys.
pub open spec fn worker_next<K>(
    keys: Seq<StoredKey>,
    idm: Block8,
    phase: WorkerPhaseView<K>,
) -> WorkerActionView<K> {
    match phase {
        WorkerPhaseView::Started => WorkerActionView::Poll {
            target: "212F"@,
            system_code: ANY_SYSTEM,
            request_code: 0,
            time_slots: 0,
        },
        WorkerPhaseView::Polled(Ok(())) => WorkerActionView::AwaitRequest,
        WorkerPhaseView::Polled(Err(err)) => WorkerActionView::Stop {
            last: Some(OutView::Error(err)),
        },
        WorkerPhaseView::Requested(None) => WorkerActionView::Stop { last: None },
        WorkerPhaseView::Requested(Some(request)) => match keystore::keys_found(
            keys,
            request.system_code,
            idm,
            request.areas,
            request.services,
        ) {
            Ok(keys) => WorkerActionView::DeriveKeys { request, keys },
            Err(err) => WorkerActionView::Report {
                out: OutView::Error(err),
                clear_context: false,
            },
        },
        WorkerPhaseView::KeysDerived { request, derived: Ok(derived) } =>
            WorkerActionView::Authenticate { request, derived },
        WorkerPhaseView::KeysDerived { request, derived: Err(err) } => WorkerActionView::Report {
            out: OutView::Error(err),
            clear_context: false,
        },
        WorkerPhaseView::Authenticated(ended) => WorkerActionView::Report {
            out: report_of(ended),
            clear_context: true,
        },
    }
}

/// Extract the ephemeral session material established by the authentication.
pub fn secure_session_material(context: Option<AuthenticatedContext>) -> (material: Result<
    SecureSessionMaterial,
    ProtocolError,
>)
    ensures
        error_view(material) == material_in(context),
{
    let context = match context {
        Some(context) => context,
        None => return Err(
            ProtocolError::internal(
                "authenticated context missing after mutual authentication".to_owned(),
            ),
        ),
    };
    let key = match context.credentials {
        Credentials::Des(key) => key,
        Credentials::Other => return Err(
            ProtocolError::internal("unexpected secure session scheme (expected DES)".to_owned()),
        ),
    };
    Ok(
        SecureSessionMaterial {
            key,
            transaction_id: context.transaction_id,
            transaction_number: context.transaction_number,
        },
    )
}

/// Decides what the worker for the card `idm` does next.
pub fn run_session<K>(keystore: &KeyStore, idm: &Block8, phase: WorkerPhase<K>) -> (action:
    WorkerAction<K>)
    ensures
        action@ == worker_next(keystore@, *idm, phase@),
{
    match phase {
        WorkerPhase::Started => WorkerAction::Poll {
            target: "212F",
            system_code: ANY_SYSTEM,
            request_code: 0,
            time_slots: 0,
        },
        WorkerPhase::Polled(Ok(())) => WorkerAction::AwaitRequest,
        WorkerPhase::Polled(Err(err)) => WorkerAction::Stop { last: Some(Out::Error(err)) },
        WorkerPhase::Requested(None) => WorkerAction::Stop { last: None },
        WorkerPhase::Requested(Some(request)) => match keystore.keys_for(
            request.system_code,
            idm,
            request.areas.as_slice(),
            request.services.as_slice(),
        ) {
            Ok(keys) => WorkerAction::DeriveKeys { request, keys },
            Err(err) => WorkerAction::Report { out: Out::Error(err), clear_context: false },
        },
        WorkerPhase::KeysDerived { request, derived: Ok(derived) } => WorkerAction::Authenticate {
            request,
            derived,
        },
        WorkerPhase::KeysDerived { request, derived: Err(err) } => WorkerAction::Report {
            out: Out::Error(err),
            clear_context: false,
        },
        WorkerPhase::Authenticated(ended) => {
            let out = match ended {
                Ok(authentication) => match secure_session_material(authentication.context) {
                    Ok(session) => Out::AuthComplete {
                        issue_id: authentication.issue_id,
                        issue_parameter: authentication.issue_parameter,
                        session,
                    },
                    Err(err) => Out::Error(err),
                },
                Err(err) => Out::Error(err),
            };
            // The session key belongs to the client from here on; don't keep it.
            WorkerAction::Report { out, clear_context: true }
        },
    }
}

} // verus!
