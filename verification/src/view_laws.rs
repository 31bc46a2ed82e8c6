//! What contracts say of a value, they say of all of it: each view holds every field of
//! its value, as it is.

use vstd::prelude::*;

use crate::error::ErrorView;
use crate::error::ProtocolError;
use crate::keystore::NodeKeys;
use crate::relay::Delivery;
use crate::relay::DeliveryView;
use crate::relay::Out;
use crate::relay::OutView;
use crate::relay::StartAuth;
use crate::relay::WorkerFault;
use crate::reply::AuthReply;
use crate::reply::AuthResult;
use crate::reply::Command;
use crate::reply::SecureSession;
use crate::rules;
use crate::session;
use crate::session::ActionView;
use crate::session::AuthAction;
use crate::session::AuthPhase;
use crate::session::FoundSession;
use crate::session::FoundView;
use crate::session::MutualAuthInput;
use crate::session::PhaseView;
use crate::worker;
use crate::worker::WorkerAction;
use crate::worker::WorkerActionView;
use crate::worker::WorkerPhase;
use crate::worker::WorkerPhaseView;

verus! {

/// An error is seen with its status, its message and its code; a result with its value
/// or its error.
pub proof fn errors_are_seen_whole<T: View>(
    err: ProtocolError,
    value: T,
    fault: WorkerFault,
    out: Out,
    reason: String,
)
    ensures
        err@.status == err.status,
        err@.message == err.message@,
        err@.code == err.code,
        session::outcome::<T>(Err(err)) == Err::<T::V, ErrorView>(err@),
        session::outcome(Ok(value)) == Ok::<T::V, ErrorView>(value@),
        worker::error_view::<T>(Err(err)) == Err::<T, ErrorView>(err@),
        worker::error_view(Ok(value)) == Ok::<T, ErrorView>(value),
        rules::answer_view(Ok(out)) == Ok::<OutView, WorkerFault>(out@),
        rules::answer_view(Err(fault)) == Err::<OutView, WorkerFault>(fault),
        rules::started_view(Ok(value)) == Ok::<T, Seq<char>>(value),
        rules::started_view(Err::<T, String>(reason)) == Err::<T, Seq<char>>(reason@),
{
}

/// A request is seen with each of its fields, a text or list with all that it holds.
pub proof fn requests_are_seen_whole(input: MutualAuthInput)
    ensures
        input@.idm == input.idm,
        input@.pmm == input.pmm,
        input@.system_code == input.system_code,
        input@.session_id is Some <==> input.session_id is Some,
        input.session_id matches Some(id) ==> input@.session_id == Some(id@),
        input@.areas is Some <==> input.areas is Some,
        input.areas matches Some(areas) ==> input@.areas == Some(areas@),
        input@.services is Some <==> input.services is Some,
        input.services matches Some(services) ==> input@.services == Some(services@),
        input@.card_response is Some <==> input.card_response is Some,
        input.card_response matches Some(card) ==> input@.card_response == Some(card@),
{
}

/// What passes between a session and its worker is seen with all that it carries.
pub proof fn messages_are_seen_whole(start: StartAuth, card: Vec<u8>, out: Out, keys: NodeKeys)
    ensures
        start@.system_code == start.system_code,
        start@.areas == start.areas@,
        start@.services == start.services@,
        Delivery::Start(start)@ == DeliveryView::Start(start@),
        Delivery::Card(card)@ == DeliveryView::Card(card@),
        out matches Out::Frame { code, frame, timeout_ms } ==> out@ == (OutView::Frame {
            code,
            frame: frame@,
            timeout_ms,
        }),
        out matches Out::AuthComplete { issue_id, issue_parameter, session } ==> out@ == (
        OutView::AuthComplete { issue_id, issue_parameter, session }),
        out matches Out::Error(err) ==> out@ == OutView::Error(err@),
        keys@.system == keys.system,
        keys@.areas == keys.areas@,
        keys@.services == keys.services@,
{
}

/// A reply is seen with each of its fields, and so are its parts.
pub proof fn replies_are_seen_whole(
    reply: AuthReply,
    command: Command,
    result: AuthResult,
    session: SecureSession,
)
    ensures
        reply@.phase == reply.phase@,
        reply@.step == reply.step@,
        reply@.session_id == reply.session_id@,
        reply@.session_created == reply.session_created,
        reply@.command is Some <==> reply.command is Some,
        reply.command matches Some(held) ==> reply@.command == Some(held@),
        reply@.result is Some <==> reply.result is Some,
        reply.result matches Some(held) ==> reply@.result == Some(held@),
        command@.code == command.code,
        command@.frame == command.frame@,
        command@.timeout_ms == command.timeout_ms,
        result@.issue_id == result.issue_id@,
        result@.issue_parameter == result.issue_parameter@,
        result@.session == result.session@,
        session@.scheme == session.scheme@,
        session@.key == session.key@,
        session@.transaction_id == session.transaction_id@,
        session@.transaction_number == session.transaction_number,
{
}

/// Where a request stands is seen with all that has come of it.
pub proof fn phases_are_seen_whole<W>(phase: AuthPhase<W>, found: FoundSession)
    ensures
        phase matches AuthPhase::Received(input) ==> phase@ == PhaseView::<W>::Received(input@),
        phase matches AuthPhase::WorkerStarted { input, idm, pmm, started, now } ==> phase@ == (
        PhaseView::<W>::WorkerStarted {
            input: input@,
            idm,
            pmm,
            started: rules::started_view(started),
            now,
        }),
        phase matches AuthPhase::TurnCame { session_id, created, input, inner } ==> phase@ == (
        PhaseView::<W>::TurnCame { session_id: session_id@, created, input: input@, inner }),
        phase matches AuthPhase::Answered {
            session_id,
            created,
            starting,
            inner,
            answer,
            now,
        } ==> phase@ == (PhaseView::<W>::Answered {
            session_id: session_id@,
            created,
            starting,
            inner,
            answer: rules::answer_view(answer),
            now,
        }),
        found matches FoundSession::Existing(id) ==> found@ == FoundView::Existing(id@),
        found matches FoundSession::New { idm, pmm } ==> found@ == (FoundView::New { idm, pmm }),
{
}

/// What is to be done for a request is seen with all that it takes.
pub proof fn actions_are_seen_whole(action: AuthAction)
    ensures
        action matches AuthAction::StartWorker { input, idm, pmm } ==> action@ == (
        ActionView::StartWorker { input: input@, idm, pmm }),
        action matches AuthAction::AwaitTurn { session_id, created, input } ==> action@ == (
        ActionView::AwaitTurn { session_id: session_id@, created, input: input@ }),
        action matches AuthAction::Deliver {
            session_id,
            created,
            starting,
            inner,
            delivery,
        } ==> action@ == (ActionView::Deliver {
            session_id: session_id@,
            created,
            starting,
            inner,
            delivery: delivery@,
        }),
        action matches AuthAction::Respond { settled, response: Ok(reply) } ==> action@ == (
        ActionView::Respond { settled, response: Ok(reply@) }),
        action matches AuthAction::Respond { settled, response: Err(err) } ==> action@ == (
        ActionView::Respond { settled, response: Err(err@) }),
{
}

/// What has come of a worker's last step, and what it does next, are seen with all that
/// they carry.
pub proof fn worker_steps_are_seen_whole<K>(phase: WorkerPhase<K>, action: WorkerAction<K>)
    ensures
        phase is Started <==> phase@ is Started,
        phase matches WorkerPhase::Polled(Ok(())) ==> phase@ == WorkerPhaseView::<K>::Polled(Ok(())),
        phase matches WorkerPhase::Polled(Err(err)) ==> phase@ == WorkerPhaseView::<K>::Polled(
            Err(err@),
        ),
        phase matches WorkerPhase::Requested(None) ==> phase@ == WorkerPhaseView::<K>::Requested(
            None,
        ),
        phase matches WorkerPhase::Requested(Some(request)) ==> phase@ == WorkerPhaseView::<
            K,
        >::Requested(Some(request@)),
        phase matches WorkerPhase::KeysDerived { request, derived: Ok(derived) } ==> phase@ == (
        WorkerPhaseView::<K>::KeysDerived { request: request@, derived: Ok(derived) }),
        phase matches WorkerPhase::KeysDerived { request, derived: Err(err) } ==> phase@ == (
        WorkerPhaseView::<K>::KeysDerived { request: request@, derived: Err(err@) }),
        phase matches WorkerPhase::Authenticated(Ok(ended)) ==> phase@ == WorkerPhaseView::<
            K,
        >::Authenticated(Ok(ended)),
        phase matches WorkerPhase::Authenticated(Err(err)) ==> phase@ == WorkerPhaseView::<
            K,
        >::Authenticated(Err(err@)),
        action matches WorkerAction::Poll { target, system_code, request_code, time_slots }
            ==> action@ == (WorkerActionView::<K>::Poll {
            target: target@,
            system_code,
            request_code,
            time_slots,
        }),
        action is AwaitRequest <==> action@ is AwaitRequest,
        action matches WorkerAction::DeriveKeys { request, keys } ==> action@ == (
        WorkerActionView::<K>::DeriveKeys { request: request@, keys: keys@ }),
        action matches WorkerAction::Authenticate { request, derived } ==> action@ == (
        WorkerActionView::<K>::Authenticate { request: request@, derived }),
        action matches WorkerAction::Report { out, clear_context } ==> action@ == (
        WorkerActionView::<K>::Report { out: out@, clear_context }),
        action matches WorkerAction::Stop { last: Some(out) } ==> action@ == (WorkerActionView::<
            K,
        >::Stop { last: Some(out@) }),
        action matches WorkerAction::Stop { last: None } ==> action@ == (WorkerActionView::<
            K,
        >::Stop { last: None }),
{
}

} // verus!
