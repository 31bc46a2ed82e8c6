//! The rules by which requests are decided, as functions of what a request says, of
//! the state of its session, and of what the worker answered.

use vstd::prelude::*;

use crate::error;
use crate::error::ErrorView;
use crate::policy;
use crate::relay;
use crate::relay::DeliveryView;
use crate::relay::Out;
use crate::relay::OutView;
use crate::relay::StartView;
use crate::relay::WorkerFault;
use crate::reply;
use crate::reply::ReplyView;
use crate::session::ActionView;
use crate::session::Expect;
use crate::session::FoundView;
use crate::session::InputView;
use crate::session::ManagerView;
use crate::session::PhaseView;
use crate::session::SessionInner;
use crate::table;
use crate::table::Block8;
use crate::table::Session;
use crate::text;

verus! {

/// The input of a request without any field.
pub open spec fn empty_input() -> InputView {
    InputView {
        session_id: None,
        idm: None,
        pmm: None,
        system_code: None,
        areas: None,
        services: None,
        card_response: None,
    }
}

/// Whether a request may go on with a session it names: what it says of the card, if
/// anything, is what the session was created with.
pub open spec fn matching_card<W>(
    session: Session<W>,
    idm: Option<Block8>,
    pmm: Option<Block8>,
) -> Result<(), ErrorView> {
    if idm is Some && idm->Some_0 != session.idm {
        Err(error::error(400, "idm does not match existing session"@))
    } else if pmm is Some && pmm->Some_0 != session.pmm {
        Err(error::error(400, "pmm does not match existing session"@))
    } else {
        Ok(())
    }
}

/// The session that a request is for, or why there is none. A request that names a
/// session gets that one, if it is there; one that names none gets a new one, if it
/// gives the card and there is room.
pub open spec fn found_session<W>(
    manager: ManagerView<W>,
    session_id: Option<Seq<char>>,
    idm: Option<Block8>,
    pmm: Option<Block8>,
) -> Result<FoundView, ErrorView> {
    match session_id {
        Some(id) => if !manager.sessions.contains_key(id) {
            Err(error::error(404, "unknown session_id"@))
        } else {
            match matching_card(manager.sessions[id], idm, pmm) {
                Ok(()) => Ok(FoundView::Existing(id)),
                Err(err) => Err(err),
            }
        },
        None => if idm is None || pmm is None {
            Err(error::error(400, "idm and pmm are required to start a session"@))
        } else if manager.sessions.len() >= manager.max_sessions {
            Err(error::error(503, "too many active sessions"@))
        } else {
            Ok(FoundView::New { idm: idm->Some_0, pmm: pmm->Some_0 })
        },
    }
}

/// Why a session is not created once its worker has been started, or has failed to:
/// there is no room, or there is no worker.
pub open spec fn creation_refused<W>(
    manager: ManagerView<W>,
    started: Result<W, Seq<char>>,
) -> Option<ErrorView> {
    if manager.sessions.len() >= manager.max_sessions {
        Some(error::error(503, "too many active sessions"@))
    } else {
        match started {
            Ok(_) => None,
            Err(reason) => Some(
                error::error(500, "failed to spawn session worker: "@ + reason),
            ),
        }
    }
}

/// The worker that was started, or why it was not.
pub open spec fn started_view<W>(started: Result<W, String>) -> Result<W, Seq<char>> {
    match started {
        Ok(worker) => Ok(worker),
        Err(reason) => Err(reason@),
    }
}

/// A session as it is created.
pub open spec fn new_session<W>(idm: Block8, pmm: Block8, worker: W, now: u128) -> Session<W> {
    Session { idm, pmm, last_seen: now, worker }
}

/// How far the authentication of a new session has come.
pub open spec fn new_inner() -> SessionInner {
    SessionInner { expect: Expect::Control, auth_frames: 0 }
}

/// Whether a text is a session id: sixteen bytes in hexadecimal.
pub open spec fn is_session_id(id: Seq<char>) -> bool {
    exists|bytes: Seq<u8>| bytes.len() == 16 && id == #[trigger] text::hex_text(bytes)
}

/// What is said of a field that must hold a list with something in it.
pub open spec fn nonempty_message(name: Seq<char>) -> Seq<char> {
    name + " must be a non-empty list"@
}

/// What is said of a service that grants more than read access.
pub open spec fn not_read_only_message(code: u16) -> Seq<char> {
    "service 0x"@ + text::code_text(code) + " is not a read-only node"@
}

/// Whether `i` is the first service that grants more than read access.
pub open spec fn first_writable(services: Seq<u16>, i: int) -> bool {
    &&& 0 <= i < services.len()
    &&& !policy::read_only(services[i])
    &&& forall|j: int| 0 <= j < i ==> policy::read_only(#[trigger] services[j])
}

/// Whether every service of the list grants read access and nothing more.
pub open spec fn all_read_only(services: Seq<u16>) -> bool {
    forall|i: int| 0 <= i < services.len() ==> policy::read_only(#[trigger] services[i])
}

/// Why a service list is refused when only read-only services may be authenticated:
/// a service grants more than read access, or a card would refuse the list.
pub open spec fn read_only_refusal(services: Seq<u16>) -> Option<ErrorView> {
    if !all_read_only(services) {
        let i = choose|i: int| first_writable(services, i);
        Some(error::error(403, not_read_only_message(services[i])))
    } else {
        match policy::shape_refusal(services) {
            Some(message) => Some(error::error(400, message)),
            None => None,
        }
    }
}

/// The start that a request asks for, before any restriction on its services, or
/// what is wrong with it.
pub open spec fn requested_start(input: InputView) -> Result<StartView, ErrorView> {
    if input.card_response is Some {
        Err(error::error(400, "card_response not expected at start of authentication"@))
    } else if input.system_code is None {
        Err(error::error(400, "system_code is required"@))
    } else if input.areas is None || input.areas->Some_0.len() == 0 {
        Err(error::error(400, nonempty_message("areas"@)))
    } else if input.services is None || input.services->Some_0.len() == 0 {
        Err(error::error(400, nonempty_message("services"@)))
    } else {
        Ok(
            StartView {
                system_code: input.system_code->Some_0,
                areas: input.areas->Some_0,
                services: input.services->Some_0,
            },
        )
    }
}

/// What a request whose turn has come hands to the worker, or why it is refused.
pub open spec fn admitted(
    read_only_nodes: bool,
    inner: SessionInner,
    input: InputView,
) -> Result<DeliveryView, ErrorView> {
    if inner.expect == Expect::Control {
        match requested_start(input) {
            Err(err) => Err(err),
            Ok(start) => if read_only_nodes && read_only_refusal(start.services) is Some {
                Err(read_only_refusal(start.services)->Some_0)
            } else {
                Ok(DeliveryView::Start(start))
            },
        }
    } else {
        match input.card_response {
            Some(card) => Ok(DeliveryView::Card(card)),
            None => Err(
                error::error(400, "card_response is required to continue authentication"@),
            ),
        }
    }
}

/// Whether a request is due to start an authentication and is refused.
pub open spec fn start_refused(
    read_only_nodes: bool,
    inner: SessionInner,
    input: InputView,
) -> bool {
    inner.expect == Expect::Control && admitted(read_only_nodes, inner, input) is Err
}

/// How far the authentication has come once its request is on its way to the worker.
pub open spec fn inner_delivered(inner: SessionInner) -> SessionInner {
    if inner.expect == Expect::Control {
        SessionInner { auth_frames: 0, ..inner }
    } else {
        inner
    }
}

/// The label of a frame, by the number of frames of this authentication so far, this
/// one included.
pub open spec fn step_label(auth_frames: u8) -> Seq<char> {
    if auth_frames <= 1 {
        "auth1"@
    } else {
        "auth2"@
    }
}

/// One more frame.
pub open spec fn one_more(auth_frames: u8) -> u8 {
    if auth_frames < 255 {
        (auth_frames + 1) as u8
    } else {
        255
    }
}

/// How far the authentication has come once the worker has answered, or has not.
pub open spec fn inner_answered(
    inner: SessionInner,
    answer: Result<OutView, WorkerFault>,
) -> SessionInner {
    match answer {
        Ok(OutView::Frame { .. }) => SessionInner {
            expect: Expect::Card,
            auth_frames: one_more(inner.auth_frames),
        },
        Ok(_) => SessionInner { expect: Expect::Control, ..inner },
        Err(_) => inner,
    }
}

/// The answer of the worker, if it gave one.
pub open spec fn answer_view(answer: Result<Out, WorkerFault>) -> Result<OutView, WorkerFault> {
    match answer {
        Ok(out) => Ok(out@),
        Err(fault) => Err(fault),
    }
}

/// What the client is told once the worker has answered, or has not. `inner` is how
/// far the authentication had come before the answer.
pub open spec fn answered(
    session_id: Seq<char>,
    created: bool,
    starting: bool,
    inner: SessionInner,
    answer: Result<OutView, WorkerFault>,
) -> Result<ReplyView, ErrorView> {
    let session_created = if starting {
        Some(created)
    } else {
        None
    };
    match answer {
        Ok(OutView::Frame { code, frame, timeout_ms }) => Ok(
            ReplyView {
                phase: "mutual_authentication"@,
                step: step_label(one_more(inner.auth_frames)),
                command: Some(reply::command_of(code, frame, timeout_ms)),
                result: None,
                session_id,
                session_created,
            },
        ),
        Ok(OutView::AuthComplete { issue_id, issue_parameter, session }) => Ok(
            ReplyView {
                phase: "mutual_authentication"@,
                step: "complete"@,
                command: None,
                result: Some(reply::result_of(issue_id, issue_parameter, session)),
                session_id,
                session_created,
            },
        ),
        Ok(OutView::Error(err)) => Err(err),
        Err(fault) => Err(error::error(500, relay::fault_message(fault))),
    }
}

/// The sessions once the worker of `session_id` has answered at `now`, or has not: an
/// answer is progress, and a finished authentication ends the session.
pub open spec fn sessions_answered<W>(
    sessions: Map<Seq<char>, Session<W>>,
    session_id: Seq<char>,
    answer: Result<OutView, WorkerFault>,
    now: u128,
) -> Map<Seq<char>, Session<W>> {
    match answer {
        Ok(OutView::AuthComplete { .. }) => sessions.remove(session_id),
        Ok(_) => table::touched(sessions, session_id, now),
        Err(_) => sessions,
    }
}

/// The sessions once a request has had its turn, before anything goes to the worker:
/// a session that was created for it is forgotten if the start that it asks for is
/// refused, since then no authentication is in flight.
pub open spec fn sessions_admitted<W>(
    manager: ManagerView<W>,
    session_id: Seq<char>,
    created: bool,
    inner: SessionInner,
    input: InputView,
) -> Map<Seq<char>, Session<W>> {
    if created && start_refused(manager.read_only_nodes, inner, input) {
        manager.sessions.remove(session_id)
    } else {
        manager.sessions
    }
}

/// What is done next for a request that has come in.
pub open spec fn action_received<W>(manager: ManagerView<W>, input: InputView) -> ActionView {
    match found_session(manager, input.session_id, input.idm, input.pmm) {
        Ok(FoundView::Existing(session_id)) => ActionView::AwaitTurn {
            session_id,
            created: false,
            input,
        },
        Ok(FoundView::New { idm, pmm }) => ActionView::StartWorker { input, idm, pmm },
        Err(err) => ActionView::Respond { settled: None, response: Err(err) },
    }
}

/// What is done next for a request whose turn has come.
pub open spec fn action_admitted(
    read_only_nodes: bool,
    session_id: Seq<char>,
    created: bool,
    inner: SessionInner,
    input: InputView,
) -> ActionView {
    match admitted(read_only_nodes, inner, input) {
        Ok(delivery) => ActionView::Deliver {
            session_id,
            created,
            starting: inner.expect == Expect::Control,
            inner: inner_delivered(inner),
            delivery,
        },
        Err(err) => ActionView::Respond { settled: Some(inner), response: Err(err) },
    }
}

/// Whether this is what becomes of a request in this phase: the manager's state goes
/// from `before` to `after`, and `action` is done next. Only the id of a new session
/// is left open.
pub open spec fn handled<W>(
    before: ManagerView<W>,
    phase: PhaseView<W>,
    after: ManagerView<W>,
    action: ActionView,
) -> bool {
    match phase {
        PhaseView::Received(input) => {
            &&& after == before
            &&& action == action_received(before, input)
        },
        PhaseView::WorkerStarted { input, idm, pmm, started, now } => {
            match creation_refused(before, started) {
                Some(err) => {
                    &&& after == before
                    &&& action == ActionView::Respond { settled: None, response: Err(err) }
                },
                None => {
                    &&& action matches ActionView::AwaitTurn { session_id, created, input: kept }
                    &&& created
                    &&& kept == input
                    &&& is_session_id(session_id)
                    &&& !before.sessions.contains_key(session_id)
                    &&& after == before.with_sessions(
                        before.sessions.insert(
                            session_id,
                            new_session(idm, pmm, started->Ok_0, now),
                        ),
                    )
                },
            }
        },
        PhaseView::TurnCame { session_id, created, input, inner } => {
            &&& after == before.with_sessions(
                sessions_admitted(before, session_id, created, inner, input),
            )
            &&& action == action_admitted(
                before.read_only_nodes,
                session_id,
                created,
                inner,
                input,
            )
        },
        PhaseView::Answered { session_id, created, starting, inner, answer, now } => {
            &&& after == before.with_sessions(
                sessions_answered(before.sessions, session_id, answer, now),
            )
            &&& action == ActionView::Respond {
                settled: Some(inner_answered(inner, answer)),
                response: answered(session_id, created, starting, inner, answer),
            }
        },
    }
}

/// The time between two rounds of reaping: half the time to live, but a second at
/// least.
pub open spec fn reap_pause(ttl: u128) -> int {
    if ttl as int / 2 < 1_000_000_000 {
        1_000_000_000
    } else {
        ttl as int / 2
    }
}

} // verus!
