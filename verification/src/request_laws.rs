//! What becomes of a request in each of its phases, said of the fields of the request, of
//! the sessions and of the answers themselves.

use vstd::prelude::*;

use crate::error::ErrorView;
use crate::field_laws;
use crate::policy;
use crate::relay::DeliveryView;
use crate::relay::OutView;
use crate::relay::WorkerFault;
use crate::rules;
use crate::session::ActionView;
use crate::session::Expect;
use crate::session::InputView;
use crate::session::ManagerView;
use crate::session::PhaseView;
use crate::session::SessionInner;
use crate::table;
use crate::table::Block8;
use crate::table::Session;
use crate::text;

verus! {

/// Whether the request is answered with this error, without status flags, after this
/// has been stored of its session.
pub open spec fn is_refusal(
    action: ActionView,
    stored: Option<SessionInner>,
    status: int,
    message: Seq<char>,
) -> bool {
    &&& action matches ActionView::Respond { settled, response: Err(err) }
    &&& settled == stored
    &&& err.status == status
    &&& err.message == message
    &&& err.code is None
}

/// Whether the two tables hold the same under every id but this one.
pub open spec fn same_but_for<W>(
    a: Map<Seq<char>, Session<W>>,
    b: Map<Seq<char>, Session<W>>,
    id: Seq<char>,
) -> bool {
    forall|other: Seq<char>|
        other != id ==> {
            &&& a.contains_key(other) <==> #[trigger] b.contains_key(other)
            &&& a.contains_key(other) ==> a[other] == b[other]
        }
}

/// Keys, restriction, time to live and cap stay what they are, whatever becomes of a
/// request.
pub proof fn settings_never_change<W>(
    before: ManagerView<W>,
    phase: PhaseView<W>,
    after: ManagerView<W>,
    action: ActionView,
)
    requires
        rules::handled(before, phase, after, action),
    ensures
        after.keystore == before.keystore,
        after.read_only_nodes == before.read_only_nodes,
        after.ttl == before.ttl,
        after.max_sessions == before.max_sessions,
{
}

/// No request takes the number of sessions above the cap.
pub proof fn never_more_sessions_than_the_cap<W>(
    before: ManagerView<W>,
    phase: PhaseView<W>,
    after: ManagerView<W>,
    action: ActionView,
)
    requires
        before.sessions.dom().finite(),
        before.sessions.len() <= before.max_sessions,
        rules::handled(before, phase, after, action),
    ensures
        after.sessions.dom().finite(),
        after.sessions.len() <= after.max_sessions,
{
}

/// A request that names a session waits for the turn of that very session, exactly if
/// the session is there and was created for the card that the request gives, as far as
/// it gives one.
pub proof fn named_session_is_taken_up<W>(
    before: ManagerView<W>,
    input: InputView,
    id: Seq<char>,
    after: ManagerView<W>,
    action: ActionView,
)
    requires
        input.session_id == Some(id),
        rules::handled(before, PhaseView::Received(input), after, action),
    ensures
        after == before,
        !before.sessions.contains_key(id) ==> is_refusal(
            action,
            None,
            404,
            "unknown session_id"@,
        ),
        before.sessions.contains_key(id) ==> {
            let session = before.sessions[id];
            let right_idm = input.idm is None || input.idm == Some(session.idm);
            let right_pmm = input.pmm is None || input.pmm == Some(session.pmm);
            &&& !right_idm ==> is_refusal(action, None, 400, "idm does not match existing session"@)
            &&& right_idm && !right_pmm ==> is_refusal(
                action,
                None,
                400,
                "pmm does not match existing session"@,
            )
            &&& right_idm && right_pmm <==> action is AwaitTurn
        },
        action matches ActionView::AwaitTurn { session_id, created, input: kept } ==> {
            &&& session_id == id
            &&& !created
            &&& kept == input
        },
        !(action is StartWorker),
        !(action is Deliver),
{
}

/// A request that names no session has a worker started for the card that it gives,
/// exactly if it gives both halves of the card and there is room for another session.
pub proof fn new_session_gets_a_worker_for_its_card<W>(
    before: ManagerView<W>,
    input: InputView,
    after: ManagerView<W>,
    action: ActionView,
)
    requires
        input.session_id is None,
        rules::handled(before, PhaseView::Received(input), after, action),
    ensures
        after == before,
        action is StartWorker <==> input.idm is Some && input.pmm is Some && before.sessions.len()
            < before.max_sessions,
        action matches ActionView::StartWorker { input: kept, idm, pmm } ==> {
            &&& kept == input
            &&& input.idm == Some(idm)
            &&& input.pmm == Some(pmm)
        },
        input.idm is None || input.pmm is None ==> is_refusal(
            action,
            None,
            400,
            "idm and pmm are required to start a session"@,
        ),
        input.idm is Some && input.pmm is Some && before.sessions.len() >= before.max_sessions
            ==> is_refusal(action, None, 503, "too many active sessions"@),
{
}

/// A new session gets an id of its own: one that is not in use, thirty-two hexadecimal
/// digits in lower case. It holds the card, the worker and the time that it was created
/// with; every session that was there stays as it was; and there is one more than before.
pub proof fn new_session_is_one_more<W>(
    before: ManagerView<W>,
    input: InputView,
    idm: Block8,
    pmm: Block8,
    worker: W,
    now: u128,
    after: ManagerView<W>,
    action: ActionView,
)
    requires
        before.sessions.dom().finite(),
        before.sessions.len() < before.max_sessions,
        rules::handled(
            before,
            PhaseView::WorkerStarted { input, idm, pmm, started: Ok(worker), now },
            after,
            action,
        ),
    ensures
        action matches ActionView::AwaitTurn { session_id, created, input: kept } && {
            &&& created
            &&& kept == input
            &&& session_id.len() == 32
            &&& forall|i: int|
                0 <= i < 32 ==> '0' <= (#[trigger] session_id[i]) <= '9' || 'a' <= session_id[i]
                    <= 'f'
            &&& !before.sessions.contains_key(session_id)
            &&& after.sessions.contains_key(session_id)
            &&& after.sessions[session_id].idm == idm
            &&& after.sessions[session_id].pmm == pmm
            &&& after.sessions[session_id].worker == worker
            &&& after.sessions[session_id].last_seen == now
            &&& forall|id: Seq<char>| #[trigger]
                before.sessions.contains_key(id) ==> after.sessions.contains_key(id)
                    && after.sessions[id] == before.sessions[id]
            &&& forall|id: Seq<char>| #[trigger]
                after.sessions.contains_key(id) ==> before.sessions.contains_key(id) || id
                    == session_id
            &&& after.sessions.len() == before.sessions.len() + 1
        },
{
    if let ActionView::AwaitTurn { session_id, .. } = action {
        let bytes = choose|bytes: Seq<u8>|
            bytes.len() == 16 && session_id == #[trigger] text::hex_text(bytes);
        assert(session_id == text::hex_text(bytes));
        hex_text_is_in_lower_case(bytes);
    }
}

/// Bytes are written as two digits each, in lower case.
pub proof fn hex_text_is_in_lower_case(bytes: Seq<u8>)
    ensures
        text::hex_text(bytes).len() == 2 * bytes.len(),
        forall|i: int|
            0 <= i < 2 * bytes.len() ==> '0' <= (#[trigger] text::hex_text(bytes)[i]) <= '9' || 'a'
                <= text::hex_text(bytes)[i] <= 'f',
{
    assert forall|i: int| 0 <= i < 2 * bytes.len() implies '0' <= (#[trigger] text::hex_text(
        bytes,
    )[i]) <= '9' || 'a' <= text::hex_text(bytes)[i] <= 'f' by {
        assert(0 <= bytes[i / 2] as int / 16 < 16);
        assert(0 <= bytes[i / 2] as int % 16 < 16);
    }
}

/// No session is created when there is no room any more, or when the worker could not be
/// started; the client is told which.
pub proof fn no_session_without_room_and_worker<W>(
    before: ManagerView<W>,
    input: InputView,
    idm: Block8,
    pmm: Block8,
    started: Result<W, Seq<char>>,
    now: u128,
    after: ManagerView<W>,
    action: ActionView,
)
    requires
        rules::handled(
            before,
            PhaseView::WorkerStarted { input, idm, pmm, started, now },
            after,
            action,
        ),
    ensures
        before.sessions.len() >= before.max_sessions ==> {
            &&& after == before
            &&& is_refusal(action, None, 503, "too many active sessions"@)
        },
        before.sessions.len() < before.max_sessions ==> (started matches Err(reason) ==> {
            &&& after == before
            &&& is_refusal(action, None, 500, "failed to spawn session worker: "@ + reason)
        }),
{
}

/// What a request is made of that is due to start an authentication: the nodes that it
/// asks for, and no card response.
pub open spec fn asks_for(
    input: InputView,
    system_code: u16,
    areas: Seq<u16>,
    services: Seq<u16>,
) -> bool {
    &&& input.card_response is None
    &&& input.system_code == Some(system_code)
    &&& input.areas == Some(areas)
    &&& input.services == Some(services)
    &&& areas.len() > 0
    &&& services.len() > 0
}

/// Whether a session may authenticate these services when only reads are allowed: each
/// grants reads only, some have a key, and those come first.
pub open spec fn reads_only(services: Seq<u16>) -> bool {
    &&& forall|i: int|
        0 <= i < services.len() ==> field_laws::grants_reads_only(#[trigger] services[i])
    &&& exists|i: int| 0 <= i < services.len() && field_laws::has_key(#[trigger] services[i])
    &&& forall|i: int| !field_laws::comes_too_late(services, i)
}

/// The worker is asked to authenticate what the client asked for: the same system, all of
/// the areas and all of the services, in the same order. The count of frames starts anew,
/// and no session changes.
pub proof fn start_carries_the_nodes_of_the_request<W>(
    before: ManagerView<W>,
    id: Seq<char>,
    created: bool,
    input: InputView,
    frames: u8,
    after: ManagerView<W>,
    action: ActionView,
)
    requires
        rules::handled(
            before,
            PhaseView::TurnCame {
                session_id: id,
                created,
                input,
                inner: SessionInner { expect: Expect::Control, auth_frames: frames },
            },
            after,
            action,
        ),
    ensures
        action matches ActionView::Deliver {
            session_id,
            created: kept,
            starting,
            inner,
            delivery,
        } ==> {
            &&& delivery matches DeliveryView::Start(start)
            &&& input.system_code == Some(start.system_code)
            &&& input.areas == Some(start.areas)
            &&& input.services == Some(start.services)
            &&& input.card_response is None
            &&& start.areas.len() > 0
            &&& start.services.len() > 0
            &&& before.read_only_nodes ==> reads_only(start.services)
            &&& session_id == id
            &&& kept == created
            &&& starting
            &&& inner.expect == Expect::Control
            &&& inner.auth_frames == 0
            &&& after == before
        },
        action is Deliver || action is Respond,
{
    if let ActionView::Deliver { delivery: DeliveryView::Start(start), .. } = action {
        field_laws::read_only_refusals_name_the_fault(start.services);
        field_laws::shape_refusals_name_the_fault(start.services);
    }
}

/// Every complete request for a start goes to the worker: one that gives a system, areas
/// and services, and no card response, and whose services grant reads only where that is
/// asked for.
pub proof fn complete_start_goes_to_the_worker<W>(
    before: ManagerView<W>,
    id: Seq<char>,
    created: bool,
    input: InputView,
    inner: SessionInner,
    system_code: u16,
    areas: Seq<u16>,
    services: Seq<u16>,
    after: ManagerView<W>,
    action: ActionView,
)
    requires
        inner.expect == Expect::Control,
        asks_for(input, system_code, areas, services),
        before.read_only_nodes ==> reads_only(services),
        rules::handled(
            before,
            PhaseView::TurnCame { session_id: id, created, input, inner },
            after,
            action,
        ),
    ensures
        action is Deliver,
{
    if before.read_only_nodes {
        field_laws::read_only_refusals_name_the_fault(services);
        field_laws::shape_refusals_name_the_fault(services);
        let i = choose|i: int| 0 <= i < services.len() && field_laws::has_key(services[i]);
        assert(field_laws::has_key(services[i]));
    }
}

/// What is wrong with a request for a start is said of the first thing that is: a card
/// response, no system, no areas, no services; then a service that grants more than
/// reads, or an order that a card would refuse, where only reads are allowed.
pub proof fn incomplete_start_is_told_what_it_lacks<W>(
    before: ManagerView<W>,
    id: Seq<char>,
    created: bool,
    input: InputView,
    inner: SessionInner,
    after: ManagerView<W>,
    action: ActionView,
)
    requires
        inner.expect == Expect::Control,
        rules::handled(
            before,
            PhaseView::TurnCame { session_id: id, created, input, inner },
            after,
            action,
        ),
    ensures
        ({
            let answered = input.card_response is Some;
            let system = input.system_code is Some;
            let areas = input.areas is Some && input.areas->Some_0.len() > 0;
            let services = input.services is Some && input.services->Some_0.len() > 0;
            &&& answered ==> is_refusal(
                action,
                Some(inner),
                400,
                "card_response not expected at start of authentication"@,
            )
            &&& !answered && !system ==> is_refusal(
                action,
                Some(inner),
                400,
                "system_code is required"@,
            )
            &&& !answered && system && !areas ==> is_refusal(
                action,
                Some(inner),
                400,
                "areas"@ + " must be a non-empty list"@,
            )
            &&& !answered && system && areas && !services ==> is_refusal(
                action,
                Some(inner),
                400,
                "services"@ + " must be a non-empty list"@,
            )
            &&& !answered && system && areas && services && !(action is Deliver) ==> {
                let listed = input.services->Some_0;
                &&& before.read_only_nodes
                &&& action matches ActionView::Respond { settled, response: Err(err) }
                &&& settled == Some(inner)
                &&& err.code is None
                &&& ({
                    ||| {
                        &&& err.status == 403
                        &&& exists|i: int|
                            {
                                &&& 0 <= i < listed.len()
                                &&& !field_laws::grants_reads_only(#[trigger] listed[i])
                                &&& forall|j: int|
                                    0 <= j < i ==> field_laws::grants_reads_only(
                                        #[trigger] listed[j],
                                    )
                                &&& err.message == "service 0x"@ + text::code_text(listed[i])
                                    + " is not a read-only node"@
                            }
                    }
                    ||| {
                        &&& err.status == 400
                        &&& forall|i: int|
                            0 <= i < listed.len() ==> field_laws::grants_reads_only(
                                #[trigger] listed[i],
                            )
                        &&& policy::shape_refusal(listed) == Some(err.message)
                    }
                })
            }
        }),
{
    if input.services is Some {
        field_laws::read_only_refusals_name_the_fault(input.services->Some_0);
    }
}

/// A refused request changes no session, except that a session that was created for it is
/// forgotten when it is its start that is refused.
pub proof fn refusals_leave_sessions_alone<W>(
    before: ManagerView<W>,
    id: Seq<char>,
    created: bool,
    input: InputView,
    inner: SessionInner,
    after: ManagerView<W>,
    action: ActionView,
)
    requires
        rules::handled(
            before,
            PhaseView::TurnCame { session_id: id, created, input, inner },
            after,
            action,
        ),
    ensures
        same_but_for(before.sessions, after.sessions, id),
        created && inner.expect == Expect::Control && action is Respond
            ==> !after.sessions.contains_key(id),
        !(created && inner.expect == Expect::Control && action is Respond) ==> after == before,
        action matches ActionView::Respond { response, .. } ==> response is Err,
{
}

/// While the worker waits for the card, it gets the card's response byte for byte; a
/// request without one is refused. Nothing else of the request counts, and no session
/// changes.
pub proof fn card_responses_are_passed_on<W>(
    before: ManagerView<W>,
    id: Seq<char>,
    created: bool,
    input: InputView,
    frames: u8,
    after: ManagerView<W>,
    action: ActionView,
)
    requires
        rules::handled(
            before,
            PhaseView::TurnCame {
                session_id: id,
                created,
                input,
                inner: SessionInner { expect: Expect::Card, auth_frames: frames },
            },
            after,
            action,
        ),
    ensures
        after == before,
        input.card_response matches Some(card) ==> {
            &&& action matches ActionView::Deliver {
                session_id,
                created: kept,
                starting,
                inner,
                delivery,
            }
            &&& delivery == DeliveryView::Card(card)
            &&& session_id == id
            &&& kept == created
            &&& !starting
            &&& inner.expect == Expect::Card
            &&& inner.auth_frames == frames
        },
        input.card_response is None ==> is_refusal(
            action,
            Some(SessionInner { expect: Expect::Card, auth_frames: frames }),
            400,
            "card_response is required to continue authentication"@,
        ),
{
}

/// What stands under an id once its session was seen again: the same session, with the
/// time at which it was seen; and nothing, if nothing was there.
pub open spec fn seen_again<W>(
    a: Map<Seq<char>, Session<W>>,
    b: Map<Seq<char>, Session<W>>,
    id: Seq<char>,
    now: u128,
) -> bool {
    &&& a.contains_key(id) <==> b.contains_key(id)
    &&& a.contains_key(id) ==> {
        &&& b[id].idm == a[id].idm
        &&& b[id].pmm == a[id].pmm
        &&& b[id].worker == a[id].worker
        &&& b[id].last_seen == now
    }
}

/// A frame goes to the client as it is: its code, its bytes in hexadecimal, its timeout.
/// The first one of an authentication is labelled `auth1`, any other one `auth2`; the
/// card's response is expected next, and the session has made progress.
pub proof fn frames_are_relayed<W>(
    before: ManagerView<W>,
    id: Seq<char>,
    created: bool,
    starting: bool,
    inner: SessionInner,
    code: u8,
    frame: Seq<u8>,
    timeout_ms: u16,
    now: u128,
    after: ManagerView<W>,
    action: ActionView,
)
    requires
        rules::handled(
            before,
            PhaseView::Answered {
                session_id: id,
                created,
                starting,
                inner,
                answer: Ok(OutView::Frame { code, frame, timeout_ms }),
                now,
            },
            after,
            action,
        ),
    ensures
        action matches ActionView::Respond { settled: Some(stored), response: Ok(reply) } && {
            &&& stored.expect == Expect::Card
            &&& inner.auth_frames < 255 ==> stored.auth_frames == inner.auth_frames + 1
            &&& inner.auth_frames == 255 ==> stored.auth_frames == 255
            &&& reply.phase == "mutual_authentication"@
            &&& inner.auth_frames == 0 ==> reply.step == "auth1"@
            &&& inner.auth_frames > 0 ==> reply.step == "auth2"@
            &&& reply.result is None
            &&& reply.session_id == id
            &&& starting ==> reply.session_created == Some(created)
            &&& !starting ==> reply.session_created is None
            &&& reply.command matches Some(command)
            &&& command.code == code
            &&& command.timeout_ms == timeout_ms
            &&& text::hex_bytes(command.frame) == Some(frame)
            &&& forall|i: int|
                0 <= i < command.frame.len() ==> !('A' <= (#[trigger] command.frame[i]) <= 'F')
        },
        same_but_for(before.sessions, after.sessions, id),
        seen_again(before.sessions, after.sessions, id, now),
{
    text::hex_text_reads_back(frame);
    hex_text_is_in_lower_case(frame);
}

/// The text that these bytes are written as: what reads back as them, in lower case.
pub open spec fn writes(written: Seq<char>, bytes: Seq<u8>) -> bool {
    &&& text::hex_bytes(written) == Some(bytes)
    &&& forall|i: int|
        0 <= i < written.len() ==> !('A' <= (#[trigger] written[i]) <= 'F')
}

/// A finished authentication goes to the client as it was established: the issue
/// information and the session material, bytes in hexadecimal. The session is forgotten,
/// and no other changes.
pub proof fn finished_authentications_are_handed_over<W>(
    before: ManagerView<W>,
    id: Seq<char>,
    created: bool,
    starting: bool,
    inner: SessionInner,
    done: OutView,
    now: u128,
    after: ManagerView<W>,
    action: ActionView,
)
    requires
        done is AuthComplete,
        rules::handled(
            before,
            PhaseView::Answered { session_id: id, created, starting, inner, answer: Ok(done), now },
            after,
            action,
        ),
    ensures
        action matches ActionView::Respond { settled: Some(stored), response: Ok(reply) } && {
            &&& stored.expect == Expect::Control
            &&& stored.auth_frames == inner.auth_frames
            &&& reply.phase == "mutual_authentication"@
            &&& reply.step == "complete"@
            &&& reply.command is None
            &&& reply.session_id == id
            &&& starting ==> reply.session_created == Some(created)
            &&& !starting ==> reply.session_created is None
            &&& reply.result matches Some(result)
            &&& done matches OutView::AuthComplete { issue_id, issue_parameter, session }
            &&& writes(result.issue_id, issue_id@)
            &&& writes(result.issue_parameter, issue_parameter@)
            &&& result.session.scheme == "des"@
            &&& writes(result.session.key, session.key@)
            &&& writes(result.session.transaction_id, session.transaction_id@)
            &&& result.session.transaction_number == session.transaction_number
        },
        same_but_for(before.sessions, after.sessions, id),
        !after.sessions.contains_key(id),
{
    if let OutView::AuthComplete { issue_id, issue_parameter, session } = done {
        text::hex_text_reads_back(issue_id@);
        hex_text_is_in_lower_case(issue_id@);
        text::hex_text_reads_back(issue_parameter@);
        hex_text_is_in_lower_case(issue_parameter@);
        text::hex_text_reads_back(session.key@);
        hex_text_is_in_lower_case(session.key@);
        text::hex_text_reads_back(session.transaction_id@);
        hex_text_is_in_lower_case(session.transaction_id@);
    }
}

/// The worker's error goes to the client as it is, status, message and code. The session
/// stays, expects a new start, and has made progress.
pub proof fn worker_errors_are_passed_on<W>(
    before: ManagerView<W>,
    id: Seq<char>,
    created: bool,
    starting: bool,
    inner: SessionInner,
    err: ErrorView,
    now: u128,
    after: ManagerView<W>,
    action: ActionView,
)
    requires
        rules::handled(
            before,
            PhaseView::Answered {
                session_id: id,
                created,
                starting,
                inner,
                answer: Ok(OutView::Error(err)),
                now,
            },
            after,
            action,
        ),
    ensures
        action matches ActionView::Respond { settled: Some(stored), response: Err(told) } && {
            &&& stored.expect == Expect::Control
            &&& stored.auth_frames == inner.auth_frames
            &&& told.status == err.status
            &&& told.message == err.message
            &&& told.code == err.code
        },
        same_but_for(before.sessions, after.sessions, id),
        seen_again(before.sessions, after.sessions, id, now),
{
}

/// A worker that gives no answer changes nothing; the client is told whether it was gone
/// before or stopped meanwhile.
pub proof fn silent_workers_change_nothing<W>(
    before: ManagerView<W>,
    id: Seq<char>,
    created: bool,
    starting: bool,
    inner: SessionInner,
    fault: WorkerFault,
    now: u128,
    after: ManagerView<W>,
    action: ActionView,
)
    requires
        rules::handled(
            before,
            PhaseView::Answered {
                session_id: id,
                created,
                starting,
                inner,
                answer: Err(fault),
                now,
            },
            after,
            action,
        ),
    ensures
        after == before,
        fault == WorkerFault::Unavailable ==> is_refusal(
            action,
            Some(inner),
            500,
            "session worker unavailable"@,
        ),
        fault == WorkerFault::Terminated ==> is_refusal(
            action,
            Some(inner),
            500,
            "session worker terminated"@,
        ),
{
}

/// A session outlives a round of reaping exactly if it was there and was seen less than
/// the time to live ago; it stays as it was. With no time to live, none does.
pub proof fn sessions_outlive_reaping_while_seen_lately<W>(
    sessions: Map<Seq<char>, Session<W>>,
    now: u128,
    ttl: u128,
    id: Seq<char>,
)
    ensures
        table::fresh_sessions(sessions, now, ttl).contains_key(id) <==> sessions.contains_key(id)
            && ttl > 0 && now - sessions[id].last_seen < ttl,
        table::fresh_sessions(sessions, now, ttl).contains_key(id) ==> table::fresh_sessions(
            sessions,
            now,
            ttl,
        )[id] == sessions[id],
{
}

/// Rounds of reaping are a second apart at least; beyond that, half the time to live.
pub proof fn reaping_comes_twice_in_a_life(ttl: u128)
    ensures
        rules::reap_pause(ttl) >= 1_000_000_000,
        rules::reap_pause(ttl) > 1_000_000_000 ==> 2 * rules::reap_pause(ttl) <= ttl
            < 2 * rules::reap_pause(ttl) + 2,
        ttl >= 2_000_000_002 ==> rules::reap_pause(ttl) > 1_000_000_000,
{
}

/// A new session expects a start and has emitted no frame; a request without any field
/// has none.
pub proof fn beginnings_are_empty()
    ensures
        rules::new_inner().expect == Expect::Control,
        rules::new_inner().auth_frames == 0,
        rules::empty_input().session_id is None,
        rules::empty_input().idm is None,
        rules::empty_input().pmm is None,
        rules::empty_input().system_code is None,
        rules::empty_input().areas is None,
        rules::empty_input().services is None,
        rules::empty_input().card_response is None,
{
}

} // verus!
