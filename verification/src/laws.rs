//! What holds of the server as a whole, over all requests and states.

use vstd::prelude::*;

use crate::error;
use crate::error::ErrorView;
use crate::keystore;
use crate::keystore::KeyLine;
use crate::keystore::KeyStore;
use crate::keystore::StoredKey;
use crate::policy;
use crate::relay::DeliveryView;
use crate::relay::OutView;
use crate::relay::SecureSessionMaterial;
use crate::relay::WorkerFault;
use crate::rules;
use crate::session::ActionView;
use crate::session::Expect;
use crate::session::InputView;
use crate::session::ManagerView;
use crate::session::PhaseView;
use crate::session::SessionInner;
use crate::table;
use crate::table::Block8;
use crate::table::Session;
use crate::text;
use crate::worker;
use crate::worker::Authentication;
use crate::worker::Credentials;
use crate::worker::WorkerActionView;
use crate::worker::WorkerPhaseView;

verus! {

/// The number of sessions stays within the cap, whatever becomes of a request.
pub proof fn sessions_stay_within_cap<W>(
    before: ManagerView<W>,
    phase: PhaseView<W>,
    after: ManagerView<W>,
    action: ActionView,
)
    requires
        before.within_cap(),
        rules::handled(before, phase, after, action),
    ensures
        after.within_cap(),
{
}

/// While as many sessions are in flight as there may be, a request for a new one is
/// answered with 503, and nothing changes.
pub proof fn full_house_turns_new_sessions_away<W>(
    before: ManagerView<W>,
    input: InputView,
    after: ManagerView<W>,
    action: ActionView,
)
    requires
        before.sessions.len() >= before.max_sessions,
        input.session_id is None,
        input.idm is Some,
        input.pmm is Some,
        rules::handled(before, PhaseView::Received(input), after, action),
    ensures
        after == before,
        action == (ActionView::Respond {
            settled: None,
            response: Err(error::error(503, "too many active sessions"@)),
        }),
{
}

/// A request that names a session that is not there is answered with 404, and nothing
/// changes.
pub proof fn unknown_session_is_not_found<W>(
    before: ManagerView<W>,
    input: InputView,
    after: ManagerView<W>,
    action: ActionView,
)
    requires
        input.session_id is Some,
        !before.sessions.contains_key(input.session_id->Some_0),
        rules::handled(before, PhaseView::Received(input), after, action),
    ensures
        after == before,
        action == (ActionView::Respond {
            settled: None,
            response: Err(error::error(404, "unknown session_id"@)),
        }),
{
}

/// A request that neither names a session nor gives the whole card is answered with
/// 400, and nothing changes.
pub proof fn new_session_requires_the_card<W>(
    before: ManagerView<W>,
    input: InputView,
    after: ManagerView<W>,
    action: ActionView,
)
    requires
        input.session_id is None,
        input.idm is None || input.pmm is None,
        rules::handled(before, PhaseView::Received(input), after, action),
    ensures
        after == before,
        action == (ActionView::Respond {
            settled: None,
            response: Err(error::error(400, "idm and pmm are required to start a session"@)),
        }),
{
}

/// A start without a system code, or without a node in either list, or with a card
/// response, is answered with 400, and nothing reaches the worker.
pub proof fn incomplete_start_is_a_bad_request<W>(
    before: ManagerView<W>,
    session_id: Seq<char>,
    created: bool,
    input: InputView,
    inner: SessionInner,
    after: ManagerView<W>,
    action: ActionView,
)
    requires
        inner.expect == Expect::Control,
        input.system_code is None || input.areas is None || input.areas->Some_0.len() == 0
            || input.services is None || input.services->Some_0.len() == 0
            || input.card_response is Some,
        rules::handled(
            before,
            PhaseView::TurnCame { session_id, created, input, inner },
            after,
            action,
        ),
    ensures
        action matches ActionView::Respond { settled: kept, response: Err(err) } && kept == Some(
            inner,
        ) && err.status == 400,
{
}

/// A session goes on only with the card that it was created for.
pub proof fn session_stays_with_its_card<W>(
    before: ManagerView<W>,
    input: InputView,
    after: ManagerView<W>,
    action: ActionView,
)
    requires
        input.session_id is Some,
        rules::handled(before, PhaseView::Received(input), after, action),
        action is AwaitTurn,
    ensures
        after == before,
        before.sessions.contains_key(input.session_id->Some_0),
        input.idm is Some ==> input.idm->Some_0 == before.sessions[input.session_id->Some_0].idm,
        input.pmm is Some ==> input.pmm->Some_0 == before.sessions[input.session_id->Some_0].pmm,
{
}

/// Once an authentication has completed, its session is gone, every other session is
/// as it was, and any further request that names it is answered with 404.
pub proof fn completion_ends_the_session<W>(
    before: ManagerView<W>,
    session_id: Seq<char>,
    created: bool,
    starting: bool,
    inner: SessionInner,
    answer: OutView,
    now: u128,
    after: ManagerView<W>,
    action: ActionView,
    next: InputView,
)
    requires
        answer is AuthComplete,
        rules::handled(
            before,
            PhaseView::Answered { session_id, created, starting, inner, answer: Ok(answer), now },
            after,
            action,
        ),
        next.session_id == Some(session_id),
    ensures
        after.sessions == before.sessions.remove(session_id),
        rules::action_received(after, next) == (ActionView::Respond {
            settled: None,
            response: Err(error::error(404, "unknown session_id"@)),
        }),
{
}

/// A start that is refused, for whatever reason, leaves no session behind: if one was
/// created for it, the state is what it was before the request came.
pub proof fn refused_start_leaves_no_session<W>(
    before: ManagerView<W>,
    input: InputView,
    idm: Block8,
    pmm: Block8,
    worker: W,
    now: u128,
    during: ManagerView<W>,
    session_id: Seq<char>,
    after: ManagerView<W>,
    action: ActionView,
)
    requires
        rules::handled(
            before,
            PhaseView::WorkerStarted { input, idm, pmm, started: Ok(worker), now },
            during,
            ActionView::AwaitTurn { session_id, created: true, input },
        ),
        rules::handled(
            during,
            PhaseView::TurnCame { session_id, created: true, input, inner: rules::new_inner() },
            after,
            action,
        ),
        rules::admitted(before.read_only_nodes, rules::new_inner(), input) is Err,
    ensures
        after == before,
        action == (ActionView::Respond {
            settled: Some(rules::new_inner()),
            response: Err(
                rules::admitted(before.read_only_nodes, rules::new_inner(), input)->Err_0,
            ),
        }),
{
}

/// A refused request changes nothing in a session that was there before it: the client,
/// who knows its id, may try again.
pub proof fn refusal_keeps_a_session_that_was_there<W>(
    before: ManagerView<W>,
    session_id: Seq<char>,
    input: InputView,
    inner: SessionInner,
    after: ManagerView<W>,
    action: ActionView,
)
    requires
        rules::admitted(before.read_only_nodes, inner, input) is Err,
        rules::handled(
            before,
            PhaseView::TurnCame { session_id, created: false, input, inner },
            after,
            action,
        ),
    ensures
        after == before,
        action == (ActionView::Respond {
            settled: Some(inner),
            response: Err(rules::admitted(before.read_only_nodes, inner, input)->Err_0),
        }),
{
}

/// When only read-only services may be authenticated, nothing else ever reaches a
/// worker: every start that is handed to one names read-only services alone, in an
/// order that the card accepts, and at least one area.
pub proof fn read_only_mode_bounds_sessions_to_reads<W>(
    before: ManagerView<W>,
    phase: PhaseView<W>,
    after: ManagerView<W>,
    action: ActionView,
)
    requires
        before.read_only_nodes,
        rules::handled(before, phase, after, action),
    ensures
        after.read_only_nodes,
        action matches ActionView::Deliver { delivery: DeliveryView::Start(start), .. } ==> {
            &&& rules::all_read_only(start.services)
            &&& policy::well_shaped(start.services)
            &&& start.areas.len() > 0
        },
{
}

/// A service list is refused with 403 exactly when it holds a service that grants more
/// than read access, and with 400 exactly when a card would refuse it though it grants
/// only reads.
pub proof fn refusals_tell_writable_from_misshapen(services: Seq<u16>)
    ensures
        rules::read_only_refusal(services) is None <==> rules::all_read_only(services)
            && policy::well_shaped(services),
        rules::read_only_refusal(services) matches Some(err) ==> {
            &&& err.status == 403 <==> !rules::all_read_only(services)
            &&& err.status == 400 <==> rules::all_read_only(services)
        },
{
}

/// Without the restriction, a complete request is handed on whatever its services are.
pub proof fn any_services_pass_without_restriction<W>(
    before: ManagerView<W>,
    session_id: Seq<char>,
    created: bool,
    input: InputView,
    inner: SessionInner,
    after: ManagerView<W>,
    action: ActionView,
)
    requires
        !before.read_only_nodes,
        inner.expect == Expect::Control,
        rules::requested_start(input) is Ok,
        rules::handled(
            before,
            PhaseView::TurnCame { session_id, created, input, inner },
            after,
            action,
        ),
    ensures
        after == before,
        action == (ActionView::Deliver {
            session_id,
            created,
            starting: true,
            inner: SessionInner { auth_frames: 0, ..inner },
            delivery: DeliveryView::Start(rules::requested_start(input)->Ok_0),
        }),
{
}

/// Requests and the worker stay in lock-step: what a request hands on is a start
/// exactly when the session expects one, and a card response exactly when it expects
/// that. A request of the other kind is answered with 400; it changes nothing in a
/// session that was there before it.
pub proof fn deliveries_match_what_is_expected<W>(
    before: ManagerView<W>,
    session_id: Seq<char>,
    created: bool,
    input: InputView,
    inner: SessionInner,
    after: ManagerView<W>,
    action: ActionView,
)
    requires
        rules::handled(
            before,
            PhaseView::TurnCame { session_id, created, input, inner },
            after,
            action,
        ),
    ensures
        action matches ActionView::Deliver { session_id: id, starting, delivery, inner: kept, .. }
            ==> {
            &&& id == session_id
            &&& starting <==> inner.expect == Expect::Control
            &&& delivery is Start <==> inner.expect == Expect::Control
            &&& delivery is Card <==> inner.expect == Expect::Card
            &&& kept.expect == inner.expect
        },
        (inner.expect == Expect::Control) == (input.card_response is Some) ==> {
            &&& !created ==> after == before
            &&& action matches ActionView::Respond { settled: kept, response: Err(err) }
            &&& kept == Some(inner)
            &&& err.status == 400
        },
{
}

/// After the worker has answered, the session expects a card response exactly when a
/// frame was relayed; a finished or failed authentication lets a new one start.
pub proof fn answers_set_what_is_expected(inner: SessionInner, answer: OutView)
    ensures
        rules::inner_answered(inner, Ok(answer)).expect == (if answer is Frame {
            Expect::Card
        } else {
            Expect::Control
        }),
{
}

/// The number of frames that is counted after `n` frames since the start.
pub open spec fn frames_counted(n: nat) -> u8
    decreases n,
{
    if n == 0 {
        0
    } else {
        rules::one_more(frames_counted((n - 1) as nat))
    }
}

/// The first frame of an authentication is labelled `auth1`, and every later one
/// `auth2`, however many there are.
pub proof fn frames_are_labelled_in_order(n: nat)
    requires
        n > 0,
    ensures
        n == 1 ==> rules::step_label(frames_counted(n)) == "auth1"@,
        n > 1 ==> rules::step_label(frames_counted(n)) == "auth2"@,
{
    counting_stops_at_the_largest_count(n);
}

proof fn counting_stops_at_the_largest_count(n: nat)
    ensures
        frames_counted(n) == (if n < 255 {
            n as int
        } else {
            255
        }),
    decreases n,
{
    if n > 0 {
        counting_stops_at_the_largest_count((n - 1) as nat);
    }
}

/// A whole authentication, in a new session, as long as no other request comes between. The client makes three requests. The start is handed to
/// the worker, and the frame that it answers goes to the client as `auth1`; the card
/// response to that is handed on, and the next frame goes back as `auth2`; the second
/// card response is handed on, and what the authentication established goes back as
/// `complete`. All three responses carry the session id. In the end the server is in the
/// state that it was in before the first request.
pub proof fn three_requests_authenticate<W>(
    before: ManagerView<W>,
    start: InputView,
    worker: W,
    session_id: Seq<char>,
    m: Seq<ManagerView<W>>,
    delivered: Seq<ActionView>,
    first: OutView,
    second: OutView,
    complete: OutView,
    card1: InputView,
    card2: InputView,
    found: Seq<ActionView>,
    responded: Seq<ActionView>,
    times: Seq<u128>,
)
    requires
        m.len() == 9,
        delivered.len() == 3,
        found.len() == 2,
        responded.len() == 3,
        times.len() == 4,
        before.within_cap(),
        before.sessions.len() < before.max_sessions,
        start.session_id is None,
        start.idm is Some,
        start.pmm is Some,
        rules::admitted(before.read_only_nodes, rules::new_inner(), start) is Ok,
        first is Frame,
        second is Frame,
        complete is AuthComplete,
        card1 == (InputView {
            session_id: Some(session_id),
            card_response: card1.card_response,
            ..rules::empty_input()
        }),
        card1.card_response is Some,
        card2 == (InputView {
            session_id: Some(session_id),
            card_response: card2.card_response,
            ..rules::empty_input()
        }),
        card2.card_response is Some,
        // The first request.
        rules::handled(
            before,
            PhaseView::WorkerStarted {
                input: start,
                idm: start.idm->Some_0,
                pmm: start.pmm->Some_0,
                started: Ok(worker),
                now: times[0],
            },
            m[0],
            ActionView::AwaitTurn { session_id, created: true, input: start },
        ),
        rules::handled(
            m[0],
            PhaseView::TurnCame {
                session_id,
                created: true,
                input: start,
                inner: rules::new_inner(),
            },
            m[1],
            delivered[0],
        ),
        rules::handled(
            m[1],
            PhaseView::Answered {
                session_id,
                created: true,
                starting: true,
                inner: delivered[0]->Deliver_inner,
                answer: Ok(first),
                now: times[1],
            },
            m[2],
            responded[0],
        ),
        // The second request.
        rules::handled(m[2], PhaseView::Received(card1), m[3], found[0]),
        rules::handled(
            m[3],
            PhaseView::TurnCame {
                session_id,
                created: false,
                input: card1,
                inner: responded[0]->settled->Some_0,
            },
            m[4],
            delivered[1],
        ),
        rules::handled(
            m[4],
            PhaseView::Answered {
                session_id,
                created: false,
                starting: false,
                inner: delivered[1]->Deliver_inner,
                answer: Ok(second),
                now: times[2],
            },
            m[5],
            responded[1],
        ),
        // The third request.
        rules::handled(m[5], PhaseView::Received(card2), m[6], found[1]),
        rules::handled(
            m[6],
            PhaseView::TurnCame {
                session_id,
                created: false,
                input: card2,
                inner: responded[1]->settled->Some_0,
            },
            m[7],
            delivered[2],
        ),
        rules::handled(
            m[7],
            PhaseView::Answered {
                session_id,
                created: false,
                starting: false,
                inner: delivered[2]->Deliver_inner,
                answer: Ok(complete),
                now: times[3],
            },
            m[8],
            responded[2],
        ),
    ensures
        rules::action_received(before, start) == (ActionView::StartWorker {
            input: start,
            idm: start.idm->Some_0,
            pmm: start.pmm->Some_0,
        }),
        delivered[0] matches ActionView::Deliver { starting, delivery, .. } && starting
            && delivery == DeliveryView::Start(rules::requested_start(start)->Ok_0),
        found[0] == (ActionView::AwaitTurn { session_id, created: false, input: card1 }),
        delivered[1] matches ActionView::Deliver { starting, delivery, .. } && !starting
            && delivery == DeliveryView::Card(card1.card_response->Some_0),
        found[1] == (ActionView::AwaitTurn { session_id, created: false, input: card2 }),
        delivered[2] matches ActionView::Deliver { starting, delivery, .. } && !starting
            && delivery == DeliveryView::Card(card2.card_response->Some_0),
        responded[0] matches ActionView::Respond { response: Ok(reply), .. } && {
            &&& reply.step == "auth1"@
            &&& reply.session_id == session_id
            &&& reply.session_created == Some(true)
            &&& reply.command == Some(
                crate::reply::command_of(first->code, first->frame, first->timeout_ms),
            )
            &&& reply.result is None
        },
        responded[1] matches ActionView::Respond { response: Ok(reply), .. } && {
            &&& reply.step == "auth2"@
            &&& reply.session_id == session_id
            &&& reply.session_created is None
            &&& reply.command == Some(
                crate::reply::command_of(second->code, second->frame, second->timeout_ms),
            )
            &&& reply.result is None
        },
        responded[2] matches ActionView::Respond { response: Ok(reply), .. } && {
            &&& reply.step == "complete"@
            &&& reply.session_id == session_id
            &&& reply.session_created is None
            &&& reply.command is None
            &&& reply.result == Some(
                crate::reply::result_of(
                    complete->issue_id,
                    complete->issue_parameter,
                    complete->session,
                ),
            )
        },
        m[8] == before,
{
}

/// An authentication that failed keeps its session: the error goes to the client, the
/// session has been seen, and the next request may start another authentication.
pub proof fn failure_keeps_the_session<W>(
    before: ManagerView<W>,
    session_id: Seq<char>,
    created: bool,
    starting: bool,
    inner: SessionInner,
    err: ErrorView,
    now: u128,
    after: ManagerView<W>,
    action: ActionView,
)
    requires
        before.sessions.contains_key(session_id),
        rules::handled(
            before,
            PhaseView::Answered {
                session_id,
                created,
                starting,
                inner,
                answer: Ok(OutView::Error(err)),
                now,
            },
            after,
            action,
        ),
    ensures
        after.sessions.contains_key(session_id),
        after.sessions[session_id] == before.sessions[session_id].seen_at(now),
        action matches ActionView::Respond { settled: kept, response } && kept == Some(
            SessionInner { expect: Expect::Control, ..inner },
        ) && response == Err::<crate::reply::ReplyView, ErrorView>(err),
{
}

/// A request leaves every session alone but its own: all others are there before and
/// after, unchanged.
pub proof fn other_sessions_are_left_alone<W>(
    before: ManagerView<W>,
    phase: PhaseView<W>,
    after: ManagerView<W>,
    action: ActionView,
    other: Seq<char>,
)
    requires
        rules::handled(before, phase, after, action),
        match phase {
            PhaseView::Received(_) => true,
            PhaseView::WorkerStarted { .. } => action matches ActionView::AwaitTurn {
                session_id,
                ..
            } ==> other != session_id,
            PhaseView::TurnCame { session_id, .. } => other != session_id,
            PhaseView::Answered { session_id, .. } => other != session_id,
        },
    ensures
        after.sessions.contains_key(other) == before.sessions.contains_key(other),
        before.sessions.contains_key(other) ==> after.sessions[other] == before.sessions[other],
{
}

/// The long-term keys play no part in what a client is told: with other keys, the same
/// request has the same outcome.
pub proof fn responses_do_not_depend_on_long_term_keys<W>(
    before: ManagerView<W>,
    phase: PhaseView<W>,
    after: ManagerView<W>,
    action: ActionView,
    other_keys: KeyStore,
)
    requires
        rules::handled(before, phase, after, action),
    ensures
        after.keystore == before.keystore,
        rules::handled(
            ManagerView { keystore: other_keys, ..before },
            phase,
            ManagerView { keystore: other_keys, ..after },
            action,
        ),
{
}

/// A client is handed session material only with a finished authentication.
pub proof fn only_completion_hands_out_material(
    session_id: Seq<char>,
    created: bool,
    starting: bool,
    inner: SessionInner,
    answer: Result<OutView, WorkerFault>,
)
    ensures
        rules::answered(session_id, created, starting, inner, answer) matches Ok(reply) ==> (
        reply.result is Some <==> answer->Ok_0 is AuthComplete),
{
}

/// What a client reads from a reply is what the worker answered: the frame, or the
/// issue information and the session material, byte for byte.
pub proof fn client_reads_what_the_worker_answered(
    session_id: Seq<char>,
    created: bool,
    starting: bool,
    inner: SessionInner,
    answer: OutView,
)
    requires
        !(answer is Error),
    ensures
        rules::answered(session_id, created, starting, inner, Ok(answer)) matches Ok(reply) && {
            match answer {
                OutView::Frame { code, frame, timeout_ms } => {
                    &&& reply.command matches Some(command)
                    &&& command.code == code
                    &&& text::hex_bytes(command.frame) == Some(frame)
                    &&& command.timeout_ms == timeout_ms
                },
                OutView::AuthComplete { issue_id, issue_parameter, session } => {
                    &&& reply.result matches Some(result)
                    &&& text::hex_bytes(result.issue_id) == Some(issue_id@)
                    &&& text::hex_bytes(result.issue_parameter) == Some(issue_parameter@)
                    &&& text::hex_bytes(result.session.key) == Some(session.key@)
                    &&& text::hex_bytes(result.session.transaction_id) == Some(
                        session.transaction_id@,
                    )
                    &&& result.session.transaction_number == session.transaction_number
                },
                OutView::Error(_) => false,
            }
        },
{
    match answer {
        OutView::Frame { code, frame, timeout_ms } => {
            text::hex_text_reads_back(frame);
        },
        OutView::AuthComplete { issue_id, issue_parameter, session } => {
            text::hex_text_reads_back(issue_id@);
            text::hex_text_reads_back(issue_parameter@);
            text::hex_text_reads_back(session.key@);
            text::hex_text_reads_back(session.transaction_id@);
        },
        OutView::Error(_) => {},
    }
}

/// A frame is written in lower-case hexadecimal, two digits for each byte, from which
/// the same frame is read back; its code and its time limit are written as they are.
pub proof fn command_carries_the_frame(code: u8, frame: Seq<u8>, timeout_ms: u16)
    ensures
        ({
            let command = crate::reply::command_of(code, frame, timeout_ms);
            &&& command.code == code
            &&& command.timeout_ms == timeout_ms
            &&& command.frame.len() == 2 * frame.len()
            &&& forall|i: int|
                0 <= i < command.frame.len() ==> '0' <= (#[trigger] command.frame[i]) <= '9'
                    || 'a' <= command.frame[i] <= 'f'
            &&& text::hex_bytes(command.frame) == Some(frame)
        }),
{
    text::hex_text_reads_back(frame);
    let written = text::hex_text(frame);
    assert forall|i: int| 0 <= i < written.len() implies '0' <= (#[trigger] written[i]) <= '9'
        || 'a' <= written[i] <= 'f' by {
        assert(0 <= frame[i / 2] as int / 16 < 16);
    }
}

/// Session ids are as different as the bytes they are made from.
pub proof fn session_ids_tell_their_bytes_apart(a: Seq<u8>, b: Seq<u8>)
    requires
        text::hex_text(a) == text::hex_text(b),
    ensures
        a == b,
{
    text::hex_text_reads_back(a);
    text::hex_text_reads_back(b);
}

/// Reaping forgets exactly the sessions that have been idle for the time to live or
/// longer; the others stay as they are, and a second round at the same time finds
/// nothing left to do.
pub proof fn reaping_forgets_exactly_the_idle<W>(
    sessions: Map<Seq<char>, Session<W>>,
    now: u128,
    ttl: u128,
    id: Seq<char>,
)
    ensures
        table::fresh_sessions(sessions, now, ttl).contains_key(id) <==> sessions.contains_key(id)
            && table::idle_time(sessions[id].last_seen, now) < ttl,
        table::fresh_sessions(sessions, now, ttl).contains_key(id) ==> table::fresh_sessions(
            sessions,
            now,
            ttl,
        )[id] == sessions[id],
        table::fresh_sessions(table::fresh_sessions(sessions, now, ttl), now, ttl)
            == table::fresh_sessions(sessions, now, ttl),
{
    let kept = table::fresh_sessions(sessions, now, ttl);
    assert(table::fresh_sessions(kept, now, ttl) =~= kept);
}

/// Progress keeps a session alive: once its worker has answered without ending it, no
/// round of reaping within the time to live forgets it.
pub proof fn progress_keeps_a_session_alive<W>(
    sessions: Map<Seq<char>, Session<W>>,
    session_id: Seq<char>,
    answer: OutView,
    seen: u128,
    now: u128,
    ttl: u128,
)
    requires
        sessions.contains_key(session_id),
        !(answer is AuthComplete),
        seen <= now,
        now - seen < ttl,
    ensures
        table::fresh_sessions(
            rules::sessions_answered(sessions, session_id, Ok(answer), seen),
            now,
            ttl,
        ).contains_key(session_id),
{
}

/// A card's own key is preferred to the system-wide one, which every other card gets.
pub proof fn own_key_is_preferred(
    keys: Seq<StoredKey>,
    system_code: u16,
    node: u16,
    owner: Block8,
    idm: Block8,
    own: Block8,
)
    ensures
        ({
            let added = keys.push(
                StoredKey { system_code, node, idm: Some(owner), key: own },
            );
            &&& keystore::card_key(added, system_code, node, owner) == Some(own)
            &&& idm != owner ==> keystore::card_key(added, system_code, node, idm)
                == keystore::card_key(keys, system_code, node, idm)
        }),
{
    let added = keys.push(StoredKey { system_code, node, idm: Some(owner), key: own });
    assert(added.drop_last() =~= keys);
    assert(keystore::last_key(added, system_code, node, None) == keystore::last_key(
        keys,
        system_code,
        node,
        None,
    ));
}

/// A system-wide key serves every card that has no key of its own for that node.
pub proof fn system_wide_key_serves_the_rest(
    keys: Seq<StoredKey>,
    system_code: u16,
    node: u16,
    idm: Block8,
    shared: Block8,
)
    requires
        keystore::last_key(keys, system_code, node, Some(idm)) is None,
    ensures
        keystore::card_key(
            keys.push(StoredKey { system_code, node, idm: None, key: shared }),
            system_code,
            node,
            idm,
        ) == Some(shared),
{
    let added = keys.push(StoredKey { system_code, node, idm: None, key: shared });
    assert(added.drop_last() =~= keys);
    assert(keystore::last_key(added, system_code, node, Some(idm)) is None);
}

/// A key for one node changes nothing for any other node.
pub proof fn keys_of_other_nodes_do_not_matter(
    keys: Seq<StoredKey>,
    added: StoredKey,
    system_code: u16,
    node: u16,
    idm: Block8,
)
    requires
        added.system_code != system_code || added.node != node,
    ensures
        keystore::card_key(keys.push(added), system_code, node, idm) == keystore::card_key(
            keys,
            system_code,
            node,
            idm,
        ),
{
    assert(keys.push(added).drop_last() =~= keys);
    assert(keystore::last_key(keys.push(added), system_code, node, None) == keystore::last_key(
        keys,
        system_code,
        node,
        None,
    ));
}

/// AES records are ignored, wherever in the file they stand.
pub proof fn aes_records_are_ignored(before: Seq<KeyLine>, line: KeyLine, behind: Seq<KeyLine>)
    requires
        line.algo@ == "AES"@,
    ensures
        keystore::key_in(line) == Ok::<Option<StoredKey>, ErrorView>(None),
        keystore::keys_in(before.push(line) + behind) == keystore::keys_in(before + behind),
    decreases behind.len(),
{
    let with = before.push(line) + behind;
    let without = before + behind;
    if behind.len() == 0 {
        assert(with =~= before.push(line));
        assert(with.drop_last() =~= before);
        assert(without =~= before);
    } else {
        assert(with.drop_last() =~= before.push(line) + behind.drop_last());
        assert(without.drop_last() =~= before + behind.drop_last());
        assert(with.last() == without.last());
        aes_records_are_ignored(before, line, behind.drop_last());
    }
}

/// A service that is open without a key contributes none: the keys are those of the
/// list without such services.
pub proof fn keyless_services_contribute_no_key(
    keys: Seq<StoredKey>,
    system_code: u16,
    idm: Block8,
    areas: Seq<u16>,
    services: Seq<u16>,
)
    ensures
        keystore::keys_found(keys, system_code, idm, areas, services) == keystore::keys_found(
            keys,
            system_code,
            idm,
            areas,
            keystore::keyed_services(services),
        ),
{
    filtering_twice_is_filtering_once(services);
}

proof fn filtering_twice_is_filtering_once(services: Seq<u16>)
    ensures
        keystore::keyed_services(keystore::keyed_services(services)) == keystore::keyed_services(
            services,
        ),
    decreases services.len(),
{
    reveal(Seq::filter);
    if services.len() > 0 {
        filtering_twice_is_filtering_once(services.drop_last());
        let kept = keystore::keyed_services(services.drop_last());
        assert(kept.push(services.last()).drop_last() =~= kept);
    }
}

/// Only nodes with a key can be authenticated. If one that needs a key has none, the
/// client is told so with 400 and no authentication is run; otherwise the keys are
/// there.
pub proof fn only_nodes_with_keys_are_authenticated<K>(
    keys: Seq<StoredKey>,
    idm: Block8,
    request: crate::relay::StartView,
)
    ensures
        ({
            let nodes = keystore::keyed_nodes(request.areas, request.services);
            let next = worker::worker_next::<K>(
                keys,
                idm,
                WorkerPhaseView::Requested(Some(request)),
            );
            if keystore::all_keyed(keys, request.system_code, nodes, idm) {
                next matches WorkerActionView::DeriveKeys { request: asked, .. } && asked
                    == request
            } else {
                next matches WorkerActionView::Report { out: OutView::Error(err), .. }
                    && err.status == 400
            }
        }),
{
}

/// The worker reports exactly once for each request: it derives keys, then
/// authenticates, then reports, and may report earlier instead. It neither waits for
/// another request nor ends before it has reported.
pub proof fn worker_reports_once_for_each_request<K>(
    keys: Seq<StoredKey>,
    idm: Block8,
    request: crate::relay::StartView,
    derived: Result<K, ErrorView>,
    ended: Result<Authentication, ErrorView>,
)
    ensures
        ({
            let next = worker::worker_next::<K>(
                keys,
                idm,
                WorkerPhaseView::Requested(Some(request)),
            );
            next is DeriveKeys || next is Report
        }),
        ({
            let next = worker::worker_next(
                keys,
                idm,
                WorkerPhaseView::KeysDerived { request, derived },
            );
            next is Authenticate || next is Report
        }),
        worker::worker_next::<K>(keys, idm, WorkerPhaseView::Authenticated(ended)) is Report,
{
}

/// No session key lingers: however an authentication ended, the worker drops the
/// secure session before it waits for the next request.
pub proof fn worker_keeps_no_session_key<K>(
    keys: Seq<StoredKey>,
    idm: Block8,
    ended: Result<Authentication, ErrorView>,
)
    ensures
        worker::worker_next::<K>(keys, idm, WorkerPhaseView::Authenticated(ended))
            matches WorkerActionView::Report { clear_context, .. } && clear_context,
{
}

/// A client gets exactly the session that the card layer established, and only if that
/// is a DES session; anything else is answered with an error.
pub proof fn client_gets_the_established_session(
    session_id: Seq<char>,
    created: bool,
    starting: bool,
    inner: SessionInner,
    ended: Result<Authentication, ErrorView>,
)
    ensures
        ({
            let told = rules::answered(
                session_id,
                created,
                starting,
                inner,
                Ok(worker::report_of(ended)),
            );
            match ended {
                Ok(authentication) => match authentication.context {
                    Some(context) => match context.credentials {
                        Credentials::Des(key) => {
                            &&& told matches Ok(reply)
                            &&& reply.result == Some(
                                crate::reply::result_of(
                                    authentication.issue_id,
                                    authentication.issue_parameter,
                                    SecureSessionMaterial {
                                        key,
                                        transaction_id: context.transaction_id,
                                        transaction_number: context.transaction_number,
                                    },
                                ),
                            )
                        },
                        Credentials::Other => told matches Err(err) && err.status == 500,
                    },
                    None => told matches Err(err) && err.status == 500,
                },
                Err(err) => told == Err::<crate::reply::ReplyView, ErrorView>(err),
            }
        }),
{
}

} // verus!
