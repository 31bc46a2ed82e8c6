//! Session management.
//!
//! The server performs **mutual authentication only**. Once authentication
//! succeeds it hands the resulting ephemeral secure-session material (DES session
//! key, transaction ID and transaction counter) to the client and forgets the
//! session. The client then runs the encrypted Read/Write commands itself, so
//! card data never passes through the server; only the long-term system, area and
//! service keys stay here.
//!
//! One authentication spans several client requests, with a worker of its own that
//! waits for the card between them. A request goes through [`AuthPhase`] after
//! [`AuthPhase`]: each time [`SessionManager::handle_mutual_authentication`] decides
//! what is to be done next, the caller does it (start a worker, wait for the
//! session's turn, exchange one message with the worker), and comes back with what
//! came of it.
//!
//! Every client request delivers exactly one input (a start or a card response) and
//! consumes exactly one [`Out`], so the streams stay in lock-step. [`SessionInner`]
//! holds whether a session is next expecting a start or a card response, to route
//! each request and reject out-of-order ones cleanly.

use std::sync::Arc;

use vstd::prelude::*;

use crate::error;
use crate::error::ErrorView;
use crate::error::ProtocolError;
use crate::keystore::same_block;
use crate::keystore::KeyStore;
use crate::policy;
use crate::policy::check_service_list_shape;
use crate::policy::is_read_only_service;
use crate::relay::fault_error;
use crate::relay::Delivery;
use crate::relay::DeliveryView;
use crate::relay::Out;
use crate::relay::OutView;
use crate::relay::StartAuth;
use crate::relay::WorkerFault;
use crate::reply;
use crate::reply::AuthReply;
use crate::reply::ReplyView;
use crate::rules;
use crate::table;
use crate::table::Block8;
use crate::table::Session;
use crate::table::SessionTable;
use crate::text;

verus! {

/// What the worker is next expecting from the client.
#[derive(Clone, Copy, Debug, PartialEq, Eq, Structural)]
pub enum Expect {
    /// A new authentication request.
    Control,
    /// A card response for the frame that was relayed last.
    Card,
}

/// How far the authentication of a session has come.
#[derive(Clone, Copy, Debug, PartialEq, Eq, Structural)]
pub struct SessionInner {
    pub expect: Expect,
    /// Number of command frames emitted since the current auth started
    /// (used to label `auth1` vs `auth2`).
    pub auth_frames: u8,
}

impl SessionInner {
    /// The state of a new session: nothing has been authenticated yet.
    pub fn new() -> (inner: Self)
        ensures
            inner == rules::new_inner(),
    {
        SessionInner { expect: Expect::Control, auth_frames: 0 }
    }
}

/// Parsed input for `POST /mutual-authentication`.
#[derive(Debug)]
pub struct MutualAuthInput {
    pub session_id: Option<String>,
    pub idm: Option<Block8>,
    pub pmm: Option<Block8>,
    pub system_code: Option<u16>,
    pub areas: Option<Vec<u16>>,
    pub services: Option<Vec<u16>>,
    pub card_response: Option<Vec<u8>>,
}

/// What a [`MutualAuthInput`] holds.
#[verifier::ext_equal]
pub struct InputView {
    pub session_id: Option<Seq<char>>,
    pub idm: Option<Block8>,
    pub pmm: Option<Block8>,
    pub system_code: Option<u16>,
    pub areas: Option<Seq<u16>>,
    pub services: Option<Seq<u16>>,
    pub card_response: Option<Seq<u8>>,
}

/// The text that a field holds, if any.
pub open spec fn text_in(field: Option<String>) -> Option<Seq<char>> {
    match field {
        Some(held) => Some(held@),
        None => None,
    }
}

/// The list that a field holds, if any.
pub open spec fn list_in<T>(field: Option<Vec<T>>) -> Option<Seq<T>> {
    match field {
        Some(held) => Some(held@),
        None => None,
    }
}

impl View for MutualAuthInput {
    type V = InputView;

    open spec fn view(&self) -> InputView {
        InputView {
            session_id: text_in(self.session_id),
            idm: self.idm,
            pmm: self.pmm,
            system_code: self.system_code,
            areas: list_in(self.areas),
            services: list_in(self.services),
            card_response: list_in(self.card_response),
        }
    }
}

impl Default for MutualAuthInput {
    fn default() -> (input: Self)
        ensures
            input@ == rules::empty_input(),
            input.session_id is None,
            input.idm is None,
            input.pmm is None,
            input.system_code is None,
            input.areas is None,
            input.services is None,
            input.card_response is None,
    {
        MutualAuthInput {
            session_id: None,
            idm: None,
            pmm: None,
            system_code: None,
            areas: None,
            services: None,
            card_response: None,
        }
    }
}

/// In-memory manager of in-flight authentication sessions. `W` is what the caller
/// needs to reach a session's worker.
#[verifier::reject_recursive_types(W)]
pub struct SessionManager<W> {
    sessions: SessionTable<W>,
    keystore: Arc<KeyStore>,
    /// When set, only read-only services may be authenticated, so the card will
    /// refuse any Write in the resulting session.
    read_only_nodes: bool,
    ttl: u128,
    max_sessions: usize,
}

/// The state of a [`SessionManager`]. Times are in nanoseconds.
#[verifier::ext_equal]
#[verifier::reject_recursive_types(W)]
pub struct ManagerView<W> {
    pub sessions: Map<Seq<char>, Session<W>>,
    pub keystore: KeyStore,
    pub read_only_nodes: bool,
    pub ttl: u128,
    pub max_sessions: usize,
}

impl<W> ManagerView<W> {
    /// The number of sessions never exceeds the cap.
    pub open spec fn within_cap(self) -> bool {
        self.sessions.dom().finite() && self.sessions.len() <= self.max_sessions
    }

    /// The same manager with other sessions.
    pub open spec fn with_sessions(self, sessions: Map<Seq<char>, Session<W>>) -> ManagerView<W> {
        ManagerView { sessions, ..self }
    }
}

impl<W> View for SessionManager<W> {
    type V = ManagerView<W>;

    closed spec fn view(&self) -> ManagerView<W> {
        ManagerView {
            sessions: self.sessions@,
            keystore: *self.keystore,
            read_only_nodes: self.read_only_nodes,
            ttl: self.ttl,
            max_sessions: self.max_sessions,
        }
    }
}

/// The session that a request is for.
#[derive(Debug)]
pub enum FoundSession {
    /// One that is there, under this id.
    Existing(String),
    /// A new one, for this card.
    New { idm: Block8, pmm: Block8 },
}

/// What a [`FoundSession`] says.
pub enum FoundView {
    Existing(Seq<char>),
    New { idm: Block8, pmm: Block8 },
}

impl View for FoundSession {
    type V = FoundView;

    open spec fn view(&self) -> FoundView {
        match self {
            FoundSession::Existing(id) => FoundView::Existing(id@),
            FoundSession::New { idm, pmm } => FoundView::New { idm: *idm, pmm: *pmm },
        }
    }
}

/// The value or the error that a result holds, taken by their views.
pub open spec fn outcome<T: View>(result: Result<T, ProtocolError>) -> Result<T::V, ErrorView> {
    match result {
        Ok(value) => Ok(value@),
        Err(err) => Err(err@),
    }
}

/// Where a request stands: what has come of the last thing that was done for it.
#[verifier::reject_recursive_types(W)]
pub enum AuthPhase<W> {
    /// It has come in.
    Received(MutualAuthInput),
    /// A worker has been started for it at `now`, or has failed to start.
    WorkerStarted {
        input: MutualAuthInput,
        idm: Block8,
        pmm: Block8,
        started: Result<W, String>,
        now: u128,
    },
    /// The turn of this session has come. No other request is between here and its
    /// response; `inner` is how far the authentication has come.
    TurnCame { session_id: String, created: bool, input: MutualAuthInput, inner: SessionInner },
    /// The worker has answered at `now`, or has given no answer.
    Answered {
        session_id: String,
        created: bool,
        starting: bool,
        inner: SessionInner,
        answer: Result<Out, WorkerFault>,
        now: u128,
    },
}

/// What is to be done next for a request.
#[derive(Debug)]
pub enum AuthAction {
    /// Start a worker for this card.
    StartWorker { input: MutualAuthInput, idm: Block8, pmm: Block8 },
    /// Wait until no other request of this session is being handled.
    AwaitTurn { session_id: String, created: bool, input: MutualAuthInput },
    /// Store how far the authentication has come, hand this to the session's worker,
    /// and wait for its answer.
    Deliver {
        session_id: String,
        created: bool,
        starting: bool,
        inner: SessionInner,
        delivery: Delivery,
    },
    /// Respond. If the request had its turn, how far the authentication has come is
    /// stored before the turn ends.
    Respond { settled: Option<SessionInner>, response: Result<AuthReply, ProtocolError> },
}

/// What an [`AuthPhase`] says.
#[verifier::reject_recursive_types(W)]
pub enum PhaseView<W> {
    Received(InputView),
    WorkerStarted {
        input: InputView,
        idm: Block8,
        pmm: Block8,
        started: Result<W, Seq<char>>,
        now: u128,
    },
    TurnCame { session_id: Seq<char>, created: bool, input: InputView, inner: SessionInner },
    Answered {
        session_id: Seq<char>,
        created: bool,
        starting: bool,
        inner: SessionInner,
        answer: Result<OutView, WorkerFault>,
        now: u128,
    },
}

/// What an [`AuthAction`] says.
pub enum ActionView {
    StartWorker { input: InputView, idm: Block8, pmm: Block8 },
    AwaitTurn { session_id: Seq<char>, created: bool, input: InputView },
    Deliver {
        session_id: Seq<char>,
        created: bool,
        starting: bool,
        inner: SessionInner,
        delivery: DeliveryView,
    },
    Respond { settled: Option<SessionInner>, response: Result<ReplyView, ErrorView> },
}

impl<W> View for AuthPhase<W> {
    type V = PhaseView<W>;

    open spec fn view(&self) -> PhaseView<W> {
        match self {
            AuthPhase::Received(input) => PhaseView::Received(input@),
            AuthPhase::WorkerStarted { input, idm, pmm, started, now } => PhaseView::WorkerStarted {
                input: input@,
                idm: *idm,
                pmm: *pmm,
                started: rules::started_view(*started),
                now: *now,
            },
            AuthPhase::TurnCame { session_id, created, input, inner } => PhaseView::TurnCame {
                session_id: session_id@,
                created: *created,
                input: input@,
                inner: *inner,
            },
            AuthPhase::Answered { session_id, created, starting, inner, answer, now } =>
                PhaseView::Answered {
                session_id: session_id@,
                created: *created,
                starting: *starting,
                inner: *inner,
                answer: rules::answer_view(*answer),
                now: *now,
            },
        }
    }
}

impl View for AuthAction {
    type V = ActionView;

    open spec fn view(&self) -> ActionView {
        match self {
            AuthAction::StartWorker { input, idm, pmm } => ActionView::StartWorker {
                input: input@,
                idm: *idm,
                pmm: *pmm,
            },
            AuthAction::AwaitTurn { session_id, created, input } => ActionView::AwaitTurn {
                session_id: session_id@,
                created: *created,
                input: input@,
            },
            AuthAction::Deliver { session_id, created, starting, inner, delivery } =>
                ActionView::Deliver {
                session_id: session_id@,
                created: *created,
                starting: *starting,
                inner: *inner,
                delivery: delivery@,
            },
            AuthAction::Respond { settled, response } => ActionView::Respond {
                settled: *settled,
                response: outcome(*response),
            },
        }
    }
}

impl<W> AuthPhase<W> {
    /// Whether the text of what the worker answered can be allocated.
    pub open spec fn fits(&self) -> bool {
        match self {
            AuthPhase::Answered { answer: Ok(out), .. } => out.fits(),
            _ => true,
        }
    }
}

/// Reject a service list that would grant more than read access.
///
/// A session can only access the services named in the authentication, so
/// constraining this list to read-only services bounds the whole session to reads:
/// the card refuses a Write on a read-only service. (The area node FeliCa also
/// requires takes part in the key derivation; it does not widen data access.)
pub fn enforce_read_only_nodes(services: &[u16]) -> (enforced: Result<(), ProtocolError>)
    ensures
        match enforced {
            Ok(()) => rules::read_only_refusal(services@) is None,
            Err(err) => rules::read_only_refusal(services@) == Some(err@),
        },
        enforced is Ok <==> rules::all_read_only(services@) && policy::well_shaped(services@),
{
    for i in 0..services.len()
        invariant
            forall|j: int| 0 <= j < i ==> policy::read_only(#[trigger] services@[j]),
    {
        if !is_read_only_service(services[i]) {
            proof {
                assert(rules::first_writable(services@, i as int));
                let first = choose|k: int| rules::first_writable(services@, k);
                assert(rules::first_writable(services@, first) && first == i);
            }
            let message = "service 0x".to_owned().concat(
                text::format_code(services[i]).as_str(),
            ).concat(" is not a read-only node");
            return Err(ProtocolError::forbidden(message));
        }
    }
    match check_service_list_shape(services) {
        Ok(()) => Ok(()),
        Err(message) => Err(ProtocolError::bad_request(message)),
    }
}

/// The list that a field holds, which must be there and have something in it.
pub fn require_nonempty(value: Option<Vec<u16>>, name: &str) -> (list: Result<
    Vec<u16>,
    ProtocolError,
>)
    ensures
        match list {
            Ok(list) => value == Some(list) && list@.len() > 0,
            Err(err) => {
                &&& value is None || value->Some_0@.len() == 0
                &&& err@ == error::error(400, rules::nonempty_message(name@))
            },
        },
{
    if let Some(list) = value {
        if !list.is_empty() {
            return Ok(list);
        }
    }
    let message = name.to_owned().concat(" must be a non-empty list");
    Err(ProtocolError::bad_request(message))
}

/// Calls `rand::random` for sixteen bytes, uniformly distributed. Nothing is claimed
/// of which bytes come back. It panics if the system has no randomness to give.
#[verifier::external_body]
fn random_bytes() -> [u8; 16] {
    rand::random::<[u8; 16]>()
}

/// The session id that these bytes make.
pub fn session_id_of(bytes: &[u8; 16]) -> (id: String)
    ensures
        id@ == text::hex_text(bytes@),
        rules::is_session_id(id@),
{
    text::hex_encode(bytes.as_slice())
}

/// The drawn bytes with a number in place of their second half.
spec fn numbered(drawn: Seq<u8>, n: u64) -> Seq<u8> {
    drawn.take(8) + vstd::bytes::spec_u64_to_le_bytes(n)
}

/// The session id that the drawn bytes make with a number in place of their second half.
spec fn numbered_id(drawn: Seq<u8>, n: u64) -> Seq<char> {
    text::hex_text(numbered(drawn, n))
}

/// Different numbers make different session ids.
proof fn numbered_ids_differ(drawn: Seq<u8>, m: u64, n: u64)
    requires
        drawn.len() == 16,
        m != n,
    ensures
        numbered_id(drawn, m) != numbered_id(drawn, n),
{
    vstd::bytes::lemma_auto_spec_u64_to_from_le_bytes();
    if numbered_id(drawn, m) == numbered_id(drawn, n) {
        text::hex_text_reads_back(numbered(drawn, m));
        text::hex_text_reads_back(numbered(drawn, n));
        assert(numbered(drawn, m).skip(8) =~= vstd::bytes::spec_u64_to_le_bytes(m));
        assert(numbered(drawn, n).skip(8) =~= vstd::bytes::spec_u64_to_le_bytes(n));
    }
}

/// Puts a number in place of the second half of the drawn bytes.
fn numbered_bytes(drawn: &[u8; 16], n: u64) -> (bytes: [u8; 16])
    ensures
        bytes@ == numbered(drawn@, n),
{
    let tail = vstd::bytes::u64_to_le_bytes(n);
    let bytes: [u8; 16] = [
        drawn[0],
        drawn[1],
        drawn[2],
        drawn[3],
        drawn[4],
        drawn[5],
        drawn[6],
        drawn[7],
        tail[0],
        tail[1],
        tail[2],
        tail[3],
        tail[4],
        tail[5],
        tail[6],
        tail[7],
    ];
    assert(bytes@ =~= numbered(drawn@, n));
    bytes
}

/// A new random session id.
pub fn new_session_id() -> (id: String)
    ensures
        rules::is_session_id(id@),
{
    session_id_of(&random_bytes())
}

/// The error for a full house.
fn too_many_sessions() -> (err: ProtocolError)
    ensures
        err@ == error::error(503, "too many active sessions"@),
{
    ProtocolError::new(503, "too many active sessions".to_owned())
}

/// The error for a request that gives no session and no card.
fn card_missing() -> (err: ProtocolError)
    ensures
        err@ == error::error(400, "idm and pmm are required to start a session"@),
{
    ProtocolError::bad_request("idm and pmm are required to start a session".to_owned())
}

/// The start that a request asks for, if its services may be authenticated.
fn read_start(input: MutualAuthInput, read_only_nodes: bool) -> (start: Result<
    StartAuth,
    ProtocolError,
>)
    ensures
        outcome(start) == (match rules::requested_start(input@) {
            Ok(asked) if read_only_nodes && rules::read_only_refusal(asked.services) is Some => Err(
                rules::read_only_refusal(asked.services)->Some_0,
            ),
            asked => asked,
        }),
{
    if input.card_response.is_some() {
        return Err(
            ProtocolError::bad_request(
                "card_response not expected at start of authentication".to_owned(),
            ),
        );
    }
    let system_code = match input.system_code {
        Some(code) => code,
        None => return Err(ProtocolError::bad_request("system_code is required".to_owned())),
    };
    // FeliCa authentication needs at least one real area node.
    let areas = match require_nonempty(input.areas, "areas") {
        Ok(list) => list,
        Err(err) => return Err(err),
    };
    let services = match require_nonempty(input.services, "services") {
        Ok(list) => list,
        Err(err) => return Err(err),
    };
    if read_only_nodes {
        if let Err(err) = enforce_read_only_nodes(services.as_slice()) {
            return Err(err);
        }
    }
    Ok(StartAuth { system_code, areas, services })
}

impl<W> SessionManager<W> {
    /// No session id occurs twice, and the number of sessions is within the cap.
    pub open spec fn wf(&self) -> bool {
        self.table_wf() && self@.within_cap()
    }

    /// No session id occurs twice.
    pub closed spec fn table_wf(&self) -> bool {
        self.sessions.wf()
    }

    /// A manager without sessions. `ttl` is in nanoseconds.
    pub fn new(
        keystore: Arc<KeyStore>,
        read_only_nodes: bool,
        ttl: u128,
        max_sessions: usize,
    ) -> (manager: Self)
        ensures
            manager.wf(),
            manager@ == (ManagerView::<W> {
                sessions: Map::empty(),
                keystore: *keystore,
                read_only_nodes,
                ttl,
                max_sessions,
            }),
    {
        SessionManager {
            sessions: SessionTable::new(),
            keystore,
            read_only_nodes,
            ttl,
            max_sessions,
        }
    }

    /// The keys that workers take.
    pub fn keystore(&self) -> (store: &Arc<KeyStore>)
        ensures
            **store == self@.keystore,
    {
        &self.keystore
    }

    /// Number of authentications currently in flight (for diagnostics / health).
    pub fn live_sessions(&self) -> (count: usize)
        requires
            self.wf(),
        ensures
            count == self@.sessions.len(),
    {
        self.sessions.len()
    }

    /// The session with this id.
    pub fn get_session(&self, session_id: &str) -> (found: Result<&Session<W>, ProtocolError>)
        requires
            self.wf(),
        ensures
            match found {
                Ok(session) => {
                    &&& self@.sessions.contains_key(session_id@)
                    &&& *session == self@.sessions[session_id@]
                },
                Err(err) => {
                    &&& !self@.sessions.contains_key(session_id@)
                    &&& err@ == error::error(404, "unknown session_id"@)
                },
            },
    {
        match self.sessions.get(session_id) {
            Some(session) => Ok(session),
            None => Err(ProtocolError::not_found("unknown session_id".to_owned())),
        }
    }

    /// Forgets the session with this id, if there is one.
    pub fn remove_session(&mut self, session_id: &str)
        requires
            old(self).wf(),
        ensures
            final(self).wf(),
            final(self)@ == old(self)@.with_sessions(old(self)@.sessions.remove(session_id@)),
    {
        self.sessions.remove(session_id);
    }

    /// The session that a request is for. A new one is created once its worker has
    /// been started, with [`SessionManager::create_session`].
    pub fn get_or_create_session(
        &self,
        session_id: &Option<String>,
        idm: &Option<Block8>,
        pmm: &Option<Block8>,
    ) -> (found: Result<FoundSession, ProtocolError>)
        requires
            self.wf(),
        ensures
            outcome(found) == rules::found_session(self@, text_in(*session_id), *idm, *pmm),
    {
        if let Some(sid) = session_id {
            let session = match self.get_session(sid.as_str()) {
                Ok(session) => session,
                Err(err) => return Err(err),
            };
            if let Some(idm) = idm {
                if !same_block(idm, &session.idm) {
                    return Err(
                        ProtocolError::bad_request("idm does not match existing session".to_owned()),
                    );
                }
            }
            if let Some(pmm) = pmm {
                if !same_block(pmm, &session.pmm) {
                    return Err(
                        ProtocolError::bad_request("pmm does not match existing session".to_owned()),
                    );
                }
            }
            return Ok(FoundSession::Existing(sid.clone()));
        }
        let idm = match idm {
            Some(idm) => *idm,
            None => return Err(card_missing()),
        };
        let pmm = match pmm {
            Some(pmm) => *pmm,
            None => return Err(card_missing()),
        };
        if self.sessions.len() >= self.max_sessions {
            return Err(too_many_sessions());
        }
        Ok(FoundSession::New { idm, pmm })
    }

    /// Creates a session under this id, for a worker that was started or that failed
    /// to start. A session that is already there under this id makes way.
    pub fn register_session(
        &mut self,
        session_id: String,
        idm: Block8,
        pmm: Block8,
        started: Result<W, String>,
        now: u128,
    ) -> (created: Result<(), ProtocolError>)
        requires
            old(self).wf(),
        ensures
            final(self).wf(),
            match created {
                Ok(()) => {
                    &&& rules::creation_refused(old(self)@, rules::started_view(started)) is None
                    &&& final(self)@ == old(self)@.with_sessions(
                        old(self)@.sessions.insert(
                            session_id@,
                            rules::new_session(idm, pmm, started->Ok_0, now),
                        ),
                    )
                },
                Err(err) => {
                    &&& rules::creation_refused(old(self)@, rules::started_view(started)) == Some(
                        err@,
                    )
                    &&& final(self)@ == old(self)@
                },
            },
    {
        if self.sessions.len() >= self.max_sessions {
            return Err(too_many_sessions());
        }
        let worker = match started {
            Ok(worker) => worker,
            Err(reason) => {
                let message = "failed to spawn session worker: ".to_owned().concat(
                    reason.as_str(),
                );
                return Err(ProtocolError::internal(message));
            },
        };
        self.sessions.insert(session_id, Session { idm, pmm, last_seen: now, worker });
        Ok(())
    }

    /// The id for a new session, from the bytes that were drawn for it: the one that they
    /// make or, should it be in use, another one that is not.
    pub fn unused_session_id(&self, drawn: &[u8; 16]) -> (id: String)
        requires
            self.wf(),
        ensures
            rules::is_session_id(id@),
            !self@.sessions.contains_key(id@),
            !self@.sessions.contains_key(text::hex_text(drawn@)) ==> id@ == text::hex_text(drawn@),
    {
        let id = session_id_of(drawn);
        if self.sessions.get(id.as_str()).is_none() {
            return id;
        }
        let count = self.sessions.len();
        let mut n: usize = 0;
        // The ids that were tried and are in use.
        let ghost mut used: Set<Seq<char>> = Set::empty();
        while n < count
            invariant
                self.wf(),
                self@.sessions.contains_key(text::hex_text(drawn@)),
                count == self@.sessions.len(),
                n <= count,
                used.finite(),
                used.len() == n,
                used.subset_of(self@.sessions.dom()),
                forall|tried: Seq<char>|
                    used.contains(tried) ==> exists|k: u64|
                        k < n && tried == #[trigger] numbered_id(drawn@, k),
            decreases count - n,
        {
            let other = session_id_of(&numbered_bytes(drawn, n as u64));
            if self.sessions.get(other.as_str()).is_none() {
                return other;
            }
            proof {
                let before = used;
                assert(!used.contains(other@)) by {
                    if used.contains(other@) {
                        let k = choose|k: u64|
                            k < n && other@ == #[trigger] numbered_id(drawn@, k);
                        numbered_ids_differ(drawn@, k, n as u64);
                    }
                }
                used = used.insert(other@);
                assert forall|tried: Seq<char>| used.contains(tried) implies exists|k: u64|
                    k < n + 1 && tried == #[trigger] numbered_id(drawn@, k) by {
                    if before.contains(tried) {
                        let k = choose|k: u64| k < n && tried == #[trigger] numbered_id(drawn@, k);
                        assert(k < n + 1);
                    } else {
                        assert(tried == numbered_id(drawn@, n as u64));
                    }
                }
            }
            n = n + 1;
        }
        let other = session_id_of(&numbered_bytes(drawn, n as u64));
        proof {
            if self@.sessions.contains_key(other@) {
                assert(!used.contains(other@)) by {
                    if used.contains(other@) {
                        let k = choose|k: u64|
                            k < n && other@ == #[trigger] numbered_id(drawn@, k);
                        numbered_ids_differ(drawn@, k, n as u64);
                    }
                }
                vstd::set_lib::lemma_len_subset(used.insert(other@), self@.sessions.dom());
            }
        }
        other
    }

    /// Creates a session under a new random id that is not in use, for a worker that was
    /// started or that failed to start.
    pub fn create_session(
        &mut self,
        idm: Block8,
        pmm: Block8,
        started: Result<W, String>,
        now: u128,
    ) -> (created: Result<String, ProtocolError>)
        requires
            old(self).wf(),
        ensures
            final(self).wf(),
            match created {
                Ok(session_id) => {
                    &&& rules::creation_refused(old(self)@, rules::started_view(started)) is None
                    &&& rules::is_session_id(session_id@)
                    &&& !old(self)@.sessions.contains_key(session_id@)
                    &&& final(self)@ == old(self)@.with_sessions(
                        old(self)@.sessions.insert(
                            session_id@,
                            rules::new_session(idm, pmm, started->Ok_0, now),
                        ),
                    )
                },
                Err(err) => {
                    &&& rules::creation_refused(old(self)@, rules::started_view(started)) == Some(
                        err@,
                    )
                    &&& final(self)@ == old(self)@
                },
            },
    {
        let session_id = self.unused_session_id(&random_bytes());
        match self.register_session(session_id.clone(), idm, pmm, started, now) {
            Ok(()) => Ok(session_id),
            Err(err) => Err(err),
        }
    }

    /// Decides what a request whose turn has come hands to the worker.
    fn take_in(
        &mut self,
        session_id: &str,
        created: bool,
        inner: SessionInner,
        input: MutualAuthInput,
    ) -> (delivery: Result<Delivery, ProtocolError>)
        requires
            old(self).wf(),
        ensures
            final(self).wf(),
            final(self)@ == old(self)@.with_sessions(
                rules::sessions_admitted(old(self)@, session_id@, created, inner, input@),
            ),
            outcome(delivery) == rules::admitted(old(self)@.read_only_nodes, inner, input@),
    {
        if inner.expect == Expect::Control {
            match read_start(input, self.read_only_nodes) {
                Ok(start) => Ok(Delivery::Start(start)),
                Err(err) => {
                    // No authentication has been started: the session that was made
                    // for it has nothing to stay for.
                    if created {
                        self.remove_session(session_id);
                    }
                    Err(err)
                },
            }
        } else {
            match input.card_response {
                Some(card) => Ok(Delivery::Card(card)),
                None => Err(
                    ProtocolError::bad_request(
                        "card_response is required to continue authentication".to_owned(),
                    ),
                ),
            }
        }
    }

    /// Decides what the client is told once the worker has answered.
    fn respond(
        &mut self,
        session_id: String,
        created: bool,
        starting: bool,
        inner: &mut SessionInner,
        answer: Result<Out, WorkerFault>,
        now: u128,
    ) -> (response: Result<AuthReply, ProtocolError>)
        requires
            old(self).wf(),
            answer matches Ok(out) ==> out.fits(),
        ensures
            final(self).wf(),
            final(self)@ == old(self)@.with_sessions(
                rules::sessions_answered(
                    old(self)@.sessions,
                    session_id@,
                    rules::answer_view(answer),
                    now,
                ),
            ),
            *final(inner) == rules::inner_answered(*old(inner), rules::answer_view(answer)),
            outcome(response) == rules::answered(
                session_id@,
                created,
                starting,
                *old(inner),
                rules::answer_view(answer),
            ),
    {
        let out = match answer {
            Ok(out) => out,
            Err(fault) => return Err(fault_error(fault)),
        };
        self.sessions.touch(session_id.as_str(), now);
        let session_created = if starting {
            Some(created)
        } else {
            None
        };
        match out {
            Out::Frame { code, frame, timeout_ms } => {
                inner.expect = Expect::Card;
                inner.auth_frames = inner.auth_frames.saturating_add(1);
                let step = if inner.auth_frames <= 1 {
                    "auth1".to_owned()
                } else {
                    "auth2".to_owned()
                };
                Ok(
                    AuthReply {
                        phase: "mutual_authentication".to_owned(),
                        step,
                        command: Some(reply::command(code, frame.as_slice(), timeout_ms)),
                        result: None,
                        session_id,
                        session_created,
                    },
                )
            },
            Out::AuthComplete { issue_id, issue_parameter, session } => {
                inner.expect = Expect::Control;
                // The authentication is finished and the client now holds the
                // session material: drop the session so no key state lingers here.
                self.remove_session(session_id.as_str());
                Ok(
                    AuthReply {
                        phase: "mutual_authentication".to_owned(),
                        step: "complete".to_owned(),
                        command: None,
                        result: Some(reply::auth_result(&issue_id, &issue_parameter, &session)),
                        session_id,
                        session_created,
                    },
                )
            },
            Out::Error(err) => {
                inner.expect = Expect::Control;
                Err(err)
            },
        }
    }

    /// Drive `POST /mutual-authentication`: decides what is to be done next for a
    /// request in this phase.
    pub fn handle_mutual_authentication(&mut self, phase: AuthPhase<W>) -> (action: AuthAction)
        requires
            old(self).wf(),
            phase.fits(),
        ensures
            final(self).wf(),
            rules::handled(old(self)@, phase@, final(self)@, action@),
    {
        match phase {
            AuthPhase::Received(input) => {
                match self.get_or_create_session(&input.session_id, &input.idm, &input.pmm) {
                    Ok(FoundSession::Existing(session_id)) => AuthAction::AwaitTurn {
                        session_id,
                        created: false,
                        input,
                    },
                    Ok(FoundSession::New { idm, pmm }) => AuthAction::StartWorker {
                        input,
                        idm,
                        pmm,
                    },
                    Err(err) => AuthAction::Respond { settled: None, response: Err(err) },
                }
            },
            AuthPhase::WorkerStarted { input, idm, pmm, started, now } => {
                match self.create_session(idm, pmm, started, now) {
                    Ok(session_id) => AuthAction::AwaitTurn { session_id, created: true, input },
                    Err(err) => AuthAction::Respond { settled: None, response: Err(err) },
                }
            },
            AuthPhase::TurnCame { session_id, created, input, inner } => {
                let starting = inner.expect == Expect::Control;
                match self.take_in(session_id.as_str(), created, inner, input) {
                    Ok(delivery) => {
                        let auth_frames = if starting {
                            0
                        } else {
                            inner.auth_frames
                        };
                        let inner = SessionInner { expect: inner.expect, auth_frames };
                        AuthAction::Deliver { session_id, created, starting, inner, delivery }
                    },
                    Err(err) => AuthAction::Respond { settled: Some(inner), response: Err(err) },
                }
            },
            AuthPhase::Answered { session_id, created, starting, inner, answer, now } => {
                let mut inner = inner;
                let response = self.respond(
                    session_id,
                    created,
                    starting,
                    &mut inner,
                    answer,
                    now,
                );
                AuthAction::Respond { settled: Some(inner), response }
            },
        }
    }

    /// How long to wait between two rounds of [`SessionManager::reap`], in nanoseconds.
    pub fn reap_interval(&self) -> (pause: u128)
        ensures
            pause == rules::reap_pause(self@.ttl),
    {
        let half = self.ttl / 2;
        if half < 1_000_000_000 {
            1_000_000_000
        } else {
            half
        }
    }

    /// Forgets the sessions that were abandoned mid-authentication: those idle for the
    /// time to live or longer at `now`. Says how many those were.
    pub fn reap(&mut self, now: u128) -> (reaped: usize)
        requires
            old(self).wf(),
        ensures
            final(self).wf(),
            final(self)@ == old(self)@.with_sessions(
                table::fresh_sessions(old(self)@.sessions, now, old(self)@.ttl),
            ),
            reaped == old(self)@.sessions.len() - final(self)@.sessions.len(),
    {
        self.sessions.reap(now, self.ttl)
    }
}

} // verus!
