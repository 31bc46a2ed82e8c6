use std::cell::RefCell;
use std::rc::Rc;
use std::sync::Arc;

use felica_auth_server::error::ProtocolError;
use felica_auth_server::keystore::KeyStore;
use felica_auth_server::relay::{
    fault_error, Delivery, Out, SecureSessionMaterial, WorkerFault,
};
use felica_auth_server::reply::AuthReply;
use felica_auth_server::sample_card::{card_input, start_input, IDM, PMM, SYSTEM_CODE};
use felica_auth_server::session::{
    enforce_read_only_nodes, new_session_id, require_nonempty, session_id_of, AuthAction,
    AuthPhase, Expect, FoundSession, MutualAuthInput, SessionInner, SessionManager,
};

/// Area holding the writable service.
const AREA_RW: u16 = 0x0040;
/// Area holding the read-only services.
const AREA_RO: u16 = 0x0080;
/// Random read/write with key: writable, so read-only mode must refuse it.
const SERVICE_CODE: u16 = 0x0048;
/// Random read-only with key.
const SERVICE_RO: u16 = 0x008A;
/// Random read-only without key.
const SERVICE_RO_NOKEY: u16 = 0x00CB;

const SECOND: u128 = 1_000_000_000;

type Desk = Rc<RefCell<SessionInner>>;
type Manager = SessionManager<Desk>;

fn manager(read_only_nodes: bool) -> Manager {
    SessionManager::new(Arc::new(KeyStore::new()), read_only_nodes, 60 * SECOND, 16)
}

fn desk() -> Desk {
    Rc::new(RefCell::new(SessionInner::new()))
}

/// Carries one request through, with a worker that answers as it is told to.
fn request(
    manager: &mut Manager,
    input: MutualAuthInput,
    now: u128,
    worker: &mut dyn FnMut(Delivery) -> Result<Out, WorkerFault>,
) -> Result<AuthReply, ProtocolError> {
    let mut phase = AuthPhase::Received(input);
    let mut held: Option<Desk> = None;
    loop {
        phase = match manager.handle_mutual_authentication(phase) {
            AuthAction::StartWorker { input, idm, pmm } => AuthPhase::WorkerStarted {
                input,
                idm,
                pmm,
                started: Ok(desk()),
                now,
            },
            AuthAction::AwaitTurn {
                session_id,
                created,
                input,
            } => {
                let turn = manager.get_session(&session_id).ok().unwrap().worker.clone();
                let inner = *turn.borrow();
                held = Some(turn);
                AuthPhase::TurnCame {
                    session_id,
                    created,
                    input,
                    inner,
                }
            }
            AuthAction::Deliver {
                session_id,
                created,
                starting,
                inner,
                delivery,
            } => {
                *held.as_ref().unwrap().borrow_mut() = inner;
                AuthPhase::Answered {
                    session_id,
                    created,
                    starting,
                    inner,
                    answer: worker(delivery),
                    now,
                }
            }
            AuthAction::Respond { settled, response } => {
                if let (Some(held), Some(inner)) = (held, settled) {
                    *held.borrow_mut() = inner;
                }
                return response;
            }
        };
    }
}

fn frame(code: u8) -> Result<Out, WorkerFault> {
    Ok(Out::Frame {
        code,
        frame: vec![0x03, code, 0xAB],
        timeout_ms: 3,
    })
}

fn finished() -> Result<Out, WorkerFault> {
    Ok(Out::AuthComplete {
        issue_id: [0xDE, 0xAD, 0xBE, 0xEF, 0x00, 0x11, 0x22, 0x33],
        issue_parameter: [0x44, 0x55, 0x66, 0x77, 0x88, 0x99, 0xAA, 0xBB],
        session: SecureSessionMaterial {
            key: [1, 2, 3, 4, 5, 6, 7, 8],
            transaction_id: [0xF0, 0xE1, 0xD2, 0xC3, 0xB4, 0xA5],
            transaction_number: 7,
        },
    })
}

fn never(_: Delivery) -> Result<Out, WorkerFault> {
    panic!("nothing should reach the worker")
}

/// Runs the three requests of an authentication, and gives back the session id.
fn authenticate(manager: &mut Manager, areas: Vec<u16>, services: Vec<u16>) -> String {
    let response = request(
        manager,
        start_input(areas.clone(), services.clone()),
        0,
        &mut |delivery| match delivery {
            Delivery::Start(start) => {
                assert_eq!(start.system_code, SYSTEM_CODE);
                assert_eq!(start.areas, areas);
                assert_eq!(start.services, services);
                frame(0x10)
            }
            Delivery::Card(_) => panic!("a start was due"),
        },
    )
    .expect("auth start should succeed");
    assert_eq!(response.phase, "mutual_authentication");
    assert_eq!(response.step, "auth1");
    assert_eq!(response.session_created, Some(true));
    assert!(response.result.is_none());
    let command = response.command.unwrap();
    assert_eq!(command.code, 0x10);
    assert_eq!(command.frame, "0310ab");
    assert_eq!(command.timeout_ms, 3);
    let session_id = response.session_id;
    assert_eq!(manager.live_sessions(), 1);

    let response = request(
        manager,
        card_input(&session_id, vec![0xC1]),
        1,
        &mut |delivery| match delivery {
            Delivery::Card(card) => {
                assert_eq!(card, vec![0xC1]);
                frame(0x12)
            }
            Delivery::Start(_) => panic!("a card response was due"),
        },
    )
    .expect("auth step 2 should succeed");
    assert_eq!(response.step, "auth2");
    assert_eq!(response.command.unwrap().code, 0x12);
    assert_eq!(response.session_created, None);

    let response = request(manager, card_input(&session_id, vec![0xC2]), 2, &mut |_| {
        finished()
    })
    .expect("auth completion should succeed");
    assert_eq!(response.step, "complete");
    assert_eq!(response.session_id, session_id);
    assert_eq!(response.session_created, None);
    assert!(response.command.is_none());
    let result = response.result.unwrap();
    assert_eq!(result.issue_id, "deadbeef00112233");
    assert_eq!(result.issue_parameter, "445566778899aabb");
    assert_eq!(result.session.scheme, "des");
    assert_eq!(hex::decode(&result.session.key).unwrap(), vec![1, 2, 3, 4, 5, 6, 7, 8]);
    assert_eq!(result.session.transaction_id, "f0e1d2c3b4a5");
    assert_eq!(result.session.transaction_number, 7);
    session_id
}

#[test]
fn read_only_mode_rejects_a_writable_service() {
    let mut manager = manager(true);

    let err = request(
        &mut manager,
        start_input(vec![AREA_RW], vec![SERVICE_CODE]),
        0,
        &mut never,
    )
    .unwrap_err();
    assert_eq!(err.status, 403);
    assert!(err.message.contains("not a read-only node"));
    assert_eq!(err.message, "service 0x0048 is not a read-only node");

    // The rejected request must not leave a session behind.
    assert_eq!(manager.live_sessions(), 0);
}

#[test]
fn a_keyless_only_service_list_is_rejected_with_a_clear_error() {
    let mut manager = manager(true);
    let err = request(
        &mut manager,
        start_input(vec![AREA_RO], vec![SERVICE_RO_NOKEY]),
        0,
        &mut never,
    )
    .unwrap_err();
    assert_eq!(err.status, 400);
    assert!(err
        .message
        .contains("at least one node that requires a key"));
    assert_eq!(manager.live_sessions(), 0);
}

#[test]
fn writable_services_are_still_allowed_when_the_restriction_is_off() {
    let mut manager = manager(false);
    let response = request(
        &mut manager,
        start_input(vec![AREA_RW], vec![SERVICE_CODE]),
        0,
        &mut |_| frame(0x10),
    )
    .expect("writable service is fine without the restriction");
    assert_eq!(response.step, "auth1");
}

#[test]
fn session_is_dropped_once_authentication_completes() {
    let mut manager = manager(false);
    let session_id = authenticate(&mut manager, vec![AREA_RW], vec![SERVICE_CODE]);

    // The server keeps no session state (nor key material) after handing the
    // session material to the client.
    assert_eq!(manager.live_sessions(), 0);

    let err = request(
        &mut manager,
        card_input(&session_id, vec![0x00]),
        3,
        &mut never,
    )
    .unwrap_err();
    assert_eq!(err.status, 404);
}

#[test]
fn read_only_mode_lets_read_only_services_through() {
    let mut manager = manager(true);
    authenticate(&mut manager, vec![AREA_RO], vec![SERVICE_RO]);
    authenticate(&mut manager, vec![AREA_RO], vec![SERVICE_RO, SERVICE_RO_NOKEY]);
    assert_eq!(manager.live_sessions(), 0);
}

#[test]
fn unknown_session_is_not_found() {
    let mut manager = manager(false);
    let err = request(&mut manager, card_input("deadbeef", vec![0x00]), 0, &mut never).unwrap_err();
    assert_eq!(err.status, 404);
    assert_eq!(err.message, "unknown session_id");
    assert_eq!(err.code, None);
}

#[test]
fn mutual_auth_start_requires_idm_and_pmm() {
    let mut manager = manager(false);
    let err = request(
        &mut manager,
        MutualAuthInput {
            system_code: Some(SYSTEM_CODE),
            areas: Some(vec![0x0000]),
            services: Some(vec![SERVICE_CODE]),
            ..Default::default()
        },
        0,
        &mut never,
    )
    .unwrap_err();
    assert_eq!(err.status, 400);
    assert_eq!(err.message, "idm and pmm are required to start a session");

    let mut half = start_input(vec![AREA_RW], vec![SERVICE_CODE]);
    half.pmm = None;
    let err = request(&mut manager, half, 0, &mut never).unwrap_err();
    assert_eq!(err.status, 400);
    assert_eq!(manager.live_sessions(), 0);
}

#[test]
fn the_default_input_is_empty() {
    let input = MutualAuthInput::default();
    assert!(input.session_id.is_none() && input.idm.is_none() && input.pmm.is_none());
    assert!(input.system_code.is_none() && input.areas.is_none() && input.services.is_none());
    assert!(input.card_response.is_none());
}

#[test]
fn an_incomplete_start_is_refused_and_leaves_no_session() {
    let mut manager = manager(true);
    let mut no_system = start_input(vec![AREA_RO], vec![SERVICE_RO]);
    no_system.system_code = None;
    let err = request(&mut manager, no_system, 0, &mut never).unwrap_err();
    assert_eq!((err.status, err.message.as_str()), (400, "system_code is required"));
    assert_eq!(manager.live_sessions(), 0);

    let err = request(&mut manager, start_input(vec![], vec![SERVICE_RO]), 0, &mut never)
        .unwrap_err();
    assert_eq!((err.status, err.message.as_str()), (400, "areas must be a non-empty list"));

    let mut no_services = start_input(vec![AREA_RO], vec![]);
    no_services.services = None;
    let err = request(&mut manager, no_services, 0, &mut never).unwrap_err();
    assert_eq!((err.status, err.message.as_str()), (400, "services must be a non-empty list"));

    let mut with_card = start_input(vec![AREA_RO], vec![SERVICE_RO]);
    with_card.card_response = Some(vec![1]);
    let err = request(&mut manager, with_card, 0, &mut never).unwrap_err();
    assert_eq!(
        (err.status, err.message.as_str()),
        (400, "card_response not expected at start of authentication")
    );
    assert_eq!(manager.live_sessions(), 0);

    let mut open_manager = self::manager(false);
    let err = request(
        &mut open_manager,
        MutualAuthInput {
            idm: Some([1; 8]),
            pmm: Some([2; 8]),
            areas: Some(vec![0x0040]),
            services: Some(vec![0x0048]),
            ..Default::default()
        },
        0,
        &mut never,
    )
    .unwrap_err();
    assert_eq!(err.status, 400);
    assert_eq!(open_manager.live_sessions(), 0);
}

#[test]
fn a_refused_start_keeps_a_session_that_was_there() {
    let mut manager = manager(true);
    manager
        .register_session("known".to_string(), IDM, PMM, Ok(desk()), 4)
        .unwrap();
    for services in [vec![SERVICE_CODE], vec![SERVICE_RO_NOKEY], vec![]] {
        let mut again = start_input(vec![AREA_RO], services);
        again.session_id = Some("known".to_string());
        request(&mut manager, again, 5, &mut never).unwrap_err();
        assert_eq!(manager.get_session("known").ok().unwrap().last_seen, 4);
    }
    let mut again = start_input(vec![AREA_RO], vec![SERVICE_RO]);
    again.session_id = Some("known".to_string());
    let response = request(&mut manager, again, 6, &mut |_| frame(0x10)).unwrap();
    assert_eq!(response.session_created, Some(false));
}

#[test]
fn refused_starts_do_not_fill_the_house() {
    let mut manager: Manager = SessionManager::new(Arc::new(KeyStore::new()), false, SECOND, 1);
    for _ in 0..5 {
        let err = request(&mut manager, start_input(vec![], vec![]), 0, &mut never).unwrap_err();
        assert_eq!(err.status, 400);
    }
    request(
        &mut manager,
        start_input(vec![AREA_RW], vec![SERVICE_CODE]),
        0,
        &mut |_| frame(0x10),
    )
    .unwrap();
}

#[test]
fn a_command_is_written_for_the_client() {
    let command = felica_auth_server::reply::command(16, &[0x10, 0xAB], 3);
    assert_eq!(command.code, 16);
    assert_eq!(command.frame, "10ab");
    assert_eq!(command.timeout_ms, 3);
    assert_eq!(hex::decode(&command.frame).unwrap(), vec![0x10, 0xAB]);
}

#[test]
fn node_codes_are_written_in_four_digits() {
    for code in 0..=0xFFFFu16 {
        assert_eq!(felica_auth_server::text::format_code(code), format!("{code:04X}"));
    }
}

#[test]
fn a_session_goes_on_with_its_own_card_only() {
    let mut manager = manager(false);
    let id = request(
        &mut manager,
        start_input(vec![AREA_RW], vec![SERVICE_CODE]),
        0,
        &mut |_| frame(0x10),
    )
    .unwrap()
    .session_id;

    let mut other = card_input(&id, vec![1]);
    other.idm = Some([0; 8]);
    let err = request(&mut manager, other, 0, &mut never).unwrap_err();
    assert_eq!(
        (err.status, err.message.as_str()),
        (400, "idm does not match existing session")
    );

    let mut other = card_input(&id, vec![1]);
    other.idm = Some(IDM);
    other.pmm = Some(IDM);
    let err = request(&mut manager, other, 0, &mut never).unwrap_err();
    assert_eq!(
        (err.status, err.message.as_str()),
        (400, "pmm does not match existing session")
    );

    let mut same = card_input(&id, vec![1]);
    same.idm = Some(IDM);
    same.pmm = Some(PMM);
    assert_eq!(
        request(&mut manager, same, 0, &mut |_| frame(0x12)).unwrap().step,
        "auth2"
    );
}

#[test]
fn a_session_that_waits_for_the_card_wants_a_card_response() {
    let mut manager = manager(false);
    let id = request(
        &mut manager,
        start_input(vec![AREA_RW], vec![SERVICE_CODE]),
        0,
        &mut |_| frame(0x10),
    )
    .unwrap()
    .session_id;
    let mut again = start_input(vec![AREA_RW], vec![SERVICE_CODE]);
    again.session_id = Some(id);
    let err = request(&mut manager, again, 0, &mut never).unwrap_err();
    assert_eq!(
        (err.status, err.message.as_str()),
        (400, "card_response is required to continue authentication")
    );
}

#[test]
fn a_failed_authentication_may_be_tried_again() {
    let mut manager = manager(false);
    let err = request(
        &mut manager,
        start_input(vec![AREA_RW], vec![SERVICE_CODE]),
        0,
        &mut |_| {
            Ok(Out::Error(ProtocolError::card_failure(
                "card said no".to_string(),
                Some((0xA1, 0x04)),
            )))
        },
    )
    .unwrap_err();
    assert_eq!((err.status, err.code), (400, Some(41220)));
    assert_eq!(err.message, "card said no");
    assert_eq!(manager.live_sessions(), 1);

    let mut manager = self::manager(false);
    let id = request(
        &mut manager,
        start_input(vec![AREA_RW], vec![SERVICE_CODE]),
        0,
        &mut |_| frame(0x10),
    )
    .unwrap()
    .session_id;
    request(&mut manager, card_input(&id, vec![1]), 0, &mut |_| {
        Ok(Out::Error(ProtocolError::internal("no".to_string())))
    })
    .unwrap_err();
    let mut again = start_input(vec![AREA_RW], vec![SERVICE_CODE]);
    again.session_id = Some(id);
    let response = request(&mut manager, again, 0, &mut |_| frame(0x10)).unwrap();
    assert_eq!(response.step, "auth1");
    assert_eq!(response.session_created, Some(false));
}

#[test]
fn frames_beyond_the_second_are_labelled_like_the_second() {
    let mut manager = manager(false);
    let id = request(
        &mut manager,
        start_input(vec![AREA_RW], vec![SERVICE_CODE]),
        0,
        &mut |_| frame(0x10),
    )
    .unwrap()
    .session_id;
    for _ in 0..300 {
        let response =
            request(&mut manager, card_input(&id, vec![1]), 0, &mut |_| frame(0x12)).unwrap();
        assert_eq!(response.step, "auth2");
    }
}

#[test]
fn a_silent_worker_is_an_internal_error_and_changes_nothing() {
    let mut manager = manager(false);
    let id = request(
        &mut manager,
        start_input(vec![AREA_RW], vec![SERVICE_CODE]),
        5,
        &mut |_| frame(0x10),
    )
    .unwrap()
    .session_id;
    let err = request(&mut manager, card_input(&id, vec![1]), 9, &mut |_| {
        Err(WorkerFault::Terminated)
    })
    .unwrap_err();
    assert_eq!((err.status, err.message.as_str()), (500, "session worker terminated"));
    let session = manager.get_session(&id).ok().unwrap();
    assert_eq!(session.last_seen, 5);
    assert_eq!(session.worker.borrow().expect, Expect::Card);
    assert_eq!(
        fault_error(WorkerFault::Unavailable).message,
        "session worker unavailable"
    );
}

#[test]
fn the_number_of_sessions_is_capped() {
    let mut manager: Manager = SessionManager::new(Arc::new(KeyStore::new()), false, SECOND, 2);
    for _ in 0..2 {
        request(
            &mut manager,
            start_input(vec![AREA_RW], vec![SERVICE_CODE]),
            0,
            &mut |_| frame(0x10),
        )
        .unwrap();
    }
    let err = request(
        &mut manager,
        start_input(vec![AREA_RW], vec![SERVICE_CODE]),
        0,
        &mut never,
    )
    .unwrap_err();
    assert_eq!((err.status, err.message.as_str()), (503, "too many active sessions"));
    assert_eq!(manager.live_sessions(), 2);
    let err = manager.create_session(IDM, PMM, Ok(desk()), 0).unwrap_err();
    assert_eq!(err.status, 503);
}

#[test]
fn a_worker_that_does_not_start_makes_no_session() {
    let mut manager = manager(false);
    let err = manager
        .create_session(IDM, PMM, Err("out of threads".to_string()), 0)
        .unwrap_err();
    assert_eq!(
        (err.status, err.message.as_str()),
        (500, "failed to spawn session worker: out of threads")
    );
    assert_eq!(manager.live_sessions(), 0);
}

#[test]
fn a_session_is_registered_found_and_removed() {
    let mut manager = manager(false);
    manager
        .register_session("one".to_string(), IDM, PMM, Ok(desk()), 4)
        .unwrap();
    manager
        .register_session("two".to_string(), PMM, IDM, Ok(desk()), 5)
        .unwrap();
    manager
        .register_session("one".to_string(), PMM, PMM, Ok(desk()), 6)
        .unwrap();
    assert_eq!(manager.live_sessions(), 2);
    let one = manager.get_session("one").ok().unwrap();
    assert_eq!((one.idm, one.last_seen), (PMM, 6));
    match manager.get_or_create_session(&Some("two".to_string()), &None, &None) {
        Ok(FoundSession::Existing(id)) => assert_eq!(id, "two"),
        other => panic!("unexpected {other:?}"),
    }
    match manager.get_or_create_session(&None, &Some(IDM), &Some(PMM)) {
        Ok(FoundSession::New { idm, pmm }) => assert_eq!((idm, pmm), (IDM, PMM)),
        other => panic!("unexpected {other:?}"),
    }
    manager.remove_session("one");
    manager.remove_session("three");
    assert_eq!(manager.live_sessions(), 1);
    assert!(manager.get_session("one").is_err());
    assert!(manager.get_session("two").is_ok());
    assert!(manager.keystore().system_codes().is_empty());
}

#[test]
fn idle_sessions_are_reaped() {
    let mut manager = manager(false);
    for (id, seen) in [("a", 0), ("b", 1), ("c", 40 * SECOND), ("d", 200 * SECOND)] {
        manager
            .register_session(id.to_string(), IDM, PMM, Ok(desk()), seen)
            .unwrap();
    }
    // Exactly the time to live is too long; a clock that went backwards is not.
    assert_eq!(manager.reap(60 * SECOND), 1);
    assert!(manager.get_session("a").is_err());
    assert!(manager.get_session("b").is_ok());
    assert_eq!(manager.reap(60 * SECOND), 0);
    assert_eq!(manager.reap(100 * SECOND), 2);
    assert_eq!(manager.live_sessions(), 1);
    assert!(manager.get_session("d").is_ok());
}

#[test]
fn progress_keeps_a_session_from_being_reaped() {
    let mut manager = manager(false);
    let id = request(
        &mut manager,
        start_input(vec![AREA_RW], vec![SERVICE_CODE]),
        0,
        &mut |_| frame(0x10),
    )
    .unwrap()
    .session_id;
    request(&mut manager, card_input(&id, vec![1]), 59 * SECOND, &mut |_| frame(0x12)).unwrap();
    assert_eq!(manager.reap(118 * SECOND), 0);
    assert_eq!(manager.reap(119 * SECOND), 1);
}

#[test]
fn the_reaper_rests_half_the_time_to_live_but_a_second_at_least() {
    assert_eq!(manager(false).reap_interval(), 30 * SECOND);
    let brief: Manager = SessionManager::new(Arc::new(KeyStore::new()), false, SECOND, 1);
    assert_eq!(brief.reap_interval(), SECOND);
    let odd: Manager = SessionManager::new(Arc::new(KeyStore::new()), false, 5 * SECOND + 1, 1);
    assert_eq!(odd.reap_interval(), 2_500_000_000);
}

#[test]
fn session_ids_are_sixteen_bytes_in_hexadecimal() {
    assert_eq!(
        session_id_of(&[0, 1, 2, 3, 4, 5, 6, 7, 8, 9, 10, 11, 12, 13, 14, 255]),
        "000102030405060708090a0b0c0d0eff"
    );
    let one = new_session_id();
    let two = new_session_id();
    assert_eq!(hex::decode(&one).unwrap().len(), 16);
    assert_ne!(one, two);
}

#[test]
fn read_only_lists_are_enforced() {
    assert!(enforce_read_only_nodes(&[SERVICE_RO, SERVICE_RO_NOKEY]).is_ok());
    let err = enforce_read_only_nodes(&[SERVICE_RO_NOKEY, SERVICE_CODE, SERVICE_RO]).unwrap_err();
    assert_eq!(
        (err.status, err.message.as_str()),
        (403, "service 0x0048 is not a read-only node")
    );
    let err = enforce_read_only_nodes(&[SERVICE_RO_NOKEY, SERVICE_RO]).unwrap_err();
    assert_eq!(
        (err.status, err.message.as_str()),
        (
            400,
            "service 0x008A requires a key and must be listed before key-free services"
        )
    );
    assert_eq!(enforce_read_only_nodes(&[]).unwrap_err().status, 400);
    assert_eq!(enforce_read_only_nodes(&[0xFFFF]).unwrap_err().status, 403);
}

#[test]
fn lists_must_hold_something() {
    assert_eq!(require_nonempty(Some(vec![1, 2]), "areas").unwrap(), vec![1, 2]);
    let err = require_nonempty(Some(vec![]), "areas").unwrap_err();
    assert_eq!((err.status, err.message.as_str()), (400, "areas must be a non-empty list"));
    let err = require_nonempty(None, "services").unwrap_err();
    assert_eq!(err.message, "services must be a non-empty list");
}

#[test]
fn only_status_flags_make_an_error_code() {
    let plain = ProtocolError::card_failure("no answer".to_string(), None);
    assert_eq!((plain.status, plain.code), (500, None));
    let flagged = ProtocolError::card_failure("refused".to_string(), Some((0xFF, 0xFF)));
    assert_eq!((flagged.status, flagged.code), (400, Some(0xFFFF)));
    let made = ProtocolError::new(418, "teapot".to_string());
    assert_eq!((made.status, made.message.as_str(), made.code), (418, "teapot", None));
}

#[test]
fn a_request_leaves_other_sessions_alone() {
    let mut manager = manager(true);
    manager
        .register_session("bystander".to_string(), PMM, IDM, Ok(desk()), 11)
        .unwrap();
    authenticate_beside(&mut manager);
    request(
        &mut manager,
        start_input(vec![AREA_RW], vec![SERVICE_CODE]),
        90,
        &mut never,
    )
    .unwrap_err();
    assert_eq!(manager.live_sessions(), 1);
    let bystander = manager.get_session("bystander").ok().unwrap();
    assert_eq!((bystander.idm, bystander.pmm, bystander.last_seen), (PMM, IDM, 11));
    assert_eq!(*bystander.worker.borrow(), SessionInner::new());
}

/// Starts and finishes an authentication while other sessions are in flight.
fn authenticate_beside(manager: &mut Manager) {
    let before = manager.live_sessions();
    let id = request(
        manager,
        start_input(vec![AREA_RO], vec![SERVICE_RO]),
        20,
        &mut |_| frame(0x10),
    )
    .unwrap()
    .session_id;
    assert_eq!(manager.live_sessions(), before + 1);
    assert_eq!(manager.get_session(&id).ok().unwrap().last_seen, 20);
    request(manager, card_input(&id, vec![1]), 21, &mut |_| finished()).unwrap();
    assert_eq!(manager.live_sessions(), before);
}

#[test]
fn long_term_keys_do_not_change_what_a_client_is_told() {
    let mut store = KeyStore::new();
    store.add(felica_auth_server::keystore::StoredKey {
        system_code: SYSTEM_CODE,
        node: 0xFFFF,
        idm: None,
        key: [0x5A; 8],
    });
    let mut with_keys: Manager = SessionManager::new(Arc::new(store), true, 60 * SECOND, 16);
    let mut without_keys = manager(true);
    for services in [vec![SERVICE_RO], vec![SERVICE_CODE], vec![SERVICE_RO_NOKEY]] {
        let one = request(
            &mut with_keys,
            start_input(vec![AREA_RO], services.clone()),
            0,
            &mut |_| frame(0x10),
        );
        let two = request(
            &mut without_keys,
            start_input(vec![AREA_RO], services),
            0,
            &mut |_| frame(0x10),
        );
        match (one, two) {
            (Ok(one), Ok(two)) => {
                assert_eq!(one.step, two.step);
                assert_eq!(one.command.unwrap().frame, two.command.unwrap().frame);
            }
            (Err(one), Err(two)) => {
                assert_eq!((one.status, one.message), (two.status, two.message));
            }
            _ => panic!("the keys made a difference"),
        }
    }
}
