use felica_auth_server::fields::{parse_block, parse_bytes, parse_code, parse_hex};
use felica_auth_server::keystore::{read_key, same_block, KeyLine, KeyStore, StoredKey};
use felica_auth_server::relay::{Out, StartAuth};
use felica_auth_server::request::{read_request, RawList, RawRequest, Scalar};
use felica_auth_server::worker::{
    run_session, secure_session_material, AuthenticatedContext, Authentication, Credentials,
    WorkerAction, WorkerPhase,
};

const IDM: [u8; 8] = [1, 2, 3, 4, 5, 6, 7, 8];
const OTHER: [u8; 8] = [8, 7, 6, 5, 4, 3, 2, 1];
const K_SYS: [u8; 8] = [0x11, 0x22, 0x33, 0x44, 0x55, 0x66, 0x77, 0x88];
const K_AREA: [u8; 8] = [0x21, 0x43, 0x65, 0x87, 0xA9, 0xCB, 0xED, 0x0F];
const K_SVC: [u8; 8] = [0xA1, 0xB2, 0xC3, 0xD4, 0xE5, 0xF6, 0x07, 0x18];

fn line(node: &str, algo: &str, idm: Option<&str>, key: &str) -> KeyLine {
    KeyLine {
        system_code: "0003".to_string(),
        node: node.to_string(),
        algo: algo.to_string(),
        idm: idm.map(str::to_string),
        key: key.to_string(),
    }
}

fn keystore() -> KeyStore {
    KeyStore::from_lines(&vec![
        line("FFFF", "DES", None, &hex::encode(K_SYS)),
        line("0080", "DES", None, &hex::encode(K_AREA)),
        line("008A", "DES", None, &hex::encode_upper(K_SVC)),
        line("00CA", "AES", None, "00112233445566778899aabbccddeeff"),
    ])
    .expect("keys should parse")
}

#[test]
fn key_lines_are_read() {
    let store = keystore();
    assert_eq!(store.lookup(3, 0xFFFF, &IDM), Some(K_SYS));
    assert_eq!(store.lookup(3, 0x0080, &IDM), Some(K_AREA));
    assert_eq!(store.lookup(3, 0x008A, &OTHER), Some(K_SVC));
    // AES records are ignored.
    assert_eq!(store.lookup(3, 0x00CA, &IDM), None);
    assert_eq!(store.lookup(4, 0x008A, &IDM), None);
    assert_eq!(store.system_codes(), vec![3]);
}

#[test]
fn unreadable_key_lines_are_named() {
    let key = "0011223344556677";
    for (bad, field) in [
        (line("FFFF", "3DES", None, key), "algo"),
        (line("1FFFF", "DES", None, key), "node"),
        (line("", "DES", None, key), "node"),
        (line("FFFF", "DES", Some("00"), key), "idm"),
        (line("FFFF", "DES", None, "00112233445566"), "key"),
        (line("FFFF", "DES", None, "00112233445566zz"), "key"),
    ] {
        let err = read_key(&bad).unwrap_err();
        assert_eq!(err.message, format!("invalid key record: {field}"));
        let all = vec![line("FFFF", "DES", None, key), bad];
        assert!(KeyStore::from_lines(&all).is_err());
    }
    let mut bad = line("FFFF", "DES", None, key);
    bad.system_code = "sys".to_string();
    assert_eq!(
        read_key(&bad).unwrap_err().message,
        "invalid key record: system_code"
    );
}

#[test]
fn a_cards_own_key_is_preferred() {
    let mut store = keystore();
    store.add(StoredKey {
        system_code: 3,
        node: 0x008A,
        idm: Some(IDM),
        key: [9; 8],
    });
    assert_eq!(store.lookup(3, 0x008A, &IDM), Some([9; 8]));
    assert_eq!(store.lookup(3, 0x008A, &OTHER), Some(K_SVC));
    // A later system-wide key does not come before it.
    store.add(StoredKey {
        system_code: 3,
        node: 0x008A,
        idm: None,
        key: [5; 8],
    });
    assert_eq!(store.lookup(3, 0x008A, &IDM), Some([9; 8]));
    assert_eq!(store.lookup(3, 0x008A, &OTHER), Some([5; 8]));
}

#[test]
fn keys_are_collected_in_the_order_of_the_request() {
    let store = keystore();
    let keys = store.keys_for(3, &IDM, &[0x0080], &[0x008A, 0x00CB]).unwrap();
    assert_eq!(keys.system, K_SYS);
    assert_eq!(keys.areas, vec![K_AREA]);
    // The service that is open without a key contributes none.
    assert_eq!(keys.services, vec![K_SVC]);
}

#[test]
fn a_node_without_a_key_is_a_bad_request() {
    let store = keystore();
    let err = store.keys_for(3, &IDM, &[0x0080, 0x0040], &[0x0048]).unwrap_err();
    assert_eq!(
        (err.status, err.message.as_str()),
        (400, "no key for node 0x0040 of system 0x0003")
    );
    let err = store.keys_for(3, &IDM, &[0x0080], &[0x008A, 0x0048]).unwrap_err();
    assert_eq!(err.message, "no key for node 0x0048 of system 0x0003");
    let err = store.keys_for(0xFE00, &IDM, &[0x0080], &[0x008A]).unwrap_err();
    assert_eq!(err.message, "no key for node 0xFFFF of system 0xFE00");
}

#[test]
fn system_codes_come_once_each() {
    let mut store = KeyStore::new();
    for (system_code, node, idm) in [
        (5, 0xFFFF, None),
        (3, 0xFFFF, None),
        (5, 0xFFFF, Some(IDM)),
        (7, 0x0080, None),
    ] {
        store.add(StoredKey {
            system_code,
            node,
            idm,
            key: K_SYS,
        });
    }
    assert_eq!(store.system_codes(), vec![5, 3]);
}

#[test]
fn numbers_are_decimal_or_hexadecimal_behind_0x() {
    assert_eq!(parse_code("0x0048"), Some(0x48));
    assert_eq!(parse_code("0xFfFf"), Some(0xFFFF));
    assert_eq!(parse_code("3"), Some(3));
    assert_eq!(parse_code("65535"), Some(65535));
    assert_eq!(parse_code("0000000065535"), Some(65535));
    for bad in ["", "0x", "65536", "0x10000", "99999999999999999999", "12a", "-1", "+1", " 1", "é"] {
        assert_eq!(parse_code(bad), None, "{bad}");
    }
    assert_eq!(parse_hex("FE00"), Some(0xFE00));
    assert_eq!(parse_hex("10"), Some(16));
    assert_eq!(parse_hex("0x10"), None);
    assert_eq!(parse_hex("fffff"), None);
}

#[test]
fn bytes_are_read_from_hexadecimal() {
    assert_eq!(parse_bytes("00fFA5"), Some(vec![0x00, 0xFF, 0xA5]));
    assert_eq!(parse_bytes(""), Some(vec![]));
    assert_eq!(parse_bytes("0"), None);
    assert_eq!(parse_bytes("éa"), None);
    assert_eq!(parse_bytes("0g"), None);
    assert_eq!(parse_block("0102030405060708"), Some(IDM));
    assert_eq!(parse_block("01020304050607"), None);
    assert_eq!(parse_block("010203040506070809"), None);
    assert!(same_block(&IDM, &[1, 2, 3, 4, 5, 6, 7, 8]));
    assert!(!same_block(&IDM, &OTHER));
}

fn next(phase: WorkerPhase<u32>) -> WorkerAction<u32> {
    run_session(&keystore(), &IDM, phase)
}

fn start(services: Vec<u16>) -> StartAuth {
    StartAuth {
        system_code: 3,
        areas: vec![0x0080],
        services,
    }
}

#[test]
fn a_worker_polls_then_waits() {
    match next(WorkerPhase::Started) {
        WorkerAction::Poll {
            target,
            system_code,
            request_code,
            time_slots,
        } => {
            assert_eq!(target, "212F");
            assert_eq!((system_code, request_code, time_slots), (0xFFFF, 0, 0));
        }
        _ => panic!("a poll was due"),
    }
    assert!(matches!(
        next(WorkerPhase::Polled(Ok(()))),
        WorkerAction::AwaitRequest
    ));
    let failed = felica_auth_server::error::ProtocolError::internal("no card".to_string());
    match next(WorkerPhase::Polled(Err(failed))) {
        WorkerAction::Stop {
            last: Some(Out::Error(err)),
        } => assert_eq!((err.status, err.message.as_str()), (500, "no card")),
        _ => panic!("the worker should end"),
    }
    assert!(matches!(
        next(WorkerPhase::Requested(None)),
        WorkerAction::Stop { last: None }
    ));
}

#[test]
fn a_worker_authenticates_nodes_with_keys_only() {
    match next(WorkerPhase::Requested(Some(start(vec![0x008A])))) {
        WorkerAction::DeriveKeys { request, keys } => {
            assert_eq!(request.services, vec![0x008A]);
            assert_eq!(keys.services, vec![K_SVC]);
        }
        _ => panic!("keys were due"),
    }
    match next(WorkerPhase::Requested(Some(start(vec![0x0048])))) {
        WorkerAction::Report {
            out: Out::Error(err),
            clear_context,
        } => {
            assert_eq!(err.status, 400);
            assert!(!clear_context);
        }
        _ => panic!("an error was due"),
    }
    match next(WorkerPhase::KeysDerived {
        request: start(vec![0x008A]),
        derived: Ok(17),
    }) {
        WorkerAction::Authenticate { request, derived } => {
            assert_eq!(request.areas, vec![0x0080]);
            assert_eq!(derived, 17);
        }
        _ => panic!("the authentication was due"),
    }
}

#[test]
fn a_worker_reports_the_session_material_and_drops_it() {
    let context = AuthenticatedContext {
        credentials: Credentials::Des([7; 8]),
        transaction_id: [1, 2, 3, 4, 5, 6],
        transaction_number: 258,
    };
    match next(WorkerPhase::Authenticated(Ok(Authentication {
        issue_id: [1; 8],
        issue_parameter: [2; 8],
        context: Some(context),
    }))) {
        WorkerAction::Report {
            out:
                Out::AuthComplete {
                    issue_id,
                    issue_parameter,
                    session,
                },
            clear_context,
        } => {
            assert_eq!((issue_id, issue_parameter), ([1; 8], [2; 8]));
            assert_eq!(session.key, [7; 8]);
            assert_eq!(session.transaction_id, [1, 2, 3, 4, 5, 6]);
            assert_eq!(session.transaction_number, 258);
            assert!(clear_context);
        }
        _ => panic!("a report was due"),
    }
    let failed = felica_auth_server::error::ProtocolError::bad_request("refused".to_string());
    match next(WorkerPhase::Authenticated(Err(failed))) {
        WorkerAction::Report {
            out: Out::Error(err),
            clear_context,
        } => {
            assert_eq!(err.message, "refused");
            assert!(clear_context);
        }
        _ => panic!("a report was due"),
    }
}

#[test]
fn only_a_des_session_is_handed_on() {
    let err = secure_session_material(None).unwrap_err();
    assert_eq!(
        (err.status, err.message.as_str()),
        (500, "authenticated context missing after mutual authentication")
    );
    let err = secure_session_material(Some(AuthenticatedContext {
        credentials: Credentials::Other,
        transaction_id: [0; 6],
        transaction_number: 0,
    }))
    .unwrap_err();
    assert_eq!(
        (err.status, err.message.as_str()),
        (500, "unexpected secure session scheme (expected DES)")
    );
}

fn text(value: &str) -> Option<Scalar> {
    Some(Scalar::Text(value.to_string()))
}

fn raw() -> RawRequest {
    RawRequest {
        session_id: None,
        idm: None,
        pmm: None,
        system_code: None,
        areas: None,
        services: None,
        card_response: None,
    }
}

#[test]
fn a_start_request_is_read() {
    let input = read_request(&RawRequest {
        idm: text("0101010101010101"),
        pmm: text("0100000000000000"),
        system_code: text("0x0003"),
        areas: Some(RawList::Items(vec![Scalar::Text("0x0000".to_string())])),
        services: Some(RawList::Items(vec![
            Scalar::Text("0x0048".to_string()),
            Scalar::Text("72".to_string()),
            Scalar::Number(65535),
        ])),
        ..raw()
    })
    .unwrap();
    assert_eq!(input.session_id, None);
    assert_eq!(input.idm, Some([1; 8]));
    assert_eq!(input.pmm, Some([1, 0, 0, 0, 0, 0, 0, 0]));
    assert_eq!(input.system_code, Some(3));
    assert_eq!(input.areas, Some(vec![0]));
    assert_eq!(input.services, Some(vec![0x48, 72, 0xFFFF]));
    assert_eq!(input.card_response, None);
}

#[test]
fn a_card_response_is_read() {
    let input = read_request(&RawRequest {
        session_id: text("abc"),
        card_response: text("0C11ff"),
        ..raw()
    })
    .unwrap();
    assert_eq!(input.session_id.as_deref(), Some("abc"));
    assert_eq!(input.card_response, Some(vec![0x0C, 0x11, 0xFF]));
    assert_eq!(input.areas, None);
}

#[test]
fn unreadable_fields_are_named() {
    for (bad, message) in [
        (
            RawRequest { session_id: Some(Scalar::Number(1)), ..raw() },
            "session_id must be a string",
        ),
        (RawRequest { idm: text("01"), ..raw() }, "idm must be an 8-byte hex string"),
        (
            RawRequest { pmm: Some(Scalar::Other), ..raw() },
            "pmm must be an 8-byte hex string",
        ),
        (
            RawRequest { system_code: Some(Scalar::Number(65536)), ..raw() },
            "system_code must be a 16-bit integer",
        ),
        (
            RawRequest { areas: Some(RawList::Other), ..raw() },
            "areas must be a list of 16-bit integers",
        ),
        (
            RawRequest {
                services: Some(RawList::Items(vec![Scalar::Number(1), Scalar::Other])),
                ..raw()
            },
            "services must be a list of 16-bit integers",
        ),
        (
            RawRequest { card_response: text("0"), ..raw() },
            "card_response must be a hex string",
        ),
    ] {
        let err = read_request(&bad).unwrap_err();
        assert_eq!((err.status, err.message.as_str()), (400, message));
    }
}
