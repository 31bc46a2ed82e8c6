use felica_auth_server::policy::{check_service_list_shape, is_read_only_service, requires_key};

#[test]
fn read_only_attributes_are_accepted_with_and_without_key() {
    for attributes in [0b001010, 0b001011, 0b001110, 0b001111, 0b010110, 0b010111] {
        let code = (0x0001 << 6) | attributes;
        assert!(
            is_read_only_service(code),
            "0x{code:04X} (attr {attributes:06b}) should be read-only"
        );
    }
}

#[test]
fn writable_and_purse_mutating_attributes_are_rejected() {
    // read/write (random & cyclic), purse direct / cashback / decrement.
    for attributes in [
        0b001000, 0b001001, 0b001100, 0b001101, 0b010000, 0b010001, 0b010010, 0b010011, 0b010100,
        0b010101,
    ] {
        let code = (0x0001 << 6) | attributes;
        assert!(
            !is_read_only_service(code),
            "0x{code:04X} (attr {attributes:06b}) should not be read-only"
        );
    }
}

#[test]
fn area_codes_are_not_read_only_services() {
    // Area codes carry attribute 0b000000 and must never pass the check.
    assert!(!is_read_only_service(0x0000));
    assert!(!is_read_only_service(0x1000));
}

#[test]
fn service_list_shape_matches_the_card_rules() {
    // 0x008A requires a key, 0x00CB does not.
    assert!(check_service_list_shape(&[0x008A]).is_ok());
    assert!(check_service_list_shape(&[0x008A, 0x00CB]).is_ok());
    assert!(check_service_list_shape(&[0xFFFF]).is_ok());

    // Key-free only: nothing to authenticate with.
    let err = check_service_list_shape(&[0x00CB]).unwrap_err();
    assert!(err.contains("at least one node that requires a key"));

    // Key-requiring node after a key-free one.
    let err = check_service_list_shape(&[0x00CB, 0x008A]).unwrap_err();
    assert!(err.contains("must be listed before key-free services"));

    let err = check_service_list_shape(&[]).unwrap_err();
    assert!(err.contains("at least one node that requires a key"));
}

#[test]
fn shape_errors_are_worded_in_full() {
    assert_eq!(
        check_service_list_shape(&[0x00CB, 0x008A, 0x0048]).unwrap_err(),
        "service 0x008A requires a key and must be listed before key-free services"
    );
    assert_eq!(
        check_service_list_shape(&[0x0048, 0x00CB, 0xFFFF]).unwrap_err(),
        "service 0xFFFF requires a key and must be listed before key-free services"
    );
    assert_eq!(
        check_service_list_shape(&[0x00CB, 0x000B]).unwrap_err(),
        "services must include at least one node that requires a key"
    );
}

#[test]
fn a_keyed_head_and_a_key_free_tail_is_accepted() {
    assert!(check_service_list_shape(&[0x008A, 0xFFFF, 0x0048, 0x00CB, 0x000B]).is_ok());
    assert!(check_service_list_shape(&[0x008A, 0x00CB, 0x0048]).is_err());
}

#[test]
fn read_only_does_not_depend_on_the_key_bit() {
    for pair in 0..0x8000u16 {
        assert_eq!(
            is_read_only_service(2 * pair),
            is_read_only_service(2 * pair + 1)
        );
    }
}

#[test]
fn six_attributes_of_sixty_four_are_read_only() {
    let found: Vec<u16> = (0..64).filter(|code| is_read_only_service(*code)).collect();
    assert_eq!(found, vec![0b001010, 0b001011, 0b001110, 0b001111, 0b010110, 0b010111]);
}

#[test]
fn the_system_node_requires_a_key_and_is_not_read_only() {
    assert!(requires_key(0xFFFF));
    assert!(!is_read_only_service(0xFFFF));
    assert!(requires_key(0x008A));
    assert!(!requires_key(0x00CB));
}
