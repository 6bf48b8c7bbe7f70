use r502::responses::SystemParameters;

fn params_with_status(status_register: u16) -> SystemParameters {
    SystemParameters {
        status_register,
        system_identifier_code: 0x0009,
        finger_library_size: 200,
        security_level: 3,
        device_address: 0xffff_ffff,
        packet_size: 2,
        baud_setting: 2,
    }
}

#[test]
fn busy_bit_alone_sets_only_busy() {
    let p = params_with_status(0x0001);
    assert!(p.busy());
    assert!(!p.has_finger_match());
    assert!(!p.password_ok());
    assert!(!p.has_valid_image());
}

#[test]
fn each_flag_bit_sets_only_its_predicate() {
    let p = params_with_status(0x0002);
    assert!(!p.busy());
    assert!(p.has_finger_match());
    assert!(!p.password_ok());
    assert!(!p.has_valid_image());
    let p = params_with_status(0x0004);
    assert!(!p.busy());
    assert!(!p.has_finger_match());
    assert!(p.password_ok());
    assert!(!p.has_valid_image());
    let p = params_with_status(0x0008);
    assert!(!p.busy());
    assert!(!p.has_finger_match());
    assert!(!p.password_ok());
    assert!(p.has_valid_image());
}

#[test]
fn all_four_flag_bits_set_all_predicates() {
    let p = params_with_status(0x000f);
    assert!(p.busy());
    assert!(p.has_finger_match());
    assert!(p.password_ok());
    assert!(p.has_valid_image());
}

#[test]
fn cleared_register_sets_no_predicate() {
    let p = params_with_status(0x0000);
    assert!(!p.busy());
    assert!(!p.has_finger_match());
    assert!(!p.password_ok());
    assert!(!p.has_valid_image());
}

#[test]
fn reserved_high_bits_do_not_disturb_the_predicates() {
    let p = params_with_status(0xfff0);
    assert!(!p.busy());
    assert!(!p.has_finger_match());
    assert!(!p.password_ok());
    assert!(!p.has_valid_image());
    let p = params_with_status(0xfff5);
    assert!(p.busy());
    assert!(!p.has_finger_match());
    assert!(p.password_ok());
    assert!(!p.has_valid_image());
}

#[test]
fn body_decoder_reads_each_field_at_its_offset() {
    let body: [u8; 16] = [
        0x00, 0x05, // status register
        0x00, 0x09, // system identifier code
        0x03, 0xe8, // finger library size
        0x00, 0x05, // security level
        0x12, 0x34, 0x56, 0x78, // device address
        0x00, 0x01, // packet size
        0x00, 0x0c, // baud setting bytes
    ];
    let p = SystemParameters::from_payload(&body[..]);
    assert_eq!(p.status_register, 0x0005);
    assert_eq!(p.system_identifier_code, 0x0009);
    assert_eq!(p.finger_library_size, 1000);
    assert_eq!(p.security_level, 5);
    assert_eq!(p.device_address, 0x1234_5678);
    assert_eq!(p.packet_size, 1);
    // The overlapping layout reads baud_setting from the packet-size bytes.
    assert_eq!(p.baud_setting, 1);
}
