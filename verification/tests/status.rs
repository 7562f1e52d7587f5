use network_launcher::discovery::{Notification, Outcome, PortDiscovery};
use network_launcher::status::{
    status_file_contents, StatusRecord, MAX_PRINCIPAL_BYTES, STATUS_FILE_NAME, STATUS_VERSION,
};

#[test]
fn record_of_a_configured_instance() {
    let root_key = [0x30u8, 0x81, 0x82, 0x00, 0xff, 0x0a];
    let record = StatusRecord::new(3, 4943, 8080, &root_key, &[4]).unwrap();
    assert_eq!(
        record,
        StatusRecord {
            v: "1".to_string(),
            instance_id: 3,
            config_port: 4943,
            gateway_port: 8080,
            root_key: "30818200ff0a".to_string(),
            default_effective_canister_id: "2vxsx-fae".to_string(),
        }
    );
}

#[test]
fn status_holds_the_discovered_port_and_the_whole_key() {
    let mut session = PortDiscovery::new();
    let discovered = match session.notify(&Notification::Contents("51234\n".to_string())) {
        Some(Outcome::Port(port)) => port,
        other => panic!("no port: {:?}", other),
    };
    let root_key: Vec<u8> = (0..133u32).map(|i| (i * 7 % 256) as u8).collect();
    let record = StatusRecord::new(0, discovered, 8000, &root_key, &[]).unwrap();
    assert_eq!(record.config_port, 51234);
    assert_eq!(record.root_key.len(), 2 * root_key.len());
    assert_eq!(hex::decode(&record.root_key).unwrap(), root_key);
    assert_eq!(record.v, STATUS_VERSION);
}

#[test]
fn hexadecimal_is_lower_case_with_two_digits_a_byte() {
    let record = StatusRecord::new(0, 1, 2, &[0x00, 0x01, 0x0f, 0x10, 0xab, 0xcd, 0xef, 0xff], &[]).unwrap();
    assert_eq!(record.root_key, "00010f10abcdefff");
    let empty = StatusRecord::new(0, 1, 2, &[], &[]).unwrap();
    assert_eq!(empty.root_key, "");
}

#[test]
fn every_byte_in_hexadecimal() {
    let mut byte: u32 = 0;
    while byte < 256 {
        let record = StatusRecord::new(0, 1, 2, &[byte as u8], &[]).unwrap();
        assert_eq!(record.root_key, format!("{:02x}", byte));
        byte += 1;
    }
}

#[test]
fn canister_as_text() {
    let management = StatusRecord::new(0, 1, 2, &[], &[]).unwrap();
    assert_eq!(management.default_effective_canister_id, "aaaaa-aa");
    let anonymous = StatusRecord::new(0, 1, 2, &[], &[4]).unwrap();
    assert_eq!(anonymous.default_effective_canister_id, "2vxsx-fae");
    let canister = [0u8, 0, 0, 0, 0, 0, 0, 1, 1, 1];
    let record = StatusRecord::new(0, 1, 2, &[], &canister).unwrap();
    assert_eq!(
        ic_principal::Principal::from_text(&record.default_effective_canister_id)
            .unwrap()
            .as_slice(),
        &canister[..]
    );
    assert_ne!(record.default_effective_canister_id, "aaaaa-aa");
}

#[test]
fn canister_that_is_too_long() {
    assert_eq!(MAX_PRINCIPAL_BYTES, 29);
    assert!(StatusRecord::new(0, 1, 2, &[], &[7u8; 29]).is_some());
    assert_eq!(StatusRecord::new(0, 1, 2, &[], &[7u8; 30]), None);
    assert_eq!(StatusRecord::new(0, 1, 2, &[1, 2], &[0u8; 64]), None);
}

#[test]
fn assembling_from_text() {
    let record = StatusRecord::assemble(9, 10, 11, "ab".to_string(), "aaaaa-aa".to_string());
    assert_eq!(record.v, "1");
    assert_eq!(record.instance_id, 9);
    assert_eq!(record.config_port, 10);
    assert_eq!(record.gateway_port, 11);
    assert_eq!(record.root_key, "ab");
    assert_eq!(record.default_effective_canister_id, "aaaaa-aa");
}

#[test]
fn file_contents_end_with_a_line_feed() {
    assert_eq!(status_file_contents("{\"v\":\"1\"}".to_string()), "{\"v\":\"1\"}\n");
    assert_eq!(status_file_contents(String::new()), "\n");
    assert_eq!(STATUS_FILE_NAME, "status.json");
}
