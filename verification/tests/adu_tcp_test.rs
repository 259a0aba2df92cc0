use mbrs::Instance;
use mbrs::adu_tcp;
use mbrs::coil::Descriptor;
use mbrs::coil::ReadMethod;

fn be16(buf: &[u8]) -> u16 {
    u16::from_be_bytes([buf[0], buf[1]])
}

#[test]
fn adu_tcp_works() {
    let coils = vec![
        Descriptor { address: 0x00, read: Some(ReadMethod::Value(true)), ..Default::default() },
        Descriptor { address: 0x01, read: Some(ReadMethod::Cell), cell: false, ..Default::default() },
        Descriptor { address: 0x02, read: Some(ReadMethod::Value(true)), ..Default::default() },
    ];
    let mut inst = Instance { coils: Some(coils), ..Default::default() };

    let buf = [
        0x00, 0x01, // Transaction id
        0x00, 0x00, // Protocol id
        0x00, 0x06, // Length
        0x01, // Unit id
        0x01, // Fc: Read coils
        0x00, 0x00, // Start address
        0x00, 0x03, // Quantity
    ];
    let mut res = vec![0u8; adu_tcp::SIZE_MAX];
    let res_len = adu_tcp::handle_req(&mut inst, &buf, &mut res);
    assert_eq!(res_len, 10);
    assert_eq!(be16(&res), 0x0001); // Transaction id
    assert_eq!(be16(&res[2..]), 0x0000); // Protocol id
    assert_eq!(be16(&res[4..]), 0x0004); // Length
    assert_eq!(res[6], 0x01); // Unit id
    assert_eq!(res[7], 0x01); // Function code
    assert_eq!(res[8], 0x01); // Byte count
    assert_eq!(res[9], 0b0101); // Data
}

#[test]
fn adu_tcp_undersized_request_fails() {
    let mut inst: Instance = Default::default();

    let buf = [
        0x00, 0x01, // Transaction id
        0x00, 0x00, // Protocol id
        0x00, 0x06, // Length
        0x01, // Unit id
              // Missing function code and data
    ];
    let mut res = vec![0u8; adu_tcp::SIZE_MAX];
    let res_len = adu_tcp::handle_req(&mut inst, &buf, &mut res);
    assert_eq!(res_len, 0);
}

#[test]
fn adu_tcp_invaid_protocol_id_fails() {
    let mut inst: Instance = Default::default();

    let buf = [
        0x00, 0x01, // Transaction id
        0x00, 0x01, // Invalid protocol id (should be 0x0000)
        0x00, 0x06, // Length
        0x01, // Unit id
        0x01, // Fc: Read coils
        0x00, 0x00, // Start address
        0x00, 0x03, // Quantity
    ];
    let mut res = vec![0u8; adu_tcp::SIZE_MAX];
    let res_len = adu_tcp::handle_req(&mut inst, &buf, &mut res);
    assert_eq!(res_len, 0);
}

#[test]
fn adu_tcp_transaction_id_echoed_works() {
    let mut inst: Instance = Default::default();

    let buf = [
        0x00, 0x01, // Transaction id
        0x00, 0x00, // Protocol id
        0x00, 0x06, // Length
        0x01, // Unit id
        0x01, // Fc: Read coils
        0x00, 0x00, // Start address
        0x00, 0x03, // Quantity
    ];
    let mut res = vec![0u8; adu_tcp::SIZE_MAX];
    let res_len = adu_tcp::handle_req(&mut inst, &buf, &mut res);
    assert!(res_len > adu_tcp::MBAP_SIZE);
    assert_eq!(be16(&res), 0x0001); // Transaction id
}

#[test]
fn adu_tcp_protocol_id_echoed_works() {
    let mut inst: Instance = Default::default();

    let buf = [
        0x00, 0x01, // Transaction id
        0x00, 0x00, // Protocol id
        0x00, 0x06, // Length
        0x01, // Unit id
        0x01, // Fc: Read coils
        0x00, 0x00, // Start address
        0x00, 0x03, // Quantity
    ];
    let mut res = vec![0u8; adu_tcp::SIZE_MAX];
    let res_len = adu_tcp::handle_req(&mut inst, &buf, &mut res);
    assert!(res_len > adu_tcp::MBAP_SIZE);
    assert_eq!(be16(&res[2..]), 0x0000); // Protocol id
}

#[test]
fn adu_tcp_unit_id_echoed_works() {
    let mut inst: Instance = Default::default();

    let buf = [
        0x00, 0x01, // Transaction id
        0x00, 0x00, // Protocol id
        0x00, 0x06, // Length
        0x55, // Unit id
        0x01, // Fc: Read coils
        0x00, 0x00, // Start address
        0x00, 0x03, // Quantity
    ];
    let mut res = vec![0u8; adu_tcp::SIZE_MAX];
    let res_len = adu_tcp::handle_req(&mut inst, &buf, &mut res);
    assert!(res_len > adu_tcp::MBAP_SIZE);
    assert_eq!(res[6], 0x55); // Unit id
}

#[test]
fn adu_tcp_zero_size_fails() {
    let mut inst: Instance = Default::default();

    let buf: &[u8] = &[];
    let mut res = vec![0u8; adu_tcp::SIZE_MAX];
    let res_len = adu_tcp::handle_req(&mut inst, buf, &mut res);
    assert_eq!(res_len, 0);
}

#[test]
fn adu_tcp_min_size_works() {
    let mut inst: Instance = Default::default();

    let buf = [
        0x00, 0x01, // Transaction id
        0x00, 0x00, // Protocol id
        0x00, 0x06, // Length
        0x55, // Unit id
        0x01, // Fc: Read coils
    ];
    let mut res = vec![0u8; adu_tcp::SIZE_MAX];
    let res_len = adu_tcp::handle_req(&mut inst, &buf, &mut res);
    assert_eq!(res_len, 0);
}
