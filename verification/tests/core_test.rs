use mbrs::Instance;
use mbrs::SerialConfig;
use mbrs::adu;
use mbrs::crc;
use mbrs::pdu;

#[test]
fn mbadu_works() {
    let mut inst = Instance { coils: None, disc_inputs: None, serial: Some(SerialConfig { slave_addr: 1 }) };

    let mut buf = [
        0x01, // Slave addr
        0x03, // Read holding regs
        0x00, 0x00, // Start addr
        0x00, 0x01, // Quantity
        0x00, 0x00, // CRC
    ];
    let c = crc::crc16(&buf[..buf.len() - 2]);
    let c = c.to_le_bytes();
    buf[6] = c[0];
    buf[7] = c[1];

    let mut res = vec![0u8; adu::SIZE_MAX];
    let res_len = adu::handle_req(&mut inst, &buf, &mut res);

    assert_eq!(res_len, 7);
}

#[test]
fn mbpdu_too_little_data() {
    let mut inst = Instance { coils: None, disc_inputs: None, serial: Some(SerialConfig { slave_addr: 1 }) };

    let buf = [0x04];
    let mut res = pdu::PDUBuf::new();
    let res_len = pdu::handle_req(&mut inst, &buf, &mut res);
    assert_eq!(res_len, 2);
    assert_eq!(res.p[0], 0x04 | 0x80); // Error response
    assert_eq!(res.p[1], 0x03); // Illegal data value
}

#[test]
fn mbcrc16_known_values() {
    let buf = [0x55, 0xAA, 0x02, 0xF0];
    let c = crc::crc16(&buf);
    assert_eq!(c, 0xEC30);
}
