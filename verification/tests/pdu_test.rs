use mbrs::Instance;
use mbrs::coil::Descriptor;
use mbrs::coil::ReadMethod;
use mbrs::coil::WriteMethod;
use mbrs::pdu;

#[test]
fn pdu_test_pdu_too_little_data() {
    let mut inst: Instance = Default::default();

    let buf = [0x04];
    let mut res = pdu::PDUBuf::new();
    let res_len = pdu::handle_req(&mut inst, &buf, &mut res);
    assert_eq!(res_len, 2);
    assert_eq!(res.p[0], 0x04 | 0x80); // Error response
    assert_eq!(res.p[1], 0x03); // Illegal data value
}

#[test]
fn pdu_test_pdu_read_coil_works() {
    let coil2 = true;

    let coils = vec![
        Descriptor { address: 0x00, read: Some(ReadMethod::Value(true)), ..Default::default() },
        Descriptor { address: 0x01, read: Some(ReadMethod::Cell), cell: false, ..Default::default() },
        Descriptor { address: 0x02, read: Some(ReadMethod::Cell), cell: coil2, ..Default::default() },
    ];
    let mut inst = Instance { coils: Some(coils), ..Default::default() };

    let buf = [
        0x01, // Fc: Read coils
        0x00, 0x00, // Start address
        0x00, 0x03, // Quantity
    ];
    let mut res = pdu::PDUBuf::new();
    let res_len = pdu::handle_req(&mut inst, &buf, &mut res);
    assert_eq!(res_len, 3);
    assert_eq!(res.p[0], 0x01);
    assert_eq!(res.p[1], 0x01);
    assert_eq!(res.p[2], 0b0101);
}

#[test]
fn pdu_test_pdu_write_single_coil_fn_works() {
    let coil1 = false;

    let coils = vec![
        Descriptor { address: 0x00, write: Some(WriteMethod::Cell), cell: coil1, ..Default::default() },
    ];
    let _inst = Instance { coils: Some(coils), ..Default::default() };
}
