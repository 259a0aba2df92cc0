//! Networked framing: a fixed header carrying a transaction identifier, a
//! protocol identifier, a length and a unit identifier, all big-endian,
//! over a stream or packet transport.

use vstd::prelude::*;

use crate::Instance;
use crate::def::be16;
use crate::def::lemma_u16_bytes_roundtrip;
use crate::def::u16_from_be;
use crate::pdu;
use crate::pdu::PDUBuf;
use crate::pdu::inst_evolves;
use crate::pdu::response_spec;

verus! {

/// Size of the fixed header: transaction id, protocol id and length, two
/// big-endian bytes each, then the unit id.
pub const MBAP_SIZE: usize = 7;

/// The only protocol identifier this engine speaks.
pub const PROT_ID: u16 = 0;

/// The maximum size of a networked frame: the header plus a full PDU.
pub const SIZE_MAX: usize = 260;

/// Conventional default port, stated for interoperability only; the
/// transport itself is the host's concern.
pub const TCP_PORT: usize = 502;

/// Whether a received frame's header admits it: room for the header and a
/// function code, protocol id 0, and a length field of at least 1 that
/// fits the maximum PDU and the bytes actually received.
pub open spec fn header_ok(frame: Seq<u8>) -> bool {
    &&& frame.len() >= MBAP_SIZE + 1
    &&& be16(frame[2], frame[3]) == PROT_ID
    &&& be16(frame[4], frame[5]) >= 1
    &&& be16(frame[4], frame[5]) - 1 <= pdu::SIZE_MAX
    &&& frame.len() >= be16(frame[4], frame[5]) - 1 + MBAP_SIZE
}

/// The PDU inside a frame: the `length - 1` bytes after the header.
pub open spec fn inner_pdu(frame: Seq<u8>) -> Seq<u8> {
    frame.subrange(MBAP_SIZE as int, MBAP_SIZE + be16(frame[4], frame[5]) - 1)
}

/// The full response frame: the request's transaction id, protocol id and
/// unit id, a length field covering unit id plus response PDU, then the
/// response PDU.
pub open spec fn tcp_response(inst: Instance, frame: Seq<u8>) -> Seq<u8> {
    let resp = response_spec(inst, inner_pdu(frame));
    let len16 = (1 + resp.len()) as u16;
    seq![
        frame[0],
        frame[1],
        frame[2],
        frame[3],
        (len16 >> 8) as u8,
        (len16 & 0xFF) as u8,
        frame[6],
    ] + resp
}

/// Handles one received networked frame into `res` and reports the number
/// of response bytes; 0 means "produce no reply".
///
/// A frame is silently dropped when it cannot hold the header and a
/// function code, its protocol id is not 0, or its length field is 0, too
/// large for a PDU, or larger than what was received. The response header
/// always echoes the request's transaction id, protocol id and unit id,
/// and declares the length of unit id plus response PDU.
pub fn handle_req(inst: &mut Instance, buf: &[u8], res: &mut Vec<u8>) -> (n: usize)
    requires
        old(inst).wf(),
        old(res).len() == SIZE_MAX,
    ensures
        final(inst).wf(),
        final(res)@.len() == old(res)@.len(),
        n == 0 ==> final(res)@ == old(res)@,
        buf@.len() < MBAP_SIZE + 1 ==> n == 0,
        !header_ok(buf@) ==> n == 0 && *final(inst) == *old(inst) && final(res)@ == old(res)@,
        header_ok(buf@) ==> inst_evolves(*old(inst), *final(inst), inner_pdu(buf@)),
        header_ok(buf@) && response_spec(*old(inst), inner_pdu(buf@)).len() == 0 ==> n == 0,
        header_ok(buf@) && response_spec(*old(inst), inner_pdu(buf@)).len() > 0 ==> {
            let resp = response_spec(*old(inst), inner_pdu(buf@));
            &&& n == MBAP_SIZE + resp.len()
            &&& final(res)@.take(n as int) == tcp_response(*old(inst), buf@)
            &&& final(res)@[0] == buf@[0]
            &&& final(res)@[1] == buf@[1]
            &&& final(res)@[2] == buf@[2]
            &&& final(res)@[3] == buf@[3]
            &&& final(res)@[6] == buf@[6]
            &&& be16(final(res)@[4], final(res)@[5]) == 1 + resp.len()
        },
{
    if buf.len() < MBAP_SIZE + 1 {
        return 0;
    }
    let protocol_id = u16_from_be(buf[2], buf[3]);
    let length = u16_from_be(buf[4], buf[5]) as usize;
    if protocol_id != PROT_ID {
        return 0;
    }
    if length < 1 || length - 1 > pdu::SIZE_MAX || buf.len() < length - 1 + MBAP_SIZE {
        return 0;
    }
    let mut pdu_res = PDUBuf::new();
    let pdu_size = pdu::handle_req(inst, &buf[MBAP_SIZE..MBAP_SIZE + length - 1], &mut pdu_res);
    if pdu_size == 0 {
        return 0;
    }
    res[0] = buf[0];
    res[1] = buf[1];
    res[2] = buf[2];
    res[3] = buf[3];
    let len16: u16 = 1 + (pdu_size as u16);
    res[4] = (len16 >> 8) as u8;
    res[5] = (len16 & 0xFF) as u8;
    res[6] = buf[6];
    let mut i: usize = 0;
    while i < pdu_size
        invariant
            i <= pdu_size,
            pdu_size <= pdu::SIZE_MAX,
            pdu_res.wf(),
            res@.len() == SIZE_MAX,
            res@[0] == buf@[0],
            res@[1] == buf@[1],
            res@[2] == buf@[2],
            res@[3] == buf@[3],
            res@[4] == (len16 >> 8) as u8,
            res@[5] == (len16 & 0xFF) as u8,
            res@[6] == buf@[6],
            forall|m: int| 0 <= m < i ==> res@[MBAP_SIZE + m] == pdu_res.p@[m],
        decreases pdu_size - i,
    {
        res[MBAP_SIZE + i] = pdu_res.p[i];
        i += 1;
    }
    proof {
        lemma_u16_bytes_roundtrip(len16);
        assert(res@.take((MBAP_SIZE + pdu_size) as int) =~= tcp_response(*old(inst), buf@));
    }
    MBAP_SIZE + pdu_size
}

} // verus!
