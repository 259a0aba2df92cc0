//! Serial framing: one address byte, the PDU, and a little-endian checksum
//! trailer, over a multi-drop byte-oriented link.

use vstd::prelude::*;

use crate::Instance;
use crate::crc::crc16;
use crate::crc::crc16_spec;
use crate::def::le16;
use crate::def::u16_from_le;
use crate::pdu;
use crate::pdu::PDUBuf;
use crate::pdu::inst_evolves;
use crate::pdu::response_spec;

verus! {

/// The minimum size of a valid serial frame: address byte, function code,
/// two checksum bytes.
pub const SIZE_MIN: usize = 4;

/// The maximum size of a serial frame: address byte, 253 PDU bytes, two
/// checksum bytes.
pub const SIZE_MAX: usize = 256;

/// Smallest assignable device address.
pub const SLAVE_ADDR_MIN: u8 = 1;

/// Largest assignable device address.
pub const SLAVE_ADDR_MAX: u8 = 247;

/// All devices process a frame sent here; none replies.
pub const SLAVE_ADDR_BROADCAST: u8 = 0;

/// Reserved default-response address used for testing; never answered on
/// the bus.
pub const SLAVE_ADDR_DEFAULT_RESP: u8 = 248;

/// Whether a frame's address byte selects this device: its configured
/// address, broadcast, or the reserved default-response address.
pub open spec fn addr_accepted(inst: Instance, a: u8) -> bool
    recommends
        inst.serial is Some,
{
    ||| a == inst.serial->Some_0.slave_addr
    ||| a == SLAVE_ADDR_BROADCAST
    ||| a == SLAVE_ADDR_DEFAULT_RESP
}

/// Whether a received frame is processed at all: serial configured, minimum
/// size, intact checksum, and an accepted address.
pub open spec fn frame_ok(inst: Instance, frame: Seq<u8>) -> bool {
    &&& inst.serial is Some
    &&& frame.len() >= SIZE_MIN
    &&& le16(frame[frame.len() - 2], frame[frame.len() - 1]) == crc16_spec(
        frame.take(frame.len() - 2),
    )
    &&& addr_accepted(inst, frame[0])
}

/// The PDU inside a frame: everything between the address byte and the
/// checksum trailer.
pub open spec fn inner_pdu(frame: Seq<u8>) -> Seq<u8> {
    frame.subrange(1, frame.len() - 2)
}

/// The full response frame: the received address byte, the response PDU,
/// and the little-endian checksum of both.
pub open spec fn serial_response(inst: Instance, frame: Seq<u8>) -> Seq<u8> {
    let body = seq![frame[0]] + response_spec(inst, inner_pdu(frame));
    let c = crc16_spec(body);
    body + seq![(c & 0xFF) as u8, (c >> 8) as u8]
}

/// Assembles the response frame: address byte, the PDU bytes, and the
/// checksum over both, little-endian.
fn prep_res(slave_addr: u8, pdu_res: &PDUBuf, pdu_size: usize, res: &mut Vec<u8>) -> (n: usize)
    requires
        pdu_res.wf(),
        pdu_size <= pdu::SIZE_MAX,
        old(res).len() == SIZE_MAX,
    ensures
        final(res)@.len() == old(res)@.len(),
        n == 3 + pdu_size,
        final(res)@.take(n as int) == ({
            let body = seq![slave_addr] + pdu_res.p@.take(pdu_size as int);
            let c = crc16_spec(body);
            body + seq![(c & 0xFF) as u8, (c >> 8) as u8]
        }),
{
    res[0] = slave_addr;
    let mut i: usize = 0;
    while i < pdu_size
        invariant
            i <= pdu_size,
            pdu_size <= pdu::SIZE_MAX,
            pdu_res.wf(),
            res@.len() == SIZE_MAX,
            res@[0] == slave_addr,
            forall|m: int| 0 <= m < i ==> res@[1 + m] == pdu_res.p@[m],
        decreases pdu_size - i,
    {
        res[1 + i] = pdu_res.p[i];
        i += 1;
    }
    let res_size = 1 + pdu_size;
    let head: &[u8] = &res.as_slice()[0..res_size];
    proof {
        assert(head@ =~= seq![slave_addr] + pdu_res.p@.take(pdu_size as int));
    }
    let c = crc16(head);
    res[res_size] = (c & 0xFF) as u8;
    res[res_size + 1] = (c >> 8) as u8;
    proof {
        assert(res@.take(res_size + 2) =~= ({
            let body = seq![slave_addr] + pdu_res.p@.take(pdu_size as int);
            body + seq![(crc16_spec(body) & 0xFF) as u8, (crc16_spec(body) >> 8) as u8]
        }));
    }
    res_size + 2
}

/// Handles one received serial frame into `res` and reports the number of
/// response bytes; 0 means "produce no reply".
///
/// A frame is silently dropped when no serial address is configured, it is
/// undersized, its checksum trailer does not match, or it is addressed to
/// neither the configured address, broadcast, nor the reserved
/// default-response address. An accepted frame is processed — a broadcast
/// write takes effect — but only a frame addressed directly to this device
/// produces a reply.
pub fn handle_req(inst: &mut Instance, buf: &[u8], res: &mut Vec<u8>) -> (n: usize)
    requires
        old(inst).wf(),
        old(res).len() == SIZE_MAX,
    ensures
        final(inst).wf(),
        final(res)@.len() == old(res)@.len(),
        n == 0 ==> final(res)@ == old(res)@,
        !frame_ok(*old(inst), buf@) ==> n == 0 && *final(inst) == *old(inst) && final(res)@
            == old(res)@,
        buf@.len() < SIZE_MIN ==> n == 0,
        old(inst).serial is None ==> n == 0,
        buf@.len() >= SIZE_MIN && le16(buf@[buf@.len() - 2], buf@[buf@.len() - 1]) != crc16_spec(
            buf@.take(buf@.len() - 2),
        ) ==> n == 0,
        buf@.len() >= 1 && old(inst).serial is Some && !addr_accepted(*old(inst), buf@[0]) ==> n
            == 0,
        buf@.len() >= 1 && buf@[0] == SLAVE_ADDR_DEFAULT_RESP ==> n == 0,
        buf@.len() >= 1 && buf@[0] == SLAVE_ADDR_BROADCAST ==> n == 0,
        frame_ok(*old(inst), buf@) ==> inst_evolves(*old(inst), *final(inst), inner_pdu(buf@)),
        frame_ok(*old(inst), buf@) && buf@[0] != SLAVE_ADDR_DEFAULT_RESP && buf@[0]
            != SLAVE_ADDR_BROADCAST ==> {
            &&& n == 3 + response_spec(*old(inst), inner_pdu(buf@)).len()
            &&& final(res)@.take(n as int) == serial_response(*old(inst), buf@)
        },
{
    if inst.serial.is_none() || buf.len() < SIZE_MIN {
        return 0;
    }
    let data_len = buf.len() - 2;
    let recv_crc = u16_from_le(buf[data_len], buf[data_len + 1]);
    let computed = crc16(&buf[0..data_len]);
    if recv_crc != computed {
        return 0;
    }
    let recv_addr = buf[0];
    let slave_addr = match &inst.serial {
        Some(s) => s.slave_addr,
        None => {
            return 0;
        },
    };
    if !(recv_addr == slave_addr || recv_addr == SLAVE_ADDR_BROADCAST || recv_addr
        == SLAVE_ADDR_DEFAULT_RESP) {
        return 0;
    }
    let mut pdu_res = PDUBuf::new();
    let pdu_size = pdu::handle_req(inst, &buf[1..data_len], &mut pdu_res);
    if pdu_size == 0 || recv_addr == SLAVE_ADDR_DEFAULT_RESP || recv_addr == SLAVE_ADDR_BROADCAST {
        return 0;
    }
    prep_res(recv_addr, &pdu_res, pdu_size, res)
}

} // verus!
