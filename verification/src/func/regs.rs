//! Read-holding-registers / read-input-registers handler.
//!
//! Register storage is not descriptor-backed in this minimal model: the
//! handler validates the request and answers with synthesized data.

use vstd::prelude::*;

use crate::def::StatusCode;
use crate::def::be16;
use crate::def::u16_from_be;
use crate::pdu::PDUBuf;

verus! {

/// Most registers one read request may ask for.
pub const N_READ_MAX: u16 = 125;

/// Status of a register read request: exactly five bytes, a register-read
/// function code, and a quantity between 1 and `N_READ_MAX`.
pub open spec fn rr_status(req: Seq<u8>) -> StatusCode {
    if req.len() != 5 {
        StatusCode::IllegalDataValue
    } else if req[0] != 0x03 && req[0] != 0x04 {
        StatusCode::DeviceFailure
    } else {
        let quantity = be16(req[3], req[4]);
        if quantity == 0 || quantity > N_READ_MAX {
            StatusCode::IllegalDataValue
        } else {
            StatusCode::Okay
        }
    }
}

/// Byte `m` of the synthesized register payload: registers alternate between
/// the two fixed big-endian words 0xDEAD and 0xBEEF.
pub open spec fn reg_byte(m: int) -> u8 {
    if (m / 2) % 2 == 0 {
        if m % 2 == 0 {
            0xDE
        } else {
            0xAD
        }
    } else {
        if m % 2 == 0 {
            0xBE
        } else {
            0xEF
        }
    }
}

/// The response body of a successful register read: the byte count, then
/// `quantity` big-endian 16-bit values.
pub open spec fn rr_body(req: Seq<u8>) -> Seq<u8> {
    let quantity = be16(req[3], req[4]) as int;
    Seq::new((1 + 2 * quantity) as nat, |m: int| if m == 0 { (2 * quantity) as u8 } else { reg_byte(m - 1) })
}

/// Handles a register read request: on `Okay` the response body (from byte 1)
/// is `rr_body` and the cursor covers it; on any other status the buffer is
/// only scratch. Byte 0 is left for the dispatcher.
#[verifier::loop_isolation(false)]
pub fn read_multiple(buf: &[u8], res: &mut PDUBuf) -> (st: StatusCode)
    requires
        old(res).wf(),
    ensures
        final(res).wf(),
        final(res).p@[0] == old(res).p@[0],
        st == rr_status(buf@),
        st == StatusCode::Okay ==> {
            &&& final(res).size == 1 + rr_body(buf@).len()
            &&& final(res).p@.subrange(1, final(res).size as int) == rr_body(buf@)
        },
        st != StatusCode::Okay ==> *final(res) == *old(res),
{
    if buf.len() != 5 {
        return StatusCode::IllegalDataValue;
    }
    let fc = buf[0];
    if fc != 0x03 && fc != 0x04 {
        return StatusCode::DeviceFailure;
    }
    let quantity = u16_from_be(buf[3], buf[4]);
    if quantity == 0 || quantity > N_READ_MAX {
        return StatusCode::IllegalDataValue;
    }

    let q = quantity as usize;
    res.p[1] = (2 * quantity) as u8;
    let mut i: usize = 0;
    while i < q
        invariant
            i <= q,
            res.p@.len() == old(res).p@.len(),
            res.p@[0] == old(res).p@[0],
            res.p@[1] == (2 * quantity) as u8,
            res.size == old(res).size,
            forall|m: int| 0 <= m < 2 * i ==> res.p@[2 + m] == reg_byte(m),
        decreases q - i,
    {
        let j = 2 + 2 * i;
        if i % 2 == 0 {
            res.p[j] = 0xDE;
            res.p[j + 1] = 0xAD;
        } else {
            res.p[j] = 0xBE;
            res.p[j + 1] = 0xEF;
        }
        proof {
            assert((2 * i as int) / 2 == i as int);
            assert((2 * i as int + 1) / 2 == i as int);
        }
        i += 1;
    }
    res.size = 2 + 2 * q;
    proof {
        assert(res.p@.subrange(1, res.size as int) =~= rr_body(buf@));
    }
    StatusCode::Okay
}

} // verus!
