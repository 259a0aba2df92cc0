//! Coil / discrete-input handlers: read-multiple, write-single and
//! write-multiple, over the descriptor collections of an [`Instance`].

use vstd::prelude::*;

use crate::Instance;
use crate::coil::Descriptor;
use crate::coil::Error;
use crate::coil::desc_at;
use crate::coil::find;
use crate::coil::find_mut;
use crate::coil::has_addr;
use crate::coil::idx_of;
use crate::coil::lemma_idx_unique;
use crate::coil::sorted;
use crate::def::StatusCode;
use crate::def::be16;
use crate::def::u16_from_be;
use crate::pdu::PDUBuf;

verus! {

/// The write-single value that orders a coil on.
pub const COIL_ON: u16 = 0xFF00;

/// The write-single value that orders a coil off.
pub const COIL_OFF: u16 = 0x0000;

/// Most coils one read request may ask for.
pub const N_READ_MAX: u16 = 0x07D0;

/// Most coils one write request may carry.
pub const N_WRITE_MAX: u16 = 0x07B0;

/// Whether the point at (16-bit representable) address `a` exists and reads
/// as on. An absent point, one whose reading is unsupported, and one past
/// the address space all read as off.
pub open spec fn coil_bit(coils: Seq<Descriptor>, a: int) -> bool {
    &&& 0 <= a <= 0xFFFF
    &&& has_addr(coils, a as u16)
    &&& desc_at(coils, a as u16).spec_read() == Ok::<bool, Error>(true)
}

/// Whether the point at address `a` exists and refuses reads by its lock.
pub open spec fn read_locked_at(coils: Seq<Descriptor>, a: int) -> bool {
    &&& 0 <= a <= 0xFFFF
    &&& has_addr(coils, a as u16)
    &&& desc_at(coils, a as u16).spec_read() == Err::<bool, Error>(Error::ReadLocked)
}

/// Status of a coil read request: exactly five bytes, a coil-read function
/// code, a quantity between 1 and `N_READ_MAX`, an existing first address,
/// and no read-locked point anywhere in the range.
pub open spec fn rm_status(coils: Seq<Descriptor>, req: Seq<u8>) -> StatusCode {
    if req.len() != 5 {
        StatusCode::IllegalDataValue
    } else if req[0] != 0x01 && req[0] != 0x02 {
        StatusCode::DeviceFailure
    } else {
        let quantity = be16(req[3], req[4]);
        if quantity == 0 || quantity > N_READ_MAX {
            StatusCode::IllegalDataValue
        } else {
            let start = be16(req[1], req[2]);
            if !has_addr(coils, start) {
                StatusCode::IllegalDataAddress
            } else if exists|i: int|
                0 <= i < quantity && #[trigger] read_locked_at(coils, start + i) {
                StatusCode::IllegalDataAddress
            } else {
                StatusCode::Okay
            }
        }
    }
}

/// Two to the `k`th power.
pub open spec fn two_pow(k: nat) -> int
    decreases k,
{
    if k == 0 {
        1
    } else {
        2 * two_pow((k - 1) as nat)
    }
}

/// The low `k` bits of the response byte whose least-significant bit stands
/// for the coil at offset `base` of the requested range: offset `base + k`
/// contributes weight two-to-the-`k` while it lies within the requested
/// quantity and its coil reads as on.
pub open spec fn pack_bits(coils: Seq<Descriptor>, start: int, q: int, base: int, k: nat) -> int
    decreases k,
{
    if k == 0 {
        0
    } else {
        pack_bits(coils, start, q, base, (k - 1) as nat) + if base + k - 1 < q && coil_bit(
            coils,
            start + base + k - 1,
        ) {
            two_pow((k - 1) as nat)
        } else {
            0
        }
    }
}

/// Byte `j` of the packed read response: bit `k` stands for the coil at
/// offset `8 * j + k`.
pub open spec fn pack_byte(coils: Seq<Descriptor>, start: int, q: int, j: int) -> u8 {
    pack_bits(coils, start, q, 8 * j, 8) as u8
}

/// The response body of a successful coil read: the byte count
/// `ceil(quantity / 8)`, then the packed bits.
pub open spec fn rm_body(coils: Seq<Descriptor>, req: Seq<u8>) -> Seq<u8> {
    let quantity = be16(req[3], req[4]) as int;
    let start = be16(req[1], req[2]) as int;
    let byte_count = (quantity + 7) / 8;
    Seq::new(
        (1 + byte_count) as nat,
        |m: int| if m == 0 { byte_count as u8 } else { pack_byte(coils, start, quantity, m - 1) },
    )
}

/// Packed bits stay below two to the number of bits.
proof fn lemma_pack_bits_bound(coils: Seq<Descriptor>, start: int, q: int, base: int, k: nat)
    ensures
        0 <= pack_bits(coils, start, q, base, k) < two_pow(k),
    decreases k,
{
    if k != 0 {
        lemma_pack_bits_bound(coils, start, q, base, (k - 1) as nat);
    }
}

/// Two-to-the-`k` is positive.
proof fn lemma_two_pow_pos(k: nat)
    ensures
        two_pow(k) >= 1,
    decreases k,
{
    if k != 0 {
        lemma_two_pow_pos((k - 1) as nat);
    }
}

/// Two-to-the-`k` grows with `k`.
proof fn lemma_two_pow_mono(a: nat, b: nat)
    requires
        a <= b,
    ensures
        two_pow(a) <= two_pow(b),
    decreases b,
{
    if a < b {
        lemma_two_pow_mono(a, (b - 1) as nat);
        lemma_two_pow_pos((b - 1) as nat);
    }
}

/// The weight of bit `k` of a byte.
fn bit_weight(k: usize) -> (w: u8)
    requires
        k < 8,
    ensures
        w as int == two_pow(k as nat),
{
    proof {
        reveal_with_fuel(two_pow, 9);
    }
    match k {
        0 => 1,
        1 => 2,
        2 => 4,
        3 => 8,
        4 => 16,
        5 => 32,
        6 => 64,
        _ => 128,
    }
}

/// Reads the single coil at offset `i` of a read range: off when the offset
/// lies past the quantity, the point is absent, or reading it is
/// unsupported; an error exactly when the point is read-locked.
fn coil_bit_at(coils: &Vec<Descriptor>, start: u16, quantity: u16, i: usize) -> (r: Result<
    bool,
    StatusCode,
>)
    requires
        sorted(coils@),
    ensures
        match r {
            Ok(b) => {
                &&& b == (i < quantity && coil_bit(coils@, start + i))
                &&& !(i < quantity && read_locked_at(coils@, start + i))
            },
            Err(st) => i < quantity && read_locked_at(coils@, start + i) && st
                == StatusCode::IllegalDataAddress,
        },
{
    if i >= quantity as usize {
        return Ok(false);
    }
    let addr = start as usize + i;
    if addr > 0xFFFF {
        return Ok(false);
    }
    match find(addr as u16, coils.as_slice()) {
        Some(c) => match c.read() {
            Ok(v) => Ok(v),
            Err(Error::ReadNotSupported) => Ok(false),
            Err(Error::ReadLocked) => Err(StatusCode::IllegalDataAddress),
            // A read reports nothing besides the two refusals above.
            Err(_) => Err(StatusCode::DeviceFailure),
        },
        None => Ok(false),
    }
}

/// Handles a coil or discrete-input read request against the corresponding
/// collection of `inst`; `Err` when that collection is not configured.
///
/// On `Okay` the response body (from byte 1) is `rm_body` over the selected
/// collection and the cursor covers it. A missing first address rejects the
/// whole request; missing or read-unsupported points further in the range
/// read as off; a read-locked point anywhere in the range fails the request.
#[verifier::loop_isolation(false)]
pub fn read_multiple(inst: &Instance, buf: &[u8], res: &mut PDUBuf, read_disc_inputs: bool) -> (r:
    Result<StatusCode, ()>)
    requires
        inst.wf(),
        old(res).wf(),
    ensures
        final(res).wf(),
        final(res).p@[0] == old(res).p@[0],
        r is Err <==> (if read_disc_inputs {
            inst.disc_inputs is None
        } else {
            inst.coils is None
        }),
        r is Err ==> *final(res) == *old(res),
        r matches Ok(st) ==> {
            let coils = if read_disc_inputs {
                inst.disc_inputs->Some_0
            } else {
                inst.coils->Some_0
            };
            &&& st == rm_status(coils@, buf@)
            &&& st == StatusCode::Okay ==> {
                &&& final(res).size == 1 + rm_body(coils@, buf@).len()
                &&& final(res).p@.subrange(1, final(res).size as int) == rm_body(coils@, buf@)
            }
        },
{
    let coils = if read_disc_inputs {
        match &inst.disc_inputs {
            Some(c) => c,
            None => {
                return Err(());
            },
        }
    } else {
        match &inst.coils {
            Some(c) => c,
            None => {
                return Err(());
            },
        }
    };

    if buf.len() != 5 {
        return Ok(StatusCode::IllegalDataValue);
    }
    let fc = buf[0];
    if fc != 0x01 && fc != 0x02 {
        return Ok(StatusCode::DeviceFailure);
    }
    let start = u16_from_be(buf[1], buf[2]);
    let quantity = u16_from_be(buf[3], buf[4]);
    if quantity == 0 || quantity > N_READ_MAX {
        return Ok(StatusCode::IllegalDataValue);
    }

    // A wholly out-of-range request is rejected; a sparse range is
    // best-effort.
    if find(start, coils.as_slice()).is_none() {
        return Ok(StatusCode::IllegalDataAddress);
    }

    let q = quantity as usize;
    let byte_count = (q + 7) / 8;
    res.p[1] = byte_count as u8;
    res.size = 2 + byte_count;

    let mut j: usize = 0;
    while j < byte_count
        invariant
            j <= byte_count,
            res.p@.len() == old(res).p@.len(),
            res.p@[0] == old(res).p@[0],
            res.p@[1] == byte_count as u8,
            res.size == 2 + byte_count,
            forall|m: int|
                0 <= m < j ==> res.p@[2 + m] == pack_byte(coils@, start as int, q as int, m),
            forall|i: int| 0 <= i < 8 * j && i < q ==> !(#[trigger] read_locked_at(coils@, start + i)),
        decreases byte_count - j,
    {
        let mut byte: u8 = 0;
        let mut k: usize = 0;
        while k < 8
            invariant
                k <= 8,
                byte as int == pack_bits(coils@, start as int, q as int, 8 * j as int, k as nat),
                forall|i: int|
                    8 * j <= i < 8 * j + k && i < q ==> !(#[trigger] read_locked_at(coils@, start + i)),
            decreases 8 - k,
        {
            match coil_bit_at(coils, start, quantity, 8 * j + k) {
                Ok(true) => {
                    proof {
                        lemma_pack_bits_bound(coils@, start as int, q as int, 8 * j as int, k as nat);
                        lemma_two_pow_mono((k + 1) as nat, 8);
                        reveal_with_fuel(two_pow, 9);
                    }
                    byte = byte + bit_weight(k);
                },
                Ok(false) => {},
                Err(st) => {
                    return Ok(st);
                },
            }
            k += 1;
        }
        res.p[2 + j] = byte;
        j += 1;
    }

    proof {
        assert(8 * byte_count >= q);
        assert(res.p@.subrange(1, res.size as int) =~= rm_body(coils@, buf@));
    }
    Ok(StatusCode::Okay)
}

/// Whether a point exists at (16-bit representable) address `a`.
pub open spec fn has_addr_at(coils: Seq<Descriptor>, a: int) -> bool {
    &&& 0 <= a <= 0xFFFF
    &&& has_addr(coils, a as u16)
}

/// Whether the point at (16-bit representable) address `a` exists and would
/// accept a write.
pub open spec fn writable_at(coils: Seq<Descriptor>, a: int) -> bool {
    &&& 0 <= a <= 0xFFFF
    &&& has_addr(coils, a as u16)
    &&& desc_at(coils, a as u16).spec_write_allowed()
}

/// Bit `i` of the packed payload of a write-multiple request.
pub open spec fn payload_bit(req: Seq<u8>, i: int) -> bool {
    (req[6 + i / 8] >> ((i % 8) as u8)) & 1 == 1
}

/// The descriptor with its backing cell set to `v`.
pub open spec fn upd_cell(d: Descriptor, v: bool) -> Descriptor {
    Descriptor { cell: v, ..d }
}

/// Status of a write-single-coil request: exactly five bytes, the
/// write-single-coil function code, an on or off order, an existing address,
/// and a point that accepts the write.
pub open spec fn ws_status(coils: Seq<Descriptor>, req: Seq<u8>) -> StatusCode {
    if req.len() != 5 {
        StatusCode::IllegalDataValue
    } else if req[0] != 0x05 {
        StatusCode::DeviceFailure
    } else {
        let value = be16(req[3], req[4]);
        if value != COIL_ON && value != COIL_OFF {
            StatusCode::IllegalDataValue
        } else {
            let addr = be16(req[1], req[2]);
            if !has_addr(coils, addr) {
                StatusCode::IllegalDataAddress
            } else if desc_at(coils, addr).spec_write_allowed() {
                StatusCode::Okay
            } else {
                StatusCode::IllegalDataAddress
            }
        }
    }
}

/// The collection after a successful write-single-coil request: the
/// addressed point's cell takes the ordered value.
pub open spec fn ws_post(coils: Seq<Descriptor>, req: Seq<u8>) -> Seq<Descriptor> {
    let addr = be16(req[1], req[2]);
    let on = be16(req[3], req[4]) == COIL_ON;
    Seq::new(
        coils.len(),
        |j: int| if coils[j].address == addr { upd_cell(coils[j], on) } else { coils[j] },
    )
}

/// Status of a write-multiple-coils request: at least seven bytes, the
/// write-multiple-coils function code, a quantity between 1 and
/// `N_WRITE_MAX`, a declared byte count of `ceil(quantity / 8)` matching the
/// total length exactly, and every target point existing and writable.
pub open spec fn wm_status(coils: Seq<Descriptor>, req: Seq<u8>) -> StatusCode {
    if req.len() < 7 {
        StatusCode::IllegalDataValue
    } else if req[0] != 0x0F {
        StatusCode::DeviceFailure
    } else {
        let quantity = be16(req[3], req[4]);
        if quantity == 0 || quantity > N_WRITE_MAX {
            StatusCode::IllegalDataValue
        } else if req[5] != (quantity + 7) / 8 {
            StatusCode::IllegalDataValue
        } else if req.len() != 6 + req[5] {
            StatusCode::IllegalDataValue
        } else {
            let start = be16(req[1], req[2]);
            if forall|i: int| 0 <= i < quantity ==> #[trigger] writable_at(coils, start + i) {
                StatusCode::Okay
            } else {
                StatusCode::IllegalDataAddress
            }
        }
    }
}

/// The collection after the first `n` offsets of a write-multiple-coils
/// request took their payload bits.
pub open spec fn wm_upto(coils: Seq<Descriptor>, req: Seq<u8>, start: int, n: int) -> Seq<
    Descriptor,
> {
    Seq::new(
        coils.len(),
        |j: int|
            if start <= coils[j].address < start + n {
                upd_cell(coils[j], payload_bit(req, coils[j].address - start))
            } else {
                coils[j]
            },
    )
}

/// The collection after a successful write-multiple-coils request: every
/// point in the range has its cell set to its payload bit.
pub open spec fn wm_post(coils: Seq<Descriptor>, req: Seq<u8>) -> Seq<Descriptor> {
    wm_upto(coils, req, be16(req[1], req[2]) as int, be16(req[3], req[4]) as int)
}

/// A write-multiple-coils request of valid shape whose range covers an
/// offset with no point behind it is refused with `IllegalDataAddress` —
/// and, by `write_multiple`'s contract, such a refusal leaves every coil
/// unmodified.
pub proof fn lemma_write_multiple_missing_address(coils: Seq<Descriptor>, req: Seq<u8>, i: int)
    requires
        req.len() >= 7,
        req[0] == 0x0F,
        1 <= be16(req[3], req[4]) <= N_WRITE_MAX,
        req[5] == (be16(req[3], req[4]) + 7) / 8,
        req.len() == 6 + req[5],
        0 <= i < be16(req[3], req[4]),
        !has_addr_at(coils, be16(req[1], req[2]) + i),
    ensures
        wm_status(coils, req) == StatusCode::IllegalDataAddress,
{
    assert(!writable_at(coils, be16(req[1], req[2]) + i));
}

/// Handles a write-single-coil request against the coil collection of
/// `inst`; `Err` when that collection is not configured.
///
/// On `Okay` the addressed coil's cell holds the ordered value and the
/// response body echoes address and value verbatim; on any other status
/// nothing is modified.
pub fn write_single(inst: &mut Instance, buf: &[u8], res: &mut PDUBuf) -> (r: Result<
    StatusCode,
    (),
>)
    requires
        old(inst).wf(),
        old(res).wf(),
    ensures
        final(inst).wf(),
        final(res).wf(),
        final(res).p@[0] == old(res).p@[0],
        final(inst).serial == old(inst).serial,
        final(inst).disc_inputs == old(inst).disc_inputs,
        final(inst).coils is Some <==> old(inst).coils is Some,
        r is Err <==> old(inst).coils is None,
        r is Err ==> *final(inst) == *old(inst) && *final(res) == *old(res),
        r matches Ok(st) ==> st == ws_status(old(inst).coils->Some_0@, buf@),
        r matches Ok(st) && st != StatusCode::Okay ==> *final(inst) == *old(inst) && *final(res)
            == *old(res),
        r matches Ok(st) && st == StatusCode::Okay ==> {
            &&& final(inst).coils->Some_0@ == ws_post(old(inst).coils->Some_0@, buf@)
            &&& final(res).size == 5
            &&& final(res).p@.subrange(1, 5) == buf@.subrange(1, 5)
        },
{
    match &mut inst.coils {
        None => Err(()),
        Some(coils) => {
            let ghost v0 = coils@;
            if buf.len() != 5 {
                return Ok(StatusCode::IllegalDataValue);
            }
            if buf[0] != 0x05 {
                return Ok(StatusCode::DeviceFailure);
            }
            let addr = u16_from_be(buf[1], buf[2]);
            let value = u16_from_be(buf[3], buf[4]);
            if value != COIL_ON && value != COIL_OFF {
                return Ok(StatusCode::IllegalDataValue);
            }
            match find_mut(addr, coils.as_slice()) {
                None => Ok(StatusCode::IllegalDataAddress),
                Some(ix) => {
                    let mut d = coils[ix];
                    match d.write(value == COIL_ON) {
                        Ok(()) => {
                            coils[ix] = d;
                            proof {
                                assert forall|j: int| 0 <= j < v0.len() implies coils@[j]
                                    == ws_post(v0, buf@)[j] by {
                                    if j != ix && v0[j].address == addr {
                                        lemma_idx_unique(v0, addr, j);
                                        lemma_idx_unique(v0, addr, ix as int);
                                    }
                                }
                                assert(coils@ =~= ws_post(v0, buf@));
                            }
                            res.p[1] = buf[1];
                            res.p[2] = buf[2];
                            res.p[3] = buf[3];
                            res.p[4] = buf[4];
                            res.size = 5;
                            proof {
                                assert(res.p@.subrange(1, 5) =~= buf@.subrange(1, 5));
                            }
                            Ok(StatusCode::Okay)
                        },
                        Err(Error::WriteNotSupported) => Ok(StatusCode::IllegalDataAddress),
                        Err(Error::WriteLocked) => Ok(StatusCode::IllegalDataAddress),
                        // A write reports nothing besides the two refusals above.
                        Err(_) => Ok(StatusCode::DeviceFailure),
                    }
                },
            }
        },
    }
}

/// Handles a write-multiple-coils request against the coil collection of
/// `inst`; `Err` when that collection is not configured.
///
/// Two-phase commit discipline: a first pass validates that every target
/// exists and is writable without mutating anything; only then does a second
/// pass write, so a batch is never observed partially applied. On `Okay` the
/// response body echoes start address and quantity.
#[verifier::loop_isolation(false)]
pub fn write_multiple(inst: &mut Instance, buf: &[u8], res: &mut PDUBuf) -> (r: Result<
    StatusCode,
    (),
>)
    requires
        old(inst).wf(),
        old(res).wf(),
    ensures
        final(inst).wf(),
        final(res).wf(),
        final(res).p@[0] == old(res).p@[0],
        final(inst).serial == old(inst).serial,
        final(inst).disc_inputs == old(inst).disc_inputs,
        final(inst).coils is Some <==> old(inst).coils is Some,
        r is Err <==> old(inst).coils is None,
        r is Err ==> *final(inst) == *old(inst) && *final(res) == *old(res),
        r matches Ok(st) ==> st == wm_status(old(inst).coils->Some_0@, buf@),
        r matches Ok(st) && st != StatusCode::Okay ==> *final(inst) == *old(inst) && *final(res)
            == *old(res),
        r matches Ok(st) && st == StatusCode::Okay ==> {
            &&& final(inst).coils->Some_0@ == wm_post(old(inst).coils->Some_0@, buf@)
            &&& final(res).size == 5
            &&& final(res).p@.subrange(1, 5) == buf@.subrange(1, 5)
        },
{
    match &mut inst.coils {
        None => Err(()),
        Some(coils) => {
            let ghost v0 = coils@;
            if buf.len() < 7 {
                return Ok(StatusCode::IllegalDataValue);
            }
            if buf[0] != 0x0F {
                return Ok(StatusCode::DeviceFailure);
            }
            let start = u16_from_be(buf[1], buf[2]);
            let quantity = u16_from_be(buf[3], buf[4]);
            let byte_count = buf[5];
            if quantity == 0 || quantity > N_WRITE_MAX {
                return Ok(StatusCode::IllegalDataValue);
            }
            if (byte_count as u16) != (quantity + 7) / 8 {
                return Ok(StatusCode::IllegalDataValue);
            }
            if buf.len() != 6 + (byte_count as usize) {
                return Ok(StatusCode::IllegalDataValue);
            }

            // First pass: ensure all coils exist and can be written to
            // before writing anything.
            let q = quantity as usize;
            let mut i: usize = 0;
            while i < q
                invariant
                    i <= q,
                    coils@ == v0,
                    forall|k: int| 0 <= k < i ==> #[trigger] writable_at(v0, start + k),
                decreases q - i,
            {
                let addr = start as usize + i;
                if addr > 0xFFFF {
                    proof {
                        assert(!writable_at(v0, start as int + i as int));
                    }
                    return Ok(StatusCode::IllegalDataAddress);
                }
                match find(addr as u16, coils.as_slice()) {
                    Some(c) => {
                        if !c.write_allowed() {
                            proof {
                                assert(!writable_at(v0, start as int + i as int));
                            }
                            return Ok(StatusCode::IllegalDataAddress);
                        }
                    },
                    None => {
                        proof {
                            assert(!writable_at(v0, start as int + i as int));
                        }
                        return Ok(StatusCode::IllegalDataAddress);
                    },
                }
                i += 1;
            }

            // Second pass: write the coils; the first pass guarantees
            // success.
            let mut i: usize = 0;
            while i < q
                invariant
                    i <= q,
                    coils@.len() == v0.len(),
                    coils@ == wm_upto(v0, buf@, start as int, i as int),
                    forall|j: int| 0 <= j < v0.len() ==> coils@[j].address == #[trigger] v0[j].address,
                    sorted(coils@),
                    forall|k: int| 0 <= k < q ==> #[trigger] writable_at(v0, start + k),
                decreases q - i,
            {
                let addr = start as usize + i;
                proof {
                    assert(writable_at(v0, start as int + i as int));
                    let j = idx_of(v0, addr as u16);
                    assert(0 <= j < v0.len() && v0[j].address == addr as u16);
                    assert(coils@[j].address == addr as u16);
                    assert(has_addr(coils@, addr as u16));
                }
                let a16 = addr as u16;
                let b = buf[6 + i / 8];
                let sh = (i % 8) as u8;
                let bit = ((b >> sh) & 1) == 1;
                match find_mut(a16, coils.as_slice()) {
                    Some(ix) => {
                        proof {
                            let j = idx_of(v0, a16);
                            lemma_idx_unique(coils@, a16, j);
                            lemma_idx_unique(coils@, a16, ix as int);
                            assert(ix as int == j);
                            assert(coils@[ix as int] == wm_upto(v0, buf@, start as int, i as int)[j]);
                        }
                        let mut d = coils[ix];
                        match d.write(bit) {
                            Ok(()) => {
                                coils[ix] = d;
                            },
                            // The first pass guarantees the write succeeds.
                            Err(_) => {
                                return Ok(StatusCode::DeviceFailure);
                            },
                        }
                        proof {
                            assert forall|jj: int| 0 <= jj < v0.len() implies coils@[jj]
                                == wm_upto(v0, buf@, start as int, i + 1)[jj] by {
                                if jj != ix && start <= v0[jj].address < start + i + 1 {
                                    if v0[jj].address == a16 {
                                        lemma_idx_unique(v0, a16, jj);
                                        lemma_idx_unique(v0, a16, ix as int);
                                    }
                                }
                            }
                            assert(coils@ =~= wm_upto(v0, buf@, start as int, i + 1));
                        }
                    },
                    // The first pass guarantees the address exists.
                    None => {
                        return Ok(StatusCode::DeviceFailure);
                    },
                }
                i += 1;
            }

            res.p[1] = buf[1];
            res.p[2] = buf[2];
            res.p[3] = buf[3];
            res.p[4] = buf[4];
            res.size = 5;
            proof {
                assert(res.p@.subrange(1, 5) =~= buf@.subrange(1, 5));
                assert(coils@ =~= wm_post(v0, buf@));
            }
            Ok(StatusCode::Okay)
        },
    }
}

} // verus!
