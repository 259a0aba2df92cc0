//! The Protocol Data Unit dispatch core: reads the function code of a
//! request, routes it to the matching handler, and wraps the handler's
//! status into a success or error payload.

use vstd::prelude::*;

use crate::Instance;
use crate::coil::Descriptor;
use crate::def::ERR_FLAG;
use crate::def::FunctionCode;
use crate::def::StatusCode;
use crate::func::coils::rm_body;
use crate::func::coils::rm_status;
use crate::func::coils::wm_post;
use crate::func::coils::wm_status;
use crate::func::coils::ws_post;
use crate::func::coils::ws_status;
use crate::func::regs::rr_body;
use crate::func::regs::rr_status;

verus! {

/// Most data bytes a PDU can carry after its function code.
pub const DATA_SIZE_MAX: usize = 252;

/// Most bytes a PDU can hold: one function code plus its data.
pub const SIZE_MAX: usize = 253;

/// A fixed-capacity response area plus a logical length cursor, reused per
/// request. Handlers write the response body from byte 1 on; byte 0 carries
/// the echoed function code.
pub struct PDUBuf {
    pub p: Vec<u8>,
    pub size: usize,
}

impl PDUBuf {
    /// Full capacity allocated, cursor within it.
    pub open spec fn wf(self) -> bool {
        &&& self.p@.len() == SIZE_MAX
        &&& self.size <= SIZE_MAX
    }

    /// A zero-filled buffer with the cursor at the start.
    pub fn new() -> (r: PDUBuf)
        ensures
            r.wf(),
            r.size == 0,
            forall|i: int| 0 <= i < SIZE_MAX ==> r.p@[i] == 0u8,
    {
        let mut p: Vec<u8> = Vec::new();
        let mut i: usize = 0;
        while i < SIZE_MAX
            invariant
                i <= SIZE_MAX,
                p@.len() == i,
                forall|k: int| 0 <= k < i ==> p@[k] == 0u8,
            decreases SIZE_MAX - i,
        {
            p.push(0);
            i += 1;
        }
        PDUBuf { p, size: 0 }
    }
}

/// A host-supplied handler for requests the built-in handlers do not claim:
/// unrecognized function codes, and codes whose host collection is not
/// configured.
///
/// The engine calls it with the full function-code-prefixed request and the
/// response buffer, whose cursor stands past the echoed function code; the
/// handler reports a status and, on `Okay`, has written its body from
/// byte 1 on and set the cursor to cover it. Its effect on the response
/// body is its own; the engine guarantees only what this contract states.
pub trait FallbackHandler {
    fn handle(&mut self, inst: &Instance, buf: &[u8], res: &mut PDUBuf) -> (st: StatusCode)
        requires
            buf@.len() >= 1,
            old(res).wf(),
            old(res).size == 1,
        ensures
            final(res).wf(),
            final(res).p@[0] == old(res).p@[0],
            st == StatusCode::Okay ==> final(res).size >= 1,
    ;
}

/// The absent fallback: every request it is asked about is an illegal
/// function.
pub struct NoFallback;

impl FallbackHandler for NoFallback {
    fn handle(&mut self, _inst: &Instance, _buf: &[u8], _res: &mut PDUBuf) -> (st: StatusCode)
        ensures
            st == StatusCode::IllegalFunction,
    {
        StatusCode::IllegalFunction
    }
}

/// Whether a built-in handler claims a request: its function code is
/// implemented and the host collection it works on is configured.
pub open spec fn core_handles(inst: Instance, req: Seq<u8>) -> bool
    recommends
        req.len() >= 1,
{
    let fc = req[0];
    ||| (fc == 0x01 && inst.coils is Some)
    ||| (fc == 0x02 && inst.disc_inputs is Some)
    ||| fc == 0x03
    ||| fc == 0x04
    ||| ((fc == 0x05 || fc == 0x0F) && inst.coils is Some)
}

/// The status a non-empty request resolves to: its function code's handler
/// decides where the handler's host collection is configured; everything
/// else is an illegal function.
pub open spec fn resp_status(inst: Instance, req: Seq<u8>) -> StatusCode
    recommends
        req.len() >= 1,
{
    let fc = req[0];
    if fc == 0x01 {
        match inst.coils {
            Some(c) => rm_status(c@, req),
            None => StatusCode::IllegalFunction,
        }
    } else if fc == 0x02 {
        match inst.disc_inputs {
            Some(c) => rm_status(c@, req),
            None => StatusCode::IllegalFunction,
        }
    } else if fc == 0x03 || fc == 0x04 {
        rr_status(req)
    } else if fc == 0x05 {
        match inst.coils {
            Some(c) => ws_status(c@, req),
            None => StatusCode::IllegalFunction,
        }
    } else if fc == 0x0F {
        match inst.coils {
            Some(c) => wm_status(c@, req),
            None => StatusCode::IllegalFunction,
        }
    } else {
        StatusCode::IllegalFunction
    }
}

/// The response body (the bytes after the echoed function code) of a
/// request whose status is `Okay`.
pub open spec fn resp_body(inst: Instance, req: Seq<u8>) -> Seq<u8>
    recommends
        req.len() >= 1,
        resp_status(inst, req) == StatusCode::Okay,
{
    let fc = req[0];
    if fc == 0x01 {
        rm_body(inst.coils->Some_0@, req)
    } else if fc == 0x02 {
        rm_body(inst.disc_inputs->Some_0@, req)
    } else if fc == 0x03 || fc == 0x04 {
        rr_body(req)
    } else if fc == 0x05 || fc == 0x0F {
        req.subrange(1, 5)
    } else {
        Seq::empty()
    }
}

/// The full response PDU: empty for an empty request; the echoed function
/// code followed by the body on success; the function code with the error
/// flag and the status byte otherwise.
pub open spec fn response_spec(inst: Instance, req: Seq<u8>) -> Seq<u8> {
    if req.len() == 0 {
        Seq::empty()
    } else if resp_status(inst, req) == StatusCode::Okay {
        seq![req[0]] + resp_body(inst, req)
    } else {
        seq![req[0] | ERR_FLAG, resp_status(inst, req).spec_code()]
    }
}

/// The coil collection after a request: only a successful coil write
/// changes it.
pub open spec fn coils_after(inst: Instance, req: Seq<u8>) -> Seq<Descriptor>
    recommends
        inst.coils is Some,
{
    let v = inst.coils->Some_0@;
    if req.len() >= 1 && req[0] == 0x05 && ws_status(v, req) == StatusCode::Okay {
        ws_post(v, req)
    } else if req.len() >= 1 && req[0] == 0x0F && wm_status(v, req) == StatusCode::Okay {
        wm_post(v, req)
    } else {
        v
    }
}

/// How one request evolves an instance: serial configuration and discrete
/// inputs are never touched; the coil collection becomes `coils_after`.
pub open spec fn inst_evolves(pre: Instance, post: Instance, req: Seq<u8>) -> bool {
    &&& post.serial == pre.serial
    &&& post.disc_inputs == pre.disc_inputs
    &&& (post.coils is Some <==> pre.coils is Some)
    &&& (pre.coils is Some ==> post.coils->Some_0@ == coils_after(pre, req))
}

/// A request whose function code no recognized code carries, with no
/// fallback handler configured, resolves to the illegal-function error
/// response.
pub proof fn lemma_unknown_function_code(inst: Instance, req: Seq<u8>)
    requires
        req.len() >= 1,
        forall|fc: FunctionCode| #[trigger] fc.spec_code() != req[0],
    ensures
        resp_status(inst, req) == StatusCode::IllegalFunction,
        response_spec(inst, req) == seq![req[0] | ERR_FLAG, 0x01u8],
{
    assert(FunctionCode::ReadCoils.spec_code() == 0x01);
    assert(FunctionCode::ReadDiscreteInputs.spec_code() == 0x02);
    assert(FunctionCode::ReadHoldingRegs.spec_code() == 0x03);
    assert(FunctionCode::ReadInputRegs.spec_code() == 0x04);
    assert(FunctionCode::WriteSingleCoil.spec_code() == 0x05);
    assert(FunctionCode::WriteMultipleCoils.spec_code() == 0x0F);
    assert(response_spec(inst, req) =~= seq![req[0] | ERR_FLAG, 0x01u8]);
}

/// Routes a non-empty request to its handler and reports the status; the
/// handler has filled the response body from byte 1 on when it reports
/// `Okay`.
fn handle_fn(inst: &mut Instance, buf: &[u8], res: &mut PDUBuf) -> (st: StatusCode)
    requires
        buf@.len() >= 1,
        old(inst).wf(),
        old(res).wf(),
    ensures
        final(inst).wf(),
        final(res).wf(),
        final(res).p@[0] == old(res).p@[0],
        st == resp_status(*old(inst), buf@),
        inst_evolves(*old(inst), *final(inst), buf@),
        st == StatusCode::Okay ==> {
            &&& final(res).size == 1 + resp_body(*old(inst), buf@).len()
            &&& final(res).p@.subrange(1, final(res).size as int) == resp_body(*old(inst), buf@)
        },
{
    match FunctionCode::try_from(buf[0]) {
        Ok(FunctionCode::ReadCoils) => match crate::func::coils::read_multiple(
            &*inst,
            buf,
            res,
            false,
        ) {
            Ok(st) => st,
            Err(()) => StatusCode::IllegalFunction,
        },
        Ok(FunctionCode::ReadDiscreteInputs) => match crate::func::coils::read_multiple(
            &*inst,
            buf,
            res,
            true,
        ) {
            Ok(st) => st,
            Err(()) => StatusCode::IllegalFunction,
        },
        Ok(FunctionCode::ReadHoldingRegs) => crate::func::regs::read_multiple(buf, res),
        Ok(FunctionCode::ReadInputRegs) => crate::func::regs::read_multiple(buf, res),
        Ok(FunctionCode::WriteSingleCoil) => match crate::func::coils::write_single(
            inst,
            buf,
            res,
        ) {
            Ok(st) => st,
            Err(()) => StatusCode::IllegalFunction,
        },
        Ok(FunctionCode::WriteMultipleCoils) => match crate::func::coils::write_multiple(
            inst,
            buf,
            res,
        ) {
            Ok(st) => st,
            Err(()) => StatusCode::IllegalFunction,
        },
        Ok(_) => StatusCode::IllegalFunction,
        Err(()) => {
            proof {
                assert(FunctionCode::ReadCoils.spec_code() == 0x01);
                assert(FunctionCode::ReadDiscreteInputs.spec_code() == 0x02);
                assert(FunctionCode::ReadHoldingRegs.spec_code() == 0x03);
                assert(FunctionCode::ReadInputRegs.spec_code() == 0x04);
                assert(FunctionCode::WriteSingleCoil.spec_code() == 0x05);
                assert(FunctionCode::WriteMultipleCoils.spec_code() == 0x0F);
            }
            StatusCode::IllegalFunction
        },
    }
}

/// Handles one request PDU into `res` and reports the number of response
/// bytes.
///
/// An empty request yields no response at all; otherwise the function code
/// is echoed into byte 0 and the handler's status decides between a success
/// payload and a two-byte error payload that discards any partial body.
pub fn handle_req(inst: &mut Instance, buf: &[u8], res: &mut PDUBuf) -> (n: usize)
    requires
        old(inst).wf(),
        old(res).wf(),
    ensures
        final(inst).wf(),
        final(res).wf(),
        n <= SIZE_MAX,
        inst_evolves(*old(inst), *final(inst), buf@),
        buf@.len() == 0 ==> n == 0 && *final(res) == *old(res) && *final(inst) == *old(inst),
        buf@.len() >= 1 ==> {
            &&& n == final(res).size
            &&& n == response_spec(*old(inst), buf@).len()
            &&& final(res).p@.take(n as int) == response_spec(*old(inst), buf@)
            &&& n >= 2
        },
{
    if buf.len() == 0 {
        return 0;
    }
    let fc = buf[0];
    res.p[0] = fc;
    res.size = 1;
    let st = handle_fn(inst, buf, res);
    match st {
        StatusCode::Okay => {},
        _ => {
            res.p[0] = fc | ERR_FLAG;
            res.p[1] = st.code();
            res.size = 2;
        },
    }
    proof {
        assert(res.p@.take(res.size as int) =~= response_spec(*old(inst), buf@));
    }
    res.size
}

/// Routes a non-empty request to its handler; a request no built-in
/// handler claims goes to the host's fallback.
fn handle_fn_with<F: FallbackHandler>(
    inst: &mut Instance,
    fallback: &mut F,
    buf: &[u8],
    res: &mut PDUBuf,
) -> (st: StatusCode)
    requires
        buf@.len() >= 1,
        old(inst).wf(),
        old(res).wf(),
        old(res).size == 1,
    ensures
        final(inst).wf(),
        final(res).wf(),
        final(res).p@[0] == old(res).p@[0],
        core_handles(*old(inst), buf@) ==> {
            &&& st == resp_status(*old(inst), buf@)
            &&& inst_evolves(*old(inst), *final(inst), buf@)
            &&& st == StatusCode::Okay ==> {
                &&& final(res).size == 1 + resp_body(*old(inst), buf@).len()
                &&& final(res).p@.subrange(1, final(res).size as int) == resp_body(
                    *old(inst),
                    buf@,
                )
            }
        },
        !core_handles(*old(inst), buf@) ==> {
            &&& *final(inst) == *old(inst)
            &&& (st == StatusCode::Okay ==> final(res).size >= 1)
        },
{
    match FunctionCode::try_from(buf[0]) {
        Ok(FunctionCode::ReadCoils) => match crate::func::coils::read_multiple(
            &*inst,
            buf,
            res,
            false,
        ) {
            Ok(st) => st,
            Err(()) => fallback.handle(&*inst, buf, res),
        },
        Ok(FunctionCode::ReadDiscreteInputs) => match crate::func::coils::read_multiple(
            &*inst,
            buf,
            res,
            true,
        ) {
            Ok(st) => st,
            Err(()) => fallback.handle(&*inst, buf, res),
        },
        Ok(FunctionCode::ReadHoldingRegs) => crate::func::regs::read_multiple(buf, res),
        Ok(FunctionCode::ReadInputRegs) => crate::func::regs::read_multiple(buf, res),
        Ok(FunctionCode::WriteSingleCoil) => match crate::func::coils::write_single(
            inst,
            buf,
            res,
        ) {
            Ok(st) => st,
            Err(()) => fallback.handle(&*inst, buf, res),
        },
        Ok(FunctionCode::WriteMultipleCoils) => match crate::func::coils::write_multiple(
            inst,
            buf,
            res,
        ) {
            Ok(st) => st,
            Err(()) => fallback.handle(&*inst, buf, res),
        },
        Ok(_) => fallback.handle(&*inst, buf, res),
        Err(()) => {
            proof {
                assert(FunctionCode::ReadCoils.spec_code() == 0x01);
                assert(FunctionCode::ReadDiscreteInputs.spec_code() == 0x02);
                assert(FunctionCode::ReadHoldingRegs.spec_code() == 0x03);
                assert(FunctionCode::ReadInputRegs.spec_code() == 0x04);
                assert(FunctionCode::WriteSingleCoil.spec_code() == 0x05);
                assert(FunctionCode::WriteMultipleCoils.spec_code() == 0x0F);
            }
            fallback.handle(&*inst, buf, res)
        },
    }
}

/// Handles one request PDU like [`handle_req`], consulting the host's
/// fallback handler for requests no built-in handler claims.
///
/// For claimed requests the response is exactly `response_spec`; for the
/// rest, the instance is untouched and the response is either the
/// fallback's own success payload behind the echoed function code, or the
/// two-byte error payload wrapping the status it reported.
pub fn handle_req_with<F: FallbackHandler>(
    inst: &mut Instance,
    fallback: &mut F,
    buf: &[u8],
    res: &mut PDUBuf,
) -> (n: usize)
    requires
        old(inst).wf(),
        old(res).wf(),
    ensures
        final(inst).wf(),
        final(res).wf(),
        n <= SIZE_MAX,
        buf@.len() == 0 ==> n == 0 && *final(res) == *old(res) && *final(inst) == *old(inst),
        buf@.len() >= 1 && core_handles(*old(inst), buf@) ==> {
            &&& n == final(res).size
            &&& n == response_spec(*old(inst), buf@).len()
            &&& final(res).p@.take(n as int) == response_spec(*old(inst), buf@)
            &&& inst_evolves(*old(inst), *final(inst), buf@)
            &&& n >= 2
        },
        buf@.len() >= 1 && !core_handles(*old(inst), buf@) ==> {
            &&& *final(inst) == *old(inst)
            &&& n == final(res).size
            &&& (final(res).p@[0] == buf@[0] || (n == 2 && final(res).p@[0] == (buf@[0]
                | ERR_FLAG)))
        },
{
    if buf.len() == 0 {
        return 0;
    }
    let fc = buf[0];
    res.p[0] = fc;
    res.size = 1;
    let st = handle_fn_with(inst, fallback, buf, res);
    match st {
        StatusCode::Okay => {},
        _ => {
            res.p[0] = fc | ERR_FLAG;
            res.p[1] = st.code();
            res.size = 2;
        },
    }
    proof {
        if core_handles(*old(inst), buf@) {
            assert(res.p@.take(res.size as int) =~= response_spec(*old(inst), buf@));
        }
    }
    res.size
}

} // verus!
