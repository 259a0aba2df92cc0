//! Protocol-wide definitions: status codes, function codes, the error flag,
//! and big/little-endian 16-bit helpers.

use vstd::prelude::*;

verus! {

/// Flag set on the echoed function-code byte of an error response.
pub const ERR_FLAG: u8 = 0x80;

/// Outcome of handling one request, as reported inside a response.
///
/// Only `Okay` signals a success payload; every other value becomes a
/// single-byte error payload after the echoed function code.
#[derive(Clone, Copy, Debug, PartialEq, Eq, Structural)]
pub enum StatusCode {
    Okay,
    /// Function code received in the query is not recognized or allowed.
    IllegalFunction,
    /// Data address of some or all the required entities does not exist
    /// or is not allowed.
    IllegalDataAddress,
    /// Value is not accepted.
    IllegalDataValue,
    /// Unrecoverable error while attempting the requested action.
    DeviceFailure,
    /// Request accepted, processing takes a long duration.
    Acknowledge,
    /// Engaged in a long-duration command; the client should retry later.
    Busy,
    /// The programming function cannot be performed.
    NegativeAcknowledge,
    /// Parity error in memory.
    MemoryParityError,
}

impl StatusCode {
    /// The wire value of this status.
    pub open spec fn spec_code(self) -> u8 {
        match self {
            StatusCode::Okay => 0x00,
            StatusCode::IllegalFunction => 0x01,
            StatusCode::IllegalDataAddress => 0x02,
            StatusCode::IllegalDataValue => 0x03,
            StatusCode::DeviceFailure => 0x04,
            StatusCode::Acknowledge => 0x05,
            StatusCode::Busy => 0x06,
            StatusCode::NegativeAcknowledge => 0x07,
            StatusCode::MemoryParityError => 0x08,
        }
    }

    #[verifier::when_used_as_spec(spec_code)]
    pub fn code(self) -> (r: u8)
        ensures
            r == self.spec_code(),
    {
        match self {
            StatusCode::Okay => 0x00,
            StatusCode::IllegalFunction => 0x01,
            StatusCode::IllegalDataAddress => 0x02,
            StatusCode::IllegalDataValue => 0x03,
            StatusCode::DeviceFailure => 0x04,
            StatusCode::Acknowledge => 0x05,
            StatusCode::Busy => 0x06,
            StatusCode::NegativeAcknowledge => 0x07,
            StatusCode::MemoryParityError => 0x08,
        }
    }
}

/// The function codes of the protocol's numbering space that this engine
/// recognizes. Only the coil and register reads, the coil writes, and
/// nothing else is implemented; the rest resolve to `IllegalFunction`.
#[derive(Clone, Copy, Debug, PartialEq, Eq, Structural)]
pub enum FunctionCode {
    ReadCoils,
    ReadDiscreteInputs,
    ReadHoldingRegs,
    ReadInputRegs,
    WriteSingleCoil,
    WriteSingleReg,
    ReadExceptionStatus,
    Diagnostics,
    CommEventCounter,
    CommEventLog,
    WriteMultipleCoils,
    WriteMultipleRegs,
    ReportSlaveId,
    ReadFileRecord,
    WriteFileRecord,
    MaskWriteReg,
    ReadWriteRegs,
    ReadFifoQueue,
}

impl FunctionCode {
    /// The wire value of this function code.
    pub open spec fn spec_code(self) -> u8 {
        match self {
            FunctionCode::ReadCoils => 0x01,
            FunctionCode::ReadDiscreteInputs => 0x02,
            FunctionCode::ReadHoldingRegs => 0x03,
            FunctionCode::ReadInputRegs => 0x04,
            FunctionCode::WriteSingleCoil => 0x05,
            FunctionCode::WriteSingleReg => 0x06,
            FunctionCode::ReadExceptionStatus => 0x07,
            FunctionCode::Diagnostics => 0x08,
            FunctionCode::CommEventCounter => 0x0B,
            FunctionCode::CommEventLog => 0x0C,
            FunctionCode::WriteMultipleCoils => 0x0F,
            FunctionCode::WriteMultipleRegs => 0x10,
            FunctionCode::ReportSlaveId => 0x11,
            FunctionCode::ReadFileRecord => 0x14,
            FunctionCode::WriteFileRecord => 0x15,
            FunctionCode::MaskWriteReg => 0x16,
            FunctionCode::ReadWriteRegs => 0x17,
            FunctionCode::ReadFifoQueue => 0x18,
        }
    }

    #[verifier::when_used_as_spec(spec_code)]
    pub fn code(self) -> (r: u8)
        ensures
            r == self.spec_code(),
    {
        match self {
            FunctionCode::ReadCoils => 0x01,
            FunctionCode::ReadDiscreteInputs => 0x02,
            FunctionCode::ReadHoldingRegs => 0x03,
            FunctionCode::ReadInputRegs => 0x04,
            FunctionCode::WriteSingleCoil => 0x05,
            FunctionCode::WriteSingleReg => 0x06,
            FunctionCode::ReadExceptionStatus => 0x07,
            FunctionCode::Diagnostics => 0x08,
            FunctionCode::CommEventCounter => 0x0B,
            FunctionCode::CommEventLog => 0x0C,
            FunctionCode::WriteMultipleCoils => 0x0F,
            FunctionCode::WriteMultipleRegs => 0x10,
            FunctionCode::ReportSlaveId => 0x11,
            FunctionCode::ReadFileRecord => 0x14,
            FunctionCode::WriteFileRecord => 0x15,
            FunctionCode::MaskWriteReg => 0x16,
            FunctionCode::ReadWriteRegs => 0x17,
            FunctionCode::ReadFifoQueue => 0x18,
        }
    }

    /// Decode a function-code byte; `Err` exactly when no recognized code
    /// carries that value.
    pub fn try_from(value: u8) -> (r: Result<FunctionCode, ()>)
        ensures
            match r {
                Ok(fc) => fc.spec_code() == value,
                Err(_) => forall|fc: FunctionCode| #[trigger] fc.spec_code() != value,
            },
    {
        match value {
            0x01 => Ok(FunctionCode::ReadCoils),
            0x02 => Ok(FunctionCode::ReadDiscreteInputs),
            0x03 => Ok(FunctionCode::ReadHoldingRegs),
            0x04 => Ok(FunctionCode::ReadInputRegs),
            0x05 => Ok(FunctionCode::WriteSingleCoil),
            0x06 => Ok(FunctionCode::WriteSingleReg),
            0x07 => Ok(FunctionCode::ReadExceptionStatus),
            0x08 => Ok(FunctionCode::Diagnostics),
            0x0B => Ok(FunctionCode::CommEventCounter),
            0x0C => Ok(FunctionCode::CommEventLog),
            0x0F => Ok(FunctionCode::WriteMultipleCoils),
            0x10 => Ok(FunctionCode::WriteMultipleRegs),
            0x11 => Ok(FunctionCode::ReportSlaveId),
            0x14 => Ok(FunctionCode::ReadFileRecord),
            0x15 => Ok(FunctionCode::WriteFileRecord),
            0x16 => Ok(FunctionCode::MaskWriteReg),
            0x17 => Ok(FunctionCode::ReadWriteRegs),
            0x18 => Ok(FunctionCode::ReadFifoQueue),
            _ => Err(()),
        }
    }
}

/// A 16-bit value read big-endian from two bytes.
pub open spec fn be16(hi: u8, lo: u8) -> u16 {
    ((hi as u16) << 8) | (lo as u16)
}

/// A 16-bit value read little-endian from two bytes.
pub open spec fn le16(lo: u8, hi: u8) -> u16 {
    ((hi as u16) << 8) | (lo as u16)
}

/// Reads a big-endian 16-bit value from two bytes.
pub fn u16_from_be(hi: u8, lo: u8) -> (r: u16)
    ensures
        r == be16(hi, lo),
{
    ((hi as u16) << 8) | (lo as u16)
}

/// Reads a little-endian 16-bit value from two bytes.
pub fn u16_from_le(lo: u8, hi: u8) -> (r: u16)
    ensures
        r == le16(lo, hi),
{
    ((hi as u16) << 8) | (lo as u16)
}

/// Big-endian and little-endian reads recover a value from its own bytes.
pub proof fn lemma_u16_bytes_roundtrip(v: u16)
    ensures
        be16((v >> 8) as u8, (v & 0xFF) as u8) == v,
        le16((v & 0xFF) as u8, (v >> 8) as u8) == v,
{
    assert((((((v >> 8) as u8) as u16) << 8) | (((v & 0xFF) as u8) as u16)) == v) by (bit_vector);
}

} // verus!
