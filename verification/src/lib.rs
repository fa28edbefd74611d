//! A Modbus TCP master (client) protocol engine.
//!
//! The crate verifies the pure protocol logic: the bit/word binary codec
//! (`binary`), the 7-byte MBAP frame header, the per-connection transaction-id
//! sequencing, the request encoders and the response validators (`tcp`), and
//! the decision logic of the scope guards (`scoped`).  Socket I/O is left to
//! the embedding application, which drives a `tcp::Session` by writing the
//! request frames it builds and handing back the reply bytes it read.

use vstd::prelude::*;
use vstd::string::StringSliceAdditionalSpecFns;

pub mod binary;
mod client;
pub mod mei;
pub mod scoped;
pub mod tcp;

pub use client::Client;
pub use tcp::Config;

verus! {

/// `std::io::Error` carries the underlying cause of an `Error::Io` failure;
/// the crate only stores and moves such values, it never inspects them.
#[verifier::external_type_specification]
#[verifier::external_body]
pub struct ExIoError(std::io::Error);

/// Modbus exception codes returned from the server.
#[derive(Debug, Clone, Copy, PartialEq, Eq, Structural)]
pub enum ExceptionCode {
    IllegalFunction,
    IllegalDataAddress,
    IllegalDataValue,
    SlaveOrServerFailure,
    Acknowledge,
    SlaveOrServerBusy,
    NegativeAcknowledge,
    MemoryParity,
    NotDefined,
    GatewayPath,
    GatewayTarget,
}

/// The exception code denoted by a wire byte, if any; codes 0x01 through
/// 0x0b are defined.
pub open spec fn spec_exception_code(value: u8) -> Option<ExceptionCode> {
    if value == 0x01 {
        Some(ExceptionCode::IllegalFunction)
    } else if value == 0x02 {
        Some(ExceptionCode::IllegalDataAddress)
    } else if value == 0x03 {
        Some(ExceptionCode::IllegalDataValue)
    } else if value == 0x04 {
        Some(ExceptionCode::SlaveOrServerFailure)
    } else if value == 0x05 {
        Some(ExceptionCode::Acknowledge)
    } else if value == 0x06 {
        Some(ExceptionCode::SlaveOrServerBusy)
    } else if value == 0x07 {
        Some(ExceptionCode::NegativeAcknowledge)
    } else if value == 0x08 {
        Some(ExceptionCode::MemoryParity)
    } else if value == 0x09 {
        Some(ExceptionCode::NotDefined)
    } else if value == 0x0a {
        Some(ExceptionCode::GatewayPath)
    } else if value == 0x0b {
        Some(ExceptionCode::GatewayTarget)
    } else {
        None
    }
}

impl ExceptionCode {
    /// The wire byte of this exception code.
    pub open spec fn spec_code(self) -> u8 {
        match self {
            ExceptionCode::IllegalFunction => 0x01,
            ExceptionCode::IllegalDataAddress => 0x02,
            ExceptionCode::IllegalDataValue => 0x03,
            ExceptionCode::SlaveOrServerFailure => 0x04,
            ExceptionCode::Acknowledge => 0x05,
            ExceptionCode::SlaveOrServerBusy => 0x06,
            ExceptionCode::NegativeAcknowledge => 0x07,
            ExceptionCode::MemoryParity => 0x08,
            ExceptionCode::NotDefined => 0x09,
            ExceptionCode::GatewayPath => 0x0a,
            ExceptionCode::GatewayTarget => 0x0b,
        }
    }

    /// Decode an exception code from its wire byte.
    pub fn from_u8(value: u8) -> (r: Option<ExceptionCode>)
        ensures
            r == spec_exception_code(value),
    {
        match value {
            0x01 => Some(ExceptionCode::IllegalFunction),
            0x02 => Some(ExceptionCode::IllegalDataAddress),
            0x03 => Some(ExceptionCode::IllegalDataValue),
            0x04 => Some(ExceptionCode::SlaveOrServerFailure),
            0x05 => Some(ExceptionCode::Acknowledge),
            0x06 => Some(ExceptionCode::SlaveOrServerBusy),
            0x07 => Some(ExceptionCode::NegativeAcknowledge),
            0x08 => Some(ExceptionCode::MemoryParity),
            0x09 => Some(ExceptionCode::NotDefined),
            0x0a => Some(ExceptionCode::GatewayPath),
            0x0b => Some(ExceptionCode::GatewayTarget),
            _ => None,
        }
    }

    /// The wire byte of this exception code.
    pub fn code(self) -> (c: u8)
        ensures
            c == self.spec_code(),
    {
        match self {
            ExceptionCode::IllegalFunction => 0x01,
            ExceptionCode::IllegalDataAddress => 0x02,
            ExceptionCode::IllegalDataValue => 0x03,
            ExceptionCode::SlaveOrServerFailure => 0x04,
            ExceptionCode::Acknowledge => 0x05,
            ExceptionCode::SlaveOrServerBusy => 0x06,
            ExceptionCode::NegativeAcknowledge => 0x07,
            ExceptionCode::MemoryParity => 0x08,
            ExceptionCode::NotDefined => 0x09,
            ExceptionCode::GatewayPath => 0x0a,
            ExceptionCode::GatewayTarget => 0x0b,
        }
    }
}

/// `InvalidData` reasons.
#[derive(Debug)]
pub enum Reason {
    UnexpectedReplySize,
    BytecountNotEven,
    SendBufferEmpty,
    RecvBufferEmpty,
    SendBufferTooBig,
    DecodingError,
    EncodingError,
    InvalidByteorder,
    Custom(String),
}

/// Combination of Modbus, IO and data corruption errors.
#[derive(Debug)]
pub enum Error {
    Exception(ExceptionCode),
    Io(std::io::Error),
    InvalidResponse,
    InvalidData(Reason),
    InvalidFunction,
    ParseCoilError,
    ParseInfoError,
}

impl Error {
    /// A short description of the error kind, in words.
    pub fn description(&self) -> (r: &'static str)
        ensures
            r@.len() > 0,
            r@ == match self {
                Error::Exception(_) => "modbus exception"@,
                Error::Io(_) => "I/O error"@,
                Error::InvalidResponse => "invalid response"@,
                Error::InvalidData(_) => "invalid data"@,
                Error::InvalidFunction => "invalid modbus function"@,
                Error::ParseCoilError => "parse coil could not be parsed"@,
                Error::ParseInfoError => "failed parsing device info as utf8"@,
            },
    {
        let d = match self {
            Error::Exception(_) => "modbus exception",
            Error::Io(_) => "I/O error",
            Error::InvalidResponse => "invalid response",
            Error::InvalidData(_) => "invalid data",
            Error::InvalidFunction => "invalid modbus function",
            Error::ParseCoilError => "parse coil could not be parsed",
            Error::ParseInfoError => "failed parsing device info as utf8",
        };
        proof {
            reveal_strlit("modbus exception");
            reveal_strlit("I/O error");
            reveal_strlit("invalid response");
            reveal_strlit("invalid data");
            reveal_strlit("invalid modbus function");
            reveal_strlit("parse coil could not be parsed");
            reveal_strlit("failed parsing device info as utf8");
        }
        d
    }
}

impl vstd::std_specs::convert::FromSpecImpl<ExceptionCode> for Error {
    open spec fn obeys_from_spec() -> bool {
        true
    }

    open spec fn from_spec(code: ExceptionCode) -> Error {
        Error::Exception(code)
    }
}

impl From<ExceptionCode> for Error {
    /// A device-reported exception code wraps into `Error::Exception`.
    fn from(code: ExceptionCode) -> (r: Error) {
        Error::Exception(code)
    }
}

impl vstd::std_specs::convert::FromSpecImpl<std::io::Error> for Error {
    open spec fn obeys_from_spec() -> bool {
        true
    }

    open spec fn from_spec(err: std::io::Error) -> Error {
        Error::Io(err)
    }
}

impl From<std::io::Error> for Error {
    /// A socket or connection failure wraps into `Error::Io`.
    fn from(err: std::io::Error) -> (r: Error) {
        Error::Io(err)
    }
}

/// Single bit status values, used in read or write coil functions.
#[derive(Debug, Clone, Copy, PartialEq, Eq, Structural)]
pub enum Coil {
    On,
    Off,
}

impl Coil {
    /// The wire encoding of a coil value in a write-single-coil request.
    pub open spec fn spec_code(self) -> u16 {
        match self {
            Coil::On => 0xff00,
            Coil::Off => 0x0000,
        }
    }

    /// The wire encoding of a coil value in a write-single-coil request:
    /// `On` is 0xff00, `Off` is 0x0000.
    pub fn code(self) -> (c: u16)
        ensures
            c == self.spec_code(),
    {
        match self {
            Coil::On => 0xff00,
            Coil::Off => 0x0000,
        }
    }
}

impl vstd::std_specs::ops::NotSpecImpl for Coil {
    open spec fn obeys_not_spec() -> bool {
        true
    }

    open spec fn not_req(self) -> bool {
        true
    }

    open spec fn not_spec(self) -> Coil {
        match self {
            Coil::On => Coil::Off,
            Coil::Off => Coil::On,
        }
    }
}

impl core::ops::Not for Coil {
    type Output = Coil;

    /// Logical negation of a coil value.
    fn not(self) -> (r: Coil) {
        match self {
            Coil::On => Coil::Off,
            Coil::Off => Coil::On,
        }
    }
}

impl vstd::std_specs::convert::FromSpecImpl<bool> for Coil {
    open spec fn obeys_from_spec() -> bool {
        true
    }

    open spec fn from_spec(b: bool) -> Coil {
        if b {
            Coil::On
        } else {
            Coil::Off
        }
    }
}

impl From<bool> for Coil {
    /// `true` is `On`, `false` is `Off`.
    fn from(b: bool) -> (r: Coil) {
        if b {
            Coil::On
        } else {
            Coil::Off
        }
    }
}

/// The bytes of the literal token for `Coil::On`.
pub open spec fn on_token() -> Seq<u8> {
    seq!['O' as u8, 'n' as u8]
}

/// The bytes of the literal token for `Coil::Off`.
pub open spec fn off_token() -> Seq<u8> {
    seq!['O' as u8, 'f' as u8, 'f' as u8]
}

/// Parse a coil from the literal tokens "On" and "Off"; anything else
/// fails with `ParseCoilError`.
fn coil_from_token(s: &str) -> (r: Result<Coil, Error>)
    ensures
        ({
            let b = s.spec_bytes();
            &&& b =~= on_token() ==> (r matches Ok(c) && c == Coil::On)
            &&& b =~= off_token() ==> (r matches Ok(c) && c == Coil::Off)
            &&& !(b =~= on_token()) && !(b =~= off_token()) ==> (r matches Err(e) && e
                == Error::ParseCoilError)
        }),
{
    let b = s.as_bytes();
    if b.len() == 2 && b[0] == 'O' as u8 && b[1] == 'n' as u8 {
        Ok(Coil::On)
    } else if b.len() == 3 && b[0] == 'O' as u8 && b[1] == 'f' as u8 && b[2] == 'f' as u8 {
        Ok(Coil::Off)
    } else {
        Err(Error::ParseCoilError)
    }
}

impl core::str::FromStr for Coil {
    type Err = Error;

    /// Parse a coil from the literal tokens "On" and "Off"; anything else
    /// fails with `ParseCoilError`.
    fn from_str(s: &str) -> Result<Coil, Error> {
        coil_from_token(s)
    }
}

/// A request descriptor: one variant per supported operation, carrying its
/// address, quantity, value, or payload bytes.  A `Function` owns no
/// connection state; it is built per call and mapped to exactly one
/// function code.
pub enum Function {
    ReadCoils(u16, u16),
    ReadDiscreteInputs(u16, u16),
    ReadHoldingRegisters(u16, u16),
    ReadInputRegisters(u16, u16),
    WriteSingleCoil(u16, u16),
    WriteSingleRegister(u16, u16),
    WriteMultipleCoils(u16, u16, Vec<u8>),
    WriteMultipleRegisters(u16, u16, Vec<u8>),
}

impl Function {
    /// The Modbus function code of this operation.
    pub open spec fn spec_code(&self) -> u8 {
        match self {
            Function::ReadCoils(_, _) => 0x01,
            Function::ReadDiscreteInputs(_, _) => 0x02,
            Function::ReadHoldingRegisters(_, _) => 0x03,
            Function::ReadInputRegisters(_, _) => 0x04,
            Function::WriteSingleCoil(_, _) => 0x05,
            Function::WriteSingleRegister(_, _) => 0x06,
            Function::WriteMultipleCoils(_, _, _) => 0x0f,
            Function::WriteMultipleRegisters(_, _, _) => 0x10,
        }
    }

    /// The Modbus function code of this operation.
    pub fn code(&self) -> (c: u8)
        ensures
            c == self.spec_code(),
    {
        match self {
            Function::ReadCoils(_, _) => 0x01,
            Function::ReadDiscreteInputs(_, _) => 0x02,
            Function::ReadHoldingRegisters(_, _) => 0x03,
            Function::ReadInputRegisters(_, _) => 0x04,
            Function::WriteSingleCoil(_, _) => 0x05,
            Function::WriteSingleRegister(_, _) => 0x06,
            Function::WriteMultipleCoils(_, _, _) => 0x0f,
            Function::WriteMultipleRegisters(_, _, _) => 0x10,
        }
    }
}

} // verus!
