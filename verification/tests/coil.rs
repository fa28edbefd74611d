use modbus::{Coil, Error, ExceptionCode};

#[test]
fn test_coil_booleanness() {
    let a: Coil = true.into();
    assert_ne!(a, !a);
    assert_eq!(a, !!a);
    let b: Coil = false.into();
    assert_eq!(a, !b);
}

#[test]
fn coil_wire_code() {
    assert_eq!(Coil::On.code(), 0xff00);
    assert_eq!(Coil::Off.code(), 0x0000);
}

#[test]
fn coil_from_tokens() {
    assert_eq!("On".parse::<Coil>().unwrap(), Coil::On);
    assert_eq!("Off".parse::<Coil>().unwrap(), Coil::Off);
    assert!(matches!("on".parse::<Coil>(), Err(Error::ParseCoilError)));
    assert!(matches!("".parse::<Coil>(), Err(Error::ParseCoilError)));
    assert!(matches!("Onn".parse::<Coil>(), Err(Error::ParseCoilError)));
}

#[test]
fn error_descriptions_are_nonempty() {
    let errors = vec![
        Error::Exception(modbus::ExceptionCode::Acknowledge),
        Error::InvalidResponse,
        Error::InvalidData(modbus::Reason::UnexpectedReplySize),
        Error::InvalidFunction,
        Error::ParseCoilError,
        Error::ParseInfoError,
    ];
    for e in &errors {
        assert!(!e.description().is_empty());
    }
    assert_eq!(Error::InvalidResponse.description(), "invalid response");
    assert_eq!(Error::InvalidFunction.description(), "invalid modbus function");
}

#[test]
fn exception_code_wire_bytes() {
    let codes = [
        (0x01, ExceptionCode::IllegalFunction),
        (0x02, ExceptionCode::IllegalDataAddress),
        (0x03, ExceptionCode::IllegalDataValue),
        (0x04, ExceptionCode::SlaveOrServerFailure),
        (0x05, ExceptionCode::Acknowledge),
        (0x06, ExceptionCode::SlaveOrServerBusy),
        (0x07, ExceptionCode::NegativeAcknowledge),
        (0x08, ExceptionCode::MemoryParity),
        (0x09, ExceptionCode::NotDefined),
        (0x0a, ExceptionCode::GatewayPath),
        (0x0b, ExceptionCode::GatewayTarget),
    ];
    for (byte, code) in codes {
        assert_eq!(ExceptionCode::from_u8(byte), Some(code));
        assert_eq!(code.code(), byte);
    }
    assert_eq!(ExceptionCode::from_u8(0x00), None);
    assert_eq!(ExceptionCode::from_u8(0x0c), None);
    assert_eq!(ExceptionCode::from_u8(0xff), None);
}
