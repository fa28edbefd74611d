//! Full exchanges against a simulated device: the session builds each
//! request frame, the device answers in bytes, and the reply validators and
//! codec decode the answer.

use modbus::binary::{pack_bits, pack_bytes, unpack_bits, unpack_bytes};
use modbus::tcp::{read_reply, write_reply, Session};
use modbus::{Client, Coil, Error, ExceptionCode, Function, Reason};

/// An in-memory device holding coil and register banks.
struct Device {
    coils: Vec<bool>,
    discrete: Vec<bool>,
    holding: Vec<u16>,
    input: Vec<u16>,
}

impl Device {
    fn new() -> Device {
        Device {
            coils: vec![false; 256],
            discrete: vec![false; 256],
            holding: vec![0; 256],
            input: vec![0; 256],
        }
    }

    /// Answer one request frame, as the bytes a socket read of exactly
    /// `reply_len` bytes into a zeroed buffer would produce.
    fn respond(&mut self, frame: &[u8], reply_len: usize) -> Vec<u8> {
        let tid = [frame[0], frame[1]];
        let uid = frame[6];
        let code = frame[7];
        let addr = u16::from_be_bytes([frame[8], frame[9]]) as usize;
        let mut reply: Vec<u8> = Vec::new();
        match code {
            0x01 | 0x02 => {
                let qty = u16::from_be_bytes([frame[10], frame[11]]) as usize;
                let bank = if code == 0x01 { &self.coils } else { &self.discrete };
                let mut payload = vec![0u8; (qty + 7) / 8];
                for i in 0..qty {
                    if bank[addr + i] {
                        payload[i / 8] |= 1 << (i % 8);
                    }
                }
                reply.extend_from_slice(&tid);
                reply.extend_from_slice(&[0, 0]);
                reply.extend_from_slice(&((3 + payload.len()) as u16).to_be_bytes());
                reply.push(uid);
                reply.push(code);
                reply.push(payload.len() as u8);
                reply.extend_from_slice(&payload);
            }
            0x03 | 0x04 => {
                let qty = u16::from_be_bytes([frame[10], frame[11]]) as usize;
                let bank = if code == 0x03 { &self.holding } else { &self.input };
                let mut payload: Vec<u8> = Vec::new();
                for i in 0..qty {
                    payload.extend_from_slice(&bank[addr + i].to_be_bytes());
                }
                reply.extend_from_slice(&tid);
                reply.extend_from_slice(&[0, 0]);
                reply.extend_from_slice(&((3 + payload.len()) as u16).to_be_bytes());
                reply.push(uid);
                reply.push(code);
                reply.push(payload.len() as u8);
                reply.extend_from_slice(&payload);
            }
            0x05 => {
                let value = u16::from_be_bytes([frame[10], frame[11]]);
                self.coils[addr] = value == 0xff00;
                reply.extend_from_slice(&frame[0..12]);
            }
            0x06 => {
                let value = u16::from_be_bytes([frame[10], frame[11]]);
                self.holding[addr] = value;
                reply.extend_from_slice(&frame[0..12]);
            }
            0x0f => {
                let qty = u16::from_be_bytes([frame[10], frame[11]]) as usize;
                for i in 0..qty {
                    self.coils[addr + i] = (frame[13 + i / 8] >> (i % 8)) & 1 == 1;
                }
                reply.extend_from_slice(&frame[0..12]);
            }
            0x10 => {
                let qty = u16::from_be_bytes([frame[10], frame[11]]) as usize;
                for i in 0..qty {
                    self.holding[addr + i] =
                        u16::from_be_bytes([frame[13 + 2 * i], frame[14 + 2 * i]]);
                }
                reply.extend_from_slice(&frame[0..12]);
            }
            _ => panic!("unsupported function code {}", code),
        }
        reply.resize(reply_len, 0);
        reply
    }
}

/// A transport over the simulated device, substituting for the TCP one.
struct MockTransport {
    session: Session,
    device: Device,
}

impl MockTransport {
    fn new() -> MockTransport {
        MockTransport { session: Session::new(1), device: Device::new() }
    }

    fn read_exchange(&mut self, fun: Function) -> Result<Vec<u8>, Error> {
        let request = self.session.read_request(&fun)?;
        let reply = self.device.respond(&request.frame, request.reply_len());
        read_reply(&request, &reply)
    }

    fn write_single_exchange(&mut self, fun: Function) -> Result<(), Error> {
        let request = self.session.write_single(&fun)?;
        let reply = self.device.respond(&request.frame, 12);
        write_reply(&request, &reply)
    }

    fn write_multiple_exchange(&mut self, fun: Function) -> Result<(), Error> {
        let request = self.session.write_multiple(&fun)?;
        let reply = self.device.respond(&request.frame, 12);
        write_reply(&request, &reply)
    }
}

impl Client for MockTransport {
    fn read_coils(&mut self, address: u16, quantity: u16) -> Result<Vec<Coil>, Error> {
        let bytes = self.read_exchange(Function::ReadCoils(address, quantity))?;
        Ok(unpack_bits(&bytes, quantity))
    }

    fn read_discrete_inputs(&mut self, address: u16, quantity: u16) -> Result<Vec<Coil>, Error> {
        let bytes = self.read_exchange(Function::ReadDiscreteInputs(address, quantity))?;
        Ok(unpack_bits(&bytes, quantity))
    }

    fn read_holding_registers(&mut self, address: u16, quantity: u16) -> Result<Vec<u16>, Error> {
        let bytes = self.read_exchange(Function::ReadHoldingRegisters(address, quantity))?;
        pack_bytes(&bytes)
    }

    fn read_input_registers(&mut self, address: u16, quantity: u16) -> Result<Vec<u16>, Error> {
        let bytes = self.read_exchange(Function::ReadInputRegisters(address, quantity))?;
        pack_bytes(&bytes)
    }

    fn write_single_coil(&mut self, address: u16, value: Coil) -> Result<(), Error> {
        self.write_single_exchange(Function::WriteSingleCoil(address, value.code()))
    }

    fn write_single_register(&mut self, address: u16, value: u16) -> Result<(), Error> {
        self.write_single_exchange(Function::WriteSingleRegister(address, value))
    }

    fn write_multiple_coils(&mut self, address: u16, coils: &[Coil]) -> Result<(), Error> {
        let bytes = pack_bits(coils);
        self.write_multiple_exchange(Function::WriteMultipleCoils(
            address,
            coils.len() as u16,
            bytes,
        ))
    }

    fn write_multiple_registers(&mut self, address: u16, values: &[u16]) -> Result<(), Error> {
        let bytes = unpack_bytes(values);
        self.write_multiple_exchange(Function::WriteMultipleRegisters(
            address,
            values.len() as u16,
            bytes,
        ))
    }

    fn write_read_multiple_registers(
        &mut self,
        write_address: u16,
        write_quantity: u16,
        write_values: &[u16],
        read_address: u16,
        read_quantity: u16,
    ) -> Result<Vec<u16>, Error> {
        let _ = write_quantity;
        self.write_multiple_registers(write_address, write_values)?;
        self.read_holding_registers(read_address, read_quantity)
    }

    fn set_uid(&mut self, uid: u8) {
        self.session.set_uid(uid);
    }
}

#[test]
fn test_read_coils() {
    let mut trans = MockTransport::new();
    assert_eq!(trans.read_coils(0, 5).unwrap().len(), 5);
    assert!(trans.read_coils(0, 5).unwrap().iter().all(|c| *c == Coil::Off));
}

#[test]
fn test_read_discrete_inputs() {
    let mut trans = MockTransport::new();
    assert_eq!(trans.read_discrete_inputs(0, 5).unwrap().len(), 5);
    assert!(trans.read_discrete_inputs(0, 5).unwrap().iter().all(|c| *c == Coil::Off));
}

#[test]
fn test_read_holding_registers() {
    let mut trans = MockTransport::new();
    assert_eq!(trans.read_holding_registers(0, 5).unwrap().len(), 5);
    assert!(trans.read_holding_registers(0, 5).unwrap().iter().all(|c| *c == 0));
}

#[test]
fn test_read_input_registers() {
    let mut trans = MockTransport::new();
    assert_eq!(trans.read_input_registers(0, 5).unwrap().len(), 5);
    assert!(trans.read_input_registers(0, 5).unwrap().iter().all(|c| *c == 0));
}

#[test]
fn test_write_single_coil() {
    let mut trans = MockTransport::new();
    assert!(trans.write_single_coil(0, Coil::On).is_ok());
}

#[test]
fn test_write_single_register() {
    let mut trans = MockTransport::new();
    assert!(trans.write_single_register(0, 1).is_ok());
}

#[test]
fn test_write_multiple_coils() {
    let mut trans = MockTransport::new();
    assert!(trans.write_multiple_coils(0, &[Coil::On, Coil::Off]).is_ok());
}

#[test]
fn test_write_multiple_registers() {
    let mut trans = MockTransport::new();
    assert!(trans.write_multiple_registers(0, &[0, 1, 2, 3]).is_ok());
}

#[test]
fn test_write_read_single_coils() {
    let mut trans = MockTransport::new();

    assert!(trans.write_single_coil(1, Coil::On).is_ok());
    assert!(trans.write_single_coil(3, Coil::On).is_ok());
    assert_eq!(
        trans.read_coils(0, 5).unwrap(),
        vec![Coil::Off, Coil::On, Coil::Off, Coil::On, Coil::Off]
    );
    assert_eq!(
        trans.read_coils(1, 5).unwrap(),
        vec![Coil::On, Coil::Off, Coil::On, Coil::Off, Coil::Off]
    );
    assert!(trans.write_single_coil(10, Coil::On).is_ok());
    assert!(trans.write_single_coil(11, Coil::On).is_ok());
    assert_eq!(
        trans.read_coils(9, 4).unwrap(),
        vec![Coil::Off, Coil::On, Coil::On, Coil::Off]
    );
    assert!(trans.write_single_coil(10, Coil::Off).is_ok());
    assert!(trans.write_single_coil(11, Coil::Off).is_ok());
    assert_eq!(
        trans.read_coils(9, 4).unwrap(),
        vec![Coil::Off, Coil::Off, Coil::Off, Coil::Off]
    );
}

#[test]
fn test_write_read_single_register() {
    let mut trans = MockTransport::new();
    assert!(trans.write_single_register(0, 23).is_ok());
    assert_eq!(trans.read_holding_registers(0, 1).unwrap(), vec![23]);
    assert!(trans.write_single_register(0, 0).is_ok());
    assert_eq!(trans.read_holding_registers(0, 1).unwrap(), vec![0]);
    assert_eq!(trans.read_input_registers(0, 1).unwrap(), vec![0]);
    assert!(trans.write_single_register(0, 23).is_ok());
    assert!(trans.write_single_register(1, 24).is_ok());
    assert_eq!(trans.read_holding_registers(0, 2).unwrap(), vec![23, 24]);
}

#[test]
fn test_write_read_multiple_coils() {
    let mut trans = MockTransport::new();
    assert!(trans.write_multiple_coils(0, &[Coil::Off, Coil::On]).is_ok());
    assert_eq!(
        trans.read_coils(0, 3).unwrap(),
        &[Coil::Off, Coil::On, Coil::Off]
    );
    assert!(trans.write_multiple_coils(0, &[Coil::On; 9]).is_ok());
    assert_eq!(trans.read_coils(0, 9).unwrap(), &[Coil::On; 9]);
}

#[test]
fn test_write_read_multiple_registers() {
    let mut trans = MockTransport::new();
    assert!(trans.write_multiple_registers(0, &[23]).is_ok());
    assert_eq!(trans.read_holding_registers(0, 1).unwrap(), &[23]);
    assert!(trans.write_multiple_registers(0, &[1, 2, 3]).is_ok());
    assert_eq!(trans.read_holding_registers(0, 1).unwrap(), &[1]);
    assert_eq!(trans.read_holding_registers(1, 1).unwrap(), &[2]);
    assert_eq!(trans.read_holding_registers(2, 1).unwrap(), &[3]);
    assert_eq!(trans.read_holding_registers(0, 3).unwrap(), &[1, 2, 3]);
}

#[test]
fn test_write_too_big() {
    let mut trans = MockTransport::new();
    assert!(trans.write_multiple_registers(0, &[0xdead; 123]).is_ok());
    assert!(trans.write_multiple_registers(0, &[0xdead; 124]).is_err());
}

// The oversized frame fails with exactly `SendBufferTooBig`; one register
// less yields a frame one byte under the ceiling and succeeds.
#[test]
fn write_too_big_reason() {
    let mut session = Session::new(1);
    let bytes = unpack_bytes(&[0xdead; 124]);
    let r = session.write_multiple(&Function::WriteMultipleRegisters(0, 124, bytes));
    assert!(matches!(
        r,
        Err(Error::InvalidData(Reason::SendBufferTooBig))
    ));
    // the failed attempt must not have advanced the transaction id
    assert_eq!(session.tid, 0);

    let bytes = unpack_bytes(&[0xdead; 123]);
    let r = session.write_multiple(&Function::WriteMultipleRegisters(0, 123, bytes));
    assert!(r.is_ok());
    assert_eq!(session.tid, 1);
}

// A device reply with the exception bit set and exception byte 0x02 fails
// the read with `Exception(IllegalDataAddress)`, whatever the payload.
#[test]
fn read_exception_reply() {
    let mut session = Session::new(1);
    let request = session.read_request(&Function::ReadCoils(0, 5)).unwrap();
    let mut reply = vec![0u8; request.reply_len()];
    reply[0..2].copy_from_slice(&request.frame[0..2]); // echo the tid
    reply[2] = 0;
    reply[3] = 0; // protocol id 0
    reply[7] = request.frame[7] | 0x80; // exception bit on the function code
    reply[8] = 0x02;
    let r = read_reply(&request, &reply);
    assert!(matches!(
        r,
        Err(Error::Exception(ExceptionCode::IllegalDataAddress))
    ));
}

// An exception byte outside 0x01..=0x0b is an invalid response.
#[test]
fn read_exception_reply_unknown_code() {
    let mut session = Session::new(1);
    let request = session.read_request(&Function::ReadCoils(0, 5)).unwrap();
    let mut reply = vec![0u8; request.reply_len()];
    reply[0..2].copy_from_slice(&request.frame[0..2]);
    reply[7] = request.frame[7] | 0x80;
    reply[8] = 0x77;
    assert!(matches!(read_reply(&request, &reply), Err(Error::InvalidResponse)));
}

// A reply whose transaction id differs from the request is rejected.
#[test]
fn read_reply_tid_mismatch() {
    let mut session = Session::new(1);
    let request = session.read_request(&Function::ReadCoils(0, 5)).unwrap();
    let mut reply = vec![0u8; request.reply_len()];
    reply[0] = request.frame[0];
    reply[1] = request.frame[1].wrapping_add(1);
    reply[7] = request.frame[7];
    reply[8] = 1;
    assert!(matches!(read_reply(&request, &reply), Err(Error::InvalidResponse)));
}

// A reply announcing the wrong byte count fails with UnexpectedReplySize.
#[test]
fn read_reply_wrong_byte_count() {
    let mut session = Session::new(1);
    let request = session.read_request(&Function::ReadCoils(0, 5)).unwrap();
    let mut reply = vec![0u8; request.reply_len()];
    reply[0..2].copy_from_slice(&request.frame[0..2]);
    reply[7] = request.frame[7];
    reply[8] = 2; // 5 coils pack into 1 byte, not 2
    assert!(matches!(
        read_reply(&request, &reply),
        Err(Error::InvalidData(Reason::UnexpectedReplySize))
    ));
}

// Routing a write descriptor to the read path is caught, and conversely.
#[test]
fn misrouted_function_fails() {
    let mut session = Session::new(1);
    assert!(matches!(
        session.read_request(&Function::WriteSingleCoil(0, 0xff00)),
        Err(Error::InvalidFunction)
    ));
    assert!(matches!(
        session.write_single(&Function::ReadCoils(0, 1)),
        Err(Error::InvalidFunction)
    ));
    assert!(matches!(
        session.write_multiple(&Function::WriteSingleCoil(0, 0)),
        Err(Error::InvalidFunction)
    ));
    assert_eq!(session.tid, 0);
}

// A zero quantity is rejected before anything reaches the wire.
#[test]
fn read_zero_quantity_rejected() {
    let mut session = Session::new(1);
    assert!(matches!(
        session.read_request(&Function::ReadCoils(0, 0)),
        Err(Error::InvalidData(Reason::RecvBufferEmpty))
    ));
}

// A quantity whose expected reply payload would exceed the maximum packet
// size is rejected.
#[test]
fn read_oversized_quantity_rejected() {
    let mut session = Session::new(1);
    assert!(matches!(
        session.read_request(&Function::ReadHoldingRegisters(0, 131)),
        Err(Error::InvalidData(Reason::UnexpectedReplySize))
    ));
    assert!(session.read_request(&Function::ReadHoldingRegisters(0, 130)).is_ok());
    assert!(matches!(
        session.read_request(&Function::ReadCoils(0, 2088)),
        Err(Error::InvalidData(Reason::UnexpectedReplySize))
    ));
    assert!(session.read_request(&Function::ReadCoils(0, 2080)).is_ok());
}

// The read request frame has the exact wire layout of the specification.
#[test]
fn read_request_wire_layout() {
    let mut session = Session::new(0x11);
    let request = session.read_request(&Function::ReadCoils(0x0203, 0x0405)).unwrap();
    assert_eq!(
        request.frame,
        vec![0x00, 0x01, 0x00, 0x00, 0x00, 0x06, 0x11, 0x01, 0x02, 0x03, 0x04, 0x05]
    );
    assert_eq!(request.expected_bytes, (0x0405 + 7) / 8);
}

// The write-single request frame has the exact wire layout, with the coil
// value encoded via its wire code.
#[test]
fn write_single_wire_layout() {
    let mut session = Session::new(0x11);
    let request = session
        .write_single(&Function::WriteSingleCoil(0x0001, Coil::On.code()))
        .unwrap();
    assert_eq!(
        request.frame,
        vec![0x00, 0x01, 0x00, 0x00, 0x00, 0x06, 0x11, 0x05, 0x00, 0x01, 0xff, 0x00]
    );
}

// The write-multiple request frame carries quantity, byte count and the
// packed payload.
#[test]
fn write_multiple_wire_layout() {
    let mut session = Session::new(0x11);
    let payload = pack_bits(&[Coil::On; 9]);
    let request = session
        .write_multiple(&Function::WriteMultipleCoils(0x0001, 9, payload))
        .unwrap();
    assert_eq!(
        request.frame,
        vec![0x00, 0x01, 0x00, 0x00, 0x00, 0x09, 0x11, 0x0f, 0x00, 0x01, 0x00, 0x09, 0x02, 0xff,
            0x01]
    );
}

// Each operation maps to exactly its Modbus function code.
#[test]
fn function_codes() {
    assert_eq!(Function::ReadCoils(0, 1).code(), 0x01);
    assert_eq!(Function::ReadDiscreteInputs(0, 1).code(), 0x02);
    assert_eq!(Function::ReadHoldingRegisters(0, 1).code(), 0x03);
    assert_eq!(Function::ReadInputRegisters(0, 1).code(), 0x04);
    assert_eq!(Function::WriteSingleCoil(0, 0).code(), 0x05);
    assert_eq!(Function::WriteSingleRegister(0, 0).code(), 0x06);
    assert_eq!(Function::WriteMultipleCoils(0, 1, vec![1]).code(), 0x0f);
    assert_eq!(Function::WriteMultipleRegisters(0, 1, vec![0, 1]).code(), 0x10);
}
