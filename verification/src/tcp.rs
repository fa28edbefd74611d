//! The Modbus TCP protocol engine: MBAP frame header, per-connection
//! transaction-id sequencing, request encoders, and response validators.
//!
//! A `Session` holds the pure per-connection state (transaction-id counter
//! and unit id).  The embedding application owns the socket: it asks the
//! session to build a request frame, writes the frame, reads the fixed-size
//! reply, and hands the reply bytes back for validation and decoding.

use vstd::prelude::*;

use crate::binary::{hi_byte, lo_byte, packed_bits_len, word_from_bytes};
use crate::{spec_exception_code, Error, ExceptionCode, Function, Reason};

verus! {

pub const MODBUS_PROTOCOL_TCP: u16 = 0x0000;

pub const MODBUS_TCP_DEFAULT_PORT: u16 = 502;

pub const MODBUS_HEADER_SIZE: usize = 7;

pub const MODBUS_MAX_PACKET_SIZE: usize = 260;

/// Config structure for more control over the tcp socket settings.
#[derive(Clone, Copy)]
pub struct Config {
    /// The TCP port to use for communication (Default: `502`).
    pub tcp_port: u16,
    /// Connection timeout for TCP socket (Default: `OS Default`).
    pub tcp_connect_timeout: Option<core::time::Duration>,
    /// Timeout when reading from the TCP socket (Default: `infinite`).
    pub tcp_read_timeout: Option<core::time::Duration>,
    /// Timeout when writing to the TCP socket (Default: `infinite`).
    pub tcp_write_timeout: Option<core::time::Duration>,
    /// The modbus Unit Identifier used in the modbus layer (Default: `1`).
    pub modbus_uid: u8,
}

impl Default for Config {
    fn default() -> (c: Config)
        ensures
            c.tcp_port == MODBUS_TCP_DEFAULT_PORT,
            c.tcp_connect_timeout is None,
            c.tcp_read_timeout is None,
            c.tcp_write_timeout is None,
            c.modbus_uid == 1,
    {
        Config {
            tcp_port: MODBUS_TCP_DEFAULT_PORT,
            tcp_connect_timeout: None,
            tcp_read_timeout: None,
            tcp_write_timeout: None,
            modbus_uid: 1,
        }
    }
}

/// The transaction id that follows `t`: incremented by one, wrapping from
/// 65535 back to 0.
pub open spec fn next_tid(t: u16) -> u16 {
    if t == 0xffff {
        0
    } else {
        (t + 1) as u16
    }
}

/// The pure per-connection state of a Modbus TCP exchange: the wrapping
/// transaction-id counter and the addressed unit id.  The socket itself is
/// owned by the embedding application.
pub struct Session {
    /// The transaction id of the most recently built request.
    pub tid: u16,
    /// The unit id stamped into every request header.
    pub uid: u8,
}

impl Session {
    /// A fresh session: the first request will carry transaction id 1.
    pub fn new(uid: u8) -> (s: Session)
        ensures
            s.tid == 0,
            s.uid == uid,
    {
        Session { tid: 0, uid }
    }

    /// Create a new transaction id, incrementing the previous one.
    /// The id wraps around to 0 once it reaches `u16::MAX`.
    pub fn new_tid(&mut self) -> (t: u16)
        ensures
            final(self).tid == next_tid(old(self).tid),
            t == final(self).tid,
            final(self).uid == old(self).uid,
    {
        self.tid = self.tid.wrapping_add(1);
        self.tid
    }

    /// Change the addressed unit without reconnecting.
    pub fn set_uid(&mut self, uid: u8)
        ensures
            final(self).uid == uid,
            final(self).tid == old(self).tid,
    {
        self.uid = uid;
    }
}

// --- the MBAP frame header ---

/// The 7-byte MBAP envelope prefixed to every frame: transaction id,
/// protocol id (always 0), length of the bytes that follow the length
/// field, and unit id.
#[derive(Debug, Clone, Copy, PartialEq, Eq, Structural)]
pub struct Header {
    pub tid: u16,
    pub pid: u16,
    pub len: u16,
    pub uid: u8,
}

/// The 7-byte wire layout of a header: tid, pid and len as big-endian
/// 16-bit words, then the unit id.
pub open spec fn header_bytes(h: Header) -> Seq<u8> {
    seq![
        hi_byte(h.tid),
        lo_byte(h.tid),
        hi_byte(h.pid),
        lo_byte(h.pid),
        hi_byte(h.len),
        lo_byte(h.len),
        h.uid,
    ]
}

/// The header denoted by the first 7 bytes of a buffer.
pub open spec fn header_of_bytes(b: Seq<u8>) -> Header {
    Header {
        tid: word_from_bytes(b[0], b[1]),
        pid: word_from_bytes(b[2], b[3]),
        len: word_from_bytes(b[4], b[5]),
        uid: b[6],
    }
}

/// Packing a header and parsing the bytes back yields the same header, for
/// arbitrary tid, pid, len and uid; together with
/// `lemma_header_bytes_roundtrip` this makes pack and unpack a bijection on
/// the 7-byte wire layout.
pub proof fn lemma_header_roundtrip(h: Header)
    ensures
        header_of_bytes(header_bytes(h)) == h,
{
    crate::binary::lemma_word_bytes_inverse(0, 0, h.tid);
    crate::binary::lemma_word_bytes_inverse(0, 0, h.pid);
    crate::binary::lemma_word_bytes_inverse(0, 0, h.len);
}

/// Parsing 7 bytes as a header and packing the header again yields the same
/// bytes: the other direction of the bijection.
pub proof fn lemma_header_bytes_roundtrip(b: Seq<u8>)
    requires
        b.len() == 7,
    ensures
        header_bytes(header_of_bytes(b)) == b,
{
    crate::binary::lemma_word_bytes_inverse(b[0], b[1], 0);
    crate::binary::lemma_word_bytes_inverse(b[2], b[3], 0);
    crate::binary::lemma_word_bytes_inverse(b[4], b[5], 0);
    assert(header_bytes(header_of_bytes(b)) =~= b);
}

impl Header {
    /// A fresh header for a frame of `len` total bytes: the session's next
    /// transaction id, protocol id 0, the byte count that follows the
    /// length field, and the session's unit id.
    pub fn new(session: &mut Session, len: u16) -> (h: Header)
        requires
            len >= MODBUS_HEADER_SIZE,
        ensures
            h.tid == next_tid(old(session).tid),
            h.pid == MODBUS_PROTOCOL_TCP,
            h.len == len - MODBUS_HEADER_SIZE,
            h.uid == old(session).uid,
            final(session).tid == h.tid,
            final(session).uid == old(session).uid,
    {
        Header {
            tid: session.new_tid(),
            pid: MODBUS_PROTOCOL_TCP,
            len: len - MODBUS_HEADER_SIZE as u16,
            uid: session.uid,
        }
    }

    /// Serialize the header into its 7-byte wire layout.
    pub fn pack(&self) -> (r: Result<Vec<u8>, Error>)
        ensures
            r matches Ok(b) && b@ == header_bytes(*self),
    {
        let mut buff: Vec<u8> = Vec::new();
        buff.push((self.tid >> 8) as u8);
        buff.push((self.tid & 0xff) as u8);
        buff.push((self.pid >> 8) as u8);
        buff.push((self.pid & 0xff) as u8);
        buff.push((self.len >> 8) as u8);
        buff.push((self.len & 0xff) as u8);
        buff.push(self.uid);
        proof {
            assert(buff@ =~= header_bytes(*self));
        }
        Ok(buff)
    }

    /// Parse the first 7 bytes of a buffer as a header; fails with a
    /// decoding error if fewer than 7 bytes are supplied.
    pub fn unpack(buff: &[u8]) -> (r: Result<Header, Error>)
        ensures
            buff@.len() >= 7 ==> (r matches Ok(h) && h == header_of_bytes(buff@)),
            buff@.len() < 7 ==> (r matches Err(e) && e == Error::InvalidData(
                Reason::DecodingError,
            )),
    {
        if buff.len() < 7 {
            return Err(Error::InvalidData(Reason::DecodingError));
        }
        Ok(
            Header {
                tid: crate::binary::be_u16(buff[0], buff[1]),
                pid: crate::binary::be_u16(buff[2], buff[3]),
                len: crate::binary::be_u16(buff[4], buff[5]),
                uid: buff[6],
            },
        )
    }
}

/// Accept a response header only if its transaction id equals the request's
/// and its protocol id is 0.  The unit id is not required to match, since
/// some gateways rewrite it.
pub fn validate_response_header(req: &Header, resp: &Header) -> (r: Result<(), Error>)
    ensures
        r is Ok <==> req.tid == resp.tid && resp.pid == MODBUS_PROTOCOL_TCP,
        r is Err ==> (r matches Err(e) && e == Error::InvalidResponse),
{
    if req.tid != resp.tid || resp.pid != MODBUS_PROTOCOL_TCP {
        Err(Error::InvalidResponse)
    } else {
        Ok(())
    }
}

/// Classify a reply by its function-code byte, given the request frame that
/// was sent: an echoed code means success; the code with its high bit set
/// flags a device exception, decoded from the following byte; any other
/// code is an invalid response.
pub fn validate_response_code(req: &[u8], resp: &[u8]) -> (r: Result<(), Error>)
    requires
        req@.len() >= 8,
        resp@.len() >= 9,
        req@[7] < 0x80,
    ensures
        resp@[7] == req@[7] + 0x80 ==> match spec_exception_code(resp@[8]) {
            Some(code) => r matches Err(e) && e == Error::Exception(code),
            None => r matches Err(e) && e == Error::InvalidResponse,
        },
        resp@[7] == req@[7] ==> r is Ok,
        resp@[7] != req@[7] && resp@[7] != req@[7] + 0x80 ==> (r matches Err(e) && e
            == Error::InvalidResponse),
{
    if req[7] + 0x80 == resp[7] {
        match ExceptionCode::from_u8(resp[8]) {
            Some(code) => Err(Error::Exception(code)),
            None => Err(Error::InvalidResponse),
        }
    } else if req[7] == resp[7] {
        Ok(())
    } else {
        Err(Error::InvalidResponse)
    }
}

/// Extract the payload of a read reply, after checking that the announced
/// byte count and the total reply length both match the expected payload
/// size exactly.
pub fn get_reply_data(reply: &[u8], expected_bytes: usize) -> (r: Result<Vec<u8>, Error>)
    requires
        reply@.len() >= 9,
    ensures
        reply@[8] == expected_bytes && reply@.len() == MODBUS_HEADER_SIZE + expected_bytes + 2
            ==> (r matches Ok(d) && d@ == reply@.subrange(9, reply@.len() as int)),
        !(reply@[8] == expected_bytes && reply@.len() == MODBUS_HEADER_SIZE + expected_bytes + 2)
            ==> (r matches Err(e) && e == Error::InvalidData(Reason::UnexpectedReplySize)),
{
    if reply[8] as usize != expected_bytes || reply.len() != MODBUS_HEADER_SIZE + expected_bytes
        + 2 {
        return Err(Error::InvalidData(Reason::UnexpectedReplySize));
    }
    let mut d: Vec<u8> = Vec::new();
    let mut i: usize = MODBUS_HEADER_SIZE + 2;
    while i < reply.len()
        invariant
            9 <= i <= reply@.len(),
            d@ == reply@.subrange(9, i as int),
        decreases reply@.len() - i,
    {
        d.push(reply[i]);
        proof {
            assert(d@ =~= reply@.subrange(9, i + 1));
        }
        i = i + 1;
    }
    Ok(d)
}

// --- the read exchange ---

/// Whether a function descriptor names one of the four read operations.
pub open spec fn is_read_function(fun: Function) -> bool {
    match fun {
        Function::ReadCoils(_, _) => true,
        Function::ReadDiscreteInputs(_, _) => true,
        Function::ReadHoldingRegisters(_, _) => true,
        Function::ReadInputRegisters(_, _) => true,
        _ => false,
    }
}

/// The address and quantity a read function carries.
pub open spec fn read_params(fun: Function) -> (u16, u16) {
    match fun {
        Function::ReadCoils(a, c) => (a, c),
        Function::ReadDiscreteInputs(a, c) => (a, c),
        Function::ReadHoldingRegisters(a, c) => (a, c),
        Function::ReadInputRegisters(a, c) => (a, c),
        _ => (0, 0),
    }
}

/// The payload size a read reply must announce: the packed bit count for
/// bit-oriented reads, two bytes per register otherwise.
pub open spec fn expected_read_bytes(fun: Function) -> int {
    match fun {
        Function::ReadCoils(_, c) => packed_bits_len(c as nat) as int,
        Function::ReadDiscreteInputs(_, c) => packed_bits_len(c as nat) as int,
        Function::ReadHoldingRegisters(_, c) => 2 * c,
        Function::ReadInputRegisters(_, c) => 2 * c,
        _ => 0,
    }
}

/// A fully built read request: the 12-byte frame to put on the wire, the
/// header it starts with, and the payload size the reply must announce.
pub struct ReadRequest {
    pub frame: Vec<u8>,
    pub header: Header,
    pub expected_bytes: usize,
}

impl ReadRequest {
    /// Well-formedness: what `Session::read_request` establishes and
    /// `read_reply` relies on.
    pub open spec fn wf(self) -> bool {
        &&& self.frame@.len() == 12
        &&& self.frame@.subrange(0, 7) == header_bytes(self.header)
        &&& self.frame@[7] < 0x80
        &&& 1 <= self.expected_bytes <= MODBUS_MAX_PACKET_SIZE
    }

    /// How many reply bytes the exchange reads: header, echoed function
    /// code, announced byte count, and the payload.
    pub open spec fn spec_reply_len(self) -> int {
        MODBUS_HEADER_SIZE + self.expected_bytes + 2
    }

    /// The exact number of bytes to read back from the socket.
    pub fn reply_len(&self) -> (n: usize)
        requires
            self.wf(),
        ensures
            n == self.spec_reply_len(),
    {
        MODBUS_HEADER_SIZE + self.expected_bytes + 2
    }
}

/// A fully built write request: the complete frame to put on the wire and
/// the header it starts with.  Every write is acknowledged by a fixed
/// 12-byte reply.
pub struct WriteRequest {
    pub frame: Vec<u8>,
    pub header: Header,
}

impl WriteRequest {
    /// Well-formedness: what the write builders establish and
    /// `write_reply` relies on.
    pub open spec fn wf(self) -> bool {
        &&& 8 <= self.frame@.len() <= MODBUS_MAX_PACKET_SIZE
        &&& self.frame@.subrange(0, 7) == header_bytes(self.header)
        &&& self.frame@[7] < 0x80
    }
}

/// The number of bytes of a write acknowledgment reply.
pub const WRITE_REPLY_LEN: usize = 12;

impl Session {
    /// Build the request frame of a read exchange: header, function code,
    /// address and quantity, each word big-endian.
    ///
    /// Rejects a non-read function with `InvalidFunction`, a zero quantity
    /// with `RecvBufferEmpty`, and a quantity whose expected reply payload
    /// would exceed the maximum packet size with `UnexpectedReplySize`; the
    /// transaction id advances only when a frame is built.
    pub fn read_request(&mut self, fun: &Function) -> (r: Result<ReadRequest, Error>)
        ensures
            !is_read_function(*fun) ==> (r matches Err(e) && e == Error::InvalidFunction
                && *final(self) == *old(self)),
            is_read_function(*fun) && read_params(*fun).1 == 0 ==> (r matches Err(e) && e
                == Error::InvalidData(Reason::RecvBufferEmpty) && *final(self) == *old(self)),
            is_read_function(*fun) && read_params(*fun).1 > 0 && expected_read_bytes(*fun)
                > MODBUS_MAX_PACKET_SIZE ==> (r matches Err(e) && e == Error::InvalidData(
                Reason::UnexpectedReplySize,
            ) && *final(self) == *old(self)),
            is_read_function(*fun) && read_params(*fun).1 > 0 && expected_read_bytes(*fun)
                <= MODBUS_MAX_PACKET_SIZE ==> (r matches Ok(rr) && rr.wf() && rr.header == (Header {
                tid: next_tid(old(self).tid),
                pid: MODBUS_PROTOCOL_TCP,
                len: 6,
                uid: old(self).uid,
            }) && rr.expected_bytes == expected_read_bytes(*fun) && rr.frame@ == header_bytes(
                rr.header,
            ) + seq![
                fun.spec_code(),
                hi_byte(read_params(*fun).0),
                lo_byte(read_params(*fun).0),
                hi_byte(read_params(*fun).1),
                lo_byte(read_params(*fun).1),
            ] && final(self).tid == rr.header.tid && final(self).uid == old(self).uid),
    {
        let (addr, count, expected_bytes): (u16, u16, usize) = match fun {
            Function::ReadCoils(a, c) => (
                *a,
                *c,
                (*c / 8 + if *c % 8 > 0 {
                    1
                } else {
                    0
                }) as usize,
            ),
            Function::ReadDiscreteInputs(a, c) => (
                *a,
                *c,
                (*c / 8 + if *c % 8 > 0 {
                    1
                } else {
                    0
                }) as usize,
            ),
            Function::ReadHoldingRegisters(a, c) => (*a, *c, 2 * (*c as usize)),
            Function::ReadInputRegisters(a, c) => (*a, *c, 2 * (*c as usize)),
            _ => {
                return Err(Error::InvalidFunction);
            },
        };
        if count < 1 {
            return Err(Error::InvalidData(Reason::RecvBufferEmpty));
        }
        if expected_bytes > MODBUS_MAX_PACKET_SIZE {
            return Err(Error::InvalidData(Reason::UnexpectedReplySize));
        }
        let header = Header::new(self, MODBUS_HEADER_SIZE as u16 + 6);
        let mut buff = match header.pack() {
            Ok(b) => b,
            Err(e) => {
                return Err(e);
            },
        };
        buff.push(fun.code());
        buff.push((addr >> 8) as u8);
        buff.push((addr & 0xff) as u8);
        buff.push((count >> 8) as u8);
        buff.push((count & 0xff) as u8);
        proof {
            assert(buff@ =~= header_bytes(header) + seq![
                fun.spec_code(),
                hi_byte(addr),
                lo_byte(addr),
                hi_byte(count),
                lo_byte(count),
            ]);
            assert(buff@.subrange(0, 7) =~= header_bytes(header));
        }
        Ok(ReadRequest { frame: buff, header, expected_bytes })
    }
}

/// Validate and decode the reply of a read exchange: the header must match
/// the request, the function code must be echoed without the exception bit,
/// and the announced byte count must equal the expected payload size; the
/// payload bytes are returned for codec decoding.
pub fn read_reply(request: &ReadRequest, reply: &[u8]) -> (r: Result<Vec<u8>, Error>)
    requires
        request.wf(),
        reply@.len() == request.spec_reply_len(),
    ensures
        ({
            let rh = header_of_bytes(reply@);
            let code = request.frame@[7];
            &&& !(rh.tid == request.header.tid && rh.pid == MODBUS_PROTOCOL_TCP) ==> (
            r matches Err(e) && e == Error::InvalidResponse)
            &&& (rh.tid == request.header.tid && rh.pid == MODBUS_PROTOCOL_TCP) ==> (if reply@[7]
                == code + 0x80 {
                match spec_exception_code(reply@[8]) {
                    Some(c) => r matches Err(e) && e == Error::Exception(c),
                    None => r matches Err(e) && e == Error::InvalidResponse,
                }
            } else if reply@[7] != code {
                r matches Err(e) && e == Error::InvalidResponse
            } else if reply@[8] != request.expected_bytes {
                r matches Err(e) && e == Error::InvalidData(Reason::UnexpectedReplySize)
            } else {
                r matches Ok(d) && d@ == reply@.subrange(9, reply@.len() as int)
            })
        }),
{
    let resp_hd = match Header::unpack(reply) {
        Ok(h) => h,
        Err(e) => {
            return Err(e);
        },
    };
    match validate_response_header(&request.header, &resp_hd) {
        Ok(_) => {},
        Err(e) => {
            return Err(e);
        },
    }
    match validate_response_code(request.frame.as_slice(), reply) {
        Ok(_) => {},
        Err(e) => {
            return Err(e);
        },
    }
    get_reply_data(reply, request.expected_bytes)
}

// --- the write exchanges ---

/// Whether a function descriptor names one of the two single-write
/// operations.
pub open spec fn is_write_single_function(fun: Function) -> bool {
    match fun {
        Function::WriteSingleCoil(_, _) => true,
        Function::WriteSingleRegister(_, _) => true,
        _ => false,
    }
}

/// The address and value a single-write function carries.
pub open spec fn write_single_params(fun: Function) -> (u16, u16) {
    match fun {
        Function::WriteSingleCoil(a, v) => (a, v),
        Function::WriteSingleRegister(a, v) => (a, v),
        _ => (0, 0),
    }
}

/// Whether a function descriptor names one of the two multiple-write
/// operations.
pub open spec fn is_write_multiple_function(fun: Function) -> bool {
    match fun {
        Function::WriteMultipleCoils(_, _, _) => true,
        Function::WriteMultipleRegisters(_, _, _) => true,
        _ => false,
    }
}

/// The address and quantity a multiple-write function carries.
pub open spec fn write_multiple_params(fun: Function) -> (u16, u16) {
    match fun {
        Function::WriteMultipleCoils(a, q, _) => (a, q),
        Function::WriteMultipleRegisters(a, q, _) => (a, q),
        _ => (0, 0),
    }
}

/// The payload bytes a multiple-write function carries.
pub open spec fn write_multiple_values(fun: Function) -> Seq<u8> {
    match fun {
        Function::WriteMultipleCoils(_, _, v) => v@,
        Function::WriteMultipleRegisters(_, _, v) => v@,
        _ => Seq::empty(),
    }
}

impl Session {
    /// Stamp a fresh header onto a frame whose first 7 bytes are
    /// placeholders, after checking the frame size bounds; shared by the
    /// two write builders.
    pub(crate) fn write_frame(&mut self, buff: Vec<u8>) -> (r: Result<WriteRequest, Error>)
        requires
            buff@.len() == 0 || (buff@.len() >= 8 && buff@[7] < 0x80),
        ensures
            buff@.len() == 0 ==> (r matches Err(e) && e == Error::InvalidData(
                Reason::SendBufferEmpty,
            ) && *final(self) == *old(self)),
            buff@.len() > MODBUS_MAX_PACKET_SIZE ==> (r matches Err(e) && e == Error::InvalidData(
                Reason::SendBufferTooBig,
            ) && *final(self) == *old(self)),
            1 <= buff@.len() <= MODBUS_MAX_PACKET_SIZE ==> (r matches Ok(wr) && wr.wf()
                && wr.header == (Header {
                tid: next_tid(old(self).tid),
                pid: MODBUS_PROTOCOL_TCP,
                len: (buff@.len() + 1 - 7) as u16,
                uid: old(self).uid,
            }) && wr.frame@ == header_bytes(wr.header) + buff@.subrange(7, buff@.len() as int)
                && wr.frame@.len() == buff@.len() && final(self).tid == wr.header.tid
                && final(self).uid == old(self).uid),
    {
        if buff.len() == 0 {
            return Err(Error::InvalidData(Reason::SendBufferEmpty));
        }
        if buff.len() > MODBUS_MAX_PACKET_SIZE {
            return Err(Error::InvalidData(Reason::SendBufferTooBig));
        }
        let header = Header::new(self, buff.len() as u16 + 1);
        let head = match header.pack() {
            Ok(b) => b,
            Err(e) => {
                return Err(e);
            },
        };
        let mut frame = buff;
        let ghost orig = frame@;
        let mut k: usize = 0;
        while k < MODBUS_HEADER_SIZE
            invariant
                k <= 7,
                head@.len() == 7,
                frame@.len() == orig.len() >= 8,
                forall|j: int| 0 <= j < k ==> frame@[j] == head@[j],
                forall|j: int| k <= j < orig.len() ==> frame@[j] == orig[j],
            decreases 7 - k,
        {
            frame[k] = head[k];
            k = k + 1;
        }
        proof {
            assert(frame@ =~= header_bytes(header) + orig.subrange(7, orig.len() as int));
            assert(frame@.subrange(0, 7) =~= header_bytes(header));
        }
        Ok(WriteRequest { frame, header })
    }

    /// Build the fixed 12-byte request frame of a single-write exchange:
    /// header, function code, address and value, each word big-endian.
    /// A coil value is encoded via its wire code before it reaches this
    /// point.  Rejects a non-single-write function with `InvalidFunction`;
    /// the transaction id advances only when a frame is built.
    pub fn write_single(&mut self, fun: &Function) -> (r: Result<WriteRequest, Error>)
        ensures
            !is_write_single_function(*fun) ==> (r matches Err(e) && e == Error::InvalidFunction
                && *final(self) == *old(self)),
            is_write_single_function(*fun) ==> (r matches Ok(wr) && wr.wf() && wr.header == (Header {
                tid: next_tid(old(self).tid),
                pid: MODBUS_PROTOCOL_TCP,
                len: 6,
                uid: old(self).uid,
            }) && wr.frame@ == header_bytes(wr.header) + seq![
                fun.spec_code(),
                hi_byte(write_single_params(*fun).0),
                lo_byte(write_single_params(*fun).0),
                hi_byte(write_single_params(*fun).1),
                lo_byte(write_single_params(*fun).1),
            ] && final(self).tid == wr.header.tid && final(self).uid == old(self).uid),
    {
        let (addr, value): (u16, u16) = match fun {
            Function::WriteSingleCoil(a, v) => (*a, *v),
            Function::WriteSingleRegister(a, v) => (*a, *v),
            _ => {
                return Err(Error::InvalidFunction);
            },
        };
        let mut buff: Vec<u8> = Vec::new();
        let mut k: usize = 0;
        while k < MODBUS_HEADER_SIZE
            invariant
                k <= 7,
                buff@.len() == k,
            decreases 7 - k,
        {
            buff.push(0);
            k = k + 1;
        }
        buff.push(fun.code());
        buff.push((addr >> 8) as u8);
        buff.push((addr & 0xff) as u8);
        buff.push((value >> 8) as u8);
        buff.push((value & 0xff) as u8);
        let r = self.write_frame(buff);
        proof {
            if r is Ok {
                let wr = r->Ok_0;
                assert(wr.frame@ =~= header_bytes(wr.header) + seq![
                    fun.spec_code(),
                    hi_byte(addr),
                    lo_byte(addr),
                    hi_byte(value),
                    lo_byte(value),
                ]);
            }
        }
        r
    }

    /// Build the request frame of a multiple-write exchange: header,
    /// function code, address, quantity, payload byte count, then the
    /// payload produced by the binary codec.  Fails with `SendBufferTooBig`
    /// if the frame would exceed the maximum packet size; the transaction
    /// id advances only when a frame is built.
    pub fn write_multiple(&mut self, fun: &Function) -> (r: Result<WriteRequest, Error>)
        ensures
            !is_write_multiple_function(*fun) ==> (r matches Err(e) && e == Error::InvalidFunction
                && *final(self) == *old(self)),
            is_write_multiple_function(*fun) && 13 + write_multiple_values(*fun).len()
                > MODBUS_MAX_PACKET_SIZE ==> (r matches Err(e) && e == Error::InvalidData(
                Reason::SendBufferTooBig,
            ) && *final(self) == *old(self)),
            is_write_multiple_function(*fun) && 13 + write_multiple_values(*fun).len()
                <= MODBUS_MAX_PACKET_SIZE ==> (r matches Ok(wr) && wr.wf() && wr.header == (Header {
                tid: next_tid(old(self).tid),
                pid: MODBUS_PROTOCOL_TCP,
                len: (7 + write_multiple_values(*fun).len()) as u16,
                uid: old(self).uid,
            }) && wr.frame@ == header_bytes(wr.header) + seq![
                fun.spec_code(),
                hi_byte(write_multiple_params(*fun).0),
                lo_byte(write_multiple_params(*fun).0),
                hi_byte(write_multiple_params(*fun).1),
                lo_byte(write_multiple_params(*fun).1),
                write_multiple_values(*fun).len() as u8,
            ] + write_multiple_values(*fun) && final(self).tid == wr.header.tid && final(self).uid
                == old(self).uid),
    {
        let (addr, quantity, values): (u16, u16, &Vec<u8>) = match fun {
            Function::WriteMultipleCoils(a, q, v) => (*a, *q, v),
            Function::WriteMultipleRegisters(a, q, v) => (*a, *q, v),
            _ => {
                return Err(Error::InvalidFunction);
            },
        };
        let mut buff: Vec<u8> = Vec::new();
        let mut k: usize = 0;
        while k < MODBUS_HEADER_SIZE
            invariant
                k <= 7,
                buff@.len() == k,
            decreases 7 - k,
        {
            buff.push(0);
            k = k + 1;
        }
        buff.push(fun.code());
        buff.push((addr >> 8) as u8);
        buff.push((addr & 0xff) as u8);
        buff.push((quantity >> 8) as u8);
        buff.push((quantity & 0xff) as u8);
        buff.push(#[verifier::truncate] (values.len() as u8));
        let ghost prefix = buff@;
        let mut n: usize = 0;
        while n < values.len()
            invariant
                n <= values@.len(),
                prefix.len() == 13,
                buff@.len() == 13 + n,
                forall|j: int| 0 <= j < 13 ==> buff@[j] == prefix[j],
                forall|j: int| 13 <= j < buff@.len() ==> buff@[j] == values@[j - 13],
            decreases values@.len() - n,
        {
            buff.push(values[n]);
            n = n + 1;
        }
        let ghost b = buff@;
        proof {
            assert(b =~= prefix + values@);
        }
        let r = self.write_frame(buff);
        proof {
            if r is Ok {
                let wr = r->Ok_0;
                assert(wr.frame@ =~= header_bytes(wr.header) + seq![
                    fun.spec_code(),
                    hi_byte(addr),
                    lo_byte(addr),
                    hi_byte(quantity),
                    lo_byte(quantity),
                    values@.len() as u8,
                ] + values@);
            }
        }
        r
    }
}

/// Validate the fixed 12-byte acknowledgment of a write exchange: the
/// header must match the request and the function code must be echoed
/// without the exception bit; success is the absence of an exception.
pub fn write_reply(request: &WriteRequest, reply: &[u8]) -> (r: Result<(), Error>)
    requires
        request.wf(),
        reply@.len() == WRITE_REPLY_LEN,
    ensures
        ({
            let rh = header_of_bytes(reply@);
            let code = request.frame@[7];
            &&& !(rh.tid == request.header.tid && rh.pid == MODBUS_PROTOCOL_TCP) ==> (
            r matches Err(e) && e == Error::InvalidResponse)
            &&& (rh.tid == request.header.tid && rh.pid == MODBUS_PROTOCOL_TCP) ==> (if reply@[7]
                == code + 0x80 {
                match spec_exception_code(reply@[8]) {
                    Some(c) => r matches Err(e) && e == Error::Exception(c),
                    None => r matches Err(e) && e == Error::InvalidResponse,
                }
            } else if reply@[7] != code {
                r matches Err(e) && e == Error::InvalidResponse
            } else {
                r is Ok
            })
        }),
{
    let resp_hd = match Header::unpack(reply) {
        Ok(h) => h,
        Err(e) => {
            return Err(e);
        },
    };
    match validate_response_header(&request.header, &resp_hd) {
        Ok(_) => {},
        Err(e) => {
            return Err(e);
        },
    }
    validate_response_code(request.frame.as_slice(), reply)
}

} // verus!
