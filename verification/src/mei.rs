//! Reading device information strings over the Modbus Encapsulated
//! Interface (function code 43, MEI type 14).
//!
//! The request builder and the reply parser are pure; the embedding
//! application writes the frame, reads back up to one maximum-size packet,
//! and hands the bytes here for validation and decoding.

use vstd::prelude::*;
use vstd::utf8::{decode_utf8, valid_utf8};

use crate::tcp::{
    header_bytes, header_of_bytes, validate_response_code, validate_response_header, Header,
    Session, WriteRequest, MODBUS_MAX_PACKET_SIZE, MODBUS_PROTOCOL_TCP,
};
use crate::{spec_exception_code, Error, Reason};

verus! {

/// Describes object standard conformity.
///
/// - `Basic` - Mandatory for Modbus standard conformity.
/// - `Regular` - Defined in the standard, but implementation is optional.
/// - `Extended` - Optional fields that are reserved for device specific
///   information.
#[derive(Debug, Clone, Copy, PartialEq, Eq, Structural)]
pub enum DeviceInfoCategory {
    Basic,
    Regular,
    Extended,
}

impl DeviceInfoCategory {
    /// The read-device-id code of this category.
    pub open spec fn spec_code(self) -> u8 {
        match self {
            DeviceInfoCategory::Basic => 0x01,
            DeviceInfoCategory::Regular => 0x02,
            DeviceInfoCategory::Extended => 0x03,
        }
    }

    /// The read-device-id code of this category.
    pub fn code(self) -> (c: u8)
        ensures
            c == self.spec_code(),
    {
        match self {
            DeviceInfoCategory::Basic => 0x01,
            DeviceInfoCategory::Regular => 0x02,
            DeviceInfoCategory::Extended => 0x03,
        }
    }
}

/// A device information object: an object id and the string value the
/// device reported for it.
///
/// The following object ids are defined in the Modbus standard:
/// - **0x00** *BASIC* `VendorName`
/// - **0x01** *BASIC* `ProductCode`
/// - **0x02** *BASIC* `MajorMinorRevision`
/// - **0x03** *REGULAR* `VendorUrl`
/// - **0x04** *REGULAR* `ProductName`
/// - **0x05** *REGULAR* `ModelName`
/// - **0x06** *REGULAR* `UserApplicationName`
/// - **0x07 - 0x7F** *REGULAR* `Reserved`
/// - **0x80 - 0xFF** *EXTENDED* `Device Specific`
#[derive(Clone, Debug)]
pub struct DeviceInfoObject {
    id: u8,
    value: String,
}

impl DeviceInfoObject {
    /// The object id.
    pub closed spec fn spec_id(&self) -> u8 {
        self.id
    }

    /// The reported string value.
    pub closed spec fn spec_value(&self) -> Seq<char> {
        self.value@
    }

    pub fn new(obj_id: u8, value: String) -> (r: Self)
        ensures
            r.spec_id() == obj_id,
            r.spec_value() == value@,
    {
        Self { id: obj_id, value }
    }

    pub fn to_string(&self) -> (r: String)
        ensures
            r@ == self.spec_value(),
    {
        self.value.clone()
    }

    /// The object id.
    pub fn id(&self) -> (r: u8)
        ensures
            r == self.spec_id(),
    {
        self.id
    }
}

/// Relies on `String::from_utf8`: it succeeds exactly on valid UTF-8 and
/// returns the string those bytes encode.
#[verifier::external_body]
fn utf8_string(bytes: &[u8]) -> (r: Option<String>)
    ensures
        r is Some <==> valid_utf8(bytes@),
        r matches Some(s) ==> s@ == decode_utf8(bytes@),
{
    String::from_utf8(bytes.to_vec()).ok()
}

/// The raw device information objects held in a reply body, walked from
/// `cursor`: `n` objects, each an id byte, a length byte, then that many
/// value bytes.  `None` when the body is too short for the objects it
/// announces.
pub open spec fn spec_objects(body: Seq<u8>, cursor: int, n: nat) -> Option<Seq<(u8, Seq<u8>)>>
    decreases n,
{
    if n == 0 {
        Some(Seq::empty())
    } else if cursor + 3 <= body.len() {
        let id = body[cursor + 1];
        let len = body[cursor + 2] as int;
        if cursor + 3 + len <= body.len() {
            match spec_objects(body, cursor + 2 + len, (n - 1) as nat) {
                Some(rest) => Some(
                    seq![(id, body.subrange(cursor + 3, cursor + 3 + len))] + rest,
                ),
                None => None,
            }
        } else {
            None
        }
    } else {
        None
    }
}

/// The raw device information objects of a whole reply body: byte 6 counts
/// the objects, which follow from byte 7 on.
pub open spec fn spec_device_info(body: Seq<u8>) -> Option<Seq<(u8, Seq<u8>)>> {
    if body.len() >= 7 {
        spec_objects(body, 6, body[6] as nat)
    } else {
        None
    }
}

/// The view of structurally parsed objects: ids with their value bytes.
pub open spec fn raw_view(items: Seq<(u8, Vec<u8>)>) -> Seq<(u8, Seq<u8>)> {
    Seq::new(items.len(), |k: int| (items[k].0, items[k].1@))
}

/// Object `j` of `objs` decoded into `info`: its value bytes are valid
/// UTF-8 and the object carries its id and the decoded string.
pub open spec fn decoded_at(objs: Seq<(u8, Seq<u8>)>, info: Seq<DeviceInfoObject>, j: int) -> bool {
    &&& valid_utf8(objs[j].1)
    &&& info[j].spec_id() == objs[j].0
    &&& info[j].spec_value() == decode_utf8(objs[j].1)
}

/// Parse the body of a read-device-id reply (the bytes after the MBAP
/// header) into device information objects.
///
/// Fails with a decoding error when the body is shorter than the objects
/// it announces, and with `ParseInfoError` when an object value is not
/// valid UTF-8.
#[verifier::rlimit(100)]
#[verifier::spinoff_prover]
pub fn parse_device_info(body: &[u8]) -> (r: Result<Vec<DeviceInfoObject>, Error>)
    ensures
        spec_device_info(body@) is None ==> (r matches Err(e) && e == Error::InvalidData(
            Reason::DecodingError,
        )),
        spec_device_info(body@) matches Some(objs) ==> (if forall|k: int|
            0 <= k < objs.len() ==> valid_utf8(#[trigger] objs[k].1) {
            r matches Ok(v) && v@.len() == objs.len() && forall|k: int|
                0 <= k < objs.len() ==> #[trigger] decoded_at(objs, v@, k)
        } else {
            r matches Err(e) && e == Error::ParseInfoError
        }),
{
    let blen: usize = body.len();
    if blen < 7 {
        return Err(Error::InvalidData(Reason::DecodingError));
    }
    let obj_count: usize = body[6] as usize;
    let mut items: Vec<(u8, Vec<u8>)> = Vec::new();
    let mut cursor: usize = 6;
    let mut done: usize = 0;
    while done < obj_count
        invariant
            done <= obj_count,
            obj_count == body@[6] as int,
            blen == body@.len() >= 7,
            6 <= cursor <= blen,
            items@.len() == done,
            match spec_objects(body@, cursor as int, (obj_count - done) as nat) {
                Some(rest) => spec_device_info(body@) == Some(raw_view(items@) + rest),
                None => spec_device_info(body@) is None,
            },
        decreases obj_count - done,
    {
        if blen - cursor < 3 {
            return Err(Error::InvalidData(Reason::DecodingError));
        }
        let id = body[cursor + 1];
        let len: usize = body[cursor + 2] as usize;
        if blen - (cursor + 3) < len {
            return Err(Error::InvalidData(Reason::DecodingError));
        }
        let mut val: Vec<u8> = Vec::new();
        let mut t: usize = 0;
        while t < len
            invariant
                t <= len,
                blen == body@.len(),
                cursor + 3 + len <= blen,
                val@ == body@.subrange(cursor + 3, cursor + 3 + t),
            decreases len - t,
        {
            val.push(body[cursor + 3 + t]);
            proof {
                assert(val@ =~= body@.subrange(cursor + 3, cursor + 3 + t + 1));
            }
            t = t + 1;
        }
        let ghost prev_items = items@;
        let ghost prev_cursor = cursor as int;
        let ghost rem = (obj_count - done) as nat;
        items.push((id, val));
        cursor = cursor + 2 + len;
        done = done + 1;
        proof {
            assert(raw_view(items@) =~= raw_view(prev_items) + seq![
                (id, body@.subrange(prev_cursor + 3, prev_cursor + 3 + len)),
            ]);
            let next = spec_objects(body@, cursor as int, (obj_count - done) as nat);
            match next {
                Some(rest) => {
                    assert(spec_objects(body@, prev_cursor, rem) == Some(
                        seq![(id, body@.subrange(prev_cursor + 3, prev_cursor + 3 + len))] + rest,
                    ));
                    assert(raw_view(items@) + rest =~= raw_view(prev_items) + (seq![
                        (id, body@.subrange(prev_cursor + 3, prev_cursor + 3 + len)),
                    ] + rest));
                },
                None => {
                    assert(spec_objects(body@, prev_cursor, rem) is None);
                },
            }
        }
    }
    proof {
        assert(spec_objects(body@, cursor as int, 0) == Some(Seq::<(u8, Seq<u8>)>::empty()));
        assert(raw_view(items@) + Seq::<(u8, Seq<u8>)>::empty() =~= raw_view(items@));
        assert(spec_device_info(body@) == Some(raw_view(items@)));
    }
    let mut info: Vec<DeviceInfoObject> = Vec::new();
    let mut k: usize = 0;
    while k < items.len()
        invariant
            k <= items@.len(),
            info@.len() == k,
            spec_device_info(body@) == Some(raw_view(items@)),
            forall|j: int| 0 <= j < k ==> #[trigger] decoded_at(raw_view(items@), info@, j),
        decreases items@.len() - k,
    {
        let id = items[k].0;
        match utf8_string(items[k].1.as_slice()) {
            Some(s) => {
                let ghost prev_info = info@;
                info.push(DeviceInfoObject::new(id, s));
                proof {
                    assert forall|j: int| 0 <= j < k + 1 implies #[trigger] decoded_at(
                        raw_view(items@),
                        info@,
                        j,
                    ) by {
                        if j < k {
                            assert(info@[j] == prev_info[j]);
                            assert(decoded_at(raw_view(items@), prev_info, j));
                        } else {
                            assert(raw_view(items@)[j].1 == items@[j].1@);
                            assert(raw_view(items@)[j].0 == items@[j].0);
                            assert(valid_utf8(items@[j].1@));
                            assert(info@[j].spec_id() == items@[j].0);
                            assert(info@[j].spec_value() == decode_utf8(items@[j].1@));
                        }
                    }
                }
            },
            None => {
                proof {
                    let objs = spec_device_info(body@)->Some_0;
                    assert(objs == raw_view(items@));
                    assert(objs[k as int].1 == items@[k as int].1@);
                    assert(!valid_utf8(objs[k as int].1));
                    assert(!(forall|k2: int|
                        0 <= k2 < objs.len() ==> valid_utf8(#[trigger] objs[k2].1)));
                }
                return Err(Error::ParseInfoError);
            },
        }
        k = k + 1;
    }
    proof {
        let objs = raw_view(items@);
        assert forall|j: int| 0 <= j < objs.len() implies valid_utf8(#[trigger] objs[j].1) by {
            assert(decoded_at(objs, info@, j));
        }
        assert forall|j: int| 0 <= j < objs.len() implies #[trigger] decoded_at(
            objs,
            info@,
            j,
        ) by {}
    }
    Ok(info)
}

/// Build the request frame of a read-device-id exchange: header, function
/// code 0x2B, MEI type 0x0E, the category code, and starting object id 0.
/// The transaction id advances with every request built.
pub fn device_info_request(session: &mut Session, category: DeviceInfoCategory) -> (r: Result<
    WriteRequest,
    Error,
>)
    ensures
        r matches Ok(wr) && wr.wf() && wr.header == (Header {
            tid: crate::tcp::next_tid(old(session).tid),
            pid: MODBUS_PROTOCOL_TCP,
            len: 5,
            uid: old(session).uid,
        }) && wr.frame@ == header_bytes(wr.header) + seq![
            0x2bu8,
            0x0eu8,
            category.spec_code(),
            0x00u8,
        ] && final(session).tid == wr.header.tid && final(session).uid == old(session).uid,
{
    let mut buff: Vec<u8> = Vec::new();
    let mut k: usize = 0;
    while k < 7
        invariant
            k <= 7,
            buff@.len() == k,
        decreases 7 - k,
    {
        buff.push(0);
        k = k + 1;
    }
    buff.push(0x2b);  // Modbus Encapsulated Interface (function code 43)
    buff.push(0x0e);  // MEI type 14 (read device identification)
    buff.push(category.code());
    buff.push(0x00);  // starting object id
    let r = session.write_frame(buff);
    proof {
        if r is Ok {
            let wr = r->Ok_0;
            assert(wr.frame@ =~= header_bytes(wr.header) + seq![
                0x2bu8,
                0x0eu8,
                category.spec_code(),
                0x00u8,
            ]);
        }
    }
    r
}

/// Validate the reply of a read-device-id exchange and decode the device
/// information objects from its body.
///
/// The reply buffer is one maximum-size packet; the header names how many
/// of its bytes the device filled in.  Header and function-code validation
/// work as in every other exchange; the body then decodes as in
/// `parse_device_info`.
pub fn device_info_reply(request: &WriteRequest, reply: &[u8]) -> (r: Result<
    Vec<DeviceInfoObject>,
    Error,
>)
    requires
        request.wf(),
        reply@.len() == MODBUS_MAX_PACKET_SIZE,
    ensures
        ({
            let rh = header_of_bytes(reply@);
            let code = request.frame@[7];
            &&& !(rh.tid == request.header.tid && rh.pid == MODBUS_PROTOCOL_TCP) ==> (
            r matches Err(e) && e == Error::InvalidResponse)
            &&& (rh.tid == request.header.tid && rh.pid == MODBUS_PROTOCOL_TCP) ==> (if reply@[7]
                == code + 0x80 {
                match spec_exception_code(reply@[8]) {
                    Some(c) => r matches Err(e) && e == Error::Exception(c),
                    None => r matches Err(e) && e == Error::InvalidResponse,
                }
            } else if reply@[7] != code {
                r matches Err(e) && e == Error::InvalidResponse
            } else if !(7 <= 6 + rh.len <= reply@.len()) {
                r matches Err(e) && e == Error::InvalidData(Reason::DecodingError)
            } else {
                let body = reply@.subrange(7, 6 + rh.len);
                match spec_device_info(body) {
                    None => r matches Err(e) && e == Error::InvalidData(Reason::DecodingError),
                    Some(objs) => (if forall|k: int|
                        0 <= k < objs.len() ==> valid_utf8(#[trigger] objs[k].1) {
                        r matches Ok(v) && v@.len() == objs.len() && forall|k: int|
                            0 <= k < objs.len() ==> #[trigger] decoded_at(objs, v@, k)
                    } else {
                        r matches Err(e) && e == Error::ParseInfoError
                    }),
                }
            })
        }),
{
    let resp_hd = match Header::unpack(reply) {
        Ok(h) => h,
        Err(e) => {
            return Err(e);
        },
    };
    match validate_response_header(&request.header, &resp_hd) {
        Ok(_) => {},
        Err(e) => {
            return Err(e);
        },
    }
    match validate_response_code(request.frame.as_slice(), reply) {
        Ok(_) => {},
        Err(e) => {
            return Err(e);
        },
    }
    let end: usize = 6 + resp_hd.len as usize;
    if end < 7 || end > reply.len() {
        return Err(Error::InvalidData(Reason::DecodingError));
    }
    let mut body: Vec<u8> = Vec::new();
    let mut i: usize = 7;
    while i < end
        invariant
            7 <= i <= end <= reply@.len(),
            body@ == reply@.subrange(7, i as int),
        decreases end - i,
    {
        body.push(reply[i]);
        proof {
            assert(body@ =~= reply@.subrange(7, i + 1));
        }
        i = i + 1;
    }
    parse_device_info(body.as_slice())
}

} // verus!
