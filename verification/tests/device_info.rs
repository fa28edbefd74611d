use modbus::mei::{
    device_info_reply, device_info_request, parse_device_info, DeviceInfoCategory,
    DeviceInfoObject,
};
use modbus::tcp::Session;
use modbus::{Error, Reason};

#[test]
fn device_info_object_holds_value() {
    let obj = DeviceInfoObject::new(3, String::from("VendorName"));
    assert_eq!(obj.to_string(), "VendorName");
    assert_eq!(obj.id(), 3);
}

#[test]
fn category_codes() {
    assert_eq!(DeviceInfoCategory::Basic.code(), 0x01);
    assert_eq!(DeviceInfoCategory::Regular.code(), 0x02);
    assert_eq!(DeviceInfoCategory::Extended.code(), 0x03);
}

fn body_with_two_objects() -> Vec<u8> {
    // function, mei type, category, conformity, more-follows, next id, count
    let mut body = vec![0x2b, 0x0e, 0x01, 0x01, 0x00, 0x00, 0x02];
    body.extend_from_slice(&[0x00, 3, b'A', b'B', b'C']);
    body.extend_from_slice(&[0x01, 2, b'X', b'Y']);
    body
}

#[test]
fn parse_device_info_objects() {
    let objects = parse_device_info(&body_with_two_objects()).unwrap();
    assert_eq!(objects.len(), 2);
    assert_eq!(objects[0].id(), 0);
    assert_eq!(objects[0].to_string(), "ABC");
    assert_eq!(objects[1].id(), 1);
    assert_eq!(objects[1].to_string(), "XY");
}

#[test]
fn parse_device_info_truncated() {
    let mut body = body_with_two_objects();
    body.pop(); // drop the last value byte announced by the second object
    assert!(matches!(
        parse_device_info(&body),
        Err(Error::InvalidData(Reason::DecodingError))
    ));
    assert!(matches!(
        parse_device_info(&[0x2b, 0x0e, 0x01]),
        Err(Error::InvalidData(Reason::DecodingError))
    ));
}

#[test]
fn parse_device_info_invalid_utf8() {
    // 0xff is never valid UTF-8
    let body = vec![0x2b, 0x0e, 0x01, 0x01, 0x00, 0x00, 0x01, 0x00, 1, 0xff];
    assert!(matches!(parse_device_info(&body), Err(Error::ParseInfoError)));
}

#[test]
fn device_info_exchange() {
    let mut session = Session::new(1);
    let request = device_info_request(&mut session, DeviceInfoCategory::Basic).unwrap();
    assert_eq!(
        request.frame,
        vec![0x00, 0x01, 0x00, 0x00, 0x00, 0x05, 0x01, 0x2b, 0x0e, 0x01, 0x00]
    );

    // simulate the device reply in a full-size read buffer
    let body = body_with_two_objects();
    let mut reply = vec![0u8; 260];
    reply[0..2].copy_from_slice(&request.frame[0..2]); // echo the tid
    let len = (body.len() + 1) as u16; // unit id + body
    reply[4..6].copy_from_slice(&len.to_be_bytes());
    reply[6] = 0x01; // unit id
    reply[7..7 + body.len()].copy_from_slice(&body);

    let objects = device_info_reply(&request, &reply).unwrap();
    assert_eq!(objects.len(), 2);
    assert_eq!(objects[0].to_string(), "ABC");
    assert_eq!(objects[1].to_string(), "XY");
}
