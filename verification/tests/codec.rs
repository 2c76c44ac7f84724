//! Byte-exact behaviour of the two kernel-request codecs.

use utuntap::control;
use utuntap::error::AcquisitionError;
use utuntap::request::{self, Request};
use utuntap::wire;
use utuntap::Mode;

#[test]
fn flags_keep_no_pi_bit_clear_only_with_packet_info() {
    assert_eq!(request::tun_flags(Mode::Tun, false), 0x1001);
    assert_eq!(request::tun_flags(Mode::Tap, false), 0x1002);
    assert_eq!(request::tun_flags(Mode::Tun, true), 0x0001);
    assert_eq!(request::tun_flags(Mode::Tap, true), 0x0002);
    assert_eq!(request::tun_flags(Mode::Tun, false) & 0x1000, 0x1000);
    assert_eq!(request::tun_flags(Mode::Tun, true) & 0x1000, 0);
}

#[test]
fn attach_code_value() {
    assert_eq!(request::tunsetiff_code(), 0x400454CA);
}

#[test]
fn request_name_field_zero_padded() {
    let request = Request::with_flags(Some("tun10".to_string()), 0x1001);
    assert_eq!(request.name.len(), 16);
    assert_eq!(&request.name[..5], b"tun10");
    assert!(request.name[5..].iter().all(|&b| b == 0));
    assert_eq!(request.flags, 0x1001);
}

#[test]
fn request_name_field_empty_without_name() {
    let request = Request::with_flags(None, 0x1002);
    assert_eq!(request.name, vec![0u8; 16]);
    assert_eq!(request.flags, 0x1002);
}

#[test]
fn request_record_layout() {
    let request = Request::with_flags(Some("tap3".to_string()), 0x1002);
    let record = request.encode();
    assert_eq!(record.len(), 40);
    assert_eq!(&record[..4], b"tap3");
    assert!(record[4..16].iter().all(|&b| b == 0));
    assert_eq!(record[16], 0x02);
    assert_eq!(record[17], 0x10);
    assert!(record[18..].iter().all(|&b| b == 0));
}

#[test]
fn decode_name_reads_up_to_first_zero() {
    let mut record = b"tun0".to_vec();
    record.resize(40, 0);
    record[20] = 0xFF; // past the name field; must not matter
    assert_eq!(request::decode_name(&record), Ok("tun0".to_string()));
}

#[test]
fn decode_name_full_width() {
    let record = vec![b'a'; 16];
    assert_eq!(
        request::decode_name(&record),
        Ok("aaaaaaaaaaaaaaaa".to_string())
    );
}

#[test]
fn decode_name_rejects_non_text() {
    let mut record = vec![0u8; 16];
    record[0] = b't';
    record[1] = 0xC3;
    assert_eq!(request::decode_name(&record), Err(AcquisitionError::NameDecode));
}

#[test]
fn decode_text_after_zero_is_ignored() {
    let mut record = vec![0u8; 16];
    record[0] = b'x';
    record[2] = 0xC3; // behind the terminator
    assert_eq!(request::decode_name(&record), Ok("x".to_string()));
}

#[test]
fn control_info_record_layout() {
    let record = control::control_info_record();
    assert_eq!(record.len(), 100);
    assert!(record[..4].iter().all(|&b| b == 0));
    assert_eq!(&record[4..30], b"com.apple.net.utun_control");
    assert!(record[30..].iter().all(|&b| b == 0));
}

#[test]
fn control_info_code_value() {
    assert_eq!(control::ctliocginfo_code(), 0xC0644E03);
}

#[test]
fn control_info_id_reads_little_endian() {
    let mut record = control::control_info_record();
    record[0] = 0x2A;
    record[1] = 0x01;
    assert_eq!(control::control_info_id(&record), 0x0000012A);
}

#[test]
fn control_address_layout() {
    let address = control::control_address(0x12345678, 11);
    assert_eq!(address.len(), 32);
    assert_eq!(address[0], 32); // sc_len
    assert_eq!(address[1], 32); // AF_SYSTEM
    assert_eq!(&address[2..4], &[2, 0]); // AF_SYS_CONTROL
    assert_eq!(&address[4..8], &[0x78, 0x56, 0x34, 0x12]);
    assert_eq!(&address[8..12], &[11, 0, 0, 0]);
    assert!(address[12..].iter().all(|&b| b == 0));
}

#[test]
fn unit_is_number_plus_one() {
    assert_eq!(control::requested_unit(0), 1);
    assert_eq!(control::requested_unit(10), 11);
    assert_eq!(control::requested_unit(255), 256);
}

#[test]
fn control_family_name_value() {
    assert_eq!(control::control_family_name(), "com.apple.net.utun_control");
}

#[test]
fn le32_round_trip() {
    let mut v = Vec::new();
    wire::push_le32(&mut v, 0xDEADBEEF);
    assert_eq!(v, vec![0xEF, 0xBE, 0xAD, 0xDE]);
    assert_eq!(wire::read_le32(&v), 0xDEADBEEF);
    let mut w = Vec::new();
    wire::push_le16(&mut w, 0x1234);
    assert_eq!(w, vec![0x34, 0x12]);
}
