//! The control-socket backend's kernel structures.
//!
//! This backend creates a system-domain datagram socket, asks the kernel
//! for the numeric id of the utun control family, connects the socket to a
//! control address naming that id and a unit number, and reads the
//! assigned interface name back through a socket option.  The two
//! structures that cross the kernel boundary — the control-info record and
//! the control address — are laid out here as explicit byte vectors.

use crate::request::spec_ioctl_code;
use crate::wire;
use vstd::prelude::*;
use vstd::string::StrSliceExecFns;
use vstd::utf8::encode_utf8;

verus! {

/// Address family of kernel control sockets.
pub const AF_SYSTEM: u8 = 32;

/// Protocol family of kernel control sockets (same value as the address
/// family), the first argument of the socket creation call.
pub const PF_SYSTEM: i32 = 32;

/// Datagram socket type, the second argument of the socket creation call.
pub const SOCK_DGRAM: i32 = 2;

/// Kernel-control protocol, the third argument of the socket creation
/// call.
pub const SYSPROTO_CONTROL: i32 = 2;

/// Address sub-family for kernel control addresses.
pub const AF_SYS_CONTROL: u16 = 2;

/// Socket-option name under which the kernel reports the interface name
/// assigned to a connected utun control socket.
pub const UTUN_OPT_IFNAME: i32 = 2;

/// Width of the zero-padded family-name field of the control-info record.
pub const CONTROL_NAME_WIDTH: usize = 96;

/// Size of the control-info record: a 32-bit family id followed by the
/// family-name field.
pub const CONTROL_INFO_LEN: usize = 100;

/// Size of a kernel control address.
pub const CONTROL_ADDRESS_LEN: usize = 32;

/// The characters of the control family that hands out utun devices.
pub open spec fn control_family_chars() -> Seq<char> {
    "com.apple.net.utun_control"@
}

/// The bytes of the control family name.
pub open spec fn control_family_bytes() -> Seq<u8> {
    encode_utf8(control_family_chars())
}

/// The control family name is 26 plain ASCII bytes.
pub proof fn lemma_control_family_bytes()
    ensures
        control_family_bytes().len() == 26,
        wire::ascii_text(control_family_bytes()),
{
    reveal_strlit("com.apple.net.utun_control");
    assert(control_family_chars().len() == 26);
    assert forall|i: int|
        0 <= i < control_family_chars().len() implies '\0' <= #[trigger] control_family_chars()[i]
        <= '\u{7f}' by {}
    assert(vstd::utf8::is_ascii_chars(control_family_chars()));
    vstd::utf8::is_ascii_chars_encode_utf8(control_family_chars());
}

/// The name of the control family, for callers that show it.
pub fn control_family_name() -> (r: &'static str)
    ensures
        r@ == control_family_chars(),
{
    "com.apple.net.utun_control"
}

/// The control-info record sent to look the family id up: the id field
/// (zero: it is what the kernel fills in) at offsets `0..4`, then the
/// family name, zero-padded to its field width.
pub open spec fn control_info_bytes() -> Seq<u8> {
    wire::le32(0) + control_family_bytes() + Seq::new(
        (CONTROL_NAME_WIDTH - control_family_bytes().len()) as nat,
        |i: int| 0u8,
    )
}

/// The control-call code that asks the kernel for a control family's
/// info: direction "kernel reads and writes" (3), magic `'N'` (78),
/// sequence 3, argument the control-info record (100 bytes).
pub fn ctliocginfo_code() -> (r: u32)
    ensures
        r == spec_ioctl_code(3, 78, 3, 100),
        r == 0xC0644E03,
{
    proof {
        assert((3u32 << 30) | (100u32 << 16) | ((78u32) << 8) | 3u32 == 0xC0644E03u32)
            by (bit_vector);
    }
    (3u32 << 30) | (100u32 << 16) | (78u32 << 8) | 3u32
}

/// Builds the control-info record for the utun family lookup.
pub fn control_info_record() -> (r: Vec<u8>)
    ensures
        r@ == control_info_bytes(),
        r@.len() == CONTROL_INFO_LEN,
{
    proof {
        lemma_control_family_bytes();
    }
    let mut out: Vec<u8> = Vec::new();
    wire::push_le32(&mut out, 0);
    let name = control_family_name();
    let bytes = name.as_bytes_vec();
    let mut i: usize = 0;
    while i < bytes.len()
        invariant
            i <= bytes@.len(),
            bytes@ == control_family_bytes(),
            out@ == wire::le32(0) + bytes@.take(i as int),
        decreases bytes@.len() - i,
    {
        out.push(bytes[i]);
        i = i + 1;
        proof {
            assert(out@ =~= wire::le32(0) + bytes@.take(i as int));
        }
    }
    proof {
        assert(bytes@.take(bytes@.len() as int) =~= bytes@);
        lemma_control_family_bytes();
    }
    let pad = CONTROL_NAME_WIDTH - bytes.len();
    wire::push_zeros(&mut out, pad);
    proof {
        assert(out@ =~= control_info_bytes());
    }
    out
}

/// Reads the family id out of a control-info record the kernel filled in.
pub fn control_info_id(record: &Vec<u8>) -> (r: u32)
    requires
        record@.len() >= 4,
    ensures
        r == wire::u32_of_le(record@),
{
    wire::read_le32(record)
}

/// The unit number sent in the control address for a requested device
/// number: the kernel's unit numbering is shifted by one, unit `n + 1`
/// standing for device `n`.  The shift has differed across kernel API
/// generations; this library states the one it sends rather than
/// guaranteeing how every kernel reads it.
pub fn requested_unit(number: u8) -> (r: u32)
    ensures
        r == number + 1,
{
    number as u32 + 1
}

/// A kernel control address: total length (32) at offset 0, the system
/// address family at 1, the control sub-family at `2..4`, the control id
/// at `4..8`, the unit number at `8..12`, and a reserved all-zero tail,
/// multi-byte fields least significant byte first.
pub open spec fn control_address_bytes(ctl_id: u32, unit: u32) -> Seq<u8> {
    seq![32u8, AF_SYSTEM] + wire::le16(AF_SYS_CONTROL) + wire::le32(ctl_id) + wire::le32(unit)
        + Seq::new(20, |i: int| 0u8)
}

/// Builds the control address for a family id and a unit number.
pub fn control_address(ctl_id: u32, unit: u32) -> (r: Vec<u8>)
    ensures
        r@ == control_address_bytes(ctl_id, unit),
        r@.len() == CONTROL_ADDRESS_LEN,
{
    let mut out: Vec<u8> = Vec::new();
    out.push(32);
    out.push(AF_SYSTEM);
    wire::push_le16(&mut out, AF_SYS_CONTROL);
    wire::push_le32(&mut out, ctl_id);
    wire::push_le32(&mut out, unit);
    wire::push_zeros(&mut out, 20);
    proof {
        assert(out@ =~= control_address_bytes(ctl_id, unit));
    }
    out
}

} // verus!
