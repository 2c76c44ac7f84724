//! The binary request record and control-call code of the ioctl-attach
//! backend.
//!
//! The kernel multiplexer expects a fixed-size record: a zero-padded
//! interface-name field of [`NAME_FIELD_WIDTH`] bytes at offset 0, then a
//! 16-bit flags field at offset [`NAME_FIELD_WIDTH`] in native (here:
//! little-endian) byte order, inside a union padded to
//! [`REQUEST_RECORD_LEN`] bytes.  After a successful call the kernel has
//! rewritten the name field with the interface name it actually assigned.

use crate::error::AcquisitionError;
use crate::wire;
use crate::Mode;
use vstd::prelude::*;
use vstd::string::StrSliceExecFns;
use vstd::utf8::encode_utf8;

verus! {

/// Request flag selecting a TUN (raw IP) interface.
pub const IFF_TUN: u16 = 0x0001;

/// Request flag selecting a TAP (raw Ethernet) interface.
pub const IFF_TAP: u16 = 0x0002;

/// Request flag asking the kernel to omit the 4-byte packet-info prefix.
pub const IFF_NO_PI: u16 = 0x1000;

/// Width of the interface-name field, terminating zero included.
pub const NAME_FIELD_WIDTH: usize = 16;

/// Size of the whole request record: the name field plus the 24-byte
/// union that holds the flags.
pub const REQUEST_RECORD_LEN: usize = 40;

/// The flags field for a device request: the mode-select bit, plus
/// `IFF_NO_PI` unless the packet-info prefix was asked for.
pub open spec fn spec_tun_flags(m: Mode, packet_info: bool) -> u16 {
    (match m {
        Mode::Tun => IFF_TUN,
        Mode::Tap => IFF_TAP,
    }) | (if packet_info {
        0u16
    } else {
        IFF_NO_PI
    })
}

/// Computes the flags field for a device request.
pub fn tun_flags(m: Mode, packet_info: bool) -> (r: u16)
    ensures
        r == spec_tun_flags(m, packet_info),
        packet_info ==> r & IFF_NO_PI == 0,
        !packet_info ==> r & IFF_NO_PI == IFF_NO_PI,
{
    proof {
        assert(1u16 & 0x1000u16 == 0) by (bit_vector);
        assert(2u16 & 0x1000u16 == 0) by (bit_vector);
        assert((1u16 | 0x1000u16) & 0x1000u16 == 0x1000u16) by (bit_vector);
        assert((2u16 | 0x1000u16) & 0x1000u16 == 0x1000u16) by (bit_vector);
        assert(1u16 | 0u16 == 1u16) by (bit_vector);
        assert(2u16 | 0u16 == 2u16) by (bit_vector);
    }
    let base: u16 = match m {
        Mode::Tun => IFF_TUN,
        Mode::Tap => IFF_TAP,
    };
    if packet_info {
        base | 0
    } else {
        base | IFF_NO_PI
    }
}

/// An ioctl request code, assembled from its four parts: the direction in
/// the top two bits of the low 32-bit word (1 = the kernel reads the
/// argument, 2 = it writes it, 3 = both), the argument size in bits
/// 16..30, the magic byte in bits 8..16 and the sequence number in bits
/// 0..8.
pub open spec fn spec_ioctl_code(direction: u32, magic: u8, sequence: u8, size: u32) -> u32 {
    ((direction << 30) | (size << 16) | ((magic as u32) << 8) | (sequence as u32)) as u32
}

/// The device-configuration code that attaches a TUN/TAP interface to an
/// open multiplexer descriptor: direction "kernel reads" (1), magic `'T'`
/// (84), sequence 202, argument the size of one native `int` (4 bytes).
///
/// The standard C library passes this code as an `unsigned long` and the
/// minimal one as an `int`; both casts keep this 32-bit pattern, so the
/// one value serves either ABI.
pub fn tunsetiff_code() -> (r: u32)
    ensures
        r == spec_ioctl_code(1, 84, 202, 4),
        r == 0x400454CA,
{
    proof {
        assert((1u32 << 30) | (4u32 << 16) | ((84u32) << 8) | 202u32 == 0x400454CAu32)
            by (bit_vector);
    }
    (1u32 << 30) | (4u32 << 16) | (84u32 << 8) | 202u32
}

/// The interface-name field for a requested candidate name: the name's
/// UTF-8 bytes padded with zeros to [`NAME_FIELD_WIDTH`], or all zeros
/// when no name is requested (the kernel then auto-assigns one).
pub open spec fn spec_name_field(device_name: Option<String>) -> Seq<u8>
    recommends
        device_name is Some ==> encode_utf8(device_name->Some_0@).len() < NAME_FIELD_WIDTH,
{
    match device_name {
        None => Seq::new(NAME_FIELD_WIDTH as nat, |i: int| 0u8),
        Some(s) => encode_utf8(s@) + Seq::new(
            (NAME_FIELD_WIDTH - encode_utf8(s@).len()) as nat,
            |i: int| 0u8,
        ),
    }
}

/// The request record of the ioctl-attach backend, kept as explicit
/// fields; [`Request::encode`] lays it out byte by byte.
#[derive(Debug)]
pub struct Request {
    /// The zero-padded interface-name field.
    pub name: Vec<u8>,
    /// The flags field.
    pub flags: u16,
}

impl Request {
    /// The name field always has its fixed width.
    pub open spec fn wf(&self) -> bool {
        self.name@.len() == NAME_FIELD_WIDTH
    }

    /// Builds the record for a candidate device name (or none, leaving the
    /// choice to the kernel) and a flags field.
    ///
    /// A name must be shorter than the name field, which needs room for
    /// its terminating zero.
    pub fn with_flags(device_name: Option<String>, flags: u16) -> (r: Request)
        requires
            device_name is Some ==> encode_utf8(device_name->Some_0@).len() < NAME_FIELD_WIDTH,
        ensures
            r.wf(),
            r.name@ == spec_name_field(device_name),
            r.flags == flags,
    {
        let mut name: Vec<u8> = match &device_name {
            None => Vec::new(),
            Some(s) => s.as_str().as_bytes_vec(),
        };
        let pad = NAME_FIELD_WIDTH - name.len();
        wire::push_zeros(&mut name, pad);
        proof {
            assert(name@ =~= spec_name_field(device_name));
        }
        Request { name, flags }
    }

    /// Encodes the record: the name field at offsets `0..16`, the flags at
    /// `16..18` least significant byte first, and zero padding for the
    /// rest of the union up to the full record size.
    pub fn encode(&self) -> (r: Vec<u8>)
        requires
            self.wf(),
        ensures
            r@.len() == REQUEST_RECORD_LEN,
            r@ == self.name@ + wire::le16(self.flags) + Seq::new(22, |i: int| 0u8),
    {
        let mut out: Vec<u8> = Vec::new();
        let mut i: usize = 0;
        while i < NAME_FIELD_WIDTH
            invariant
                i <= NAME_FIELD_WIDTH,
                self.wf(),
                out@ == self.name@.take(i as int),
            decreases NAME_FIELD_WIDTH - i,
        {
            out.push(self.name[i]);
            i = i + 1;
            proof {
                assert(out@ =~= self.name@.take(i as int));
            }
        }
        proof {
            assert(out@ =~= self.name@);
        }
        wire::push_le16(&mut out, self.flags);
        wire::push_zeros(&mut out, 22);
        proof {
            assert(out@ =~= self.name@ + wire::le16(self.flags) + Seq::new(22, |i: int| 0u8));
        }
        out
    }
}

/// Reads the interface name the kernel wrote back into the name field of
/// a returned request record: the bytes before the field's first zero,
/// decoded as ASCII text.
pub fn decode_name(record: &Vec<u8>) -> (r: Result<String, AcquisitionError>)
    requires
        record@.len() >= NAME_FIELD_WIDTH,
    ensures
        match r {
            Ok(s) => wire::ascii_text(wire::field_text(record@.take(NAME_FIELD_WIDTH as int)))
                && s@ == wire::text_chars(
                wire::field_text(record@.take(NAME_FIELD_WIDTH as int)),
            ),
            Err(e) => e == AcquisitionError::NameDecode && !wire::ascii_text(
                wire::field_text(record@.take(NAME_FIELD_WIDTH as int)),
            ),
        },
{
    wire::decode_text_field(record, NAME_FIELD_WIDTH)
}

} // verus!
