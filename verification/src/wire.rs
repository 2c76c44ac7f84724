//! Byte-level building blocks for the kernel request records.
//!
//! The control structures handed to the kernel are modelled as explicit
//! byte vectors with documented offsets.  Multi-byte integers are laid out
//! least-significant byte first, the native order of every target this
//! library supports.

use crate::error::AcquisitionError;
use crate::name::push_char;
use vstd::prelude::*;

verus! {

/// The two bytes of `x`, least significant first.
pub open spec fn le16(x: u16) -> Seq<u8> {
    seq![(x & 0xff) as u8, ((x >> 8) & 0xff) as u8]
}

/// The four bytes of `x`, least significant first.
pub open spec fn le32(x: u32) -> Seq<u8> {
    seq![
        (x & 0xff) as u8,
        ((x >> 8) & 0xff) as u8,
        ((x >> 16) & 0xff) as u8,
        ((x >> 24) & 0xff) as u8,
    ]
}

/// The value whose four bytes, least significant first, are `s`.
pub open spec fn u32_of_le(s: Seq<u8>) -> u32
    recommends
        s.len() >= 4,
{
    ((s[0] as u32) | ((s[1] as u32) << 8) | ((s[2] as u32) << 16) | ((s[3] as u32) << 24)) as u32
}

/// Appends the two bytes of `x`, least significant first.
pub fn push_le16(v: &mut Vec<u8>, x: u16)
    ensures
        final(v)@ == old(v)@ + le16(x),
{
    proof {
        assert(x & 0xff < 256 && (x >> 8) & 0xff < 256) by (bit_vector);
    }
    v.push((x & 0xff) as u8);
    v.push(((x >> 8) & 0xff) as u8);
    assert(v@ =~= old(v)@ + le16(x));
}

/// Appends the four bytes of `x`, least significant first.
pub fn push_le32(v: &mut Vec<u8>, x: u32)
    ensures
        final(v)@ == old(v)@ + le32(x),
{
    proof {
        assert((x & 0xff < 256) && ((x >> 8) & 0xff < 256) && ((x >> 16) & 0xff < 256) && ((x
            >> 24) & 0xff < 256)) by (bit_vector);
    }
    v.push((x & 0xff) as u8);
    v.push(((x >> 8) & 0xff) as u8);
    v.push(((x >> 16) & 0xff) as u8);
    v.push(((x >> 24) & 0xff) as u8);
    assert(v@ =~= old(v)@ + le32(x));
}

/// Reads the little-endian 32-bit value at the start of `v`.
pub fn read_le32(v: &Vec<u8>) -> (r: u32)
    requires
        v@.len() >= 4,
    ensures
        r == u32_of_le(v@),
{
    let b0 = v[0] as u32;
    let b1 = v[1] as u32;
    let b2 = v[2] as u32;
    let b3 = v[3] as u32;
    proof {
        assert(b0 | (b1 << 8) | (b2 << 16) | (b3 << 24) <= 0xffffffff) by (bit_vector)
            requires
                b0 < 256 && b1 < 256 && b2 < 256 && b3 < 256,
        ;
    }
    b0 | (b1 << 8) | (b2 << 16) | (b3 << 24)
}

/// Appends `count` zero bytes.
pub fn push_zeros(v: &mut Vec<u8>, count: usize)
    ensures
        final(v)@ == old(v)@ + Seq::new(count as nat, |i: int| 0u8),
{
    let mut added: usize = 0;
    while added < count
        invariant
            added <= count,
            v@ == old(v)@ + Seq::new(added as nat, |i: int| 0u8),
        decreases count - added,
    {
        v.push(0);
        proof {
            assert(v@ =~= old(v)@ + Seq::new((added + 1) as nat, |i: int| 0u8));
        }
        added = added + 1;
    }
    assert(v@ =~= old(v)@ + Seq::new(count as nat, |i: int| 0u8));
}

/// The position of the first zero byte of `s`, or `s.len()` when `s` has
/// none.
pub open spec fn first_nul(s: Seq<u8>) -> int
    decreases s.len(),
{
    if s.len() == 0 {
        0
    } else if s[0] == 0 {
        0
    } else {
        1 + first_nul(s.drop_first())
    }
}

/// What `first_nul` finds: a position within the sequence, preceded only by
/// non-zero bytes, holding zero unless it is the end.
pub proof fn lemma_first_nul(s: Seq<u8>)
    ensures
        0 <= first_nul(s) <= s.len(),
        forall|j: int| 0 <= j < first_nul(s) ==> s[j] != 0,
        first_nul(s) < s.len() ==> s[first_nul(s)] == 0,
    decreases s.len(),
{
    if s.len() == 0 {
    } else if s[0] == 0 {
    } else {
        lemma_first_nul(s.drop_first());
        assert(forall|j: int| 0 <= j < first_nul(s.drop_first()) ==> s.drop_first()[j] != 0);
        assert forall|j: int| 0 <= j < first_nul(s) implies s[j] != 0 by {
            if j > 0 {
                assert(s.drop_first()[j - 1] == s[j]);
            }
        }
    }
}

/// No position other than `first_nul(s)` satisfies its description.
pub proof fn lemma_first_nul_unique(s: Seq<u8>, k: int)
    requires
        0 <= k <= s.len(),
        forall|j: int| 0 <= j < k ==> s[j] != 0,
        k < s.len() ==> s[k] == 0,
    ensures
        first_nul(s) == k,
    decreases s.len(),
{
    if s.len() == 0 {
    } else if s[0] == 0 {
        assert(k == 0);
    } else {
        assert(k > 0);
        lemma_first_nul_unique(s.drop_first(), k - 1);
    }
}

/// Whether every byte is printable text in the sense this library accepts:
/// ASCII, i.e. below 128.
pub open spec fn ascii_text(s: Seq<u8>) -> bool {
    forall|i: int| 0 <= i < s.len() ==> s[i] < 128
}

/// The characters spelled by a sequence of ASCII bytes.
pub open spec fn text_chars(s: Seq<u8>) -> Seq<char> {
    Seq::new(s.len(), |i: int| s[i] as char)
}

/// The name bytes a zero-padded text field holds: everything before the
/// first zero byte.
pub open spec fn field_text(field: Seq<u8>) -> Seq<u8> {
    field.take(first_nul(field))
}

/// Decodes the zero-padded text field `buf[0..width]`: the bytes before
/// the first zero byte, read as ASCII text.  Non-text bytes there are an
/// integrity failure and are reported, never masked.
pub fn decode_text_field(buf: &Vec<u8>, width: usize) -> (r: Result<String, AcquisitionError>)
    requires
        width <= buf@.len(),
    ensures
        match r {
            Ok(s) => ascii_text(field_text(buf@.take(width as int))) && s@ == text_chars(
                field_text(buf@.take(width as int)),
            ),
            Err(e) => e == AcquisitionError::NameDecode && !ascii_text(
                field_text(buf@.take(width as int)),
            ),
        },
{
    let ghost field = buf@.take(width as int);
    proof {
        lemma_first_nul(field);
    }
    let mut s = String::new();
    let mut i: usize = 0;
    while i < width
        invariant
            i <= width,
            width <= buf@.len(),
            field == buf@.take(width as int),
            forall|j: int| 0 <= j < i ==> field[j] != 0 && field[j] < 128,
            s@ == text_chars(field.take(i as int)),
        decreases width - i,
    {
        let b = buf[i];
        assert(field[i as int] == buf@[i as int]);
        if b == 0 {
            proof {
                lemma_first_nul_unique(field, i as int);
            }
            return Ok(s);
        }
        if b >= 128 {
            proof {
                lemma_first_nul(field);
                if first_nul(field) <= i {
                    assert(field[first_nul(field)] != 0);
                }
                assert(first_nul(field) > i);
                assert(field_text(field)[i as int] == field[i as int]);
            }
            return Err(AcquisitionError::NameDecode);
        }
        push_char(&mut s, b as char);
        i = i + 1;
        proof {
            assert(s@ =~= text_chars(field.take(i as int)));
        }
    }
    proof {
        lemma_first_nul_unique(field, width as int);
        assert(field_text(field) =~= field.take(width as int));
    }
    Ok(s)
}

} // verus!
