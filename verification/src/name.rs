//! Candidate device names.
//!
//! A device name is the mode's three-letter prefix (`"tun"` or `"tap"`)
//! followed by the device number in decimal, with no other formatting:
//! number 0 in `Tun` mode gives `"tun0"`.

use crate::Mode;
use vstd::prelude::*;

verus! {

/// The decimal digit character for `d`, which must lie in 0..=9.
pub open spec fn digit_char(d: int) -> char {
    if d == 0 {
        '0'
    } else if d == 1 {
        '1'
    } else if d == 2 {
        '2'
    } else if d == 3 {
        '3'
    } else if d == 4 {
        '4'
    } else if d == 5 {
        '5'
    } else if d == 6 {
        '6'
    } else if d == 7 {
        '7'
    } else if d == 8 {
        '8'
    } else {
        '9'
    }
}

/// The decimal representation of `n`: most significant digit first, no
/// sign, no leading zeros (`0` is written as the single digit `0`).
pub open spec fn dec_rep(n: nat) -> Seq<char>
    decreases n,
{
    if n < 10 {
        seq![digit_char(n as int)]
    } else {
        dec_rep(n / 10).push(digit_char((n % 10) as int))
    }
}

/// The name prefix that belongs to a mode.
pub open spec fn mode_prefix(m: Mode) -> Seq<char> {
    match m {
        Mode::Tun => seq!['t', 'u', 'n'],
        Mode::Tap => seq!['t', 'a', 'p'],
    }
}

/// The candidate device name for mode `m` and device number `n`:
/// the mode's prefix followed by `n` in decimal.
pub open spec fn device_name_chars(m: Mode, n: nat) -> Seq<char> {
    mode_prefix(m) + dec_rep(n)
}

/// The bytes that spell an ASCII character sequence, one byte per
/// character.
pub open spec fn ascii_bytes(s: Seq<char>) -> Seq<u8> {
    Seq::new(s.len(), |i: int| s[i] as u8)
}

/// A decimal representation consists of digit characters only — in
/// particular plain ASCII — and a number below 1000 needs at most three.
pub proof fn lemma_dec_rep_ascii(n: nat)
    ensures
        vstd::utf8::is_ascii_chars(dec_rep(n)),
        1 <= dec_rep(n).len(),
        n < 10 ==> dec_rep(n).len() == 1,
        n < 100 ==> dec_rep(n).len() <= 2,
        n < 1000 ==> dec_rep(n).len() <= 3,
    decreases n,
{
    if n < 10 {
        assert(vstd::utf8::is_ascii_chars(dec_rep(n)));
    } else {
        lemma_dec_rep_ascii(n / 10);
        assert forall|i: int| 0 <= i < dec_rep(n).len() implies '\0' <= #[trigger] dec_rep(n)[i]
            <= '\u{7f}' by {
            if i < dec_rep(n / 10).len() {
                assert(dec_rep(n)[i] == dec_rep(n / 10)[i]);
            }
        }
    }
}

/// Every candidate device name is short ASCII text — three prefix letters
/// and one to three digits — so its UTF-8 byte form spells the same
/// characters byte for byte.
pub proof fn lemma_device_name_ascii(m: Mode, n: nat)
    requires
        n < 256,
    ensures
        vstd::utf8::is_ascii_chars(device_name_chars(m, n)),
        4 <= device_name_chars(m, n).len() <= 6,
        vstd::utf8::encode_utf8(device_name_chars(m, n)) =~= ascii_bytes(device_name_chars(m, n)),
{
    lemma_dec_rep_ascii(n);
    let s = device_name_chars(m, n);
    assert forall|i: int| 0 <= i < s.len() implies '\0' <= #[trigger] s[i] <= '\u{7f}' by {
        if i >= 3 {
            assert(s[i] == dec_rep(n)[i - 3]);
        }
    }
    vstd::utf8::is_ascii_chars_encode_utf8(s);
}

impl Mode {
    /// The device-name prefix of this mode, `"tun"` or `"tap"`.
    pub fn text(&self) -> (r: &'static str)
        ensures
            r@ == mode_prefix(*self),
    {
        proof {
            reveal_strlit("tun");
            reveal_strlit("tap");
            assert("tun"@ =~= seq!['t', 'u', 'n']);
            assert("tap"@ =~= seq!['t', 'a', 'p']);
        }
        match self {
            Mode::Tun => "tun",
            Mode::Tap => "tap",
        }
    }
}

/// Relies on `String::push`: it appends exactly the given character to the
/// end of the string and changes nothing else.
#[verifier::external_body]
pub(crate) fn push_char(s: &mut String, c: char)
    ensures
        final(s)@ == old(s)@.push(c),
{
    s.push(c);
}

/// The character for the single decimal digit `d`.
fn digit(d: u8) -> (r: char)
    requires
        d < 10,
    ensures
        r == digit_char(d as int),
{
    match d {
        0 => '0',
        1 => '1',
        2 => '2',
        3 => '3',
        4 => '4',
        5 => '5',
        6 => '6',
        7 => '7',
        8 => '8',
        _ => '9',
    }
}

/// Appends the decimal representation of `n` to `s`.
pub fn push_decimal(s: &mut String, n: u8)
    ensures
        final(s)@ == old(s)@ + dec_rep(n as nat),
{
    let q: u8 = n / 10;
    let r: u8 = n % 10;
    if q == 0 {
        push_char(s, digit(r));
        assert(old(s)@ + dec_rep(n as nat) =~= old(s)@.push(digit_char(n as int)));
    } else {
        let q2: u8 = q / 10;
        let r2: u8 = q % 10;
        assert(n >= 10);
        assert(dec_rep(n as nat) == dec_rep(q as nat).push(digit_char(r as int)));
        if q2 == 0 {
            push_char(s, digit(r2));
            assert(dec_rep(q as nat) =~= seq![digit_char(r2 as int)]);
        } else {
            assert(q >= 10);
            assert(dec_rep(q as nat) == dec_rep(q2 as nat).push(digit_char(r2 as int)));
            assert(dec_rep(q2 as nat) =~= seq![digit_char(q2 as int)]);
            push_char(s, digit(q2));
            push_char(s, digit(r2));
        }
        push_char(s, digit(r));
        assert(s@ =~= old(s)@ + dec_rep(n as nat));
    }
}

} // verus!
