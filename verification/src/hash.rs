//! The fixed-size hash that names a block, and its hexadecimal text form.

use vstd::prelude::*;
use crate::text::chars_of;

verus! {

/// A 32-byte hash, as a node reports it for a block.
#[derive(Clone, Copy, Debug, PartialEq, Eq)]
pub struct Hash {
    pub bytes: [u8; 32],
}

impl View for Hash {
    type V = Seq<u8>;

    open spec fn view(&self) -> Seq<u8> {
        self.bytes@
    }
}

/// The lower-case hexadecimal digit of a value below 16.
pub open spec fn hex_digit(n: int) -> char {
    seq!['0', '1', '2', '3', '4', '5', '6', '7', '8', '9', 'a', 'b', 'c', 'd', 'e', 'f'][n]
}

/// The value of a hexadecimal digit of either case, `None` for any other
/// character.
pub open spec fn hex_value(c: char) -> Option<int> {
    if '0' <= c <= '9' {
        Some(c as int - '0' as int)
    } else if 'a' <= c <= 'f' {
        Some(c as int - 'a' as int + 10)
    } else if 'A' <= c <= 'F' {
        Some(c as int - 'A' as int + 10)
    } else {
        None
    }
}

/// Two digits for each byte, the high half first.
pub open spec fn hex_of(bytes: Seq<u8>) -> Seq<char> {
    Seq::new(
        2 * bytes.len(),
        |i: int|
            if i % 2 == 0 {
                hex_digit(bytes[i / 2] as int / 16)
            } else {
                hex_digit(bytes[i / 2] as int % 16)
            },
    )
}

/// The text form of some bytes: `0x`, then their digits.
pub open spec fn hexstr(bytes: Seq<u8>) -> Seq<char> {
    seq!['0', 'x'] + hex_of(bytes)
}

/// The digits of a text: what follows a leading `0x`, or all of it.
pub open spec fn hex_digits(s: Seq<char>) -> Seq<char> {
    if s.len() >= 2 && s[0] == '0' && s[1] == 'x' {
        s.skip(2)
    } else {
        s
    }
}

/// Whether every character is a hexadecimal digit.
pub open spec fn all_hex(digits: Seq<char>) -> bool {
    forall|i: int| 0 <= i < digits.len() ==> (#[trigger] hex_value(digits[i])) is Some
}

/// The bytes that pairs of digits spell.
pub open spec fn unhex(digits: Seq<char>) -> Seq<u8> {
    Seq::new(
        digits.len() / 2,
        |i: int| (16 * hex_value(digits[2 * i])->0 + hex_value(digits[2 * i + 1])->0) as u8,
    )
}

/// The hash that a text spells: 64 hexadecimal digits of either case, with
/// or without a leading `0x`. Any other text spells none.
pub open spec fn hash_of_hexstr(s: Seq<char>) -> Option<Seq<u8>> {
    let digits = hex_digits(s);
    if digits.len() == 64 && all_hex(digits) {
        Some(unhex(digits))
    } else {
        None
    }
}

pub(crate) fn digit_char(n: u8) -> (c: char)
    requires
        n < 16,
    ensures
        c == hex_digit(n as int),
        hex_value(c) == Some(n as int),
{
    let table: [char; 16] = [
        '0', '1', '2', '3', '4', '5', '6', '7', '8', '9', 'a', 'b', 'c', 'd', 'e', 'f',
    ];
    table[n as usize]
}

fn digit_value(c: char) -> (r: Option<u8>)
    ensures
        r is Some <==> hex_value(c) is Some,
        r matches Some(n) ==> n < 16 && hex_value(c) == Some(n as int),
{
    if '0' <= c && c <= '9' {
        Some((c as u32 - '0' as u32) as u8)
    } else if 'a' <= c && c <= 'f' {
        Some((c as u32 - 'a' as u32 + 10) as u8)
    } else if 'A' <= c && c <= 'F' {
        Some((c as u32 - 'A' as u32 + 10) as u8)
    } else {
        None
    }
}

/// The text form of a hash: `0x` and 64 lower-case digits.
pub fn hexstr_of(hash: &Hash) -> (s: String)
    ensures
        s@ == hexstr(hash@),
{
    let mut s = String::new();
    s.push('0');
    s.push('x');
    let mut i: usize = 0;
    while i < 32
        invariant
            i <= 32,
            hash@.len() == 32,
            s@ == seq!['0', 'x'] + hex_of(hash@.take(i as int)),
        decreases 32 - i,
    {
        let b: u8 = hash.bytes[i];
        s.push(digit_char(b / 16));
        s.push(digit_char(b % 16));
        proof {
            let before = hash@.take(i as int);
            let after = hash@.take(i + 1);
            assert(after =~= before.push(b));
            assert(hex_of(after) =~= hex_of(before).push(hex_digit(b as int / 16)).push(
                hex_digit(b as int % 16),
            ));
        }
        i += 1;
    }
    proof {
        assert(hash@.take(32) =~= hash@);
    }
    s
}

/// Reads a hash from its text form. The text must hold 64 hexadecimal
/// digits, of either case, after an optional `0x`.
pub fn hexstr_to_hash(hexstr: &str) -> (r: Option<Hash>)
    ensures
        match r {
            Some(h) => hash_of_hexstr(hexstr@) == Some(h@),
            None => hash_of_hexstr(hexstr@) is None,
        },
{
    let chars = chars_of(hexstr);
    let start: usize = if chars.len() >= 2 && chars[0] == '0' && chars[1] == 'x' {
        2
    } else {
        0
    };
    if chars.len() - start != 64 {
        return None;
    }
    let ghost digits = hex_digits(hexstr@);
    assert(digits =~= chars@.skip(start as int));
    let mut bytes: [u8; 32] = [0u8; 32];
    let mut i: usize = 0;
    while i < 32
        invariant
            i <= 32,
            start <= 2,
            chars@.len() == start + 64,
            digits == hex_digits(hexstr@),
            digits == chars@.skip(start as int),
            forall|j: int| 0 <= j < 2 * i ==> (#[trigger] hex_value(digits[j])) is Some,
            forall|j: int| 0 <= j < i ==> bytes@[j] == #[trigger] unhex(digits)[j],
        decreases 32 - i,
    {
        let hi = digit_value(chars[start + 2 * i]);
        let lo = digit_value(chars[start + 2 * i + 1]);
        match (hi, lo) {
            (Some(h), Some(l)) => {
                bytes[i] = h * 16 + l;
            },
            _ => {
                proof {
                    assert(hex_value(digits[2 * i]) is None || hex_value(digits[2 * i + 1])
                        is None);
                    assert(!all_hex(digits));
                }
                return None;
            },
        }
        i += 1;
    }
    proof {
        assert(all_hex(digits));
        assert(bytes@ =~= unhex(digits));
    }
    Some(Hash { bytes })
}

/// Every digit that [`hex_digit`] writes reads back as its value.
pub proof fn lemma_digit_round_trip(n: int)
    requires
        0 <= n < 16,
    ensures
        hex_value(hex_digit(n)) == Some(n),
{
}

/// A hash written by [`hexstr_of`] is read back unchanged by
/// [`hexstr_to_hash`]: the text form of any hash spells that hash.
pub proof fn lemma_hexstr_round_trip(hash: Hash)
    ensures
        hash_of_hexstr(hexstr(hash@)) == Some(hash@),
{
    let bytes = hash@;
    let s = hexstr(bytes);
    let digits = hex_of(bytes);
    assert(bytes.len() == 32);
    assert(s[0] == '0' && s[1] == 'x');
    assert(hex_digits(s) =~= digits);
    assert forall|i: int| 0 <= i < digits.len() implies (#[trigger] hex_value(
        digits[i],
    )) is Some by {
        let b = bytes[i / 2] as int;
        lemma_digit_round_trip(b / 16);
        lemma_digit_round_trip(b % 16);
    }
    assert forall|i: int| 0 <= i < 32 implies unhex(digits)[i] == bytes[i] by {
        let b = bytes[i] as int;
        lemma_digit_round_trip(b / 16);
        lemma_digit_round_trip(b % 16);
        assert(digits[2 * i] == hex_digit(b / 16));
        assert(digits[2 * i + 1] == hex_digit(b % 16));
    }
    assert(unhex(digits) =~= bytes);
}

} // verus!
