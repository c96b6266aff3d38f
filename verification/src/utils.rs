//! Decoding of `#RRGGBB` colour strings.

use vstd::prelude::*;
use vstd::string::*;

verus! {

/// Whether `c` is one of `0-9`, `a-f`, `A-F`.
pub open spec fn is_hex_digit(c: char) -> bool {
    ('0' <= c && c <= '9') || ('a' <= c && c <= 'f') || ('A' <= c && c <= 'F')
}

/// The value of a hexadecimal digit; `0` for any other character.
pub open spec fn hex_digit_value(c: char) -> int {
    if '0' <= c && c <= '9' {
        c as int - '0' as int
    } else if 'a' <= c && c <= 'f' {
        c as int - 'a' as int + 10
    } else if 'A' <= c && c <= 'F' {
        c as int - 'A' as int + 10
    } else {
        0
    }
}

/// Whether the two characters of `s` that start at `start` exist and are both
/// hexadecimal digits.
pub open spec fn channel_well_formed(s: Seq<char>, start: int) -> bool {
    &&& 0 <= start
    &&& start + 2 <= s.len()
    &&& is_hex_digit(s[start])
    &&& is_hex_digit(s[start + 1])
}

/// The colour channel written at `s[start]`, `s[start + 1]`: the two digits
/// read in base 16, or `0` where they are missing or not hexadecimal.
pub open spec fn channel_value(s: Seq<char>, start: int) -> int {
    if channel_well_formed(s, start) {
        16 * hex_digit_value(s[start]) + hex_digit_value(s[start + 1])
    } else {
        0
    }
}

/// The colour that `s` denotes: its first character is skipped, the next six
/// are the red, green and blue channels, each decoded on its own.
pub open spec fn decoded_color(s: Seq<char>) -> (u8, u8, u8) {
    (channel_value(s, 1) as u8, channel_value(s, 3) as u8, channel_value(s, 5) as u8)
}

/// Every channel fits in eight bits.
pub proof fn channel_value_is_a_byte(s: Seq<char>, start: int)
    ensures
        0 <= channel_value(s, start) <= 255,
{
}

fn hex_digit(c: char) -> (r: Option<u8>)
    ensures
        r is Some <==> is_hex_digit(c),
        r is Some ==> r->0 as int == hex_digit_value(c),
        r is Some ==> r->0 < 16,
{
    if '0' <= c && c <= '9' {
        Some((c as u8) - ('0' as u8))
    } else if 'a' <= c && c <= 'f' {
        Some((c as u8) - ('a' as u8) + 10)
    } else if 'A' <= c && c <= 'F' {
        Some((c as u8) - ('A' as u8) + 10)
    } else {
        None
    }
}

fn decode_channel(s: &str, len: usize, start: usize) -> (r: u8)
    requires
        len == s@.len(),
        start <= 5,
    ensures
        r as int == channel_value(s@, start as int),
{
    if start + 2 > len {
        return 0;
    }
    let high = hex_digit(s.get_char(start));
    let low = hex_digit(s.get_char(start + 1));
    match (high, low) {
        (Some(h), Some(l)) => h * 16 + l,
        _ => 0,
    }
}

/// Decodes a `#RRGGBB` colour. Never fails: a channel whose two characters
/// are missing or are not hexadecimal digits is `0`, and the other channels
/// are decoded all the same.
pub fn decode_hex(s: &str) -> (color: (u8, u8, u8))
    ensures
        color == decoded_color(s@),
{
    let len = s.unicode_len();
    (decode_channel(s, len, 1), decode_channel(s, len, 3), decode_channel(s, len, 5))
}

/// A well-formed colour decodes to the three numbers that its digits spell.
pub proof fn well_formed_color_decodes_exactly(s: Seq<char>)
    requires
        s.len() == 7,
        forall|i: int| 1 <= i < 7 ==> is_hex_digit(#[trigger] s[i]),
    ensures
        decoded_color(s).0 == 16 * hex_digit_value(s[1]) + hex_digit_value(s[2]),
        decoded_color(s).1 == 16 * hex_digit_value(s[3]) + hex_digit_value(s[4]),
        decoded_color(s).2 == 16 * hex_digit_value(s[5]) + hex_digit_value(s[6]),
{
}

/// A channel that is cut short or holds a character that is no hexadecimal
/// digit decodes to `0`.
pub proof fn malformed_channel_is_zero(s: Seq<char>, start: int)
    requires
        !channel_well_formed(s, start),
    ensures
        channel_value(s, start) == 0,
{
}

/// Every channel is decoded on its own: it is what its own two characters
/// spell, or `0`, whatever the rest of the text holds.
pub proof fn each_channel_decodes_alone(s: Seq<char>)
    ensures
        decoded_color(s).0 == (if channel_well_formed(s, 1) {
            16 * hex_digit_value(s[1]) + hex_digit_value(s[2])
        } else {
            0
        }),
        decoded_color(s).1 == (if channel_well_formed(s, 3) {
            16 * hex_digit_value(s[3]) + hex_digit_value(s[4])
        } else {
            0
        }),
        decoded_color(s).2 == (if channel_well_formed(s, 5) {
            16 * hex_digit_value(s[5]) + hex_digit_value(s[6])
        } else {
            0
        }),
{
}

/// Two texts that agree on the two characters of a channel agree on that
/// channel.
pub proof fn channel_depends_on_its_characters(s: Seq<char>, t: Seq<char>, start: int)
    requires
        0 <= start,
        start + 2 <= s.len(),
        start + 2 <= t.len(),
        s[start] == t[start],
        s[start + 1] == t[start + 1],
    ensures
        channel_value(s, start) == channel_value(t, start),
{
}

} // verus!
