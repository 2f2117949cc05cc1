//! UTF-8 well-formedness of the destination address bytes.
//!
//! The address crosses the call boundary as raw bytes; before it is handed to
//! the platform's address resolution it must be valid UTF-8 text. The spec
//! functions here define well-formedness byte for byte, and `is_valid_utf8`
//! decides it in one left-to-right pass.

use vstd::prelude::*;

verus! {

/// True iff `b` is a UTF-8 continuation byte (`10xxxxxx`).
pub open spec fn is_continuation(b: u8) -> bool {
    0x80 <= b && b <= 0xBF
}

/// Length of the well-formed UTF-8 encoded scalar value starting at `s[i]`,
/// or 0 when the bytes at `i` do not begin one. Overlong encodings, encoded
/// surrogates (`ED A0..BF ..`) and values above `U+10FFFF` are all rejected,
/// which the leading-byte ranges below express.
pub open spec fn encoded_len_at(s: Seq<u8>, i: int) -> int {
    let b0 = s[i];
    if b0 <= 0x7F {
        1
    } else if 0xC2 <= b0 && b0 <= 0xDF {
        if i + 1 < s.len() && is_continuation(s[i + 1]) {
            2
        } else {
            0
        }
    } else if b0 == 0xE0 {
        if i + 2 < s.len() && 0xA0 <= s[i + 1] && s[i + 1] <= 0xBF && is_continuation(s[i + 2]) {
            3
        } else {
            0
        }
    } else if (0xE1 <= b0 && b0 <= 0xEC) || b0 == 0xEE || b0 == 0xEF {
        if i + 2 < s.len() && is_continuation(s[i + 1]) && is_continuation(s[i + 2]) {
            3
        } else {
            0
        }
    } else if b0 == 0xED {
        if i + 2 < s.len() && 0x80 <= s[i + 1] && s[i + 1] <= 0x9F && is_continuation(s[i + 2]) {
            3
        } else {
            0
        }
    } else if b0 == 0xF0 {
        if i + 3 < s.len() && 0x90 <= s[i + 1] && s[i + 1] <= 0xBF && is_continuation(s[i + 2])
            && is_continuation(s[i + 3]) {
            4
        } else {
            0
        }
    } else if 0xF1 <= b0 && b0 <= 0xF3 {
        if i + 3 < s.len() && is_continuation(s[i + 1]) && is_continuation(s[i + 2])
            && is_continuation(s[i + 3]) {
            4
        } else {
            0
        }
    } else if b0 == 0xF4 {
        if i + 3 < s.len() && 0x80 <= s[i + 1] && s[i + 1] <= 0x8F && is_continuation(s[i + 2])
            && is_continuation(s[i + 3]) {
            4
        } else {
            0
        }
    } else {
        0
    }
}

/// The bytes of `s` from position `i` on are a sequence of well-formed UTF-8
/// encoded scalar values.
pub open spec fn is_utf8_from(s: Seq<u8>, i: int) -> bool
    decreases s.len() - i,
{
    if i >= s.len() {
        true
    } else {
        let n = encoded_len_at(s, i);
        n > 0 && is_utf8_from(s, i + n)
    }
}

/// `s` is well-formed UTF-8 text.
pub open spec fn is_utf8(s: Seq<u8>) -> bool {
    is_utf8_from(s, 0)
}

/// True iff `b` is a UTF-8 continuation byte.
fn is_continuation_byte(b: u8) -> (r: bool)
    ensures
        r == is_continuation(b),
{
    0x80 <= b && b <= 0xBF
}

/// Decides whether `bytes` is well-formed UTF-8 text, in one pass.
pub fn is_valid_utf8(bytes: &Vec<u8>) -> (r: bool)
    ensures
        r == is_utf8(bytes@),
{
    let n = bytes.len();
    let mut i: usize = 0;
    while i < n
        invariant
            i <= n,
            n == bytes@.len(),
            is_utf8(bytes@) == is_utf8_from(bytes@, i as int),
        decreases n - i,
    {
        let b0 = bytes[i];
        let remaining = n - i;
        let step: usize;
        if b0 <= 0x7F {
            step = 1;
        } else if 0xC2 <= b0 && b0 <= 0xDF {
            if remaining >= 2 && is_continuation_byte(bytes[i + 1]) {
                step = 2;
            } else {
                return false;
            }
        } else if b0 == 0xE0 {
            if remaining >= 3 && 0xA0 <= bytes[i + 1] && bytes[i + 1] <= 0xBF
                && is_continuation_byte(bytes[i + 2]) {
                step = 3;
            } else {
                return false;
            }
        } else if (0xE1 <= b0 && b0 <= 0xEC) || b0 == 0xEE || b0 == 0xEF {
            if remaining >= 3 && is_continuation_byte(bytes[i + 1])
                && is_continuation_byte(bytes[i + 2]) {
                step = 3;
            } else {
                return false;
            }
        } else if b0 == 0xED {
            if remaining >= 3 && 0x80 <= bytes[i + 1] && bytes[i + 1] <= 0x9F
                && is_continuation_byte(bytes[i + 2]) {
                step = 3;
            } else {
                return false;
            }
        } else if b0 == 0xF0 {
            if remaining >= 4 && 0x90 <= bytes[i + 1] && bytes[i + 1] <= 0xBF
                && is_continuation_byte(bytes[i + 2]) && is_continuation_byte(bytes[i + 3]) {
                step = 4;
            } else {
                return false;
            }
        } else if 0xF1 <= b0 && b0 <= 0xF3 {
            if remaining >= 4 && is_continuation_byte(bytes[i + 1])
                && is_continuation_byte(bytes[i + 2]) && is_continuation_byte(bytes[i + 3]) {
                step = 4;
            } else {
                return false;
            }
        } else if b0 == 0xF4 {
            if remaining >= 4 && 0x80 <= bytes[i + 1] && bytes[i + 1] <= 0x8F
                && is_continuation_byte(bytes[i + 2]) && is_continuation_byte(bytes[i + 3]) {
                step = 4;
            } else {
                return false;
            }
        } else {
            return false;
        }
        i = i + step;
    }
    true
}

} // verus!
