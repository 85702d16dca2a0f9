//! Validation of the header's title text.
//!
//! The title region holds zero-terminated text; the bytes before the
//! first null must form valid UTF-8.  The checker here is proved
//! against vstd's specification of UTF-8.

use vstd::prelude::*;
use vstd::utf8::*;

verus! {

/// The prefix of a byte sequence before its first null byte (the whole
/// sequence when no null occurs).
pub open spec fn until_null(s: Seq<u8>) -> Seq<u8>
    decreases s.len(),
{
    if s.len() == 0 {
        s
    } else if s[0] == 0 {
        Seq::empty()
    } else {
        seq![s[0]] + until_null(s.skip(1))
    }
}

/// `until_null` is exactly the prefix up to the first null: if nothing
/// before position `i` is null, and position `i` is null or the end,
/// the prefix of length `i` is what `until_null` yields.
pub proof fn lemma_until_null_prefix(s: Seq<u8>, i: int)
    requires
        0 <= i <= s.len(),
        forall|j: int| 0 <= j < i ==> s[j] != 0,
        i < s.len() ==> s[i] == 0,
    ensures
        until_null(s) == s.subrange(0, i),
    decreases s.len(),
{
    if s.len() == 0 {
        assert(until_null(s) =~= s.subrange(0, i));
    } else if s[0] == 0 {
        assert(i == 0);
        assert(until_null(s) =~= s.subrange(0, 0));
    } else {
        assert(i >= 1);
        let t = s.skip(1);
        assert(forall|j: int| 0 <= j < i - 1 ==> t[j] == s[j + 1] && t[j] != 0);
        assert(i - 1 < t.len() ==> t[i - 1] == 0);
        lemma_until_null_prefix(t, i - 1);
        assert(seq![s[0]] + t.subrange(0, i - 1) =~= s.subrange(0, i));
    }
}

/// Checks that a byte sequence is valid UTF-8, against vstd's
/// specification of the encoding.
pub fn validate_utf8(bytes: &Vec<u8>) -> (r: bool)
    ensures
        r == valid_utf8(bytes@),
{
    let n = bytes.len();
    let mut i: usize = 0;
    proof {
        assert(bytes@.skip(0) =~= bytes@);
    }
    while i < n
        invariant
            i <= n,
            n == bytes@.len(),
            valid_utf8(bytes@) == valid_utf8(bytes@.skip(i as int)),
        decreases n - i,
    {
        let ghost suffix = bytes@.skip(i as int);
        assert(suffix.len() == n - i);
        let b0 = bytes[i];
        assert(b0 == suffix[0]);
        if b0 < 0x80 {
            // One-byte scalar: always in range, never overlong.
            proof {
                assert(((b0 & 0x7F) as u32) < 0xD800) by (bit_vector);
                assert(valid_first_scalar(suffix) && length_of_first_scalar(suffix) == 1);
                assert(pop_first_scalar(suffix) =~= bytes@.skip(i + 1));
            }
            i = i + 1;
        } else if b0 < 0xC0 {
            // A continuation byte cannot lead a scalar.
            assert(!valid_first_scalar(suffix));
            return false;
        } else if b0 < 0xE0 {
            if n - i < 2 {
                assert(!valid_first_scalar(suffix));
                return false;
            }
            let b1 = bytes[i + 1];
            assert(b1 == suffix[1]);
            if !(0x80 <= b1 && b1 < 0xC0) {
                assert(!valid_first_scalar(suffix));
                return false;
            }
            let codepoint: u32 = ((((b0 & 0x1F) as u32) << 6) | ((b1 & 0x3F) as u32));
            proof {
                assert(codepoint == codepoint_width_2(b0, b1));
                assert(((((b0 & 0x1F) as u32) << 6) | ((b1 & 0x3F) as u32)) < 0x800)
                    by (bit_vector);
            }
            if codepoint < 0x80 {
                // Overlong two-byte encoding.
                assert(!valid_first_scalar(suffix));
                return false;
            }
            proof {
                assert(valid_first_scalar(suffix) && length_of_first_scalar(suffix) == 2);
                assert(pop_first_scalar(suffix) =~= bytes@.skip(i + 2));
            }
            i = i + 2;
        } else if b0 < 0xF0 {
            if n - i < 3 {
                assert(!valid_first_scalar(suffix));
                return false;
            }
            let b1 = bytes[i + 1];
            let b2 = bytes[i + 2];
            assert(b1 == suffix[1] && b2 == suffix[2]);
            if !(0x80 <= b1 && b1 < 0xC0) || !(0x80 <= b2 && b2 < 0xC0) {
                assert(!valid_first_scalar(suffix));
                return false;
            }
            let codepoint: u32 = ((((b0 & 0x0F) as u32) << 12) | (((b1 & 0x3F) as u32) << 6) | ((b2
                & 0x3F) as u32));
            proof {
                assert(codepoint == codepoint_width_3(b0, b1, b2));
                assert(((((b0 & 0x0F) as u32) << 12) | (((b1 & 0x3F) as u32) << 6) | ((b2
                    & 0x3F) as u32)) < 0x10000) by (bit_vector);
            }
            if codepoint < 0x800 || (0xD800 <= codepoint && codepoint <= 0xDFFF) {
                // Overlong three-byte encoding, or a surrogate.
                assert(!valid_first_scalar(suffix));
                return false;
            }
            proof {
                assert(valid_first_scalar(suffix) && length_of_first_scalar(suffix) == 3);
                assert(pop_first_scalar(suffix) =~= bytes@.skip(i + 3));
            }
            i = i + 3;
        } else if b0 < 0xF8 {
            if n - i < 4 {
                assert(!valid_first_scalar(suffix));
                return false;
            }
            let b1 = bytes[i + 1];
            let b2 = bytes[i + 2];
            let b3 = bytes[i + 3];
            assert(b1 == suffix[1] && b2 == suffix[2] && b3 == suffix[3]);
            if !(0x80 <= b1 && b1 < 0xC0) || !(0x80 <= b2 && b2 < 0xC0) || !(0x80 <= b3 && b3
                < 0xC0) {
                assert(!valid_first_scalar(suffix));
                return false;
            }
            let codepoint: u32 = ((((b0 & 0x07) as u32) << 18) | (((b1 & 0x3F) as u32) << 12) | (((
            b2 & 0x3F) as u32) << 6) | ((b3 & 0x3F) as u32));
            proof {
                assert(codepoint == codepoint_width_4(b0, b1, b2, b3));
            }
            if codepoint < 0x10000 || codepoint > 0x10FFFF {
                // Overlong four-byte encoding, or beyond the last scalar.
                assert(!valid_first_scalar(suffix));
                return false;
            }
            proof {
                assert(valid_first_scalar(suffix) && length_of_first_scalar(suffix) == 4);
                assert(pop_first_scalar(suffix) =~= bytes@.skip(i + 4));
            }
            i = i + 4;
        } else {
            // 0xF8-0xFF leads no UTF-8 encoding.
            assert(!valid_first_scalar(suffix));
            return false;
        }
    }
    proof {
        assert(bytes@.skip(n as int) =~= Seq::<u8>::empty());
    }
    true
}

} // verus!
