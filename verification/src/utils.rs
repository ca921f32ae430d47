//! Small conversions shared by the collectors.

use vstd::prelude::*;
use vstd::string::StringSliceAdditionalSpecFns;
use vstd::utf8::{
    decode_utf8, encode_utf8, encode_utf8_decode_utf8, encode_utf8_valid_utf8, is_ascii_chars,
    is_ascii_chars_encode_utf8, is_char_boundary, is_char_boundary_iff_not_is_continuation_byte,
    is_continuation_byte,
};
use crate::number::{digit_value, fold_digits, parse_int, parse_int_spec, ParseIntError};

verus! {

/// What follows the first 24 bytes of the UTF-8 form of `s`.
pub open spec fn uuid_suffix(s: Seq<char>) -> Seq<char> {
    let bytes = encode_utf8(s);
    decode_utf8(bytes.subrange(24, bytes.len() as int))
}

/// Whether the 24th byte of the UTF-8 form of `s` starts a character, or is
/// the end of the text.
pub open spec fn splits_at_24(s: Seq<char>) -> bool {
    is_char_boundary(encode_utf8(s), 24)
}

/// The node part of a UUID read as a hexadecimal number of 64 bits with sign.
pub open spec fn uuid_to_decimal_spec(s: Seq<char>) -> Result<int, ParseIntError> {
    parse_int_spec(uuid_suffix(s), 16, i64::MIN as int, i64::MAX as int)
}

/// Reads what follows the first 24 bytes of `uuid` as a hexadecimal number.
///
/// For a UUID in its usual notation that is the node part, its last twelve
/// digits. The 24th byte has to start a character.
pub fn uuid_to_decimal<'a>(uuid: &'a str) -> (r: Result<i64, ParseIntError>)
    requires
        splits_at_24(uuid@),
    ensures
        match r {
            Ok(v) => uuid_to_decimal_spec(uuid@) == Ok::<int, ParseIntError>(v as int),
            Err(e) => uuid_to_decimal_spec(uuid@) == Err::<int, ParseIntError>(e),
        },
{
    let (_, suffix) = uuid.split_at(24);
    proof {
        encode_utf8_decode_utf8(suffix@);
        assert(suffix.spec_bytes() == encode_utf8(suffix@));
        assert(suffix@ == uuid_suffix(uuid@));
    }
    parse_int(suffix, 16, i64::MIN, i64::MAX)
}

/// Whether `c` is a hexadecimal digit.
pub open spec fn is_hex_digit(c: char) -> bool {
    digit_value(c, 16) is Some
}

/// A UUID in its usual notation: 36 characters, hexadecimal digits in groups of
/// 8, 4, 4, 4 and 12 with a hyphen between the groups.
pub open spec fn is_uuid(s: Seq<char>) -> bool {
    &&& s.len() == 36
    &&& forall|i: int|
        0 <= i < 36 ==> if i == 8 || i == 13 || i == 18 || i == 23 {
            s[i] == '-'
        } else {
            is_hex_digit(#[trigger] s[i])
        }
}

/// The number that a sequence of hexadecimal digits denotes, read as unsigned.
pub open spec fn hex_value(digits: Seq<char>) -> nat
    decreases digits.len(),
{
    if digits.len() == 0 {
        0
    } else {
        let last = match digit_value(digits.last(), 16) {
            Some(d) => d as nat,
            None => 0,
        };
        hex_value(digits.drop_last()) * 16 + last
    }
}

/// Sixteen to the power of `n`.
pub open spec fn pow16(n: nat) -> nat
    decreases n,
{
    if n == 0 {
        1
    } else {
        16 * pow16((n - 1) as nat)
    }
}

/// A number of `n` hexadecimal digits is below the `n`-th power of sixteen.
pub proof fn lemma_hex_value_bound(digits: Seq<char>)
    ensures
        hex_value(digits) < pow16(digits.len()),
    decreases digits.len(),
{
    if digits.len() > 0 {
        lemma_hex_value_bound(digits.drop_last());
    }
}

/// Powers of sixteen grow with the exponent.
pub proof fn lemma_pow16_monotonic(a: nat, b: nat)
    requires
        a <= b,
    ensures
        pow16(a) <= pow16(b),
    decreases b,
{
    if a < b {
        lemma_pow16_monotonic(a, (b - 1) as nat);
    }
}

/// Reading hexadecimal digits from the left, starting from the value of those
/// already read, ends with the value of all of them, as long as that value
/// stays within the bound.
proof fn lemma_fold_hex(s: Seq<char>, i: int, hi: int)
    requires
        0 <= i <= s.len(),
        forall|k: int| 0 <= k < s.len() ==> is_hex_digit(#[trigger] s[k]),
        pow16(s.len()) <= hi + 1,
    ensures
        fold_digits(s, i, hex_value(s.take(i)) as int, 16, false, -hi - 1, hi) == Ok::<
            int,
            ParseIntError,
        >(hex_value(s) as int),
    decreases s.len() - i,
{
    if i == s.len() {
        assert(s.take(i) =~= s);
    } else {
        let next = s.take(i + 1);
        assert(next.drop_last() =~= s.take(i));
        assert(next.last() == s[i]);
        lemma_hex_value_bound(next);
        lemma_pow16_monotonic(next.len(), s.len());
        lemma_fold_hex(s, i + 1, hi);
    }
}

/// Every UUID can be converted, and the conversion succeeds and gives its last
/// twelve characters read as an unsigned hexadecimal number.
pub proof fn lemma_uuid_to_decimal(s: Seq<char>)
    requires
        is_uuid(s),
    ensures
        splits_at_24(s),
        uuid_to_decimal_spec(s) == Ok::<int, ParseIntError>(hex_value(s.subrange(24, 36)) as int),
        hex_value(s.subrange(24, 36)) < 0x1_0000_0000_0000,
{
    let node = s.subrange(24, 36);
    assert(is_ascii_chars(s)) by {
        assert forall|i: int| 0 <= i < s.len() implies '\0' <= #[trigger] s[i] <= '\u{7f}' by {
            if !(i == 8 || i == 13 || i == 18 || i == 23) {
                assert(is_hex_digit(s[i]));
            }
        }
    }
    assert(is_ascii_chars(node)) by {
        assert forall|i: int| 0 <= i < node.len() implies '\0' <= #[trigger] node[i]
            <= '\u{7f}' by {
            assert(node[i] == s[i + 24]);
        }
    }
    is_ascii_chars_encode_utf8(s);
    is_ascii_chars_encode_utf8(node);
    let bytes = encode_utf8(s);
    assert(bytes.subrange(24, bytes.len() as int) =~= encode_utf8(node)) by {
        assert forall|i: int| 0 <= i < 12 implies bytes.subrange(24, 36)[i] == encode_utf8(
            node,
        )[i] by {
            assert(node[i] == s[i + 24]);
            assert(bytes[i + 24] == s[i + 24] as u8);
            assert(encode_utf8(node)[i] == node[i] as u8);
        }
    }
    assert(splits_at_24(s)) by {
        encode_utf8_valid_utf8(s);
        assert(is_hex_digit(s[24]));
        let b = bytes[24];
        assert(b == s[24] as u8);
        assert(b < 128);
        assert(!is_continuation_byte(b));
        is_char_boundary_iff_not_is_continuation_byte(bytes, 24);
    }
    encode_utf8_decode_utf8(node);
    assert(uuid_suffix(s) == node);
    assert forall|k: int| 0 <= k < node.len() implies is_hex_digit(#[trigger] node[k]) by {
        assert(node[k] == s[k + 24]);
        assert(is_hex_digit(s[k + 24]));
    }
    assert(pow16(12) == 0x1_0000_0000_0000) by {
        reveal_with_fuel(pow16, 13);
    }
    lemma_hex_value_bound(node);
    assert(node.take(0) =~= Seq::<char>::empty());
    lemma_fold_hex(node, 0, i64::MAX as int);
    assert(node[0] != '+' && node[0] != '-') by {
        assert(is_hex_digit(node[0]));
    }
}

} // verus!
