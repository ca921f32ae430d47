//! Integers as text: parsing in a radix with the target type's bounds, and
//! decimal notation.

use vstd::prelude::*;
use crate::text::{chars_of, string_of};

verus! {

/// Why a text is not an integer of the wanted type.
#[derive(Clone, Copy, Debug, PartialEq, Eq, Structural)]
pub enum ParseIntError {
    /// The text is empty.
    Empty,
    /// A character is no digit of the radix; a lone sign counts as one.
    InvalidDigit,
    /// The number is above the largest value of the type.
    PosOverflow,
    /// The number is below the smallest value of the type.
    NegOverflow,
}

impl ParseIntError {
    /// The message that goes with each kind of failure.
    pub open spec fn description_spec(self) -> Seq<char> {
        match self {
            ParseIntError::Empty => "cannot parse integer from empty string"@,
            ParseIntError::InvalidDigit => "invalid digit found in string"@,
            ParseIntError::PosOverflow => "number too large to fit in target type"@,
            ParseIntError::NegOverflow => "number too small to fit in target type"@,
        }
    }

    /// A short description of the failure.
    pub fn description(&self) -> (r: &'static str)
        ensures
            r@ == self.description_spec(),
    {
        match self {
            ParseIntError::Empty => "cannot parse integer from empty string",
            ParseIntError::InvalidDigit => "invalid digit found in string",
            ParseIntError::PosOverflow => "number too large to fit in target type",
            ParseIntError::NegOverflow => "number too small to fit in target type",
        }
    }
}

/// The value of `c` as a digit of `radix` (at most 36), letters in either case.
pub open spec fn digit_value(c: char, radix: int) -> Option<int> {
    let d = if '0' <= c <= '9' {
        c as int - '0' as int
    } else if 'a' <= c <= 'z' {
        c as int - 'a' as int + 10
    } else if 'A' <= c <= 'Z' {
        c as int - 'A' as int + 10
    } else {
        36
    };
    if d < radix {
        Some(d)
    } else {
        None
    }
}

/// Reads the digits `s[i..]` from left to right onto `acc`, subtracting them
/// when `negative`, and stops at the first character that is no digit or at
/// the first step that leaves `lo ..= hi`.
pub open spec fn fold_digits(
    s: Seq<char>,
    i: int,
    acc: int,
    radix: int,
    negative: bool,
    lo: int,
    hi: int,
) -> Result<int, ParseIntError>
    decreases s.len() - i,
{
    if i < 0 || i >= s.len() {
        Ok(acc)
    } else {
        match digit_value(s[i], radix) {
            None => Err(ParseIntError::InvalidDigit),
            Some(d) => {
                let next = if negative {
                    acc * radix - d
                } else {
                    acc * radix + d
                };
                if next > hi {
                    Err(ParseIntError::PosOverflow)
                } else if next < lo {
                    Err(ParseIntError::NegOverflow)
                } else {
                    fold_digits(s, i + 1, next, radix, negative, lo, hi)
                }
            },
        }
    }
}

/// What `s` denotes as an integer in `radix` within `lo ..= hi`: an optional
/// `+`, or `-` where the type has negative values, then one digit or more.
pub open spec fn parse_int_spec(s: Seq<char>, radix: int, lo: int, hi: int) -> Result<
    int,
    ParseIntError,
> {
    if s.len() == 0 {
        Err(ParseIntError::Empty)
    } else if s.len() == 1 && (s[0] == '+' || s[0] == '-') {
        Err(ParseIntError::InvalidDigit)
    } else if s[0] == '+' {
        fold_digits(s, 1, 0, radix, false, lo, hi)
    } else if s[0] == '-' && lo < 0 {
        fold_digits(s, 1, 0, radix, true, lo, hi)
    } else {
        fold_digits(s, 0, 0, radix, false, lo, hi)
    }
}

/// The digit that `c` stands for in `radix`, if any.
pub fn digit_of(c: char, radix: u32) -> (r: Option<u32>)
    requires
        2 <= radix <= 36,
    ensures
        match r {
            Some(d) => digit_value(c, radix as int) == Some(d as int) && d < radix,
            None => digit_value(c, radix as int) is None,
        },
{
    let d: u32 = if '0' <= c && c <= '9' {
        c as u32 - '0' as u32
    } else if 'a' <= c && c <= 'z' {
        c as u32 - 'a' as u32 + 10
    } else if 'A' <= c && c <= 'Z' {
        c as u32 - 'A' as u32 + 10
    } else {
        36
    };
    if d < radix {
        Some(d)
    } else {
        None
    }
}

/// Parses `chars` as an integer in `radix` that lies within `lo ..= hi`.
pub fn parse_chars(chars: &Vec<char>, radix: u32, lo: i64, hi: i64) -> (r: Result<
    i64,
    ParseIntError,
>)
    requires
        2 <= radix <= 36,
        lo <= 0 <= hi,
    ensures
        match r {
            Ok(v) => lo <= v <= hi && parse_int_spec(chars@, radix as int, lo as int, hi as int)
                == Ok::<int, ParseIntError>(v as int),
            Err(e) => parse_int_spec(chars@, radix as int, lo as int, hi as int) == Err::<
                int,
                ParseIntError,
            >(e),
        },
{
    let n = chars.len();
    if n == 0 {
        return Err(ParseIntError::Empty);
    }
    let first = chars[0];
    if n == 1 && (first == '+' || first == '-') {
        return Err(ParseIntError::InvalidDigit);
    }
    let negative = first == '-' && lo < 0;
    let mut i: usize = if first == '+' || negative {
        1
    } else {
        0
    };
    let mut acc: i64 = 0;
    while i < n
        invariant
            i <= n,
            n == chars.len(),
            2 <= radix <= 36,
            lo <= acc <= hi,
            lo <= 0 <= hi,
            parse_int_spec(chars@, radix as int, lo as int, hi as int) == fold_digits(
                chars@,
                i as int,
                acc as int,
                radix as int,
                negative,
                lo as int,
                hi as int,
            ),
        decreases n - i,
    {
        match digit_of(chars[i], radix) {
            None => {
                return Err(ParseIntError::InvalidDigit);
            },
            Some(d) => {
                assert(-0x8000_0000_0000_0000 * 36 <= acc * radix <= 0x7fff_ffff_ffff_ffff * 36)
                    by (nonlinear_arith)
                    requires
                        -0x8000_0000_0000_0000 <= acc <= 0x7fff_ffff_ffff_ffff,
                        2 <= radix <= 36,
                ;
                let scaled: i128 = (acc as i128) * (radix as i128);
                let next: i128 = if negative {
                    scaled - (d as i128)
                } else {
                    scaled + (d as i128)
                };
                if next > hi as i128 {
                    return Err(ParseIntError::PosOverflow);
                } else if next < lo as i128 {
                    return Err(ParseIntError::NegOverflow);
                }
                acc = next as i64;
                i += 1;
            },
        }
    }
    Ok(acc)
}

/// Parses `s` as an integer in `radix` that lies within `lo ..= hi`.
pub fn parse_int(s: &str, radix: u32, lo: i64, hi: i64) -> (r: Result<i64, ParseIntError>)
    requires
        2 <= radix <= 36,
        lo <= 0 <= hi,
    ensures
        match r {
            Ok(v) => lo <= v <= hi && parse_int_spec(s@, radix as int, lo as int, hi as int)
                == Ok::<int, ParseIntError>(v as int),
            Err(e) => parse_int_spec(s@, radix as int, lo as int, hi as int) == Err::<
                int,
                ParseIntError,
            >(e),
        },
{
    let chars = chars_of(s);
    parse_chars(&chars, radix, lo, hi)
}

/// The character for a digit below ten.
pub open spec fn digit_char(d: int) -> char {
    if d == 0 {
        '0'
    } else if d == 1 {
        '1'
    } else if d == 2 {
        '2'
    } else if d == 3 {
        '3'
    } else if d == 4 {
        '4'
    } else if d == 5 {
        '5'
    } else if d == 6 {
        '6'
    } else if d == 7 {
        '7'
    } else if d == 8 {
        '8'
    } else {
        '9'
    }
}

/// The decimal digits of `n`, most significant first, without leading zeros.
pub open spec fn digits_of(n: nat) -> Seq<char>
    decreases n,
{
    if n < 10 {
        seq![digit_char(n as int)]
    } else {
        digits_of(n / 10).push(digit_char((n % 10) as int))
    }
}

/// Decimal notation of an integer: a minus sign for negative numbers, then
/// the digits.
pub open spec fn decimal_of(v: int) -> Seq<char> {
    if v < 0 {
        seq!['-'] + digits_of((-v) as nat)
    } else {
        digits_of(v as nat)
    }
}

fn digit_to_char(d: u64) -> (c: char)
    requires
        d < 10,
    ensures
        c == digit_char(d as int),
{
    if d == 0 {
        '0'
    } else if d == 1 {
        '1'
    } else if d == 2 {
        '2'
    } else if d == 3 {
        '3'
    } else if d == 4 {
        '4'
    } else if d == 5 {
        '5'
    } else if d == 6 {
        '6'
    } else if d == 7 {
        '7'
    } else if d == 8 {
        '8'
    } else {
        '9'
    }
}

/// The digits still to be written in front of those already produced.
pub open spec fn pending_digits(n: nat) -> Seq<char> {
    if n == 0 {
        Seq::<char>::empty()
    } else {
        digits_of(n)
    }
}

/// Decimal notation of `v`.
pub fn decimal_text(v: i64) -> (r: String)
    ensures
        r@ == decimal_of(v as int),
{
    let magnitude: u64 = if v < 0 {
        (-(v as i128)) as u64
    } else {
        v as u64
    };
    let mut out: Vec<char> = Vec::new();
    out.push(digit_to_char(magnitude % 10));
    let mut rest: u64 = magnitude / 10;
    assert(digits_of(magnitude as nat) =~= pending_digits(rest as nat) + out@);
    while rest > 0
        invariant
            digits_of(magnitude as nat) =~= pending_digits(rest as nat) + out@,
        decreases rest,
    {
        let c = digit_to_char(rest % 10);
        out.insert(0, c);
        proof {
            let prev = rest as nat;
            assert(digits_of(prev) =~= pending_digits(prev / 10) + seq![c]);
        }
        rest = rest / 10;
    }
    if v < 0 {
        out.insert(0, '-');
    }
    assert(out@ =~= decimal_of(v as int));
    let n = out.len();
    string_of(&out, 0, n)
}

/// Where the run of decimal digits that starts at `i` ends.
pub open spec fn digits_end(s: Seq<char>, i: int) -> int
    decreases s.len() - i,
{
    if 0 <= i < s.len() && '0' <= s[i] <= '9' {
        digits_end(s, i + 1)
    } else {
        i
    }
}

/// A plus or a minus sign.
pub open spec fn is_sign(c: char) -> bool {
    c == '+' || c == '-'
}

/// `c` with a capital letter of the Latin alphabet made small.
pub open spec fn lower_ascii(c: char) -> char {
    if 'A' <= c <= 'Z' {
        ((c as u8) + 32) as char
    } else {
        c
    }
}

/// Whether `s[start..]` is `word`, letters in either case; `word` is written
/// in small letters.
pub open spec fn is_word_at(s: Seq<char>, start: int, word: Seq<char>) -> bool {
    &&& s.len() - start == word.len()
    &&& forall|k: int| 0 <= k < word.len() ==> lower_ascii(#[trigger] s[start + k]) == word[k]
}

/// Whether `s[start..]` names infinity or a value that is no number.
pub open spec fn is_special_number(s: Seq<char>, start: int) -> bool {
    ||| is_word_at(s, start, seq!['i', 'n', 'f'])
    ||| is_word_at(s, start, seq!['i', 'n', 'f', 'i', 'n', 'i', 't', 'y'])
    ||| is_word_at(s, start, seq!['n', 'a', 'n'])
}

/// Whether `s[start..]` is digits with at most one point among them, at least
/// one digit in all, and then, if anything, an exponent: `e` in either case, an
/// optional sign and one digit or more.
pub open spec fn is_plain_number(s: Seq<char>, start: int) -> bool {
    let a = digits_end(s, start);
    let point = a < s.len() && s[a] == '.';
    let b = if point {
        digits_end(s, a + 1)
    } else {
        a
    };
    let digits = if point {
        (a - start) + (b - (a + 1))
    } else {
        a - start
    };
    &&& digits > 0
    &&& b == s.len() || ((s[b] == 'e' || s[b] == 'E') && {
        let c = if b + 1 < s.len() && is_sign(s[b + 1]) {
            b + 2
        } else {
            b + 1
        };
        c < s.len() && digits_end(s, c) == s.len()
    })
}

/// Whether `s` writes a number in decimal notation: an optional sign, then
/// either `inf`, `infinity` or `nan` in any case, or digits with an optional
/// point and an optional exponent.
pub open spec fn number_text(s: Seq<char>) -> bool {
    let start: int = if s.len() > 0 && is_sign(s[0]) {
        1
    } else {
        0
    };
    start < s.len() && (is_special_number(s, start) || is_plain_number(s, start))
}

fn to_lower_ascii(c: char) -> (r: char)
    ensures
        r == lower_ascii(c),
{
    if 'A' <= c && c <= 'Z' {
        ((c as u8) + 32) as char
    } else {
        c
    }
}

fn word_at(chars: &Vec<char>, start: usize, word: &Vec<char>) -> (r: bool)
    requires
        start <= chars.len(),
    ensures
        r == is_word_at(chars@, start as int, word@),
{
    if chars.len() - start != word.len() {
        return false;
    }
    let mut k: usize = 0;
    while k < word.len()
        invariant
            k <= word.len(),
            start <= chars.len(),
            chars.len() - start == word.len(),
            forall|m: int| 0 <= m < k ==> lower_ascii(#[trigger] chars@[start + m]) == word@[m],
        decreases word.len() - k,
    {
        if to_lower_ascii(chars[start + k]) != word[k] {
            return false;
        }
        k += 1;
    }
    true
}

fn scan_digits(chars: &Vec<char>, from: usize) -> (r: usize)
    requires
        from <= chars.len(),
    ensures
        r == digits_end(chars@, from as int),
        from <= r <= chars.len(),
{
    let mut j: usize = from;
    while j < chars.len() && '0' <= chars[j] && chars[j] <= '9'
        invariant
            from <= j <= chars.len(),
            digits_end(chars@, from as int) == digits_end(chars@, j as int),
        decreases chars.len() - j,
    {
        j += 1;
    }
    j
}

/// Whether `s` writes a number in decimal notation.
pub fn is_number(s: &str) -> (r: bool)
    ensures
        r == number_text(s@),
{
    let chars = chars_of(s);
    let n = chars.len();
    let start: usize = if n > 0 && (chars[0] == '+' || chars[0] == '-') {
        1
    } else {
        0
    };
    if start >= n {
        return false;
    }
    let inf: Vec<char> = vec!['i', 'n', 'f'];
    let infinity: Vec<char> = vec!['i', 'n', 'f', 'i', 'n', 'i', 't', 'y'];
    let nan: Vec<char> = vec!['n', 'a', 'n'];
    assert(inf@ =~= seq!['i', 'n', 'f']);
    assert(infinity@ =~= seq!['i', 'n', 'f', 'i', 'n', 'i', 't', 'y']);
    assert(nan@ =~= seq!['n', 'a', 'n']);
    if word_at(&chars, start, &inf) || word_at(&chars, start, &infinity) || word_at(
        &chars,
        start,
        &nan,
    ) {
        return true;
    }
    let a = scan_digits(&chars, start);
    let point = a < n && chars[a] == '.';
    let b: usize = if point {
        scan_digits(&chars, a + 1)
    } else {
        a
    };
    let digits: usize = if point {
        (a - start) + (b - (a + 1))
    } else {
        a - start
    };
    if digits == 0 {
        return false;
    }
    if b == n {
        return true;
    }
    if chars[b] != 'e' && chars[b] != 'E' {
        return false;
    }
    let c: usize = if b + 1 < n && (chars[b + 1] == '+' || chars[b + 1] == '-') {
        b + 2
    } else {
        b + 1
    };
    if c >= n {
        return false;
    }
    scan_digits(&chars, c) == n
}


/// What `s` denotes as a decimal number of 8 bits without sign.
pub open spec fn decimal_u8(s: Seq<char>) -> Result<int, ParseIntError> {
    parse_int_spec(s, 10, 0, u8::MAX as int)
}

/// What `s` denotes as a decimal number of 16 bits without sign.
pub open spec fn decimal_u16(s: Seq<char>) -> Result<int, ParseIntError> {
    parse_int_spec(s, 10, 0, u16::MAX as int)
}

/// What `s` denotes as a decimal number of 32 bits without sign.
pub open spec fn decimal_u32(s: Seq<char>) -> Result<int, ParseIntError> {
    parse_int_spec(s, 10, 0, u32::MAX as int)
}

/// What `s` denotes as a decimal number of 32 bits with sign.
pub open spec fn decimal_i32(s: Seq<char>) -> Result<int, ParseIntError> {
    parse_int_spec(s, 10, i32::MIN as int, i32::MAX as int)
}

/// Parses a decimal number of 8 bits without sign.
pub fn parse_u8(s: &str) -> (r: Result<u8, ParseIntError>)
    ensures
        match r {
            Ok(v) => decimal_u8(s@) == Ok::<int, ParseIntError>(v as int),
            Err(e) => decimal_u8(s@) == Err::<int, ParseIntError>(e),
        },
{
    match parse_int(s, 10, 0, 0xff) {
        Ok(v) => Ok(v as u8),
        Err(e) => Err(e),
    }
}

/// Parses a decimal number of 16 bits without sign.
pub fn parse_u16(s: &str) -> (r: Result<u16, ParseIntError>)
    ensures
        match r {
            Ok(v) => decimal_u16(s@) == Ok::<int, ParseIntError>(v as int),
            Err(e) => decimal_u16(s@) == Err::<int, ParseIntError>(e),
        },
{
    match parse_int(s, 10, 0, 0xffff) {
        Ok(v) => Ok(v as u16),
        Err(e) => Err(e),
    }
}

/// Parses a decimal number of 32 bits without sign.
pub fn parse_u32(s: &str) -> (r: Result<u32, ParseIntError>)
    ensures
        match r {
            Ok(v) => decimal_u32(s@) == Ok::<int, ParseIntError>(v as int),
            Err(e) => decimal_u32(s@) == Err::<int, ParseIntError>(e),
        },
{
    match parse_int(s, 10, 0, 0xffff_ffff) {
        Ok(v) => Ok(v as u32),
        Err(e) => Err(e),
    }
}

/// Parses a decimal number of 32 bits with sign.
pub fn parse_i32(s: &str) -> (r: Result<i32, ParseIntError>)
    ensures
        match r {
            Ok(v) => decimal_i32(s@) == Ok::<int, ParseIntError>(v as int),
            Err(e) => decimal_i32(s@) == Err::<int, ParseIntError>(e),
        },
{
    match parse_int(s, 10, -0x8000_0000, 0x7fff_ffff) {
        Ok(v) => Ok(v as i32),
        Err(e) => Err(e),
    }
}

/// The number that a sequence of decimal digits denotes.
pub open spec fn digits_value(s: Seq<char>) -> int
    decreases s.len(),
{
    if s.len() == 0 {
        0
    } else {
        digits_value(s.drop_last()) * 10 + (s.last() as int - '0' as int)
    }
}

} // verus!
