//! Text forms of the numbers the assets and the resolver use: hexadecimal
//! parsing for firmware ids and driver values, and decimal rendering for
//! version strings and name suffixes.

use vstd::prelude::*;
use vstd::string::*;

use crate::Error;

verus! {

/// The value of one hexadecimal digit, upper or lower case.
pub open spec fn spec_hex_digit(c: char) -> Option<u8> {
    if '0' <= c && c <= '9' {
        Some(((c as int) - 0x30) as u8)
    } else if 'a' <= c && c <= 'f' {
        Some(((c as int) - 0x61 + 10) as u8)
    } else if 'A' <= c && c <= 'F' {
        Some(((c as int) - 0x41 + 10) as u8)
    } else {
        None
    }
}

/// The value of a run of hexadecimal digits; the empty run reads as zero,
/// and any non-digit poisons the whole run.
pub open spec fn spec_hex_val(s: Seq<char>) -> Option<nat>
    decreases s.len(),
{
    if s.len() == 0 {
        Some(0)
    } else {
        match (spec_hex_val(s.drop_last()), spec_hex_digit(s.last())) {
            (Some(v), Some(d)) => Some((v * 16 + d) as nat),
            _ => None,
        }
    }
}

/// Assets write hexadecimal numbers both bare and with a `0x` prefix.
pub open spec fn spec_strip_hex_prefix(s: Seq<char>) -> Seq<char> {
    if s.len() >= 2 && s[0] == '0' && (s[1] == 'x' || s[1] == 'X') {
        s.skip(2)
    } else {
        s
    }
}

/// What a hexadecimal asset field denotes: at least one digit after an
/// optional prefix, and a value a `u32` can hold.
pub open spec fn spec_parse_hex_u32(s: Seq<char>) -> Option<u32> {
    let t = spec_strip_hex_prefix(s);
    if t.len() == 0 {
        None
    } else {
        match spec_hex_val(t) {
            Some(v) => if v <= u32::MAX { Some(v as u32) } else { None },
            None => None,
        }
    }
}

/// A prefix of a digit run is itself a valid run, with a value no larger.
pub proof fn lemma_hex_val_prefix_mono(s: Seq<char>, i: int)
    requires
        0 <= i <= s.len(),
        spec_hex_val(s) is Some,
    ensures
        spec_hex_val(s.take(i)) is Some,
        spec_hex_val(s.take(i)).unwrap() <= spec_hex_val(s).unwrap(),
    decreases s.len(),
{
    if i == s.len() {
        assert(s.take(i) =~= s);
    } else {
        assert(s.drop_last() =~= s.take(s.len() - 1));
        lemma_hex_val_prefix_mono(s.drop_last(), i);
        assert(s.drop_last().take(i) =~= s.take(i));
    }
}

/// A non-digit anywhere poisons every run that contains it.
pub proof fn lemma_hex_val_bad_digit(s: Seq<char>, i: int)
    requires
        0 <= i < s.len(),
        spec_hex_digit(s[i]) is None,
    ensures
        spec_hex_val(s) is None,
    decreases s.len(),
{
    if i == s.len() - 1 {
    } else {
        assert(s.drop_last()[i] == s[i]);
        lemma_hex_val_bad_digit(s.drop_last(), i);
    }
}

/// The value of one hexadecimal digit, upper or lower case.
pub fn hex_digit(c: char) -> (r: Option<u8>)
    ensures
        r == spec_hex_digit(c),
{
    if '0' <= c && c <= '9' {
        Some(c as u8 - 0x30)
    } else if 'a' <= c && c <= 'f' {
        Some(c as u8 - 0x61 + 10)
    } else if 'A' <= c && c <= 'F' {
        Some(c as u8 - 0x41 + 10)
    } else {
        None
    }
}

/// Reads a hexadecimal asset field such as a firmware id or a driver value.
/// Accepts an optional `0x`/`0X` prefix and digits of either case; rejects
/// empty fields, stray characters, and values too large for a `u32`.
pub fn parse_hex_u32(s: &str) -> (r: Result<u32, Error>)
    ensures
        r is Ok <==> spec_parse_hex_u32(s@) is Some,
        r matches Ok(v) ==> spec_parse_hex_u32(s@) == Some(v),
        r matches Err(e) ==> e == Error::AssetMalformed,
{
    let len = s.unicode_len();
    let mut start: usize = 0;
    if len >= 2 {
        let c0 = s.get_char(0);
        let c1 = s.get_char(1);
        if c0 == '0' && (c1 == 'x' || c1 == 'X') {
            start = 2;
        }
    }
    let ghost t = spec_strip_hex_prefix(s@);
    proof {
        assert(t =~= s@.skip(start as int));
    }
    if start >= len {
        proof {
            assert(t.len() == 0);
        }
        return Err(Error::AssetMalformed);
    }
    let mut i: usize = start;
    let mut v: u32 = 0;
    while i < len
        invariant
            start <= i <= len,
            len == s@.len(),
            start < len,
            t == spec_strip_hex_prefix(s@),
            t == s@.skip(start as int),
            spec_hex_val(t.take(i - start)) == Some(v as nat),
        decreases len - i,
    {
        let c = s.get_char(i);
        let ghost prefix = t.take(i - start);
        let ghost prefix1 = t.take(i + 1 - start);
        proof {
            assert(prefix1.drop_last() =~= prefix);
            assert(prefix1.last() == s@[i as int]);
        }
        match hex_digit(c) {
            None => {
                proof {
                    lemma_hex_val_bad_digit(t, i - start);
                }
                return Err(Error::AssetMalformed);
            },
            Some(d) => {
                if v > (u32::MAX - d as u32) / 16 {
                    proof {
                        assert(spec_hex_val(prefix1).unwrap() > u32::MAX);
                        if spec_hex_val(t) is Some {
                            lemma_hex_val_prefix_mono(t, i + 1 - start);
                        }
                    }
                    return Err(Error::AssetMalformed);
                }
                v = v * 16 + d as u32;
            },
        }
        i = i + 1;
    }
    proof {
        assert(t.take(i - start) =~= t);
    }
    Ok(v)
}

/// The character for one decimal digit.
pub open spec fn spec_dec_digit_char(d: int) -> char {
    if d == 0 { '0' }
    else if d == 1 { '1' }
    else if d == 2 { '2' }
    else if d == 3 { '3' }
    else if d == 4 { '4' }
    else if d == 5 { '5' }
    else if d == 6 { '6' }
    else if d == 7 { '7' }
    else if d == 8 { '8' }
    else { '9' }
}

/// The ordinary decimal rendering of a number, most significant digit first,
/// with no leading zeros.
pub open spec fn spec_dec_seq(n: nat) -> Seq<char>
    decreases n,
{
    if n < 10 {
        seq![spec_dec_digit_char(n as int)]
    } else {
        spec_dec_seq(n / 10).push(spec_dec_digit_char((n % 10) as int))
    }
}

/// A decimal rendering has at least one character, and more than one
/// exactly when the number has more than one digit.
pub proof fn lemma_dec_seq_len(n: nat)
    ensures
        spec_dec_seq(n).len() >= 1,
        n >= 10 ==> spec_dec_seq(n).len() >= 2,
    decreases n,
{
    if n >= 10 {
        lemma_dec_seq_len(n / 10);
    }
}

/// Distinct digits render as distinct characters.
pub proof fn lemma_dec_digit_char_injective(x: int, y: int)
    requires
        0 <= x < 10,
        0 <= y < 10,
        spec_dec_digit_char(x) == spec_dec_digit_char(y),
    ensures
        x == y,
{
}

/// Distinct numbers have distinct decimal renderings.
pub proof fn lemma_dec_seq_injective(a: nat, b: nat)
    requires
        spec_dec_seq(a) == spec_dec_seq(b),
    ensures
        a == b,
    decreases a,
{
    if a < 10 && b < 10 {
        assert(spec_dec_seq(a)[0] == spec_dec_digit_char(a as int));
        assert(spec_dec_seq(b)[0] == spec_dec_digit_char(b as int));
        lemma_dec_digit_char_injective(a as int, b as int);
    } else if a < 10 {
        lemma_dec_seq_len(b);
        assert(spec_dec_seq(b).len() >= 2);
    } else if b < 10 {
        lemma_dec_seq_len(a);
        assert(spec_dec_seq(a).len() >= 2);
    } else {
        let sa = spec_dec_seq(a / 10);
        let sb = spec_dec_seq(b / 10);
        assert(sa.push(spec_dec_digit_char((a % 10) as int)).drop_last() =~= sa);
        assert(sb.push(spec_dec_digit_char((b % 10) as int)).drop_last() =~= sb);
        assert(sa == sb);
        lemma_dec_seq_injective(a / 10, b / 10);
        assert(spec_dec_seq(a).last() == spec_dec_digit_char((a % 10) as int));
        assert(spec_dec_seq(b).last() == spec_dec_digit_char((b % 10) as int));
        lemma_dec_digit_char_injective((a % 10) as int, (b % 10) as int);
    }
}

/// The character for one decimal digit.
pub fn dec_digit_str(d: u32) -> (r: &'static str)
    requires
        d < 10,
    ensures
        r@ =~= seq![spec_dec_digit_char(d as int)],
{
    proof {
        reveal_strlit("0");
        reveal_strlit("1");
        reveal_strlit("2");
        reveal_strlit("3");
        reveal_strlit("4");
        reveal_strlit("5");
        reveal_strlit("6");
        reveal_strlit("7");
        reveal_strlit("8");
        reveal_strlit("9");
    }
    match d {
        0 => "0",
        1 => "1",
        2 => "2",
        3 => "3",
        4 => "4",
        5 => "5",
        6 => "6",
        7 => "7",
        8 => "8",
        _ => "9",
    }
}

/// The ordinary decimal rendering of a number.
pub fn u32_to_dec(n: u32) -> (r: String)
    ensures
        r@ == spec_dec_seq(n as nat),
    decreases n,
{
    if n < 10 {
        String::from_str(dec_digit_str(n))
    } else {
        let mut s = u32_to_dec(n / 10);
        s.append(dec_digit_str(n % 10));
        proof {
            assert(spec_dec_seq((n / 10) as nat) + seq![
                spec_dec_digit_char((n % 10) as int),
            ] =~= spec_dec_seq(n as nat));
        }
        s
    }
}

/// The character for one hexadecimal digit, upper case.
pub open spec fn spec_hex_digit_char(d: int) -> char {
    if d < 10 {
        spec_dec_digit_char(d)
    } else if d == 10 { 'A' }
    else if d == 11 { 'B' }
    else if d == 12 { 'C' }
    else if d == 13 { 'D' }
    else if d == 14 { 'E' }
    else { 'F' }
}

/// A number rendered as a fixed run of hexadecimal digits, most
/// significant first.
pub open spec fn spec_hex_seq(n: int, digits: nat) -> Seq<char>
    decreases digits,
{
    if digits == 0 {
        Seq::empty()
    } else {
        spec_hex_seq(n / 16, (digits - 1) as nat).push(spec_hex_digit_char(n % 16))
    }
}

/// The character for one hexadecimal digit, upper case.
pub fn hex_digit_str(d: u32) -> (r: &'static str)
    requires
        d < 16,
    ensures
        r@ =~= seq![spec_hex_digit_char(d as int)],
{
    if d < 10 {
        dec_digit_str(d)
    } else {
        proof {
            reveal_strlit("A");
            reveal_strlit("B");
            reveal_strlit("C");
            reveal_strlit("D");
            reveal_strlit("E");
            reveal_strlit("F");
        }
        match d {
            10 => "A",
            11 => "B",
            12 => "C",
            13 => "D",
            14 => "E",
            _ => "F",
        }
    }
}

/// A number rendered as a fixed run of hexadecimal digits, upper case,
/// most significant first.
pub fn u32_to_hex_digits(n: u32, digits: u32) -> (r: String)
    ensures
        r@ == spec_hex_seq(n as int, digits as nat),
    decreases digits,
{
    if digits == 0 {
        String::new()
    } else {
        let mut s = u32_to_hex_digits(n / 16, digits - 1);
        s.append(hex_digit_str(n % 16));
        proof {
            assert(spec_hex_seq(n as int / 16, (digits - 1) as nat) + seq![
                spec_hex_digit_char(n as int % 16),
            ] =~= spec_hex_seq(n as int, digits as nat));
        }
        s
    }
}

/// A `u32` rendered as its eight hexadecimal digits, upper case.
pub fn u32_to_hex8(n: u32) -> (r: String)
    ensures
        r@ == spec_hex_seq(n as int, 8),
{
    u32_to_hex_digits(n, 8)
}

} // verus!
