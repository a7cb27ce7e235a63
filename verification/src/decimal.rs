use vstd::prelude::*;

use crate::text::chars_of;

verus! {

pub open spec fn is_ascii_digit(c: char) -> bool {
    '0' <= c && c <= '9'
}

pub open spec fn digit_value(c: char) -> int {
    (c as int) - ('0' as int)
}

pub open spec fn all_digits(s: Seq<char>) -> bool {
    forall|i: int| 0 <= i < s.len() ==> is_ascii_digit(#[trigger] s[i])
}

/// The number a sequence of decimal digits denotes.
pub open spec fn digits_value(s: Seq<char>) -> int
    decreases s.len(),
{
    if s.len() == 0 {
        0
    } else {
        digits_value(s.drop_last()) * 10 + digit_value(s.last())
    }
}

/// The integer a decimal literal denotes, in the form integer parsing accepts: an
/// optional `+` or `-` followed by one or more ASCII digits, nothing else.
pub open spec fn literal_value(s: Seq<char>) -> Option<int> {
    if s.len() == 0 {
        None
    } else if s[0] == '+' || s[0] == '-' {
        let d = s.skip(1);
        if d.len() > 0 && all_digits(d) {
            Some(if s[0] == '-' { -digits_value(d) } else { digits_value(d) })
        } else {
            None
        }
    } else if all_digits(s) {
        Some(digits_value(s))
    } else {
        None
    }
}

/// What parsing `s` as an `i128` gives: the literal's value when it is a literal whose
/// value fits.
pub open spec fn parse_i128_spec(s: Seq<char>) -> Option<i128> {
    match literal_value(s) {
        Some(v) => if i128::MIN <= v <= i128::MAX { Some(v as i128) } else { None },
        None => None,
    }
}

/// What parsing `s` as an `i32` gives.
pub open spec fn parse_i32_spec(s: Seq<char>) -> Option<i32> {
    match literal_value(s) {
        Some(v) => if i32::MIN <= v <= i32::MAX { Some(v as i32) } else { None },
        None => None,
    }
}

/// Parsing `s` as an `i128`, with 0 standing for anything that does not parse.
pub open spec fn i128_or_zero(s: Seq<char>) -> int {
    match parse_i128_spec(s) {
        Some(v) => v as int,
        None => 0,
    }
}

pub open spec fn digit_char(d: int) -> char {
    if d == 0 {
        '0'
    } else if d == 1 {
        '1'
    } else if d == 2 {
        '2'
    } else if d == 3 {
        '3'
    } else if d == 4 {
        '4'
    } else if d == 5 {
        '5'
    } else if d == 6 {
        '6'
    } else if d == 7 {
        '7'
    } else if d == 8 {
        '8'
    } else {
        '9'
    }
}

/// The decimal digits of a natural number, most significant first, without leading zeros.
pub open spec fn decimal_digits(n: nat) -> Seq<char>
    decreases n,
{
    if n < 10 {
        seq![digit_char(n as int)]
    } else {
        decimal_digits(n / 10).push(digit_char((n % 10) as int))
    }
}

/// The decimal text of an integer: its digits, preceded by `-` when it is negative.
pub open spec fn int_text(v: int) -> Seq<char> {
    if v < 0 {
        seq!['-'] + decimal_digits((-v) as nat)
    } else {
        decimal_digits(v as nat)
    }
}

proof fn lemma_digits_value_prefix_grows(s: Seq<char>, k: int)
    requires
        all_digits(s),
        0 <= k <= s.len(),
    ensures
        digits_value(s.take(k)) <= digits_value(s),
        0 <= digits_value(s.take(k)),
    decreases s.len() - k,
{
    if k < s.len() {
        lemma_digits_value_prefix_grows(s, k + 1);
        assert(s.take(k + 1).drop_last() =~= s.take(k));
        lemma_digits_value_nonneg(s.take(k));
    } else {
        assert(s.take(k) =~= s);
        lemma_digits_value_nonneg(s);
    }
}

proof fn lemma_digits_value_nonneg(s: Seq<char>)
    requires
        all_digits(s),
    ensures
        0 <= digits_value(s),
    decreases s.len(),
{
    if s.len() > 0 {
        lemma_digits_value_nonneg(s.drop_last());
    }
}

fn ascii_digit(c: char) -> (r: Option<u8>)
    ensures
        r matches Some(d) ==> is_ascii_digit(c) && d as int == digit_value(c),
        r is None ==> !is_ascii_digit(c),
{
    let code = c as u32;
    if 48 <= code && code <= 57 {
        Some((code - 48) as u8)
    } else {
        None
    }
}

/// The value of the digits `s[start..]`, unless it exceeds `u128::MAX` or some
/// character there is not a digit.
fn digits_magnitude(s: &Vec<char>, start: usize) -> (r: Option<u128>)
    requires
        start <= s@.len(),
    ensures
        all_digits(s@.skip(start as int)) && digits_value(s@.skip(start as int)) <= u128::MAX
            <==> r is Some,
        r matches Some(m) ==> m == digits_value(s@.skip(start as int)),
{
    let ghost d = s@.skip(start as int);
    let mut mag: u128 = 0;
    let mut i: usize = start;
    while i < s.len()
        invariant
            start <= i <= s@.len(),
            d == s@.skip(start as int),
            all_digits(d.take(i - start)),
            mag == digits_value(d.take(i - start)),
        decreases s@.len() - i,
    {
        let k = i - start;
        assert(d.take(k + 1).drop_last() =~= d.take(k as int));
        assert(d.take(k + 1).last() == s@[i as int]);
        match ascii_digit(s[i]) {
            None => {
                assert(!is_ascii_digit(d[k as int]));
                return None;
            },
            Some(dv) => {
                assert(all_digits(d.take(k + 1)));
                let step = match mag.checked_mul(10) {
                    Some(m) => m.checked_add(dv as u128),
                    None => None,
                };
                match step {
                    Some(m) => {
                        mag = m;
                    },
                    None => {
                        proof {
                            if all_digits(d) {
                                lemma_digits_value_prefix_grows(d, k + 1);
                            }
                        }
                        return None;
                    },
                }
            },
        }
        i = i + 1;
    }
    assert(d.take(i - start) =~= d);
    Some(mag)
}

/// Parse a decimal literal (optional sign, then digits) as an `i128`.
pub fn parse_i128(s: &str) -> (r: Option<i128>)
    ensures
        r == parse_i128_spec(s@),
{
    let v = chars_of(s);
    if v.len() == 0 {
        return None;
    }
    let first = v[0];
    let (negative, start): (bool, usize) = if first == '-' {
        (true, 1)
    } else if first == '+' {
        (false, 1)
    } else {
        (false, 0)
    };
    if start == 1 && v.len() == 1 {
        return None;
    }
    proof {
        if start == 0 {
            assert(v@.skip(0) =~= v@);
        }
    }
    match digits_magnitude(&v, start) {
        None => {
            proof {
                if all_digits(v@.skip(start as int)) {
                    lemma_digits_value_nonneg(v@.skip(start as int));
                }
            }
            None
        },
        Some(mag) => {
            if negative {
                if mag <= 0x8000_0000_0000_0000_0000_0000_0000_0000u128 {
                    if mag == 0x8000_0000_0000_0000_0000_0000_0000_0000u128 {
                        Some(i128::MIN)
                    } else {
                        Some(-(mag as i128))
                    }
                } else {
                    None
                }
            } else if mag <= 0x7fff_ffff_ffff_ffff_ffff_ffff_ffff_ffffu128 {
                Some(mag as i128)
            } else {
                None
            }
        },
    }
}

/// Parse a decimal literal (optional sign, then digits) as an `i32`.
pub fn parse_i32(s: &str) -> (r: Option<i32>)
    ensures
        r == parse_i32_spec(s@),
{
    match parse_i128(s) {
        Some(v) => {
            if i32::MIN as i128 <= v && v <= i32::MAX as i128 {
                Some(v as i32)
            } else {
                None
            }
        },
        None => None,
    }
}

fn digit_str(d: u128) -> (r: &'static str)
    requires
        d < 10,
    ensures
        r@ == seq![digit_char(d as int)],
{
    if d == 0 {
        proof { reveal_strlit("0"); }
        "0"
    } else if d == 1 {
        proof { reveal_strlit("1"); }
        "1"
    } else if d == 2 {
        proof { reveal_strlit("2"); }
        "2"
    } else if d == 3 {
        proof { reveal_strlit("3"); }
        "3"
    } else if d == 4 {
        proof { reveal_strlit("4"); }
        "4"
    } else if d == 5 {
        proof { reveal_strlit("5"); }
        "5"
    } else if d == 6 {
        proof { reveal_strlit("6"); }
        "6"
    } else if d == 7 {
        proof { reveal_strlit("7"); }
        "7"
    } else if d == 8 {
        proof { reveal_strlit("8"); }
        "8"
    } else {
        proof { reveal_strlit("9"); }
        "9"
    }
}

/// Append the decimal digits of `n` to `out`.
pub fn append_decimal(out: &mut String, n: u128)
    ensures
        final(out)@ == old(out)@ + decimal_digits(n as nat),
    decreases n,
{
    if n >= 10 {
        append_decimal(out, n / 10);
    }
    out.append(digit_str(n % 10));
    proof {
        if n >= 10 {
            assert(decimal_digits(n as nat) == decimal_digits((n / 10) as nat).push(digit_char((n % 10) as int)));
        }
        assert(final(out)@ =~= old(out)@ + decimal_digits(n as nat));
    }
}

/// The decimal text of an unsigned integer.
pub fn u128_to_string(n: u128) -> (r: String)
    ensures
        r@ == decimal_digits(n as nat),
{
    let mut out = String::new();
    append_decimal(&mut out, n);
    proof {
        assert(out@ =~= decimal_digits(n as nat));
    }
    out
}

/// The decimal text of a signed integer.
pub fn i128_to_string(v: i128) -> (r: String)
    ensures
        r@ == int_text(v as int),
{
    let mut out = String::new();
    if v < 0 {
        proof { reveal_strlit("-"); }
        out.append("-");
        let magnitude: u128 = ((-(v + 1)) as u128) + 1;
        append_decimal(&mut out, magnitude);
    } else {
        append_decimal(&mut out, v as u128);
    }
    proof {
        assert(out@ =~= int_text(v as int));
    }
    out
}

} // verus!
