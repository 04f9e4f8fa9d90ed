use vstd::prelude::*;
use crate::text::{chars_of, push_char};

verus! {

// ---------------------------------------------------------------------------
// Decimal integers: the grammar of `FromStr` for Rust integers, and the
// text that `Display` gives an integer.
// ---------------------------------------------------------------------------

pub open spec fn is_digit(c: char) -> bool {
    '0' <= c <= '9'
}

pub open spec fn digit_val(c: char) -> int {
    (c as int) - ('0' as int)
}

pub open spec fn all_digits(s: Seq<char>) -> bool {
    forall|i: int| 0 <= i < s.len() ==> is_digit(#[trigger] s[i])
}

/// The value of a string of decimal digits.
pub open spec fn digits_value(s: Seq<char>) -> int
    decreases s.len(),
{
    if s.len() == 0 {
        0
    } else {
        10 * digits_value(s.drop_last()) + digit_val(s.last())
    }
}

/// Whether `s` starts with a sign that an integer type of range `min..=max` accepts.
pub open spec fn has_sign(s: Seq<char>, min: int) -> bool {
    s.len() > 0 && (s[0] == '+' || (s[0] == '-' && min < 0))
}

/// The digits of `s` after its sign, if it has one.
pub open spec fn unsigned_part(s: Seq<char>, min: int) -> Seq<char> {
    if has_sign(s, min) {
        s.drop_first()
    } else {
        s
    }
}

/// `str::parse` for an integer type whose values are `min..=max`: an optional
/// sign (`-` only for signed types), then one or more ASCII digits, with a
/// value inside the range.
pub open spec fn parse_int(s: Seq<char>, min: int, max: int) -> Option<int> {
    let body = unsigned_part(s, min);
    let mag = digits_value(body);
    let v = if has_sign(s, min) && s[0] == '-' {
        -mag
    } else {
        mag
    };
    if body.len() > 0 && all_digits(body) && min <= v <= max {
        Some(v)
    } else {
        None
    }
}

pub proof fn lemma_digits_value_nonneg(s: Seq<char>)
    requires
        all_digits(s),
    ensures
        digits_value(s) >= 0,
    decreases s.len(),
{
    if s.len() > 0 {
        assert(all_digits(s.drop_last())) by {
            assert forall|i: int| 0 <= i < s.drop_last().len() implies is_digit(
                #[trigger] s.drop_last()[i],
            ) by {
                assert(s.drop_last()[i] == s[i]);
            }
        }
        lemma_digits_value_nonneg(s.drop_last());
    }
}

/// Appending digits never lowers the value of a digit string.
pub proof fn lemma_digits_value_prefix(s: Seq<char>, i: int)
    requires
        all_digits(s),
        0 <= i <= s.len(),
    ensures
        digits_value(s.take(i)) <= digits_value(s),
    decreases s.len() - i,
{
    if i < s.len() {
        let t = s.take(i + 1);
        assert(t.drop_last() =~= s.take(i));
        assert(all_digits(s.take(i))) by {
            assert forall|k: int| 0 <= k < s.take(i).len() implies is_digit(
                #[trigger] s.take(i)[k],
            ) by {
                assert(s.take(i)[k] == s[k]);
            }
        }
        lemma_digits_value_nonneg(s.take(i));
        assert(is_digit(s[i]));
        assert(t.last() == s[i]);
        lemma_digits_value_prefix(s, i + 1);
    } else {
        assert(s.take(i) =~= s);
    }
}

/// Parses the digits `cs[start..]` as a magnitude; `None` when a character is
/// not a digit or the magnitude exceeds `2^64`.
fn parse_magnitude(cs: &[char], start: usize) -> (r: Option<u128>)
    requires
        start <= cs@.len(),
    ensures
        ({
            let body = cs@.subrange(start as int, cs@.len() as int);
            &&& r matches Some(m) ==> all_digits(body) && m == digits_value(body) && m
                <= 0x1_0000_0000_0000_0000
            &&& r is None ==> !all_digits(body) || digits_value(body) > 0x1_0000_0000_0000_0000
        }),
{
    let ghost body = cs@.subrange(start as int, cs@.len() as int);
    let mut i = start;
    let mut mag: u128 = 0;
    while i < cs.len()
        invariant
            start <= i <= cs@.len(),
            body == cs@.subrange(start as int, cs@.len() as int),
            all_digits(body.take(i - start)),
            mag == digits_value(body.take(i - start)),
            mag <= 0x1_0000_0000_0000_0000,
        decreases cs.len() - i,
    {
        let c = cs[i];
        if !('0' <= c && c <= '9') {
            assert(body[i - start] == c);
            return None;
        }
        let d = (c as u32 - '0' as u32) as u128;
        let ghost old_take = body.take(i - start);
        mag = mag * 10 + d;
        i = i + 1;
        proof {
            let t = body.take(i - start);
            assert(t.drop_last() =~= old_take);
            assert(t.last() == c);
            assert(all_digits(t)) by {
                assert forall|k: int| 0 <= k < t.len() implies is_digit(#[trigger] t[k]) by {
                    if k < t.len() - 1 {
                        assert(t[k] == old_take[k]);
                    }
                }
            }
        }
        if mag > 0x1_0000_0000_0000_0000 {
            proof {
                if all_digits(body) {
                    lemma_digits_value_prefix(body, i - start);
                }
            }
            return None;
        }
    }
    assert(body.take(i - start) =~= body);
    Some(mag)
}

/// `str::parse` over characters for an integer type of range `min..=max`.
pub fn parse_int_chars(cs: &[char], min: i128, max: i128) -> (r: Option<i128>)
    requires
        -0x8000_0000_0000_0000 <= min <= 0,
        0 <= max <= 0xFFFF_FFFF_FFFF_FFFF,
    ensures
        r matches Some(v) ==> parse_int(cs@, min as int, max as int) == Some(v as int),
        r is None ==> parse_int(cs@, min as int, max as int) is None,
{
    let n = cs.len();
    let signed = n > 0 && (cs[0] == '+' || (cs[0] == '-' && min < 0));
    let negative = signed && cs[0] == '-';
    let start: usize = if signed {
        1
    } else {
        0
    };
    proof {
        if signed {
            assert(cs@.subrange(1, cs@.len() as int) =~= cs@.drop_first());
        } else {
            assert(cs@.subrange(0, cs@.len() as int) =~= cs@);
        }
    }
    if start == n {
        return None;
    }
    match parse_magnitude(cs, start) {
        None => None,
        Some(m) => {
            let v: i128 = if negative {
                -(m as i128)
            } else {
                m as i128
            };
            if min <= v && v <= max {
                Some(v)
            } else {
                None
            }
        },
    }
}

/// `s.parse::<i64>().ok()`.
pub fn parse_i64(s: &str) -> (r: Option<i64>)
    ensures
        r matches Some(v) ==> parse_int(s@, i64::MIN as int, i64::MAX as int) == Some(v as int),
        r is None ==> parse_int(s@, i64::MIN as int, i64::MAX as int) is None,
{
    let cs = chars_of(s);
    match parse_int_chars(cs.as_slice(), i64::MIN as i128, i64::MAX as i128) {
        Some(v) => Some(v as i64),
        None => None,
    }
}

/// `s.parse::<i32>().ok()`.
pub fn parse_i32(s: &str) -> (r: Option<i32>)
    ensures
        r matches Some(v) ==> parse_int(s@, i32::MIN as int, i32::MAX as int) == Some(v as int),
        r is None ==> parse_int(s@, i32::MIN as int, i32::MAX as int) is None,
{
    let cs = chars_of(s);
    match parse_int_chars(cs.as_slice(), i32::MIN as i128, i32::MAX as i128) {
        Some(v) => Some(v as i32),
        None => None,
    }
}

/// `s.parse::<u32>().ok()`.
pub fn parse_u32(s: &str) -> (r: Option<u32>)
    ensures
        r matches Some(v) ==> parse_int(s@, 0, u32::MAX as int) == Some(v as int),
        r is None ==> parse_int(s@, 0, u32::MAX as int) is None,
{
    let cs = chars_of(s);
    match parse_int_chars(cs.as_slice(), 0, u32::MAX as i128) {
        Some(v) => Some(v as u32),
        None => None,
    }
}

// ---------------------------------------------------------------------------
// Decimal text of integers
// ---------------------------------------------------------------------------

pub open spec fn digit_char(d: int) -> char {
    (('0' as int) + d) as char
}

/// The decimal digits of `n`, without leading zeros.
pub open spec fn nat_text(n: nat) -> Seq<char>
    decreases n,
{
    if n < 10 {
        seq![digit_char(n as int)]
    } else {
        nat_text(n / 10).push(digit_char(n as int % 10))
    }
}

/// The text `Display` gives an integer: a `-` for negative values, then the digits.
pub open spec fn int_text(n: int) -> Seq<char> {
    if n < 0 {
        seq!['-'] + nat_text((-n) as nat)
    } else {
        nat_text(n as nat)
    }
}

/// Appends the decimal digits of `n` to `s`.
pub fn push_nat_text(s: &mut String, n: u64)
    ensures
        final(s)@ == old(s)@ + nat_text(n as nat),
    decreases n,
{
    if n >= 10 {
        push_nat_text(s, n / 10);
    }
    let d = (n % 10) as u32;
    let c = char_from_digit(d);
    push_char(s, c);
    proof {
        if n >= 10 {
            assert(nat_text(n as nat) == nat_text((n / 10) as nat).push(digit_char(n as int % 10)));
        }
    }
}

fn char_from_digit(d: u32) -> (c: char)
    requires
        d < 10,
    ensures
        c == digit_char(d as int),
{
    match d {
        0 => '0',
        1 => '1',
        2 => '2',
        3 => '3',
        4 => '4',
        5 => '5',
        6 => '6',
        7 => '7',
        8 => '8',
        _ => '9',
    }
}

/// Appends `n.to_string()` to `s`.
pub fn push_int_text(s: &mut String, n: i64)
    ensures
        final(s)@ == old(s)@ + int_text(n as int),
{
    if n < 0 {
        push_char(s, '-');
        let m: u64 = (-(n as i128)) as u64;
        push_nat_text(s, m);
        assert(final(s)@ == old(s)@ + int_text(n as int));
    } else {
        push_nat_text(s, n as u64);
    }
}

/// `n.to_string()` for an `i64`.
pub fn int_to_text(n: i64) -> (s: String)
    ensures
        s@ == int_text(n as int),
{
    let mut s = String::new();
    push_int_text(&mut s, n);
    s
}

pub proof fn lemma_nat_text_digits(n: nat)
    ensures
        all_digits(nat_text(n)),
        digits_value(nat_text(n)) == n,
        nat_text(n).len() > 0,
    decreases n,
{
    if n >= 10 {
        lemma_nat_text_digits(n / 10);
        let t = nat_text(n);
        assert(t.drop_last() =~= nat_text(n / 10));
        assert forall|i: int| 0 <= i < t.len() implies is_digit(#[trigger] t[i]) by {
            if i < t.len() - 1 {
                assert(t[i] == nat_text(n / 10)[i]);
            }
        }
    } else {
        assert(digits_value(nat_text(n)) == 10 * digits_value(nat_text(n).drop_last())
            + digit_val(nat_text(n).last()));
        assert(nat_text(n).drop_last() =~= Seq::<char>::empty());
    }
}

/// Decimal text read back gives the integer that was written: parsing
/// `n.to_string()` as an integer type that holds `n` gives `n`.
pub proof fn law_int_text_round_trip(n: int, min: int, max: int)
    requires
        min <= 0 <= max,
        min <= n <= max,
    ensures
        parse_int(int_text(n), min, max) == Some(n),
{
    if n < 0 {
        let body = nat_text((-n) as nat);
        lemma_nat_text_digits((-n) as nat);
        assert(int_text(n).drop_first() =~= body);
        assert(has_sign(int_text(n), min));
    } else {
        lemma_nat_text_digits(n as nat);
        let t = nat_text(n as nat);
        assert(is_digit(t[0]));
        assert(!has_sign(t, min));
    }
}

} // verus!
