//! Decimal digit strings: their value, parsing them into `u64`, and
//! rendering a `u64` back into digits.

use vstd::prelude::*;
use vstd::string::*;

verus! {

/// True when `c` is one of the ten decimal digit characters.
pub open spec fn is_dec_digit(c: char) -> bool {
    '0' as u32 <= c as u32 && c as u32 <= '9' as u32
}

/// Numeric value of a decimal digit character.
pub open spec fn dec_digit_val(c: char) -> nat
    recommends
        is_dec_digit(c),
{
    (c as u32 - '0' as u32) as nat
}

/// True when every character of `s` is a decimal digit.
pub open spec fn all_dec_digits(s: Seq<char>) -> bool {
    forall|i: int| 0 <= i < s.len() ==> is_dec_digit(#[trigger] s[i])
}

/// Value of a digit string, most significant digit first.
pub open spec fn dec_val(s: Seq<char>) -> nat
    decreases s.len(),
{
    if s.len() == 0 {
        0
    } else {
        dec_val(s.drop_last()) * 10 + dec_digit_val(s.last())
    }
}

/// The digits of `s` after at most one leading plus sign.
pub open spec fn dec_body(s: Seq<char>) -> Seq<char> {
    if s.len() > 0 && s[0] == '+' {
        s.skip(1)
    } else {
        s
    }
}

/// Why a decimal string failed to parse as an unsigned integer.
#[derive(Clone, Copy, Debug, PartialEq, Eq, Structural)]
pub enum ParseNumError {
    /// No digits after the optional sign.
    Empty,
    /// A character that is not a decimal digit.
    InvalidDigit,
    /// The value does not fit in the target type.
    Overflow,
}

/// A digit string's value never shrinks when the string grows on the right.
pub proof fn lemma_dec_val_prefix_le(s: Seq<char>, i: int)
    requires
        0 <= i <= s.len(),
    ensures
        dec_val(s.take(i)) <= dec_val(s),
    decreases s.len() - i,
{
    if i < s.len() {
        assert(s.take(i + 1).drop_last() =~= s.take(i));
        assert(dec_val(s.take(i + 1)) == dec_val(s.take(i)) * 10 + dec_digit_val(s.take(i + 1).last()));
        lemma_dec_val_prefix_le(s, i + 1);
    } else {
        assert(s.take(i) =~= s);
    }
}

/// True when every character of `s` is a decimal digit; the first position
/// that is not one is reported.
pub(crate) fn check_all_dec_digits(s: &str) -> (r: Option<usize>)
    ensures
        r is None <==> all_dec_digits(s@),
        r is Some ==> r->0 < s@.len() && !is_dec_digit(s@[r->0 as int]),
{
    let n = s.unicode_len();
    let mut i: usize = 0;
    while i < n
        invariant
            0 <= i <= n,
            n == s@.len(),
            forall|j: int| 0 <= j < i ==> is_dec_digit(#[trigger] s@[j]),
        decreases n - i,
    {
        let c = s.get_char(i);
        let cu = c as u32;
        if cu < '0' as u32 || cu > '9' as u32 {
            return Some(i);
        }
        i = i + 1;
    }
    None
}

/// Parse a decimal string, with at most one leading plus sign, into a `u64`.
pub fn parse_u64(s: &str) -> (r: Result<u64, ParseNumError>)
    ensures
        r is Ok <==> dec_body(s@).len() > 0 && all_dec_digits(dec_body(s@)) && dec_val(dec_body(s@))
            <= u64::MAX,
        r is Ok ==> r->Ok_0 == dec_val(dec_body(s@)),
        r == Err::<u64, ParseNumError>(ParseNumError::Empty) <==> dec_body(s@).len() == 0,
        r == Err::<u64, ParseNumError>(ParseNumError::InvalidDigit) <==> dec_body(s@).len() > 0
            && !all_dec_digits(dec_body(s@)),
        r == Err::<u64, ParseNumError>(ParseNumError::Overflow) <==> dec_body(s@).len() > 0
            && all_dec_digits(dec_body(s@)) && dec_val(dec_body(s@)) > u64::MAX,
{
    let n = s.unicode_len();
    let has_sign: bool = n > 0 && s.get_char(0) == '+';
    let body: &str = if has_sign {
        s.substring_char(1, n)
    } else {
        s.substring_char(0, n)
    };
    proof {
        if has_sign {
            assert(body@ =~= dec_body(s@));
        } else {
            assert(body@ =~= s@);
        }
    }
    let m = body.unicode_len();
    if m == 0 {
        return Err(ParseNumError::Empty);
    }
    match check_all_dec_digits(body) {
        Some(_) => {
            return Err(ParseNumError::InvalidDigit);
        },
        None => {},
    }
    let mut acc: u64 = 0;
    let mut i: usize = 0;
    while i < m
        invariant
            0 <= i <= m,
            m == body@.len(),
            body@ == dec_body(s@),
            m > 0,
            all_dec_digits(body@),
            acc == dec_val(body@.take(i as int)),
        decreases m - i,
    {
        let c = body.get_char(i);
        let d: u64 = (c as u32 - '0' as u32) as u64;
        let wide: u128 = acc as u128 * 10 + d as u128;
        proof {
            assert(body@.take(i + 1).drop_last() =~= body@.take(i as int));
            assert(dec_val(body@.take(i + 1)) == dec_val(body@.take(i as int)) * 10 + dec_digit_val(
                c,
            ));
        }
        if wide > u64::MAX as u128 {
            proof {
                lemma_dec_val_prefix_le(body@, i + 1);
            }
            return Err(ParseNumError::Overflow);
        }
        acc = wide as u64;
        i = i + 1;
    }
    proof {
        assert(body@.take(m as int) =~= body@);
    }
    Ok(acc)
}

/// The decimal digit character whose value is `d`.
pub open spec fn dec_char_of(d: nat) -> char
    recommends
        d < 10,
{
    if d == 0 {
        '0'
    } else if d == 1 {
        '1'
    } else if d == 2 {
        '2'
    } else if d == 3 {
        '3'
    } else if d == 4 {
        '4'
    } else if d == 5 {
        '5'
    } else if d == 6 {
        '6'
    } else if d == 7 {
        '7'
    } else if d == 8 {
        '8'
    } else {
        '9'
    }
}

/// Canonical decimal rendering of `n`: no sign, no leading zero, and the
/// single digit `0` for zero.
pub open spec fn dec_str_of(n: nat) -> Seq<char>
    decreases n,
{
    if n < 10 {
        seq![dec_char_of(n)]
    } else {
        dec_str_of(n / 10).push(dec_char_of(n % 10))
    }
}

/// The one-character string for the digit `d`.
fn dec_digit_str(d: u64) -> (r: &'static str)
    requires
        d < 10,
    ensures
        r@ =~= seq![dec_char_of(d as nat)],
{
    proof {
        reveal_strlit("0");
        reveal_strlit("1");
        reveal_strlit("2");
        reveal_strlit("3");
        reveal_strlit("4");
        reveal_strlit("5");
        reveal_strlit("6");
        reveal_strlit("7");
        reveal_strlit("8");
        reveal_strlit("9");
    }
    match d {
        0 => "0",
        1 => "1",
        2 => "2",
        3 => "3",
        4 => "4",
        5 => "5",
        6 => "6",
        7 => "7",
        8 => "8",
        _ => "9",
    }
}

/// Render `n` as its canonical decimal digit string.
pub fn u64_to_dec_string(n: u64) -> (r: String)
    ensures
        r@ == dec_str_of(n as nat),
    decreases n,
{
    if n < 10 {
        let r = String::from_str(dec_digit_str(n));
        proof {
            assert(r@ =~= dec_str_of(n as nat));
        }
        r
    } else {
        let mut prefix = u64_to_dec_string(n / 10);
        prefix.append(dec_digit_str(n % 10));
        proof {
            assert(prefix@ =~= dec_str_of(n as nat));
        }
        prefix
    }
}

/// Law: the canonical rendering of any number is a non-empty digit string
/// whose value is that number.
pub proof fn lemma_dec_str_of_val(n: nat)
    ensures
        dec_str_of(n).len() > 0,
        all_dec_digits(dec_str_of(n)),
        dec_val(dec_str_of(n)) == n,
    decreases n,
{
    if n < 10 {
        assert(dec_str_of(n) =~= seq![dec_char_of(n)]);
        assert(dec_str_of(n).drop_last() =~= Seq::<char>::empty());
        assert(dec_str_of(n).last() == dec_char_of(n));
        assert(dec_val(Seq::<char>::empty()) == 0);
        assert(dec_val(dec_str_of(n)) == dec_val(dec_str_of(n).drop_last()) * 10 + dec_digit_val(
            dec_str_of(n).last(),
        ));
        assert(dec_digit_val(dec_char_of(n)) == n);
    } else {
        lemma_dec_str_of_val(n / 10);
        assert(dec_str_of(n).drop_last() =~= dec_str_of(n / 10));
        assert(dec_val(dec_str_of(n)) == dec_val(dec_str_of(n / 10)) * 10 + dec_digit_val(
            dec_char_of(n % 10),
        ));
        assert(dec_digit_val(dec_char_of(n % 10)) == n % 10);
        vstd::arithmetic::div_mod::lemma_fundamental_div_mod(n as int, 10);
    }
}

/// Law: rendering a `u64` and parsing the result returns the same number;
/// in particular `parse_u64` accepts every rendered value.
pub proof fn lemma_dec_round_trip(n: u64)
    ensures
        dec_body(dec_str_of(n as nat)) == dec_str_of(n as nat),
        dec_str_of(n as nat).len() > 0,
        all_dec_digits(dec_str_of(n as nat)),
        dec_val(dec_str_of(n as nat)) == n,
{
    lemma_dec_str_of_val(n as nat);
    assert(is_dec_digit(dec_str_of(n as nat)[0]));
}

} // verus!
