//! Native-token arguments of the `send-native` subcommand: the token
//! identifier, written as hex digits, and the token amount, a 256-bit
//! unsigned integer written in decimal.

use vstd::prelude::*;
use vstd::string::*;
use crate::numeric::{
    all_dec_digits, check_all_dec_digits, dec_digit_val, dec_val, lemma_dec_val_prefix_le,
};

verus! {

/// True when `c` is a hexadecimal digit character, either case.
pub open spec fn is_hex_digit(c: char) -> bool {
    ('0' as u32 <= c as u32 && c as u32 <= '9' as u32) || ('a' as u32 <= c as u32 && c as u32
        <= 'f' as u32) || ('A' as u32 <= c as u32 && c as u32 <= 'F' as u32)
}

/// Numeric value of a hexadecimal digit character.
pub open spec fn hex_digit_val(c: char) -> nat
    recommends
        is_hex_digit(c),
{
    if '0' as u32 <= c as u32 && c as u32 <= '9' as u32 {
        (c as u32 - '0' as u32) as nat
    } else if 'a' as u32 <= c as u32 && c as u32 <= 'f' as u32 {
        (c as u32 - 'a' as u32 + 10) as nat
    } else {
        (c as u32 - 'A' as u32 + 10) as nat
    }
}

/// True when every character of `s` is a hexadecimal digit.
pub open spec fn all_hex_digits(s: Seq<char>) -> bool {
    forall|i: int| 0 <= i < s.len() ==> is_hex_digit(#[trigger] s[i])
}

/// The bytes written by a string of hexadecimal digit pairs, high digit
/// first in each pair.
pub open spec fn hex_bytes_of(s: Seq<char>) -> Seq<u8>
    recommends
        s.len() % 2 == 0,
        all_hex_digits(s),
{
    Seq::new(s.len() as nat / 2, |i: int| (hex_digit_val(s[2 * i]) * 16 + hex_digit_val(s[2 * i + 1])) as u8)
}

/// Byte length of a token identifier.
pub const TOKEN_ID_LENGTH: usize = 38;

/// Why a string failed to parse as a token identifier.
#[derive(Clone, Copy, Debug, PartialEq, Eq, Structural)]
pub enum TokenIdError {
    /// The string does not hold exactly twice `TOKEN_ID_LENGTH` characters.
    InvalidLength,
    /// A character that is not a hexadecimal digit.
    InvalidDigit,
}

/// A native token identifier: `TOKEN_ID_LENGTH` bytes, written as twice
/// that many hexadecimal digits.
#[derive(Debug, Clone)]
pub struct TokenId {
    bytes: Vec<u8>,
}

impl View for TokenId {
    type V = Seq<u8>;

    closed spec fn view(&self) -> Seq<u8> {
        self.bytes@
    }
}

impl TokenId {
    /// Every token identifier holds exactly `TOKEN_ID_LENGTH` bytes.
    pub open spec fn well_formed(&self) -> bool {
        self@.len() == TOKEN_ID_LENGTH
    }

    /// The identifier's bytes.
    pub fn bytes(&self) -> (r: &Vec<u8>)
        ensures
            r@ == self@,
    {
        &self.bytes
    }

    /// Parse a token identifier from its hexadecimal text form.
    pub fn from_hex_str(s: &str) -> (r: Result<TokenId, TokenIdError>)
        ensures
            r is Ok <==> s@.len() == 2 * TOKEN_ID_LENGTH && all_hex_digits(s@),
            r is Ok ==> r->Ok_0@ == hex_bytes_of(s@) && r->Ok_0.well_formed(),
            r == Err::<TokenId, TokenIdError>(TokenIdError::InvalidLength) <==> s@.len() != 2
                * TOKEN_ID_LENGTH,
            r == Err::<TokenId, TokenIdError>(TokenIdError::InvalidDigit) <==> s@.len() == 2
                * TOKEN_ID_LENGTH && !all_hex_digits(s@),
    {
        let n = s.unicode_len();
        if n != 2 * TOKEN_ID_LENGTH {
            return Err(TokenIdError::InvalidLength);
        }
        let mut bytes: Vec<u8> = Vec::new();
        let mut i: usize = 0;
        while i < TOKEN_ID_LENGTH
            invariant
                0 <= i <= TOKEN_ID_LENGTH,
                s@.len() == 2 * TOKEN_ID_LENGTH,
                bytes@.len() == i,
                forall|j: int| 0 <= j < 2 * i ==> is_hex_digit(#[trigger] s@[j]),
                forall|j: int|
                    0 <= j < i ==> bytes@[j] == (hex_digit_val(s@[2 * j]) * 16 + hex_digit_val(
                        s@[2 * j + 1],
                    )) as u8,
            decreases TOKEN_ID_LENGTH - i,
        {
            let hi = match hex_digit_val_exec(s.get_char(2 * i)) {
                Some(v) => v,
                None => {
                    return Err(TokenIdError::InvalidDigit);
                },
            };
            let lo = match hex_digit_val_exec(s.get_char(2 * i + 1)) {
                Some(v) => v,
                None => {
                    return Err(TokenIdError::InvalidDigit);
                },
            };
            bytes.push(hi * 16 + lo);
            i = i + 1;
        }
        proof {
            assert(bytes@ =~= hex_bytes_of(s@));
        }
        Ok(TokenId { bytes })
    }
}

/// Numeric value of one hexadecimal digit character, or nothing when the
/// character is not one.
fn hex_digit_val_exec(c: char) -> (r: Option<u8>)
    ensures
        r is Some <==> is_hex_digit(c),
        r is Some ==> r->0 == hex_digit_val(c) && r->0 < 16,
{
    let cu = c as u32;
    if '0' as u32 <= cu && cu <= '9' as u32 {
        Some((cu - '0' as u32) as u8)
    } else if 'a' as u32 <= cu && cu <= 'f' as u32 {
        Some((cu - 'a' as u32 + 10) as u8)
    } else if 'A' as u32 <= cu && cu <= 'F' as u32 {
        Some((cu - 'A' as u32 + 10) as u8)
    } else {
        None
    }
}

/// Two to the power sixty-four.
pub open spec fn pow2_64() -> nat {
    0x1_0000_0000_0000_0000
}

/// Two to the power two hundred fifty-six: the first value a `U256`
/// cannot hold.
pub open spec fn u256_limit() -> nat {
    pow2_64() * pow2_64() * pow2_64() * pow2_64()
}

/// Why a decimal string failed to parse as a token amount.
#[derive(Clone, Copy, Debug, PartialEq, Eq, Structural)]
pub enum AmountError {
    /// The string is empty.
    Empty,
    /// A character that is not a decimal digit.
    InvalidCharacter,
    /// The value does not fit in 256 bits.
    TooLarge,
}

/// A 256-bit unsigned integer, as four 64-bit words, least significant
/// first.
#[derive(Clone, Copy, Debug)]
pub struct U256 {
    pub w0: u64,
    pub w1: u64,
    pub w2: u64,
    pub w3: u64,
}

impl U256 {
    /// The number this value stands for, the four words read least
    /// significant first.
    pub open spec fn value(&self) -> nat {
        (self.w0 + pow2_64() * (self.w1 + pow2_64() * (self.w2 + pow2_64() * self.w3))) as nat
    }

    /// Every `U256` value is below two to the power two hundred fifty-six.
    pub proof fn lemma_value_bound(&self)
        ensures
            self.value() < u256_limit(),
    {
        let t: int = pow2_64() as int;
        assert((self.w0 + t * (self.w1 + t * (self.w2 + t * self.w3))) < t * t * t * t)
            by (nonlinear_arith)
            requires
                t == 0x1_0000_0000_0000_0000,
                0 <= self.w0 < t,
                0 <= self.w1 < t,
                0 <= self.w2 < t,
                0 <= self.w3 < t,
        ;
    }

    /// This value times ten plus one digit, unless that leaves 256 bits.
    fn checked_mul10_add(&self, d: u64) -> (r: Option<U256>)
        requires
            d < 10,
        ensures
            r is Some <==> self.value() * 10 + d < u256_limit(),
            r is Some ==> r->0.value() == self.value() * 10 + d,
    {
        let two64: u128 = 0x1_0000_0000_0000_0000;
        let p0: u128 = self.w0 as u128 * 10 + d as u128;
        let n0: u64 = (p0 % two64) as u64;
        let c1: u128 = p0 / two64;
        let p1: u128 = self.w1 as u128 * 10 + c1;
        let n1: u64 = (p1 % two64) as u64;
        let c2: u128 = p1 / two64;
        let p2: u128 = self.w2 as u128 * 10 + c2;
        let n2: u64 = (p2 % two64) as u64;
        let c3: u128 = p2 / two64;
        let p3: u128 = self.w3 as u128 * 10 + c3;
        let n3: u64 = (p3 % two64) as u64;
        let c4: u128 = p3 / two64;
        let next = U256 { w0: n0, w1: n1, w2: n2, w3: n3 };
        proof {
            let t: int = pow2_64() as int;
            vstd::arithmetic::div_mod::lemma_fundamental_div_mod(p0 as int, t);
            vstd::arithmetic::div_mod::lemma_fundamental_div_mod(p1 as int, t);
            vstd::arithmetic::div_mod::lemma_fundamental_div_mod(p2 as int, t);
            vstd::arithmetic::div_mod::lemma_fundamental_div_mod(p3 as int, t);
            assert((n0 + t * (n1 + t * (n2 + t * n3))) + (c4 as int) * (t * t * t * t) == (self.w0
                + t * (self.w1 + t * (self.w2 + t * self.w3))) * 10 + d) by (nonlinear_arith)
                requires
                    t == 0x1_0000_0000_0000_0000,
                    p0 as int == self.w0 as int * 10 + d as int,
                    p0 as int == t * (c1 as int) + n0 as int,
                    p1 as int == self.w1 as int * 10 + c1 as int,
                    p1 as int == t * (c2 as int) + n1 as int,
                    p2 as int == self.w2 as int * 10 + c2 as int,
                    p2 as int == t * (c3 as int) + n2 as int,
                    p3 as int == self.w3 as int * 10 + c3 as int,
                    p3 as int == t * (c4 as int) + n3 as int,
            ;
            assert(next.value() + (c4 as int) * (t * t * t * t) == self.value() * 10 + d);
            next.lemma_value_bound();
            if c4 != 0 {
                assert((c4 as int) * (t * t * t * t) >= t * t * t * t) by (nonlinear_arith)
                    requires
                        t == 0x1_0000_0000_0000_0000,
                        c4 as int >= 1,
                ;
            }
        }
        if c4 != 0 {
            None
        } else {
            Some(next)
        }
    }

    /// Parse a decimal digit string into a 256-bit unsigned integer.
    pub fn from_dec_str(s: &str) -> (r: Result<U256, AmountError>)
        ensures
            r is Ok <==> s@.len() > 0 && all_dec_digits(s@) && dec_val(s@) < u256_limit(),
            r is Ok ==> r->Ok_0.value() == dec_val(s@),
            r == Err::<U256, AmountError>(AmountError::Empty) <==> s@.len() == 0,
            r == Err::<U256, AmountError>(AmountError::InvalidCharacter) <==> s@.len() > 0
                && !all_dec_digits(s@),
            r == Err::<U256, AmountError>(AmountError::TooLarge) <==> s@.len() > 0
                && all_dec_digits(s@) && dec_val(s@) >= u256_limit(),
    {
        let n = s.unicode_len();
        if n == 0 {
            return Err(AmountError::Empty);
        }
        match check_all_dec_digits(s) {
            Some(_) => {
                return Err(AmountError::InvalidCharacter);
            },
            None => {},
        }
        let mut acc = U256 { w0: 0, w1: 0, w2: 0, w3: 0 };
        let mut i: usize = 0;
        while i < n
            invariant
                0 <= i <= n,
                n == s@.len(),
                n > 0,
                all_dec_digits(s@),
                acc.value() == dec_val(s@.take(i as int)),
            decreases n - i,
        {
            let c = s.get_char(i);
            let cu = c as u32;
            let d: u64 = (cu - '0' as u32) as u64;
            proof {
                assert(s@.take(i + 1).drop_last() =~= s@.take(i as int));
                assert(dec_val(s@.take(i + 1)) == dec_val(s@.take(i as int)) * 10 + dec_digit_val(
                    c,
                ));
            }
            match acc.checked_mul10_add(d) {
                Some(next) => {
                    acc = next;
                },
                None => {
                    proof {
                        lemma_dec_val_prefix_le(s@, i + 1);
                    }
                    return Err(AmountError::TooLarge);
                },
            }
            i = i + 1;
        }
        proof {
            assert(s@.take(n as int) =~= s@);
            acc.lemma_value_bound();
        }
        Ok(acc)
    }
}

} // verus!
