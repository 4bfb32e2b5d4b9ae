//! Arbitrary-precision token amounts.
//!
//! The ledgers count in natural numbers of any size. An [`Amount`] keeps such a
//! number as its canonical decimal digits, so that it can be of any size and
//! still be compared and printed without big-number arithmetic.

use vstd::prelude::*;

verus! {

/// `b` is the ASCII code of a decimal digit.
pub open spec fn is_digit(b: u8) -> bool {
    48 <= b <= 57
}

/// The number that a string of ASCII decimal digits denotes, most significant
/// digit first. The empty string denotes zero.
pub open spec fn decimal_value(digits: Seq<u8>) -> nat
    decreases digits.len(),
{
    if digits.len() == 0 {
        0
    } else {
        decimal_value(digits.drop_last()) * 10 + (digits.last() - 48) as nat
    }
}

/// `digits` is the decimal notation of a natural number without leading
/// zeros: at least one digit, and a first digit `0` only for zero itself.
pub open spec fn is_canonical_decimal(digits: Seq<u8>) -> bool {
    &&& digits.len() >= 1
    &&& forall|i: int| 0 <= i < digits.len() ==> is_digit(#[trigger] digits[i])
    &&& (digits.len() > 1 ==> digits[0] != 48)
}

/// The canonical decimal notation of `n`.
pub open spec fn decimal_digits(n: nat) -> Seq<u8>
    decreases n,
{
    if n < 10 {
        seq![(48 + n) as u8]
    } else {
        decimal_digits(n / 10).push((48 + n % 10) as u8)
    }
}

/// `decimal_digits` writes canonical notation, and `decimal_value` reads it
/// back.
pub proof fn lemma_decimal_digits_value(n: nat)
    ensures
        is_canonical_decimal(decimal_digits(n)),
        decimal_value(decimal_digits(n)) == n,
        n >= 10 ==> decimal_digits(n).len() >= 2,
    decreases n,
{
    if n < 10 {
        let s = decimal_digits(n);
        assert(s.drop_last() =~= Seq::<u8>::empty());
        assert(decimal_value(s.drop_last()) == 0);
    } else {
        lemma_decimal_digits_value(n / 10);
        let p = decimal_digits(n / 10);
        let s = decimal_digits(n);
        assert(s.drop_last() =~= p);
        assert(s[0] == p[0]);
        assert forall|i: int| 0 <= i < s.len() implies is_digit(#[trigger] s[i]) by {
            if i < p.len() {
                assert(s[i] == p[i]);
            }
        }
        if n / 10 < 10 {
            assert(p[0] == (48 + n / 10) as u8);
        }
    }
}

/// A string of digits with a non-zero first digit denotes at least one.
proof fn lemma_leading_digit(digits: Seq<u8>)
    requires
        digits.len() >= 1,
        forall|i: int| 0 <= i < digits.len() ==> is_digit(#[trigger] digits[i]),
        digits[0] != 48,
    ensures
        decimal_value(digits) >= 1,
    decreases digits.len(),
{
    if digits.len() == 1 {
        assert(digits.drop_last() =~= Seq::<u8>::empty());
        assert(decimal_value(digits.drop_last()) == 0);
    } else {
        let p = digits.drop_last();
        assert(p[0] == digits[0]);
        assert forall|i: int| 0 <= i < p.len() implies is_digit(#[trigger] p[i]) by {
            assert(p[i] == digits[i]);
        }
        lemma_leading_digit(p);
    }
}

/// Canonical notation is unique: reading a canonical string and writing the
/// number again gives the same string.
pub proof fn lemma_canonical_roundtrip(digits: Seq<u8>)
    requires
        is_canonical_decimal(digits),
    ensures
        decimal_digits(decimal_value(digits)) == digits,
    decreases digits.len(),
{
    let p = digits.drop_last();
    let d = (digits.last() - 48) as nat;
    assert(is_digit(digits.last()));
    if digits.len() == 1 {
        assert(p =~= Seq::<u8>::empty());
        assert(decimal_value(p) == 0);
        assert(decimal_value(digits) == d);
        assert(decimal_digits(d) =~= digits);
    } else {
        assert(p[0] == digits[0]);
        assert forall|i: int| 0 <= i < p.len() implies is_digit(#[trigger] p[i]) by {
            assert(p[i] == digits[i]);
        }
        lemma_leading_digit(p);
        lemma_canonical_roundtrip(p);
        let v = decimal_value(p);
        let n = decimal_value(digits);
        assert(n == v * 10 + d);
        assert(n / 10 == v && n % 10 == d);
        assert(decimal_digits(n) =~= decimal_digits(v).push((48 + d) as u8));
        assert(decimal_digits(n) =~= digits);
    }
}

/// Two canonical strings that denote the same number are the same string.
pub proof fn lemma_canonical_unique(a: Seq<u8>, b: Seq<u8>)
    requires
        is_canonical_decimal(a),
        is_canonical_decimal(b),
        decimal_value(a) == decimal_value(b),
    ensures
        a == b,
{
    lemma_canonical_roundtrip(a);
    lemma_canonical_roundtrip(b);
}

/// The characters of a string of ASCII codes.
pub open spec fn ascii_text(codes: Seq<u8>) -> Seq<char> {
    Seq::new(codes.len(), |i: int| codes[i] as char)
}

/// The ASCII codes of the characters of a text.
pub open spec fn ascii_codes(text: Seq<char>) -> Seq<u8> {
    Seq::new(text.len(), |i: int| text[i] as u8)
}

/// `text` is the canonical decimal notation of a natural number.
pub open spec fn is_decimal_text(text: Seq<char>) -> bool {
    &&& forall|i: int| 0 <= i < text.len() ==> '0' <= #[trigger] text[i] <= '9'
    &&& is_canonical_decimal(ascii_codes(text))
}

/// `text` with an underscore before every group of three characters counted
/// from the right, the way the ledgers' number type prints itself:
/// `1234567` becomes `1_234_567`.
pub open spec fn grouped(text: Seq<char>) -> Seq<char>
    decreases text.len(),
{
    if text.len() <= 3 {
        text
    } else {
        grouped(text.subrange(0, text.len() - 3)) + seq!['_'] + text.subrange(
            text.len() - 3,
            text.len() as int,
        )
    }
}

/// How the amount `n` is printed: its decimal digits in groups of three.
pub open spec fn display_text(n: nat) -> Seq<char> {
    grouped(ascii_text(decimal_digits(n)))
}

/// The number one is printed as the single character `1`.
pub proof fn lemma_display_one()
    ensures
        display_text(1) == seq!['1'],
{
    assert(decimal_digits(1) =~= seq![49u8]);
    assert(ascii_text(seq![49u8]) =~= seq!['1']);
}

/// Prints a natural number, given by its canonical decimal digits, the way
/// `candid::Nat` prints itself.
///
/// Trusted: `candid::Nat::parse` reads the digits as a base-ten number, and
/// the `Display` impl of `candid::Nat` (behind `to_string`) writes that number
/// in base ten without leading zeros and then puts an underscore before every
/// group of three digits counted from the right. For canonical digits the
/// number is written with the very digits it was read from, so the result is
/// `grouped` of the input.
#[verifier::external_body]
fn nat_display(digits: &Vec<u8>) -> (text: String)
    requires
        is_canonical_decimal(digits@),
    ensures
        text@ == grouped(ascii_text(digits@)),
{
    match candid::Nat::parse(digits) {
        Ok(number) => number.to_string(),
        Err(_) => String::new(),
    }
}

/// The canonical decimal digits of `n`.
fn decimal_of(n: u128) -> (digits: Vec<u8>)
    ensures
        digits@ == decimal_digits(n as nat),
    decreases n,
{
    if n < 10 {
        let mut digits: Vec<u8> = Vec::new();
        digits.push(48u8 + n as u8);
        assert(digits@ =~= decimal_digits(n as nat));
        digits
    } else {
        let mut digits = decimal_of(n / 10);
        digits.push(48u8 + (n % 10) as u8);
        assert(digits@ =~= decimal_digits(n as nat));
        digits
    }
}

/// A natural number of any size, kept as its canonical decimal digits.
///
/// Its view is the number itself.
#[derive(Debug, PartialEq, Eq)]
pub struct Amount {
    digits: Vec<u8>,
}

impl View for Amount {
    type V = nat;

    closed spec fn view(&self) -> nat {
        decimal_value(self.digits@)
    }
}

impl Clone for Amount {
    fn clone(&self) -> (copy: Amount)
        ensures
            copy@ == self@,
    {
        proof {
            use_type_invariant(self);
        }
        let digits = self.digits.clone();
        assert(digits@ =~= self.digits@);
        Amount { digits }
    }
}

impl Amount {
    #[verifier::type_invariant]
    spec fn canonical(&self) -> bool {
        is_canonical_decimal(self.digits@)
    }

    /// The amount zero.
    pub fn zero() -> (amount: Amount)
        ensures
            amount@ == 0,
    {
        Amount::from_u128(0)
    }

    /// The amount `n`.
    pub fn from_u128(n: u128) -> (amount: Amount)
        ensures
            amount@ == n,
    {
        let digits = decimal_of(n);
        proof {
            lemma_decimal_digits_value(n as nat);
        }
        Amount { digits }
    }

    /// Reads an amount from its decimal notation. Only canonical notation is
    /// accepted: digits alone, at least one, and no leading zero but for `0`
    /// itself.
    pub fn from_decimal(text: &str) -> (parsed: Option<Amount>)
        ensures
            parsed is Some <==> is_decimal_text(text@),
            parsed matches Some(amount) ==> amount@ == decimal_value(ascii_codes(text@)),
    {
        if !text.is_ascii() {
            assert(!is_decimal_text(text@)) by {
                if is_decimal_text(text@) {
                    assert forall|i: int| 0 <= i < text@.len() implies (text@[i] as u32) < 128 by {
                        assert('0' <= text@[i] <= '9');
                    }
                }
            }
            return None;
        }
        let bytes = text.as_bytes();
        proof {
            vstd::string::is_ascii_spec_bytes(text);
            assert(bytes@ =~= ascii_codes(text@));
        }
        let n = bytes.len();
        if n == 0 || (n > 1 && bytes[0] == 48u8) {
            return None;
        }
        let mut digits: Vec<u8> = Vec::new();
        let mut i: usize = 0;
        while i < n
            invariant
                i <= n,
                n == bytes@.len(),
                bytes@ == ascii_codes(text@),
                digits@ == bytes@.subrange(0, i as int),
                forall|j: int| 0 <= j < i ==> is_digit(#[trigger] bytes@[j]),
            decreases n - i,
        {
            let b = bytes[i];
            if b < 48u8 || b > 57u8 {
                assert(!is_digit(ascii_codes(text@)[i as int]));
                return None;
            }
            digits.push(b);
            assert(digits@ =~= bytes@.subrange(0, i + 1));
            i += 1;
        }
        assert(digits@ =~= bytes@);
        assert forall|j: int| 0 <= j < text@.len() implies '0' <= #[trigger] text@[j] <= '9' by {
            assert(is_digit(bytes@[j]));
            assert((text@[j] as u32) < 128);
        }
        Some(Amount { digits })
    }

    /// The canonical decimal digits of the amount, as ASCII codes, most
    /// significant first.
    pub fn digits(&self) -> (digits: Vec<u8>)
        ensures
            digits@ == decimal_digits(self@),
    {
        proof {
            use_type_invariant(self);
            lemma_canonical_roundtrip(self.digits@);
        }
        let digits = self.digits.clone();
        assert(digits@ =~= self.digits@);
        digits
    }

    /// Whether two amounts are the same number.
    pub fn equals(&self, other: &Amount) -> (same: bool)
        ensures
            same == (self@ == other@),
    {
        proof {
            use_type_invariant(self);
            use_type_invariant(other);
            if self@ == other@ {
                lemma_canonical_unique(self.digits@, other.digits@);
            }
        }
        crate::bytes::bytes_equal(&self.digits, &other.digits)
    }

    /// Whether the amount is the number one.
    pub fn is_one(&self) -> (one: bool)
        ensures
            one == (self@ == 1),
    {
        proof {
            use_type_invariant(self);
            lemma_canonical_roundtrip(self.digits@);
            assert(decimal_digits(1) =~= seq![49u8]);
            if self.digits@ =~= seq![49u8] {
                assert(self.digits@.drop_last() =~= Seq::<u8>::empty());
                assert(decimal_value(self.digits@.drop_last()) == 0);
            }
        }
        self.digits.len() == 1 && self.digits[0] == 49u8
    }

    /// The amount as text: its decimal digits with an underscore before every
    /// group of three, as in `1_234_567`.
    pub fn to_string(&self) -> (text: String)
        ensures
            text@ == display_text(self@),
    {
        proof {
            use_type_invariant(self);
            lemma_canonical_roundtrip(self.digits@);
        }
        nat_display(&self.digits)
    }
}

} // verus!
