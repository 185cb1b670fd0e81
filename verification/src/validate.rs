//! Composite validation of a card number: classification, length rule
//! and Luhn checksum, combined into one result record.

use vstd::prelude::*;
use vstd::string::StrSliceExecFns;

use crate::card_type::Type;
use crate::card_type::all_digits;
use crate::card_type::classify;
use crate::card_type::digits_only;
use crate::card_type::is_digit;
use crate::card_type::length_ok;
use crate::card_type::recognized;

verus! {

/// The numeric value of a digit character.
pub open spec fn digit_value(c: char) -> int {
    c as u32 - '0' as u32
}

/// One digit's share of the Luhn sum. A doubled digit adds the digit
/// sum of its doubled value, which is `2d - 9` whenever `2d` exceeds
/// nine.
pub open spec fn luhn_digit(c: char, doubled: bool) -> int {
    if doubled {
        if digit_value(c) >= 5 {
            2 * digit_value(c) - 9
        } else {
            2 * digit_value(c)
        }
    } else {
        digit_value(c)
    }
}

/// The Luhn sum of `s`. Counting positions from the rightmost character
/// (1-indexed), digits at even positions are doubled and digits at odd
/// positions kept as they are; the first character of `s` sits at
/// position `s.len()` from the right, so it is doubled exactly when
/// `s.len()` is even.
pub open spec fn luhn_sum(s: Seq<char>) -> int
    decreases s.len(),
{
    if s.len() == 0 {
        0
    } else {
        luhn_digit(s[0], s.len() % 2 == 0) + luhn_sum(s.drop_first())
    }
}

/// The Luhn check: an all-digit string whose Luhn sum is divisible by
/// ten. A string with a non-digit character fails the check.
pub open spec fn luhn_ok(s: Seq<char>) -> bool {
    all_digits(s) && luhn_sum(s) % 10 == 0
}

/// Every character of an all-digit string's subrange is still a digit.
proof fn lemma_all_digits_subrange(s: Seq<char>, a: int, b: int)
    requires
        all_digits(s),
        0 <= a <= b <= s.len(),
    ensures
        all_digits(s.subrange(a, b)),
{
    assert forall|j: int| 0 <= j < s.subrange(a, b).len() implies is_digit(
        s.subrange(a, b)[j],
    ) by {
        assert(s.subrange(a, b)[j] == s[a + j]);
    }
}

/// Each digit adds between 0 and 9 to the Luhn sum.
proof fn lemma_luhn_sum_bounds(s: Seq<char>)
    requires
        all_digits(s),
    ensures
        0 <= luhn_sum(s) <= 9 * s.len(),
    decreases s.len(),
{
    if s.len() > 0 {
        assert(s.drop_first() =~= s.subrange(1, s.len() as int));
        lemma_all_digits_subrange(s, 1, s.len() as int);
        lemma_luhn_sum_bounds(s.drop_first());
        assert(is_digit(s[0]));
    }
}

/// Peeling the leftmost character off the Luhn sum: the character's
/// position from the right is the length of the suffix it starts.
proof fn lemma_luhn_sum_step(s: Seq<char>, i: int)
    requires
        0 <= i < s.len(),
    ensures
        luhn_sum(s.subrange(i, s.len() as int)) == luhn_digit(s[i], (s.len() - i) % 2 == 0)
            + luhn_sum(s.subrange(i + 1, s.len() as int)),
{
    let suffix = s.subrange(i, s.len() as int);
    assert(suffix.drop_first() =~= s.subrange(i + 1, s.len() as int));
}

/// The outcome of validating one card number. Immutable once built:
/// a pure function of the input string.
#[derive(Clone, Copy, Debug, PartialEq, Eq, Structural)]
pub struct Validate {
    pub card_type: Type,
    pub valid: bool,
    pub length_valid: bool,
    pub luhn_valid: bool,
}

/// What a validation result says of the string it was computed from:
/// the type is the classification, the two sub-checks are the length
/// rule and the Luhn check, and the composite verdict holds exactly
/// when both sub-checks pass and the network is recognized.
pub open spec fn validation_of(r: Validate, s: Seq<char>) -> bool {
    &&& r.card_type == classify(s)
    &&& r.length_valid == length_ok(classify(s), s)
    &&& r.luhn_valid == luhn_ok(s)
    &&& r.valid == (r.length_valid && r.luhn_valid && recognized(r.card_type))
}

impl Validate {
    /// Validates a card number: never fails, any input yields a result.
    pub fn new(card_number: &str) -> (r: Validate)
        ensures
            validation_of(r, card_number@),
    {
        let card_type = Validate::evaluate_type(card_number);
        let length_valid = Validate::is_length_valid(card_number, &card_type);
        let luhn_valid = Validate::is_luhn_valid(card_number);
        let valid = length_valid && luhn_valid && card_type.valid();

        Validate { card_type, valid, length_valid, luhn_valid }
    }

    /// The first recognized network whose pattern matches the input,
    /// tried in priority order; `Other` when none does.
    fn evaluate_type(card_number: &str) -> (t: Type)
        ensures
            t == classify(card_number@),
    {
        let types = Type::all();
        let ghost s = card_number@;
        let mut i: usize = 0;
        while i < types.len()
            invariant
                types@ =~= seq![Type::Visa, Type::Discover, Type::Amex, Type::MasterCard],
                i <= types@.len(),
                s == card_number@,
                forall|j: int|
                    0 <= j < i ==> !crate::card_type::matches_pattern(types@[j], s),
            decreases types@.len() - i,
        {
            let card = types[i];
            if card.pattern(card_number) {
                return card;
            }
            i += 1;
        }
        proof {
            assert(!crate::card_type::matches_pattern(types@[0], s));
            assert(!crate::card_type::matches_pattern(types@[1], s));
            assert(!crate::card_type::matches_pattern(types@[2], s));
            assert(!crate::card_type::matches_pattern(types@[3], s));
        }
        Type::Other
    }

    /// The length rule of the classified network, applied to the input.
    fn is_length_valid(card_number: &str, card_type: &Type) -> (r: bool)
        ensures
            r == length_ok(*card_type, card_number@),
    {
        card_type.length(card_number)
    }

    /// The Luhn check over the input; a non-digit character fails it.
    fn is_luhn_valid(card_number: &str) -> (r: bool)
        ensures
            r == luhn_ok(card_number@),
    {
        if !digits_only(card_number) {
            return false;
        }
        let sum = Validate::calculate_luhn(card_number);
        sum % 10 == 0
    }

    /// The Luhn sum of an all-digit string, accumulated left to right;
    /// a digit's position from the right is the length of the suffix it
    /// starts.
    fn calculate_luhn(card_number: &str) -> (sum: u128)
        requires
            all_digits(card_number@),
        ensures
            sum == luhn_sum(card_number@),
    {
        let ghost s = card_number@;
        let n = card_number.unicode_len();
        let mut sum: u128 = 0;
        let mut i: usize = 0;
        proof {
            lemma_luhn_sum_bounds(s);
            assert(s.subrange(0, n as int) =~= s);
        }
        while i < n
            invariant
                all_digits(s),
                s == card_number@,
                n == s.len(),
                i <= n,
                0 <= luhn_sum(s) <= 9 * s.len(),
                sum == luhn_sum(s) - luhn_sum(s.subrange(i as int, n as int)),
            decreases n - i,
        {
            proof {
                assert(is_digit(s[i as int]));
                lemma_luhn_sum_step(s, i as int);
                lemma_all_digits_subrange(s, i as int + 1, n as int);
                lemma_luhn_sum_bounds(s.subrange(i as int + 1, n as int));
            }
            let d: u32 = card_number.get_char(i) as u32 - 48;
            let doubled = (n - i) % 2 == 0;
            let addend: u32 = if doubled {
                if d >= 5 {
                    2 * d - 9
                } else {
                    2 * d
                }
            } else {
                d
            };
            sum = sum + addend as u128;
            i += 1;
        }
        proof {
            assert(s.subrange(n as int, n as int) =~= Seq::<char>::empty());
        }
        sum
    }
}

/// A string containing a non-digit character fits no pattern: it is
/// classified `Other`, and its validation result is invalid.
pub proof fn lemma_non_digit_invalid(s: Seq<char>, r: Validate)
    requires
        !all_digits(s),
        validation_of(r, s),
    ensures
        r.card_type == Type::Other,
        !r.valid,
{
}

/// Validation is a pure function of the input: any two results computed
/// from the same string are identical.
pub proof fn lemma_validate_deterministic(s: Seq<char>, r1: Validate, r2: Validate)
    requires
        validation_of(r1, s),
        validation_of(r2, s),
    ensures
        r1 == r2,
{
}

} // verus!
