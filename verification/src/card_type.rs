//! Card network types: content patterns, length rules and display names.
//!
//! Each recognized network has a content pattern over the whole input
//! (anchored at both ends) and a rule for how many digits a number of
//! that network may have. Classification tries the recognized networks
//! in a fixed priority order and falls back to `Other`.

use vstd::prelude::*;
use vstd::string::StrSliceExecFns;
use vstd::string::StringExecFns;

verus! {

/// A card network, or `Other` for input that fits no recognized pattern.
///
/// `Other` still has a length rule, but it is never a valid network:
/// a number classified as `Other` fails validation regardless of its
/// length or checksum.
#[derive(Clone, Copy, Debug, PartialEq, Eq, Structural)]
pub enum Type {
    Visa,
    Discover,
    Amex,
    MasterCard,
    Other,
}

/// A decimal digit character.
pub open spec fn is_digit(c: char) -> bool {
    '0' as u32 <= c as u32 && c as u32 <= '9' as u32
}

/// Every character of `s` is a decimal digit.
pub open spec fn all_digits(s: Seq<char>) -> bool {
    forall|i: int| 0 <= i < s.len() ==> is_digit(s[i])
}

/// Visa's content pattern: one or more `4`s, then one or more digits.
/// Equivalently: at least two characters, the first a `4`, all digits.
pub open spec fn matches_visa(s: Seq<char>) -> bool {
    s.len() >= 2 && s[0] == '4' && all_digits(s)
}

/// Discover's content pattern: one or more characters from {6, 0, 1},
/// then one or more digits. Equivalently: at least two characters, the
/// first a `6`, `0` or `1`, all digits. (The class is deliberately this
/// loose, not a `6011` prefix.)
pub open spec fn matches_discover(s: Seq<char>) -> bool {
    s.len() >= 2 && (s[0] == '6' || s[0] == '0' || s[0] == '1') && all_digits(s)
}

/// Amex's content pattern: one or more characters from {3, 7}, then one
/// or more digits. Equivalently: at least two characters, the first a
/// `3` or `7`, all digits.
pub open spec fn matches_amex(s: Seq<char>) -> bool {
    s.len() >= 2 && (s[0] == '3' || s[0] == '7') && all_digits(s)
}

/// MasterCard's content pattern: one or more `5`s, then one or more
/// characters from `1`..=`5`, then one or more digits. Equivalently: at
/// least three characters, the first a `5`, the second in `1`..=`5`,
/// all digits (a `5` in second place may close the leading run or open
/// the middle one).
pub open spec fn matches_mastercard(s: Seq<char>) -> bool {
    s.len() >= 3 && s[0] == '5' && '1' as u32 <= s[1] as u32 && s[1] as u32 <= '5' as u32
        && all_digits(s)
}

/// The fallback pattern: any non-empty all-digit string.
pub open spec fn matches_other(s: Seq<char>) -> bool {
    s.len() >= 1 && all_digits(s)
}

/// The content pattern of each network.
pub open spec fn matches_pattern(t: Type, s: Seq<char>) -> bool {
    match t {
        Type::Visa => matches_visa(s),
        Type::Discover => matches_discover(s),
        Type::Amex => matches_amex(s),
        Type::MasterCard => matches_mastercard(s),
        Type::Other => matches_other(s),
    }
}

/// Classification: the first recognized network whose pattern matches,
/// tried in the fixed order Visa, Discover, Amex, MasterCard; `Other`
/// when none matches.
pub open spec fn classify(s: Seq<char>) -> Type {
    if matches_visa(s) {
        Type::Visa
    } else if matches_discover(s) {
        Type::Discover
    } else if matches_amex(s) {
        Type::Amex
    } else if matches_mastercard(s) {
        Type::MasterCard
    } else {
        Type::Other
    }
}

/// The length rule of each network, over the character count: an exact
/// match for the recognized networks, the range 12..=19 for `Other`.
pub open spec fn length_rule(t: Type, n: nat) -> bool {
    match t {
        Type::Visa => n == 13 || n == 16,
        Type::Discover => n == 16,
        Type::Amex => n == 15,
        Type::MasterCard => n == 16,
        Type::Other => 12 <= n && n <= 19,
    }
}

/// A string satisfies a network's length rule when it is all digits and
/// its character count fits the rule; a non-digit character fails the
/// rule outright.
pub open spec fn length_ok(t: Type, s: Seq<char>) -> bool {
    all_digits(s) && length_rule(t, s.len())
}

/// A recognized network: every variant but `Other`.
pub open spec fn recognized(t: Type) -> bool {
    !(t is Other)
}

/// Whether every character of `s` is a decimal digit.
pub(crate) fn digits_only(s: &str) -> (r: bool)
    ensures
        r == all_digits(s@),
{
    let n = s.unicode_len();
    let mut i: usize = 0;
    while i < n
        invariant
            n == s@.len(),
            i <= n,
            forall|j: int| 0 <= j < i ==> is_digit(s@[j]),
        decreases n - i,
    {
        let u = s.get_char(i) as u32;
        if u < 48 || u > 57 {
            return false;
        }
        i += 1;
    }
    true
}

impl Type {
    /// The network's display name, as a sequence of characters.
    pub open spec fn spec_name(self) -> Seq<char> {
        match self {
            Type::Visa => "visa"@,
            Type::Discover => "discover"@,
            Type::Amex => "amex"@,
            Type::MasterCard => "mastercard"@,
            Type::Other => "other"@,
        }
    }

    /// The network's human-readable name.
    pub fn name(&self) -> (r: String)
        ensures
            r@ == self.spec_name(),
    {
        match *self {
            Type::Visa => String::from_str("visa"),
            Type::Discover => String::from_str("discover"),
            Type::Amex => String::from_str("amex"),
            Type::MasterCard => String::from_str("mastercard"),
            Type::Other => String::from_str("other"),
        }
    }

    /// Whether this is a recognized network; `Other` never is.
    pub fn valid(&self) -> (r: bool)
        ensures
            r == recognized(*self),
    {
        match *self {
            Type::Other => false,
            _ => true,
        }
    }

    /// Whether `card_number` matches this network's content pattern,
    /// anchored over the whole input.
    pub fn pattern(&self, card_number: &str) -> (r: bool)
        ensures
            r == matches_pattern(*self, card_number@),
    {
        let n = card_number.unicode_len();
        match *self {
            Type::Visa => n >= 2 && card_number.get_char(0) == '4' && digits_only(card_number),
            Type::Discover => {
                if n < 2 {
                    return false;
                }
                let c = card_number.get_char(0);
                (c == '6' || c == '0' || c == '1') && digits_only(card_number)
            },
            Type::Amex => {
                if n < 2 {
                    return false;
                }
                let c = card_number.get_char(0);
                (c == '3' || c == '7') && digits_only(card_number)
            },
            Type::MasterCard => {
                if n < 3 {
                    return false;
                }
                if card_number.get_char(0) != '5' {
                    return false;
                }
                let u = card_number.get_char(1) as u32;
                49 <= u && u <= 53 && digits_only(card_number)
            },
            Type::Other => n >= 1 && digits_only(card_number),
        }
    }

    /// Whether `card_number` satisfies this network's length rule; a
    /// non-digit character fails the rule outright.
    pub fn length(&self, card_number: &str) -> (r: bool)
        ensures
            r == length_ok(*self, card_number@),
    {
        if !digits_only(card_number) {
            return false;
        }
        let n = card_number.unicode_len();
        match *self {
            Type::Visa => n == 13 || n == 16,
            Type::Discover => n == 16,
            Type::Amex => n == 15,
            Type::MasterCard => n == 16,
            Type::Other => 12 <= n && n <= 19,
        }
    }

    /// The recognized networks, in the priority order classification
    /// tries them.
    pub(crate) fn all() -> (r: Vec<Type>)
        ensures
            r@ =~= seq![Type::Visa, Type::Discover, Type::Amex, Type::MasterCard],
    {
        let mut v: Vec<Type> = Vec::new();
        v.push(Type::Visa);
        v.push(Type::Discover);
        v.push(Type::Amex);
        v.push(Type::MasterCard);
        v
    }
}

/// The four recognized patterns are mutually exclusive (their leading
/// characters differ), so a string matching one of them is classified
/// as exactly that network, never as `Other`; and `Other` comes up
/// precisely when no recognized pattern matches.
pub proof fn lemma_classify_matches(s: Seq<char>)
    ensures
        matches_visa(s) ==> classify(s) == Type::Visa,
        matches_discover(s) ==> classify(s) == Type::Discover,
        matches_amex(s) ==> classify(s) == Type::Amex,
        matches_mastercard(s) ==> classify(s) == Type::MasterCard,
        (classify(s) == Type::Other) <==> !(matches_visa(s) || matches_discover(s)
            || matches_amex(s) || matches_mastercard(s)),
{
}

} // verus!
