//! Byte classification: the character classes that may appear at a position
//! of an IBAN, and the ASCII predicates the rest of the crate is built on.

use vstd::prelude::*;

verus! {

/// The class of bytes accepted at one position of an IBAN.
#[derive(Clone, Copy, Debug, PartialEq, Eq, Structural)]
pub enum CharacterType {
    /// ASCII digits `0-9` only.
    N,
    /// Upper case ASCII letters `A-Z` only.
    A,
    /// Digits and ASCII letters of either case.
    C,
    /// Digits and upper case ASCII letters only (strict casing).
    I,
    /// Exactly this byte; used for the two country-code positions.
    S(u8),
}

/// `b` is an ASCII decimal digit.
pub open spec fn is_digit(b: u8) -> bool {
    '0' as u8 <= b && b <= '9' as u8
}

/// `b` is an upper case ASCII letter.
pub open spec fn is_upper(b: u8) -> bool {
    'A' as u8 <= b && b <= 'Z' as u8
}

/// `b` is a lower case ASCII letter.
pub open spec fn is_lower(b: u8) -> bool {
    'a' as u8 <= b && b <= 'z' as u8
}

/// `b` is an ASCII letter or digit.
pub open spec fn is_alnum(b: u8) -> bool {
    is_digit(b) || is_upper(b) || is_lower(b)
}

/// `b` is ASCII whitespace: space, tab, line feed, form feed or carriage return.
pub open spec fn is_space(b: u8) -> bool {
    b == ' ' as u8 || b == '\u{9}' as u8 || b == '\u{a}' as u8 || b == 12 || b == '\u{d}' as u8
}

/// The upper case form of `b`: lower case letters are mapped to their upper
/// case counterpart, every other byte is unchanged.
pub open spec fn upper(b: u8) -> u8 {
    if is_lower(b) {
        (b - 32) as u8
    } else {
        b
    }
}

impl CharacterType {
    /// Membership of `ch` in the class `self`.
    pub open spec fn spec_contains(self, ch: u8) -> bool {
        match self {
            CharacterType::N => is_digit(ch),
            CharacterType::A => is_upper(ch),
            CharacterType::C => is_alnum(ch),
            CharacterType::I => is_upper(ch) || is_digit(ch),
            CharacterType::S(expected) => ch == expected,
        }
    }

    /// Returns true if `ch` is a member of the character class `self`.
    #[verifier::when_used_as_spec(spec_contains)]
    pub fn contains(self, ch: u8) -> (r: bool)
        ensures
            r == self.spec_contains(ch),
    {
        match self {
            CharacterType::N => '0' as u8 <= ch && ch <= '9' as u8,
            CharacterType::A => 'A' as u8 <= ch && ch <= 'Z' as u8,
            CharacterType::C => ('0' as u8 <= ch && ch <= '9' as u8) || ('A' as u8 <= ch && ch <= 'Z' as u8) || (
            'a' as u8 <= ch && ch <= 'z' as u8),
            CharacterType::I => ('A' as u8 <= ch && ch <= 'Z' as u8) || ('0' as u8 <= ch && ch <= '9' as u8),
            CharacterType::S(expected) => ch == expected,
        }
    }

    /// The class is one of the four grammar classes, not a country-code literal.
    pub open spec fn is_grammar_class(self) -> bool {
        !(self is S)
    }
}

/// Exec counterpart of [`is_digit`].
#[verifier::when_used_as_spec(is_digit)]
pub fn byte_is_digit(b: u8) -> (r: bool)
    ensures
        r == is_digit(b),
{
    '0' as u8 <= b && b <= '9' as u8
}

/// Exec counterpart of [`is_upper`].
#[verifier::when_used_as_spec(is_upper)]
pub fn byte_is_upper(b: u8) -> (r: bool)
    ensures
        r == is_upper(b),
{
    'A' as u8 <= b && b <= 'Z' as u8
}

/// Exec counterpart of [`is_alnum`].
#[verifier::when_used_as_spec(is_alnum)]
pub fn byte_is_alnum(b: u8) -> (r: bool)
    ensures
        r == is_alnum(b),
{
    ('0' as u8 <= b && b <= '9' as u8) || ('A' as u8 <= b && b <= 'Z' as u8) || ('a' as u8 <= b && b <= 'z' as u8)
}

/// Exec counterpart of [`is_space`].
#[verifier::when_used_as_spec(is_space)]
pub fn byte_is_space(b: u8) -> (r: bool)
    ensures
        r == is_space(b),
{
    b == ' ' as u8 || b == '\u{9}' as u8 || b == '\u{a}' as u8 || b == 12 || b == '\u{d}' as u8
}

/// Exec counterpart of [`upper`].
#[verifier::when_used_as_spec(upper)]
pub fn byte_upper(b: u8) -> (r: u8)
    ensures
        r == upper(b),
{
    if 'a' as u8 <= b && b <= 'z' as u8 {
        b - 32
    } else {
        b
    }
}

/// A byte that is a member of a grammar class is alphanumeric, and a member
/// of a class other than `C` is already in its upper case form.
pub proof fn lemma_grammar_member_shape(class: CharacterType, b: u8)
    requires
        class.is_grammar_class(),
        class.spec_contains(b),
    ensures
        is_alnum(b),
        !(class is C) ==> upper(b) == b,
        !is_space(b),
{
}

} // verus!
