//! Validation and decomposition of International Bank Account Numbers.
//!
//! An input string is checked against a per-country registry entry — the
//! expected length, the positional character-class grammar of the BBAN, and
//! the byte offsets of named sub-fields — and against the ISO 7064 MOD-97-10
//! checksum.  A value of the [`Iban`] type can only be produced by this
//! validation (or by the checked generator), so every `Iban` is structurally
//! and numerically valid by construction.

pub mod character;
pub mod checksum;
pub mod countries;
pub mod laws;
pub mod parser;
pub mod random;
pub mod registry;
pub mod util;

pub use character::CharacterType;
pub use checksum::calculate_checksum;
pub use util::digits;

use vstd::prelude::*;
use vstd::string::StringSliceAdditionalSpecFns;

use crate::parser::{spec_parse, valid_iban};
use crate::util::{spaced_chars, spaced_string};

verus! {

/// An error that can occur when parsing an IBAN string; the first failing
/// state of the parser determines which.
#[derive(Copy, Clone, Debug, Eq, PartialEq, Hash, Structural)]
pub enum ParseError {
    /// The country code of the IBAN is not composed of two ASCII letters.
    CountryCode,
    /// The check digits of the IBAN are not ASCII digits.
    CheckDigit,
    /// The IBAN contains a non-ASCII-alphanumeric character.
    InvalidCharacter,
    /// The country of this IBAN has no registry entry.
    UnknownCountry,
    /// The length of the IBAN does not match the expected length for the
    /// country, or overruns the fixed buffer.
    InvalidLength,
    /// The format of the BBAN does not match the expected format for the
    /// country.
    InvalidBban,
    /// The calculated checksum of the IBAN is not 1.
    WrongChecksum,
}

impl ParseError {
    /// A short human-readable description of the error: exactly one fixed
    /// string per error kind.
    pub fn message(self) -> (r: &'static str)
        ensures
            ({
                match self {
                    ParseError::CountryCode => r@ == "invalid country code"@,
                    ParseError::CheckDigit => r@ == "invalid check digit"@,
                    ParseError::InvalidCharacter => r@ == "invalid character"@,
                    ParseError::UnknownCountry => r@ == "unknown country"@,
                    ParseError::InvalidLength => r@ == "invalid length"@,
                    ParseError::InvalidBban => r@ == "invalid bban"@,
                    ParseError::WrongChecksum => r@ == "checksum validation failed"@,
                }
            }),
    {
        match self {
            ParseError::CountryCode => "invalid country code",
            ParseError::CheckDigit => "invalid check digit",
            ParseError::InvalidCharacter => "invalid character",
            ParseError::UnknownCountry => "unknown country",
            ParseError::InvalidLength => "invalid length",
            ParseError::InvalidBban => "invalid bban",
            ParseError::WrongChecksum => "checksum validation failed",
        }
    }
}

/// The bytes spelled by a character sequence; faithful on ASCII text.
pub open spec fn bytes_of(cs: Seq<char>) -> Seq<u8> {
    Seq::new(cs.len(), |i: int| cs[i] as u8)
}

/// The characters spelled by a byte sequence; faithful on ASCII text.
pub open spec fn chars_of(bs: Seq<u8>) -> Seq<char> {
    Seq::new(bs.len(), |i: int| bs[i] as char)
}

/// Relies on `String::from_utf8`: bytes below 128 decode to the string of
/// exactly the characters with the same code points.
#[verifier::external_body]
fn ascii_string(bytes: Vec<u8>) -> (r: String)
    requires
        forall|i: int| 0 <= i < bytes@.len() ==> bytes@[i] < 128,
    ensures
        r@ == chars_of(bytes@),
{
    String::from_utf8(bytes).unwrap_or_default()
}

/// ASCII bytes survive the round trip through their characters.
pub proof fn lemma_ascii_round_trip(bs: Seq<u8>)
    requires
        forall|i: int| 0 <= i < bs.len() ==> bs[i] < 128,
    ensures
        bytes_of(chars_of(bs)) =~= bs,
        vstd::utf8::is_ascii_chars(chars_of(bs)),
{
}

/// Wraps validated IBAN bytes into an [`Iban`]; the library's only way of
/// making one, shared by the parser and the generator.
pub(crate) fn from_valid_bytes(bytes: Vec<u8>) -> (r: Iban)
    requires
        valid_iban(bytes@),
    ensures
        r@ == chars_of(bytes@),
{
    proof {
        crate::parser::lemma_valid_iban_ascii(bytes@);
        lemma_ascii_round_trip(bytes@);
    }
    let text = ascii_string(bytes);
    Iban { text }
}

/// Represents an IBAN.
///
/// A value of this type holds the electronic form of an International Bank
/// Account Number that passed the full validation: the expected length for
/// its country, the country's BBAN format, and the MOD-97-10 checksum.  It
/// can only be obtained from [`Iban::parse`] or [`Iban::rand`]; there is no
/// way to construct one that bypasses validation.
#[derive(Debug, Hash)]
pub struct Iban {
    text: String,
}

/// Represents the Basic Bank Account Number (BBAN) portion of an IBAN.
///
/// A `Bban` borrows its validity from the [`Iban`] that produced it (see
/// [`Iban::bban`]); it gives access to the bank identifier, branch
/// identifier and national checksum sub-fields, where the country's registry
/// entry defines them.
#[derive(Debug, Hash)]
pub struct Bban {
    text: String,
}

impl View for Iban {
    type V = Seq<char>;

    /// The characters of the electronic form.
    closed spec fn view(&self) -> Seq<char> {
        self.text@
    }
}

impl View for Bban {
    type V = Seq<char>;

    /// The characters of the electronic form of the whole owning IBAN.
    closed spec fn view(&self) -> Seq<char> {
        self.text@
    }
}

impl Iban {
    /// Every value of this type is ASCII text that is a valid IBAN.
    #[verifier::type_invariant]
    spec fn wf(self) -> bool {
        &&& vstd::utf8::is_ascii_chars(self.text@)
        &&& valid_iban(bytes_of(self.text@))
    }

    /// Parses a string as an IBAN.
    ///
    /// Whitespace anywhere in the input is ignored and letters are accepted
    /// in either case; the result is the normalized electronic form.  The
    /// returned error names the first state of the validation that failed,
    /// exactly as [`spec_parse`] lays it down.
    pub fn parse(s: &str) -> (r: Result<Iban, ParseError>)
        ensures
            ({
                let p = spec_parse(s.spec_bytes());
                match r {
                    Ok(iban) => p matches Ok(v) && iban@ == chars_of(v) && valid_iban(
                        bytes_of(iban@),
                    ) && vstd::utf8::is_ascii_chars(iban@),
                    Err(e) => p == Err::<Seq<u8>, ParseError>(e),
                }
            }),
    {
        let raw = s.as_bytes_vec();
        match crate::parser::run(&raw) {
            Ok(v) => {
                proof {
                    crate::parser::lemma_valid_iban_ascii(v@);
                    lemma_ascii_round_trip(v@);
                }
                Ok(from_valid_bytes(v))
            },
            Err(e) => Err(e),
        }
    }

    /// Gets the country code of the IBAN: its first two characters.
    #[must_use]
    pub fn country_code(&self) -> (r: &str)
        ensures
            r@ == self@.subrange(0, 2),
    {
        proof {
            use_type_invariant(self);
        }
        self.text.as_str().substring_ascii(0, 2)
    }

    /// Gets the check digits of the IBAN: the two characters following the
    /// country code.
    #[must_use]
    pub fn check_digits(&self) -> (r: &str)
        ensures
            r@ == self@.subrange(2, 4),
    {
        proof {
            use_type_invariant(self);
        }
        self.text.as_str().substring_ascii(2, 4)
    }

    /// Gets the BBAN portion of the IBAN.
    #[must_use]
    pub fn bban(&self) -> (r: Bban)
        ensures
            r@ == self@,
    {
        proof {
            use_type_invariant(self);
        }
        Bban { text: self.text.clone() }
    }

    /// Gets the IBAN as a string slice, in electronic format.
    #[must_use]
    pub fn as_str(&self) -> (r: &str)
        ensures
            r@ == self@,
    {
        self.text.as_str()
    }

    /// The spaced display form: chunks of four characters separated by
    /// single spaces, the last chunk possibly shorter, no trailing space.
    #[must_use]
    pub fn formatted(&self) -> (r: String)
        ensures
            r@ == spaced_chars(self@),
    {
        spaced_string(self.text.as_str())
    }
}

impl Bban {
    /// Every value of this type is the ASCII text of a valid whole IBAN.
    #[verifier::type_invariant]
    spec fn wf(self) -> bool {
        &&& vstd::utf8::is_ascii_chars(self.text@)
        &&& valid_iban(bytes_of(self.text@))
    }

    /// Gets the bank identifier of the BBAN, if the country defines one.
    ///
    /// The returned slice is the range of the owning IBAN that the registry
    /// entry marks as the bank identifier.
    #[must_use]
    pub fn bank_identifier(&self) -> (r: Option<&str>)
        ensures
            ({
                let b = bytes_of(self@);
                match crate::countries::spec_lookup(b[0], b[1]) {
                    None => r is None,
                    Some(rule) => match rule.bank_offset {
                        None => r is None,
                        Some((start, end)) => r matches Some(part) && part@ == self@.subrange(
                            start as int,
                            end as int,
                        ),
                    },
                }
            }),
    {
        proof {
            use_type_invariant(self);
        }
        let c0 = self.text.as_str().get_ascii(0);
        let c1 = self.text.as_str().get_ascii(1);
        match crate::countries::lookup(c0, c1) {
            None => None,
            Some(rule) => match rule.bank_offset {
                None => None,
                Some((start, end)) => Some(self.text.as_str().substring_ascii(start, end)),
            },
        }
    }

    /// Gets the branch identifier of the BBAN, if the country defines one.
    ///
    /// The returned slice is the range of the owning IBAN that the registry
    /// entry marks as the branch identifier.
    #[must_use]
    pub fn branch_identifier(&self) -> (r: Option<&str>)
        ensures
            ({
                let b = bytes_of(self@);
                match crate::countries::spec_lookup(b[0], b[1]) {
                    None => r is None,
                    Some(rule) => match rule.branch_offset {
                        None => r is None,
                        Some((start, end)) => r matches Some(part) && part@ == self@.subrange(
                            start as int,
                            end as int,
                        ),
                    },
                }
            }),
    {
        proof {
            use_type_invariant(self);
        }
        let c0 = self.text.as_str().get_ascii(0);
        let c1 = self.text.as_str().get_ascii(1);
        match crate::countries::lookup(c0, c1) {
            None => None,
            Some(rule) => match rule.branch_offset {
                None => None,
                Some((start, end)) => Some(self.text.as_str().substring_ascii(start, end)),
            },
        }
    }

    /// Gets the national checksum of the BBAN, if the country defines one.
    ///
    /// The returned slice is the range of the owning IBAN that the registry
    /// entry marks as the national checksum.
    #[must_use]
    pub fn checksum(&self) -> (r: Option<&str>)
        ensures
            ({
                let b = bytes_of(self@);
                match crate::countries::spec_lookup(b[0], b[1]) {
                    None => r is None,
                    Some(rule) => match rule.checksum_offset {
                        None => r is None,
                        Some((start, end)) => r matches Some(part) && part@ == self@.subrange(
                            start as int,
                            end as int,
                        ),
                    },
                }
            }),
    {
        proof {
            use_type_invariant(self);
        }
        let c0 = self.text.as_str().get_ascii(0);
        let c1 = self.text.as_str().get_ascii(1);
        match crate::countries::lookup(c0, c1) {
            None => None,
            Some(rule) => match rule.checksum_offset {
                None => None,
                Some((start, end)) => Some(self.text.as_str().substring_ascii(start, end)),
            },
        }
    }

    /// Gets the BBAN as a string slice: the owning IBAN's characters from
    /// offset four on, in electronic format.
    #[must_use]
    pub fn as_str(&self) -> (r: &str)
        ensures
            r@ == self@.subrange(4, self@.len() as int),
    {
        proof {
            use_type_invariant(self);
        }
        let n = self.text.as_str().unicode_len();
        self.text.as_str().substring_ascii(4, n)
    }

    /// The spaced display form of the BBAN: chunks of four characters
    /// separated by single spaces, no trailing space.
    #[must_use]
    pub fn formatted(&self) -> (r: String)
        ensures
            r@ == spaced_chars(self@.subrange(4, self@.len() as int)),
    {
        proof {
            use_type_invariant(self);
        }
        let n = self.text.as_str().unicode_len();
        let tail = self.text.as_str().substring_ascii(4, n);
        spaced_string(tail)
    }
}

impl PartialEq for Iban {
    /// Two `Iban` values are equal when their electronic forms are.
    fn eq(&self, other: &Iban) -> (r: bool) {
        self.text == other.text
    }
}

impl vstd::std_specs::cmp::PartialEqSpecImpl for Iban {
    open spec fn obeys_eq_spec() -> bool {
        true
    }

    open spec fn eq_spec(&self, other: &Iban) -> bool {
        self@ == other@
    }
}

impl Eq for Iban {}

impl Clone for Iban {
    /// The clone has the same electronic form.
    fn clone(&self) -> (r: Iban)
        ensures
            r@ == self@,
    {
        proof {
            use_type_invariant(self);
        }
        Iban { text: self.text.clone() }
    }
}

impl PartialEq for Bban {
    /// Two `Bban` values are equal when their owning IBANs are.
    fn eq(&self, other: &Bban) -> (r: bool) {
        self.text == other.text
    }
}

impl vstd::std_specs::cmp::PartialEqSpecImpl for Bban {
    open spec fn obeys_eq_spec() -> bool {
        true
    }

    open spec fn eq_spec(&self, other: &Bban) -> bool {
        self@ == other@
    }
}

impl Eq for Bban {}

impl Clone for Bban {
    /// The clone views the same owning IBAN.
    fn clone(&self) -> (r: Bban)
        ensures
            r@ == self@,
    {
        proof {
            use_type_invariant(self);
        }
        Bban { text: self.text.clone() }
    }
}

impl core::str::FromStr for Iban {
    type Err = ParseError;

    /// Parses a string as an IBAN; see [`Iban::parse`].
    fn from_str(s: &str) -> Result<Iban, ParseError> {
        Iban::parse(s)
    }
}

} // verus!
