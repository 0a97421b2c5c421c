//! Random IBAN generation: filling the BBAN positions with random members
//! of their character classes and back-computing the check digits.  The
//! random source is supplied from outside; nothing here depends on which
//! values it yields.

use vstd::arithmetic::div_mod::lemma_fundamental_div_mod;
use vstd::prelude::*;
use vstd::string::StringSliceAdditionalSpecFns;

use crate::character::{is_upper, upper, CharacterType};
use crate::checksum::{calculate_checksum, lemma_check_digit_patch, spec_checksum};
use crate::countries::{lookup, spec_lookup};
use crate::parser::{class_at_ok, spec_parse, valid_iban};
use crate::registry::{flatten, lemma_flat_len};
use crate::{bytes_of, from_valid_bytes, Iban, ParseError};

verus! {

/// Relies on `rand::Rng::gen_range` over the inclusive range `lo..=hi`:
/// the sampled byte lies in the range.  The range must be non-empty, since
/// `gen_range` panics on an empty one.
#[verifier::external_body]
fn draw_in_range<R: ?Sized + rand::Rng>(rng: &mut R, lo: u8, hi: u8) -> (r: u8)
    requires
        lo <= hi,
    ensures
        lo <= r <= hi,
{
    rng.gen_range(lo..=hi)
}

/// Relies on `rand::Rng::gen_range` over the exclusive range `0..n`:
/// the sampled byte is below `n`.  The bound must be positive, since
/// `gen_range` panics on an empty range.
#[verifier::external_body]
fn draw_below<R: ?Sized + rand::Rng>(rng: &mut R, n: u8) -> (r: u8)
    requires
        n > 0,
    ensures
        r < n,
{
    rng.gen_range(0..n)
}

impl CharacterType {
    /// Returns a random member of the character class `self`.
    pub fn rand<R: ?Sized + rand::Rng>(self, rng: &mut R) -> (r: u8)
        ensures
            self.spec_contains(r),
    {
        match self {
            CharacterType::N => draw_in_range(rng, '0' as u8, '9' as u8),
            CharacterType::A => draw_in_range(rng, 'A' as u8, 'Z' as u8),
            CharacterType::C => {
                let r = draw_below(rng, 62);
                if r < 10 {
                    '0' as u8 + r
                } else if r < 36 {
                    'A' as u8 + r - 10
                } else {
                    'a' as u8 + r - 36
                }
            },
            CharacterType::I => {
                let r = draw_below(rng, 36);
                if r < 10 {
                    '0' as u8 + r
                } else {
                    'A' as u8 + r - 10
                }
            },
            CharacterType::S(expected) => expected,
        }
    }
}

impl Iban {
    /// Generates a random IBAN for the given `country_code` using `rng`.
    ///
    /// The two-letter code is upper-cased and looked up; every BBAN position
    /// is filled with a random member of its character class; the check
    /// digits are then back-computed as 98 minus the checksum of the string
    /// with `00` in their place, which makes the finished checksum exactly
    /// 1.  Whatever bytes the random source yields, a generated IBAN is
    /// valid and parses back to an equal value; the errors depend only on
    /// the country code given.
    #[verifier::loop_isolation(false)]
    pub fn rand<R: ?Sized + rand::Rng>(country_code: &str, rng: &mut R) -> (r: Result<
        Iban,
        ParseError,
    >)
        ensures
            ({
                let c = country_code.spec_bytes();
                if !(c.len() >= 2 && is_upper(upper(c[0])) && is_upper(upper(c[1]))) {
                    r == Err::<Iban, ParseError>(ParseError::CountryCode)
                } else if c.len() != 2 {
                    r == Err::<Iban, ParseError>(ParseError::UnknownCountry)
                } else {
                    match spec_lookup(upper(c[0]), upper(c[1])) {
                        None => r == Err::<Iban, ParseError>(ParseError::UnknownCountry),
                        Some(rule) => r matches Ok(iban) && iban@.len() == rule.expected_length
                            && iban@[0] == upper(c[0]) as char && iban@[1] == upper(c[1]) as char
                            && vstd::utf8::is_ascii_chars(iban@) && valid_iban(bytes_of(iban@))
                            && spec_parse(bytes_of(iban@)) == Ok::<Seq<u8>, ParseError>(
                            bytes_of(iban@),
                        ) && ({
                            // The check digits are exactly the two zero-padded
                            // decimal digits of 98 minus the checksum of the
                            // same string with `00` in their place.
                            let b = bytes_of(iban@);
                            let cd = 98 - spec_checksum(
                                b.update(2, '0' as u8).update(3, '0' as u8),
                            );
                            b[2] == '0' as u8 + cd / 10 && b[3] == '0' as u8 + cd % 10
                        }),
                    }
                }
            }),
    {
        let c = country_code.as_bytes_vec();
        if c.len() == 0 {
            return Err(ParseError::CountryCode);
        }
        let up0 = crate::character::byte_upper(c[0]);
        if !crate::character::byte_is_upper(up0) {
            return Err(ParseError::CountryCode);
        }
        if c.len() < 2 {
            return Err(ParseError::CountryCode);
        }
        let up1 = crate::character::byte_upper(c[1]);
        if !crate::character::byte_is_upper(up1) {
            return Err(ParseError::CountryCode);
        }
        if c.len() != 2 {
            return Err(ParseError::UnknownCountry);
        }
        let rule = match lookup(up0, up1) {
            None => {
                return Err(ParseError::UnknownCountry);
            },
            Some(rule) => rule,
        };
        let classes = flatten(&rule.segments);
        proof {
            lemma_flat_len(rule.segments@);
        }
        // The country code, `00` in the check-digit positions, and a random
        // member of its class at every BBAN position.
        let mut v: Vec<u8> = Vec::new();
        v.push(up0);
        v.push(up1);
        v.push('0' as u8);
        v.push('0' as u8);
        let mut i: usize = 4;
        while i < rule.expected_length
            invariant
                4 <= i <= rule@.expected_length,
                v@.len() == i,
                v@[0] == up0 && v@[1] == up1,
                v@[2] == '0' as u8 && v@[3] == '0' as u8,
                forall|j: int| 4 <= j < i ==> (#[trigger] classes@[j]).spec_contains(v@[j]),
            decreases rule@.expected_length - i,
        {
            let ch = classes[i].rand(rng);
            v.push(ch);
            i += 1;
        }
        // Back-compute the check digits.
        let ck = calculate_checksum(v.as_slice());
        let ghost w = v@;
        let cd: u32 = 98 - ck;
        let d1 = '0' as u8 + (cd / 10) as u8;
        let d2 = '0' as u8 + (cd % 10) as u8;
        v.set(2, d1);
        v.set(3, d2);
        proof {
            lemma_fundamental_div_mod(cd as int, 10);
            assert(v@ =~= w.update(2, d1).update(3, d2));
            lemma_check_digit_patch(w, d1, d2);
            assert(valid_iban(v@)) by {
                assert forall|j: int| 4 <= j < v@.len() implies #[trigger] class_at_ok(
                    rule@,
                    v@,
                    j,
                ) by {
                    assert(classes@[j].spec_contains(v@[j]));
                }
            }
            crate::laws::lemma_parse_valid_identity(v@);
            crate::parser::lemma_valid_iban_ascii(v@);
        }
        let ghost finished = v@;
        let iban = from_valid_bytes(v);
        proof {
            crate::lemma_ascii_round_trip(finished);
            assert(bytes_of(iban@) =~= finished);
            assert(finished.update(2, '0' as u8).update(3, '0' as u8) =~= w);
        }
        Ok(iban)
    }
}

} // verus!
