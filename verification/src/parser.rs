//! The parse/validate engine: a single-pass state machine over the input
//! bytes, specified end to end by [`spec_parse`].
//!
//! The states, in strict order, each a potential exit: strip whitespace;
//! check the two country-code bytes (upper-cased) are letters; check the two
//! check-digit bytes are digits; look the country up in the registry; walk
//! the remaining bytes against the flattened class list, upper-casing every
//! byte except at positions whose class accepts either case; check the total
//! length; verify the MOD-97-10 checksum.  The first failing state ends the
//! parse with exactly one error kind and no partial result.

use vstd::prelude::*;

use crate::character::{is_alnum, is_digit, is_space, is_upper, upper, CharacterType};
use crate::checksum::{calculate_checksum, spec_checksum};
use crate::countries::{lookup, spec_lookup};
use crate::registry::{flat, flatten, lemma_flat_len, wf_rule};
use crate::ParseError;

verus! {

/// The input with all ASCII whitespace removed.
pub open spec fn strip_ws(s: Seq<u8>) -> Seq<u8>
    decreases s.len(),
{
    if s.len() == 0 {
        Seq::empty()
    } else if is_space(s.last()) {
        strip_ws(s.drop_last())
    } else {
        strip_ws(s.drop_last()).push(s.last())
    }
}

/// The byte stored for position `i`: the original byte where the position's
/// class accepts either case, the upper-cased byte everywhere else.
pub open spec fn norm_at(t: Seq<u8>, classes: Seq<CharacterType>, i: int) -> u8 {
    if 4 <= i < classes.len() && classes[i] is C {
        t[i]
    } else {
        upper(t[i])
    }
}

/// The whole normalized IBAN string for the stripped input `t`.
pub open spec fn normalize(t: Seq<u8>, classes: Seq<CharacterType>) -> Seq<u8> {
    Seq::new(t.len(), |i: int| norm_at(t, classes, i))
}

/// Position `j` of the walk is clean: the byte is ASCII alphanumeric, a
/// class is expected at `j`, and the byte to be stored satisfies it.
pub open spec fn walk_ok_at(t: Seq<u8>, classes: Seq<CharacterType>, j: int) -> bool {
    is_alnum(t[j]) && j < classes.len() && classes[j].spec_contains(norm_at(t, classes, j))
}

/// Position `i` of a normalized IBAN string matches the class the registry
/// entry expects there.
pub open spec fn class_at_ok(rule: crate::registry::SpecRule, v: Seq<u8>, i: int) -> bool {
    flat(rule.segments)[i].spec_contains(v[i])
}

/// The first error of the BBAN walk from position `i` on, if any: a byte
/// outside ASCII alphanumeric, a position past the expected classes, or a
/// byte that violates its position's class.
pub open spec fn scan(t: Seq<u8>, classes: Seq<CharacterType>, i: int) -> Option<ParseError>
    decreases t.len() - i,
{
    if !(0 <= i < t.len()) {
        None
    } else if !is_alnum(t[i]) {
        Some(ParseError::InvalidCharacter)
    } else if i >= classes.len() {
        Some(ParseError::InvalidLength)
    } else if !classes[i].spec_contains(norm_at(t, classes, i)) {
        Some(ParseError::InvalidBban)
    } else {
        scan(t, classes, i + 1)
    }
}

/// What parsing an input byte string returns: the normalized IBAN bytes, or
/// the error of the first failing state.
pub open spec fn spec_parse(s: Seq<u8>) -> Result<Seq<u8>, ParseError> {
    let t = strip_ws(s);
    if t.len() < 2 || !is_upper(upper(t[0])) || !is_upper(upper(t[1])) {
        Err(ParseError::CountryCode)
    } else if t.len() < 4 || !is_digit(t[2]) || !is_digit(t[3]) {
        Err(ParseError::CheckDigit)
    } else {
        match spec_lookup(upper(t[0]), upper(t[1])) {
            None => Err(ParseError::UnknownCountry),
            Some(rule) => {
                let classes = flat(rule.segments);
                match scan(t, classes, 4) {
                    Some(e) => Err(e),
                    None => {
                        if t.len() != rule.expected_length {
                            Err(ParseError::InvalidLength)
                        } else {
                            let v = normalize(t, classes);
                            if spec_checksum(v) != 1 {
                                Err(ParseError::WrongChecksum)
                            } else {
                                Ok(v)
                            }
                        }
                    },
                }
            },
        }
    }
}

/// A structurally and numerically valid IBAN byte string: known country,
/// expected length, every position matching its class, checksum exactly 1.
pub open spec fn valid_iban(v: Seq<u8>) -> bool {
    &&& v.len() >= 4
    &&& is_upper(v[0]) && is_upper(v[1])
    &&& is_digit(v[2]) && is_digit(v[3])
    &&& spec_lookup(v[0], v[1]) matches Some(rule) && wf_rule(rule) && v.len()
        == rule.expected_length && (forall|i: int|
        4 <= i < v.len() ==> #[trigger] class_at_ok(rule, v, i))
    &&& spec_checksum(v) == 1
}

/// A clean walk leaves every position alphanumeric, inside the class list,
/// and matching its class.
proof fn lemma_scan_none(t: Seq<u8>, classes: Seq<CharacterType>, i: int)
    requires
        0 <= i,
        scan(t, classes, i) is None,
    ensures
        forall|j: int| i <= j < t.len() ==> #[trigger] walk_ok_at(t, classes, j),
    decreases t.len() - i,
{
    if 0 <= i < t.len() {
        assert(walk_ok_at(t, classes, i));
        lemma_scan_none(t, classes, i + 1);
    }
}

/// Conversely, a walk over positions that are all alphanumeric, covered and
/// class-matching finds no error.
pub proof fn lemma_scan_all_ok(t: Seq<u8>, classes: Seq<CharacterType>, i: int)
    requires
        forall|j: int| i <= j < t.len() ==> #[trigger] walk_ok_at(t, classes, j),
    ensures
        scan(t, classes, i) is None,
    decreases t.len() - i,
{
    if 0 <= i < t.len() {
        assert(walk_ok_at(t, classes, i));
        lemma_scan_all_ok(t, classes, i + 1);
    }
}

/// A valid IBAN string consists of ASCII bytes throughout: letters and
/// digits in the first four positions, class members after them.
pub proof fn lemma_valid_iban_ascii(v: Seq<u8>)
    requires
        valid_iban(v),
    ensures
        forall|i: int| 0 <= i < v.len() ==> v[i] < 128,
{
    let rule = spec_lookup(v[0], v[1])->Some_0;
    lemma_flat_len(rule.segments);
    assert forall|i: int| 0 <= i < v.len() implies v[i] < 128 by {
        if i >= 4 {
            assert(class_at_ok(rule, v, i));
            assert(flat(rule.segments)[i].is_grammar_class());
            crate::character::lemma_grammar_member_shape(flat(rule.segments)[i], v[i]);
        }
    }
}

/// Runs the whole state machine on the raw input bytes and returns the
/// normalized IBAN bytes, or the error of the first failing state.
#[verifier::loop_isolation(false)]
pub fn run(raw: &Vec<u8>) -> (r: Result<Vec<u8>, ParseError>)
    ensures
        ({
            let p = spec_parse(raw@);
            match r {
                Ok(v) => p == Ok::<Seq<u8>, ParseError>(v@) && valid_iban(v@),
                Err(e) => p == Err::<Seq<u8>, ParseError>(e),
            }
        }),
{
    // Strip all ASCII whitespace.
    let mut t: Vec<u8> = Vec::new();
    let mut i: usize = 0;
    proof {
        assert(raw@.take(0) =~= Seq::<u8>::empty());
        assert(strip_ws(raw@.take(0)) =~= Seq::<u8>::empty());
    }
    while i < raw.len()
        invariant
            i <= raw@.len(),
            t@ == strip_ws(raw@.take(i as int)),
        decreases raw@.len() - i,
    {
        proof {
            assert(raw@.take(i + 1).drop_last() =~= raw@.take(i as int));
            assert(raw@.take(i + 1).last() == raw@[i as int]);
        }
        if !crate::character::byte_is_space(raw[i]) {
            t.push(raw[i]);
        }
        i += 1;
        proof {
            assert(t@ =~= strip_ws(raw@.take(i as int)));
        }
    }
    proof {
        assert(raw@.take(raw@.len() as int) =~= raw@);
    }
    // Country code: two letters, stored upper case.
    if t.len() < 2 {
        return Err(ParseError::CountryCode);
    }
    let up0 = crate::character::byte_upper(t[0]);
    let up1 = crate::character::byte_upper(t[1]);
    if !crate::character::byte_is_upper(up0) || !crate::character::byte_is_upper(up1) {
        return Err(ParseError::CountryCode);
    }
    // Check digits: two ASCII digits.
    if t.len() < 4 {
        return Err(ParseError::CheckDigit);
    }
    if !crate::character::byte_is_digit(t[2]) || !crate::character::byte_is_digit(t[3]) {
        return Err(ParseError::CheckDigit);
    }
    // Registry lookup.
    let rule = match lookup(up0, up1) {
        None => {
            return Err(ParseError::UnknownCountry);
        },
        Some(rule) => rule,
    };
    let classes = flatten(&rule.segments);
    proof {
        lemma_flat_len(rule.segments@);
    }
    // BBAN walk: one byte at a time against the flattened class list.
    let mut v: Vec<u8> = Vec::new();
    v.push(up0);
    v.push(up1);
    v.push(t[2]);
    v.push(t[3]);
    let mut i: usize = 4;
    proof {
        assert(v@ =~= Seq::new(4, |k: int| norm_at(t@, classes@, k)));
    }
    while i < t.len()
        invariant
            4 <= i <= t@.len(),
            v@ == Seq::new(i as nat, |k: int| norm_at(t@, classes@, k)),
            scan(t@, classes@, 4) == scan(t@, classes@, i as int),
        decreases t@.len() - i,
    {
        let b = t[i];
        if !crate::character::byte_is_alnum(b) {
            return Err(ParseError::InvalidCharacter);
        }
        if i >= classes.len() {
            return Err(ParseError::InvalidLength);
        }
        let class = classes[i];
        let candidate = if matches!(class, CharacterType::C) {
            b
        } else {
            crate::character::byte_upper(b)
        };
        assert(candidate == norm_at(t@, classes@, i as int));
        if !class.contains(candidate) {
            return Err(ParseError::InvalidBban);
        }
        // The fixed accumulation buffer holds at most 34 bytes; here its
        // bound can never be hit first, since every registry length fits it.
        if v.len() >= 34 {
            return Err(ParseError::InvalidLength);
        }
        v.push(candidate);
        proof {
            assert(v@ =~= Seq::new((i + 1) as nat, |k: int| norm_at(t@, classes@, k)));
        }
        i += 1;
    }
    // Length: the class list must be exhausted exactly.
    if t.len() != rule.expected_length {
        return Err(ParseError::InvalidLength);
    }
    proof {
        assert(v@ =~= normalize(t@, classes@));
    }
    // Checksum.
    let ck = calculate_checksum(v.as_slice());
    if ck != 1 {
        return Err(ParseError::WrongChecksum);
    }
    proof {
        lemma_scan_none(t@, classes@, 4);
        assert(valid_iban(v@)) by {
            assert forall|j: int| 4 <= j < v@.len() implies #[trigger] class_at_ok(
                rule@,
                v@,
                j,
            ) by {
                assert(walk_ok_at(t@, classes@, j));
            }
        }
    }
    Ok(v)
}

} // verus!
