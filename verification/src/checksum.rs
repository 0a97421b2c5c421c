//! The ISO 7064 MOD-97-10 checksum engine.
//!
//! The IBAN is logically rotated so that the BBAN comes first, followed by
//! the country code and the check digits.  Every digit stands for itself and
//! every letter for its alphabet position plus ten, each contributing one or
//! two decimal digits to one conceptually unbounded decimal number; the
//! checksum is that number modulo 97.  The executable engine never builds the
//! big number: it folds the digit stream into an accumulator that is reduced
//! modulo 97 whenever it grows past 9,999,999, which leaves the residue
//! unchanged.

use vstd::arithmetic::div_mod::{
    lemma_add_mod_noop, lemma_fundamental_div_mod, lemma_mod_bound, lemma_mod_multiples_vanish,
    lemma_mod_twice, lemma_mul_mod_noop_left,
};
use vstd::prelude::*;

use crate::character::{is_alnum, is_digit, upper};
use crate::util::{digits, spec_digits};

verus! {

/// The numeric value a byte contributes to the checksum: digits map to
/// themselves, letters of either case map to 10 through 35.
pub open spec fn char_value(b: u8) -> u8
    recommends
        is_alnum(b),
{
    if is_digit(b) {
        (b - '0' as u8) as u8
    } else {
        ((upper(b) - 'A' as u8) + 10) as u8
    }
}

/// The decimal digits contributed by one byte: one digit for a digit byte,
/// two for a letter, none for anything else.
pub open spec fn byte_digits(b: u8) -> Seq<u8> {
    if is_alnum(b) {
        spec_digits(char_value(b))
    } else {
        Seq::empty()
    }
}

/// The whole decimal digit stream contributed by a byte sequence.
pub open spec fn digit_stream(s: Seq<u8>) -> Seq<u8>
    decreases s.len(),
{
    if s.len() == 0 {
        Seq::empty()
    } else {
        digit_stream(s.drop_last()) + byte_digits(s.last())
    }
}

/// The value of a digit sequence read as one decimal number.
pub open spec fn horner(ds: Seq<u8>) -> int
    decreases ds.len(),
{
    if ds.len() == 0 {
        0
    } else {
        horner(ds.drop_last()) * 10 + ds.last()
    }
}

/// The checksum's processing order: the bytes from offset 4 first, then the
/// country code and check digits.
pub open spec fn rearranged(s: Seq<u8>) -> Seq<u8>
    recommends
        s.len() >= 4,
{
    s.subrange(4, s.len() as int) + s.subrange(0, 4)
}

/// The MOD-97-10 checksum of a full IBAN byte string.
pub open spec fn spec_checksum(s: Seq<u8>) -> int
    recommends
        s.len() >= 4,
{
    horner(digit_stream(rearranged(s))) % 97
}

/// The digit stream of a concatenation is the concatenation of the streams.
proof fn lemma_digit_stream_add(x: Seq<u8>, y: Seq<u8>)
    ensures
        digit_stream(x + y) == digit_stream(x) + digit_stream(y),
    decreases y.len(),
{
    if y.len() == 0 {
        assert(x + y =~= x);
        assert(digit_stream(x) + digit_stream(y) =~= digit_stream(x));
    } else {
        lemma_digit_stream_add(x, y.drop_last());
        assert((x + y).drop_last() =~= x + y.drop_last());
        assert((x + y).last() == y.last());
        assert(digit_stream(x) + digit_stream(y.drop_last()) + byte_digits(y.last())
            =~= digit_stream(x) + digit_stream(y));
    }
}

/// Replacing the leading part of a digit stream by anything congruent to it
/// modulo 97 leaves the folded value congruent modulo 97.
proof fn lemma_horner_step_mod(a: int, b: int, d: u8)
    requires
        a % 97 == b % 97,
    ensures
        (a * 10 + d) % 97 == (b * 10 + d) % 97,
{
    lemma_mul_mod_noop_left(a, 10, 97);
    lemma_mul_mod_noop_left(b, 10, 97);
    lemma_add_mod_noop(a * 10, d as int, 97);
    lemma_add_mod_noop(b * 10, d as int, 97);
}

/// Appending one digit to a digit sequence multiplies its value by ten and
/// adds the digit.
proof fn lemma_horner_push(ds: Seq<u8>, d: u8)
    ensures
        horner(ds.push(d)) == horner(ds) * 10 + d,
{
    assert(ds.push(d).drop_last() =~= ds);
    assert(ds.push(d).last() == d);
}

/// The checksum's big number splits at the two check-digit positions: the
/// digits of all other positions first, the check-digit pair as the two
/// least significant decimal digits.
proof fn lemma_checksum_split(s: Seq<u8>)
    requires
        s.len() >= 4,
        is_digit(s[2]),
        is_digit(s[3]),
    ensures
        horner(digit_stream(rearranged(s))) == horner(
            digit_stream(s.subrange(4, s.len() as int) + s.subrange(0, 2)),
        ) * 100 + 10 * (s[2] - '0' as u8) + (s[3] - '0' as u8),
{
    let prefix = s.subrange(4, s.len() as int) + s.subrange(0, 2);
    let pair = seq![s[2], s[3]];
    assert(rearranged(s) =~= prefix + pair);
    lemma_digit_stream_add(prefix, pair);
    let d1 = (s[2] - '0' as u8) as u8;
    let d2 = (s[3] - '0' as u8) as u8;
    assert(digit_stream(pair) =~= seq![d1, d2]) by {
        assert(pair.drop_last() =~= seq![s[2]]);
        assert(seq![s[2]].drop_last() =~= Seq::<u8>::empty());
        assert(digit_stream(Seq::<u8>::empty()) =~= Seq::<u8>::empty());
        assert(byte_digits(s[2]) =~= seq![d1]);
        assert(byte_digits(s[3]) =~= seq![d2]);
        assert(digit_stream(seq![s[2]]) =~= seq![d1]);
    }
    let stream = digit_stream(prefix);
    assert(stream + seq![d1, d2] =~= stream.push(d1).push(d2));
    lemma_horner_push(stream, d1);
    lemma_horner_push(stream.push(d1), d2);
}

/// Setting the check-digit positions of an IBAN string that carries `00`
/// there to the two digits of 98 minus its checksum makes the checksum
/// exactly 1; this is how check digits are generated.
pub proof fn lemma_check_digit_patch(w: Seq<u8>, d1: u8, d2: u8)
    requires
        w.len() >= 4,
        w[2] == '0' as u8,
        w[3] == '0' as u8,
        is_digit(d1),
        is_digit(d2),
        10 * (d1 - '0' as u8) + (d2 - '0' as u8) == 98 - spec_checksum(w),
    ensures
        spec_checksum(w.update(2, d1).update(3, d2)) == 1,
{
    let v = w.update(2, d1).update(3, d2);
    lemma_checksum_split(w);
    lemma_checksum_split(v);
    assert(v.subrange(4, v.len() as int) =~= w.subrange(4, w.len() as int));
    assert(v.subrange(0, 2) =~= w.subrange(0, 2));
    let x = horner(digit_stream(w.subrange(4, w.len() as int) + w.subrange(0, 2))) * 100;
    assert(horner(digit_stream(rearranged(w))) == x);
    lemma_mod_bound(x, 97);
    assert(spec_checksum(w) == x % 97);
    lemma_fundamental_div_mod(x, 97);
    let q = x / 97;
    assert(horner(digit_stream(rearranged(v))) == x + (98 - x % 97));
    assert(x + (98 - x % 97) == 97 * q + 98);
    lemma_mod_multiples_vanish(q, 98, 97);
    assert((97 * q + 98) % 97 == 98int % 97);
}

/// Folds the decimal digits of the bytes `iban[from..to]` into `acc`,
/// reducing modulo 97 whenever the accumulator grows past 9,999,999.
fn fold_range(iban: &[u8], from: usize, to: usize, acc: u32, Ghost(prefix): Ghost<Seq<u8>>) -> (r:
    u32)
    requires
        from <= to <= iban@.len(),
        acc <= 9_999_999,
        acc as int % 97 == horner(digit_stream(prefix)) % 97,
    ensures
        r <= 9_999_999,
        r as int % 97 == horner(digit_stream(prefix + iban@.subrange(from as int, to as int)))
            % 97,
{
    let mut acc = acc;
    let mut i = from;
    proof {
        assert(prefix + iban@.subrange(from as int, from as int) =~= prefix);
    }
    while i < to
        invariant
            from <= i <= to <= iban@.len(),
            acc <= 9_999_999,
            acc as int % 97 == horner(digit_stream(prefix + iban@.subrange(from as int, i as int)))
                % 97,
        decreases to - i,
    {
        let b = iban[i];
        let ghost done = prefix + iban@.subrange(from as int, i as int);
        let ghost done_next = prefix + iban@.subrange(from as int, i + 1 as int);
        proof {
            assert(done_next =~= done.push(b));
            assert(done.push(b).drop_last() =~= done);
            assert(digit_stream(done_next) == digit_stream(done) + byte_digits(b));
        }
        let up = crate::character::byte_upper(b);
        if crate::character::byte_is_alnum(up) {
            let v = if crate::character::byte_is_digit(up) {
                up - '0' as u8
            } else {
                (up - 'A' as u8) + 10
            };
            assert(v == char_value(b));
            let ds = digits(v);
            let ghost stream0 = digit_stream(done);
            let mut k: usize = 0;
            proof {
                assert(stream0 + ds@.subrange(0, 0) =~= stream0);
            }
            while k < ds.len()
                invariant
                    k <= ds@.len(),
                    acc <= 9_999_999,
                    forall|j: int| 0 <= j < ds@.len() ==> ds@[j] <= 9,
                    acc as int % 97 == horner(stream0 + ds@.subrange(0, k as int)) % 97,
                decreases ds@.len() - k,
            {
                let d = ds[k];
                let next = acc * 10 + d as u32;
                proof {
                    assert(stream0 + ds@.subrange(0, k + 1) =~= (stream0 + ds@.subrange(
                        0,
                        k as int,
                    )).push(d));
                    lemma_horner_push(stream0 + ds@.subrange(0, k as int), d);
                    lemma_horner_step_mod(
                        horner(stream0 + ds@.subrange(0, k as int)),
                        acc as int,
                        d,
                    );
                    if next > 9_999_999 {
                        lemma_mod_twice((acc as int) * 10 + d, 97);
                    }
                }
                if next > 9_999_999 {
                    acc = next % 97;
                } else {
                    acc = next;
                }
                k += 1;
            }
            proof {
                assert(ds@.subrange(0, ds@.len() as int) =~= ds@);
                assert(byte_digits(b) == ds@);
                assert(stream0 + ds@ == digit_stream(done_next));
            }
        } else {
            proof {
                assert(byte_digits(b) =~= Seq::<u8>::empty());
                assert(digit_stream(done) + byte_digits(b) =~= digit_stream(done));
            }
        }
        i += 1;
    }
    proof {
        assert(prefix + iban@.subrange(from as int, to as int) == prefix + iban@.subrange(
            from as int,
            i as int,
        ));
    }
    acc
}

/// Calculates the MOD-97-10 checksum of an IBAN byte string.
///
/// The bytes from offset 4 are processed first, then the country code and
/// check digits; digits count as themselves and letters of either case as 10
/// through 35; bytes that are not ASCII alphanumeric are ignored.  The result
/// is the conceptual decimal number modulo 97; a valid IBAN yields exactly 1.
///
/// This same function serves check-digit generation: with the two check-digit
/// positions set to `00`, the correct check digits are 98 minus the result.
pub fn calculate_checksum(iban: &[u8]) -> (r: u32)
    requires
        iban@.len() >= 4,
    ensures
        r as int == spec_checksum(iban@),
        r < 97,
{
    proof {
        assert(Seq::<u8>::empty() + iban@.subrange(4, iban@.len() as int) =~= iban@.subrange(
            4,
            iban@.len() as int,
        ));
        assert(digit_stream(Seq::<u8>::empty()) =~= Seq::<u8>::empty());
    }
    let tail = fold_range(iban, 4, iban.len(), 0, Ghost(Seq::empty()));
    let head = fold_range(iban, 0, 4, tail, Ghost(iban@.subrange(4, iban@.len() as int)));
    proof {
        lemma_mod_twice(horner(digit_stream(rearranged(iban@))), 97);
    }
    head % 97
}

} // verus!
