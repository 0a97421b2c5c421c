//! The country-format registry model and the grammar compiler.
//!
//! Each country's entry carries the expected total IBAN length, an ordered
//! list of `(repeat count, CharacterType)` segments describing the whole
//! IBAN (the two country-code bytes as literal segments of length one,
//! followed by the segments compiled from the SWIFT format string, whose
//! first token covers the two check digits), and optional half-open byte
//! ranges locating the bank identifier, branch identifier and national
//! checksum inside the full IBAN string (offset 0 is the country code's
//! first byte).
//!
//! The compiler translates a SWIFT-style format string — tokens of the
//! fixed-repeat form `<digits>!<letter>` with letters `n`, `a`, `c`, `i` in
//! either case — into such an entry.  A malformed format string, a length
//! sum that does not match the expected length, or an out-of-range field
//! offset yields no entry at all: the registry is never partially built.
//! The variable-maximum-length token form without `!` is deliberately not
//! supported and is rejected the same way.

use vstd::prelude::*;
use vstd::string::StringSliceAdditionalSpecFns;

use crate::character::{is_digit, is_upper, upper, CharacterType};

verus! {

/// One compiled registry entry for a country.
pub struct CountryRule {
    /// The expected total length of the IBAN, country code included.
    pub expected_length: usize,
    /// Ordered `(repeat count, class)` segments covering the whole IBAN.
    pub segments: Vec<(usize, CharacterType)>,
    /// Where the bank identifier lies in the full IBAN string, if anywhere.
    pub bank_offset: Option<(usize, usize)>,
    /// Where the branch identifier lies in the full IBAN string, if anywhere.
    pub branch_offset: Option<(usize, usize)>,
    /// Where the national checksum lies in the full IBAN string, if anywhere.
    pub checksum_offset: Option<(usize, usize)>,
}

/// The mathematical value of a registry entry.
#[verifier::ext_equal]
pub ghost struct SpecRule {
    /// The expected total length of the IBAN.
    pub expected_length: usize,
    /// Ordered `(repeat count, class)` segments covering the whole IBAN.
    pub segments: Seq<(usize, CharacterType)>,
    /// The bank identifier's range in the full IBAN string.
    pub bank_offset: Option<(usize, usize)>,
    /// The branch identifier's range in the full IBAN string.
    pub branch_offset: Option<(usize, usize)>,
    /// The national checksum's range in the full IBAN string.
    pub checksum_offset: Option<(usize, usize)>,
}

impl View for CountryRule {
    type V = SpecRule;

    open spec fn view(&self) -> SpecRule {
        SpecRule {
            expected_length: self.expected_length,
            segments: self.segments@,
            bank_offset: self.bank_offset,
            branch_offset: self.branch_offset,
            checksum_offset: self.checksum_offset,
        }
    }
}

/// The sum of the repeat counts of a segment list.
pub open spec fn seg_sum(segs: Seq<(usize, CharacterType)>) -> int
    decreases segs.len(),
{
    if segs.len() == 0 {
        0
    } else {
        seg_sum(segs.drop_last()) + segs.last().0
    }
}

/// The segment list flattened into one class per IBAN position.
pub open spec fn flat(segs: Seq<(usize, CharacterType)>) -> Seq<CharacterType>
    decreases segs.len(),
{
    if segs.len() == 0 {
        Seq::empty()
    } else {
        flat(segs.drop_last()) + Seq::new(segs.last().0 as nat, |k: int| segs.last().1)
    }
}

/// The flattened list has one entry per counted position.
pub proof fn lemma_flat_len(segs: Seq<(usize, CharacterType)>)
    ensures
        flat(segs).len() == seg_sum(segs),
    decreases segs.len(),
{
    if segs.len() > 0 {
        lemma_flat_len(segs.drop_last());
    }
}

/// A field offset is sound for an entry of length `len`: it lies inside the
/// BBAN part of the IBAN string.
pub open spec fn offset_ok(o: Option<(usize, usize)>, len: usize) -> bool {
    match o {
        None => true,
        Some((start, end)) => 4 <= start && start <= end && end <= len,
    }
}

/// A well-formed registry entry: the repeat counts sum to the expected
/// length, the length fits the fixed 34-byte buffer and leaves room for the
/// country code and check digits, every field offset lies inside the string,
/// and every position from 2 on is a grammar class rather than a literal.
pub open spec fn wf_rule(r: SpecRule) -> bool {
    &&& seg_sum(r.segments) == r.expected_length
    &&& 4 <= r.expected_length <= 34
    &&& offset_ok(r.bank_offset, r.expected_length)
    &&& offset_ok(r.branch_offset, r.expected_length)
    &&& offset_ok(r.checksum_offset, r.expected_length)
    &&& forall|k: int|
        2 <= k < flat(r.segments).len() ==> (#[trigger] flat(r.segments)[k]).is_grammar_class()
}

/// How many consecutive ASCII digits stand at position `i` of `f`.
pub open spec fn count_len(f: Seq<u8>, i: int) -> nat
    decreases f.len() - i,
{
    if 0 <= i < f.len() && is_digit(f[i]) {
        1 + count_len(f, i + 1)
    } else {
        0
    }
}

/// The decimal value of the digit run at position `i`, folded onto `acc`;
/// `None` once the value passes 34, the largest repeat count that can fit
/// the fixed buffer.
pub open spec fn count_value(f: Seq<u8>, i: int, acc: int) -> Option<int>
    decreases f.len() - i,
{
    if 0 <= i < f.len() && is_digit(f[i]) {
        let acc2 = acc * 10 + (f[i] - '0' as u8);
        if acc2 > 34 {
            None
        } else {
            count_value(f, i + 1, acc2)
        }
    } else {
        Some(acc)
    }
}

/// The grammar class named by a format letter, in either case.
pub open spec fn class_of_letter(b: u8) -> Option<CharacterType> {
    if upper(b) == 'N' as u8 {
        Some(CharacterType::N)
    } else if upper(b) == 'A' as u8 {
        Some(CharacterType::A)
    } else if upper(b) == 'C' as u8 {
        Some(CharacterType::C)
    } else if upper(b) == 'I' as u8 {
        Some(CharacterType::I)
    } else {
        None
    }
}

/// One `<digits>!<letter>` token at position `i`: its repeat count, its
/// class, and the position just past it.
pub open spec fn spec_token(f: Seq<u8>, i: int) -> Option<(int, CharacterType, int)> {
    if !(0 <= i < f.len() && is_digit(f[i])) {
        None
    } else {
        let j = i + count_len(f, i);
        match count_value(f, i, 0) {
            None => None,
            Some(count) => {
                if j + 1 < f.len() && f[j] == '!' as u8 {
                    match class_of_letter(f[j + 1]) {
                        None => None,
                        Some(class) => Some((count, class, j + 2)),
                    }
                } else {
                    None
                }
            },
        }
    }
}

/// The token segments from position `i` to the end of the format string;
/// `None` if anything from `i` on is not a well-formed token.
pub open spec fn spec_tokens(f: Seq<u8>, i: int) -> Option<Seq<(usize, CharacterType)>>
    decreases f.len() - i,
{
    if i < 0 {
        None
    } else if i >= f.len() {
        Some(Seq::empty())
    } else {
        match spec_token(f, i) {
            None => None,
            Some((count, class, next)) => if next <= f.len() {
                match spec_tokens(f, next) {
                    None => None,
                    Some(rest) => Some(seq![(count as usize, class)] + rest),
                }
            } else {
                None
            },
        }
    }
}

/// The entry compiled from a full format string (country code first, then
/// the tokens), the expected length, and the three field offsets; `None` if
/// the format is malformed or inconsistent with the length or the offsets.
pub open spec fn spec_compile(
    f: Seq<u8>,
    expected_length: usize,
    bank_offset: Option<(usize, usize)>,
    branch_offset: Option<(usize, usize)>,
    checksum_offset: Option<(usize, usize)>,
) -> Option<SpecRule> {
    if f.len() < 2 || !is_upper(f[0]) || !is_upper(f[1]) {
        None
    } else {
        match spec_tokens(f, 2) {
            None => None,
            Some(tokens) => {
                let rule = SpecRule {
                    expected_length,
                    segments: seq![
                        (1usize, CharacterType::S(f[0])),
                        (1usize, CharacterType::S(f[1])),
                    ] + tokens,
                    bank_offset,
                    branch_offset,
                    checksum_offset,
                };
                if wf_rule(rule) {
                    Some(rule)
                } else {
                    None
                }
            },
        }
    }
}

/// Every class in a token list is a grammar class.
proof fn lemma_tokens_grammar(f: Seq<u8>, i: int)
    ensures
        spec_tokens(f, i) matches Some(tokens) ==> forall|k: int|
            0 <= k < tokens.len() ==> (#[trigger] tokens[k]).1.is_grammar_class(),
    decreases f.len() - i,
{
    if 0 <= i < f.len() {
        if let Some((count, class, next)) = spec_token(f, i) {
            if next <= f.len() {
                lemma_tokens_grammar(f, next);
            }
        }
    }
}

/// Flattening distributes over concatenation of segment lists.
proof fn lemma_flat_add(x: Seq<(usize, CharacterType)>, y: Seq<(usize, CharacterType)>)
    ensures
        flat(x + y) == flat(x) + flat(y),
    decreases y.len(),
{
    if y.len() == 0 {
        assert(x + y =~= x);
        assert(flat(x) + flat(y) =~= flat(x));
    } else {
        lemma_flat_add(x, y.drop_last());
        assert((x + y).drop_last() =~= x + y.drop_last());
        assert(flat(x) + flat(y.drop_last()) + Seq::new(
            y.last().0 as nat,
            |k: int| y.last().1,
        ) =~= flat(x) + flat(y));
    }
}

/// If every segment class is a grammar class, so is every flattened class.
proof fn lemma_flat_grammar(segs: Seq<(usize, CharacterType)>)
    requires
        forall|k: int| 0 <= k < segs.len() ==> (#[trigger] segs[k]).1.is_grammar_class(),
    ensures
        forall|k: int| 0 <= k < flat(segs).len() ==> (#[trigger] flat(segs)[k]).is_grammar_class(),
    decreases segs.len(),
{
    if segs.len() > 0 {
        lemma_flat_grammar(segs.drop_last());
        lemma_flat_len(segs.drop_last());
        assert(forall|k: int|
            0 <= k < flat(segs).len() ==> flat(segs)[k] == if k < flat(segs.drop_last()).len() {
                flat(segs.drop_last())[k]
            } else {
                segs.last().1
            });
    }
}

/// Wraps an option so a failed step propagates and a parsed prefix is kept.
spec fn prepend_tokens(
    prefix: Seq<(usize, CharacterType)>,
    rest: Option<Seq<(usize, CharacterType)>>,
) -> Option<Seq<(usize, CharacterType)>> {
    match rest {
        None => None,
        Some(r) => Some(prefix + r),
    }
}

/// Expands a segment list into one class per IBAN position.
#[verifier::loop_isolation(false)]
pub fn flatten(segs: &Vec<(usize, CharacterType)>) -> (r: Vec<CharacterType>)
    ensures
        r@ == flat(segs@),
{
    let mut r: Vec<CharacterType> = Vec::new();
    let mut i: usize = 0;
    proof {
        assert(segs@.take(0) =~= Seq::<(usize, CharacterType)>::empty());
        assert(r@ =~= flat(segs@.take(0)));
    }
    while i < segs.len()
        invariant
            i <= segs@.len(),
            r@ == flat(segs@.take(i as int)),
        decreases segs@.len() - i,
    {
        let (count, class) = segs[i];
        let mut k: usize = 0;
        proof {
            assert(r@ =~= flat(segs@.take(i as int)) + Seq::new(0, |j: int| class));
        }
        while k < count
            invariant
                k <= count,
                r@ == flat(segs@.take(i as int)) + Seq::new(k as nat, |j: int| class),
            decreases count - k,
        {
            r.push(class);
            k += 1;
            proof {
                assert(r@ =~= flat(segs@.take(i as int)) + Seq::new(k as nat, |j: int| class));
            }
        }
        proof {
            assert(segs@.take(i + 1).drop_last() =~= segs@.take(i as int));
            assert(segs@.take(i + 1).last() == (count, class));
            assert(r@ =~= flat(segs@.take(i + 1)));
        }
        i += 1;
    }
    proof {
        assert(segs@.take(segs@.len() as int) =~= segs@);
    }
    r
}

/// Checks a field offset against the entry length.
fn offset_within(o: Option<(usize, usize)>, len: usize) -> (r: bool)
    ensures
        r == offset_ok(o, len),
{
    match o {
        None => true,
        Some((start, end)) => 4 <= start && start <= end && end <= len,
    }
}

/// Compiles one registry row: the SWIFT format string for a whole IBAN
/// (e.g. `GB2!n4!a6!n8!n`), the expected total length, and the three field
/// offsets.  Returns `None`, leaving the entry out of the registry, if the
/// row is malformed in any way.
#[verifier::loop_isolation(false)]
pub fn compile(
    format: &str,
    expected_length: usize,
    bank_offset: Option<(usize, usize)>,
    branch_offset: Option<(usize, usize)>,
    checksum_offset: Option<(usize, usize)>,
) -> (r: Option<CountryRule>)
    ensures
        ({
            let s = spec_compile(
                format.spec_bytes(),
                expected_length,
                bank_offset,
                branch_offset,
                checksum_offset,
            );
            match r {
                Some(rule) => s == Some(rule@),
                None => s is None,
            }
        }),
        r matches Some(rule) ==> wf_rule(rule@),
{
    let f = format.as_bytes_vec();
    let n = f.len();
    if n < 2 || !crate::character::byte_is_upper(f[0]) || !crate::character::byte_is_upper(f[1]) {
        return None;
    }
    let mut segments: Vec<(usize, CharacterType)> = Vec::new();
    segments.push((1, CharacterType::S(f[0])));
    segments.push((1, CharacterType::S(f[1])));
    let ghost head = segments@;
    let mut sum: usize = 2;
    let mut i: usize = 2;
    proof {
        assert(segments@.skip(2) =~= Seq::<(usize, CharacterType)>::empty());
        assert(head + segments@.skip(2) =~= segments@);
        assert(seg_sum(segments@) == 2) by {
            assert(segments@.drop_last() =~= seq![(1usize, CharacterType::S(f@[0]))]);
            assert(seq![(1usize, CharacterType::S(f@[0]))].drop_last() =~= Seq::<(
                usize,
                CharacterType,
            )>::empty());
            assert(seg_sum(Seq::<(usize, CharacterType)>::empty()) == 0);
            assert(seg_sum(seq![(1usize, CharacterType::S(f@[0]))]) == 1);
        }
    }
    while i < n
        invariant
            2 <= i <= n,
            n == f@.len(),
            sum == seg_sum(segments@),
            sum <= 34,
            segments@.len() >= 2,
            head == seq![(1usize, CharacterType::S(f@[0])), (1usize, CharacterType::S(f@[1]))],
            segments@ == head + segments@.skip(2),
            spec_tokens(f@, 2) == prepend_tokens(segments@.skip(2), spec_tokens(f@, i as int)),
            forall|k: int|
                0 <= k < segments@.skip(2).len() ==> (#[trigger] segments@.skip(
                    2,
                )[k]).1.is_grammar_class(),
        decreases n - i,
    {
        let ghost i0 = i as int;
        let ghost toks0 = segments@.skip(2);
        if !crate::character::byte_is_digit(f[i]) {
            proof {
                assert(spec_token(f@, i0) is None);
                assert(spec_tokens(f@, i0) is None);
            }
            return None;
        }
        // Read the decimal repeat count.
        let mut count: usize = 0;
        while i < n && crate::character::byte_is_digit(f[i])
            invariant
                i0 <= i <= n,
                n == f@.len(),
                count <= 34,
                count_len(f@, i0) == (i - i0) + count_len(f@, i as int),
                count_value(f@, i0, 0) == count_value(f@, i as int, count as int),
            decreases n - i,
        {
            let next = count * 10 + (f[i] - '0' as u8) as usize;
            if next > 34 {
                proof {
                    assert(count_value(f@, i as int, count as int) is None);
                    assert(count_value(f@, i0, 0) is None);
                    assert(spec_token(f@, i0) is None);
                    assert(spec_tokens(f@, i0) is None);
                }
                return None;
            }
            count = next;
            i += 1;
        }
        proof {
            assert(count_len(f@, i as int) == 0);
            assert(count_len(f@, i0) == i - i0);
            assert(count_value(f@, i as int, count as int) == Some(count as int));
        }
        // The fixed-length marker and the class letter.
        if n - i < 2 {
            proof {
                assert(spec_token(f@, i0) is None);
                assert(spec_tokens(f@, i0) is None);
            }
            return None;
        }
        if f[i] != '!' as u8 {
            proof {
                assert(spec_token(f@, i0) is None);
                assert(spec_tokens(f@, i0) is None);
            }
            return None;
        }
        let letter = crate::character::byte_upper(f[i + 1]);
        let class = if letter == 'N' as u8 {
            CharacterType::N
        } else if letter == 'A' as u8 {
            CharacterType::A
        } else if letter == 'C' as u8 {
            CharacterType::C
        } else if letter == 'I' as u8 {
            CharacterType::I
        } else {
            proof {
                assert(spec_token(f@, i0) is None);
                assert(spec_tokens(f@, i0) is None);
            }
            return None;
        };
        proof {
            assert(class_of_letter(f@[i0 + count_len(f@, i0) + 1]) == Some(class));
            assert(spec_token(f@, i0) == Some((count as int, class, i as int + 2)));
        }
        i += 2;
        if sum + count > 34 {
            // The repeat counts can no longer sum to a length that fits the
            // fixed buffer, so the compiled entry is refused either way: the
            // well-formedness gate of `spec_compile` cannot pass.
            proof {
                assert(spec_tokens(f@, i0) == prepend_tokens(
                    seq![(count as usize, class)],
                    spec_tokens(f@, i as int),
                ));
                if let Some(all) = spec_tokens(f@, 2) {
                    let rest = spec_tokens(f@, i as int)->Some_0;
                    assert(all == toks0 + (seq![(count as usize, class)] + rest));
                    lemma_seg_sum_add(toks0, seq![(count as usize, class)] + rest);
                    lemma_seg_sum_add(seq![(count as usize, class)], rest);
                    lemma_seg_sum_nonneg(rest);
                    assert(seg_sum(seq![(count as usize, class)]) == count) by {
                        assert(seq![(count as usize, class)].drop_last() =~= Seq::<(
                            usize,
                            CharacterType,
                        )>::empty());
                        assert(seg_sum(Seq::<(usize, CharacterType)>::empty()) == 0);
                    }
                    lemma_seg_sum_add(head, toks0);
                    assert(seg_sum(toks0) == sum - 2);
                    assert(seg_sum(all) >= sum - 2 + count);
                    let full = seq![
                        (1usize, CharacterType::S(f@[0])),
                        (1usize, CharacterType::S(f@[1])),
                    ] + all;
                    lemma_seg_sum_add(
                        seq![(1usize, CharacterType::S(f@[0])), (1usize, CharacterType::S(f@[1]))],
                        all,
                    );
                    assert(seg_sum(full) > 34);
                }
            }
            return None;
        }
        sum = sum + count;
        segments.push((count, class));
        proof {
            assert(segments@.drop_last() =~= head + toks0);
            assert(segments@.skip(2) =~= toks0.push((count, class)));
            assert(segments@ =~= head + segments@.skip(2));
            assert(seg_sum(segments@) == sum);
            assert(spec_tokens(f@, i0) == prepend_tokens(
                seq![(count as usize, class)],
                spec_tokens(f@, i as int),
            ));
            assert(spec_tokens(f@, 2) == prepend_tokens(toks0, spec_tokens(f@, i0)));
            if let Some(rest) = spec_tokens(f@, i as int) {
                assert(toks0 + (seq![(count as usize, class)] + rest) =~= segments@.skip(2)
                    + rest);
            }
        }
    }
    proof {
        assert(spec_tokens(f@, i as int) == Some(Seq::<(usize, CharacterType)>::empty()));
        assert(segments@.skip(2) + Seq::<(usize, CharacterType)>::empty() =~= segments@.skip(2));
        assert(spec_tokens(f@, 2) == Some(segments@.skip(2)));
        assert(seq![(1usize, CharacterType::S(f@[0])), (1usize, CharacterType::S(f@[1]))]
            + segments@.skip(2) =~= segments@);
    }
    if sum != expected_length || expected_length < 4 {
        return None;
    }
    if !offset_within(bank_offset, expected_length) || !offset_within(branch_offset, expected_length)
        || !offset_within(checksum_offset, expected_length) {
        return None;
    }
    let rule = CountryRule {
        expected_length,
        segments,
        bank_offset,
        branch_offset,
        checksum_offset,
    };
    proof {
        lemma_tokens_grammar(f@, 2);
        lemma_flat_add(head, rule.segments@.skip(2));
        lemma_flat_grammar(rule.segments@.skip(2));
        lemma_flat_len(head);
        assert(flat(head) =~= seq![
            CharacterType::S(f@[0]),
            CharacterType::S(f@[1]),
        ]) by {
            assert(head.drop_last() =~= seq![(1usize, CharacterType::S(f@[0]))]);
            assert(seq![(1usize, CharacterType::S(f@[0]))].drop_last() =~= Seq::<(
                usize,
                CharacterType,
            )>::empty());
            assert(flat(Seq::<(usize, CharacterType)>::empty()) =~= Seq::<CharacterType>::empty());
            assert(flat(seq![(1usize, CharacterType::S(f@[0]))]) =~= seq![CharacterType::S(f@[0])]);
        }
        assert(wf_rule(rule@));
        assert(spec_compile(
            f@,
            expected_length,
            bank_offset,
            branch_offset,
            checksum_offset,
        ) == Some(rule@)) by {
            assert(head + rule.segments@.skip(2) =~= rule.segments@);
        }
    }
    Some(rule)
}

/// Segment sums add up over concatenation.
proof fn lemma_seg_sum_add(x: Seq<(usize, CharacterType)>, y: Seq<(usize, CharacterType)>)
    ensures
        seg_sum(x + y) == seg_sum(x) + seg_sum(y),
    decreases y.len(),
{
    if y.len() == 0 {
        assert(x + y =~= x);
    } else {
        lemma_seg_sum_add(x, y.drop_last());
        assert((x + y).drop_last() =~= x + y.drop_last());
    }
}

/// A segment sum is never negative.
proof fn lemma_seg_sum_nonneg(segs: Seq<(usize, CharacterType)>)
    ensures
        seg_sum(segs) >= 0,
    decreases segs.len(),
{
    if segs.len() > 0 {
        lemma_seg_sum_nonneg(segs.drop_last());
    }
}

} // verus!
