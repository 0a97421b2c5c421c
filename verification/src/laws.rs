//! Laws that hold of every value the library produces, stated and proved
//! once: the checksum of every `Iban`, and the round trips between parsing,
//! the spaced display form, and the generator.

use vstd::prelude::*;

use crate::character::{is_alnum, is_space, lemma_grammar_member_shape, upper, CharacterType};
use crate::checksum::spec_checksum;
use crate::countries::spec_lookup;
use crate::parser::{
    class_at_ok, lemma_scan_all_ok, norm_at, normalize, spec_parse, strip_ws, valid_iban,
    walk_ok_at,
};
use crate::registry::{flat, lemma_flat_len};
use crate::util::{lemma_spaced_chars_bytes, spaced, spaced_chars};
use crate::{bytes_of, ParseError};

verus! {

/// Every byte of a valid IBAN is alphanumeric, hence not whitespace.
proof fn lemma_valid_iban_clean(v: Seq<u8>)
    requires
        valid_iban(v),
    ensures
        forall|i: int| 0 <= i < v.len() ==> is_alnum(v[i]) && !is_space(v[i]),
{
    let rule = spec_lookup(v[0], v[1])->Some_0;
    lemma_flat_len(rule.segments);
    assert forall|i: int| 0 <= i < v.len() implies is_alnum(v[i]) && !is_space(v[i]) by {
        if i >= 4 {
            assert(class_at_ok(rule, v, i));
            assert(flat(rule.segments)[i].is_grammar_class());
            lemma_grammar_member_shape(flat(rule.segments)[i], v[i]);
        }
    }
}

/// Stripping whitespace from a string that has none leaves it unchanged.
proof fn lemma_strip_ws_id(s: Seq<u8>)
    requires
        forall|i: int| 0 <= i < s.len() ==> !is_space(s[i]),
    ensures
        strip_ws(s) == s,
    decreases s.len(),
{
    if s.len() > 0 {
        lemma_strip_ws_id(s.drop_last());
        assert(strip_ws(s) =~= s);
    }
}

/// Stripping whitespace distributes over concatenation.
proof fn lemma_strip_ws_add(x: Seq<u8>, y: Seq<u8>)
    ensures
        strip_ws(x + y) == strip_ws(x) + strip_ws(y),
    decreases y.len(),
{
    if y.len() == 0 {
        assert(x + y =~= x);
        assert(strip_ws(x) + strip_ws(y) =~= strip_ws(x));
    } else {
        lemma_strip_ws_add(x, y.drop_last());
        assert((x + y).drop_last() =~= x + y.drop_last());
        assert((x + y).last() == y.last());
        if is_space(y.last()) {
            assert(strip_ws(x + y) =~= strip_ws(x) + strip_ws(y));
        } else {
            assert(strip_ws(x) + strip_ws(y.drop_last()).push(y.last()) =~= strip_ws(x)
                + strip_ws(y));
        }
    }
}

/// Stripping whitespace out of the spaced display form of a whitespace-free
/// string recovers the string itself.
proof fn lemma_strip_spaced(v: Seq<u8>)
    requires
        forall|i: int| 0 <= i < v.len() ==> !is_space(v[i]),
    ensures
        strip_ws(spaced(v)) == v,
    decreases v.len(),
{
    if v.len() <= 4 {
        lemma_strip_ws_id(v);
    } else {
        let head = v.subrange(0, 4);
        let tail = v.subrange(4, v.len() as int);
        lemma_strip_spaced(tail);
        lemma_strip_ws_id(head);
        lemma_strip_ws_add(head + seq![' ' as u8], spaced(tail));
        lemma_strip_ws_add(head, seq![' ' as u8]);
        assert(strip_ws(seq![' ' as u8]) =~= Seq::<u8>::empty()) by {
            assert(seq![' ' as u8].drop_last() =~= Seq::<u8>::empty());
            assert(seq![' ' as u8].last() == ' ' as u8);
            assert(is_space(' ' as u8));
            assert(strip_ws(Seq::<u8>::empty()) =~= Seq::<u8>::empty());
        }
        assert(strip_ws(spaced(v)) =~= v);
    }
}

/// Parsing looks at the input only through its whitespace-stripped form.
proof fn lemma_spec_parse_of_stripped(a: Seq<u8>, b: Seq<u8>)
    requires
        strip_ws(a) == strip_ws(b),
    ensures
        spec_parse(a) == spec_parse(b),
{
}

/// A valid IBAN string parses to exactly itself: re-serializing any parsed
/// or generated value and parsing it again is the identity.
pub proof fn lemma_parse_valid_identity(v: Seq<u8>)
    requires
        valid_iban(v),
    ensures
        spec_parse(v) == Ok::<Seq<u8>, ParseError>(v),
{
    let rule = spec_lookup(v[0], v[1])->Some_0;
    let classes = flat(rule.segments);
    lemma_flat_len(rule.segments);
    lemma_valid_iban_clean(v);
    lemma_strip_ws_id(v);
    assert(upper(v[0]) == v[0]);
    assert(upper(v[1]) == v[1]);
    assert forall|j: int| 0 <= j < v.len() implies norm_at(v, classes, j) == v[j] by {
        if j >= 4 {
            assert(class_at_ok(rule, v, j));
            assert(flat(rule.segments)[j].is_grammar_class());
            if !(classes[j] is C) {
                lemma_grammar_member_shape(classes[j], v[j]);
            }
        }
    }
    assert forall|j: int| 4 <= j < v.len() implies walk_ok_at(v, classes, j) by {
        assert(class_at_ok(rule, v, j));
    }
    lemma_scan_all_ok(v, classes, 4);
    assert(normalize(v, classes) =~= v);
}

/// For all valid IBAN values — every string an `Iban` can hold — the
/// MOD-97-10 checksum over their bytes equals 1.
pub proof fn lemma_valid_iban_checksum(v: Seq<u8>)
    requires
        valid_iban(v),
    ensures
        spec_checksum(v) == 1,
{
}

/// Idempotence of parsing across formatting: parsing the spaced display
/// form of a valid IBAN and parsing its compact electronic form both
/// return exactly the same value.
pub proof fn lemma_display_parse_idempotent(v: Seq<u8>)
    requires
        valid_iban(v),
    ensures
        spec_parse(spaced(v)) == Ok::<Seq<u8>, ParseError>(v),
        spec_parse(v) == Ok::<Seq<u8>, ParseError>(v),
{
    lemma_parse_valid_identity(v);
    lemma_valid_iban_clean(v);
    lemma_strip_spaced(v);
    lemma_strip_ws_id(v);
    lemma_spec_parse_of_stripped(spaced(v), v);
}

/// The same idempotence over the character view that [`crate::Iban::formatted`]
/// promises: parsing the display form returns the IBAN's own bytes.
pub proof fn lemma_formatted_parse(cs: Seq<char>)
    requires
        valid_iban(bytes_of(cs)),
    ensures
        spec_parse(bytes_of(spaced_chars(cs))) == Ok::<Seq<u8>, ParseError>(bytes_of(cs)),
{
    lemma_spaced_chars_bytes(cs);
    lemma_display_parse_idempotent(bytes_of(cs));
}

/// The generate/parse inverse, closed over the string form: for ASCII text
/// whose bytes are a valid IBAN — which the parser and the generator ensure
/// of every value they return — parsing the text itself (its UTF-8 bytes,
/// as `Iban::parse` sees a slice from `as_str`) yields exactly those bytes,
/// so a generated value parses back to an equal one.
pub proof fn lemma_parse_str_identity(cs: Seq<char>)
    requires
        vstd::utf8::is_ascii_chars(cs),
        valid_iban(bytes_of(cs)),
    ensures
        spec_parse(vstd::utf8::encode_utf8(cs)) == Ok::<Seq<u8>, ParseError>(bytes_of(cs)),
{
    vstd::utf8::is_ascii_chars_encode_utf8(cs);
    assert(vstd::utf8::encode_utf8(cs) =~= bytes_of(cs));
    lemma_parse_valid_identity(bytes_of(cs));
}

} // verus!
