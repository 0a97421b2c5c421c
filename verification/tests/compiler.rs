use iban::registry::compile;
use iban::CharacterType;

#[test]
fn compile_wellformed_row() {
    let rule = compile(
        "GB2!n4!a6!n8!n",
        22,
        Some((4, 8)),
        Some((8, 14)),
        None,
    )
    .expect("row should compile");
    assert_eq!(rule.expected_length, 22);
    assert_eq!(
        rule.segments,
        vec![
            (1, CharacterType::S(b'G')),
            (1, CharacterType::S(b'B')),
            (2, CharacterType::N),
            (4, CharacterType::A),
            (6, CharacterType::N),
            (8, CharacterType::N),
        ]
    );
    assert_eq!(rule.bank_offset, Some((4, 8)));
    assert_eq!(rule.branch_offset, Some((8, 14)));
    assert_eq!(rule.checksum_offset, None);
}

#[test]
fn compile_format_letters_either_case() {
    let rule = compile("AD2!N4!n4!N12!C", 24, None, None, None).expect("row should compile");
    assert_eq!(rule.segments[2], (2, CharacterType::N));
    assert_eq!(rule.segments[5], (12, CharacterType::C));
}

// The variable-maximum-length token form without `!` is not supported and
// is rejected rather than silently mis-parsed.
#[test]
fn compile_rejects_variable_length_tokens() {
    assert!(compile("GB2!n20n", 24, None, None, None).is_none());
    assert!(compile("GB20n", 22, None, None, None).is_none());
}

#[test]
fn compile_rejects_malformed_rows() {
    // No country-code prefix.
    assert!(compile("2!n4!a6!n8!n", 22, None, None, None).is_none());
    // A letter outside the grammar alphabet.
    assert!(compile("GB2!n4!x6!n8!n", 22, None, None, None).is_none());
    // A dangling count with no class letter.
    assert!(compile("GB2!n4!", 8, None, None, None).is_none());
    // Length inconsistent with the repeat counts.
    assert!(compile("GB2!n4!a6!n8!n", 23, None, None, None).is_none());
    // Longer than the fixed 34-byte buffer.
    assert!(compile("GB2!n40!n", 44, None, None, None).is_none());
}

#[test]
fn compile_rejects_bad_offsets() {
    // Past the end of the IBAN.
    assert!(compile("GB2!n4!a6!n8!n", 22, Some((4, 23)), None, None).is_none());
    // Inside the country code and check digits.
    assert!(compile("GB2!n4!a6!n8!n", 22, Some((0, 4)), None, None).is_none());
    // Backwards.
    assert!(compile("GB2!n4!a6!n8!n", 22, None, Some((10, 8)), None).is_none());
}
