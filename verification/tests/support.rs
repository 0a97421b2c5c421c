use iban::util::{Chunks, ChunksExt};
use iban::{calculate_checksum, digits, Iban};

#[test]
fn simple_digits() {
    for i in 0..9 {
        assert_eq!(digits(i), vec![i]);
    }

    for i in 10..36 {
        assert_eq!(digits(i), vec![i / 10, i % 10]);
    }
}

#[test]
fn digits_edges() {
    assert_eq!(digits(0), vec![0]);
    assert_eq!(digits(9), vec![9]);
    assert_eq!(digits(10), vec![1, 0]);
    assert_eq!(digits(99), vec![9, 9]);
    assert_eq!(digits(100), vec![1, 0, 0]);
    assert_eq!(digits(255), vec![2, 5, 5]);
}

// The checksum of every valid IBAN is exactly 1.
#[test]
fn checksum_of_valid_ibans_is_one() {
    for original in [
        "GB29NWBK60161331926819",
        "FR1420041010050500013M02606",
        "AA110011123Z5678",
        "MT84MALT011000012345MTLCAST001S",
        "NO9386011117947",
    ] {
        let iban = Iban::parse(original).expect("iban should be valid");
        assert_eq!(calculate_checksum(iban.as_str().as_bytes()), 1);
    }
}

// Zeroing the check digits, computing the checksum, and taking 98 minus the
// result recovers the original check digits.
#[test]
fn checksum_derives_check_digits() {
    let original = "GB29NWBK60161331926819";
    let zeroed = format!("{}00{}", &original[..2], &original[4..]);
    let check_digits = 98 - calculate_checksum(zeroed.as_bytes());
    assert_eq!(check_digits, 29);
}

#[test]
fn checksum_exact_values() {
    // An invalid IBAN gives its residue, not 1.
    assert_eq!(calculate_checksum(b"YT4120041010050500013M02606"), 11);
    // Letters map case-insensitively: both spellings give the same result.
    assert_eq!(
        calculate_checksum(b"GB29nwbk60161331926819"),
        calculate_checksum(b"GB29NWBK60161331926819")
    );
    // Bytes that are not alphanumeric are ignored.
    assert_eq!(calculate_checksum(b"GB29-NWBK-6016-1331-9268-19"), 1);
}

#[test]
fn str_chunks() {
    let mut chunks: Chunks<4> = "ABCDEFGHIJ".chunks();
    assert_eq!(chunks.next(), Some("ABCD"));
    assert_eq!(chunks.next(), Some("EFGH"));
    assert_eq!(chunks.next(), Some("IJ"));
    assert_eq!(chunks.next(), None);

    let mut chunks: Chunks<3> = "AB".chunks();
    assert_eq!(chunks.next(), Some("AB"));
    assert_eq!(chunks.next(), None);

    let mut chunks: Chunks<2> = "".chunks();
    assert_eq!(chunks.next(), None);
}
