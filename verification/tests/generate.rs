use rand::SeedableRng;

use iban::{CharacterType, Iban, ParseError};

#[test]
fn random_iban() {
    let mut rng = rand::rngs::StdRng::from_seed([0; 32]);
    let iban = Iban::rand("GB", &mut rng).expect("generates random (seeded) iban");

    assert_eq!(iban.as_str(), "GB82KIBV70634724101729");

    assert_eq!(iban.country_code(), "GB");
    assert_eq!(iban.check_digits(), "82");

    let bban = iban.bban();
    assert_eq!(bban.bank_identifier(), Some("KIBV"));
    assert_eq!(bban.branch_identifier(), Some("706347"));
    assert_eq!(bban.checksum(), None);
}

// Generation followed by parsing of the string form succeeds and returns an
// equal value, whatever the random source yields.
#[test]
fn generate_then_parse_round_trip() {
    let mut rng = rand::rngs::StdRng::from_seed([7; 32]);
    for code in ["GB", "FR", "DE", "MT", "AA", "IT", "MU", "NO"] {
        let generated = Iban::rand(code, &mut rng).expect("country is supported");
        assert_eq!(generated.country_code(), code);
        let reparsed = Iban::parse(generated.as_str()).expect("generated iban parses");
        assert!(reparsed == generated);
    }
}

#[test]
fn generate_accepts_lower_case() {
    let mut rng = rand::rngs::StdRng::from_seed([1; 32]);
    let iban = Iban::rand("gb", &mut rng).expect("code is upper-cased first");
    assert_eq!(iban.country_code(), "GB");
}

#[test]
fn generate_errors() {
    let mut rng = rand::rngs::StdRng::from_seed([0; 32]);
    assert_eq!(Iban::rand("", &mut rng), Err(ParseError::CountryCode));
    assert_eq!(Iban::rand("G", &mut rng), Err(ParseError::CountryCode));
    assert_eq!(Iban::rand("1T", &mut rng), Err(ParseError::CountryCode));
    assert_eq!(Iban::rand("GBR", &mut rng), Err(ParseError::UnknownCountry));
    assert_eq!(Iban::rand("ZZ", &mut rng), Err(ParseError::UnknownCountry));
}

#[test]
fn character_type_rand_members() {
    let mut rng = rand::rngs::StdRng::from_seed([3; 32]);
    for _ in 0..64 {
        let n = CharacterType::N.rand(&mut rng);
        assert!(n.is_ascii_digit());
        let a = CharacterType::A.rand(&mut rng);
        assert!(a.is_ascii_uppercase());
        let c = CharacterType::C.rand(&mut rng);
        assert!(c.is_ascii_alphanumeric());
        let i = CharacterType::I.rand(&mut rng);
        assert!(i.is_ascii_uppercase() || i.is_ascii_digit());
        let s = CharacterType::S(b'Q').rand(&mut rng);
        assert_eq!(s, b'Q');
    }
}

#[test]
fn character_type_contains() {
    assert!(CharacterType::N.contains(b'0'));
    assert!(!CharacterType::N.contains(b'A'));
    assert!(CharacterType::A.contains(b'Z'));
    assert!(!CharacterType::A.contains(b'a'));
    assert!(CharacterType::C.contains(b'a'));
    assert!(CharacterType::C.contains(b'A'));
    assert!(CharacterType::C.contains(b'7'));
    assert!(!CharacterType::C.contains(b'*'));
    assert!(CharacterType::I.contains(b'Z'));
    assert!(CharacterType::I.contains(b'5'));
    assert!(!CharacterType::I.contains(b'z'));
    assert!(CharacterType::S(b'G').contains(b'G'));
    assert!(!CharacterType::S(b'G').contains(b'H'));
}
