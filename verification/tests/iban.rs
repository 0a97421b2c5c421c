use iban::{Iban, ParseError};

/// One known-valid IBAN for every country in the registry snapshot:
/// parsing succeeds and re-serializing returns the normalized input.
#[test]
fn iban_registry_examples() {
    let examples = vec![
        "AA110011123Z5678",
        "AD1200012030200359100100",
        "AE070331234567890123456",
        "AL47212110090000000235698741",
        "AO44123412341234123412341",
        "AT611904300234573201",
        "AX2112345600000785",
        "AZ21NABZ00000000137010001944",
        "BA391290079401028494",
        "BE68539007547034",
        "BF4512341234123412341234123",
        "BG80BNBG96611020345678",
        "BH67BMAG00001299123456",
        "BI33123412341234",
        "BJ83A12312341234123412341234",
        "BL6820041010050500013M02606",
        "BR9700360305000010009795493P1",
        "BY13NBRB3600900000002Z00AB00",
        "CF4220001000010120069700160",
        "CG3930013020003710721836132",
        "CH9300762011623852957",
        "CI77A12312341234123412341234",
        "CM1512341234123412341234123",
        "CR05015202001026284066",
        "CV05123412341234123412341",
        "CY17002001280000001200527600",
        "CZ6508000000192000145399",
        "DE89370400440532013000",
        "DJ2110002010010409943020008",
        "DK5000400440116243",
        "DO28BAGR00000001212453611324",
        "DZ3512341234123412341234",
        "EE382200221020145685",
        "EG380019000500000000263180002",
        "ES9121000418450200051332",
        "FI2112345600000785",
        "FO2000400440116243",
        "FR1420041010050500013M02606",
        "GA2142001007341520000106963",
        "GB29NWBK60161331926819",
        "GE29NB0000000101904917",
        "GF4120041010050500013M02606",
        "GI75NWBK000000007099453",
        "GL2000400440116243",
        "GP1120041010050500013M02606",
        "GQ7050002001003715228190196",
        "GR1601101250000000012300695",
        "GT82TRAJ01020000001210029690",
        "GW04GW1430010181800637601",
        "HN54PISA00000000000000123124",
        "HR1210010051863000160",
        "HU42117730161111101800000000",
        "IE29AIBK93115212345678",
        "IL620108000000099999999",
        "IQ98NBIQ850123456789012",
        "IR081234123412341234123412",
        "IS140159260076545510730339",
        "IT60X0542811101000000123456",
        "JO94CBJO0010000000000131000302",
        "KM4600005000010010904400137",
        "KW81CBKU0000000000001234560101",
        "KZ86125KZT5004100100",
        "LB62099900000001001901229114",
        "LC55HEMM000100010012001200023015",
        "LI21088100002324013AA",
        "LT121000011101001000",
        "LU280019400644750000",
        "LV80BANK0000435195001",
        "MA64011519000001205000534921",
        "MC5811222000010123456789030",
        "MD24AG000225100013104168",
        "ME25505000012345678951",
        "MF8420041010050500013M02606",
        "MG4012341234123412341234123",
        "MK07250120000058984",
        "ML75A12312341234123412341234",
        "MQ5120041010050500013M02606",
        "MR1300020001010000123456753",
        "MT84MALT011000012345MTLCAST001S",
        "MU17BOMM0101101030300200000MUR",
        "MZ97123412341234123412341",
        "NC8420041010050500013M02606",
        "NE58NE0380100100130305000268",
        "NI92BAMC000000000000000003123123",
        "NL91ABNA0417164300",
        "NO9386011117947",
        "PF5720041010050500013M02606",
        "PK36SCBL0000001123456702",
        "PL61109010140000071219812874",
        "PM3620041010050500013M02606",
        "PS92PALS000000000400123456702",
        "PT50000201231234567890154",
        "QA58DOHB00001234567890ABCDEFG",
        "RE4220041010050500013M02606",
        "RO49AAAA1B31007593840000",
        "RS35260005601001611379",
        "SA0380000000608010167519",
        "SC18SSCB11010000000000001497USD",
        "SE4550000000058398257466",
        "SI56191000000123438",
        "SK3112000000198742637541",
        "SM86U0322509800000000270100",
        "SN15A12312341234123412341234",
        "ST68000100010051845310112",
        "SV62CENR00000000000000700025",
        "TD8960003000203710253860174",
        "TF2120041010050500013M02606",
        "TG53TG0090604310346500400070",
        "TL380080012345678910157",
        "TN5910006035183598478831",
        "TR330006100519786457841326",
        "UA213996220000026007233566001",
        "VG96VPVG0000012345678901",
        "WF9120041010050500013M02606",
        "XK051212012345678906",
        "YT3120041010050500013M02606",
    ];
    for original in examples {
        let iban = Iban::parse(original).expect("iban should be valid");
        assert_eq!(iban.country_code(), &original[..2]);
        assert_eq!(iban.check_digits(), &original[2..4]);
        assert_eq!(iban.bban().as_str(), &original[4..]);
        assert_eq!(iban.as_str(), original);
    }
}

#[test]
fn iban_display_impl() {
    let iban = Iban::parse("AD1200012030200359100100").unwrap();
    assert_eq!(iban.formatted().as_str(), "AD12 0001 2030 2003 5910 0100");

    let iban = Iban::parse("AE070331234567890123456").unwrap();
    assert_eq!(iban.formatted().as_str(), "AE07 0331 2345 6789 0123 456");
}

#[test]
fn bban_display_impl() {
    let iban = Iban::parse("AD1200012030200359100100").unwrap();
    let bban = iban.bban();
    assert_eq!(bban.formatted().as_str(), "0001 2030 2003 5910 0100");

    let iban = Iban::parse("AE070331234567890123456").unwrap();
    let bban = iban.bban();
    assert_eq!(bban.formatted().as_str(), "0331 2345 6789 0123 456");
}

#[test]
fn scenario_iiban_accessors() {
    let iban = Iban::parse("AA110011123Z5678").expect("iban should be valid");
    assert_eq!(iban.country_code(), "AA");
    assert_eq!(iban.check_digits(), "11");
}

#[test]
fn scenario_gb_fields() {
    let iban = Iban::parse("GB29NWBK60161331926819").expect("iban should be valid");
    let bban = iban.bban();
    assert_eq!(bban.bank_identifier(), Some("NWBK"));
    assert_eq!(bban.branch_identifier(), Some("601613"));
    assert_eq!(bban.checksum(), None);
}

#[test]
fn scenario_unknown_country() {
    assert_eq!(
        Iban::parse("ZZ18SSCB11010000000000001497USD"),
        Err(ParseError::UnknownCountry)
    );
}

#[test]
fn scenario_wrong_checksum() {
    assert_eq!(
        Iban::parse("YT4120041010050500013M02606"),
        Err(ParseError::WrongChecksum)
    );
}

#[test]
fn scenario_invalid_length() {
    assert_eq!(
        Iban::parse("AA110011123Z567891238"),
        Err(ParseError::InvalidLength)
    );
}

#[test]
fn scenario_invalid_character() {
    assert_eq!(
        Iban::parse("YT412*041010050500013M02606"),
        Err(ParseError::InvalidCharacter)
    );
}

#[test]
fn scenario_fr_display() {
    let iban = Iban::parse("FR1420041010050500013M02606").expect("iban should be valid");
    assert_eq!(iban.formatted().as_str(), "FR14 2004 1010 0505 0001 3M02 606");
}

#[test]
fn parse_error_kinds() {
    assert_eq!(
        Iban::parse("1T4120041010050500013M02606"),
        Err(ParseError::CountryCode)
    );
    assert_eq!(
        Iban::parse("YTa120041010050500013M02606"),
        Err(ParseError::CheckDigit)
    );
    assert_eq!(
        Iban::parse("YT412*041010050500013M02606"),
        Err(ParseError::InvalidCharacter)
    );
    assert_eq!(
        Iban::parse("SC18SSCB11010000000000001497USDABCD"),
        Err(ParseError::InvalidLength)
    );
    assert_eq!(
        Iban::parse("ZZ18SSCB11010000000000001497USD"),
        Err(ParseError::UnknownCountry)
    );
    assert_eq!(
        Iban::parse("AA110011123Z567891238"),
        Err(ParseError::InvalidLength)
    );
    assert_eq!(
        Iban::parse("YT4120041010050500013M02606"),
        Err(ParseError::WrongChecksum)
    );
    assert_eq!(
        Iban::parse("YT3120041010050500013M0260a"),
        Err(ParseError::InvalidBban)
    );
}

#[test]
fn parse_error_short_inputs() {
    assert_eq!(Iban::parse(""), Err(ParseError::CountryCode));
    assert_eq!(Iban::parse("   "), Err(ParseError::CountryCode));
    assert_eq!(Iban::parse("G"), Err(ParseError::CountryCode));
    assert_eq!(Iban::parse("GB"), Err(ParseError::CheckDigit));
    assert_eq!(Iban::parse("GB2"), Err(ParseError::CheckDigit));
    assert_eq!(Iban::parse("GB29"), Err(ParseError::InvalidLength));
}

// BL's format allows either case in its eleven character-class positions
// (`5!n5!n11!c2!n` after the check digits), so both spellings are valid.
#[test]
fn case_sensitivity() {
    assert!(Iban::parse("BL6820041010050500013M02606").is_ok());
    assert!(Iban::parse("BL6820041010050500013m02606").is_ok());
}

// A byte at a position whose class accepts either case keeps its case;
// everything else is upper-cased.
#[test]
fn case_normalization() {
    let iban = Iban::parse("gb29nwbk60161331926819").expect("iban should be valid");
    assert_eq!(iban.as_str(), "GB29NWBK60161331926819");

    let iban = Iban::parse("BL6820041010050500013m02606").expect("iban should be valid");
    assert_eq!(iban.as_str(), "BL6820041010050500013m02606");
}

#[test]
fn whitespace_is_ignored() {
    let iban = Iban::parse("GB29 NWBK 6016 1331 9268 19").expect("iban should be valid");
    assert_eq!(iban.as_str(), "GB29NWBK60161331926819");

    let iban = Iban::parse("\tGB29\nNWBK 6016 1331 9268 19 ").expect("iban should be valid");
    assert_eq!(iban.as_str(), "GB29NWBK60161331926819");
}

#[test]
fn bban_fields() {
    let cases: Vec<(&str, Option<&str>, Option<&str>, Option<&str>)> = vec![
        (
            "BL6820041010050500013M02606",
            Some("20041"),
            Some("01005"),
            Some("06"),
        ),
        ("AA110011123Z5678", Some("0011"), None, None),
        ("BE68539007547034", Some("539"), None, Some("34")),
        ("IQ98NBIQ850123456789012", Some("NBIQ"), Some("850"), None),
    ];
    for (original, bank, branch, checksum) in cases {
        let iban = Iban::parse(original).expect("iban is valid");
        let bban = iban.bban();
        assert_eq!(bban.as_str(), &original[4..]);
        assert_eq!(bban.bank_identifier(), bank);
        assert_eq!(bban.branch_identifier(), branch);
        assert_eq!(bban.checksum(), checksum);
    }
}

// Parsing the spaced display form of a valid IBAN yields a value equal to
// parsing its compact form.
#[test]
fn display_parse_idempotent() {
    for original in [
        "GB29NWBK60161331926819",
        "FR1420041010050500013M02606",
        "NO9386011117947",
        "LC55HEMM000100010012001200023015",
    ] {
        let compact = Iban::parse(original).expect("iban should be valid");
        let spaced = Iban::parse(compact.formatted().as_str()).expect("display form is valid");
        assert!(spaced == compact);
        assert_eq!(spaced.as_str(), compact.as_str());
    }
}

#[test]
fn from_str_matches_parse() {
    let via_trait: Iban = "FR1420041010050500013M02606".parse().unwrap();
    assert_eq!(via_trait.as_str(), "FR1420041010050500013M02606");
    let err: Result<Iban, ParseError> = "FR15 2004 1010 0505 0001 3M02 606".parse();
    assert_eq!(err, Err(ParseError::WrongChecksum));
}

#[test]
fn clone_and_eq() {
    let a = Iban::parse("DE89370400440532013000").unwrap();
    let b = a.clone();
    assert!(a == b);
    let c = Iban::parse("NL91ABNA0417164300").unwrap();
    assert!(a != c);
}

#[test]
fn error_messages() {
    assert_eq!(ParseError::CountryCode.message(), "invalid country code");
    assert_eq!(ParseError::CheckDigit.message(), "invalid check digit");
    assert_eq!(ParseError::InvalidCharacter.message(), "invalid character");
    assert_eq!(ParseError::UnknownCountry.message(), "unknown country");
    assert_eq!(ParseError::InvalidLength.message(), "invalid length");
    assert_eq!(ParseError::InvalidBban.message(), "invalid bban");
    assert_eq!(
        ParseError::WrongChecksum.message(),
        "checksum validation failed"
    );
}
