//! The registry snapshot: one row per supported country.
//!
//! Each row gives the country's SWIFT format string for the whole IBAN, the
//! expected total length, and the half-open ranges of the bank identifier,
//! branch identifier and national checksum inside the full IBAN string,
//! where a country defines them.  The rows are compiled by the grammar
//! compiler of [`crate::registry`]; a row that failed to compile would be
//! absent from the registry altogether rather than present in part.

use vstd::prelude::*;
use vstd::string::StringSliceAdditionalSpecFns;

use crate::registry::{compile, spec_compile, wf_rule, CountryRule, SpecRule};

verus! {

/// The compiled registry entry for the country code `(c0, c1)`, or `None`
/// for a country this registry does not know.
#[verifier::opaque]
pub open spec fn spec_lookup(c0: u8, c1: u8) -> Option<SpecRule> {
    if c0 == 'A' as u8 && c1 == 'A' as u8 {
        spec_compile("AA2!n4!n8!i".spec_bytes(), 16, Some((4, 8)), None, None)
    } else if c0 == 'A' as u8 && c1 == 'D' as u8 {
        spec_compile("AD2!n4!n4!n12!c".spec_bytes(), 24, Some((4, 8)), Some((8, 12)), None)
    } else if c0 == 'A' as u8 && c1 == 'E' as u8 {
        spec_compile("AE2!n3!n16!n".spec_bytes(), 23, Some((4, 7)), None, None)
    } else if c0 == 'A' as u8 && c1 == 'L' as u8 {
        spec_compile("AL2!n8!n16!c".spec_bytes(), 28, Some((4, 7)), Some((7, 11)), Some((11, 12)))
    } else if c0 == 'A' as u8 && c1 == 'O' as u8 {
        spec_compile("AO2!n21!n".spec_bytes(), 25, None, None, None)
    } else if c0 == 'A' as u8 && c1 == 'T' as u8 {
        spec_compile("AT2!n5!n11!n".spec_bytes(), 20, Some((4, 9)), None, None)
    } else if c0 == 'A' as u8 && c1 == 'X' as u8 {
        spec_compile("AX2!n3!n11!n".spec_bytes(), 18, Some((4, 7)), None, None)
    } else if c0 == 'A' as u8 && c1 == 'Z' as u8 {
        spec_compile("AZ2!n4!a20!c".spec_bytes(), 28, Some((4, 8)), None, None)
    } else if c0 == 'B' as u8 && c1 == 'A' as u8 {
        spec_compile("BA2!n3!n3!n8!n2!n".spec_bytes(), 20, Some((4, 7)), Some((7, 10)), Some((18, 20)))
    } else if c0 == 'B' as u8 && c1 == 'E' as u8 {
        spec_compile("BE2!n3!n7!n2!n".spec_bytes(), 16, Some((4, 7)), None, Some((14, 16)))
    } else if c0 == 'B' as u8 && c1 == 'F' as u8 {
        spec_compile("BF2!n23!n".spec_bytes(), 27, None, None, None)
    } else if c0 == 'B' as u8 && c1 == 'G' as u8 {
        spec_compile("BG2!n4!a4!n2!n8!c".spec_bytes(), 22, Some((4, 8)), Some((8, 12)), None)
    } else if c0 == 'B' as u8 && c1 == 'H' as u8 {
        spec_compile("BH2!n4!a14!c".spec_bytes(), 22, Some((4, 8)), None, None)
    } else if c0 == 'B' as u8 && c1 == 'I' as u8 {
        spec_compile("BI2!n12!n".spec_bytes(), 16, None, None, None)
    } else if c0 == 'B' as u8 && c1 == 'J' as u8 {
        spec_compile("BJ2!n2!c22!n".spec_bytes(), 28, None, None, None)
    } else if c0 == 'B' as u8 && c1 == 'L' as u8 {
        spec_compile("BL2!n5!n5!n11!c2!n".spec_bytes(), 27, Some((4, 9)), Some((9, 14)), Some((25, 27)))
    } else if c0 == 'B' as u8 && c1 == 'R' as u8 {
        spec_compile("BR2!n8!n5!n10!n1!a1!c".spec_bytes(), 29, Some((4, 12)), Some((12, 17)), None)
    } else if c0 == 'B' as u8 && c1 == 'Y' as u8 {
        spec_compile("BY2!n4!c4!n16!c".spec_bytes(), 28, Some((4, 8)), None, None)
    } else if c0 == 'C' as u8 && c1 == 'F' as u8 {
        spec_compile("CF2!n23!n".spec_bytes(), 27, None, None, None)
    } else if c0 == 'C' as u8 && c1 == 'G' as u8 {
        spec_compile("CG2!n23!n".spec_bytes(), 27, None, None, None)
    } else if c0 == 'C' as u8 && c1 == 'H' as u8 {
        spec_compile("CH2!n5!n12!c".spec_bytes(), 21, Some((4, 9)), None, None)
    } else if c0 == 'C' as u8 && c1 == 'I' as u8 {
        spec_compile("CI2!n2!c22!n".spec_bytes(), 28, None, None, None)
    } else if c0 == 'C' as u8 && c1 == 'M' as u8 {
        spec_compile("CM2!n23!n".spec_bytes(), 27, None, None, None)
    } else if c0 == 'C' as u8 && c1 == 'R' as u8 {
        spec_compile("CR2!n4!n14!n".spec_bytes(), 22, Some((4, 8)), None, None)
    } else if c0 == 'C' as u8 && c1 == 'V' as u8 {
        spec_compile("CV2!n21!n".spec_bytes(), 25, None, None, None)
    } else if c0 == 'C' as u8 && c1 == 'Y' as u8 {
        spec_compile("CY2!n3!n5!n16!c".spec_bytes(), 28, Some((4, 7)), Some((7, 12)), None)
    } else if c0 == 'C' as u8 && c1 == 'Z' as u8 {
        spec_compile("CZ2!n4!n6!n10!n".spec_bytes(), 24, Some((4, 8)), None, None)
    } else if c0 == 'D' as u8 && c1 == 'E' as u8 {
        spec_compile("DE2!n8!n10!n".spec_bytes(), 22, Some((4, 12)), None, None)
    } else if c0 == 'D' as u8 && c1 == 'J' as u8 {
        spec_compile("DJ2!n23!n".spec_bytes(), 27, None, None, None)
    } else if c0 == 'D' as u8 && c1 == 'K' as u8 {
        spec_compile("DK2!n4!n9!n1!n".spec_bytes(), 18, Some((4, 8)), None, None)
    } else if c0 == 'D' as u8 && c1 == 'O' as u8 {
        spec_compile("DO2!n4!c20!n".spec_bytes(), 28, Some((4, 8)), None, None)
    } else if c0 == 'D' as u8 && c1 == 'Z' as u8 {
        spec_compile("DZ2!n20!n".spec_bytes(), 24, None, None, None)
    } else if c0 == 'E' as u8 && c1 == 'E' as u8 {
        spec_compile("EE2!n2!n2!n11!n1!n".spec_bytes(), 20, Some((4, 6)), None, Some((19, 20)))
    } else if c0 == 'E' as u8 && c1 == 'G' as u8 {
        spec_compile("EG2!n4!n4!n17!n".spec_bytes(), 29, Some((4, 8)), Some((8, 12)), None)
    } else if c0 == 'E' as u8 && c1 == 'S' as u8 {
        spec_compile("ES2!n4!n4!n1!n1!n10!n".spec_bytes(), 24, Some((4, 8)), Some((8, 12)), Some((12, 14)))
    } else if c0 == 'F' as u8 && c1 == 'I' as u8 {
        spec_compile("FI2!n3!n11!n".spec_bytes(), 18, Some((4, 7)), None, None)
    } else if c0 == 'F' as u8 && c1 == 'O' as u8 {
        spec_compile("FO2!n4!n9!n1!n".spec_bytes(), 18, Some((4, 8)), None, None)
    } else if c0 == 'F' as u8 && c1 == 'R' as u8 {
        spec_compile("FR2!n5!n5!n11!c2!n".spec_bytes(), 27, Some((4, 9)), Some((9, 14)), Some((25, 27)))
    } else if c0 == 'G' as u8 && c1 == 'A' as u8 {
        spec_compile("GA2!n23!n".spec_bytes(), 27, None, None, None)
    } else if c0 == 'G' as u8 && c1 == 'B' as u8 {
        spec_compile("GB2!n4!a6!n8!n".spec_bytes(), 22, Some((4, 8)), Some((8, 14)), None)
    } else if c0 == 'G' as u8 && c1 == 'E' as u8 {
        spec_compile("GE2!n2!a16!n".spec_bytes(), 22, Some((4, 6)), None, None)
    } else if c0 == 'G' as u8 && c1 == 'F' as u8 {
        spec_compile("GF2!n5!n5!n11!c2!n".spec_bytes(), 27, Some((4, 9)), Some((9, 14)), Some((25, 27)))
    } else if c0 == 'G' as u8 && c1 == 'I' as u8 {
        spec_compile("GI2!n4!a15!c".spec_bytes(), 23, Some((4, 8)), None, None)
    } else if c0 == 'G' as u8 && c1 == 'L' as u8 {
        spec_compile("GL2!n4!n9!n1!n".spec_bytes(), 18, Some((4, 8)), None, None)
    } else if c0 == 'G' as u8 && c1 == 'P' as u8 {
        spec_compile("GP2!n5!n5!n11!c2!n".spec_bytes(), 27, Some((4, 9)), Some((9, 14)), Some((25, 27)))
    } else if c0 == 'G' as u8 && c1 == 'Q' as u8 {
        spec_compile("GQ2!n23!n".spec_bytes(), 27, None, None, None)
    } else if c0 == 'G' as u8 && c1 == 'R' as u8 {
        spec_compile("GR2!n3!n4!n16!c".spec_bytes(), 27, Some((4, 7)), Some((7, 11)), None)
    } else if c0 == 'G' as u8 && c1 == 'T' as u8 {
        spec_compile("GT2!n4!c20!c".spec_bytes(), 28, Some((4, 8)), None, None)
    } else if c0 == 'G' as u8 && c1 == 'W' as u8 {
        spec_compile("GW2!n2!c19!n".spec_bytes(), 25, None, None, None)
    } else if c0 == 'H' as u8 && c1 == 'N' as u8 {
        spec_compile("HN2!n4!a20!n".spec_bytes(), 28, Some((4, 8)), None, None)
    } else if c0 == 'H' as u8 && c1 == 'R' as u8 {
        spec_compile("HR2!n7!n10!n".spec_bytes(), 21, Some((4, 11)), None, None)
    } else if c0 == 'H' as u8 && c1 == 'U' as u8 {
        spec_compile("HU2!n3!n4!n1!n15!n1!n".spec_bytes(), 28, Some((4, 7)), Some((7, 11)), None)
    } else if c0 == 'I' as u8 && c1 == 'E' as u8 {
        spec_compile("IE2!n4!a6!n8!n".spec_bytes(), 22, Some((4, 8)), Some((8, 14)), None)
    } else if c0 == 'I' as u8 && c1 == 'L' as u8 {
        spec_compile("IL2!n3!n3!n13!n".spec_bytes(), 23, Some((4, 7)), Some((7, 10)), None)
    } else if c0 == 'I' as u8 && c1 == 'Q' as u8 {
        spec_compile("IQ2!n4!a3!n12!n".spec_bytes(), 23, Some((4, 8)), Some((8, 11)), None)
    } else if c0 == 'I' as u8 && c1 == 'R' as u8 {
        spec_compile("IR2!n22!n".spec_bytes(), 26, None, None, None)
    } else if c0 == 'I' as u8 && c1 == 'S' as u8 {
        spec_compile("IS2!n4!n2!n6!n10!n".spec_bytes(), 26, Some((4, 8)), None, None)
    } else if c0 == 'I' as u8 && c1 == 'T' as u8 {
        spec_compile("IT2!n1!a5!n5!n12!c".spec_bytes(), 27, Some((5, 10)), Some((10, 15)), Some((4, 5)))
    } else if c0 == 'J' as u8 && c1 == 'O' as u8 {
        spec_compile("JO2!n4!a4!n18!c".spec_bytes(), 30, Some((4, 8)), Some((8, 12)), None)
    } else if c0 == 'K' as u8 && c1 == 'M' as u8 {
        spec_compile("KM2!n23!n".spec_bytes(), 27, None, None, None)
    } else if c0 == 'K' as u8 && c1 == 'W' as u8 {
        spec_compile("KW2!n4!a22!c".spec_bytes(), 30, Some((4, 8)), None, None)
    } else if c0 == 'K' as u8 && c1 == 'Z' as u8 {
        spec_compile("KZ2!n3!n13!c".spec_bytes(), 20, Some((4, 7)), None, None)
    } else if c0 == 'L' as u8 && c1 == 'B' as u8 {
        spec_compile("LB2!n4!n20!c".spec_bytes(), 28, Some((4, 8)), None, None)
    } else if c0 == 'L' as u8 && c1 == 'C' as u8 {
        spec_compile("LC2!n4!a24!c".spec_bytes(), 32, Some((4, 8)), None, None)
    } else if c0 == 'L' as u8 && c1 == 'I' as u8 {
        spec_compile("LI2!n5!n12!c".spec_bytes(), 21, Some((4, 9)), None, None)
    } else if c0 == 'L' as u8 && c1 == 'T' as u8 {
        spec_compile("LT2!n5!n11!n".spec_bytes(), 20, Some((4, 9)), None, None)
    } else if c0 == 'L' as u8 && c1 == 'U' as u8 {
        spec_compile("LU2!n3!n13!c".spec_bytes(), 20, Some((4, 7)), None, None)
    } else if c0 == 'L' as u8 && c1 == 'V' as u8 {
        spec_compile("LV2!n4!a13!c".spec_bytes(), 21, Some((4, 8)), None, None)
    } else if c0 == 'M' as u8 && c1 == 'A' as u8 {
        spec_compile("MA2!n24!n".spec_bytes(), 28, None, None, None)
    } else if c0 == 'M' as u8 && c1 == 'C' as u8 {
        spec_compile("MC2!n5!n5!n11!c2!n".spec_bytes(), 27, Some((4, 9)), Some((9, 14)), Some((25, 27)))
    } else if c0 == 'M' as u8 && c1 == 'D' as u8 {
        spec_compile("MD2!n2!c18!c".spec_bytes(), 24, Some((4, 6)), None, None)
    } else if c0 == 'M' as u8 && c1 == 'E' as u8 {
        spec_compile("ME2!n3!n13!n2!n".spec_bytes(), 22, Some((4, 7)), None, Some((20, 22)))
    } else if c0 == 'M' as u8 && c1 == 'F' as u8 {
        spec_compile("MF2!n5!n5!n11!c2!n".spec_bytes(), 27, Some((4, 9)), Some((9, 14)), Some((25, 27)))
    } else if c0 == 'M' as u8 && c1 == 'G' as u8 {
        spec_compile("MG2!n23!n".spec_bytes(), 27, None, None, None)
    } else if c0 == 'M' as u8 && c1 == 'K' as u8 {
        spec_compile("MK2!n3!n10!c2!n".spec_bytes(), 19, Some((4, 7)), None, Some((17, 19)))
    } else if c0 == 'M' as u8 && c1 == 'L' as u8 {
        spec_compile("ML2!n2!c22!n".spec_bytes(), 28, None, None, None)
    } else if c0 == 'M' as u8 && c1 == 'Q' as u8 {
        spec_compile("MQ2!n5!n5!n11!c2!n".spec_bytes(), 27, Some((4, 9)), Some((9, 14)), Some((25, 27)))
    } else if c0 == 'M' as u8 && c1 == 'R' as u8 {
        spec_compile("MR2!n5!n5!n11!n2!n".spec_bytes(), 27, Some((4, 9)), Some((9, 14)), Some((25, 27)))
    } else if c0 == 'M' as u8 && c1 == 'T' as u8 {
        spec_compile("MT2!n4!a5!n18!c".spec_bytes(), 31, Some((4, 8)), Some((8, 13)), None)
    } else if c0 == 'M' as u8 && c1 == 'U' as u8 {
        spec_compile("MU2!n4!a2!n2!n12!n3!n3!a".spec_bytes(), 30, Some((4, 10)), Some((10, 12)), None)
    } else if c0 == 'M' as u8 && c1 == 'Z' as u8 {
        spec_compile("MZ2!n21!n".spec_bytes(), 25, None, None, None)
    } else if c0 == 'N' as u8 && c1 == 'C' as u8 {
        spec_compile("NC2!n5!n5!n11!c2!n".spec_bytes(), 27, Some((4, 9)), Some((9, 14)), Some((25, 27)))
    } else if c0 == 'N' as u8 && c1 == 'E' as u8 {
        spec_compile("NE2!n2!a22!n".spec_bytes(), 28, None, None, None)
    } else if c0 == 'N' as u8 && c1 == 'I' as u8 {
        spec_compile("NI2!n4!a24!n".spec_bytes(), 32, Some((4, 8)), None, None)
    } else if c0 == 'N' as u8 && c1 == 'L' as u8 {
        spec_compile("NL2!n4!a10!n".spec_bytes(), 18, Some((4, 8)), None, None)
    } else if c0 == 'N' as u8 && c1 == 'O' as u8 {
        spec_compile("NO2!n4!n6!n1!n".spec_bytes(), 15, Some((4, 8)), None, Some((14, 15)))
    } else if c0 == 'P' as u8 && c1 == 'F' as u8 {
        spec_compile("PF2!n5!n5!n11!c2!n".spec_bytes(), 27, Some((4, 9)), Some((9, 14)), Some((25, 27)))
    } else if c0 == 'P' as u8 && c1 == 'K' as u8 {
        spec_compile("PK2!n4!a16!c".spec_bytes(), 24, Some((4, 8)), None, None)
    } else if c0 == 'P' as u8 && c1 == 'L' as u8 {
        spec_compile("PL2!n8!n16!n".spec_bytes(), 28, None, None, None)
    } else if c0 == 'P' as u8 && c1 == 'M' as u8 {
        spec_compile("PM2!n5!n5!n11!c2!n".spec_bytes(), 27, Some((4, 9)), Some((9, 14)), Some((25, 27)))
    } else if c0 == 'P' as u8 && c1 == 'S' as u8 {
        spec_compile("PS2!n4!a21!c".spec_bytes(), 29, Some((4, 8)), None, None)
    } else if c0 == 'P' as u8 && c1 == 'T' as u8 {
        spec_compile("PT2!n4!n4!n11!n2!n".spec_bytes(), 25, Some((4, 8)), Some((8, 12)), Some((23, 25)))
    } else if c0 == 'Q' as u8 && c1 == 'A' as u8 {
        spec_compile("QA2!n4!a21!c".spec_bytes(), 29, Some((4, 8)), None, None)
    } else if c0 == 'R' as u8 && c1 == 'E' as u8 {
        spec_compile("RE2!n5!n5!n11!c2!n".spec_bytes(), 27, Some((4, 9)), Some((9, 14)), Some((25, 27)))
    } else if c0 == 'R' as u8 && c1 == 'O' as u8 {
        spec_compile("RO2!n4!a16!c".spec_bytes(), 24, Some((4, 8)), None, None)
    } else if c0 == 'R' as u8 && c1 == 'S' as u8 {
        spec_compile("RS2!n3!n13!n2!n".spec_bytes(), 22, Some((4, 7)), None, Some((20, 22)))
    } else if c0 == 'S' as u8 && c1 == 'A' as u8 {
        spec_compile("SA2!n2!n18!c".spec_bytes(), 24, Some((4, 6)), None, None)
    } else if c0 == 'S' as u8 && c1 == 'C' as u8 {
        spec_compile("SC2!n4!a2!n2!n16!n3!a".spec_bytes(), 31, None, None, None)
    } else if c0 == 'S' as u8 && c1 == 'E' as u8 {
        spec_compile("SE2!n3!n16!n1!n".spec_bytes(), 24, Some((4, 7)), None, None)
    } else if c0 == 'S' as u8 && c1 == 'I' as u8 {
        spec_compile("SI2!n5!n8!n2!n".spec_bytes(), 19, Some((4, 9)), None, Some((17, 19)))
    } else if c0 == 'S' as u8 && c1 == 'K' as u8 {
        spec_compile("SK2!n4!n6!n10!n".spec_bytes(), 24, Some((4, 8)), None, None)
    } else if c0 == 'S' as u8 && c1 == 'M' as u8 {
        spec_compile("SM2!n1!a5!n5!n12!c".spec_bytes(), 27, Some((5, 10)), Some((10, 15)), Some((4, 5)))
    } else if c0 == 'S' as u8 && c1 == 'N' as u8 {
        spec_compile("SN2!n2!c22!n".spec_bytes(), 28, None, None, None)
    } else if c0 == 'S' as u8 && c1 == 'T' as u8 {
        spec_compile("ST2!n4!n4!n11!n2!n".spec_bytes(), 25, Some((4, 8)), Some((8, 12)), Some((23, 25)))
    } else if c0 == 'S' as u8 && c1 == 'V' as u8 {
        spec_compile("SV2!n4!a20!n".spec_bytes(), 28, Some((4, 8)), None, None)
    } else if c0 == 'T' as u8 && c1 == 'D' as u8 {
        spec_compile("TD2!n23!n".spec_bytes(), 27, None, None, None)
    } else if c0 == 'T' as u8 && c1 == 'F' as u8 {
        spec_compile("TF2!n5!n5!n11!c2!n".spec_bytes(), 27, Some((4, 9)), Some((9, 14)), Some((25, 27)))
    } else if c0 == 'T' as u8 && c1 == 'G' as u8 {
        spec_compile("TG2!n2!a22!n".spec_bytes(), 28, None, None, None)
    } else if c0 == 'T' as u8 && c1 == 'L' as u8 {
        spec_compile("TL2!n3!n14!n2!n".spec_bytes(), 23, Some((4, 7)), None, Some((21, 23)))
    } else if c0 == 'T' as u8 && c1 == 'N' as u8 {
        spec_compile("TN2!n2!n3!n13!n2!n".spec_bytes(), 24, Some((4, 6)), Some((6, 9)), Some((22, 24)))
    } else if c0 == 'T' as u8 && c1 == 'R' as u8 {
        spec_compile("TR2!n5!n1!n16!c".spec_bytes(), 26, Some((4, 9)), None, None)
    } else if c0 == 'U' as u8 && c1 == 'A' as u8 {
        spec_compile("UA2!n6!n19!c".spec_bytes(), 29, Some((4, 10)), None, None)
    } else if c0 == 'V' as u8 && c1 == 'G' as u8 {
        spec_compile("VG2!n4!a16!n".spec_bytes(), 24, Some((4, 8)), None, None)
    } else if c0 == 'W' as u8 && c1 == 'F' as u8 {
        spec_compile("WF2!n5!n5!n11!c2!n".spec_bytes(), 27, Some((4, 9)), Some((9, 14)), Some((25, 27)))
    } else if c0 == 'X' as u8 && c1 == 'K' as u8 {
        spec_compile("XK2!n4!n10!n2!n".spec_bytes(), 20, Some((4, 6)), Some((6, 8)), None)
    } else if c0 == 'Y' as u8 && c1 == 'T' as u8 {
        spec_compile("YT2!n5!n5!n11!c2!n".spec_bytes(), 27, Some((4, 9)), Some((9, 14)), Some((25, 27)))
    } else {
        None
    }
}

/// Looks up the compiled registry entry for a two-byte country code.
pub fn lookup(c0: u8, c1: u8) -> (r: Option<CountryRule>)
    ensures
        ({
            let s = spec_lookup(c0, c1);
            match r {
                Some(rule) => s == Some(rule@),
                None => s is None,
            }
        }),
        r matches Some(rule) ==> wf_rule(rule@),
{
    proof {
        reveal(spec_lookup);
    }
    if c0 == 'A' as u8 && c1 == 'A' as u8 {
        compile("AA2!n4!n8!i", 16, Some((4, 8)), None, None)
    } else if c0 == 'A' as u8 && c1 == 'D' as u8 {
        compile("AD2!n4!n4!n12!c", 24, Some((4, 8)), Some((8, 12)), None)
    } else if c0 == 'A' as u8 && c1 == 'E' as u8 {
        compile("AE2!n3!n16!n", 23, Some((4, 7)), None, None)
    } else if c0 == 'A' as u8 && c1 == 'L' as u8 {
        compile("AL2!n8!n16!c", 28, Some((4, 7)), Some((7, 11)), Some((11, 12)))
    } else if c0 == 'A' as u8 && c1 == 'O' as u8 {
        compile("AO2!n21!n", 25, None, None, None)
    } else if c0 == 'A' as u8 && c1 == 'T' as u8 {
        compile("AT2!n5!n11!n", 20, Some((4, 9)), None, None)
    } else if c0 == 'A' as u8 && c1 == 'X' as u8 {
        compile("AX2!n3!n11!n", 18, Some((4, 7)), None, None)
    } else if c0 == 'A' as u8 && c1 == 'Z' as u8 {
        compile("AZ2!n4!a20!c", 28, Some((4, 8)), None, None)
    } else if c0 == 'B' as u8 && c1 == 'A' as u8 {
        compile("BA2!n3!n3!n8!n2!n", 20, Some((4, 7)), Some((7, 10)), Some((18, 20)))
    } else if c0 == 'B' as u8 && c1 == 'E' as u8 {
        compile("BE2!n3!n7!n2!n", 16, Some((4, 7)), None, Some((14, 16)))
    } else if c0 == 'B' as u8 && c1 == 'F' as u8 {
        compile("BF2!n23!n", 27, None, None, None)
    } else if c0 == 'B' as u8 && c1 == 'G' as u8 {
        compile("BG2!n4!a4!n2!n8!c", 22, Some((4, 8)), Some((8, 12)), None)
    } else if c0 == 'B' as u8 && c1 == 'H' as u8 {
        compile("BH2!n4!a14!c", 22, Some((4, 8)), None, None)
    } else if c0 == 'B' as u8 && c1 == 'I' as u8 {
        compile("BI2!n12!n", 16, None, None, None)
    } else if c0 == 'B' as u8 && c1 == 'J' as u8 {
        compile("BJ2!n2!c22!n", 28, None, None, None)
    } else if c0 == 'B' as u8 && c1 == 'L' as u8 {
        compile("BL2!n5!n5!n11!c2!n", 27, Some((4, 9)), Some((9, 14)), Some((25, 27)))
    } else if c0 == 'B' as u8 && c1 == 'R' as u8 {
        compile("BR2!n8!n5!n10!n1!a1!c", 29, Some((4, 12)), Some((12, 17)), None)
    } else if c0 == 'B' as u8 && c1 == 'Y' as u8 {
        compile("BY2!n4!c4!n16!c", 28, Some((4, 8)), None, None)
    } else if c0 == 'C' as u8 && c1 == 'F' as u8 {
        compile("CF2!n23!n", 27, None, None, None)
    } else if c0 == 'C' as u8 && c1 == 'G' as u8 {
        compile("CG2!n23!n", 27, None, None, None)
    } else if c0 == 'C' as u8 && c1 == 'H' as u8 {
        compile("CH2!n5!n12!c", 21, Some((4, 9)), None, None)
    } else if c0 == 'C' as u8 && c1 == 'I' as u8 {
        compile("CI2!n2!c22!n", 28, None, None, None)
    } else if c0 == 'C' as u8 && c1 == 'M' as u8 {
        compile("CM2!n23!n", 27, None, None, None)
    } else if c0 == 'C' as u8 && c1 == 'R' as u8 {
        compile("CR2!n4!n14!n", 22, Some((4, 8)), None, None)
    } else if c0 == 'C' as u8 && c1 == 'V' as u8 {
        compile("CV2!n21!n", 25, None, None, None)
    } else if c0 == 'C' as u8 && c1 == 'Y' as u8 {
        compile("CY2!n3!n5!n16!c", 28, Some((4, 7)), Some((7, 12)), None)
    } else if c0 == 'C' as u8 && c1 == 'Z' as u8 {
        compile("CZ2!n4!n6!n10!n", 24, Some((4, 8)), None, None)
    } else if c0 == 'D' as u8 && c1 == 'E' as u8 {
        compile("DE2!n8!n10!n", 22, Some((4, 12)), None, None)
    } else if c0 == 'D' as u8 && c1 == 'J' as u8 {
        compile("DJ2!n23!n", 27, None, None, None)
    } else if c0 == 'D' as u8 && c1 == 'K' as u8 {
        compile("DK2!n4!n9!n1!n", 18, Some((4, 8)), None, None)
    } else if c0 == 'D' as u8 && c1 == 'O' as u8 {
        compile("DO2!n4!c20!n", 28, Some((4, 8)), None, None)
    } else if c0 == 'D' as u8 && c1 == 'Z' as u8 {
        compile("DZ2!n20!n", 24, None, None, None)
    } else if c0 == 'E' as u8 && c1 == 'E' as u8 {
        compile("EE2!n2!n2!n11!n1!n", 20, Some((4, 6)), None, Some((19, 20)))
    } else if c0 == 'E' as u8 && c1 == 'G' as u8 {
        compile("EG2!n4!n4!n17!n", 29, Some((4, 8)), Some((8, 12)), None)
    } else if c0 == 'E' as u8 && c1 == 'S' as u8 {
        compile("ES2!n4!n4!n1!n1!n10!n", 24, Some((4, 8)), Some((8, 12)), Some((12, 14)))
    } else if c0 == 'F' as u8 && c1 == 'I' as u8 {
        compile("FI2!n3!n11!n", 18, Some((4, 7)), None, None)
    } else if c0 == 'F' as u8 && c1 == 'O' as u8 {
        compile("FO2!n4!n9!n1!n", 18, Some((4, 8)), None, None)
    } else if c0 == 'F' as u8 && c1 == 'R' as u8 {
        compile("FR2!n5!n5!n11!c2!n", 27, Some((4, 9)), Some((9, 14)), Some((25, 27)))
    } else if c0 == 'G' as u8 && c1 == 'A' as u8 {
        compile("GA2!n23!n", 27, None, None, None)
    } else if c0 == 'G' as u8 && c1 == 'B' as u8 {
        compile("GB2!n4!a6!n8!n", 22, Some((4, 8)), Some((8, 14)), None)
    } else if c0 == 'G' as u8 && c1 == 'E' as u8 {
        compile("GE2!n2!a16!n", 22, Some((4, 6)), None, None)
    } else if c0 == 'G' as u8 && c1 == 'F' as u8 {
        compile("GF2!n5!n5!n11!c2!n", 27, Some((4, 9)), Some((9, 14)), Some((25, 27)))
    } else if c0 == 'G' as u8 && c1 == 'I' as u8 {
        compile("GI2!n4!a15!c", 23, Some((4, 8)), None, None)
    } else if c0 == 'G' as u8 && c1 == 'L' as u8 {
        compile("GL2!n4!n9!n1!n", 18, Some((4, 8)), None, None)
    } else if c0 == 'G' as u8 && c1 == 'P' as u8 {
        compile("GP2!n5!n5!n11!c2!n", 27, Some((4, 9)), Some((9, 14)), Some((25, 27)))
    } else if c0 == 'G' as u8 && c1 == 'Q' as u8 {
        compile("GQ2!n23!n", 27, None, None, None)
    } else if c0 == 'G' as u8 && c1 == 'R' as u8 {
        compile("GR2!n3!n4!n16!c", 27, Some((4, 7)), Some((7, 11)), None)
    } else if c0 == 'G' as u8 && c1 == 'T' as u8 {
        compile("GT2!n4!c20!c", 28, Some((4, 8)), None, None)
    } else if c0 == 'G' as u8 && c1 == 'W' as u8 {
        compile("GW2!n2!c19!n", 25, None, None, None)
    } else if c0 == 'H' as u8 && c1 == 'N' as u8 {
        compile("HN2!n4!a20!n", 28, Some((4, 8)), None, None)
    } else if c0 == 'H' as u8 && c1 == 'R' as u8 {
        compile("HR2!n7!n10!n", 21, Some((4, 11)), None, None)
    } else if c0 == 'H' as u8 && c1 == 'U' as u8 {
        compile("HU2!n3!n4!n1!n15!n1!n", 28, Some((4, 7)), Some((7, 11)), None)
    } else if c0 == 'I' as u8 && c1 == 'E' as u8 {
        compile("IE2!n4!a6!n8!n", 22, Some((4, 8)), Some((8, 14)), None)
    } else if c0 == 'I' as u8 && c1 == 'L' as u8 {
        compile("IL2!n3!n3!n13!n", 23, Some((4, 7)), Some((7, 10)), None)
    } else if c0 == 'I' as u8 && c1 == 'Q' as u8 {
        compile("IQ2!n4!a3!n12!n", 23, Some((4, 8)), Some((8, 11)), None)
    } else if c0 == 'I' as u8 && c1 == 'R' as u8 {
        compile("IR2!n22!n", 26, None, None, None)
    } else if c0 == 'I' as u8 && c1 == 'S' as u8 {
        compile("IS2!n4!n2!n6!n10!n", 26, Some((4, 8)), None, None)
    } else if c0 == 'I' as u8 && c1 == 'T' as u8 {
        compile("IT2!n1!a5!n5!n12!c", 27, Some((5, 10)), Some((10, 15)), Some((4, 5)))
    } else if c0 == 'J' as u8 && c1 == 'O' as u8 {
        compile("JO2!n4!a4!n18!c", 30, Some((4, 8)), Some((8, 12)), None)
    } else if c0 == 'K' as u8 && c1 == 'M' as u8 {
        compile("KM2!n23!n", 27, None, None, None)
    } else if c0 == 'K' as u8 && c1 == 'W' as u8 {
        compile("KW2!n4!a22!c", 30, Some((4, 8)), None, None)
    } else if c0 == 'K' as u8 && c1 == 'Z' as u8 {
        compile("KZ2!n3!n13!c", 20, Some((4, 7)), None, None)
    } else if c0 == 'L' as u8 && c1 == 'B' as u8 {
        compile("LB2!n4!n20!c", 28, Some((4, 8)), None, None)
    } else if c0 == 'L' as u8 && c1 == 'C' as u8 {
        compile("LC2!n4!a24!c", 32, Some((4, 8)), None, None)
    } else if c0 == 'L' as u8 && c1 == 'I' as u8 {
        compile("LI2!n5!n12!c", 21, Some((4, 9)), None, None)
    } else if c0 == 'L' as u8 && c1 == 'T' as u8 {
        compile("LT2!n5!n11!n", 20, Some((4, 9)), None, None)
    } else if c0 == 'L' as u8 && c1 == 'U' as u8 {
        compile("LU2!n3!n13!c", 20, Some((4, 7)), None, None)
    } else if c0 == 'L' as u8 && c1 == 'V' as u8 {
        compile("LV2!n4!a13!c", 21, Some((4, 8)), None, None)
    } else if c0 == 'M' as u8 && c1 == 'A' as u8 {
        compile("MA2!n24!n", 28, None, None, None)
    } else if c0 == 'M' as u8 && c1 == 'C' as u8 {
        compile("MC2!n5!n5!n11!c2!n", 27, Some((4, 9)), Some((9, 14)), Some((25, 27)))
    } else if c0 == 'M' as u8 && c1 == 'D' as u8 {
        compile("MD2!n2!c18!c", 24, Some((4, 6)), None, None)
    } else if c0 == 'M' as u8 && c1 == 'E' as u8 {
        compile("ME2!n3!n13!n2!n", 22, Some((4, 7)), None, Some((20, 22)))
    } else if c0 == 'M' as u8 && c1 == 'F' as u8 {
        compile("MF2!n5!n5!n11!c2!n", 27, Some((4, 9)), Some((9, 14)), Some((25, 27)))
    } else if c0 == 'M' as u8 && c1 == 'G' as u8 {
        compile("MG2!n23!n", 27, None, None, None)
    } else if c0 == 'M' as u8 && c1 == 'K' as u8 {
        compile("MK2!n3!n10!c2!n", 19, Some((4, 7)), None, Some((17, 19)))
    } else if c0 == 'M' as u8 && c1 == 'L' as u8 {
        compile("ML2!n2!c22!n", 28, None, None, None)
    } else if c0 == 'M' as u8 && c1 == 'Q' as u8 {
        compile("MQ2!n5!n5!n11!c2!n", 27, Some((4, 9)), Some((9, 14)), Some((25, 27)))
    } else if c0 == 'M' as u8 && c1 == 'R' as u8 {
        compile("MR2!n5!n5!n11!n2!n", 27, Some((4, 9)), Some((9, 14)), Some((25, 27)))
    } else if c0 == 'M' as u8 && c1 == 'T' as u8 {
        compile("MT2!n4!a5!n18!c", 31, Some((4, 8)), Some((8, 13)), None)
    } else if c0 == 'M' as u8 && c1 == 'U' as u8 {
        compile("MU2!n4!a2!n2!n12!n3!n3!a", 30, Some((4, 10)), Some((10, 12)), None)
    } else if c0 == 'M' as u8 && c1 == 'Z' as u8 {
        compile("MZ2!n21!n", 25, None, None, None)
    } else if c0 == 'N' as u8 && c1 == 'C' as u8 {
        compile("NC2!n5!n5!n11!c2!n", 27, Some((4, 9)), Some((9, 14)), Some((25, 27)))
    } else if c0 == 'N' as u8 && c1 == 'E' as u8 {
        compile("NE2!n2!a22!n", 28, None, None, None)
    } else if c0 == 'N' as u8 && c1 == 'I' as u8 {
        compile("NI2!n4!a24!n", 32, Some((4, 8)), None, None)
    } else if c0 == 'N' as u8 && c1 == 'L' as u8 {
        compile("NL2!n4!a10!n", 18, Some((4, 8)), None, None)
    } else if c0 == 'N' as u8 && c1 == 'O' as u8 {
        compile("NO2!n4!n6!n1!n", 15, Some((4, 8)), None, Some((14, 15)))
    } else if c0 == 'P' as u8 && c1 == 'F' as u8 {
        compile("PF2!n5!n5!n11!c2!n", 27, Some((4, 9)), Some((9, 14)), Some((25, 27)))
    } else if c0 == 'P' as u8 && c1 == 'K' as u8 {
        compile("PK2!n4!a16!c", 24, Some((4, 8)), None, None)
    } else if c0 == 'P' as u8 && c1 == 'L' as u8 {
        compile("PL2!n8!n16!n", 28, None, None, None)
    } else if c0 == 'P' as u8 && c1 == 'M' as u8 {
        compile("PM2!n5!n5!n11!c2!n", 27, Some((4, 9)), Some((9, 14)), Some((25, 27)))
    } else if c0 == 'P' as u8 && c1 == 'S' as u8 {
        compile("PS2!n4!a21!c", 29, Some((4, 8)), None, None)
    } else if c0 == 'P' as u8 && c1 == 'T' as u8 {
        compile("PT2!n4!n4!n11!n2!n", 25, Some((4, 8)), Some((8, 12)), Some((23, 25)))
    } else if c0 == 'Q' as u8 && c1 == 'A' as u8 {
        compile("QA2!n4!a21!c", 29, Some((4, 8)), None, None)
    } else if c0 == 'R' as u8 && c1 == 'E' as u8 {
        compile("RE2!n5!n5!n11!c2!n", 27, Some((4, 9)), Some((9, 14)), Some((25, 27)))
    } else if c0 == 'R' as u8 && c1 == 'O' as u8 {
        compile("RO2!n4!a16!c", 24, Some((4, 8)), None, None)
    } else if c0 == 'R' as u8 && c1 == 'S' as u8 {
        compile("RS2!n3!n13!n2!n", 22, Some((4, 7)), None, Some((20, 22)))
    } else if c0 == 'S' as u8 && c1 == 'A' as u8 {
        compile("SA2!n2!n18!c", 24, Some((4, 6)), None, None)
    } else if c0 == 'S' as u8 && c1 == 'C' as u8 {
        compile("SC2!n4!a2!n2!n16!n3!a", 31, None, None, None)
    } else if c0 == 'S' as u8 && c1 == 'E' as u8 {
        compile("SE2!n3!n16!n1!n", 24, Some((4, 7)), None, None)
    } else if c0 == 'S' as u8 && c1 == 'I' as u8 {
        compile("SI2!n5!n8!n2!n", 19, Some((4, 9)), None, Some((17, 19)))
    } else if c0 == 'S' as u8 && c1 == 'K' as u8 {
        compile("SK2!n4!n6!n10!n", 24, Some((4, 8)), None, None)
    } else if c0 == 'S' as u8 && c1 == 'M' as u8 {
        compile("SM2!n1!a5!n5!n12!c", 27, Some((5, 10)), Some((10, 15)), Some((4, 5)))
    } else if c0 == 'S' as u8 && c1 == 'N' as u8 {
        compile("SN2!n2!c22!n", 28, None, None, None)
    } else if c0 == 'S' as u8 && c1 == 'T' as u8 {
        compile("ST2!n4!n4!n11!n2!n", 25, Some((4, 8)), Some((8, 12)), Some((23, 25)))
    } else if c0 == 'S' as u8 && c1 == 'V' as u8 {
        compile("SV2!n4!a20!n", 28, Some((4, 8)), None, None)
    } else if c0 == 'T' as u8 && c1 == 'D' as u8 {
        compile("TD2!n23!n", 27, None, None, None)
    } else if c0 == 'T' as u8 && c1 == 'F' as u8 {
        compile("TF2!n5!n5!n11!c2!n", 27, Some((4, 9)), Some((9, 14)), Some((25, 27)))
    } else if c0 == 'T' as u8 && c1 == 'G' as u8 {
        compile("TG2!n2!a22!n", 28, None, None, None)
    } else if c0 == 'T' as u8 && c1 == 'L' as u8 {
        compile("TL2!n3!n14!n2!n", 23, Some((4, 7)), None, Some((21, 23)))
    } else if c0 == 'T' as u8 && c1 == 'N' as u8 {
        compile("TN2!n2!n3!n13!n2!n", 24, Some((4, 6)), Some((6, 9)), Some((22, 24)))
    } else if c0 == 'T' as u8 && c1 == 'R' as u8 {
        compile("TR2!n5!n1!n16!c", 26, Some((4, 9)), None, None)
    } else if c0 == 'U' as u8 && c1 == 'A' as u8 {
        compile("UA2!n6!n19!c", 29, Some((4, 10)), None, None)
    } else if c0 == 'V' as u8 && c1 == 'G' as u8 {
        compile("VG2!n4!a16!n", 24, Some((4, 8)), None, None)
    } else if c0 == 'W' as u8 && c1 == 'F' as u8 {
        compile("WF2!n5!n5!n11!c2!n", 27, Some((4, 9)), Some((9, 14)), Some((25, 27)))
    } else if c0 == 'X' as u8 && c1 == 'K' as u8 {
        compile("XK2!n4!n10!n2!n", 20, Some((4, 6)), Some((6, 8)), None)
    } else if c0 == 'Y' as u8 && c1 == 'T' as u8 {
        compile("YT2!n5!n5!n11!c2!n", 27, Some((4, 9)), Some((9, 14)), Some((25, 27)))
    } else {
        None
    }
}

} // verus!
