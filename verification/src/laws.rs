//! The general laws of the catalog, stated and proved for all inputs.

use vstd::prelude::*;
use crate::norm::{is_ws, lower_seq, lemma_normalize_lower, lemma_normalize_padded,
    lemma_normalize_plain};
use crate::parse::parse_spec;
use crate::region::{Region, spec_code, spec_abbrev, spec_name, spec_full_name};

verus! {

/// Every region's code, abbreviation, name, and full name are non-empty.
pub proof fn lemma_attributes_nonempty(r: Region)
    ensures
        spec_code(r).len() > 0,
        spec_abbrev(r).len() > 0,
        spec_name(r).len() > 0,
        spec_full_name(r).len() > 0,
{
    match r {
        Region::NCR => {
            reveal_strlit("ncr");
            reveal_strlit("NCR");
            reveal_strlit("National Capital Region");
            reveal_strlit("(NCR) National Capital Region");
        }
        Region::CAR => {
            reveal_strlit("car");
            reveal_strlit("CAR");
            reveal_strlit("Cordillera Administrative Region");
            reveal_strlit("(CAR) Cordillera Administrative Region");
        }
        Region::I => {
            reveal_strlit("1");
            reveal_strlit("Region I");
            reveal_strlit("Ilocos Region");
            reveal_strlit("(Region I) Ilocos Region");
        }
        Region::II => {
            reveal_strlit("2");
            reveal_strlit("Region II");
            reveal_strlit("Cagayan Valley");
            reveal_strlit("(Region II) Cagayan Valley");
        }
        Region::III => {
            reveal_strlit("3");
            reveal_strlit("Region III");
            reveal_strlit("Central Luzon");
            reveal_strlit("(Region III) Central Luzon");
        }
        Region::IVA => {
            reveal_strlit("4a");
            reveal_strlit("Region IV-A");
            reveal_strlit("CALABARZON");
            reveal_strlit("(Region IVA) CALABARZON");
        }
        Region::IVB => {
            reveal_strlit("4b");
            reveal_strlit("Region IV-B");
            reveal_strlit("MIMAROPA");
            reveal_strlit("(Region IVB) MIMAROPA");
        }
        Region::V => {
            reveal_strlit("5");
            reveal_strlit("Region V");
            reveal_strlit("Bicol Region");
            reveal_strlit("(Region V) Bicol Region");
        }
        Region::VI => {
            reveal_strlit("6");
            reveal_strlit("Region VI");
            reveal_strlit("Western Visayas");
            reveal_strlit("(Region VI) Western Visayas");
        }
        Region::VII => {
            reveal_strlit("7");
            reveal_strlit("Region VII");
            reveal_strlit("Central Visayas");
            reveal_strlit("(Region VII) Central Visayas");
        }
        Region::VIII => {
            reveal_strlit("8");
            reveal_strlit("Region VIII");
            reveal_strlit("Eastern Visayas");
            reveal_strlit("(Region VIII) Eastern Visayas");
        }
        Region::IX => {
            reveal_strlit("9");
            reveal_strlit("Region IX");
            reveal_strlit("Zamboanga Peninsula");
            reveal_strlit("(Region IX) Zamboanga Peninsula");
        }
        Region::X => {
            reveal_strlit("10");
            reveal_strlit("Region X");
            reveal_strlit("Northern Mindanao");
            reveal_strlit("(Region X) Northern Mindanao");
        }
        Region::XI => {
            reveal_strlit("11");
            reveal_strlit("Region XI");
            reveal_strlit("Davao Region");
            reveal_strlit("(Region XI) Davao Region");
        }
        Region::XII => {
            reveal_strlit("12");
            reveal_strlit("Region XII");
            reveal_strlit("SOCCSKSARGEN");
            reveal_strlit("(Region XII) SOCCSKSARGEN");
        }
        Region::XIII => {
            reveal_strlit("13");
            reveal_strlit("Region XIII");
            reveal_strlit("Caraga Region");
            reveal_strlit("(Region XIII) Caraga Region");
        }
        Region::BARMM => {
            reveal_strlit("barmm");
            reveal_strlit("BARMM");
            reveal_strlit("Bangsamoro Autonomous Region in Muslim Mindanao");
            reveal_strlit("(BARMM) Bangsamoro Autonomous Region in Muslim Mindanao");
        }
    }
}

/// No two regions share a code.
pub proof fn lemma_codes_distinct(a: Region, b: Region)
    requires
        a != b,
    ensures
        spec_code(a) != spec_code(b),
{
    reveal_strlit("ncr");
    reveal_strlit("car");
    reveal_strlit("1");
    reveal_strlit("2");
    reveal_strlit("3");
    reveal_strlit("4a");
    reveal_strlit("4b");
    reveal_strlit("5");
    reveal_strlit("6");
    reveal_strlit("7");
    reveal_strlit("8");
    reveal_strlit("9");
    reveal_strlit("10");
    reveal_strlit("11");
    reveal_strlit("12");
    reveal_strlit("13");
    reveal_strlit("barmm");
    assert("ncr"@.len() == 3);
    assert("ncr"@[0] == 'n');
    assert("car"@.len() == 3);
    assert("car"@[0] == 'c');
    assert("1"@.len() == 1);
    assert("1"@[0] == '1');
    assert("2"@.len() == 1);
    assert("2"@[0] == '2');
    assert("3"@.len() == 1);
    assert("3"@[0] == '3');
    assert("4a"@.len() == 2);
    assert("4a"@[0] == '4');
    assert("4a"@[1] == 'a');
    assert("4b"@.len() == 2);
    assert("4b"@[0] == '4');
    assert("4b"@[1] == 'b');
    assert("5"@.len() == 1);
    assert("5"@[0] == '5');
    assert("6"@.len() == 1);
    assert("6"@[0] == '6');
    assert("7"@.len() == 1);
    assert("7"@[0] == '7');
    assert("8"@.len() == 1);
    assert("8"@[0] == '8');
    assert("9"@.len() == 1);
    assert("9"@[0] == '9');
    assert("10"@.len() == 2);
    assert("10"@[0] == '1');
    assert("10"@[1] == '0');
    assert("11"@.len() == 2);
    assert("11"@[0] == '1');
    assert("11"@[1] == '1');
    assert("12"@.len() == 2);
    assert("12"@[0] == '1');
    assert("12"@[1] == '2');
    assert("13"@.len() == 2);
    assert("13"@[0] == '1');
    assert("13"@[1] == '3');
    assert("barmm"@.len() == 5);
    assert("barmm"@[0] == 'b');
}

/// Parsing a region's canonical code recovers that region.
pub proof fn lemma_code_round_trip(r: Region)
    ensures
        parse_spec(spec_code(r)) == Some(r),
{
    reveal_strlit("ncr");
    reveal_strlit("national_capital_region");
    reveal_strlit("ncr_national_capital_region");
    reveal_strlit("car");
    reveal_strlit("cordillera_administrative_region");
    reveal_strlit("car_cordillera_administrative_region");
    reveal_strlit("i");
    reveal_strlit("ilocos_region");
    reveal_strlit("region_i_ilocos_region");
    reveal_strlit("region_i");
    reveal_strlit("1");
    reveal_strlit("region_1");
    reveal_strlit("ii");
    reveal_strlit("cagayan_valley");
    reveal_strlit("region_ii_cagayan_valley");
    reveal_strlit("region_ii");
    reveal_strlit("2");
    reveal_strlit("region_2");
    reveal_strlit("iii");
    reveal_strlit("central_luzon");
    reveal_strlit("region_iii_central_luzon");
    reveal_strlit("region_iii");
    reveal_strlit("3");
    reveal_strlit("region_3");
    reveal_strlit("iva");
    reveal_strlit("4a");
    reveal_strlit("calabarzon");
    reveal_strlit("region_iva_calabarzon");
    reveal_strlit("region_iva");
    reveal_strlit("4");
    reveal_strlit("region_4");
    reveal_strlit("ivb");
    reveal_strlit("mimaropa");
    reveal_strlit("region_ivb_mimaropa");
    reveal_strlit("region_ivb");
    reveal_strlit("4b");
    reveal_strlit("region_4b");
    reveal_strlit("v");
    reveal_strlit("bicol_region");
    reveal_strlit("region_v_bicol_region");
    reveal_strlit("region_v");
    reveal_strlit("5");
    reveal_strlit("region_5");
    reveal_strlit("vi");
    reveal_strlit("western_visayas");
    reveal_strlit("region_vi_western_visayas");
    reveal_strlit("region_vi");
    reveal_strlit("6");
    reveal_strlit("region_6");
    reveal_strlit("vii");
    reveal_strlit("central_visayas");
    reveal_strlit("region_vii_central_visayas");
    reveal_strlit("region_vii");
    reveal_strlit("7");
    reveal_strlit("region_7");
    reveal_strlit("viii");
    reveal_strlit("eastern_visayas");
    reveal_strlit("region_viii_eastern_visayas");
    reveal_strlit("region_viii");
    reveal_strlit("8");
    reveal_strlit("region_8");
    reveal_strlit("ix");
    reveal_strlit("zamboanga_peninsula");
    reveal_strlit("region_ix_zamboanga_peninsula");
    reveal_strlit("region_ix");
    reveal_strlit("9");
    reveal_strlit("region_9");
    reveal_strlit("x");
    reveal_strlit("northern_mindanao");
    reveal_strlit("region_x_northern_mindanao");
    reveal_strlit("region_x");
    reveal_strlit("10");
    reveal_strlit("region_10");
    reveal_strlit("xi");
    reveal_strlit("davao_region");
    reveal_strlit("region_xi_davao_region");
    reveal_strlit("region_xi");
    reveal_strlit("11");
    reveal_strlit("region_11");
    reveal_strlit("xii");
    reveal_strlit("soccsksargen");
    reveal_strlit("region_xii_soccsksargen");
    reveal_strlit("region_xii");
    reveal_strlit("12");
    reveal_strlit("region_12");
    reveal_strlit("xiii");
    reveal_strlit("caraga_region");
    reveal_strlit("region_xiii_caraga_region");
    reveal_strlit("region_xiii");
    reveal_strlit("13");
    reveal_strlit("region_13");
    reveal_strlit("barmm");
    reveal_strlit("bangsamoro_autonomous_region_in_muslim_mindanao");
    reveal_strlit("barmm_bangsamoro_autonomous_region_in_muslim_mindanao");
    match r {
        Region::NCR => {
            lemma_normalize_plain("ncr"@);
            assert(parse_spec(spec_code(r)) == Some(Region::NCR));
        }
        Region::CAR => {
            lemma_normalize_plain("car"@);
            assert(parse_spec(spec_code(r)) == Some(Region::CAR));
        }
        Region::I => {
            lemma_normalize_plain("1"@);
            assert(parse_spec(spec_code(r)) == Some(Region::I));
        }
        Region::II => {
            lemma_normalize_plain("2"@);
            assert(parse_spec(spec_code(r)) == Some(Region::II));
        }
        Region::III => {
            lemma_normalize_plain("3"@);
            assert(parse_spec(spec_code(r)) == Some(Region::III));
        }
        Region::IVA => {
            lemma_normalize_plain("4a"@);
            assert(parse_spec(spec_code(r)) == Some(Region::IVA));
        }
        Region::IVB => {
            lemma_normalize_plain("4b"@);
            assert(parse_spec(spec_code(r)) == Some(Region::IVB));
        }
        Region::V => {
            lemma_normalize_plain("5"@);
            assert(parse_spec(spec_code(r)) == Some(Region::V));
        }
        Region::VI => {
            lemma_normalize_plain("6"@);
            assert(parse_spec(spec_code(r)) == Some(Region::VI));
        }
        Region::VII => {
            lemma_normalize_plain("7"@);
            assert(parse_spec(spec_code(r)) == Some(Region::VII));
        }
        Region::VIII => {
            lemma_normalize_plain("8"@);
            assert(parse_spec(spec_code(r)) == Some(Region::VIII));
        }
        Region::IX => {
            lemma_normalize_plain("9"@);
            assert(parse_spec(spec_code(r)) == Some(Region::IX));
        }
        Region::X => {
            lemma_normalize_plain("10"@);
            assert(parse_spec(spec_code(r)) == Some(Region::X));
        }
        Region::XI => {
            lemma_normalize_plain("11"@);
            assert(parse_spec(spec_code(r)) == Some(Region::XI));
        }
        Region::XII => {
            lemma_normalize_plain("12"@);
            assert(parse_spec(spec_code(r)) == Some(Region::XII));
        }
        Region::XIII => {
            lemma_normalize_plain("13"@);
            assert(parse_spec(spec_code(r)) == Some(Region::XIII));
        }
        Region::BARMM => {
            lemma_normalize_plain("barmm"@);
            assert(parse_spec(spec_code(r)) == Some(Region::BARMM));
        }
    }
}

/// Parsing is case-insensitive: lowercasing the input first changes nothing.
pub proof fn lemma_parse_case_insensitive(s: Seq<char>)
    ensures
        parse_spec(lower_seq(s)) == parse_spec(s),
{
    lemma_normalize_lower(s);
}

/// Parsing tolerates surrounding white space: padding the input with any
/// white-space prefix and suffix changes nothing.
pub proof fn lemma_parse_whitespace_tolerant(s: Seq<char>, w1: Seq<char>, w2: Seq<char>)
    requires
        forall|i: int| 0 <= i < w1.len() ==> is_ws(w1[i]),
        forall|i: int| 0 <= i < w2.len() ==> is_ws(w2[i]),
    ensures
        parse_spec(w1 + s + w2) == parse_spec(s),
{
    lemma_normalize_padded(s, w1, w2);
}

} // verus!
