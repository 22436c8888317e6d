//! Parsing free-form text into a region.
//!
//! The input is normalized (see `crate::norm`) and then matched exactly
//! against a fixed alias table: numeric codes, roman-numeral codes,
//! underscore-joined names, "region_<code>" forms, and combined
//! "region_<code>_<name>" forms. There is no partial or fuzzy matching.

use vstd::prelude::*;
use crate::norm::{normalize, chars_of, normalize_vec, vec_eq_str};
use crate::region::Region;

verus! {

/// The accepted aliases of the National Capital Region.
pub open spec fn is_ncr_alias(n: Seq<char>) -> bool {
    ||| n == "ncr"@
    ||| n == "national_capital_region"@
    ||| n == "ncr_national_capital_region"@
}

/// The accepted aliases of the Cordillera Administrative Region.
pub open spec fn is_car_alias(n: Seq<char>) -> bool {
    ||| n == "car"@
    ||| n == "cordillera_administrative_region"@
    ||| n == "car_cordillera_administrative_region"@
}

/// The accepted aliases of Region I.
pub open spec fn is_i_alias(n: Seq<char>) -> bool {
    ||| n == "i"@
    ||| n == "ilocos_region"@
    ||| n == "region_i_ilocos_region"@
    ||| n == "region_i"@
    ||| n == "1"@
    ||| n == "region_1"@
}

/// The accepted aliases of Region II.
pub open spec fn is_ii_alias(n: Seq<char>) -> bool {
    ||| n == "ii"@
    ||| n == "cagayan_valley"@
    ||| n == "region_ii_cagayan_valley"@
    ||| n == "region_ii"@
    ||| n == "2"@
    ||| n == "region_2"@
}

/// The accepted aliases of Region III.
pub open spec fn is_iii_alias(n: Seq<char>) -> bool {
    ||| n == "iii"@
    ||| n == "central_luzon"@
    ||| n == "region_iii_central_luzon"@
    ||| n == "region_iii"@
    ||| n == "3"@
    ||| n == "region_3"@
}

/// The accepted aliases of Region IV-A. The bare numeral "4" belongs to
/// Region IV-A, while Region IV-B must be named explicitly.
pub open spec fn is_iva_alias(n: Seq<char>) -> bool {
    ||| n == "iva"@
    ||| n == "4a"@
    ||| n == "calabarzon"@
    ||| n == "region_iva_calabarzon"@
    ||| n == "region_iva"@
    ||| n == "4"@
    ||| n == "region_4"@
}

/// The accepted aliases of Region IV-B.
pub open spec fn is_ivb_alias(n: Seq<char>) -> bool {
    ||| n == "ivb"@
    ||| n == "mimaropa"@
    ||| n == "region_ivb_mimaropa"@
    ||| n == "region_ivb"@
    ||| n == "4b"@
    ||| n == "region_4b"@
}

/// The accepted aliases of Region V.
pub open spec fn is_v_alias(n: Seq<char>) -> bool {
    ||| n == "v"@
    ||| n == "bicol_region"@
    ||| n == "region_v_bicol_region"@
    ||| n == "region_v"@
    ||| n == "5"@
    ||| n == "region_5"@
}

/// The accepted aliases of Region VI.
pub open spec fn is_vi_alias(n: Seq<char>) -> bool {
    ||| n == "vi"@
    ||| n == "western_visayas"@
    ||| n == "region_vi_western_visayas"@
    ||| n == "region_vi"@
    ||| n == "6"@
    ||| n == "region_6"@
}

/// The accepted aliases of Region VII.
pub open spec fn is_vii_alias(n: Seq<char>) -> bool {
    ||| n == "vii"@
    ||| n == "central_visayas"@
    ||| n == "region_vii_central_visayas"@
    ||| n == "region_vii"@
    ||| n == "7"@
    ||| n == "region_7"@
}

/// The accepted aliases of Region VIII.
pub open spec fn is_viii_alias(n: Seq<char>) -> bool {
    ||| n == "viii"@
    ||| n == "eastern_visayas"@
    ||| n == "region_viii_eastern_visayas"@
    ||| n == "region_viii"@
    ||| n == "8"@
    ||| n == "region_8"@
}

/// The accepted aliases of Region IX.
pub open spec fn is_ix_alias(n: Seq<char>) -> bool {
    ||| n == "ix"@
    ||| n == "zamboanga_peninsula"@
    ||| n == "region_ix_zamboanga_peninsula"@
    ||| n == "region_ix"@
    ||| n == "9"@
    ||| n == "region_9"@
}

/// The accepted aliases of Region X.
pub open spec fn is_x_alias(n: Seq<char>) -> bool {
    ||| n == "x"@
    ||| n == "northern_mindanao"@
    ||| n == "region_x_northern_mindanao"@
    ||| n == "region_x"@
    ||| n == "10"@
    ||| n == "region_10"@
}

/// The accepted aliases of Region XI.
pub open spec fn is_xi_alias(n: Seq<char>) -> bool {
    ||| n == "xi"@
    ||| n == "davao_region"@
    ||| n == "region_xi_davao_region"@
    ||| n == "region_xi"@
    ||| n == "11"@
    ||| n == "region_11"@
}

/// The accepted aliases of Region XII.
pub open spec fn is_xii_alias(n: Seq<char>) -> bool {
    ||| n == "xii"@
    ||| n == "soccsksargen"@
    ||| n == "region_xii_soccsksargen"@
    ||| n == "region_xii"@
    ||| n == "12"@
    ||| n == "region_12"@
}

/// The accepted aliases of Region XIII.
pub open spec fn is_xiii_alias(n: Seq<char>) -> bool {
    ||| n == "xiii"@
    ||| n == "caraga_region"@
    ||| n == "region_xiii_caraga_region"@
    ||| n == "region_xiii"@
    ||| n == "13"@
    ||| n == "region_13"@
}

/// The accepted aliases of the Bangsamoro Autonomous Region.
pub open spec fn is_barmm_alias(n: Seq<char>) -> bool {
    ||| n == "barmm"@
    ||| n == "bangsamoro_autonomous_region_in_muslim_mindanao"@
    ||| n == "barmm_bangsamoro_autonomous_region_in_muslim_mindanao"@
}

/// The region whose alias table holds the normalized text `n`, if any.
pub open spec fn region_of_norm(n: Seq<char>) -> Option<Region> {
    if is_ncr_alias(n) {
        Some(Region::NCR)
    } else if is_car_alias(n) {
        Some(Region::CAR)
    } else if is_i_alias(n) {
        Some(Region::I)
    } else if is_ii_alias(n) {
        Some(Region::II)
    } else if is_iii_alias(n) {
        Some(Region::III)
    } else if is_iva_alias(n) {
        Some(Region::IVA)
    } else if is_ivb_alias(n) {
        Some(Region::IVB)
    } else if is_v_alias(n) {
        Some(Region::V)
    } else if is_vi_alias(n) {
        Some(Region::VI)
    } else if is_vii_alias(n) {
        Some(Region::VII)
    } else if is_viii_alias(n) {
        Some(Region::VIII)
    } else if is_ix_alias(n) {
        Some(Region::IX)
    } else if is_x_alias(n) {
        Some(Region::X)
    } else if is_xi_alias(n) {
        Some(Region::XI)
    } else if is_xii_alias(n) {
        Some(Region::XII)
    } else if is_xiii_alias(n) {
        Some(Region::XIII)
    } else if is_barmm_alias(n) {
        Some(Region::BARMM)
    } else {
        None
    }
}

/// What parsing returns on the text `s`: its normalized form looked up in
/// the alias table.
pub open spec fn parse_spec(s: Seq<char>) -> Option<Region> {
    region_of_norm(normalize(s))
}

fn matches_ncr(v: &Vec<char>) -> (r: bool)
    ensures
        r == is_ncr_alias(v@),
{
    vec_eq_str(v, "ncr") || vec_eq_str(v, "national_capital_region")
        || vec_eq_str(v, "ncr_national_capital_region")
}

fn matches_car(v: &Vec<char>) -> (r: bool)
    ensures
        r == is_car_alias(v@),
{
    vec_eq_str(v, "car") || vec_eq_str(v, "cordillera_administrative_region")
        || vec_eq_str(v, "car_cordillera_administrative_region")
}

fn matches_i(v: &Vec<char>) -> (r: bool)
    ensures
        r == is_i_alias(v@),
{
    vec_eq_str(v, "i") || vec_eq_str(v, "ilocos_region")
        || vec_eq_str(v, "region_i_ilocos_region") || vec_eq_str(v, "region_i")
        || vec_eq_str(v, "1") || vec_eq_str(v, "region_1")
}

fn matches_ii(v: &Vec<char>) -> (r: bool)
    ensures
        r == is_ii_alias(v@),
{
    vec_eq_str(v, "ii") || vec_eq_str(v, "cagayan_valley")
        || vec_eq_str(v, "region_ii_cagayan_valley") || vec_eq_str(v, "region_ii")
        || vec_eq_str(v, "2") || vec_eq_str(v, "region_2")
}

fn matches_iii(v: &Vec<char>) -> (r: bool)
    ensures
        r == is_iii_alias(v@),
{
    vec_eq_str(v, "iii") || vec_eq_str(v, "central_luzon")
        || vec_eq_str(v, "region_iii_central_luzon") || vec_eq_str(v, "region_iii")
        || vec_eq_str(v, "3") || vec_eq_str(v, "region_3")
}

fn matches_iva(v: &Vec<char>) -> (r: bool)
    ensures
        r == is_iva_alias(v@),
{
    vec_eq_str(v, "iva") || vec_eq_str(v, "4a") || vec_eq_str(v, "calabarzon")
        || vec_eq_str(v, "region_iva_calabarzon") || vec_eq_str(v, "region_iva")
        || vec_eq_str(v, "4") || vec_eq_str(v, "region_4")
}

fn matches_ivb(v: &Vec<char>) -> (r: bool)
    ensures
        r == is_ivb_alias(v@),
{
    vec_eq_str(v, "ivb") || vec_eq_str(v, "mimaropa")
        || vec_eq_str(v, "region_ivb_mimaropa") || vec_eq_str(v, "region_ivb")
        || vec_eq_str(v, "4b") || vec_eq_str(v, "region_4b")
}

fn matches_v(v: &Vec<char>) -> (r: bool)
    ensures
        r == is_v_alias(v@),
{
    vec_eq_str(v, "v") || vec_eq_str(v, "bicol_region")
        || vec_eq_str(v, "region_v_bicol_region") || vec_eq_str(v, "region_v")
        || vec_eq_str(v, "5") || vec_eq_str(v, "region_5")
}

fn matches_vi(v: &Vec<char>) -> (r: bool)
    ensures
        r == is_vi_alias(v@),
{
    vec_eq_str(v, "vi") || vec_eq_str(v, "western_visayas")
        || vec_eq_str(v, "region_vi_western_visayas") || vec_eq_str(v, "region_vi")
        || vec_eq_str(v, "6") || vec_eq_str(v, "region_6")
}

fn matches_vii(v: &Vec<char>) -> (r: bool)
    ensures
        r == is_vii_alias(v@),
{
    vec_eq_str(v, "vii") || vec_eq_str(v, "central_visayas")
        || vec_eq_str(v, "region_vii_central_visayas") || vec_eq_str(v, "region_vii")
        || vec_eq_str(v, "7") || vec_eq_str(v, "region_7")
}

fn matches_viii(v: &Vec<char>) -> (r: bool)
    ensures
        r == is_viii_alias(v@),
{
    vec_eq_str(v, "viii") || vec_eq_str(v, "eastern_visayas")
        || vec_eq_str(v, "region_viii_eastern_visayas") || vec_eq_str(v, "region_viii")
        || vec_eq_str(v, "8") || vec_eq_str(v, "region_8")
}

fn matches_ix(v: &Vec<char>) -> (r: bool)
    ensures
        r == is_ix_alias(v@),
{
    vec_eq_str(v, "ix") || vec_eq_str(v, "zamboanga_peninsula")
        || vec_eq_str(v, "region_ix_zamboanga_peninsula") || vec_eq_str(v, "region_ix")
        || vec_eq_str(v, "9") || vec_eq_str(v, "region_9")
}

fn matches_x(v: &Vec<char>) -> (r: bool)
    ensures
        r == is_x_alias(v@),
{
    vec_eq_str(v, "x") || vec_eq_str(v, "northern_mindanao")
        || vec_eq_str(v, "region_x_northern_mindanao") || vec_eq_str(v, "region_x")
        || vec_eq_str(v, "10") || vec_eq_str(v, "region_10")
}

fn matches_xi(v: &Vec<char>) -> (r: bool)
    ensures
        r == is_xi_alias(v@),
{
    vec_eq_str(v, "xi") || vec_eq_str(v, "davao_region")
        || vec_eq_str(v, "region_xi_davao_region") || vec_eq_str(v, "region_xi")
        || vec_eq_str(v, "11") || vec_eq_str(v, "region_11")
}

fn matches_xii(v: &Vec<char>) -> (r: bool)
    ensures
        r == is_xii_alias(v@),
{
    vec_eq_str(v, "xii") || vec_eq_str(v, "soccsksargen")
        || vec_eq_str(v, "region_xii_soccsksargen") || vec_eq_str(v, "region_xii")
        || vec_eq_str(v, "12") || vec_eq_str(v, "region_12")
}

fn matches_xiii(v: &Vec<char>) -> (r: bool)
    ensures
        r == is_xiii_alias(v@),
{
    vec_eq_str(v, "xiii") || vec_eq_str(v, "caraga_region")
        || vec_eq_str(v, "region_xiii_caraga_region") || vec_eq_str(v, "region_xiii")
        || vec_eq_str(v, "13") || vec_eq_str(v, "region_13")
}

fn matches_barmm(v: &Vec<char>) -> (r: bool)
    ensures
        r == is_barmm_alias(v@),
{
    vec_eq_str(v, "barmm") || vec_eq_str(v, "bangsamoro_autonomous_region_in_muslim_mindanao")
        || vec_eq_str(v, "barmm_bangsamoro_autonomous_region_in_muslim_mindanao")
}

impl Region {
    /// Parses free-form text into a region.
    ///
    /// The text is trimmed, ASCII capitals are lowercased (the aliases are
    /// all ASCII, so no other case folding can produce a match), spaces
    /// become underscores and parentheses are stripped; the result is then
    /// matched exactly against the alias table. Returns the matching
    /// region, or `None` when no alias matches.
    pub fn from_str(s: &str) -> (r: Option<Region>)
        ensures
            r == parse_spec(s@),
    {
        let chars = chars_of(s);
        let norm = normalize_vec(&chars);
        if matches_ncr(&norm) {
            Some(Region::NCR)
        } else if matches_car(&norm) {
            Some(Region::CAR)
        } else if matches_i(&norm) {
            Some(Region::I)
        } else if matches_ii(&norm) {
            Some(Region::II)
        } else if matches_iii(&norm) {
            Some(Region::III)
        } else if matches_iva(&norm) {
            Some(Region::IVA)
        } else if matches_ivb(&norm) {
            Some(Region::IVB)
        } else if matches_v(&norm) {
            Some(Region::V)
        } else if matches_vi(&norm) {
            Some(Region::VI)
        } else if matches_vii(&norm) {
            Some(Region::VII)
        } else if matches_viii(&norm) {
            Some(Region::VIII)
        } else if matches_ix(&norm) {
            Some(Region::IX)
        } else if matches_x(&norm) {
            Some(Region::X)
        } else if matches_xi(&norm) {
            Some(Region::XI)
        } else if matches_xii(&norm) {
            Some(Region::XII)
        } else if matches_xiii(&norm) {
            Some(Region::XIII)
        } else if matches_barmm(&norm) {
            Some(Region::BARMM)
        } else {
            None
        }
    }
}

} // verus!
