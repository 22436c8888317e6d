use ph_regions::Region;

#[test]
fn test_from_str() {
    assert_eq!(Region::from_str("ncr"), Some(Region::NCR));
    assert_eq!(Region::from_str("CAR"), Some(Region::CAR));
    assert_eq!(Region::from_str("1"), Some(Region::I));
    assert_eq!(Region::from_str("region_ii"), Some(Region::II));
    assert_eq!(Region::from_str("3"), Some(Region::III));
    assert_eq!(Region::from_str("region_iva"), Some(Region::IVA));
    assert_eq!(Region::from_str("region ivb"), Some(Region::IVB));
    assert_eq!(Region::from_str("  5  "), Some(Region::V));
    assert_eq!(Region::from_str("region_vi"), Some(Region::VI));
    assert_eq!(Region::from_str("Region VII"), Some(Region::VII));
    assert_eq!(Region::from_str("8"), Some(Region::VIII));
    assert_eq!(Region::from_str("IX"), Some(Region::IX));
    assert_eq!(Region::from_str("10"), Some(Region::X));
    assert_eq!(Region::from_str("11"), Some(Region::XI));
    assert_eq!(Region::from_str("12"), Some(Region::XII));
    assert_eq!(Region::from_str("13"), Some(Region::XIII));
    assert_eq!(Region::from_str("barmm"), Some(Region::BARMM));
    assert_eq!(Region::from_str("invalid"), None);
}

#[test]
fn parse_is_case_insensitive_and_whitespace_tolerant() {
    assert_eq!(Region::from_str("  CaR "), Some(Region::CAR));
    assert_eq!(Region::from_str("car"), Some(Region::CAR));
    assert_eq!(
        Region::from_str("Cordillera Administrative Region"),
        Some(Region::CAR)
    );
    assert_eq!(Region::from_str("\tncr\n"), Some(Region::NCR));
}

#[test]
fn parse_strips_parentheses() {
    assert_eq!(Region::from_str("(NCR)"), Some(Region::NCR));
    assert_eq!(
        Region::from_str("(NCR) National Capital Region"),
        Some(Region::NCR)
    );
}

#[test]
fn parse_rejects_unknown_text() {
    assert_eq!(Region::from_str("invalid"), None);
    assert_eq!(Region::from_str(""), None);
    assert_eq!(Region::from_str("99"), None);
    assert_eq!(Region::from_str("   "), None);
}

#[test]
fn bare_four_means_region_iva() {
    assert_eq!(Region::from_str("4"), Some(Region::IVA));
    assert_eq!(Region::from_str("4a"), Some(Region::IVA));
    assert_eq!(Region::from_str("4b"), Some(Region::IVB));
    assert_eq!(Region::from_str("ivb"), Some(Region::IVB));
}

#[test]
fn codes_parse_back() {
    for r in Region::iter() {
        assert_eq!(Region::from_str(r.code()), Some(r));
    }
}

#[test]
fn region_vii_scenario() {
    assert_eq!(Region::from_str("region_vii"), Some(Region::VII));
    assert_eq!(Region::VII.abbrev(), "Region VII");
    assert_eq!(Region::VII.name(), "Central Visayas");
}

#[test]
fn combined_alias_forms_parse() {
    assert_eq!(Region::from_str("region_i_ilocos_region"), Some(Region::I));
    assert_eq!(
        Region::from_str("Region XIII Caraga Region"),
        Some(Region::XIII)
    );
    assert_eq!(
        Region::from_str("bangsamoro autonomous region in muslim mindanao"),
        Some(Region::BARMM)
    );
}
