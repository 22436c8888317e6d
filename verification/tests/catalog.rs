use ph_regions::Region;

#[test]
fn test_iter() {
    let regions = Region::iter();
    assert_eq!(regions[0], Region::NCR);
    assert_eq!(regions.iter().skip(1).count(), 16); // Test after one item was taken
}

#[test]
fn test_display() {
    let ncr = Region::NCR;
    assert_eq!(ncr.display(), "(NCR) National Capital Region");
}

#[test]
fn test_keys() {
    let keys = Region::keys();
    assert_eq!(keys.len(), 17);
    assert!(keys.contains(&"ncr"));
    assert!(keys.contains(&"car"));
}

#[test]
fn test_codes() {
    let codes = Region::codes();
    assert_eq!(codes.len(), 17);
    assert!(codes.contains(&"Region I"));
    assert!(codes.contains(&"Region II"));
}

#[test]
fn test_names() {
    let names = Region::names();
    assert_eq!(names.len(), 17);
    assert!(names.contains(&"National Capital Region"));
    assert!(names.contains(&"Cordillera Administrative Region"));
}

fn lookup<'a>(table: &'a [(&'a str, &'a str)], key: &str) -> Option<&'a str> {
    table.iter().find(|entry| entry.0 == key).map(|entry| entry.1)
}

#[test]
fn test_list() {
    let list = Region::list();
    assert_eq!(lookup(&list, "ncr"), Some("National Capital Region"));
    assert_eq!(lookup(&list, "car"), Some("Cordillera Administrative Region"));
}

#[test]
fn test_list_by_full_name() {
    let list = Region::list_by_full_name();
    assert_eq!(lookup(&list, "ncr"), Some("(NCR) National Capital Region"));
    assert_eq!(lookup(&list, "car"), Some("(CAR) Cordillera Administrative Region"));
}

#[test]
fn attributes_are_nonempty() {
    for r in Region::iter() {
        assert!(!r.code().is_empty());
        assert!(!r.abbrev().is_empty());
        assert!(!r.name().is_empty());
        assert!(!r.full_name().is_empty());
    }
}

#[test]
fn codes_are_pairwise_distinct() {
    let keys = Region::keys();
    for i in 0..keys.len() {
        for j in 0..keys.len() {
            if i != j {
                assert_ne!(keys[i], keys[j]);
            }
        }
    }
}

#[test]
fn enumeration_is_fixed_and_restartable() {
    let first = Region::iter();
    let second = Region::iter();
    assert_eq!(first.len(), 17);
    assert_eq!(first, second);
    assert_eq!(first[0], Region::NCR);
    assert_eq!(first[16], Region::BARMM);
}

#[test]
fn catalogs_have_seventeen_entries() {
    assert_eq!(Region::list().len(), 17);
    assert_eq!(Region::list_by_full_name().len(), 17);
}

#[test]
fn projections_follow_enumeration_order() {
    let regions = Region::iter();
    let keys = Region::keys();
    let abbrevs = Region::codes();
    let names = Region::names();
    for i in 0..regions.len() {
        assert_eq!(keys[i], regions[i].code());
        assert_eq!(abbrevs[i], regions[i].abbrev());
        assert_eq!(names[i], regions[i].name());
    }
}

#[test]
fn attribute_values_are_exact() {
    assert_eq!(Region::IVA.code(), "4a");
    assert_eq!(Region::IVA.abbrev(), "Region IV-A");
    assert_eq!(Region::IVA.name(), "CALABARZON");
    assert_eq!(Region::IVA.full_name(), "(Region IVA) CALABARZON");
    assert_eq!(Region::X.code(), "10");
    assert_eq!(Region::X.abbrev(), "Region X");
    assert_eq!(Region::X.name(), "Northern Mindanao");
    assert_eq!(Region::X.full_name(), "(Region X) Northern Mindanao");
    assert_eq!(Region::BARMM.code(), "barmm");
    assert_eq!(
        Region::BARMM.full_name(),
        "(BARMM) Bangsamoro Autonomous Region in Muslim Mindanao"
    );
}

#[test]
fn display_matches_abbrev_and_name() {
    for r in Region::iter() {
        assert_eq!(r.display(), format!("({}) {}", r.abbrev(), r.name()));
    }
}
