//! The region identifiers and their canonical string attributes.

use vstd::prelude::*;

verus! {

/// One of the seventeen first-level administrative regions.
///
/// The set of variants is closed: no other region is ever constructed, and
/// the declaration order below is the canonical enumeration order.
#[derive(Debug, Clone, Copy, PartialEq, Eq, Structural)]
pub enum Region {
    NCR,
    CAR,
    I,
    II,
    III,
    IVA,
    IVB,
    V,
    VI,
    VII,
    VIII,
    IX,
    X,
    XI,
    XII,
    XIII,
    BARMM,
}

/// The canonical enumeration order of the regions.
pub open spec fn region_order() -> Seq<Region> {
    seq![
        Region::NCR,
        Region::CAR,
        Region::I,
        Region::II,
        Region::III,
        Region::IVA,
        Region::IVB,
        Region::V,
        Region::VI,
        Region::VII,
        Region::VIII,
        Region::IX,
        Region::X,
        Region::XI,
        Region::XII,
        Region::XIII,
        Region::BARMM,
    ]
}

/// The short lowercase machine code of a region.
pub open spec fn spec_code(r: Region) -> Seq<char> {
    match r {
        Region::NCR => "ncr"@,
        Region::CAR => "car"@,
        Region::I => "1"@,
        Region::II => "2"@,
        Region::III => "3"@,
        Region::IVA => "4a"@,
        Region::IVB => "4b"@,
        Region::V => "5"@,
        Region::VI => "6"@,
        Region::VII => "7"@,
        Region::VIII => "8"@,
        Region::IX => "9"@,
        Region::X => "10"@,
        Region::XI => "11"@,
        Region::XII => "12"@,
        Region::XIII => "13"@,
        Region::BARMM => "barmm"@,
    }
}

/// The display abbreviation of a region.
pub open spec fn spec_abbrev(r: Region) -> Seq<char> {
    match r {
        Region::NCR => "NCR"@,
        Region::CAR => "CAR"@,
        Region::I => "Region I"@,
        Region::II => "Region II"@,
        Region::III => "Region III"@,
        Region::IVA => "Region IV-A"@,
        Region::IVB => "Region IV-B"@,
        Region::V => "Region V"@,
        Region::VI => "Region VI"@,
        Region::VII => "Region VII"@,
        Region::VIII => "Region VIII"@,
        Region::IX => "Region IX"@,
        Region::X => "Region X"@,
        Region::XI => "Region XI"@,
        Region::XII => "Region XII"@,
        Region::XIII => "Region XIII"@,
        Region::BARMM => "BARMM"@,
    }
}

/// The canonical English name of a region.
pub open spec fn spec_name(r: Region) -> Seq<char> {
    match r {
        Region::NCR => "National Capital Region"@,
        Region::CAR => "Cordillera Administrative Region"@,
        Region::I => "Ilocos Region"@,
        Region::II => "Cagayan Valley"@,
        Region::III => "Central Luzon"@,
        Region::IVA => "CALABARZON"@,
        Region::IVB => "MIMAROPA"@,
        Region::V => "Bicol Region"@,
        Region::VI => "Western Visayas"@,
        Region::VII => "Central Visayas"@,
        Region::VIII => "Eastern Visayas"@,
        Region::IX => "Zamboanga Peninsula"@,
        Region::X => "Northern Mindanao"@,
        Region::XI => "Davao Region"@,
        Region::XII => "SOCCSKSARGEN"@,
        Region::XIII => "Caraga Region"@,
        Region::BARMM => "Bangsamoro Autonomous Region in Muslim Mindanao"@,
    }
}

/// The combined full name of a region.
///
/// For the numbered regions this literal form differs from the abbreviation
/// (for example "(Region IVA)" here against the abbreviation "Region IV-A");
/// both literal forms are part of the catalog and are kept as they are.
pub open spec fn spec_full_name(r: Region) -> Seq<char> {
    match r {
        Region::NCR => "(NCR) National Capital Region"@,
        Region::CAR => "(CAR) Cordillera Administrative Region"@,
        Region::I => "(Region I) Ilocos Region"@,
        Region::II => "(Region II) Cagayan Valley"@,
        Region::III => "(Region III) Central Luzon"@,
        Region::IVA => "(Region IVA) CALABARZON"@,
        Region::IVB => "(Region IVB) MIMAROPA"@,
        Region::V => "(Region V) Bicol Region"@,
        Region::VI => "(Region VI) Western Visayas"@,
        Region::VII => "(Region VII) Central Visayas"@,
        Region::VIII => "(Region VIII) Eastern Visayas"@,
        Region::IX => "(Region IX) Zamboanga Peninsula"@,
        Region::X => "(Region X) Northern Mindanao"@,
        Region::XI => "(Region XI) Davao Region"@,
        Region::XII => "(Region XII) SOCCSKSARGEN"@,
        Region::XIII => "(Region XIII) Caraga Region"@,
        Region::BARMM => "(BARMM) Bangsamoro Autonomous Region in Muslim Mindanao"@,
    }
}

/// The general human-readable form: the abbreviation in parentheses,
/// a space, then the name.
pub open spec fn spec_display(r: Region) -> Seq<char> {
    "("@ + spec_abbrev(r) + ") "@ + spec_name(r)
}

impl Region {
    /// The short lowercase machine code, usable as a map key.
    pub fn code(&self) -> (r: &'static str)
        ensures
            r@ == spec_code(*self),
    {
        match *self {
            Region::NCR => "ncr",
            Region::CAR => "car",
            Region::I => "1",
            Region::II => "2",
            Region::III => "3",
            Region::IVA => "4a",
            Region::IVB => "4b",
            Region::V => "5",
            Region::VI => "6",
            Region::VII => "7",
            Region::VIII => "8",
            Region::IX => "9",
            Region::X => "10",
            Region::XI => "11",
            Region::XII => "12",
            Region::XIII => "13",
            Region::BARMM => "barmm",
        }
    }

    /// The display abbreviation.
    pub fn abbrev(&self) -> (r: &'static str)
        ensures
            r@ == spec_abbrev(*self),
    {
        match *self {
            Region::NCR => "NCR",
            Region::CAR => "CAR",
            Region::I => "Region I",
            Region::II => "Region II",
            Region::III => "Region III",
            Region::IVA => "Region IV-A",
            Region::IVB => "Region IV-B",
            Region::V => "Region V",
            Region::VI => "Region VI",
            Region::VII => "Region VII",
            Region::VIII => "Region VIII",
            Region::IX => "Region IX",
            Region::X => "Region X",
            Region::XI => "Region XI",
            Region::XII => "Region XII",
            Region::XIII => "Region XIII",
            Region::BARMM => "BARMM",
        }
    }

    /// The canonical English name.
    pub fn name(&self) -> (r: &'static str)
        ensures
            r@ == spec_name(*self),
    {
        match *self {
            Region::NCR => "National Capital Region",
            Region::CAR => "Cordillera Administrative Region",
            Region::I => "Ilocos Region",
            Region::II => "Cagayan Valley",
            Region::III => "Central Luzon",
            Region::IVA => "CALABARZON",
            Region::IVB => "MIMAROPA",
            Region::V => "Bicol Region",
            Region::VI => "Western Visayas",
            Region::VII => "Central Visayas",
            Region::VIII => "Eastern Visayas",
            Region::IX => "Zamboanga Peninsula",
            Region::X => "Northern Mindanao",
            Region::XI => "Davao Region",
            Region::XII => "SOCCSKSARGEN",
            Region::XIII => "Caraga Region",
            Region::BARMM => "Bangsamoro Autonomous Region in Muslim Mindanao",
        }
    }

    /// The combined full name.
    pub fn full_name(&self) -> (r: &'static str)
        ensures
            r@ == spec_full_name(*self),
    {
        match *self {
            Region::NCR => "(NCR) National Capital Region",
            Region::CAR => "(CAR) Cordillera Administrative Region",
            Region::I => "(Region I) Ilocos Region",
            Region::II => "(Region II) Cagayan Valley",
            Region::III => "(Region III) Central Luzon",
            Region::IVA => "(Region IVA) CALABARZON",
            Region::IVB => "(Region IVB) MIMAROPA",
            Region::V => "(Region V) Bicol Region",
            Region::VI => "(Region VI) Western Visayas",
            Region::VII => "(Region VII) Central Visayas",
            Region::VIII => "(Region VIII) Eastern Visayas",
            Region::IX => "(Region IX) Zamboanga Peninsula",
            Region::X => "(Region X) Northern Mindanao",
            Region::XI => "(Region XI) Davao Region",
            Region::XII => "(Region XII) SOCCSKSARGEN",
            Region::XIII => "(Region XIII) Caraga Region",
            Region::BARMM => "(BARMM) Bangsamoro Autonomous Region in Muslim Mindanao",
        }
    }

    /// All seventeen regions in the canonical enumeration order.
    ///
    /// Every call returns the same sequence: the result is pinned to
    /// `region_order()`, whose first element is NCR and whose last is BARMM.
    pub fn iter() -> (r: Vec<Region>)
        ensures
            r@ == region_order(),
            r@.len() == 17,
            r@[0] == Region::NCR,
            r@[16] == Region::BARMM,
    {
        let mut v: Vec<Region> = Vec::new();
        v.push(Region::NCR);
        v.push(Region::CAR);
        v.push(Region::I);
        v.push(Region::II);
        v.push(Region::III);
        v.push(Region::IVA);
        v.push(Region::IVB);
        v.push(Region::V);
        v.push(Region::VI);
        v.push(Region::VII);
        v.push(Region::VIII);
        v.push(Region::IX);
        v.push(Region::X);
        v.push(Region::XI);
        v.push(Region::XII);
        v.push(Region::XIII);
        v.push(Region::BARMM);
        proof {
            assert(v@ =~= region_order());
        }
        v
    }

    /// The codes of all regions, in enumeration order.
    pub fn keys() -> (r: Vec<&'static str>)
        ensures
            r@.len() == 17,
            forall|i: int| 0 <= i < 17 ==> r@[i]@ == spec_code(region_order()[i]),
    {
        let regions = Region::iter();
        let mut out: Vec<&'static str> = Vec::new();
        let mut i: usize = 0;
        while i < regions.len()
            invariant
                regions@ == region_order(),
                regions@.len() == 17,
                i <= 17,
                out@.len() == i as int,
                forall|j: int| 0 <= j < i as int ==> out@[j]@ == spec_code(region_order()[j]),
            decreases 17 - i,
        {
            out.push(regions[i].code());
            i += 1;
        }
        out
    }

    /// The abbreviations of all regions, in enumeration order.
    pub fn codes() -> (r: Vec<&'static str>)
        ensures
            r@.len() == 17,
            forall|i: int| 0 <= i < 17 ==> r@[i]@ == spec_abbrev(region_order()[i]),
    {
        let regions = Region::iter();
        let mut out: Vec<&'static str> = Vec::new();
        let mut i: usize = 0;
        while i < regions.len()
            invariant
                regions@ == region_order(),
                regions@.len() == 17,
                i <= 17,
                out@.len() == i as int,
                forall|j: int| 0 <= j < i as int ==> out@[j]@ == spec_abbrev(region_order()[j]),
            decreases 17 - i,
        {
            out.push(regions[i].abbrev());
            i += 1;
        }
        out
    }

    /// The names of all regions, in enumeration order.
    pub fn names() -> (r: Vec<&'static str>)
        ensures
            r@.len() == 17,
            forall|i: int| 0 <= i < 17 ==> r@[i]@ == spec_name(region_order()[i]),
    {
        let regions = Region::iter();
        let mut out: Vec<&'static str> = Vec::new();
        let mut i: usize = 0;
        while i < regions.len()
            invariant
                regions@ == region_order(),
                regions@.len() == 17,
                i <= 17,
                out@.len() == i as int,
                forall|j: int| 0 <= j < i as int ==> out@[j]@ == spec_name(region_order()[j]),
            decreases 17 - i,
        {
            out.push(regions[i].name());
            i += 1;
        }
        out
    }

    /// The code-to-name catalog: one entry per region, in enumeration order,
    /// keyed by `code` and valued by `name`.
    pub fn list() -> (r: Vec<(&'static str, &'static str)>)
        ensures
            r@.len() == 17,
            forall|i: int| 0 <= i < 17 ==> r@[i].0@ == spec_code(region_order()[i]),
            forall|i: int| 0 <= i < 17 ==> r@[i].1@ == spec_name(region_order()[i]),
    {
        let regions = Region::iter();
        let mut out: Vec<(&'static str, &'static str)> = Vec::new();
        let mut i: usize = 0;
        while i < regions.len()
            invariant
                regions@ == region_order(),
                regions@.len() == 17,
                i <= 17,
                out@.len() == i as int,
                forall|j: int| 0 <= j < i as int ==> out@[j].0@ == spec_code(region_order()[j]),
                forall|j: int| 0 <= j < i as int ==> out@[j].1@ == spec_name(region_order()[j]),
            decreases 17 - i,
        {
            out.push((regions[i].code(), regions[i].name()));
            i += 1;
        }
        out
    }

    /// The code-to-full-name catalog: one entry per region, in enumeration
    /// order, keyed by `code` and valued by `full_name`.
    pub fn list_by_full_name() -> (r: Vec<(&'static str, &'static str)>)
        ensures
            r@.len() == 17,
            forall|i: int| 0 <= i < 17 ==> r@[i].0@ == spec_code(region_order()[i]),
            forall|i: int| 0 <= i < 17 ==> r@[i].1@ == spec_full_name(region_order()[i]),
    {
        let regions = Region::iter();
        let mut out: Vec<(&'static str, &'static str)> = Vec::new();
        let mut i: usize = 0;
        while i < regions.len()
            invariant
                regions@ == region_order(),
                regions@.len() == 17,
                i <= 17,
                out@.len() == i as int,
                forall|j: int| 0 <= j < i as int ==> out@[j].0@ == spec_code(region_order()[j]),
                forall|j: int| 0 <= j < i as int ==> out@[j].1@ == spec_full_name(region_order()[j]),
            decreases 17 - i,
        {
            out.push((regions[i].code(), regions[i].full_name()));
            i += 1;
        }
        out
    }

    /// The general human-readable form, "(<abbrev>) <name>".
    pub fn display(&self) -> (r: String)
        ensures
            r@ == spec_display(*self),
    {
        let mut s = String::from_str("(");
        s.append(self.abbrev());
        s.append(") ");
        s.append(self.name());
        proof {
            assert(s@ =~= spec_display(*self));
        }
        s
    }
}

} // verus!
