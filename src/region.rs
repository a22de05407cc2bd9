//! The fixed directory of grid regions and their health-area counterparts.
use vstd::prelude::*;

verus! {

/// The kind of health area that a grid region maps to.
#[derive(Clone, Copy, Debug, PartialEq, Eq, Structural)]
pub enum AreaType {
    Nation,
    Region,
}

impl AreaType {
    pub open spec fn spec_text(self) -> Seq<char> {
        match self {
            AreaType::Nation => "nation"@,
            AreaType::Region => "region"@,
        }
    }

    /// The tag that the health-data service uses for this kind of area.
    pub fn as_str(&self) -> (r: &'static str)
        ensures
            r@ == self.spec_text(),
    {
        match self {
            AreaType::Nation => "nation",
            AreaType::Region => "region",
        }
    }
}

/// How one grid region is named by the carbon service and by the health
/// service.
#[derive(Clone, Copy, Debug, PartialEq, Eq)]
pub struct RegionDescriptor {
    pub carbon_region_name: &'static str,
    pub covid_area_name: &'static str,
    pub covid_area_type: AreaType,
}

/// The names of a region, as text.
pub struct RegionNames {
    pub carbon: Seq<char>,
    pub area: Seq<char>,
    pub area_type: AreaType,
}

/// The directory entry of `id`: grid regions are numbered 1 to 17.
pub open spec fn region_names(id: u32) -> Option<RegionNames> {
    if id == 1 {
        Some(RegionNames { carbon: "North Scotland"@, area: "Scotland"@, area_type: AreaType::Nation })
    } else if id == 2 {
        Some(RegionNames { carbon: "South Scotland"@, area: "Scotland"@, area_type: AreaType::Nation })
    } else if id == 3 {
        Some(RegionNames { carbon: "North West England"@, area: "North West"@, area_type: AreaType::Region })
    } else if id == 4 {
        Some(RegionNames { carbon: "North East England"@, area: "North East"@, area_type: AreaType::Region })
    } else if id == 5 {
        Some(RegionNames { carbon: "Yorkshire"@, area: "Yorkshire and The Humber"@, area_type: AreaType::Region })
    } else if id == 6 {
        Some(RegionNames { carbon: "North Wales"@, area: "Wales"@, area_type: AreaType::Nation })
    } else if id == 7 {
        Some(RegionNames { carbon: "South Wales"@, area: "Wales"@, area_type: AreaType::Nation })
    } else if id == 8 {
        Some(RegionNames { carbon: "West Midlands"@, area: "West Midlands"@, area_type: AreaType::Region })
    } else if id == 9 {
        Some(RegionNames { carbon: "East Midlands"@, area: "East MidLands"@, area_type: AreaType::Region })
    } else if id == 10 {
        Some(RegionNames { carbon: "East England"@, area: "East of England"@, area_type: AreaType::Region })
    } else if id == 11 {
        Some(RegionNames { carbon: "South West England"@, area: "South West"@, area_type: AreaType::Region })
    } else if id == 12 {
        Some(RegionNames { carbon: "South England"@, area: "England"@, area_type: AreaType::Nation })
    } else if id == 13 {
        Some(RegionNames { carbon: "London"@, area: "London"@, area_type: AreaType::Region })
    } else if id == 14 {
        Some(RegionNames { carbon: "South East England"@, area: "South East"@, area_type: AreaType::Region })
    } else if id == 15 {
        Some(RegionNames { carbon: "England"@, area: "England"@, area_type: AreaType::Nation })
    } else if id == 16 {
        Some(RegionNames { carbon: "Scotland"@, area: "Scotland"@, area_type: AreaType::Nation })
    } else if id == 17 {
        Some(RegionNames { carbon: "Wales"@, area: "Wales"@, area_type: AreaType::Nation })
    } else {
        None
    }
}

impl RegionDescriptor {
    pub open spec fn names(self) -> RegionNames {
        RegionNames {
            carbon: self.carbon_region_name@,
            area: self.covid_area_name@,
            area_type: self.covid_area_type,
        }
    }
}

fn entry(carbon: &'static str, area: &'static str, area_type: AreaType) -> (r: RegionDescriptor)
    ensures
        r.names() == (RegionNames { carbon: carbon@, area: area@, area_type }),
{
    RegionDescriptor { carbon_region_name: carbon, covid_area_name: area, covid_area_type: area_type }
}

/// The directory of grid regions, read-only.
pub struct RegionDirectory;

impl RegionDirectory {
    /// The descriptor of region `id`, or `None` where no region has that id.
    pub fn resolve(id: u32) -> (r: Option<RegionDescriptor>)
        ensures
            match region_names(id) {
                Some(n) => r matches Some(d) && d.names() == n,
                None => r is None,
            },
    {
        let d = match id {
            1 => entry("North Scotland", "Scotland", AreaType::Nation),
            2 => entry("South Scotland", "Scotland", AreaType::Nation),
            3 => entry("North West England", "North West", AreaType::Region),
            4 => entry("North East England", "North East", AreaType::Region),
            5 => entry("Yorkshire", "Yorkshire and The Humber", AreaType::Region),
            6 => entry("North Wales", "Wales", AreaType::Nation),
            7 => entry("South Wales", "Wales", AreaType::Nation),
            8 => entry("West Midlands", "West Midlands", AreaType::Region),
            9 => entry("East Midlands", "East MidLands", AreaType::Region),
            10 => entry("East England", "East of England", AreaType::Region),
            11 => entry("South West England", "South West", AreaType::Region),
            12 => entry("South England", "England", AreaType::Nation),
            13 => entry("London", "London", AreaType::Region),
            14 => entry("South East England", "South East", AreaType::Region),
            15 => entry("England", "England", AreaType::Nation),
            16 => entry("Scotland", "Scotland", AreaType::Nation),
            17 => entry("Wales", "Wales", AreaType::Nation),
            _ => return None,
        };
        Some(d)
    }
}

/// Every id from 1 to 17 names a region, and every region maps to a health
/// area that is either a nation or a region.
pub proof fn lemma_every_region_resolves(id: u32)
    requires
        1 <= id <= 17,
    ensures
        region_names(id) is Some,
        region_names(id)->Some_0.area_type == AreaType::Nation
            || region_names(id)->Some_0.area_type == AreaType::Region,
        region_names(id)->Some_0.area_type.spec_text() == "nation"@
            || region_names(id)->Some_0.area_type.spec_text() == "region"@,
{
}

/// Ids outside 1 to 17 name no region.
pub proof fn lemma_unknown_ids(id: u32)
    requires
        id == 0 || id > 17,
    ensures
        region_names(id) is None,
{
}

} // verus!
