use carbon_covid::region::{AreaType, RegionDirectory};

#[test]
fn every_region_id_resolves_to_nation_or_region() {
    for id in 1u32..=17 {
        let d = RegionDirectory::resolve(id).expect("region id in range");
        let tag = d.covid_area_type.as_str();
        assert!(tag == "nation" || tag == "region");
    }
}

#[test]
fn ids_outside_the_table_resolve_to_nothing() {
    assert!(RegionDirectory::resolve(0).is_none());
    assert!(RegionDirectory::resolve(18).is_none());
    assert!(RegionDirectory::resolve(u32::MAX).is_none());
}

#[test]
fn england_maps_to_the_england_nation() {
    let d = RegionDirectory::resolve(15).unwrap();
    assert_eq!(d.carbon_region_name, "England");
    assert_eq!(d.covid_area_name, "England");
    assert_eq!(d.covid_area_type, AreaType::Nation);
}

#[test]
fn yorkshire_maps_to_its_health_region() {
    let d = RegionDirectory::resolve(5).unwrap();
    assert_eq!(d.carbon_region_name, "Yorkshire");
    assert_eq!(d.covid_area_name, "Yorkshire and The Humber");
    assert_eq!(d.covid_area_type, AreaType::Region);
    assert_eq!(d.covid_area_type.as_str(), "region");
}
