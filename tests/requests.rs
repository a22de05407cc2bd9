use std::io::Write;

use carbon_covid::date::Date;
use carbon_covid::region::AreaType;
use carbon_covid::request::{
    carbon_path, carbon_path_from_texts, covid_path, covid_path_from_texts, decimal, decode_covid_body,
    UpstreamError,
};

const STRUCTURE: &str = "%7B%22date%22%3A%22date%22%2C%22name%22%3A%22areaName%22%2C%22dailyCases%22%3A%22newCasesByPublishDate%22%2C%22cumulativeCases%22%3A%22cumCasesByPublishDate%22%7D";

#[test]
fn decimal_writes_numerals() {
    assert_eq!(decimal(0), "0");
    assert_eq!(decimal(7), "7");
    assert_eq!(decimal(17), "17");
    assert_eq!(decimal(1000), "1000");
    assert_eq!(decimal(u32::MAX), "4294967295");
}

#[test]
fn carbon_path_spans_one_day() {
    let day = Date { year: 2023, month: 6, day: 30 };
    assert_eq!(
        carbon_path(13, day).unwrap(),
        "/regional/intensity/2023-06-30T00:00:00Z/2023-07-01T00:00:00Z/regionid/13"
    );
}

#[test]
fn carbon_path_refuses_a_non_date() {
    let day = Date { year: 2023, month: 2, day: 30 };
    assert_eq!(carbon_path(1, day), Err(UpstreamError::UnwritableDate));
}

#[test]
fn covid_path_encodes_the_area_name() {
    let day = Date { year: 2023, month: 6, day: 10 };
    let expected = format!(
        "/v1/data?filters=areaName=Yorkshire%20and%20The%20Humber;areaType=region;date=2023-06-10&structure={}",
        STRUCTURE
    );
    assert_eq!(covid_path(5, day).unwrap(), expected);
}

#[test]
fn covid_path_of_a_nation() {
    let day = Date { year: 2021, month: 1, day: 5 };
    let p = covid_path(16, day).unwrap();
    assert!(p.starts_with("/v1/data?filters=areaName=Scotland;areaType=nation;date=2021-01-05&structure="));
}

#[test]
fn covid_path_refuses_unknown_regions() {
    let day = Date { year: 2023, month: 6, day: 10 };
    assert_eq!(covid_path(0, day), Err(UpstreamError::UnknownRegion));
    assert_eq!(covid_path(18, day), Err(UpstreamError::UnknownRegion));
}

#[test]
fn covid_body_is_decompressed() {
    let plain = b"{\"data\":[]}".to_vec();
    let mut enc = flate2::write::GzEncoder::new(Vec::new(), flate2::Compression::default());
    enc.write_all(&plain).unwrap();
    let packed = enc.finish().unwrap();
    assert_ne!(packed, plain);
    assert_eq!(decode_covid_body(&packed), Ok(plain));
}

#[test]
fn covid_body_that_is_not_gzip_is_refused() {
    assert_eq!(decode_covid_body(b"not gzip"), Err(UpstreamError::Undecodable));
}

#[test]
fn paths_are_written_from_their_parts() {
    assert_eq!(
        carbon_path_from_texts("2023-06-10", "2023-06-11", 7),
        "/regional/intensity/2023-06-10T00:00:00Z/2023-06-11T00:00:00Z/regionid/7"
    );
    assert_eq!(
        covid_path_from_texts("North%20West", AreaType::Region, "2023-06-10", "%7B%7D"),
        "/v1/data?filters=areaName=North%20West;areaType=region;date=2023-06-10&structure=%7B%7D"
    );
}
