//! The request paths sent to the two upstream services, and the decoding of
//! the health service's compressed response body.
use std::io::Read;
use vstd::prelude::*;
use crate::date::{Date, in_year_range};
use crate::region::{AreaType, RegionDirectory, region_names};

verus! {

/// Why the data of one day could not be had from an upstream service.
#[derive(Clone, Copy, Debug, PartialEq, Eq, Structural)]
pub enum UpstreamError {
    /// The region id names no region.
    UnknownRegion,
    /// A day of the request cannot be written as a date.
    UnwritableDate,
    /// The response body could not be decompressed.
    Undecodable,
    /// The response held no reading for the day.
    NoReading,
    /// The service could not be reached, or answered with a failure status.
    Unreachable,
    /// The response body did not have the expected shape.
    Malformed,
}

/// What `urlencoding::encode` makes of `s`.
pub uninterp spec fn url_encoded_of(s: Seq<char>) -> Seq<char>;

/// Relies on `urlencoding::encode`: it percent-encodes each byte of `s` but
/// alphanumerics and `-`, `_`, `.`, `~`, so its result depends on `s` alone.
#[verifier::external_body]
fn percent_encode(s: &str) -> (r: String)
    ensures
        r@ == url_encoded_of(s@),
{
    urlencoding::encode(s).into_owned()
}

/// What chrono writes for a year, month and day with the format `%Y-%m-%d`,
/// where they form a date that chrono can hold.
pub uninterp spec fn date_text_of(year: i32, month: u32, day: u32) -> Option<Seq<char>>;

/// Relies on chrono's `NaiveDate::from_ymd_opt`, which gives a date for each
/// calendar date of its year range, and on `format("%Y-%m-%d")` of it.
#[verifier::external_body]
fn format_date(d: Date) -> (r: Option<String>)
    ensures
        r matches Some(s) ==> date_text_of(d.year, d.month, d.day) == Some(s@),
        r is None ==> date_text_of(d.year, d.month, d.day) is None,
        in_year_range(d) ==> r is Some,
{
    match chrono::NaiveDate::from_ymd_opt(d.year, d.month, d.day) {
        Some(n) => Some(n.format("%Y-%m-%d").to_string()),
        None => None,
    }
}

pub open spec fn digit_text(d: nat) -> Seq<char> {
    if d == 0 { "0"@ }
    else if d == 1 { "1"@ }
    else if d == 2 { "2"@ }
    else if d == 3 { "3"@ }
    else if d == 4 { "4"@ }
    else if d == 5 { "5"@ }
    else if d == 6 { "6"@ }
    else if d == 7 { "7"@ }
    else if d == 8 { "8"@ }
    else { "9"@ }
}

/// The decimal numeral of `n`, without leading zeros.
pub open spec fn decimal_text(n: nat) -> Seq<char>
    decreases n,
{
    if n < 10 {
        digit_text(n)
    } else {
        decimal_text(n / 10) + digit_text(n % 10)
    }
}

fn digit(d: u32) -> (r: &'static str)
    requires
        d < 10,
    ensures
        r@ == digit_text(d as nat),
{
    match d {
        0 => "0",
        1 => "1",
        2 => "2",
        3 => "3",
        4 => "4",
        5 => "5",
        6 => "6",
        7 => "7",
        8 => "8",
        _ => "9",
    }
}

/// Writes `n` in decimal.
pub fn decimal(n: u32) -> (r: String)
    ensures
        r@ == decimal_text(n as nat),
    decreases n,
{
    if n < 10 {
        String::from_str(digit(n))
    } else {
        let head = decimal(n / 10);
        head.concat(digit(n % 10))
    }
}

/// The carbon service's path for region `id` over the day from `from_text`
/// to `to_text`, each the date text of a midnight.
pub open spec fn carbon_path_text(from_text: Seq<char>, to_text: Seq<char>, id: u32) -> Seq<char> {
    "/regional/intensity/"@ + from_text + "T00:00:00Z/"@ + to_text + "T00:00:00Z/regionid/"@
        + decimal_text(id as nat)
}

/// The health service's path and query for an area, given its encoded name,
/// its type, the date text of the day and the encoded field structure.
pub open spec fn covid_path_text(
    encoded_area: Seq<char>,
    area_type: AreaType,
    date_text: Seq<char>,
    encoded_structure: Seq<char>,
) -> Seq<char> {
    "/v1/data?filters=areaName="@ + encoded_area + ";areaType="@ + area_type.spec_text()
        + ";date="@ + date_text + "&structure="@ + encoded_structure
}

/// The path that asks the carbon service for region `id` over the day `day`,
/// from its midnight to the next.
pub open spec fn carbon_path_spec(id: u32, day: Date) -> Option<Seq<char>> {
    match (date_text_of(day.year, day.month, day.day),
        date_text_of(day.spec_next().year, day.spec_next().month, day.spec_next().day)) {
        (Some(a), Some(b)) => Some(carbon_path_text(a, b, id)),
        _ => None,
    }
}

/// The field names that the health service is asked to return.
pub const COVID_STRUCTURE: &'static str = "{\"date\":\"date\",\"name\":\"areaName\",\"dailyCases\":\"newCasesByPublishDate\",\"cumulativeCases\":\"cumCasesByPublishDate\"}";

/// The path and query that ask the health service for region `id` on `day`.
pub open spec fn covid_path_spec(id: u32, day: Date) -> Result<Seq<char>, UpstreamError> {
    match region_names(id) {
        None => Err(UpstreamError::UnknownRegion),
        Some(n) => match date_text_of(day.year, day.month, day.day) {
            None => Err(UpstreamError::UnwritableDate),
            Some(t) => Ok(covid_path_text(url_encoded_of(n.area), n.area_type, t,
                url_encoded_of(COVID_STRUCTURE@))),
        },
    }
}

pub open spec fn text_view(r: Result<String, UpstreamError>) -> Result<Seq<char>, UpstreamError> {
    match r {
        Ok(s) => Ok(s@),
        Err(e) => Err(e),
    }
}

/// The carbon service's path for region `id` and `day`, where both bounds of
/// the day can be written as dates.
pub open spec fn carbon_path_result(id: u32, day: Date) -> Result<Seq<char>, UpstreamError> {
    if !(day.valid() && day.year < i32::MAX) {
        Err(UpstreamError::UnwritableDate)
    } else {
        match carbon_path_spec(id, day) {
            Some(p) => Ok(p),
            None => Err(UpstreamError::UnwritableDate),
        }
    }
}

/// Writes the carbon service's path from the date texts of the two bounds.
pub fn carbon_path_from_texts(from_text: &str, to_text: &str, id: u32) -> (r: String)
    ensures
        r@ == carbon_path_text(from_text@, to_text@, id),
{
    let p = String::from_str("/regional/intensity/").concat(from_text);
    let p = p.concat("T00:00:00Z/").concat(to_text);
    p.concat("T00:00:00Z/regionid/").concat(decimal(id).as_str())
}

/// Writes the health service's path and query from its encoded parts.
pub fn covid_path_from_texts(
    encoded_area: &str,
    area_type: AreaType,
    date_text: &str,
    encoded_structure: &str,
) -> (r: String)
    ensures
        r@ == covid_path_text(encoded_area@, area_type, date_text@, encoded_structure@),
{
    let p = String::from_str("/v1/data?filters=areaName=").concat(encoded_area);
    let p = p.concat(";areaType=").concat(area_type.as_str());
    let p = p.concat(";date=").concat(date_text);
    p.concat("&structure=").concat(encoded_structure)
}

/// The carbon service's path for region `id` and `day`; an error where a
/// bound of the day cannot be written as a date.
pub fn carbon_path(id: u32, day: Date) -> (r: Result<String, UpstreamError>)
    ensures
        text_view(r) == carbon_path_result(id, day),
        in_year_range(day) && in_year_range(day.spec_next()) ==> r is Ok,
{
    if !(day.is_valid() && day.year < i32::MAX) {
        return Err(UpstreamError::UnwritableDate);
    }
    let next = day.next();
    let from_text = match format_date(day) {
        Some(t) => t,
        None => return Err(UpstreamError::UnwritableDate),
    };
    let to_text = match format_date(next) {
        Some(t) => t,
        None => return Err(UpstreamError::UnwritableDate),
    };
    Ok(carbon_path_from_texts(from_text.as_str(), to_text.as_str(), id))
}

/// The health service's path and query for region `id` and `day`.
pub fn covid_path(id: u32, day: Date) -> (r: Result<String, UpstreamError>)
    ensures
        text_view(r) == covid_path_spec(id, day),
        region_names(id) is Some && in_year_range(day) ==> r is Ok,
{
    let region = match RegionDirectory::resolve(id) {
        Some(d) => d,
        None => return Err(UpstreamError::UnknownRegion),
    };
    let date_text = match format_date(day) {
        Some(t) => t,
        None => return Err(UpstreamError::UnwritableDate),
    };
    let area = percent_encode(region.covid_area_name);
    let structure = percent_encode(COVID_STRUCTURE);
    Ok(covid_path_from_texts(area.as_str(), region.covid_area_type, date_text.as_str(), structure.as_str()))
}

/// What flate2's gzip decoder makes of `b`: `None` where `b` is no gzip data.
pub uninterp spec fn gunzipped_of(b: Seq<u8>) -> Option<Seq<u8>>;

/// Relies on flate2's `read::GzDecoder` read to its end: over bytes in memory
/// it either fails or yields the decompressed bytes, which depend on `b`
/// alone.
#[verifier::external_body]
fn gunzip(b: &[u8]) -> (r: Option<Vec<u8>>)
    ensures
        match gunzipped_of(b@) {
            Some(d) => r matches Some(v) && v@ == d,
            None => r is None,
        },
{
    let mut out: Vec<u8> = Vec::new();
    match flate2::read::GzDecoder::new(b).read_to_end(&mut out) {
        Ok(_) => Some(out),
        Err(_) => None,
    }
}

/// Decompresses the health service's response body.
pub fn decode_covid_body(body: &[u8]) -> (r: Result<Vec<u8>, UpstreamError>)
    ensures
        match gunzipped_of(body@) {
            Some(d) => r matches Ok(v) && v@ == d,
            None => r == Err::<Vec<u8>, UpstreamError>(UpstreamError::Undecodable),
        },
{
    match gunzip(body) {
        Some(v) => Ok(v),
        None => Err(UpstreamError::Undecodable),
    }
}

} // verus!
