//! The correlation engine: it validates a query, plans one fetch pair per day
//! of the range, and assembles the days whose fetches both succeeded.
use vstd::prelude::*;
use crate::date::{Date, DateRange, RangeError, days_between, lemma_days_ascending, opt_view, parse_range_spec, strictly_ascending};
use crate::region::{RegionDescriptor, RegionDirectory, region_names};
use crate::request::{UpstreamError, carbon_path, carbon_path_result, covid_path, covid_path_spec, text_view};

verus! {

/// Why a correlation query was refused before any upstream call.
#[derive(Clone, Copy, Debug, PartialEq, Eq, Structural)]
pub enum CorrelationError {
    /// The region id names no region.
    InvalidRegion,
    /// The start date is not a `YYYY-MM-DD` date.
    UnparsableFrom,
    /// The end date is given and is not a `YYYY-MM-DD` date.
    UnparsableTo,
    /// The end date falls before the start date.
    ToBeforeFrom,
}

impl CorrelationError {
    pub open spec fn spec_message(self) -> Seq<char> {
        match self {
            CorrelationError::InvalidRegion => "Invalid region id"@,
            CorrelationError::UnparsableFrom => "Unable to parse `from` date"@,
            CorrelationError::UnparsableTo => "Unable to parse `to` date"@,
            CorrelationError::ToBeforeFrom => "to date is before from date"@,
        }
    }

    /// The text that reports this error to the caller.
    pub fn message(&self) -> (r: String)
        ensures
            r@ == self.spec_message(),
    {
        match self {
            CorrelationError::InvalidRegion => String::from_str("Invalid region id"),
            CorrelationError::UnparsableFrom => String::from_str("Unable to parse `from` date"),
            CorrelationError::UnparsableTo => String::from_str("Unable to parse `to` date"),
            CorrelationError::ToBeforeFrom => String::from_str("to date is before from date"),
        }
    }

    pub open spec fn spec_from_range(e: RangeError) -> CorrelationError {
        match e {
            RangeError::UnparsableFrom => CorrelationError::UnparsableFrom,
            RangeError::UnparsableTo => CorrelationError::UnparsableTo,
            RangeError::ToBeforeFrom => CorrelationError::ToBeforeFrom,
        }
    }

    /// The correlation error that a date-range error amounts to.
    pub fn from_range(e: RangeError) -> (r: CorrelationError)
        ensures
            r == CorrelationError::spec_from_range(e),
    {
        match e {
            RangeError::UnparsableFrom => CorrelationError::UnparsableFrom,
            RangeError::UnparsableTo => CorrelationError::UnparsableTo,
            RangeError::ToBeforeFrom => CorrelationError::ToBeforeFrom,
        }
    }
}

/// A validated query: the region and the days to fetch, in calendar order.
pub struct CorrelationPlan {
    pub region_id: u32,
    pub region: RegionDescriptor,
    pub range: DateRange,
    pub days: Vec<Date>,
}

impl CorrelationPlan {
    /// The plan for region `id` over `range`.
    pub open spec fn describes(self, id: u32, range: DateRange) -> bool {
        &&& region_names(id) matches Some(n) && self.region.names() == n
        &&& self.region_id == id
        &&& self.range == range
        &&& self.days@ == range.days()
    }
}

/// The upstream requests of one day: the carbon service's path and the
/// health service's path and query, or why one cannot be written.
pub struct DayRequest {
    pub day: Date,
    pub carbon_path: Result<String, UpstreamError>,
    pub covid_path: Result<String, UpstreamError>,
}

impl DayRequest {
    pub open spec fn is_for(self, id: u32, day: Date) -> bool {
        &&& self.day == day
        &&& text_view(self.carbon_path) == carbon_path_result(id, day)
        &&& text_view(self.covid_path) == covid_path_spec(id, day)
    }

    /// The requests for region `id` on `day`.
    pub fn new(id: u32, day: Date) -> (r: DayRequest)
        ensures
            r.is_for(id, day),
    {
        DayRequest { day, carbon_path: carbon_path(id, day), covid_path: covid_path(id, day) }
    }
}

impl CorrelationPlan {
    /// The requests of each day of the plan, in order.
    pub fn requests(&self) -> (r: Vec<DayRequest>)
        ensures
            r.len() == self.days.len(),
            forall|i: int| 0 <= i < r.len() ==> (#[trigger] r[i]).is_for(self.region_id, self.days[i]),
    {
        let mut out: Vec<DayRequest> = Vec::new();
        let mut i: usize = 0;
        while i < self.days.len()
            invariant
                i <= self.days.len(),
                out.len() == i,
                forall|j: int| 0 <= j < i ==> (#[trigger] out[j]).is_for(self.region_id, self.days[j]),
            decreases self.days.len() - i,
        {
            out.push(DayRequest::new(self.region_id, self.days[i]));
            i = i + 1;
        }
        out
    }
}

/// What planning region `id` over `range` gives: the region is checked
/// first, then the order of the range.
pub open spec fn plan_outcome(id: u32, range: DateRange, r: Result<CorrelationPlan, CorrelationError>) -> bool {
    if region_names(id) is None {
        r == Err::<CorrelationPlan, CorrelationError>(CorrelationError::InvalidRegion)
    } else if range.from.key() > range.to.key() {
        r == Err::<CorrelationPlan, CorrelationError>(CorrelationError::ToBeforeFrom)
    } else {
        r matches Ok(p) && p.describes(id, range)
    }
}

/// The days from `from` to `to`, both included.
fn list_days(from: Date, to: Date) -> (r: Vec<Date>)
    requires
        (DateRange { from, to }).wf(),
        from.key() <= to.key(),
    ensures
        r@ == days_between(from, to),
{
    let mut days: Vec<Date> = Vec::new();
    let mut cur = from;
    while cur.on_or_before(&to)
        invariant
            cur.valid(),
            (DateRange { from, to }).wf(),
            cur.year <= to.year + 1,
            days@ + days_between(cur, to) == days_between(from, to),
        decreases to.key() + 31 - cur.key(),
    {
        let ghost before = days@;
        days.push(cur);
        let next = cur.next();
        assert(days_between(cur, to) == seq![cur] + days_between(next, to));
        assert(days@ + days_between(next, to) == before + days_between(cur, to));
        cur = next;
    }
    assert(days_between(cur, to) =~= Seq::<Date>::empty());
    assert(days@ =~= days@ + days_between(cur, to));
    days
}

/// Plans the correlation of region `id` over `range`. No upstream call is
/// to be made for a refused query.
pub fn plan(id: u32, range: DateRange) -> (r: Result<CorrelationPlan, CorrelationError>)
    requires
        range.wf(),
    ensures
        plan_outcome(id, range, r),
{
    let region = match RegionDirectory::resolve(id) {
        Some(d) => d,
        None => return Err(CorrelationError::InvalidRegion),
    };
    if !range.from.on_or_before(&range.to) {
        return Err(CorrelationError::ToBeforeFrom);
    }
    let days = list_days(range.from, range.to);
    Ok(CorrelationPlan { region_id: id, region, range, days })
}

/// What a query of region `id` from the text `from` to the optional text
/// `to` gives: the region is checked first, then the dates.
pub open spec fn query_outcome(
    id: u32,
    from: Seq<char>,
    to: Option<Seq<char>>,
    r: Result<CorrelationPlan, CorrelationError>,
) -> bool {
    if region_names(id) is None {
        r == Err::<CorrelationPlan, CorrelationError>(CorrelationError::InvalidRegion)
    } else {
        match parse_range_spec(from, to) {
            Err(e) => r == Err::<CorrelationPlan, CorrelationError>(CorrelationError::spec_from_range(e)),
            Ok(range) => r matches Ok(p) && p.describes(id, range),
        }
    }
}

/// Plans the correlation of region `id` from the date text `from` to the
/// optional date text `to`, a day past `from` where it is absent.
pub fn plan_query(id: u32, from: &str, to: Option<&str>) -> (r: Result<CorrelationPlan, CorrelationError>)
    ensures
        query_outcome(id, from@, opt_view(to), r),
{
    if RegionDirectory::resolve(id).is_none() {
        return Err(CorrelationError::InvalidRegion);
    }
    match DateRange::parse(from, to) {
        Err(e) => Err(CorrelationError::from_range(e)),
        Ok(range) => {
            plan(id, range)
        },
    }
}

/// What the two upstream services returned for one day: the readings of each
/// series in order (forecast intensities from the carbon service, cumulative
/// case counts from the health service), or why the fetch failed.
pub struct DayOutcome {
    pub carbon: Result<Vec<u32>, UpstreamError>,
    pub covid: Result<Vec<u32>, UpstreamError>,
}

pub open spec fn readings_view(r: Result<Vec<u32>, UpstreamError>) -> Result<Seq<u32>, UpstreamError> {
    match r {
        Ok(v) => Ok(v@),
        Err(e) => Err(e),
    }
}

impl View for DayOutcome {
    type V = (Result<Seq<u32>, UpstreamError>, Result<Seq<u32>, UpstreamError>);

    open spec fn view(&self) -> Self::V {
        (readings_view(self.carbon), readings_view(self.covid))
    }
}

/// The first reading of a series; an empty series holds no reading.
pub open spec fn first_reading(r: Result<Seq<u32>, UpstreamError>) -> Result<u32, UpstreamError> {
    match r {
        Err(e) => Err(e),
        Ok(s) => if s.len() > 0 { Ok(s[0]) } else { Err(UpstreamError::NoReading) },
    }
}

/// The first reading of a fetched series, guarded against an empty series.
pub fn first_of(series: &Result<Vec<u32>, UpstreamError>) -> (r: Result<u32, UpstreamError>)
    ensures
        r == first_reading(readings_view(*series)),
{
    match series {
        Err(e) => Err(*e),
        Ok(v) => if v.len() > 0 { Ok(v[0]) } else { Err(UpstreamError::NoReading) },
    }
}

/// The correlated data of one day.
#[derive(Clone, Copy, Debug, PartialEq, Eq, Structural)]
pub struct CorrelatedRecord {
    pub date: Date,
    pub cumulative_covid_cases: u32,
    pub carbon_intensity: u32,
}

/// The record of `day`, where both services gave a reading: the carbon
/// service's first forecast and the health service's first cumulative count.
pub open spec fn day_record_spec(
    day: Date,
    o: (Result<Seq<u32>, UpstreamError>, Result<Seq<u32>, UpstreamError>),
) -> Result<CorrelatedRecord, UpstreamError> {
    match first_reading(o.0) {
        Err(e) => Err(e),
        Ok(c) => match first_reading(o.1) {
            Err(e) => Err(e),
            Ok(k) => Ok(CorrelatedRecord { date: day, cumulative_covid_cases: k, carbon_intensity: c }),
        },
    }
}

/// The record of `day`, or the first upstream failure that kept it out.
pub fn day_record(day: Date, outcome: &DayOutcome) -> (r: Result<CorrelatedRecord, UpstreamError>)
    ensures
        r == day_record_spec(day, outcome@),
{
    let carbon = match first_of(&outcome.carbon) {
        Ok(c) => c,
        Err(e) => return Err(e),
    };
    let cases = match first_of(&outcome.covid) {
        Ok(k) => k,
        Err(e) => return Err(e),
    };
    Ok(CorrelatedRecord { date: day, cumulative_covid_cases: cases, carbon_intensity: carbon })
}

/// The records of the first `n` days, in order, leaving out each day that an
/// upstream failure kept out.
pub open spec fn records_upto(days: Seq<Date>, outcomes: Seq<DayOutcome>, n: nat) -> Seq<CorrelatedRecord>
    decreases n,
{
    if n == 0 {
        Seq::empty()
    } else {
        let prev = records_upto(days, outcomes, (n - 1) as nat);
        match day_record_spec(days[n - 1], outcomes[n - 1]@) {
            Ok(rec) => prev.push(rec),
            Err(_) => prev,
        }
    }
}

/// The records of all the days, in order.
pub open spec fn correlated_records(days: Seq<Date>, outcomes: Seq<DayOutcome>) -> Seq<CorrelatedRecord> {
    records_upto(days, outcomes, days.len())
}

/// The answer to a correlation query: the region and its records, or the
/// reason the query was refused.
pub struct CorrelationResponse {
    pub region: Option<String>,
    pub data: Option<Vec<CorrelatedRecord>>,
    pub error: Option<String>,
}

impl CorrelationResponse {
    /// The answer to a refused query.
    pub fn refused(e: CorrelationError) -> (r: CorrelationResponse)
        ensures
            r.region is None,
            r.data is None,
            r.error matches Some(m) && m@ == e.spec_message(),
    {
        CorrelationResponse { region: None, data: None, error: Some(e.message()) }
    }
}

/// Assembles the answer to a planned query from what the services returned
/// for each of its days, in the plan's order.
pub fn correlate(plan: &CorrelationPlan, outcomes: &Vec<DayOutcome>) -> (r: CorrelationResponse)
    requires
        outcomes.len() == plan.days.len(),
    ensures
        r.region matches Some(name) && name@ == plan.region.carbon_region_name@,
        r.data matches Some(d) && d@ == correlated_records(plan.days@, outcomes@),
        r.error is None,
{
    let mut data: Vec<CorrelatedRecord> = Vec::new();
    let mut i: usize = 0;
    while i < plan.days.len()
        invariant
            outcomes.len() == plan.days.len(),
            i <= plan.days.len(),
            data@ == records_upto(plan.days@, outcomes@, i as nat),
        decreases plan.days.len() - i,
    {
        match day_record(plan.days[i], &outcomes[i]) {
            Ok(rec) => data.push(rec),
            Err(_) => {},
        }
        i = i + 1;
    }
    CorrelationResponse {
        region: Some(String::from_str(plan.region.carbon_region_name)),
        data: Some(data),
        error: None,
    }
}

/// What `str::parse::<u32>` makes of `s`.
pub uninterp spec fn u32_parsed_from(s: Seq<char>) -> Option<u32>;

/// Relies on `str::parse::<u32>`: its result depends on the text alone.
#[verifier::external_body]
fn parse_u32(s: &str) -> (r: Option<u32>)
    ensures
        r == u32_parsed_from(s@),
{
    s.parse::<u32>().ok()
}

/// What a query whose region id is given as text gives: text that is no
/// number is an invalid region id like any other.
pub open spec fn text_query_outcome(
    region: Seq<char>,
    from: Seq<char>,
    to: Option<Seq<char>>,
    r: Result<CorrelationPlan, CorrelationError>,
) -> bool {
    match u32_parsed_from(region) {
        None => r == Err::<CorrelationPlan, CorrelationError>(CorrelationError::InvalidRegion),
        Some(id) => query_outcome(id, from, to, r),
    }
}

/// Plans the correlation of the region whose id is the text `region`.
pub fn plan_text_query(region: &str, from: &str, to: Option<&str>) -> (r: Result<CorrelationPlan, CorrelationError>)
    ensures
        text_query_outcome(region@, from@, opt_view(to), r),
{
    match parse_u32(region) {
        None => Err(CorrelationError::InvalidRegion),
        Some(id) => plan_query(id, from, to),
    }
}

/// A query of an id that names no region is refused as an invalid region,
/// whatever its dates, so no upstream call is planned for it.
pub proof fn lemma_invalid_region_refused(
    id: u32,
    from: Seq<char>,
    to: Option<Seq<char>>,
    r: Result<CorrelationPlan, CorrelationError>,
)
    requires
        id == 0 || id > 17,
        query_outcome(id, from, to, r),
    ensures
        r == Err::<CorrelationPlan, CorrelationError>(CorrelationError::InvalidRegion),
{
}

proof fn lemma_records_upto_agree(days: Seq<Date>, a: Seq<DayOutcome>, b: Seq<DayOutcome>, n: nat)
    requires
        n <= days.len(),
        a.len() == days.len(),
        b.len() == days.len(),
        forall|i: int| 0 <= i < days.len() ==> (#[trigger] a[i])@ == b[i]@,
    ensures
        records_upto(days, a, n) == records_upto(days, b, n),
    decreases n,
{
    if n > 0 {
        lemma_records_upto_agree(days, a, b, (n - 1) as nat);
        assert(a[n - 1]@ == b[n - 1]@);
    }
}

/// Correlation is a function of the days and of what the services returned:
/// two runs over the same answers give the same records.
pub proof fn lemma_correlation_is_deterministic(days: Seq<Date>, a: Seq<DayOutcome>, b: Seq<DayOutcome>)
    requires
        a.len() == days.len(),
        b.len() == days.len(),
        forall|i: int| 0 <= i < days.len() ==> (#[trigger] a[i])@ == b[i]@,
    ensures
        correlated_records(days, a) == correlated_records(days, b),
{
    lemma_records_upto_agree(days, a, b, days.len());
}

/// The dates of `records` come in strictly ascending calendar order.
pub open spec fn record_dates_ascending(records: Seq<CorrelatedRecord>) -> bool {
    forall|i: int, j: int| 0 <= i < j < records.len()
        ==> (#[trigger] records[i]).date.key() < (#[trigger] records[j]).date.key()
}

proof fn lemma_records_upto_ascending(days: Seq<Date>, outcomes: Seq<DayOutcome>, n: nat)
    requires
        n <= days.len(),
        outcomes.len() == days.len(),
        strictly_ascending(days),
    ensures
        record_dates_ascending(records_upto(days, outcomes, n)),
        n > 0 ==> forall|i: int| 0 <= i < records_upto(days, outcomes, n).len()
            ==> (#[trigger] records_upto(days, outcomes, n)[i]).date.key() <= days[n - 1].key(),
    decreases n,
{
    if n > 0 {
        let m = (n - 1) as nat;
        lemma_records_upto_ascending(days, outcomes, m);
        let prev = records_upto(days, outcomes, m);
        if m > 0 {
            assert(days[m - 1].key() < days[n - 1].key());
        }
        match day_record_spec(days[n - 1], outcomes[n - 1]@) {
            Ok(rec) => {
                let cur = prev.push(rec);
                assert forall|i: int| 0 <= i < cur.len()
                    implies (#[trigger] cur[i]).date.key() <= days[n - 1].key() by {
                    if i < prev.len() {
                        assert(cur[i] == prev[i]);
                    }
                }
                assert forall|i: int, j: int| 0 <= i < j < cur.len()
                    implies (#[trigger] cur[i]).date.key() < (#[trigger] cur[j]).date.key() by {
                    assert(cur[i] == prev[i]);
                    if j < prev.len() {
                        assert(cur[j] == prev[j]);
                    }
                }
            },
            Err(_) => {},
        }
    }
}

/// The records of a planned query come in strictly ascending date order,
/// whatever the services returned.
pub proof fn lemma_records_ascending(plan: CorrelationPlan, id: u32, range: DateRange, outcomes: Seq<DayOutcome>)
    requires
        range.wf(),
        plan.describes(id, range),
        outcomes.len() == plan.days.len(),
    ensures
        record_dates_ascending(correlated_records(plan.days@, outcomes)),
{
    lemma_days_ascending(range.from, range.to);
    lemma_records_upto_ascending(plan.days@, outcomes, plan.days@.len());
}

} // verus!
