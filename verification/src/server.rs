//! The year-resource lifecycle over the snapshot store, and the response
//! envelope it answers with. Each operation takes the store, and — where a
//! page has to be fetched — the fetch outcome, as plain values; the HTTP
//! framing and the fetch itself live outside the library.

use vstd::prelude::*;

use crate::errors::FetchError;
use crate::holiday::Holiday;
use crate::hscraper::HScraper;
use crate::parse::parsed_records;
use crate::store::SnapshotStore;
use crate::text::{dec_str, u64_to_string};

verus! {

/// The envelope every operation answers with.
pub struct ApiResponse<T> {
    pub success: bool,
    pub message: String,
    pub data: Option<T>,
}

/// The payload of a successful retrieval: the records and their count.
pub struct HolidaysResponse {
    pub year: u32,
    pub holidays: Vec<Holiday>,
    pub count: usize,
}

/// The service's listening endpoint.
pub struct Server {
    pub host: String,
    pub port: u16,
}

impl Server {
    pub fn new(host: &str, port: u16) -> (s: Self)
        ensures
            s.host@ == host@,
            s.port == port,
    {
        Server { host: String::from_str(host), port }
    }

    /// The `host:port` text the service binds to.
    pub fn address(&self) -> (r: String)
        ensures
            r@ == self.host@ + ":"@ + dec_str(self.port as nat),
    {
        let mut r = self.host.clone();
        r.append(":");
        r.append(u64_to_string(self.port as u64).as_str());
        r
    }
}

/// The path the snapshot of a year is kept under.
pub open spec fn snapshot_path(year: u32) -> Seq<char> {
    "snapshots/holidays_"@ + dec_str(year as nat) + ".html"@
}

pub open spec fn msg_healthy() -> Seq<char> {
    "Service is healthy"@
}

pub open spec fn msg_conflict(year: u32) -> Seq<char> {
    "Snapshot for year "@ + dec_str(year as nat) + " already exists. Use PUT to update."@
}

pub open spec fn msg_created(year: u32) -> Seq<char> {
    "Successfully scraped holidays for year "@ + dec_str(year as nat)
}

pub open spec fn msg_fetch_failed(detail: Seq<char>) -> Seq<char> {
    "Failed to scrape holidays: "@ + detail
}

pub open spec fn msg_missing_hint(year: u32) -> Seq<char> {
    "No snapshot found for year "@ + dec_str(year as nat) + ". Use POST to create one."@
}

pub open spec fn msg_missing(year: u32) -> Seq<char> {
    "No snapshot found for year "@ + dec_str(year as nat)
}

pub open spec fn msg_retrieved(count: nat, year: u32) -> Seq<char> {
    "Successfully retrieved "@ + dec_str(count) + " holidays for year "@ + dec_str(year as nat)
}

pub open spec fn msg_deleted(year: u32) -> Seq<char> {
    "Successfully deleted snapshot for year "@ + dec_str(year as nat)
}

pub open spec fn msg_updated(year: u32) -> Seq<char> {
    "Successfully updated snapshot for year "@ + dec_str(year as nat)
}

pub open spec fn msg_update_failed(detail: Seq<char>) -> Seq<char> {
    "Failed to update snapshot: "@ + detail
}

fn year_path(year: u32) -> (r: String)
    ensures
        r@ == snapshot_path(year),
{
    let mut r = String::from_str("snapshots/holidays_");
    r.append(u64_to_string(year as u64).as_str());
    r.append(".html");
    r
}

/// The liveness answer: always successful.
pub fn health_check() -> (r: ApiResponse<String>)
    ensures
        r.success,
        r.message@ == msg_healthy(),
        r.data matches Some(d) && d@ == "OK"@,
{
    ApiResponse {
        success: true,
        message: String::from_str("Service is healthy"),
        data: Some(String::from_str("OK")),
    }
}

/// Create: if a snapshot is already held for `year` the call is refused with
/// a conflict and no mutation, whatever was fetched; otherwise a fetched
/// document is stored and a fetch failure leaves the store unchanged.
pub fn scrape_holiday(
    store: &mut SnapshotStore,
    year: u32,
    fetched: Result<String, FetchError>,
) -> (r: Result<ApiResponse<String>, (u16, ApiResponse<String>)>)
    requires
        old(store).wf(),
    ensures
        final(store).wf(),
        old(store)@.contains_key(year) ==> final(store)@ == old(store)@ && (r matches Err(
            (status, resp),
        ) && status == 409u16 && !resp.success && resp.data is None && resp.message@
            == msg_conflict(year)),
        !old(store)@.contains_key(year) && fetched is Ok ==> final(store)@ == old(store)@.insert(
            year,
            fetched->Ok_0@,
        ) && (r matches Ok(resp) && resp.success && resp.message@ == msg_created(year)
            && (resp.data matches Some(d) && d@ == snapshot_path(year))),
        !old(store)@.contains_key(year) && fetched is Err ==> final(store)@ == old(store)@ && (
        r matches Err((status, resp)) && status == 500u16 && !resp.success && resp.data is None
            && resp.message@ == msg_fetch_failed(fetched->Err_0.message@)),
{
    let scraper = HScraper::new(year);
    if scraper.snapshot_exists(store) {
        let mut msg = String::from_str("Snapshot for year ");
        msg.append(u64_to_string(year as u64).as_str());
        msg.append(" already exists. Use PUT to update.");
        return Err((409, ApiResponse { success: false, message: msg, data: None }));
    }
    match fetched {
        Ok(html) => {
            let _ = scraper.save_snapshot(store, html);
            let mut msg = String::from_str("Successfully scraped holidays for year ");
            msg.append(u64_to_string(year as u64).as_str());
            Ok(ApiResponse { success: true, message: msg, data: Some(year_path(year)) })
        },
        Err(e) => {
            let mut msg = String::from_str("Failed to scrape holidays: ");
            msg.append(e.message.as_str());
            Err((500, ApiResponse { success: false, message: msg, data: None }))
        },
    }
}

/// Read: with no snapshot held the call fails as not found; otherwise the
/// stored document is parsed and the records are returned with their count.
pub fn get_holidays(store: &SnapshotStore, year: u32) -> (r: Result<
    ApiResponse<HolidaysResponse>,
    (u16, ApiResponse<HolidaysResponse>),
>)
    requires
        store.wf(),
    ensures
        !store@.contains_key(year) ==> (r matches Err((status, resp)) && status == 404u16
            && !resp.success && resp.data is None && resp.message@ == msg_missing_hint(year)),
        store@.contains_key(year) ==> (r matches Ok(resp) && resp.success
            && (resp.data matches Some(d) && d.year == year && d.holidays.deep_view()
            == parsed_records(store@[year]) && d.count == parsed_records(store@[year]).len())
            && resp.message@ == msg_retrieved(parsed_records(store@[year]).len(), year)),
{
    let scraper = HScraper::new(year);
    if !scraper.snapshot_exists(store) {
        let mut msg = String::from_str("No snapshot found for year ");
        msg.append(u64_to_string(year as u64).as_str());
        msg.append(". Use POST to create one.");
        return Err((404, ApiResponse { success: false, message: msg, data: None }));
    }
    match scraper.load_snapshot(store) {
        Ok(html) => match scraper.parse_holidays_from_html(html.as_str()) {
            Ok(holidays) => {
                let count = holidays.len();
                let mut msg = String::from_str("Successfully retrieved ");
                msg.append(u64_to_string(count as u64).as_str());
                msg.append(" holidays for year ");
                msg.append(u64_to_string(year as u64).as_str());
                Ok(
                    ApiResponse {
                        success: true,
                        message: msg,
                        data: Some(HolidaysResponse { year, holidays, count }),
                    },
                )
            },
            Err(_) => Err(
                (
                    500,
                    ApiResponse {
                        success: false,
                        message: String::from_str("Failed to parse holidays"),
                        data: None,
                    },
                ),
            ),
        },
        Err(_) => Err(
            (
                500,
                ApiResponse {
                    success: false,
                    message: String::from_str("Failed to load snapshot"),
                    data: None,
                },
            ),
        ),
    }
}

/// Delete: with no snapshot held the call fails as not found and nothing
/// changes; otherwise the year's snapshot is removed.
pub fn delete_snapshot(store: &mut SnapshotStore, year: u32) -> (r: Result<
    ApiResponse<String>,
    (u16, ApiResponse<String>),
>)
    requires
        old(store).wf(),
    ensures
        final(store).wf(),
        !old(store)@.contains_key(year) ==> final(store)@ == old(store)@ && (r matches Err(
            (status, resp),
        ) && status == 404u16 && !resp.success && resp.data is None && resp.message@
            == msg_missing(year)),
        old(store)@.contains_key(year) ==> final(store)@ == old(store)@.remove(year) && (
        r matches Ok(resp) && resp.success && resp.message@ == msg_deleted(year)
            && (resp.data matches Some(d) && d@ == snapshot_path(year))),
{
    let scraper = HScraper::new(year);
    if !scraper.snapshot_exists(store) {
        let mut msg = String::from_str("No snapshot found for year ");
        msg.append(u64_to_string(year as u64).as_str());
        return Err((404, ApiResponse { success: false, message: msg, data: None }));
    }
    match scraper.delete_snapshot(store) {
        Ok(_) => {
            let mut msg = String::from_str("Successfully deleted snapshot for year ");
            msg.append(u64_to_string(year as u64).as_str());
            Ok(ApiResponse { success: true, message: msg, data: Some(year_path(year)) })
        },
        Err(_) => Err(
            (
                500,
                ApiResponse {
                    success: false,
                    message: String::from_str("Failed to delete snapshot"),
                    data: None,
                },
            ),
        ),
    }
}

/// Replace: any held snapshot is deleted first, then the fetched document is
/// stored. A successful fetch always ends with exactly the fetched document
/// held and never raises a conflict; a fetch failure ends with the year
/// absent, the prior deletion not undone.
pub fn update_snapshot(
    store: &mut SnapshotStore,
    year: u32,
    fetched: Result<String, FetchError>,
) -> (r: Result<ApiResponse<String>, (u16, ApiResponse<String>)>)
    requires
        old(store).wf(),
    ensures
        final(store).wf(),
        fetched is Ok ==> final(store)@ == old(store)@.insert(year, fetched->Ok_0@) && (
        r matches Ok(resp) && resp.success && resp.message@ == msg_updated(year)
            && (resp.data matches Some(d) && d@ == snapshot_path(year))),
        fetched is Err ==> final(store)@ == old(store)@.remove(year) && (r matches Err(
            (status, resp),
        ) && status == 500u16 && !resp.success && resp.data is None && resp.message@
            == msg_update_failed(fetched->Err_0.message@)),
{
    let scraper = HScraper::new(year);
    if scraper.snapshot_exists(store) {
        let _ = scraper.delete_snapshot(store);
    } else {
        proof {
            assert(old(store)@.remove(year) =~= old(store)@);
        }
    }
    match fetched {
        Ok(html) => {
            let _ = scraper.save_snapshot(store, html);
            proof {
                assert(old(store)@.remove(year).insert(year, fetched->Ok_0@) =~= old(
                    store,
                )@.insert(year, fetched->Ok_0@));
            }
            let mut msg = String::from_str("Successfully updated snapshot for year ");
            msg.append(u64_to_string(year as u64).as_str());
            Ok(ApiResponse { success: true, message: msg, data: Some(year_path(year)) })
        },
        Err(e) => {
            let mut msg = String::from_str("Failed to update snapshot: ");
            msg.append(e.message.as_str());
            Err((500, ApiResponse { success: false, message: msg, data: None }))
        },
    }
}

/// Lifecycle exclusivity. A successful create steps the store's view to
/// `m.insert(year, html)`, under which the year is held, so the create
/// contract refuses a second create for it with a conflict and no mutation.
/// A delete then steps the view to `m.insert(year, html).remove(year)`: the
/// starting view again, with nothing held for the year, so a second delete
/// is refused as not found.
pub proof fn lemma_lifecycle_exclusivity(m: Map<u32, Seq<char>>, year: u32, html: Seq<char>)
    requires
        !m.contains_key(year),
    ensures
        m.insert(year, html).contains_key(year),
        !m.insert(year, html).remove(year).contains_key(year),
        m.insert(year, html).remove(year) == m,
{
    assert(m.insert(year, html).remove(year) =~= m);
}

/// Replacing is idempotent in effect. An update with a fetched document
/// succeeds whether or not the year is held — its contract never raises a
/// conflict — and leaves exactly one snapshot for the year; a second update
/// ends in the state the second document alone dictates.
pub proof fn lemma_update_idempotent(m: Map<u32, Seq<char>>, year: u32, h1: Seq<char>, h2: Seq<char>)
    ensures
        m.insert(year, h1).contains_key(year),
        m.insert(year, h2).contains_key(year),
        m.insert(year, h1).insert(year, h2) == m.insert(year, h2),
{
    assert(m.insert(year, h1).insert(year, h2) =~= m.insert(year, h2));
}

} // verus!
