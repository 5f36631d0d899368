use holiday_snapshots::errors::{FetchError, StorageError};
use holiday_snapshots::hscraper::HScraper;
use holiday_snapshots::server::{
    delete_snapshot, get_holidays, health_check, scrape_holiday, update_snapshot, Server,
};
use holiday_snapshots::store::SnapshotStore;

const PAGE: &str = "<html><body><table><tr class=\"holiday-group\"><td class=\"holiday-what\">New Year's Day</td><td class=\"holidate\"><abbr title=\"2024-01-01\">Jan 1</abbr></td><td class=\"dayname\">(Monday)</td></tr></table></body></html>";

#[test]
fn write_then_read_round_trips() {
    let mut store = SnapshotStore::new();
    store.write(2024, PAGE.to_string()).unwrap();
    let back = store.read(2024).unwrap();
    assert_eq!(back.as_str(), PAGE);
}

#[test]
fn read_of_missing_year_is_not_found() {
    let store = SnapshotStore::new();
    assert!(matches!(store.read(1999), Err(StorageError::NotFound)));
    assert!(!store.has_snapshot(1999));
}

#[test]
fn second_create_conflicts_and_second_delete_is_not_found() {
    let mut store = SnapshotStore::new();
    let created = scrape_holiday(&mut store, 2024, Ok(PAGE.to_string()));
    assert!(created.is_ok());
    assert!(store.has_snapshot(2024));

    let again = scrape_holiday(&mut store, 2024, Ok(PAGE.to_string()));
    let (status, resp) = again.err().unwrap();
    assert_eq!(status, 409);
    assert!(!resp.success);
    assert_eq!(
        resp.message.as_str(),
        "Snapshot for year 2024 already exists. Use PUT to update."
    );
    assert!(store.has_snapshot(2024));

    let deleted = delete_snapshot(&mut store, 2024);
    assert!(deleted.is_ok());
    assert!(!store.has_snapshot(2024));

    let deleted_again = delete_snapshot(&mut store, 2024);
    let (status, resp) = deleted_again.err().unwrap();
    assert_eq!(status, 404);
    assert_eq!(resp.message.as_str(), "No snapshot found for year 2024");
}

#[test]
fn create_reports_snapshot_location() {
    let mut store = SnapshotStore::new();
    let resp = scrape_holiday(&mut store, 2026, Ok(PAGE.to_string())).ok().unwrap();
    assert!(resp.success);
    assert_eq!(resp.message.as_str(), "Successfully scraped holidays for year 2026");
    assert_eq!(resp.data.unwrap().as_str(), "snapshots/holidays_2026.html");
}

#[test]
fn create_with_fetch_failure_leaves_store_unchanged() {
    let mut store = SnapshotStore::new();
    let failed = scrape_holiday(
        &mut store,
        2024,
        Err(FetchError { message: "navigation timed out".to_string() }),
    );
    let (status, resp) = failed.err().unwrap();
    assert_eq!(status, 500);
    assert!(!resp.success);
    assert_eq!(resp.message.as_str(), "Failed to scrape holidays: navigation timed out");
    assert!(!store.has_snapshot(2024));
}

#[test]
fn update_twice_keeps_exactly_one_snapshot_and_never_conflicts() {
    let mut store = SnapshotStore::new();
    let first = update_snapshot(&mut store, 2024, Ok(PAGE.to_string()));
    assert!(first.is_ok());
    assert!(store.has_snapshot(2024));

    let second_page = PAGE.replace("New Year's Day", "Revised Holiday");
    let second = update_snapshot(&mut store, 2024, Ok(second_page.clone()));
    let resp = second.ok().unwrap();
    assert!(resp.success);
    assert_eq!(resp.message.as_str(), "Successfully updated snapshot for year 2024");
    assert!(store.has_snapshot(2024));
    assert_eq!(store.read(2024).unwrap(), second_page);
}

#[test]
fn update_with_fetch_failure_removes_prior_snapshot() {
    let mut store = SnapshotStore::new();
    store.write(2024, PAGE.to_string()).unwrap();
    let failed = update_snapshot(
        &mut store,
        2024,
        Err(FetchError { message: "browser crashed".to_string() }),
    );
    let (status, resp) = failed.err().unwrap();
    assert_eq!(status, 500);
    assert_eq!(resp.message.as_str(), "Failed to update snapshot: browser crashed");
    assert!(!store.has_snapshot(2024));
}

#[test]
fn get_holidays_returns_records_and_count() {
    let mut store = SnapshotStore::new();
    store.write(2024, PAGE.to_string()).unwrap();
    let resp = get_holidays(&store, 2024).ok().unwrap();
    assert!(resp.success);
    assert_eq!(resp.message.as_str(), "Successfully retrieved 1 holidays for year 2024");
    let data = resp.data.unwrap();
    assert_eq!(data.year, 2024);
    assert_eq!(data.count, 1);
    assert_eq!(data.holidays.len(), 1);
    assert_eq!(data.holidays[0].event.as_str(), "New Year's Day");
    assert_eq!(data.holidays[0].date.as_str(), "2024-01-01");
    assert_eq!(data.holidays[0].day.as_str(), "Monday");
}

#[test]
fn get_holidays_without_snapshot_is_not_found() {
    let store = SnapshotStore::new();
    let (status, resp) = get_holidays(&store, 2030).err().unwrap();
    assert_eq!(status, 404);
    assert!(!resp.success);
    assert_eq!(
        resp.message.as_str(),
        "No snapshot found for year 2030. Use POST to create one."
    );
}

#[test]
fn reading_twice_parses_identically() {
    let mut store = SnapshotStore::new();
    store.write(2024, PAGE.to_string()).unwrap();
    let a = get_holidays(&store, 2024).ok().unwrap().data.unwrap();
    let b = get_holidays(&store, 2024).ok().unwrap().data.unwrap();
    assert_eq!(a.count, b.count);
    for (x, y) in a.holidays.iter().zip(b.holidays.iter()) {
        assert_eq!(x.event, y.event);
        assert_eq!(x.date, y.date);
        assert_eq!(x.day, y.day);
    }
}

#[test]
fn scraper_handle_round_trips_through_store() {
    let mut store = SnapshotStore::new();
    let scraper = HScraper::new(2025);
    assert!(!scraper.snapshot_exists(&store));
    let saved = scraper.save_snapshot(&mut store, PAGE.to_string()).unwrap();
    assert_eq!(saved.as_str(), PAGE);
    assert!(scraper.snapshot_exists(&store));
    assert_eq!(scraper.load_snapshot(&store).unwrap().as_str(), PAGE);
    scraper.delete_snapshot(&mut store).unwrap();
    assert!(matches!(scraper.delete_snapshot(&mut store), Err(StorageError::NotFound)));
}

#[test]
fn health_check_is_ok() {
    let resp = health_check();
    assert!(resp.success);
    assert_eq!(resp.message.as_str(), "Service is healthy");
    assert_eq!(resp.data.unwrap().as_str(), "OK");
}

#[test]
fn server_address_formats_host_and_port() {
    let server = Server::new("127.0.0.1", 3000);
    assert_eq!(server.address().as_str(), "127.0.0.1:3000");
    let server = Server::new("0.0.0.0", 65535);
    assert_eq!(server.address().as_str(), "0.0.0.0:65535");
    let server = Server::new("localhost", 0);
    assert_eq!(server.address().as_str(), "localhost:0");
}
