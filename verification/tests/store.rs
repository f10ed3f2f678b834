use ram::db::{download_arguments, page_view_arguments, Database, StoreError};
use ram::models::{DailyStat, DownloadEvent, PageStat, PageViewEvent, ReferrerStat};
use rusqlite::Connection;

const EVER_FROM: &str = "0000-01-01T00:00:00Z";
const EVER_TO: &str = "9999-12-31T23:59:59Z";

fn page_view(path: &str, visitor_id: &str, referrer: &str) -> PageViewEvent {
    PageViewEvent {
        domain: String::from("example.com"),
        path: String::from(path),
        referrer: String::from(referrer),
        browser: String::from("Firefox"),
        os: String::from("Linux"),
        screen: String::from("1920x1080"),
        visitor_id: String::from(visitor_id),
    }
}

fn download(app_name: &str, platform: &str) -> DownloadEvent {
    DownloadEvent {
        app_name: String::from(app_name),
        version: String::from("1.0.0"),
        platform: String::from(platform),
        referrer: String::new(),
    }
}

fn shared(name: &str) -> String {
    format!("file:{}?mode=memory&cache=shared", name)
}

#[test]
fn overview_counts_one_inserted_page_view() {
    let db = Database::open(":memory:").unwrap();
    db.insert_page_view(&page_view("/", "v1", "")).unwrap();
    let stats = db.get_overview_stats(EVER_FROM, EVER_TO).unwrap();
    assert_eq!(stats.total_views, 1);
    assert_eq!(stats.unique_visitors, 1);
    assert_eq!(stats.total_downloads, 0);
    assert_eq!(stats.avg_views_per_day.views, 1);
    assert!(stats.avg_views_per_day.over_millis >= 86_400_000);
}

#[test]
fn overview_of_the_day_after_the_insert_counts_it_once() {
    let db = Database::open(":memory:").unwrap();
    db.insert_page_view(&page_view("/", "v1", "")).unwrap();
    let stamp = db.page_views(EVER_FROM, EVER_TO).unwrap()[0].created_at.clone();
    let first_of_next_year = format!("{:04}-01-01T00:00:00Z", stamp[0..4].parse::<u32>().unwrap() + 1);
    let stats = db.get_overview_stats(&stamp, &first_of_next_year).unwrap();
    assert_eq!(stats.total_views, 1);
    assert_eq!(stats.unique_visitors, 1);
    assert_eq!(stats.total_downloads, 0);
    let before = db.get_overview_stats(EVER_FROM, &stamp).unwrap();
    assert_eq!(before.total_views, 0);
}

#[test]
fn overview_measures_the_interval_in_milliseconds() {
    let db = Database::open(":memory:").unwrap();
    let week = db.get_overview_stats("2024-03-01T00:00:00Z", "2024-03-08T00:00:00Z").unwrap();
    assert_eq!(week.avg_views_per_day.over_millis, 7 * 86_400_000);
    let half = db.get_overview_stats("2024-03-01T00:00:00Z", "2024-03-02T12:00:00Z").unwrap();
    assert_eq!(half.avg_views_per_day.over_millis, 129_600_000);
    let dates = db.get_overview_stats("2024-02-01", "2024-03-01").unwrap();
    assert_eq!(dates.avg_views_per_day.over_millis, 29 * 86_400_000);
}

#[test]
fn overview_of_a_short_empty_or_reversed_interval_divides_by_one_day() {
    let db = Database::open(":memory:").unwrap();
    let hour = db.get_overview_stats("2024-03-01T00:00:00Z", "2024-03-01T01:00:00Z").unwrap();
    assert_eq!(hour.avg_views_per_day.over_millis, 86_400_000);
    let empty = db.get_overview_stats("2024-03-01T00:00:00Z", "2024-03-01T00:00:00Z").unwrap();
    assert_eq!(empty.avg_views_per_day.over_millis, 86_400_000);
    let reversed = db.get_overview_stats("2024-03-08T00:00:00Z", "2024-03-01T00:00:00Z").unwrap();
    assert_eq!(reversed.avg_views_per_day.over_millis, 86_400_000);
    assert_eq!(reversed.total_views, 0);
}

#[test]
fn overview_fails_on_an_interval_that_is_no_timestamp() {
    let db = Database::open(":memory:").unwrap();
    match db.get_overview_stats("yesterday", "tomorrow") {
        Err(StoreError::Statement(cause)) => assert!(!cause.is_empty()),
        other => panic!("unexpected outcome: {:?}", other),
    }
}

#[test]
fn stored_page_view_has_the_submitted_fields_and_a_timestamp() {
    let db = Database::open(":memory:").unwrap();
    db.insert_page_view(&page_view("/docs", "v7", "https://a.example")).unwrap();
    let rows = db.page_views(EVER_FROM, EVER_TO).unwrap();
    assert_eq!(rows.len(), 1);
    assert_eq!(rows[0].id, 1);
    assert_eq!(rows[0].domain, "example.com");
    assert_eq!(rows[0].path, "/docs");
    assert_eq!(rows[0].referrer, "https://a.example");
    assert_eq!(rows[0].browser, "Firefox");
    assert_eq!(rows[0].os, "Linux");
    assert_eq!(rows[0].screen, "1920x1080");
    assert_eq!(rows[0].visitor_id, "v7");
    let stamp = rows[0].created_at.as_bytes();
    assert_eq!(stamp.len(), 20);
    assert_eq!(stamp[4], b'-');
    assert_eq!(stamp[7], b'-');
    assert_eq!(stamp[10], b'T');
    assert_eq!(stamp[13], b':');
    assert_eq!(stamp[16], b':');
    assert_eq!(stamp[19], b'Z');
}

#[test]
fn stored_download_has_the_submitted_fields() {
    let db = Database::open(":memory:").unwrap();
    db.insert_download(&download("ram", "linux")).unwrap();
    let rows = db.downloads(EVER_FROM, EVER_TO).unwrap();
    assert_eq!(rows.len(), 1);
    assert_eq!(rows[0].id, 1);
    assert_eq!(rows[0].app_name, "ram");
    assert_eq!(rows[0].version, "1.0.0");
    assert_eq!(rows[0].platform, "linux");
    assert_eq!(rows[0].referrer, "");
    assert_eq!(rows[0].created_at.len(), 20);
}

#[test]
fn malformed_values_are_stored_as_they_are() {
    let db = Database::open(":memory:").unwrap();
    let event = PageViewEvent {
        domain: String::new(),
        path: String::from("not a path; DROP TABLE page_views; --"),
        referrer: String::from("'"),
        browser: String::from("\u{1F980}"),
        os: String::new(),
        screen: String::new(),
        visitor_id: String::new(),
    };
    db.insert_page_view(&event).unwrap();
    let rows = db.page_views(EVER_FROM, EVER_TO).unwrap();
    assert_eq!(rows.len(), 1);
    assert_eq!(rows[0].domain, "");
    assert_eq!(rows[0].path, "not a path; DROP TABLE page_views; --");
    assert_eq!(rows[0].referrer, "'");
    assert_eq!(rows[0].browser, "\u{1F980}");
}

#[test]
fn every_insert_adds_one_row_with_an_id_of_its_own() {
    let db = Database::open(":memory:").unwrap();
    db.insert_page_view(&page_view("/before", "v0", "")).unwrap();
    let before = db.page_views(EVER_FROM, EVER_TO).unwrap().len();
    let n = 25;
    for i in 0..n {
        db.insert_page_view(&page_view(&format!("/{}", i), "v", "")).unwrap();
    }
    let rows = db.page_views(EVER_FROM, EVER_TO).unwrap();
    assert_eq!(rows.len(), before + n);
    for i in 0..n {
        let path = format!("/{}", i);
        assert_eq!(rows.iter().filter(|row| row.path == path).count(), 1);
    }
    for pair in rows.windows(2) {
        assert!(pair[0].id < pair[1].id);
    }
}

#[test]
fn opening_a_store_twice_keeps_its_rows_and_tables() {
    let location = shared("opened_twice");
    let first = Database::open(&location).unwrap();
    first.insert_page_view(&page_view("/", "v1", "")).unwrap();
    first.insert_page_view(&page_view("/a", "v2", "")).unwrap();
    first.insert_download(&download("ram", "linux")).unwrap();
    let raw = Connection::open(&location).unwrap();
    let schema = |conn: &Connection| -> Vec<String> {
        let mut stmt = conn.prepare("SELECT name || ':' || coalesce(sql, '') FROM sqlite_master ORDER BY name").unwrap();
        let names = stmt.query_map([], |row| row.get(0)).unwrap();
        names.map(|name| name.unwrap()).collect()
    };
    let before = schema(&raw);
    assert!(before.iter().any(|item| item.starts_with("page_views:")));
    assert!(before.iter().any(|item| item.starts_with("download_events:")));
    assert!(before.iter().any(|item| item.starts_with("idx_page_views_created_at:")));
    assert!(before.iter().any(|item| item.starts_with("idx_page_views_domain:")));
    assert!(before.iter().any(|item| item.starts_with("idx_page_views_visitor_id:")));
    assert!(before.iter().any(|item| item.starts_with("idx_download_events_created_at:")));
    assert!(before.iter().any(|item| item.starts_with("idx_download_events_app_name:")));

    let second = Database::open(&location).unwrap();
    assert_eq!(schema(&raw), before);
    assert_eq!(second.page_views(EVER_FROM, EVER_TO).unwrap().len(), 2);
    assert_eq!(second.downloads(EVER_FROM, EVER_TO).unwrap().len(), 1);
    assert_eq!(first.page_views(EVER_FROM, EVER_TO).unwrap(), second.page_views(EVER_FROM, EVER_TO).unwrap());
}

#[test]
fn configuring_a_connection_bounds_its_wait_for_a_lock() {
    let raw = Connection::open(":memory:").unwrap();
    raw.execute_batch(ram::db::CONFIGURE).unwrap();
    let timeout: i64 = raw.query_row("PRAGMA busy_timeout", [], |row| row.get(0)).unwrap();
    assert_eq!(timeout, 5000);
}

#[test]
fn open_fails_on_a_location_that_cannot_exist() {
    match Database::open("/nonexistent-directory/of/ram/store.db") {
        Err(StoreError::Open(cause)) => assert!(!cause.is_empty()),
        Err(other) => panic!("unexpected failure: {:?}", other),
        Ok(_) => panic!("opened a store in a directory that does not exist"),
    }
}

#[test]
fn open_fails_where_the_tables_cannot_be_set_up() {
    let location = shared("no_migration");
    let raw = Connection::open(&location).unwrap();
    raw.execute_batch("CREATE VIEW page_views AS SELECT 1 AS created_at, 2 AS domain, 3 AS visitor_id")
        .unwrap();
    match Database::open(&location) {
        Err(StoreError::Migration(cause)) => assert!(!cause.is_empty()),
        Err(other) => panic!("unexpected failure: {:?}", other),
        Ok(_) => panic!("set up a store whose tables cannot be indexed"),
    }
}

#[test]
fn a_query_fails_where_a_row_cannot_be_read() {
    let location = shared("unreadable_row");
    let db = Database::open(&location).unwrap();
    let raw = Connection::open(&location).unwrap();
    raw.execute_batch(
        "INSERT INTO page_views (domain, path, visitor_id, created_at)
         VALUES ('example.com', x'ff', 'v1', '2024-03-01T00:00:00Z')",
    )
    .unwrap();
    match db.get_top_pages(EVER_FROM, EVER_TO, 10) {
        Err(StoreError::Statement(cause)) => assert!(!cause.is_empty()),
        other => panic!("unexpected outcome: {:?}", other),
    }
}

#[test]
fn top_pages_of_the_store_ranks_three_views_before_one() {
    let db = Database::open(":memory:").unwrap();
    db.insert_page_view(&page_view("/a", "v1", "")).unwrap();
    db.insert_page_view(&page_view("/b", "v1", "")).unwrap();
    db.insert_page_view(&page_view("/a", "v2", "")).unwrap();
    db.insert_page_view(&page_view("/a", "", "")).unwrap();
    let stats = db.get_top_pages(EVER_FROM, EVER_TO, 10).unwrap();
    assert_eq!(
        stats,
        vec![
            PageStat { path: String::from("/a"), views: 3, unique_visitors: 2 },
            PageStat { path: String::from("/b"), views: 1, unique_visitors: 1 },
        ]
    );
    assert_eq!(db.get_top_pages(EVER_FROM, EVER_TO, 1).unwrap().len(), 1);
    assert_eq!(db.get_top_pages(EVER_FROM, EVER_TO, 0).unwrap().len(), 0);
}

#[test]
fn top_referrers_of_the_store_leave_out_the_empty_referrer() {
    let db = Database::open(":memory:").unwrap();
    db.insert_page_view(&page_view("/", "v1", "")).unwrap();
    assert_eq!(db.get_top_referrers(EVER_FROM, EVER_TO, 10).unwrap(), Vec::<ReferrerStat>::new());
    db.insert_page_view(&page_view("/", "v1", "https://a.example")).unwrap();
    assert_eq!(
        db.get_top_referrers(EVER_FROM, EVER_TO, 10).unwrap(),
        vec![ReferrerStat { referrer: String::from("https://a.example"), count: 1 }]
    );
}

#[test]
fn breakdowns_of_the_store_count_browsers_and_systems() {
    let db = Database::open(":memory:").unwrap();
    db.insert_page_view(&page_view("/", "v1", "")).unwrap();
    db.insert_page_view(&page_view("/a", "v2", "")).unwrap();
    let browsers = db.get_browser_stats(EVER_FROM, EVER_TO).unwrap();
    assert_eq!(browsers.len(), 1);
    assert_eq!(browsers[0].browser, "Firefox");
    assert_eq!(browsers[0].count, 2);
    let systems = db.get_os_stats(EVER_FROM, EVER_TO).unwrap();
    assert_eq!(systems.len(), 1);
    assert_eq!(systems[0].os, "Linux");
    assert_eq!(systems[0].count, 2);
}

#[test]
fn daily_series_of_the_store_group_by_the_day_of_the_insert() {
    let db = Database::open(":memory:").unwrap();
    db.insert_page_view(&page_view("/", "v1", "")).unwrap();
    db.insert_page_view(&page_view("/a", "v1", "")).unwrap();
    db.insert_page_view(&page_view("/a", "", "")).unwrap();
    let today = db.page_views(EVER_FROM, EVER_TO).unwrap()[0].created_at[0..10].to_string();
    let views = db.get_pageview_stats(EVER_FROM, EVER_TO).unwrap();
    let visitors = db.get_unique_visitors(EVER_FROM, EVER_TO).unwrap();
    if views.len() == 1 {
        assert_eq!(views, vec![DailyStat { date: today.clone(), count: 3 }]);
        assert_eq!(visitors, vec![DailyStat { date: today, count: 1 }]);
    } else {
        assert_eq!(views.iter().map(|day| day.count).sum::<i64>(), 3);
        assert!(views[0].date < views[1].date);
    }
}

#[test]
fn download_stats_of_the_store_count_by_application_and_platform() {
    let db = Database::open(":memory:").unwrap();
    db.insert_download(&download("ram", "linux")).unwrap();
    db.insert_download(&download("ram", "macos")).unwrap();
    db.insert_download(&download("ram", "macos")).unwrap();
    let stats = db.get_download_stats(EVER_FROM, EVER_TO).unwrap();
    assert_eq!(stats.daily.iter().map(|day| day.count).sum::<i64>(), 3);
    assert!(stats.daily.iter().all(|day| day.app_name == "ram" && day.date.len() == 10));
    assert_eq!(stats.by_app.len(), 2);
    assert_eq!(stats.by_app[0].platform, "macos");
    assert_eq!(stats.by_app[0].count, 2);
    assert_eq!(stats.by_app[1].platform, "linux");
    assert_eq!(stats.by_app[1].count, 1);
    assert_eq!(db.get_overview_stats(EVER_FROM, EVER_TO).unwrap().total_downloads, 3);
}

#[test]
fn realtime_counts_a_visitor_who_has_just_been_seen() {
    let db = Database::open(":memory:").unwrap();
    assert_eq!(db.get_realtime_count().unwrap(), 0);
    db.insert_page_view(&page_view("/", "v1", "")).unwrap();
    db.insert_page_view(&page_view("/a", "v1", "")).unwrap();
    db.insert_page_view(&page_view("/a", "", "")).unwrap();
    assert_eq!(db.get_realtime_count().unwrap(), 1);
}

#[test]
fn realtime_leaves_out_a_visitor_seen_more_than_five_minutes_ago() {
    let location = shared("long_ago");
    let db = Database::open(&location).unwrap();
    let raw = Connection::open(&location).unwrap();
    raw.execute_batch(
        "INSERT INTO page_views (domain, path, visitor_id, created_at)
         VALUES ('example.com', '/', 'v1', strftime('%Y-%m-%dT%H:%M:%SZ', 'now', '-5 minutes', '-1 seconds'));
         INSERT INTO page_views (domain, path, visitor_id, created_at)
         VALUES ('example.com', '/', 'v2', strftime('%Y-%m-%dT%H:%M:%SZ', 'now', '-4 minutes'))",
    )
    .unwrap();
    assert_eq!(db.get_realtime_count().unwrap(), 1);
}

#[test]
fn the_fields_of_an_event_are_handed_to_the_insert_in_their_order() {
    let event = PageViewEvent {
        domain: String::from("d"),
        path: String::from("p"),
        referrer: String::from("r"),
        browser: String::from("b"),
        os: String::from("o"),
        screen: String::from("s"),
        visitor_id: String::from("v"),
    };
    assert_eq!(page_view_arguments(&event), vec!["d", "p", "r", "b", "o", "s", "v"]);
    let event = DownloadEvent {
        app_name: String::from("a"),
        version: String::from("1"),
        platform: String::from("p"),
        referrer: String::from("r"),
    };
    assert_eq!(download_arguments(&event), vec!["a", "1", "p", "r"]);
}

#[test]
fn a_failed_statement_is_reported_in_the_words_of_the_storage_engine() {
    let location = shared("in_its_words");
    let db = Database::open(&location).unwrap();
    let raw = Connection::open(&location).unwrap();
    raw.execute_batch("DROP TABLE page_views; DROP TABLE download_events;").unwrap();
    let expected = raw.execute_batch("SELECT 1 FROM page_views").unwrap_err().to_string();
    assert!(expected.contains("no such table"));
    match db.insert_page_view(&page_view("/", "v1", "")) {
        Err(StoreError::Statement(cause)) => assert!(cause.contains("no such table: page_views")),
        other => panic!("unexpected outcome: {:?}", other),
    }
    match db.insert_download(&download("ram", "linux")) {
        Err(StoreError::Statement(cause)) => assert!(cause.contains("no such table: download_events")),
        other => panic!("unexpected outcome: {:?}", other),
    }
    match db.page_views(EVER_FROM, EVER_TO) {
        Err(StoreError::Statement(cause)) => assert!(cause.contains("no such table: page_views")),
        other => panic!("unexpected outcome: {:?}", other),
    }
    match db.downloads(EVER_FROM, EVER_TO) {
        Err(StoreError::Statement(cause)) => assert!(cause.contains("no such table: download_events")),
        other => panic!("unexpected outcome: {:?}", other),
    }
}

#[test]
fn a_failed_set_up_is_reported_in_the_words_of_the_storage_engine() {
    let location = shared("set_up_in_its_words");
    let raw = Connection::open(&location).unwrap();
    raw.execute_batch("CREATE VIEW page_views AS SELECT 1 AS created_at, 2 AS domain, 3 AS visitor_id")
        .unwrap();
    match Database::open(&location) {
        Err(StoreError::Migration(cause)) => assert!(cause.contains("views may not be indexed")),
        other => panic!("unexpected outcome: {:?}", other.err()),
    }
    match Database::open("/nonexistent-directory/of/ram/store.db") {
        Err(StoreError::Open(cause)) => assert!(cause.contains("unable to open database file")),
        other => panic!("unexpected outcome: {:?}", other.err()),
    }
}
