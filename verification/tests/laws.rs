use ram::engine::{
    download_stats, overview, pageviews_by_day, top_pages, top_referrers, unique_visitors_by_day,
};
use ram::models::MILLIS_PER_DAY;
use ram::records::{DownloadRecord, PageViewRecord};
use ram::text::bytes_at_or_before;

const FROM: &str = "2024-03-01T00:00:00Z";
const TO: &str = "2024-04-01T00:00:00Z";

fn view(id: i64, path: &str, referrer: &str, visitor_id: &str, created_at: &str) -> PageViewRecord {
    PageViewRecord {
        id,
        domain: String::from("example.com"),
        path: String::from(path),
        referrer: String::from(referrer),
        browser: String::new(),
        os: String::new(),
        screen: String::new(),
        visitor_id: String::from(visitor_id),
        created_at: String::from(created_at),
    }
}

fn download(id: i64, app_name: &str, platform: &str, created_at: &str) -> DownloadRecord {
    DownloadRecord {
        id,
        app_name: String::from(app_name),
        version: String::new(),
        platform: String::from(platform),
        referrer: String::new(),
        created_at: String::from(created_at),
    }
}

fn log() -> Vec<PageViewRecord> {
    vec![
        view(1, "/", "", "v1", "2024-02-28T10:00:00Z"),
        view(2, "/", "https://a.example", "v1", "2024-03-01T00:00:00Z"),
        view(3, "/a", "https://b.example", "", "2024-03-01T09:30:00Z"),
        view(4, "/a", "https://a.example", "v2", "2024-03-07T09:30:00Z"),
        view(5, "/b", "", "v2", "2024-03-07T11:00:00Z"),
        view(6, "/a", "https://a.example", "v3", "2024-03-20T23:59:59Z"),
        view(7, "/c", "https://c.example", "", "2024-03-20T08:00:00Z"),
        view(8, "/", "", "v1", "2024-03-31T23:59:59Z"),
        view(9, "/", "", "v4", "2024-04-01T00:00:00Z"),
    ]
}

fn downloads() -> Vec<DownloadRecord> {
    vec![
        download(1, "ram", "linux", "2024-03-03T10:00:00Z"),
        download(2, "ram", "macos", "2024-03-03T11:00:00Z"),
        download(3, "rom", "linux", "2024-03-02T11:00:00Z"),
        download(4, "ram", "linux", "2024-03-09T11:00:00Z"),
        download(5, "ram", "linux", "2024-04-09T11:00:00Z"),
    ]
}

fn total_views(log: &Vec<PageViewRecord>) -> i64 {
    overview(log, &Vec::new(), FROM, TO, 31 * MILLIS_PER_DAY).total_views
}

fn unique_visitors(log: &Vec<PageViewRecord>) -> i64 {
    overview(log, &Vec::new(), FROM, TO, 31 * MILLIS_PER_DAY).unique_visitors
}

#[test]
fn a_view_appended_inside_the_interval_is_counted_once() {
    let mut log = log();
    let before = total_views(&log);
    assert_eq!(before, 7);
    log.push(view(10, "/new", "", "v9", "2024-03-15T12:00:00Z"));
    assert_eq!(total_views(&log), before + 1);
    log.push(view(11, "/new", "", "v9", "2024-03-15T12:00:00Z"));
    assert_eq!(total_views(&log), before + 2);
}

#[test]
fn a_view_appended_outside_the_interval_is_not_counted() {
    let mut log = log();
    let before = total_views(&log);
    log.push(view(10, "/new", "", "v9", "2024-04-01T00:00:00Z"));
    log.push(view(11, "/new", "", "v9", "2024-02-29T23:59:59Z"));
    assert_eq!(total_views(&log), before);
}

#[test]
fn views_of_unknown_visitors_change_no_visitor_count() {
    let log = log();
    let known: Vec<PageViewRecord> = log.iter().filter(|row| !row.visitor_id.is_empty()).cloned().collect();
    assert_eq!(unique_visitors(&log), 3);
    assert_eq!(unique_visitors(&log), unique_visitors(&known));
    assert_eq!(unique_visitors_by_day(&log, FROM, TO), unique_visitors_by_day(&known, FROM, TO));
    let mut more = log.clone();
    more.push(view(10, "/", "", "", "2024-03-15T12:00:00Z"));
    assert_eq!(unique_visitors(&more), 3);
    assert_eq!(unique_visitors_by_day(&more, FROM, TO), unique_visitors_by_day(&log, FROM, TO));
}

#[test]
fn rankings_descend_and_keep_every_limit() {
    let log = log();
    for limit in 0..6 {
        let pages = top_pages(&log, FROM, TO, limit);
        assert!(pages.len() as i64 <= limit);
        assert!(pages.windows(2).all(|pair| pair[0].views >= pair[1].views));
        let referrers = top_referrers(&log, FROM, TO, limit);
        assert!(referrers.len() as i64 <= limit);
        assert!(referrers.windows(2).all(|pair| pair[0].count >= pair[1].count));
    }
}

#[test]
fn a_ranking_lists_each_path_once_with_at_least_one_view() {
    let pages = top_pages(&log(), FROM, TO, -1);
    assert_eq!(pages.len(), 4);
    for (i, page) in pages.iter().enumerate() {
        assert!(page.views >= 1);
        assert!(0 <= page.unique_visitors && page.unique_visitors <= page.views);
        assert!(pages[i + 1..].iter().all(|other| other.path != page.path));
    }
}

#[test]
fn daily_series_list_each_day_once_in_ascending_order() {
    let log = log();
    for series in [pageviews_by_day(&log, FROM, TO), unique_visitors_by_day(&log, FROM, TO)] {
        assert!(series.windows(2).all(|pair| pair[0].date < pair[1].date));
        assert!(series.iter().all(|day| day.count >= 1));
    }
    assert_eq!(pageviews_by_day(&log, FROM, TO).len(), 4);
    assert_eq!(unique_visitors_by_day(&log, FROM, TO).len(), 4);
}

#[test]
fn the_counts_of_a_series_add_up_to_the_total() {
    let log = log();
    let daily: i64 = pageviews_by_day(&log, FROM, TO).iter().map(|day| day.count).sum();
    assert_eq!(daily, total_views(&log));
    let ranked: i64 = top_pages(&log, FROM, TO, -1).iter().map(|page| page.views).sum();
    assert_eq!(ranked, total_views(&log));

    let downloads = downloads();
    let total = overview(&Vec::new(), &downloads, FROM, TO, 31 * MILLIS_PER_DAY).total_downloads;
    assert_eq!(total, 4);
    let stats = download_stats(&downloads, FROM, TO);
    assert_eq!(stats.daily.iter().map(|day| day.count).sum::<i64>(), total);
    assert_eq!(stats.by_app.iter().map(|app| app.count).sum::<i64>(), total);
}

#[test]
fn the_byte_order_is_a_total_order() {
    let samples: [&[u8]; 7] = [b"", b"a", b"ab", b"abc", b"b", b"2024-03-01T00:00:00Z", b"2024-03-01"];
    for a in samples {
        assert!(bytes_at_or_before(a, a));
        for b in samples {
            assert!(bytes_at_or_before(a, b) || bytes_at_or_before(b, a));
            assert_eq!(bytes_at_or_before(a, b), a <= b);
            if bytes_at_or_before(a, b) && bytes_at_or_before(b, a) {
                assert_eq!(a, b);
            }
            for c in samples {
                if bytes_at_or_before(a, b) && bytes_at_or_before(b, c) {
                    assert!(bytes_at_or_before(a, c));
                }
            }
        }
    }
}
