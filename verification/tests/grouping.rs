use ram::arrange::{arrange, keeps_place, limit_to, Arrangement};
use ram::observe::{
    observe_download, observe_downloads, observe_page, observe_page_views, selects_page,
    DownloadFacet, Observation, PageFacet,
};
use ram::records::{DownloadRecord, PageViewRecord};
use ram::tally::{count_visitors, seen_earlier, tally, Tally};

fn seen(key: &str, detail: &str, visitor: &str) -> Observation {
    Observation { key: String::from(key), detail: String::from(detail), visitor: String::from(visitor) }
}

fn sum(key: &str, detail: &str, count: i64, visitors: i64) -> Tally {
    Tally { key: String::from(key), detail: String::from(detail), count, visitors }
}

fn shape(tallies: &Vec<Tally>) -> Vec<(String, String, i64, i64)> {
    tallies.iter().map(|t| (t.key.clone(), t.detail.clone(), t.count, t.visitors)).collect()
}

fn shape_of(key: &str, detail: &str, count: i64, visitors: i64) -> (String, String, i64, i64) {
    (String::from(key), String::from(detail), count, visitors)
}

fn row() -> PageViewRecord {
    PageViewRecord {
        id: 1,
        domain: String::from("example.com"),
        path: String::from("/docs"),
        referrer: String::from("https://a.example"),
        browser: String::from("Firefox"),
        os: String::from("Linux"),
        screen: String::from("800x600"),
        visitor_id: String::from("v1"),
        created_at: String::from("2024-03-09T10:11:12Z"),
    }
}

fn bare_row() -> PageViewRecord {
    PageViewRecord {
        id: 2,
        domain: String::from("example.com"),
        path: String::from("/"),
        referrer: String::new(),
        browser: String::new(),
        os: String::new(),
        screen: String::new(),
        visitor_id: String::new(),
        created_at: String::from("2024-03-09T10:11:12Z"),
    }
}

fn parts(o: &Observation) -> (&str, &str, &str) {
    (o.key.as_str(), o.detail.as_str(), o.visitor.as_str())
}

#[test]
fn each_facet_reads_its_own_fields_of_a_page_view() {
    assert_eq!(parts(&observe_page(&row(), PageFacet::Overall)), ("", "", "v1"));
    assert_eq!(parts(&observe_page(&row(), PageFacet::Day)), ("2024-03-09", "", ""));
    assert_eq!(parts(&observe_page(&row(), PageFacet::Path)), ("/docs", "", "v1"));
    assert_eq!(parts(&observe_page(&row(), PageFacet::Referrer)), ("https://a.example", "", ""));
    assert_eq!(parts(&observe_page(&row(), PageFacet::Browser)), ("Firefox", "", ""));
    assert_eq!(parts(&observe_page(&row(), PageFacet::System)), ("Linux", "", ""));
    assert_eq!(parts(&observe_page(&row(), PageFacet::VisitorDay)), ("2024-03-09", "", "v1"));
}

#[test]
fn each_facet_reads_its_own_fields_of_a_download() {
    let row = DownloadRecord {
        id: 1,
        app_name: String::from("ram"),
        version: String::from("2.0"),
        platform: String::from("linux"),
        referrer: String::new(),
        created_at: String::from("2024-03-09T10:11:12Z"),
    };
    assert_eq!(parts(&observe_download(&row, DownloadFacet::Overall)), ("", "", ""));
    assert_eq!(parts(&observe_download(&row, DownloadFacet::DayAndApp)), ("2024-03-09", "ram", ""));
    assert_eq!(parts(&observe_download(&row, DownloadFacet::AppAndPlatform)), ("ram", "linux", ""));
    let rows = vec![row];
    assert_eq!(observe_downloads(&rows, "2024-03-09", Some("2024-03-10"), DownloadFacet::Overall).len(), 1);
    assert_eq!(observe_downloads(&rows, "2024-03-10", None, DownloadFacet::Overall).len(), 0);
}

#[test]
fn facets_select_the_rows_that_name_their_field() {
    let from = "2024-03-01T00:00:00Z";
    let to = Some("2024-04-01T00:00:00Z");
    for facet in [
        PageFacet::Overall,
        PageFacet::Day,
        PageFacet::Path,
        PageFacet::Referrer,
        PageFacet::Browser,
        PageFacet::System,
        PageFacet::VisitorDay,
    ] {
        assert!(selects_page(&row(), from, to, facet));
        assert!(!selects_page(&row(), "2024-03-10T00:00:00Z", to, facet));
    }
    assert!(selects_page(&bare_row(), from, to, PageFacet::Overall));
    assert!(selects_page(&bare_row(), from, to, PageFacet::Day));
    assert!(selects_page(&bare_row(), from, to, PageFacet::Path));
    assert!(!selects_page(&bare_row(), from, to, PageFacet::Referrer));
    assert!(!selects_page(&bare_row(), from, to, PageFacet::Browser));
    assert!(!selects_page(&bare_row(), from, to, PageFacet::System));
    assert!(!selects_page(&bare_row(), from, to, PageFacet::VisitorDay));
}

#[test]
fn observations_come_in_the_order_of_the_rows() {
    let mut later = row();
    later.path = String::from("/later");
    let rows = vec![row(), bare_row(), later];
    let obs = observe_page_views(&rows, "2024-03-01", Some("2024-04-01"), PageFacet::Path);
    let keys: Vec<&str> = obs.iter().map(|o| o.key.as_str()).collect();
    assert_eq!(keys, vec!["/docs", "/", "/later"]);
}

#[test]
fn tally_lists_the_groups_in_the_order_first_seen() {
    let obs = vec![
        seen("b", "", "v1"),
        seen("a", "", "v1"),
        seen("b", "", "v2"),
        seen("b", "", "v1"),
        seen("a", "x", ""),
        seen("a", "", ""),
    ];
    let tallies = tally(&obs);
    assert_eq!(
        shape(&tallies),
        vec![shape_of("b", "", 3, 2), shape_of("a", "", 2, 1), shape_of("a", "x", 1, 0)]
    );
}

#[test]
fn tally_of_nothing_is_empty() {
    assert!(tally(&Vec::new()).is_empty());
    assert_eq!(count_visitors(&Vec::new()), 0);
}

#[test]
fn count_visitors_counts_each_known_visitor_once() {
    let obs = vec![
        seen("a", "", "v1"),
        seen("b", "", "v1"),
        seen("c", "", ""),
        seen("d", "", "v2"),
        seen("e", "", "V2"),
    ];
    assert_eq!(count_visitors(&obs), 3);
}

#[test]
fn seen_earlier_looks_at_the_same_group_or_at_all() {
    let obs = vec![seen("a", "", "v1"), seen("b", "", "v1"), seen("a", "", "v1"), seen("a", "y", "v2")];
    assert!(!seen_earlier(&obs, 0, false));
    assert!(!seen_earlier(&obs, 0, true));
    assert!(seen_earlier(&obs, 1, false));
    assert!(!seen_earlier(&obs, 1, true));
    assert!(seen_earlier(&obs, 2, true));
    assert!(!seen_earlier(&obs, 3, false));
}

#[test]
fn arrange_by_count_puts_the_largest_first_and_keeps_ties_in_order() {
    let tallies = vec![sum("a", "", 1, 0), sum("b", "", 3, 0), sum("c", "", 1, 0), sum("d", "", 2, 0), sum("e", "", 3, 0)];
    let out = arrange(tallies, Arrangement::CountDescending);
    let keys: Vec<&str> = out.iter().map(|t| t.key.as_str()).collect();
    assert_eq!(keys, vec!["b", "e", "d", "a", "c"]);
}

#[test]
fn arrange_by_key_puts_the_smallest_first_and_keeps_ties_in_order() {
    let tallies = vec![
        sum("2024-03-05", "x", 1, 0),
        sum("2024-03-01", "y", 1, 0),
        sum("2024-03-05", "a", 1, 0),
        sum("2024-02-29", "z", 1, 0),
    ];
    let out = arrange(tallies, Arrangement::KeyAscending);
    let keys: Vec<(&str, &str)> = out.iter().map(|t| (t.key.as_str(), t.detail.as_str())).collect();
    assert_eq!(
        keys,
        vec![("2024-02-29", "z"), ("2024-03-01", "y"), ("2024-03-05", "x"), ("2024-03-05", "a")]
    );
}

#[test]
fn keeps_place_compares_counts_or_keys() {
    let small = sum("b", "", 1, 0);
    let large = sum("a", "", 2, 0);
    assert!(keeps_place(&large, &small, Arrangement::CountDescending));
    assert!(!keeps_place(&small, &large, Arrangement::CountDescending));
    assert!(keeps_place(&small, &small, Arrangement::CountDescending));
    assert!(keeps_place(&large, &small, Arrangement::KeyAscending));
    assert!(!keeps_place(&small, &large, Arrangement::KeyAscending));
}

#[test]
fn limit_to_keeps_the_first_rows() {
    let tallies = || vec![sum("a", "", 3, 0), sum("b", "", 2, 0), sum("c", "", 1, 0)];
    assert_eq!(limit_to(tallies(), 2).len(), 2);
    assert_eq!(limit_to(tallies(), 2)[1].key, "b");
    assert_eq!(limit_to(tallies(), 0).len(), 0);
    assert_eq!(limit_to(tallies(), 3).len(), 3);
    assert_eq!(limit_to(tallies(), 9).len(), 3);
    assert_eq!(limit_to(tallies(), -1).len(), 3);
}
