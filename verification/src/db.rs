//! The event store: durable, append-only storage for page views and
//! downloads, and the queries answered from it.
//!
//! One connection serves the whole process. Every operation takes the guard
//! around it before its first statement and gives it back when it returns,
//! so the operations of all callers run one after the other. A query reads
//! the rows of its interval under the guard and leaves the counting to the
//! aggregation engine: what it returns is the engine's answer on the rows
//! that the storage handed over.

use std::sync::{Mutex, MutexGuard};

use rusqlite::Connection;
use vstd::prelude::*;

use crate::engine::{
    active_visitors, app_downloads, browser_breakdown, daily_downloads, daily_views, daily_visitors,
    download_stats, field_ranking, os_breakdown, overview, page_ranking, pageviews_by_day,
    realtime_active_visitors, top_pages, top_referrers, total_downloads, total_views,
    unique_visitors, unique_visitors_by_day,
};
use crate::models::{
    BrowserStat, DailyStat, DownloadEvent, DownloadStats, OsStat, OverviewStats, PageStat,
    PageViewEvent, ReferrerStat,
};
use crate::observe::PageFacet;
use crate::records::{end_view, keep_within, stamped_within, DownloadRecord, PageViewRecord, Stamped};
use crate::text::in_window;
use crate::sqlite::{
    acquire, connect, execute, execute_batch, guard, query_downloads, query_integer, query_page_views,
    query_text,
};
use crate::views::views_of;

verus! {

/// Sets the journal to write-ahead mode and bounds the wait for a lock held
/// by another writer to five seconds.
pub const CONFIGURE: &'static str = "PRAGMA journal_mode=WAL; PRAGMA busy_timeout=5000;";

/// Creates the two tables and their indexes where they do not exist yet.
pub const MIGRATE: &'static str = "
    CREATE TABLE IF NOT EXISTS page_views (
        id INTEGER PRIMARY KEY AUTOINCREMENT,
        domain TEXT NOT NULL,
        path TEXT NOT NULL,
        referrer TEXT NOT NULL DEFAULT '',
        browser TEXT NOT NULL DEFAULT '',
        os TEXT NOT NULL DEFAULT '',
        screen TEXT NOT NULL DEFAULT '',
        visitor_id TEXT NOT NULL DEFAULT '',
        created_at TEXT NOT NULL DEFAULT (strftime('%Y-%m-%dT%H:%M:%SZ', 'now'))
    );

    CREATE INDEX IF NOT EXISTS idx_page_views_created_at ON page_views(created_at);
    CREATE INDEX IF NOT EXISTS idx_page_views_domain ON page_views(domain);
    CREATE INDEX IF NOT EXISTS idx_page_views_visitor_id ON page_views(visitor_id);

    CREATE TABLE IF NOT EXISTS download_events (
        id INTEGER PRIMARY KEY AUTOINCREMENT,
        app_name TEXT NOT NULL,
        version TEXT NOT NULL DEFAULT '',
        platform TEXT NOT NULL DEFAULT '',
        referrer TEXT NOT NULL DEFAULT '',
        created_at TEXT NOT NULL DEFAULT (strftime('%Y-%m-%dT%H:%M:%SZ', 'now'))
    );

    CREATE INDEX IF NOT EXISTS idx_download_events_created_at ON download_events(created_at);
    CREATE INDEX IF NOT EXISTS idx_download_events_app_name ON download_events(app_name);
    ";

/// Appends one page view; the store assigns `id` and `created_at`.
pub const INSERT_PAGE_VIEW: &'static str =
    "INSERT INTO page_views (domain, path, referrer, browser, os, screen, visitor_id)
     VALUES (?1, ?2, ?3, ?4, ?5, ?6, ?7)";

/// Appends one download; the store assigns `id` and `created_at`.
pub const INSERT_DOWNLOAD: &'static str =
    "INSERT INTO download_events (app_name, version, platform, referrer)
     VALUES (?1, ?2, ?3, ?4)";

/// The page views of a half-open interval, in the order of their insertion.
pub const PAGE_VIEWS_BETWEEN: &'static str =
    "SELECT id, domain, path, referrer, browser, os, screen, visitor_id, created_at
     FROM page_views
     WHERE created_at >= ?1 AND created_at < ?2
     ORDER BY id";

/// The page views from a timestamp on, in the order of their insertion.
pub const PAGE_VIEWS_SINCE: &'static str =
    "SELECT id, domain, path, referrer, browser, os, screen, visitor_id, created_at
     FROM page_views
     WHERE created_at >= ?1
     ORDER BY id";

/// The downloads of a half-open interval, in the order of their insertion.
pub const DOWNLOADS_BETWEEN: &'static str =
    "SELECT id, app_name, version, platform, referrer, created_at
     FROM download_events
     WHERE created_at >= ?1 AND created_at < ?2
     ORDER BY id";

/// The length of an interval in milliseconds.
pub const SPAN_MILLIS: &'static str =
    "SELECT CAST(ROUND((julianday(?2) - julianday(?1)) * 86400000.0) AS INTEGER)";

/// The timestamp five minutes before the store's current time.
pub const WINDOW_START: &'static str = "SELECT strftime('%Y-%m-%dT%H:%M:%SZ', 'now', '-5 minutes')";

/// Why a store operation failed.
#[derive(Debug, Clone, PartialEq, Eq)]
pub enum StoreError {
    /// The storage location could not be opened or configured.
    Open(String),
    /// The tables and indexes could not be set up.
    Migration(String),
    /// The guard around the connection is poisoned.
    Unavailable,
    /// The storage engine failed a statement or handed back a row that
    /// cannot be read.
    Statement(String),
    /// The interval holds more rows than a count can express.
    TooManyRows,
}

impl StoreError {
    /// The failures that an operation on an open store can end in.
    pub open spec fn operational(&self) -> bool {
        self is Unavailable || self is Statement || self is TooManyRows
    }

    /// Whether the failure carries the words in which the storage engine
    /// describes `cause`.
    pub open spec fn tells(&self, cause: rusqlite::Error) -> bool {
        match self {
            StoreError::Open(words) => described(cause, *words),
            StoreError::Migration(words) => described(cause, *words),
            StoreError::Statement(words) => described(cause, *words),
            _ => false,
        }
    }

    /// What `message` says of this failure.
    pub open spec fn detail(&self) -> Seq<char> {
        match self {
            StoreError::Open(cause) => cause@,
            StoreError::Migration(cause) => cause@,
            StoreError::Unavailable => "the storage guard is poisoned"@,
            StoreError::Statement(cause) => cause@,
            StoreError::TooManyRows => "the interval holds too many rows to count"@,
        }
    }

    /// The cause of the failure in words, for a log.
    pub fn message(&self) -> (msg: String)
        ensures
            msg@ == self.detail(),
    {
        match self {
            StoreError::Open(cause) => cause.clone(),
            StoreError::Migration(cause) => cause.clone(),
            StoreError::Unavailable => "the storage guard is poisoned".to_owned(),
            StoreError::Statement(cause) => cause.clone(),
            StoreError::TooManyRows => "the interval holds too many rows to count".to_owned(),
        }
    }
}

/// Whether `words` are those in which the storage engine describes `cause`.
pub open spec fn described(cause: rusqlite::Error, words: String) -> bool {
    vstd::string::to_string_from_display_ensures::<rusqlite::Error>(&cause, words)
}

/// What holds of the rows that a read hands out: each has its timestamp in
/// the interval, and they are no more than a count can express.
pub open spec fn read_within<R: Stamped>(rows: Seq<R>, from: Seq<char>, to: Option<Seq<char>>) -> bool {
    &&& rows.len() <= i64::MAX
    &&& forall|i: int| 0 <= i < rows.len() ==> in_window((#[trigger] rows[i]).stamp(), from, to)
}

/// Whether `stats` are the headline counters of the page views `views` and
/// the downloads `downloads` in the interval from `from` to `to`.
pub open spec fn is_overview(
    stats: OverviewStats,
    views: Seq<PageViewRecord>,
    downloads: Seq<DownloadRecord>,
    from: Seq<char>,
    to: Seq<char>,
) -> bool {
    &&& stats.total_views == total_views(views, from, to)
    &&& stats.unique_visitors == unique_visitors(views, from, to)
    &&& stats.total_downloads == total_downloads(downloads, from, to)
    &&& stats.avg_views_per_day.views == stats.total_views
    &&& stats.avg_views_per_day.wf()
}

/// Whether `stats` are the two download series of the downloads `rows` in
/// the interval from `from` to `to`.
pub open spec fn is_download_stats(
    stats: DownloadStats,
    rows: Seq<DownloadRecord>,
    from: Seq<char>,
    to: Seq<char>,
) -> bool {
    &&& views_of(stats.daily@) == daily_downloads(rows, from, to)
    &&& views_of(stats.by_app@) == app_downloads(rows, from, to)
}

/// What holds of the overview of an interval whatever the storage held:
/// the counters are those of some page views and downloads, and the average
/// divides the total views by a period of a day or more.
pub open spec fn answers_overview(stats: OverviewStats, from: Seq<char>, to: Seq<char>) -> bool {
    exists|views: Seq<PageViewRecord>, downloads: Seq<DownloadRecord>| #[trigger]
        is_overview(stats, views, downloads, from, to)
}

/// What holds of the daily page views of an interval whatever the storage
/// held: they are those of some page views.
pub open spec fn answers_pageviews(stats: Seq<DailyStat>, from: Seq<char>, to: Seq<char>) -> bool {
    exists|rows: Seq<PageViewRecord>| views_of(stats) == #[trigger] daily_views(rows, from, to)
}

/// What holds of the top pages of an interval whatever the storage held:
/// they are the ranking of some page views, no count rises from one row to
/// the next, and a limit that is not negative is kept.
pub open spec fn answers_top_pages(stats: Seq<PageStat>, from: Seq<char>, to: Seq<char>, limit: int) -> bool {
    &&& exists|rows: Seq<PageViewRecord>| views_of(stats) == #[trigger] page_ranking(rows, from, to, limit)
    &&& limit >= 0 ==> stats.len() <= limit
    &&& forall|i: int, j: int| 0 <= i < j < stats.len() ==> stats[i].views >= stats[j].views
}

/// What holds of a ranking by referrer, browser or operating system
/// whatever the storage held: it is the ranking of some page views, no count
/// rises from one row to the next, and a limit that is not negative is kept.
pub open spec fn answers_ranking(
    stats: Seq<(Seq<char>, int)>,
    from: Seq<char>,
    to: Seq<char>,
    facet: PageFacet,
    limit: int,
) -> bool {
    &&& exists|rows: Seq<PageViewRecord>| stats == #[trigger] field_ranking(rows, from, to, facet, limit)
    &&& limit >= 0 ==> stats.len() <= limit
    &&& forall|i: int, j: int| 0 <= i < j < stats.len() ==> stats[i].1 >= stats[j].1
}

/// What holds of the download series of an interval whatever the storage
/// held: they are those of some downloads.
pub open spec fn answers_downloads(stats: DownloadStats, from: Seq<char>, to: Seq<char>) -> bool {
    exists|rows: Seq<DownloadRecord>| #[trigger] is_download_stats(stats, rows, from, to)
}

/// What holds of the daily visitors of an interval whatever the storage
/// held: they are those of some page views.
pub open spec fn answers_visitors(stats: Seq<DailyStat>, from: Seq<char>, to: Seq<char>) -> bool {
    exists|rows: Seq<PageViewRecord>| views_of(stats) == #[trigger] daily_visitors(rows, from, to)
}

/// What holds of the realtime count whatever the storage held and whatever
/// the time: it is the number of known visitors of some page views from some
/// moment on.
pub open spec fn answers_realtime(count: i64) -> bool {
    exists|rows: Seq<PageViewRecord>, since: Seq<char>| count == #[trigger] active_visitors(rows, since)
}

/// The parameters of `INSERT_PAGE_VIEW` for an event, in their order.
pub fn page_view_arguments(event: &PageViewEvent) -> (args: Vec<&str>)
    ensures
        args.len() == 7,
        args[0]@ == event.domain@,
        args[1]@ == event.path@,
        args[2]@ == event.referrer@,
        args[3]@ == event.browser@,
        args[4]@ == event.os@,
        args[5]@ == event.screen@,
        args[6]@ == event.visitor_id@,
{
    let mut args: Vec<&str> = Vec::new();
    args.push(event.domain.as_str());
    args.push(event.path.as_str());
    args.push(event.referrer.as_str());
    args.push(event.browser.as_str());
    args.push(event.os.as_str());
    args.push(event.screen.as_str());
    args.push(event.visitor_id.as_str());
    args
}

/// The parameters of `INSERT_DOWNLOAD` for an event, in their order.
pub fn download_arguments(event: &DownloadEvent) -> (args: Vec<&str>)
    ensures
        args.len() == 4,
        args[0]@ == event.app_name@,
        args[1]@ == event.version@,
        args[2]@ == event.platform@,
        args[3]@ == event.referrer@,
{
    let mut args: Vec<&str> = Vec::new();
    args.push(event.app_name.as_str());
    args.push(event.version.as_str());
    args.push(event.platform.as_str());
    args.push(event.referrer.as_str());
    args
}

/// The failure of a statement, with the storage engine's own words.
fn statement_failed(cause: rusqlite::Error) -> (e: StoreError)
    ensures
        e is Statement,
        e.tells(cause),
{
    StoreError::Statement(cause.to_string())
}

/// What a read makes of the outcome of its query: the rows of the interval
/// among those that the storage handed over, in their order; `TooManyRows`
/// where those are more than a count can express; and the failure of the
/// statement where the query failed.
fn accept<R: Stamped>(fetched: Result<Vec<R>, rusqlite::Error>, from: &str, to: Option<&str>) -> (res: Result<
    Vec<R>,
    StoreError,
>)
    ensures
        match fetched {
            Err(cause) => res matches Err(e) && e is Statement && e.tells(cause),
            Ok(rows) => if rows@.filter(stamped_within::<R>(from@, end_view(to))).len() <= i64::MAX {
                res matches Ok(kept) && kept@ == rows@.filter(stamped_within::<R>(from@, end_view(to)))
            } else {
                res matches Err(e) && e is TooManyRows
            },
        },
        res matches Ok(rows) ==> read_within(rows@, from@, end_view(to)),
        res matches Err(e) ==> e is Statement || e is TooManyRows,
{
    match fetched {
        Err(cause) => Err(statement_failed(cause)),
        Ok(rows) => {
            let kept = keep_within(rows, from, to);
            if kept.len() as u64 > i64::MAX as u64 {
                Err(StoreError::TooManyRows)
            } else {
                Ok(kept)
            }
        },
    }
}

/// Reads the page views from `from` on and, where `to` is given, before
/// `to`.
fn read_page_views(conn: &MutexGuard<'_, Connection>, from: &str, to: Option<&str>) -> (res: Result<
    Vec<PageViewRecord>,
    StoreError,
>)
    ensures
        res matches Ok(rows) ==> read_within(rows@, from@, end_view(to)),
        res matches Err(e) ==> e is Statement || e is TooManyRows,
{
    let args = interval_arguments(from, to);
    match to {
        Some(_) => accept(query_page_views(conn, PAGE_VIEWS_BETWEEN, &args), from, to),
        None => accept(query_page_views(conn, PAGE_VIEWS_SINCE, &args), from, to),
    }
}

/// Reads the downloads of the interval from `from` to `to`.
fn read_downloads(conn: &MutexGuard<'_, Connection>, from: &str, to: &str) -> (res: Result<
    Vec<DownloadRecord>,
    StoreError,
>)
    ensures
        res matches Ok(rows) ==> read_within(rows@, from@, Some(to@)),
        res matches Err(e) ==> e is Statement || e is TooManyRows,
{
    let args = interval_arguments(from, Some(to));
    accept(query_downloads(conn, DOWNLOADS_BETWEEN, &args), from, Some(to))
}

/// The event store: one connection behind its guard.
pub struct Database {
    conn: Mutex<Connection>,
}

impl Database {
    /// Opens the store at `path`, creating it where there is none, and sets
    /// it up: write-ahead journal, bounded wait for locks, tables and
    /// indexes. Setting up a store that is set up already changes nothing
    /// in it.
    pub fn open(path: &str) -> (res: Result<Database, StoreError>)
        ensures
            res matches Err(e) ==> e is Open || e is Migration,
    {
        match connect(path) {
            Err(cause) => Err(set_up_failed(cause, false)),
            Ok(conn) => {
                let db = Database { conn: guard(conn) };
                match db.configure() {
                    Err(e) => Err(e),
                    Ok(()) => match db.migrate() {
                        Err(e) => Err(e),
                        Ok(()) => Ok(db),
                    },
                }
            },
        }
    }

    /// Switches the journal to write-ahead mode and bounds the wait for
    /// locks.
    fn configure(&self) -> (res: Result<(), StoreError>)
        ensures
            res matches Err(e) ==> e is Open,
    {
        match acquire(&self.conn) {
            None => Err(StoreError::Open(StoreError::Unavailable.message())),
            Some(conn) => set_up(execute_batch(&conn, CONFIGURE), false),
        }
    }

    /// Creates the tables and indexes that are missing.
    fn migrate(&self) -> (res: Result<(), StoreError>)
        ensures
            res matches Err(e) ==> e is Migration,
    {
        match acquire(&self.conn) {
            None => Err(StoreError::Migration(StoreError::Unavailable.message())),
            Some(conn) => set_up(execute_batch(&conn, MIGRATE), true),
        }
    }

    /// Appends one page view. The store assigns its `id` and, from its own
    /// clock, its `created_at`.
    pub fn insert_page_view(&self, event: &PageViewEvent) -> (res: Result<(), StoreError>)
        ensures
            res matches Err(e) ==> e is Unavailable || e is Statement,
    {
        match acquire(&self.conn) {
            None => Err(StoreError::Unavailable),
            Some(conn) => {
                let args = page_view_arguments(event);
                stored(execute(&conn, INSERT_PAGE_VIEW, &args))
            },
        }
    }

    /// Appends one download. The store assigns its `id` and, from its own
    /// clock, its `created_at`.
    pub fn insert_download(&self, event: &DownloadEvent) -> (res: Result<(), StoreError>)
        ensures
            res matches Err(e) ==> e is Unavailable || e is Statement,
    {
        match acquire(&self.conn) {
            None => Err(StoreError::Unavailable),
            Some(conn) => {
                let args = download_arguments(event);
                stored(execute(&conn, INSERT_DOWNLOAD, &args))
            },
        }
    }

    /// The page views that the storage hands over for the interval from
    /// `from` to `to`. Rows outside the interval are dropped.
    pub fn page_views(&self, from: &str, to: &str) -> (res: Result<Vec<PageViewRecord>, StoreError>)
        ensures
            res matches Ok(rows) ==> read_within(rows@, from@, Some(to@)),
            res matches Err(e) ==> e.operational(),
    {
        match acquire(&self.conn) {
            None => Err(StoreError::Unavailable),
            Some(conn) => read_page_views(&conn, from, Some(to)),
        }
    }

    /// The downloads that the storage hands over for the interval from
    /// `from` to `to`. Rows outside the interval are dropped.
    pub fn downloads(&self, from: &str, to: &str) -> (res: Result<Vec<DownloadRecord>, StoreError>)
        ensures
            res matches Ok(rows) ==> read_within(rows@, from@, Some(to@)),
            res matches Err(e) ==> e.operational(),
    {
        match acquire(&self.conn) {
            None => Err(StoreError::Unavailable),
            Some(conn) => read_downloads(&conn, from, to),
        }
    }

    /// The headline counters of the interval from `from` to `to`, on the
    /// rows that the storage hands over: page views, known visitors,
    /// downloads, and page views per day. The length of the interval is the
    /// storage engine's reading of the two timestamps; where it cannot read
    /// them, the query fails.
    pub fn get_overview_stats(&self, from: &str, to: &str) -> (res: Result<OverviewStats, StoreError>)
        ensures
            res matches Ok(stats) ==> answers_overview(stats, from@, to@),
            res matches Err(e) ==> e.operational(),
    {
        match acquire(&self.conn) {
            None => Err(StoreError::Unavailable),
            Some(conn) => {
                let views = match read_page_views(&conn, from, Some(to)) {
                    Err(e) => {
                        return Err(e);
                    },
                    Ok(rows) => rows,
                };
                let mut args: Vec<&str> = Vec::new();
                args.push(from);
                args.push(to);
                let span_millis = match query_integer(&conn, SPAN_MILLIS, &args) {
                    Err(cause) => {
                        return Err(statement_failed(cause));
                    },
                    Ok(millis) => millis,
                };
                let downloads = match read_downloads(&conn, from, to) {
                    Err(e) => {
                        return Err(e);
                    },
                    Ok(rows) => rows,
                };
                let stats = overview(&views, &downloads, from, to, span_millis);
                assert(is_overview(stats, views@, downloads@, from@, to@));
                Ok(stats)
            },
        }
    }

    /// The page views of the interval day by day, in ascending order of the
    /// day, on the rows that the storage hands over.
    pub fn get_pageview_stats(&self, from: &str, to: &str) -> (res: Result<Vec<DailyStat>, StoreError>)
        ensures
            res matches Ok(stats) ==> answers_pageviews(stats@, from@, to@),
            res matches Err(e) ==> e.operational(),
    {
        match acquire(&self.conn) {
            None => Err(StoreError::Unavailable),
            Some(conn) => match read_page_views(&conn, from, Some(to)) {
                Err(e) => Err(e),
                Ok(rows) => {
                    let stats = pageviews_by_day(&rows, from, to);
                    assert(views_of(stats@) == daily_views(rows@, from@, to@));
                    Ok(stats)
                },
            },
        }
    }

    /// The most viewed paths of the interval, the most viewed first and no
    /// more than `limit`, on the rows that the storage hands over.
    pub fn get_top_pages(&self, from: &str, to: &str, limit: i64) -> (res: Result<Vec<PageStat>, StoreError>)
        ensures
            res matches Ok(stats) ==> answers_top_pages(stats@, from@, to@, limit as int),
            res matches Err(e) ==> e.operational(),
    {
        match acquire(&self.conn) {
            None => Err(StoreError::Unavailable),
            Some(conn) => match read_page_views(&conn, from, Some(to)) {
                Err(e) => Err(e),
                Ok(rows) => {
                    let stats = top_pages(&rows, from, to, limit);
                    assert(views_of(stats@) == page_ranking(rows@, from@, to@, limit as int));
                    Ok(stats)
                },
            },
        }
    }

    /// The referrers that sent the most page views in the interval, the most
    /// frequent first and no more than `limit`, on the rows that the storage
    /// hands over.
    pub fn get_top_referrers(&self, from: &str, to: &str, limit: i64) -> (res: Result<
        Vec<ReferrerStat>,
        StoreError,
    >)
        ensures
            res matches Ok(stats) ==> answers_ranking(
                views_of(stats@),
                from@,
                to@,
                PageFacet::Referrer,
                limit as int,
            ),
            res matches Err(e) ==> e.operational(),
    {
        match acquire(&self.conn) {
            None => Err(StoreError::Unavailable),
            Some(conn) => match read_page_views(&conn, from, Some(to)) {
                Err(e) => Err(e),
                Ok(rows) => {
                    let stats = top_referrers(&rows, from, to, limit);
                    proof {
                        let ranking = field_ranking(rows@, from@, to@, PageFacet::Referrer, limit as int);
                        assert(views_of(stats@) == ranking);
                        assert forall|i: int, j: int| 0 <= i < j < ranking.len() implies ranking[i].1
                            >= ranking[j].1 by {
                            assert(ranking[i] == stats[i]@ && ranking[j] == stats[j]@);
                        }
                    }
                    Ok(stats)
                },
            },
        }
    }

    /// The browsers of the page views of the interval, the most frequent
    /// first, on the rows that the storage hands over.
    pub fn get_browser_stats(&self, from: &str, to: &str) -> (res: Result<Vec<BrowserStat>, StoreError>)
        ensures
            res matches Ok(stats) ==> answers_ranking(views_of(stats@), from@, to@, PageFacet::Browser, -1),
            res matches Err(e) ==> e.operational(),
    {
        match acquire(&self.conn) {
            None => Err(StoreError::Unavailable),
            Some(conn) => match read_page_views(&conn, from, Some(to)) {
                Err(e) => Err(e),
                Ok(rows) => {
                    let stats = browser_breakdown(&rows, from, to);
                    proof {
                        let ranking = field_ranking(rows@, from@, to@, PageFacet::Browser, -1);
                        assert(views_of(stats@) == ranking);
                        assert forall|i: int, j: int| 0 <= i < j < ranking.len() implies ranking[i].1
                            >= ranking[j].1 by {
                            assert(ranking[i] == stats[i]@ && ranking[j] == stats[j]@);
                        }
                    }
                    Ok(stats)
                },
            },
        }
    }

    /// The operating systems of the page views of the interval, the most
    /// frequent first, on the rows that the storage hands over.
    pub fn get_os_stats(&self, from: &str, to: &str) -> (res: Result<Vec<OsStat>, StoreError>)
        ensures
            res matches Ok(stats) ==> answers_ranking(views_of(stats@), from@, to@, PageFacet::System, -1),
            res matches Err(e) ==> e.operational(),
    {
        match acquire(&self.conn) {
            None => Err(StoreError::Unavailable),
            Some(conn) => match read_page_views(&conn, from, Some(to)) {
                Err(e) => Err(e),
                Ok(rows) => {
                    let stats = os_breakdown(&rows, from, to);
                    proof {
                        let ranking = field_ranking(rows@, from@, to@, PageFacet::System, -1);
                        assert(views_of(stats@) == ranking);
                        assert forall|i: int, j: int| 0 <= i < j < ranking.len() implies ranking[i].1
                            >= ranking[j].1 by {
                            assert(ranking[i] == stats[i]@ && ranking[j] == stats[j]@);
                        }
                    }
                    Ok(stats)
                },
            },
        }
    }

    /// The two download series of the interval, on the rows that the storage
    /// hands over.
    pub fn get_download_stats(&self, from: &str, to: &str) -> (res: Result<DownloadStats, StoreError>)
        ensures
            res matches Ok(stats) ==> answers_downloads(stats, from@, to@),
            res matches Err(e) ==> e.operational(),
    {
        match acquire(&self.conn) {
            None => Err(StoreError::Unavailable),
            Some(conn) => match read_downloads(&conn, from, to) {
                Err(e) => Err(e),
                Ok(rows) => {
                    let stats = download_stats(&rows, from, to);
                    assert(is_download_stats(stats, rows@, from@, to@));
                    Ok(stats)
                },
            },
        }
    }

    /// The known visitors of the interval day by day, in ascending order of
    /// the day, on the rows that the storage hands over.
    pub fn get_unique_visitors(&self, from: &str, to: &str) -> (res: Result<Vec<DailyStat>, StoreError>)
        ensures
            res matches Ok(stats) ==> answers_visitors(stats@, from@, to@),
            res matches Err(e) ==> e.operational(),
    {
        match acquire(&self.conn) {
            None => Err(StoreError::Unavailable),
            Some(conn) => match read_page_views(&conn, from, Some(to)) {
                Err(e) => Err(e),
                Ok(rows) => {
                    let stats = unique_visitors_by_day(&rows, from, to);
                    assert(views_of(stats@) == daily_visitors(rows@, from@, to@));
                    Ok(stats)
                },
            },
        }
    }

    /// The number of known visitors with a page view in the last five
    /// minutes by the store's own clock, on the rows that the storage
    /// hands over.
    pub fn get_realtime_count(&self) -> (res: Result<i64, StoreError>)
        ensures
            res matches Ok(count) ==> answers_realtime(count),
            res matches Err(e) ==> e.operational(),
    {
        match acquire(&self.conn) {
            None => Err(StoreError::Unavailable),
            Some(conn) => {
                let since = match query_text(&conn, WINDOW_START) {
                    Err(cause) => {
                        return Err(statement_failed(cause));
                    },
                    Ok(stamp) => stamp,
                };
                match read_page_views(&conn, since.as_str(), None) {
                    Err(e) => Err(e),
                    Ok(rows) => {
                        let count = realtime_active_visitors(&rows, since.as_str());
                        assert(count == active_visitors(rows@, since@));
                        Ok(count)
                    },
                }
            },
        }
    }
}

/// The parameters of a query for the rows of an interval, in their order:
/// its start and, where it has one, its end.
fn interval_arguments<'a>(from: &'a str, to: Option<&'a str>) -> (args: Vec<&'a str>)
    ensures
        args.len() == if to is Some {
            2int
        } else {
            1int
        },
        args[0]@ == from@,
        to matches Some(end) ==> args[1]@ == end@,
{
    let mut args: Vec<&str> = Vec::new();
    args.push(from);
    match to {
        Some(end) => {
            args.push(end);
        },
        None => {},
    }
    args
}

/// The failure of a step of the set-up, with the storage engine's own
/// words: of the migration where `migrating` is set, of the opening where
/// it is not.
fn set_up_failed(cause: rusqlite::Error, migrating: bool) -> (e: StoreError)
    ensures
        e is Migration <==> migrating,
        e is Open <==> !migrating,
        e.tells(cause),
{
    if migrating {
        StoreError::Migration(cause.to_string())
    } else {
        StoreError::Open(cause.to_string())
    }
}

/// What the set-up makes of the outcome of one of its steps: it goes on
/// where the step was taken, and fails with the cause where it was not.
fn set_up(outcome: Result<(), rusqlite::Error>, migrating: bool) -> (res: Result<(), StoreError>)
    ensures
        match outcome {
            Ok(()) => res is Ok,
            Err(cause) => res matches Err(e) && (e is Migration <==> migrating) && (e is Open <==> !migrating)
                && e.tells(cause),
        },
{
    match outcome {
        Ok(()) => Ok(()),
        Err(cause) => Err(set_up_failed(cause, migrating)),
    }
}

/// What an insert makes of the outcome of its statement: success where the
/// statement ran, whatever the number of rows it reports, and the failure of
/// the statement where it did not.
fn stored(outcome: Result<usize, rusqlite::Error>) -> (res: Result<(), StoreError>)
    ensures
        match outcome {
            Ok(_) => res is Ok,
            Err(cause) => res matches Err(e) && e is Statement && e.tells(cause),
        },
{
    match outcome {
        Ok(_) => Ok(()),
        Err(cause) => Err(statement_failed(cause)),
    }
}

} // verus!
