//! Event records accepted for ingestion, query parameters, and the result
//! shapes of the aggregation queries.
//!
//! Every row of a result has a view: the same data with each string as a
//! `Seq<char>` and each count as an `int`, in the order of the fields.

use vstd::prelude::*;

verus! {

/// The length of one day in milliseconds.
pub const MILLIS_PER_DAY: i64 = 86_400_000;

/// One page load, as submitted for ingestion. Fields that the submitter left
/// out are empty strings.
#[derive(Debug, Clone, PartialEq, Eq)]
pub struct PageViewEvent {
    pub domain: String,
    pub path: String,
    pub referrer: String,
    pub browser: String,
    pub os: String,
    pub screen: String,
    pub visitor_id: String,
}

/// One download, as submitted for ingestion. Fields that the submitter left
/// out are empty strings.
#[derive(Debug, Clone, PartialEq, Eq)]
pub struct DownloadEvent {
    pub app_name: String,
    pub version: String,
    pub platform: String,
    pub referrer: String,
}

/// The half-open interval of a query: it starts at `from` and ends before `to`.
#[derive(Debug, Clone, PartialEq, Eq)]
pub struct DateRange {
    pub from: String,
    pub to: String,
}

/// The interval of a ranking query and the number of rows it may return.
#[derive(Debug, Clone, PartialEq, Eq)]
pub struct DateRangeWithLimit {
    pub from: String,
    pub to: String,
    pub limit: i64,
}

/// The number of ranking rows returned when a caller names no limit.
pub open spec fn spec_default_limit() -> i64 {
    10
}

/// The number of ranking rows returned when a caller names no limit.
#[verifier::when_used_as_spec(spec_default_limit)]
pub fn default_limit() -> (limit: i64)
    ensures
        limit == 10,
{
    10
}

/// An average number of views per day, kept exact: `views` page views over a
/// period of `over_millis` milliseconds. The period is never shorter than a
/// day, so the quotient `views * MILLIS_PER_DAY / over_millis` always exists.
#[derive(Debug, Clone, Copy, PartialEq, Eq)]
pub struct ViewsPerDay {
    pub views: i64,
    pub over_millis: i64,
}

impl ViewsPerDay {
    /// The period is at least one day long.
    pub open spec fn wf(&self) -> bool {
        self.over_millis >= MILLIS_PER_DAY
    }

    /// The average over an interval that spans `span_millis` milliseconds.
    /// An interval shorter than a day, empty or reversed counts as one day.
    pub open spec fn over(views: i64, span_millis: i64) -> ViewsPerDay {
        ViewsPerDay {
            views,
            over_millis: if span_millis > MILLIS_PER_DAY {
                span_millis
            } else {
                MILLIS_PER_DAY
            },
        }
    }

    /// The average of `views` page views over an interval of `span_millis`
    /// milliseconds.
    pub fn new(views: i64, span_millis: i64) -> (avg: ViewsPerDay)
        ensures
            avg == ViewsPerDay::over(views, span_millis),
            avg.wf(),
    {
        if span_millis > MILLIS_PER_DAY {
            ViewsPerDay { views, over_millis: span_millis }
        } else {
            ViewsPerDay { views, over_millis: MILLIS_PER_DAY }
        }
    }
}

/// The headline counters of an interval.
#[derive(Debug, Clone, PartialEq, Eq)]
pub struct OverviewStats {
    pub total_views: i64,
    pub unique_visitors: i64,
    pub avg_views_per_day: ViewsPerDay,
    pub total_downloads: i64,
}

/// A count for one calendar day.
#[derive(Debug, Clone, PartialEq, Eq)]
pub struct DailyStat {
    pub date: String,
    pub count: i64,
}

impl View for DailyStat {
    type V = (Seq<char>, int);

    open spec fn view(&self) -> (Seq<char>, int) {
        (self.date@, self.count as int)
    }
}

/// The views of one path and the number of distinct visitors behind them.
#[derive(Debug, Clone, PartialEq, Eq)]
pub struct PageStat {
    pub path: String,
    pub views: i64,
    pub unique_visitors: i64,
}

impl View for PageStat {
    type V = (Seq<char>, int, int);

    open spec fn view(&self) -> (Seq<char>, int, int) {
        (self.path@, self.views as int, self.unique_visitors as int)
    }
}

/// The views that one referrer sent.
#[derive(Debug, Clone, PartialEq, Eq)]
pub struct ReferrerStat {
    pub referrer: String,
    pub count: i64,
}

impl View for ReferrerStat {
    type V = (Seq<char>, int);

    open spec fn view(&self) -> (Seq<char>, int) {
        (self.referrer@, self.count as int)
    }
}

/// The views made with one browser.
#[derive(Debug, Clone, PartialEq, Eq)]
pub struct BrowserStat {
    pub browser: String,
    pub count: i64,
}

impl View for BrowserStat {
    type V = (Seq<char>, int);

    open spec fn view(&self) -> (Seq<char>, int) {
        (self.browser@, self.count as int)
    }
}

/// The views made on one operating system.
#[derive(Debug, Clone, PartialEq, Eq)]
pub struct OsStat {
    pub os: String,
    pub count: i64,
}

impl View for OsStat {
    type V = (Seq<char>, int);

    open spec fn view(&self) -> (Seq<char>, int) {
        (self.os@, self.count as int)
    }
}

/// The downloads of one application on one calendar day.
#[derive(Debug, Clone, PartialEq, Eq)]
pub struct DownloadDailyStat {
    pub date: String,
    pub app_name: String,
    pub count: i64,
}

impl View for DownloadDailyStat {
    type V = (Seq<char>, Seq<char>, int);

    open spec fn view(&self) -> (Seq<char>, Seq<char>, int) {
        (self.date@, self.app_name@, self.count as int)
    }
}

/// The downloads of one application for one platform.
#[derive(Debug, Clone, PartialEq, Eq)]
pub struct DownloadAppStat {
    pub app_name: String,
    pub platform: String,
    pub count: i64,
}

impl View for DownloadAppStat {
    type V = (Seq<char>, Seq<char>, int);

    open spec fn view(&self) -> (Seq<char>, Seq<char>, int) {
        (self.app_name@, self.platform@, self.count as int)
    }
}

/// The two download series of an interval.
#[derive(Debug, Clone, PartialEq, Eq)]
pub struct DownloadStats {
    pub daily: Vec<DownloadDailyStat>,
    pub by_app: Vec<DownloadAppStat>,
}

/// The number of visitors seen in the last minutes.
#[derive(Debug, Clone, PartialEq, Eq)]
pub struct RealtimeStats {
    pub active_visitors: i64,
}

/// The envelope in which every query result is handed out.
#[derive(Debug, Clone, PartialEq, Eq)]
pub struct ApiResponse<T> {
    pub data: T,
}

} // verus!
