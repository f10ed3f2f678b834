//! The operations that the boundary layer offers: each takes what a request
//! carried, asks the store, and says what to answer.
//!
//! A request that the store serves is answered with its result in an
//! envelope; a collected event is answered with `ACCEPTED`. A request that
//! the store fails is answered with `INTERNAL_SERVER_ERROR` and nothing of
//! the cause: the cause goes to the log.

use vstd::prelude::*;
use vstd::string::StringExecFns;

use crate::db::{
    answers_downloads, answers_overview, answers_pageviews, answers_ranking, answers_realtime,
    answers_top_pages, Database, StoreError,
};
use crate::models::{
    ApiResponse, BrowserStat, DailyStat, DateRange, DateRangeWithLimit, DownloadEvent, DownloadStats,
    OsStat, OverviewStats, PageStat, PageViewEvent, RealtimeStats, ReferrerStat,
};
use crate::observe::PageFacet;
use crate::views::views_of;

verus! {

/// The status that answers a collected event.
pub const ACCEPTED: u16 = 202;

/// The status that answers every request that the store failed.
pub const INTERNAL_SERVER_ERROR: u16 = 500;

/// The answer to a request that the store failed: the status for the
/// caller, and the line for the log.
#[derive(Debug, Clone, PartialEq, Eq)]
pub struct Failure {
    pub status: u16,
    pub log: String,
}

/// Whether `failure` answers a request that the store failed while `doing`
/// something: the status is `INTERNAL_SERVER_ERROR`, and the line for the
/// log says what was being done and then gives the cause in the store's
/// words.
pub open spec fn reports(failure: Failure, doing: Seq<char>) -> bool {
    &&& failure.status == INTERNAL_SERVER_ERROR
    &&& exists|cause: StoreError| failure.log@ == doing + #[trigger] cause.detail()
}

/// The answer to a failed request: `INTERNAL_SERVER_ERROR`, and for the log
/// what was being done, followed by the cause.
pub fn failed(doing: &str, cause: &StoreError) -> (failure: Failure)
    ensures
        failure.status == INTERNAL_SERVER_ERROR,
        failure.log@ == doing@ + cause.detail(),
        reports(failure, doing@),
{
    let mut log = doing.to_owned();
    let words = cause.message();
    log.append(words.as_str());
    Failure { status: INTERNAL_SERVER_ERROR, log }
}

/// The answer to a collected event: `ACCEPTED` where the store took it, a
/// failure where it did not.
pub fn acknowledge(outcome: Result<(), StoreError>, doing: &str) -> (res: Result<u16, Failure>)
    ensures
        match outcome {
            Ok(()) => res == Ok::<u16, Failure>(ACCEPTED),
            Err(cause) => res matches Err(failure) && reports(failure, doing@) && failure.log@ == doing@
                + cause.detail(),
        },
{
    match outcome {
        Ok(()) => Ok(ACCEPTED),
        Err(cause) => Err(failed(doing, &cause)),
    }
}

/// The answer to a query: its result in an envelope where the store served
/// it, a failure where it did not.
pub fn respond<T>(outcome: Result<T, StoreError>, doing: &str) -> (res: Result<ApiResponse<T>, Failure>)
    ensures
        match outcome {
            Ok(data) => res matches Ok(response) && response.data == data,
            Err(cause) => res matches Err(failure) && reports(failure, doing@) && failure.log@ == doing@
                + cause.detail(),
        },
{
    match outcome {
        Ok(data) => Ok(ApiResponse { data }),
        Err(cause) => Err(failed(doing, &cause)),
    }
}

/// Stores one page view.
pub fn collect_pageview(db: &Database, event: &PageViewEvent) -> (res: Result<u16, Failure>)
    ensures
        res matches Ok(status) ==> status == ACCEPTED,
        res matches Err(failure) ==> reports(failure, "Failed to insert page view: "@),
{
    acknowledge(db.insert_page_view(event), "Failed to insert page view: ")
}

/// Stores one download.
pub fn collect_download(db: &Database, event: &DownloadEvent) -> (res: Result<u16, Failure>)
    ensures
        res matches Ok(status) ==> status == ACCEPTED,
        res matches Err(failure) ==> reports(failure, "Failed to insert download: "@),
{
    acknowledge(db.insert_download(event), "Failed to insert download: ")
}

/// The headline counters of an interval.
pub fn stats_overview(db: &Database, range: &DateRange) -> (res: Result<ApiResponse<OverviewStats>, Failure>)
    ensures
        res matches Ok(response) ==> answers_overview(response.data, range.from@, range.to@),
        res matches Err(failure) ==> reports(failure, "Failed to get overview stats: "@),
{
    respond(
        db.get_overview_stats(range.from.as_str(), range.to.as_str()),
        "Failed to get overview stats: ",
    )
}

/// The page views of an interval, day by day.
pub fn stats_pageviews(db: &Database, range: &DateRange) -> (res: Result<ApiResponse<Vec<DailyStat>>, Failure>)
    ensures
        res matches Ok(response) ==> answers_pageviews(response.data@, range.from@, range.to@),
        res matches Err(failure) ==> reports(failure, "Failed to get pageview stats: "@),
{
    respond(
        db.get_pageview_stats(range.from.as_str(), range.to.as_str()),
        "Failed to get pageview stats: ",
    )
}

/// The most viewed paths of an interval.
pub fn stats_pages(db: &Database, range: &DateRangeWithLimit) -> (res: Result<
    ApiResponse<Vec<PageStat>>,
    Failure,
>)
    ensures
        res matches Ok(response) ==> answers_top_pages(
            response.data@,
            range.from@,
            range.to@,
            range.limit as int,
        ),
        res matches Err(failure) ==> reports(failure, "Failed to get top pages: "@),
{
    respond(
        db.get_top_pages(range.from.as_str(), range.to.as_str(), range.limit),
        "Failed to get top pages: ",
    )
}

/// The referrers that sent the most page views in an interval.
pub fn stats_referrers(db: &Database, range: &DateRangeWithLimit) -> (res: Result<
    ApiResponse<Vec<ReferrerStat>>,
    Failure,
>)
    ensures
        res matches Ok(response) ==> answers_ranking(
            views_of(response.data@),
            range.from@,
            range.to@,
            PageFacet::Referrer,
            range.limit as int,
        ),
        res matches Err(failure) ==> reports(failure, "Failed to get top referrers: "@),
{
    respond(
        db.get_top_referrers(range.from.as_str(), range.to.as_str(), range.limit),
        "Failed to get top referrers: ",
    )
}

/// The browsers of the page views of an interval.
pub fn stats_browsers(db: &Database, range: &DateRange) -> (res: Result<ApiResponse<Vec<BrowserStat>>, Failure>)
    ensures
        res matches Ok(response) ==> answers_ranking(
            views_of(response.data@),
            range.from@,
            range.to@,
            PageFacet::Browser,
            -1,
        ),
        res matches Err(failure) ==> reports(failure, "Failed to get browser stats: "@),
{
    respond(
        db.get_browser_stats(range.from.as_str(), range.to.as_str()),
        "Failed to get browser stats: ",
    )
}

/// The operating systems of the page views of an interval.
pub fn stats_os(db: &Database, range: &DateRange) -> (res: Result<ApiResponse<Vec<OsStat>>, Failure>)
    ensures
        res matches Ok(response) ==> answers_ranking(
            views_of(response.data@),
            range.from@,
            range.to@,
            PageFacet::System,
            -1,
        ),
        res matches Err(failure) ==> reports(failure, "Failed to get OS stats: "@),
{
    respond(db.get_os_stats(range.from.as_str(), range.to.as_str()), "Failed to get OS stats: ")
}

/// The download series of an interval.
pub fn stats_downloads(db: &Database, range: &DateRange) -> (res: Result<ApiResponse<DownloadStats>, Failure>)
    ensures
        res matches Ok(response) ==> answers_downloads(response.data, range.from@, range.to@),
        res matches Err(failure) ==> reports(failure, "Failed to get download stats: "@),
{
    respond(
        db.get_download_stats(range.from.as_str(), range.to.as_str()),
        "Failed to get download stats: ",
    )
}

/// The visitors of the last minutes.
pub fn stats_realtime(db: &Database) -> (res: Result<ApiResponse<RealtimeStats>, Failure>)
    ensures
        res matches Ok(response) ==> answers_realtime(response.data.active_visitors),
        res matches Err(failure) ==> reports(failure, "Failed to get realtime stats: "@),
{
    match db.get_realtime_count() {
        Ok(count) => Ok(ApiResponse { data: RealtimeStats { active_visitors: count } }),
        Err(cause) => Err(failed("Failed to get realtime stats: ", &cause)),
    }
}

} // verus!
