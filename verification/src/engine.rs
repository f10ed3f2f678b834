//! The aggregation queries.
//!
//! Every query reads the rows of one event stream, keeps those whose
//! timestamp lies in a half-open interval, groups and counts them, and hands
//! the groups out in a fixed order. What a query returns is a function of the
//! rows and the interval alone; the spec functions of this module say which.

use vstd::prelude::*;

use crate::arrange::{
    arrange, arranged, lemma_arranged_ordered, lemma_limited, limit_to, limited, ordered, Arrangement,
};
use crate::models::{
    BrowserStat, DailyStat, DownloadAppStat, DownloadDailyStat, DownloadStats, OsStat, OverviewStats,
    PageStat, ReferrerStat, ViewsPerDay,
};
use crate::observe::{
    download_observations, observe_downloads, observe_page_views, page_observations, DownloadFacet,
    Observation, ObservationView, PageFacet,
};
use crate::records::{DownloadRecord, PageViewRecord};
use crate::tally::{count_visitors, tally, tally_of, visitor_set, Tally, TallyView};
use crate::views::views_of;

verus! {

/// The key of a tally and its count.
pub open spec fn key_and_count() -> spec_fn(TallyView) -> (Seq<char>, int) {
    |t: TallyView| (t.key, t.count)
}

/// The key of a tally and the number of its known visitors.
pub open spec fn key_and_visitors() -> spec_fn(TallyView) -> (Seq<char>, int) {
    |t: TallyView| (t.key, t.visitors)
}

/// The key of a tally, its count and the number of its known visitors.
pub open spec fn key_count_visitors() -> spec_fn(TallyView) -> (Seq<char>, int, int) {
    |t: TallyView| (t.key, t.count, t.visitors)
}

/// The key and the detail of a tally, and its count.
pub open spec fn key_detail_count() -> spec_fn(TallyView) -> (Seq<char>, Seq<char>, int) {
    |t: TallyView| (t.key, t.detail, t.count)
}

/// The groups of the observations, counted, put in order and cut to the
/// limit.
pub open spec fn grouped(obs: Seq<ObservationView>, how: Arrangement, limit: int) -> Seq<TallyView> {
    limited(arranged(tally_of(obs), how), limit)
}

/// The number of page views in the interval.
pub open spec fn total_views(rows: Seq<PageViewRecord>, from: Seq<char>, to: Seq<char>) -> int {
    page_observations(rows, from, Some(to), PageFacet::Overall).len() as int
}

/// The number of known visitors with a page view in the interval.
pub open spec fn unique_visitors(rows: Seq<PageViewRecord>, from: Seq<char>, to: Seq<char>) -> int {
    visitor_set(page_observations(rows, from, Some(to), PageFacet::Overall), None).len() as int
}

/// The number of downloads in the interval.
pub open spec fn total_downloads(rows: Seq<DownloadRecord>, from: Seq<char>, to: Seq<char>) -> int {
    download_observations(rows, from, Some(to), DownloadFacet::Overall).len() as int
}

/// The number of known visitors with a page view at or after `since`.
pub open spec fn active_visitors(rows: Seq<PageViewRecord>, since: Seq<char>) -> int {
    visitor_set(page_observations(rows, since, None, PageFacet::Overall), None).len() as int
}

/// The page views of the interval grouped as the facet says, counted, put in
/// order and cut to the limit.
pub open spec fn page_groups(
    rows: Seq<PageViewRecord>,
    from: Seq<char>,
    to: Seq<char>,
    facet: PageFacet,
    how: Arrangement,
    limit: int,
) -> Seq<TallyView> {
    grouped(page_observations(rows, from, Some(to), facet), how, limit)
}

/// The downloads of the interval grouped as the facet says, counted and put
/// in order.
pub open spec fn download_groups(
    rows: Seq<DownloadRecord>,
    from: Seq<char>,
    to: Seq<char>,
    facet: DownloadFacet,
    how: Arrangement,
) -> Seq<TallyView> {
    grouped(download_observations(rows, from, Some(to), facet), how, -1)
}

/// The days of the interval that have page views, in ascending order, each
/// with the number of its page views.
pub open spec fn daily_views(rows: Seq<PageViewRecord>, from: Seq<char>, to: Seq<char>) -> Seq<
    (Seq<char>, int),
> {
    page_groups(rows, from, to, PageFacet::Day, Arrangement::KeyAscending, -1).map_values(key_and_count())
}

/// The days of the interval that have page views of known visitors, in
/// ascending order, each with the number of those visitors.
pub open spec fn daily_visitors(rows: Seq<PageViewRecord>, from: Seq<char>, to: Seq<char>) -> Seq<
    (Seq<char>, int),
> {
    page_groups(rows, from, to, PageFacet::VisitorDay, Arrangement::KeyAscending, -1).map_values(
        key_and_visitors(),
    )
}

/// The paths viewed in the interval, the most viewed first and no more than
/// `limit` of them, each with its page views and its known visitors. Paths
/// with as many views as each other come in the order in which they were
/// first viewed.
pub open spec fn page_ranking(rows: Seq<PageViewRecord>, from: Seq<char>, to: Seq<char>, limit: int) -> Seq<
    (Seq<char>, int, int),
> {
    page_groups(rows, from, to, PageFacet::Path, Arrangement::CountDescending, limit).map_values(
        key_count_visitors(),
    )
}

/// The page views of the interval counted by one of their text fields, the
/// most frequent value first and no more than `limit` of them. Page views
/// where the field is empty are left out.
pub open spec fn field_ranking(
    rows: Seq<PageViewRecord>,
    from: Seq<char>,
    to: Seq<char>,
    facet: PageFacet,
    limit: int,
) -> Seq<(Seq<char>, int)> {
    page_groups(rows, from, to, facet, Arrangement::CountDescending, limit).map_values(key_and_count())
}

/// The downloads of the interval by day and application, in ascending order
/// of the day.
pub open spec fn daily_downloads(rows: Seq<DownloadRecord>, from: Seq<char>, to: Seq<char>) -> Seq<
    (Seq<char>, Seq<char>, int),
> {
    download_groups(rows, from, to, DownloadFacet::DayAndApp, Arrangement::KeyAscending).map_values(
        key_detail_count(),
    )
}

/// The downloads of the interval by application and platform, the most
/// downloaded first.
pub open spec fn app_downloads(rows: Seq<DownloadRecord>, from: Seq<char>, to: Seq<char>) -> Seq<
    (Seq<char>, Seq<char>, int),
> {
    download_groups(rows, from, to, DownloadFacet::AppAndPlatform, Arrangement::CountDescending).map_values(
        key_detail_count(),
    )
}

/// Groups and counts the observations, puts the groups in order and cuts
/// them to the limit.
fn group(obs: &Vec<Observation>, how: Arrangement, limit: i64) -> (out: Vec<Tally>)
    requires
        obs.len() <= i64::MAX,
    ensures
        views_of(out@) == grouped(views_of(obs@), how, limit as int),
        ordered(views_of(out@), how),
        limit >= 0 ==> out.len() <= limit,
        out.len() <= obs.len(),
{
    let tallies = tally(obs);
    let in_order = arrange(tallies, how);
    proof {
        lemma_arranged_ordered(tally_of(views_of(obs@)), how);
        lemma_limited(views_of(in_order@), how, limit as int);
    }
    limit_to(in_order, limit)
}

/// One `DailyStat` for each tally: its key as the date, and its count or,
/// where `by_visitors` is set, the number of its known visitors.
fn daily_stats(tallies: &Vec<Tally>, by_visitors: bool) -> (out: Vec<DailyStat>)
    ensures
        out.len() == tallies.len(),
        views_of(out@) == views_of(tallies@).map_values(
            if by_visitors {
                key_and_visitors()
            } else {
                key_and_count()
            },
        ),
{
    let ghost pick = if by_visitors {
        key_and_visitors()
    } else {
        key_and_count()
    };
    let mut out: Vec<DailyStat> = Vec::new();
    let mut i: usize = 0;
    while i < tallies.len()
        invariant
            i <= tallies.len(),
            out.len() == i,
            pick == if by_visitors {
                key_and_visitors()
            } else {
                key_and_count()
            },
            views_of(out@) == views_of(tallies@).take(i as int).map_values(pick),
        decreases tallies.len() - i,
    {
        let ghost done = views_of(out@);
        let count = if by_visitors {
            tallies[i].visitors
        } else {
            tallies[i].count
        };
        out.push(DailyStat { date: tallies[i].key.clone(), count });
        proof {
            assert(views_of(out@) == done.push(pick(tallies[i as int]@)));
            assert(views_of(tallies@).take(i + 1) == views_of(tallies@).take(i as int).push(tallies[i as int]@));
            assert(views_of(tallies@).take(i + 1).map_values(pick) == done.push(pick(tallies[i as int]@)));
        }
        i = i + 1;
    }
    assert(views_of(tallies@).take(tallies.len() as int) == views_of(tallies@));
    out
}

/// One `PageStat` for each tally.
fn page_stats(tallies: &Vec<Tally>) -> (out: Vec<PageStat>)
    ensures
        out.len() == tallies.len(),
        views_of(out@) == views_of(tallies@).map_values(key_count_visitors()),
{
    let mut out: Vec<PageStat> = Vec::new();
    let mut i: usize = 0;
    while i < tallies.len()
        invariant
            i <= tallies.len(),
            out.len() == i,
            views_of(out@) == views_of(tallies@).take(i as int).map_values(key_count_visitors()),
        decreases tallies.len() - i,
    {
        let ghost done = views_of(out@);
        let ghost next = key_count_visitors()(tallies[i as int]@);
        out.push(
            PageStat {
                path: tallies[i].key.clone(),
                views: tallies[i].count,
                unique_visitors: tallies[i].visitors,
            },
        );
        proof {
            assert(views_of(out@) == done.push(next));
            assert(views_of(tallies@).take(i + 1) == views_of(tallies@).take(i as int).push(tallies[i as int]@));
            assert(views_of(tallies@).take(i + 1).map_values(key_count_visitors()) == done.push(next));
        }
        i = i + 1;
    }
    assert(views_of(tallies@).take(tallies.len() as int) == views_of(tallies@));
    out
}

/// One `ReferrerStat` for each tally.
fn referrer_stats(tallies: &Vec<Tally>) -> (out: Vec<ReferrerStat>)
    ensures
        out.len() == tallies.len(),
        views_of(out@) == views_of(tallies@).map_values(key_and_count()),
{
    let mut out: Vec<ReferrerStat> = Vec::new();
    let mut i: usize = 0;
    while i < tallies.len()
        invariant
            i <= tallies.len(),
            out.len() == i,
            views_of(out@) == views_of(tallies@).take(i as int).map_values(key_and_count()),
        decreases tallies.len() - i,
    {
        let ghost done = views_of(out@);
        let ghost next = key_and_count()(tallies[i as int]@);
        out.push(ReferrerStat { referrer: tallies[i].key.clone(), count: tallies[i].count });
        proof {
            assert(views_of(out@) == done.push(next));
            assert(views_of(tallies@).take(i + 1) == views_of(tallies@).take(i as int).push(tallies[i as int]@));
            assert(views_of(tallies@).take(i + 1).map_values(key_and_count()) == done.push(next));
        }
        i = i + 1;
    }
    assert(views_of(tallies@).take(tallies.len() as int) == views_of(tallies@));
    out
}

/// One `BrowserStat` for each tally.
fn browser_stats(tallies: &Vec<Tally>) -> (out: Vec<BrowserStat>)
    ensures
        out.len() == tallies.len(),
        views_of(out@) == views_of(tallies@).map_values(key_and_count()),
{
    let mut out: Vec<BrowserStat> = Vec::new();
    let mut i: usize = 0;
    while i < tallies.len()
        invariant
            i <= tallies.len(),
            out.len() == i,
            views_of(out@) == views_of(tallies@).take(i as int).map_values(key_and_count()),
        decreases tallies.len() - i,
    {
        let ghost done = views_of(out@);
        let ghost next = key_and_count()(tallies[i as int]@);
        out.push(BrowserStat { browser: tallies[i].key.clone(), count: tallies[i].count });
        proof {
            assert(views_of(out@) == done.push(next));
            assert(views_of(tallies@).take(i + 1) == views_of(tallies@).take(i as int).push(tallies[i as int]@));
            assert(views_of(tallies@).take(i + 1).map_values(key_and_count()) == done.push(next));
        }
        i = i + 1;
    }
    assert(views_of(tallies@).take(tallies.len() as int) == views_of(tallies@));
    out
}

/// One `OsStat` for each tally.
fn os_stats(tallies: &Vec<Tally>) -> (out: Vec<OsStat>)
    ensures
        out.len() == tallies.len(),
        views_of(out@) == views_of(tallies@).map_values(key_and_count()),
{
    let mut out: Vec<OsStat> = Vec::new();
    let mut i: usize = 0;
    while i < tallies.len()
        invariant
            i <= tallies.len(),
            out.len() == i,
            views_of(out@) == views_of(tallies@).take(i as int).map_values(key_and_count()),
        decreases tallies.len() - i,
    {
        let ghost done = views_of(out@);
        let ghost next = key_and_count()(tallies[i as int]@);
        out.push(OsStat { os: tallies[i].key.clone(), count: tallies[i].count });
        proof {
            assert(views_of(out@) == done.push(next));
            assert(views_of(tallies@).take(i + 1) == views_of(tallies@).take(i as int).push(tallies[i as int]@));
            assert(views_of(tallies@).take(i + 1).map_values(key_and_count()) == done.push(next));
        }
        i = i + 1;
    }
    assert(views_of(tallies@).take(tallies.len() as int) == views_of(tallies@));
    out
}

/// One `DownloadDailyStat` for each tally.
fn download_daily_stats(tallies: &Vec<Tally>) -> (out: Vec<DownloadDailyStat>)
    ensures
        out.len() == tallies.len(),
        views_of(out@) == views_of(tallies@).map_values(key_detail_count()),
{
    let mut out: Vec<DownloadDailyStat> = Vec::new();
    let mut i: usize = 0;
    while i < tallies.len()
        invariant
            i <= tallies.len(),
            out.len() == i,
            views_of(out@) == views_of(tallies@).take(i as int).map_values(key_detail_count()),
        decreases tallies.len() - i,
    {
        let ghost done = views_of(out@);
        let ghost next = key_detail_count()(tallies[i as int]@);
        out.push(
            DownloadDailyStat {
                date: tallies[i].key.clone(),
                app_name: tallies[i].detail.clone(),
                count: tallies[i].count,
            },
        );
        proof {
            assert(views_of(out@) == done.push(next));
            assert(views_of(tallies@).take(i + 1) == views_of(tallies@).take(i as int).push(tallies[i as int]@));
            assert(views_of(tallies@).take(i + 1).map_values(key_detail_count()) == done.push(next));
        }
        i = i + 1;
    }
    assert(views_of(tallies@).take(tallies.len() as int) == views_of(tallies@));
    out
}

/// One `DownloadAppStat` for each tally.
fn download_app_stats(tallies: &Vec<Tally>) -> (out: Vec<DownloadAppStat>)
    ensures
        out.len() == tallies.len(),
        views_of(out@) == views_of(tallies@).map_values(key_detail_count()),
{
    let mut out: Vec<DownloadAppStat> = Vec::new();
    let mut i: usize = 0;
    while i < tallies.len()
        invariant
            i <= tallies.len(),
            out.len() == i,
            views_of(out@) == views_of(tallies@).take(i as int).map_values(key_detail_count()),
        decreases tallies.len() - i,
    {
        let ghost done = views_of(out@);
        let ghost next = key_detail_count()(tallies[i as int]@);
        out.push(
            DownloadAppStat {
                app_name: tallies[i].key.clone(),
                platform: tallies[i].detail.clone(),
                count: tallies[i].count,
            },
        );
        proof {
            assert(views_of(out@) == done.push(next));
            assert(views_of(tallies@).take(i + 1) == views_of(tallies@).take(i as int).push(tallies[i as int]@));
            assert(views_of(tallies@).take(i + 1).map_values(key_detail_count()) == done.push(next));
        }
        i = i + 1;
    }
    assert(views_of(tallies@).take(tallies.len() as int) == views_of(tallies@));
    out
}

/// The headline counters of the interval from `from` to `to`: its page views,
/// the known visitors behind them, its downloads, and the page views per
/// day. `span_millis` is the length of the interval in milliseconds; an
/// interval of less than a day counts as one day.
pub fn overview(
    views: &Vec<PageViewRecord>,
    downloads: &Vec<DownloadRecord>,
    from: &str,
    to: &str,
    span_millis: i64,
) -> (stats: OverviewStats)
    requires
        views.len() <= i64::MAX,
        downloads.len() <= i64::MAX,
    ensures
        stats.total_views == total_views(views@, from@, to@),
        stats.unique_visitors == unique_visitors(views@, from@, to@),
        stats.total_downloads == total_downloads(downloads@, from@, to@),
        stats.avg_views_per_day == ViewsPerDay::over(stats.total_views, span_millis),
        stats.avg_views_per_day.wf(),
{
    let seen = observe_page_views(views, from, Some(to), PageFacet::Overall);
    let fetched = observe_downloads(downloads, from, Some(to), DownloadFacet::Overall);
    let total_views = seen.len() as i64;
    OverviewStats {
        total_views,
        unique_visitors: count_visitors(&seen),
        avg_views_per_day: ViewsPerDay::new(total_views, span_millis),
        total_downloads: fetched.len() as i64,
    }
}

/// The page views of the interval, day by day in ascending order. A day
/// without page views does not appear.
pub fn pageviews_by_day(rows: &Vec<PageViewRecord>, from: &str, to: &str) -> (stats: Vec<DailyStat>)
    requires
        rows.len() <= i64::MAX,
    ensures
        views_of(stats@) == daily_views(rows@, from@, to@),
{
    let obs = observe_page_views(rows, from, Some(to), PageFacet::Day);
    let tallies = group(&obs, Arrangement::KeyAscending, -1);
    daily_stats(&tallies, false)
}

/// The most viewed paths of the interval, the most viewed first, no more
/// than `limit` of them; a negative limit lets them all through. Paths with
/// as many views as each other come in the order in which they were first
/// viewed.
pub fn top_pages(rows: &Vec<PageViewRecord>, from: &str, to: &str, limit: i64) -> (stats: Vec<PageStat>)
    requires
        rows.len() <= i64::MAX,
    ensures
        views_of(stats@) == page_ranking(rows@, from@, to@, limit as int),
        limit >= 0 ==> stats.len() <= limit,
        forall|i: int, j: int| 0 <= i < j < stats.len() ==> stats[i].views >= stats[j].views,
{
    let obs = observe_page_views(rows, from, Some(to), PageFacet::Path);
    let tallies = group(&obs, Arrangement::CountDescending, limit);
    let stats = page_stats(&tallies);
    proof {
        assert forall|i: int, j: int| 0 <= i < j < stats.len() implies stats[i].views >= stats[j].views by {
            assert(views_of(stats@)[i] == key_count_visitors()(views_of(tallies@)[i]));
            assert(views_of(stats@)[j] == key_count_visitors()(views_of(tallies@)[j]));
        }
    }
    stats
}

/// The referrers that sent the most page views in the interval, the most
/// frequent first, no more than `limit` of them; a negative limit lets them
/// all through. Page views without a referrer are left out.
pub fn top_referrers(rows: &Vec<PageViewRecord>, from: &str, to: &str, limit: i64) -> (stats: Vec<
    ReferrerStat,
>)
    requires
        rows.len() <= i64::MAX,
    ensures
        views_of(stats@) == field_ranking(rows@, from@, to@, PageFacet::Referrer, limit as int),
        limit >= 0 ==> stats.len() <= limit,
        forall|i: int, j: int| 0 <= i < j < stats.len() ==> stats[i].count >= stats[j].count,
{
    let obs = observe_page_views(rows, from, Some(to), PageFacet::Referrer);
    let tallies = group(&obs, Arrangement::CountDescending, limit);
    let stats = referrer_stats(&tallies);
    proof {
        assert forall|i: int, j: int| 0 <= i < j < stats.len() implies stats[i].count >= stats[j].count by {
            assert(views_of(stats@)[i] == key_and_count()(views_of(tallies@)[i]));
            assert(views_of(stats@)[j] == key_and_count()(views_of(tallies@)[j]));
        }
    }
    stats
}

/// The browsers of the page views of the interval, the most frequent first.
/// Page views without a browser are left out.
pub fn browser_breakdown(rows: &Vec<PageViewRecord>, from: &str, to: &str) -> (stats: Vec<BrowserStat>)
    requires
        rows.len() <= i64::MAX,
    ensures
        views_of(stats@) == field_ranking(rows@, from@, to@, PageFacet::Browser, -1),
        forall|i: int, j: int| 0 <= i < j < stats.len() ==> stats[i].count >= stats[j].count,
{
    let obs = observe_page_views(rows, from, Some(to), PageFacet::Browser);
    let tallies = group(&obs, Arrangement::CountDescending, -1);
    let stats = browser_stats(&tallies);
    proof {
        assert forall|i: int, j: int| 0 <= i < j < stats.len() implies stats[i].count >= stats[j].count by {
            assert(views_of(stats@)[i] == key_and_count()(views_of(tallies@)[i]));
            assert(views_of(stats@)[j] == key_and_count()(views_of(tallies@)[j]));
        }
    }
    stats
}

/// The operating systems of the page views of the interval, the most
/// frequent first. Page views without one are left out.
pub fn os_breakdown(rows: &Vec<PageViewRecord>, from: &str, to: &str) -> (stats: Vec<OsStat>)
    requires
        rows.len() <= i64::MAX,
    ensures
        views_of(stats@) == field_ranking(rows@, from@, to@, PageFacet::System, -1),
        forall|i: int, j: int| 0 <= i < j < stats.len() ==> stats[i].count >= stats[j].count,
{
    let obs = observe_page_views(rows, from, Some(to), PageFacet::System);
    let tallies = group(&obs, Arrangement::CountDescending, -1);
    let stats = os_stats(&tallies);
    proof {
        assert forall|i: int, j: int| 0 <= i < j < stats.len() implies stats[i].count >= stats[j].count by {
            assert(views_of(stats@)[i] == key_and_count()(views_of(tallies@)[i]));
            assert(views_of(stats@)[j] == key_and_count()(views_of(tallies@)[j]));
        }
    }
    stats
}

/// The downloads of the interval: by day and application in ascending order
/// of the day, and by application and platform with the most downloaded
/// first.
pub fn download_stats(rows: &Vec<DownloadRecord>, from: &str, to: &str) -> (stats: DownloadStats)
    requires
        rows.len() <= i64::MAX,
    ensures
        views_of(stats.daily@) == daily_downloads(rows@, from@, to@),
        views_of(stats.by_app@) == app_downloads(rows@, from@, to@),
{
    let by_day = observe_downloads(rows, from, Some(to), DownloadFacet::DayAndApp);
    let daily = group(&by_day, Arrangement::KeyAscending, -1);
    let by_platform = observe_downloads(rows, from, Some(to), DownloadFacet::AppAndPlatform);
    let by_app = group(&by_platform, Arrangement::CountDescending, -1);
    DownloadStats { daily: download_daily_stats(&daily), by_app: download_app_stats(&by_app) }
}

/// The known visitors of the interval, day by day in ascending order. A day
/// without a known visitor does not appear.
pub fn unique_visitors_by_day(rows: &Vec<PageViewRecord>, from: &str, to: &str) -> (stats: Vec<DailyStat>)
    requires
        rows.len() <= i64::MAX,
    ensures
        views_of(stats@) == daily_visitors(rows@, from@, to@),
{
    let obs = observe_page_views(rows, from, Some(to), PageFacet::VisitorDay);
    let tallies = group(&obs, Arrangement::KeyAscending, -1);
    daily_stats(&tallies, true)
}

/// The number of known visitors with a page view at or after `since`, the
/// start of the trailing window.
pub fn realtime_active_visitors(rows: &Vec<PageViewRecord>, since: &str) -> (count: i64)
    requires
        rows.len() <= i64::MAX,
    ensures
        count == active_visitors(rows@, since@),
{
    let obs = observe_page_views(rows, since, None, PageFacet::Overall);
    count_visitors(&obs)
}

} // verus!
