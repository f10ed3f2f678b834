//! What holds of the queries on every event log.

use vstd::prelude::*;

use crate::arrange::{
    arranged, lemma_arranged_each_group_once, lemma_arranged_ordered, lemma_arranged_total_count,
    lemma_limited, ordered, Arrangement,
};
use crate::engine::{
    app_downloads, daily_downloads, daily_views, daily_visitors, field_ranking, grouped,
    key_and_count, key_and_visitors, key_count_visitors, key_detail_count, page_groups,
    page_ranking, total_downloads, total_views, unique_visitors,
};
use crate::models::{ViewsPerDay, MILLIS_PER_DAY};
use crate::observe::{
    download_observations, lemma_page_observations_push, page_observation, page_observations,
    page_projector, page_selector, DownloadFacet, ObservationView, PageFacet,
};
use crate::records::{DownloadRecord, PageViewRecord};
use crate::tally::{
    each_group_once, group_named, group_of, groups, lemma_groups_cover, lemma_tally_counts_all,
    lemma_tally_of_shape, lemma_visitor_set_len, lemma_visitor_set_push, tally_of, total_count,
    visitor_set, Group, TallyView,
};
use crate::text::{
    bytes_le, in_window, lemma_bytes_le_antisymmetric, lemma_bytes_le_reflexive, lemma_bytes_le_total,
    lemma_bytes_le_transitive, text_le,
};

verus! {

/// The order in which timestamps are compared is a total order of byte
/// strings: every string is at or before itself, of two strings one is at
/// or before the other, the order is transitive, and two strings that are
/// at or before each other are the same.
pub proof fn law_byte_order_is_total(a: Seq<u8>, b: Seq<u8>, c: Seq<u8>)
    ensures
        bytes_le(a, a),
        bytes_le(a, b) || bytes_le(b, a),
        bytes_le(a, b) && bytes_le(b, c) ==> bytes_le(a, c),
        bytes_le(a, b) && bytes_le(b, a) ==> a == b,
{
    lemma_bytes_le_reflexive(a);
    lemma_bytes_le_total(a, b);
    if bytes_le(a, b) && bytes_le(b, c) {
        lemma_bytes_le_transitive(a, b, c);
    }
    if bytes_le(a, b) && bytes_le(b, a) {
        lemma_bytes_le_antisymmetric(a, b);
    }
}

/// The page views of known visitors: those with a visitor id that is not
/// empty.
pub open spec fn of_known_visitor() -> spec_fn(PageViewRecord) -> bool {
    |row: PageViewRecord| row.visitor_id@.len() > 0
}

/// A page view that is appended to the log is counted exactly once by every
/// interval that contains its timestamp, and not at all by the others: the
/// total views of the interval rise by one, or stay.
pub proof fn law_inserted_view_counted_once(
    log: Seq<PageViewRecord>,
    record: PageViewRecord,
    from: Seq<char>,
    to: Seq<char>,
)
    ensures
        in_window(record.created_at@, from, Some(to)) ==> total_views(log.push(record), from, to)
            == total_views(log, from, to) + 1,
        !in_window(record.created_at@, from, Some(to)) ==> total_views(log.push(record), from, to)
            == total_views(log, from, to),
{
    lemma_page_observations_push(log, record, from, Some(to), PageFacet::Overall);
}

/// The empty visitor id is never among the visitors that a count is taken
/// of, whatever the observations and the scope.
pub proof fn law_unknown_visitor_not_in_set(obs: Seq<ObservationView>, scope: Option<Group>)
    ensures
        !visitor_set(obs, scope).contains(Seq::<char>::empty()),
{
}

/// The page views of unknown visitors count for nothing among the visitors:
/// without them in the log, the unique visitors of every interval and the
/// unique visitors of each of its days are the same.
pub proof fn law_unknown_visitors_never_counted(log: Seq<PageViewRecord>, from: Seq<char>, to: Seq<char>)
    ensures
        unique_visitors(log, from, to) == unique_visitors(log.filter(of_known_visitor()), from, to),
        daily_visitors(log, from, to) == daily_visitors(log.filter(of_known_visitor()), from, to),
{
    lemma_unknown_visitors_leave_no_trace(log, from, to);
}

/// A query for the visitors of each day makes the same observations on a
/// log and on its page views of known visitors, and the known visitors of an
/// interval are the same on both.
proof fn lemma_unknown_visitors_leave_no_trace(log: Seq<PageViewRecord>, from: Seq<char>, to: Seq<char>)
    ensures
        page_observations(log, from, Some(to), PageFacet::VisitorDay) == page_observations(
            log.filter(of_known_visitor()),
            from,
            Some(to),
            PageFacet::VisitorDay,
        ),
        visitor_set(page_observations(log, from, Some(to), PageFacet::Overall), None) == visitor_set(
            page_observations(log.filter(of_known_visitor()), from, Some(to), PageFacet::Overall),
            None,
        ),
    decreases log.len(),
{
    if log.len() == 0 {
        assert(log.filter(of_known_visitor()) =~= log) by {
            log.lemma_filter_len(of_known_visitor());
        }
    } else {
        let rest = log.drop_last();
        let row = log.last();
        assert(rest.push(row) =~= log);
        lemma_unknown_visitors_leave_no_trace(rest, from, to);
        rest.lemma_filter_push(row, of_known_visitor());
        lemma_page_observations_push(rest, row, from, Some(to), PageFacet::VisitorDay);
        lemma_page_observations_push(rest.filter(of_known_visitor()), row, from, Some(to), PageFacet::VisitorDay);
        lemma_page_observations_push(rest, row, from, Some(to), PageFacet::Overall);
        lemma_page_observations_push(rest.filter(of_known_visitor()), row, from, Some(to), PageFacet::Overall);
        lemma_visitor_set_push(
            page_observations(rest, from, Some(to), PageFacet::Overall),
            page_observation(row, PageFacet::Overall),
            None,
        );
        lemma_visitor_set_push(
            page_observations(rest.filter(of_known_visitor()), from, Some(to), PageFacet::Overall),
            page_observation(row, PageFacet::Overall),
            None,
        );
    }
}

/// A ranking of paths, and a ranking by a text field such as the referrer,
/// never lists a count above an earlier one, and never has more rows than a
/// limit that is not negative.
pub proof fn law_rankings_descend_within_limit(
    log: Seq<PageViewRecord>,
    from: Seq<char>,
    to: Seq<char>,
    facet: PageFacet,
    limit: int,
)
    ensures
        limit >= 0 ==> page_ranking(log, from, to, limit).len() <= limit,
        limit >= 0 ==> field_ranking(log, from, to, facet, limit).len() <= limit,
        forall|i: int, j: int|
            0 <= i < j < page_ranking(log, from, to, limit).len() ==> page_ranking(log, from, to, limit)[i].1
                >= page_ranking(log, from, to, limit)[j].1,
        forall|i: int, j: int|
            0 <= i < j < field_ranking(log, from, to, facet, limit).len() ==> field_ranking(
                log,
                from,
                to,
                facet,
                limit,
            )[i].1 >= field_ranking(log, from, to, facet, limit)[j].1,
{
    let by_path = tally_of(page_observations(log, from, Some(to), PageFacet::Path));
    let by_field = tally_of(page_observations(log, from, Some(to), facet));
    lemma_arranged_ordered(by_path, Arrangement::CountDescending);
    lemma_arranged_ordered(by_field, Arrangement::CountDescending);
    lemma_limited(arranged(by_path, Arrangement::CountDescending), Arrangement::CountDescending, limit);
    lemma_limited(arranged(by_field, Arrangement::CountDescending), Arrangement::CountDescending, limit);
    let pages = page_groups(log, from, to, PageFacet::Path, Arrangement::CountDescending, limit);
    let fields = page_groups(log, from, to, facet, Arrangement::CountDescending, limit);
    assert forall|i: int, j: int| 0 <= i < j < page_ranking(log, from, to, limit).len() implies page_ranking(
        log,
        from,
        to,
        limit,
    )[i].1 >= page_ranking(log, from, to, limit)[j].1 by {
        assert(page_ranking(log, from, to, limit)[i] == key_count_visitors()(pages[i]));
        assert(page_ranking(log, from, to, limit)[j] == key_count_visitors()(pages[j]));
    }
    assert forall|i: int, j: int| 0 <= i < j < field_ranking(log, from, to, facet, limit).len() implies field_ranking(
        log,
        from,
        to,
        facet,
        limit,
    )[i].1 >= field_ranking(log, from, to, facet, limit)[j].1 by {
        assert(field_ranking(log, from, to, facet, limit)[i] == key_and_count()(fields[i]));
        assert(field_ranking(log, from, to, facet, limit)[j] == key_and_count()(fields[j]));
    }
}

/// Whatever a query observes, orders by and limits to: what it hands out
/// speaks of each group once and only of groups that were observed, counts
/// at least one observation for each, never more known visitors than
/// observations, is in the order asked for, and keeps a limit that is not
/// negative.
pub proof fn law_groups_listed_once(obs: Seq<ObservationView>, how: Arrangement, limit: int)
    ensures
        each_group_once(grouped(obs, how, limit)),
        ordered(grouped(obs, how, limit), how),
        limit >= 0 ==> grouped(obs, how, limit).len() <= limit,
        forall|i: int|
            0 <= i < grouped(obs, how, limit).len() ==> {
                &&& groups(obs).contains(group_named(#[trigger] grouped(obs, how, limit)[i]))
                &&& grouped(obs, how, limit)[i].count >= 1
                &&& 0 <= grouped(obs, how, limit)[i].visitors <= grouped(obs, how, limit)[i].count
            },
{
    let counted = tally_of(obs);
    let sorted = arranged(counted, how);
    let out = grouped(obs, how, limit);
    lemma_tally_of_shape(obs);
    lemma_arranged_each_group_once(counted, how);
    lemma_arranged_ordered(counted, how);
    lemma_limited(sorted, how, limit);
    assert forall|i: int, j: int| 0 <= i < j < out.len() implies group_named(#[trigger] out[i]) != group_named(
        #[trigger] out[j],
    ) by {
        assert(out[i] == sorted[i] && out[j] == sorted[j]);
    }
    assert forall|i: int| 0 <= i < out.len() implies {
        &&& groups(obs).contains(group_named(#[trigger] out[i]))
        &&& out[i].count >= 1
        &&& 0 <= out[i].visitors <= out[i].count
    } by {
        assert(out[i] == sorted[i]);
        assert(counted.contains(sorted[i]));
        let a = choose|a: int| 0 <= a < counted.len() && counted[a] == sorted[i];
        assert(group_named(counted[a]) == groups(obs)[a]);
    }
}

/// Both daily series list each day once and in ascending order, and list
/// no day for which there is nothing to count: every count is at least one.
pub proof fn law_daily_series_ascend(log: Seq<PageViewRecord>, from: Seq<char>, to: Seq<char>)
    ensures
        forall|i: int, j: int|
            0 <= i < j < daily_views(log, from, to).len() ==> {
                &&& text_le(daily_views(log, from, to)[i].0, daily_views(log, from, to)[j].0)
                &&& daily_views(log, from, to)[i].0 != daily_views(log, from, to)[j].0
            },
        forall|i: int| 0 <= i < daily_views(log, from, to).len() ==> daily_views(log, from, to)[i].1 >= 1,
        forall|i: int, j: int|
            0 <= i < j < daily_visitors(log, from, to).len() ==> {
                &&& text_le(daily_visitors(log, from, to)[i].0, daily_visitors(log, from, to)[j].0)
                &&& daily_visitors(log, from, to)[i].0 != daily_visitors(log, from, to)[j].0
            },
        forall|i: int|
            0 <= i < daily_visitors(log, from, to).len() ==> daily_visitors(log, from, to)[i].1 >= 1,
{
    lemma_days_ascend(log, from, to, PageFacet::Day);
    lemma_days_ascend(log, from, to, PageFacet::VisitorDay);
    let views = page_groups(log, from, to, PageFacet::Day, Arrangement::KeyAscending, -1);
    let visitors = page_groups(log, from, to, PageFacet::VisitorDay, Arrangement::KeyAscending, -1);
    assert forall|i: int| 0 <= i < daily_views(log, from, to).len() implies #[trigger] daily_views(
        log,
        from,
        to,
    )[i] == key_and_count()(views[i]) by {}
    assert forall|i: int| 0 <= i < daily_visitors(log, from, to).len() implies #[trigger] daily_visitors(
        log,
        from,
        to,
    )[i] == key_and_visitors()(visitors[i]) by {}
}

/// Whether the keys of the tallies ascend strictly and every tally counts
/// at least one observation and, where `known` is set, one known visitor.
spec fn ascending_days(days: Seq<TallyView>, known: bool) -> bool {
    &&& forall|i: int, j: int|
        0 <= i < j < days.len() ==> text_le((#[trigger] days[i]).key, (#[trigger] days[j]).key) && days[i].key
            != days[j].key
    &&& forall|i: int|
        0 <= i < days.len() ==> (#[trigger] days[i]).count >= 1 && (known ==> days[i].visitors >= 1)
}

/// The groups of a query by day come each day once, in ascending order,
/// with a count of one or more; where the query is for the visitors of
/// each day, with one or more known visitors.
proof fn lemma_days_ascend(log: Seq<PageViewRecord>, from: Seq<char>, to: Seq<char>, facet: PageFacet)
    requires
        facet == PageFacet::Day || facet == PageFacet::VisitorDay,
    ensures
        ascending_days(
            page_groups(log, from, to, facet, Arrangement::KeyAscending, -1),
            facet == PageFacet::VisitorDay,
        ),
{
    let obs = page_observations(log, from, Some(to), facet);
    let kept = log.filter(page_selector(from, Some(to), facet));
    let out = page_groups(log, from, to, facet, Arrangement::KeyAscending, -1);
    law_groups_listed_once(obs, Arrangement::KeyAscending, -1);
    assert forall|i: int| 0 <= i < out.len() implies {
        &&& (#[trigger] out[i]).detail == Seq::<char>::empty()
        &&& out[i].count >= 1
        &&& facet == PageFacet::VisitorDay ==> out[i].visitors >= 1
    } by {
        let g = group_named(out[i]);
        lemma_groups_cover(obs, g);
        let k = choose|k: int| 0 <= k < obs.len() && group_of(#[trigger] obs[k]) == g;
        assert(obs[k] == page_projector(facet)(kept[k]));
        if facet == PageFacet::VisitorDay {
            log.lemma_filter_pred(page_selector(from, Some(to), facet), k);
            assert(visitor_set(obs, Some(g)).contains(obs[k].visitor));
            lemma_visitor_set_len(obs, Some(g));
            lemma_tally_of_shape(obs);
            lemma_arranged_each_group_once(tally_of(obs), Arrangement::KeyAscending);
            let sorted = arranged(tally_of(obs), Arrangement::KeyAscending);
            assert(out[i] == sorted[i]);
            assert(tally_of(obs).contains(sorted[i]));
            let a = choose|a: int| 0 <= a < tally_of(obs).len() && tally_of(obs)[a] == sorted[i];
            assert(group_named(tally_of(obs)[a]) == groups(obs)[a]);
        }
    }
    assert forall|i: int, j: int| 0 <= i < j < out.len() implies text_le(
        (#[trigger] out[i]).key,
        (#[trigger] out[j]).key,
    ) && out[i].key != out[j].key by {
        assert(group_named(out[i]) != group_named(out[j]));
        assert(out[i].detail == out[j].detail);
    }
}

/// The sum of some counts.
pub open spec fn sum(counts: Seq<int>) -> int
    decreases counts.len(),
{
    if counts.len() == 0 {
        0
    } else {
        sum(counts.drop_last()) + counts.last()
    }
}

/// The counts of a series of days or of a ranking by a text field.
pub open spec fn pair_counts(series: Seq<(Seq<char>, int)>) -> Seq<int> {
    series.map_values(|row: (Seq<char>, int)| row.1)
}

/// The counts of a series of downloads.
pub open spec fn triple_counts(series: Seq<(Seq<char>, Seq<char>, int)>) -> Seq<int> {
    series.map_values(|row: (Seq<char>, Seq<char>, int)| row.2)
}

/// Every page view of an interval is counted on exactly one of its days,
/// and every download on one day and for one application and platform: the
/// counts of a daily series add up to the total of the interval, and so do
/// those of the downloads by application.
pub proof fn law_series_add_up(
    views: Seq<PageViewRecord>,
    downloads: Seq<DownloadRecord>,
    from: Seq<char>,
    to: Seq<char>,
)
    ensures
        sum(pair_counts(daily_views(views, from, to))) == total_views(views, from, to),
        sum(triple_counts(daily_downloads(downloads, from, to))) == total_downloads(downloads, from, to),
        sum(triple_counts(app_downloads(downloads, from, to))) == total_downloads(downloads, from, to),
{
    let by_day = page_observations(views, from, Some(to), PageFacet::Day);
    lemma_tally_counts_all(by_day);
    lemma_arranged_total_count(tally_of(by_day), Arrangement::KeyAscending);
    lemma_sum_of_pairs(arranged(tally_of(by_day), Arrangement::KeyAscending));
    assert(by_day.len() == page_observations(views, from, Some(to), PageFacet::Overall).len()) by {
        lemma_filter_same(
            views,
            page_selector(from, Some(to), PageFacet::Day),
            page_selector(from, Some(to), PageFacet::Overall),
        );
    }
    let overall = download_observations(downloads, from, Some(to), DownloadFacet::Overall);
    let daily = download_observations(downloads, from, Some(to), DownloadFacet::DayAndApp);
    let by_app = download_observations(downloads, from, Some(to), DownloadFacet::AppAndPlatform);
    assert(daily.len() == overall.len() && by_app.len() == overall.len());
    lemma_tally_counts_all(daily);
    lemma_arranged_total_count(tally_of(daily), Arrangement::KeyAscending);
    lemma_sum_of_triples(arranged(tally_of(daily), Arrangement::KeyAscending));
    lemma_tally_counts_all(by_app);
    lemma_arranged_total_count(tally_of(by_app), Arrangement::CountDescending);
    lemma_sum_of_triples(arranged(tally_of(by_app), Arrangement::CountDescending));
}

/// Two tests that agree on every value keep the same items of a sequence.
proof fn lemma_filter_same<A>(items: Seq<A>, p: spec_fn(A) -> bool, q: spec_fn(A) -> bool)
    requires
        forall|item: A| #[trigger] p(item) == q(item),
    ensures
        items.filter(p) == items.filter(q),
    decreases items.len(),
{
    reveal(Seq::filter);
    if items.len() > 0 {
        lemma_filter_same(items.drop_last(), p, q);
    }
}

/// The counts of tallies add up to the same, listed with their keys or not.
proof fn lemma_sum_of_pairs(tallies: Seq<TallyView>)
    ensures
        sum(pair_counts(tallies.map_values(key_and_count()))) == total_count(tallies),
    decreases tallies.len(),
{
    if tallies.len() > 0 {
        lemma_sum_of_pairs(tallies.drop_last());
        assert(pair_counts(tallies.map_values(key_and_count())).drop_last() == pair_counts(
            tallies.drop_last().map_values(key_and_count()),
        ));
    }
}

/// The counts of tallies add up to the same, listed with their keys and
/// details or not.
proof fn lemma_sum_of_triples(tallies: Seq<TallyView>)
    ensures
        sum(triple_counts(tallies.map_values(key_detail_count()))) == total_count(tallies),
    decreases tallies.len(),
{
    if tallies.len() > 0 {
        lemma_sum_of_triples(tallies.drop_last());
        assert(triple_counts(tallies.map_values(key_detail_count())).drop_last() == triple_counts(
            tallies.drop_last().map_values(key_detail_count()),
        ));
    }
}

/// The average of the views per day is defined for every interval, be it
/// empty or reversed: the period that the views are divided by is at least
/// one day long, and the average of a count that is not negative lies
/// between zero and that count.
pub proof fn law_average_is_defined(views: i64, span_millis: i64)
    ensures
        ViewsPerDay::over(views, span_millis).wf(),
        ViewsPerDay::over(views, span_millis).over_millis > 0,
        ViewsPerDay::over(views, span_millis).views == views,
        views >= 0 ==> 0 <= (views * MILLIS_PER_DAY) / (ViewsPerDay::over(views, span_millis).over_millis as int)
            <= views,
{
    let over = ViewsPerDay::over(views, span_millis).over_millis as int;
    let day = MILLIS_PER_DAY as int;
    if views >= 0 {
        assert(0 <= (views * day) / over <= views) by (nonlinear_arith)
            requires
                views >= 0,
                0 < day <= over,
        ;
    }
}

} // verus!
