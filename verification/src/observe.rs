//! Selection and projection: which rows a query looks at, and what it reads
//! from each of them.
//!
//! A query first turns the rows of a stream into observations. An
//! observation names the group that the row falls into (`key` and `detail`)
//! and the visitor behind it. Which rows are kept and which fields become the
//! group is decided by the facet of the query.

use vstd::prelude::*;

use crate::records::{end_view, DownloadRecord, PageViewRecord};
use crate::text::{day, day_of, in_window, within};
use crate::views::views_of;

verus! {

/// What a query reads from one selected row.
#[derive(Debug, Clone, PartialEq, Eq)]
pub struct Observation {
    pub key: String,
    pub detail: String,
    pub visitor: String,
}

/// An observation with each string as a sequence of characters.
pub struct ObservationView {
    pub key: Seq<char>,
    pub detail: Seq<char>,
    pub visitor: Seq<char>,
}

impl View for Observation {
    type V = ObservationView;

    open spec fn view(&self) -> ObservationView {
        ObservationView { key: self.key@, detail: self.detail@, visitor: self.visitor@ }
    }
}

/// The ways in which a query looks at the page views of an interval.
#[derive(Debug, Clone, Copy, PartialEq, Eq)]
pub enum PageFacet {
    /// Every page view, all in one group, with its visitor.
    Overall,
    /// Every page view, grouped by calendar day.
    Day,
    /// Every page view, grouped by path, with its visitor.
    Path,
    /// The page views that name a referrer, grouped by referrer.
    Referrer,
    /// The page views that name a browser, grouped by browser.
    Browser,
    /// The page views that name an operating system, grouped by it.
    System,
    /// The page views of known visitors, grouped by calendar day, with the
    /// visitor.
    VisitorDay,
}

/// The ways in which a query looks at the downloads of an interval.
#[derive(Debug, Clone, Copy, PartialEq, Eq)]
pub enum DownloadFacet {
    /// Every download, all in one group.
    Overall,
    /// Every download, grouped by calendar day and application.
    DayAndApp,
    /// Every download, grouped by application and platform.
    AppAndPlatform,
}

/// Whether a query with this facet looks at the page view `row`.
pub open spec fn page_selected(
    row: PageViewRecord,
    from: Seq<char>,
    to: Option<Seq<char>>,
    facet: PageFacet,
) -> bool {
    &&& in_window(row.created_at@, from, to)
    &&& match facet {
        PageFacet::Referrer => row.referrer@.len() > 0,
        PageFacet::Browser => row.browser@.len() > 0,
        PageFacet::System => row.os@.len() > 0,
        PageFacet::VisitorDay => row.visitor_id@.len() > 0,
        _ => true,
    }
}

/// What a query with this facet reads from the page view `row`.
pub open spec fn page_observation(row: PageViewRecord, facet: PageFacet) -> ObservationView {
    match facet {
        PageFacet::Overall => ObservationView {
            key: Seq::empty(),
            detail: Seq::empty(),
            visitor: row.visitor_id@,
        },
        PageFacet::Day => ObservationView {
            key: day_of(row.created_at@),
            detail: Seq::empty(),
            visitor: Seq::empty(),
        },
        PageFacet::Path => ObservationView {
            key: row.path@,
            detail: Seq::empty(),
            visitor: row.visitor_id@,
        },
        PageFacet::Referrer => ObservationView {
            key: row.referrer@,
            detail: Seq::empty(),
            visitor: Seq::empty(),
        },
        PageFacet::Browser => ObservationView {
            key: row.browser@,
            detail: Seq::empty(),
            visitor: Seq::empty(),
        },
        PageFacet::System => ObservationView {
            key: row.os@,
            detail: Seq::empty(),
            visitor: Seq::empty(),
        },
        PageFacet::VisitorDay => ObservationView {
            key: day_of(row.created_at@),
            detail: Seq::empty(),
            visitor: row.visitor_id@,
        },
    }
}

/// The test that `page_selected` makes, as a predicate on rows.
pub open spec fn page_selector(from: Seq<char>, to: Option<Seq<char>>, facet: PageFacet) -> spec_fn(
    PageViewRecord,
) -> bool {
    |row: PageViewRecord| page_selected(row, from, to, facet)
}

/// The projection that `page_observation` makes, as a function on rows.
pub open spec fn page_projector(facet: PageFacet) -> spec_fn(PageViewRecord) -> ObservationView {
    |row: PageViewRecord| page_observation(row, facet)
}

/// The observations that a query with this facet makes on the page views
/// `rows`: one for each selected row, in the order of the rows.
pub open spec fn page_observations(
    rows: Seq<PageViewRecord>,
    from: Seq<char>,
    to: Option<Seq<char>>,
    facet: PageFacet,
) -> Seq<ObservationView> {
    rows.filter(page_selector(from, to, facet)).map_values(page_projector(facet))
}

/// Whether a query looks at the download `row`: every facet looks at all the
/// downloads of the interval.
pub open spec fn download_selected(row: DownloadRecord, from: Seq<char>, to: Option<Seq<char>>) -> bool {
    in_window(row.created_at@, from, to)
}

/// What a query with this facet reads from the download `row`.
pub open spec fn download_observation(row: DownloadRecord, facet: DownloadFacet) -> ObservationView {
    match facet {
        DownloadFacet::Overall => ObservationView {
            key: Seq::empty(),
            detail: Seq::empty(),
            visitor: Seq::empty(),
        },
        DownloadFacet::DayAndApp => ObservationView {
            key: day_of(row.created_at@),
            detail: row.app_name@,
            visitor: Seq::empty(),
        },
        DownloadFacet::AppAndPlatform => ObservationView {
            key: row.app_name@,
            detail: row.platform@,
            visitor: Seq::empty(),
        },
    }
}

/// The test that `download_selected` makes, as a predicate on rows.
pub open spec fn download_selector(from: Seq<char>, to: Option<Seq<char>>) -> spec_fn(
    DownloadRecord,
) -> bool {
    |row: DownloadRecord| download_selected(row, from, to)
}

/// The projection that `download_observation` makes, as a function on rows.
pub open spec fn download_projector(facet: DownloadFacet) -> spec_fn(DownloadRecord) -> ObservationView {
    |row: DownloadRecord| download_observation(row, facet)
}

/// The observations that a query with this facet makes on the downloads
/// `rows`: one for each download of the interval, in the order of the rows.
pub open spec fn download_observations(
    rows: Seq<DownloadRecord>,
    from: Seq<char>,
    to: Option<Seq<char>>,
    facet: DownloadFacet,
) -> Seq<ObservationView> {
    rows.filter(download_selector(from, to)).map_values(download_projector(facet))
}

/// What one more page view does to the observations of a query: it adds
/// the observation of that row at the end where the row is selected, and
/// nothing where it is not.
pub proof fn lemma_page_observations_push(
    rows: Seq<PageViewRecord>,
    row: PageViewRecord,
    from: Seq<char>,
    to: Option<Seq<char>>,
    facet: PageFacet,
)
    ensures
        page_observations(rows.push(row), from, to, facet) == if page_selected(row, from, to, facet) {
            page_observations(rows, from, to, facet).push(page_observation(row, facet))
        } else {
            page_observations(rows, from, to, facet)
        },
{
    rows.lemma_filter_push(row, page_selector(from, to, facet));
    if page_selected(row, from, to, facet) {
        assert(rows.filter(page_selector(from, to, facet)).push(row).map_values(page_projector(facet))
            == page_observations(rows, from, to, facet).push(page_observation(row, facet)));
    }
}

/// What one more download does to the observations of a query.
pub proof fn lemma_download_observations_push(
    rows: Seq<DownloadRecord>,
    row: DownloadRecord,
    from: Seq<char>,
    to: Option<Seq<char>>,
    facet: DownloadFacet,
)
    ensures
        download_observations(rows.push(row), from, to, facet) == if download_selected(row, from, to) {
            download_observations(rows, from, to, facet).push(download_observation(row, facet))
        } else {
            download_observations(rows, from, to, facet)
        },
{
    rows.lemma_filter_push(row, download_selector(from, to));
    if download_selected(row, from, to) {
        assert(rows.filter(download_selector(from, to)).push(row).map_values(download_projector(facet))
            == download_observations(rows, from, to, facet).push(download_observation(row, facet)));
    }
}

/// Whether a query with this facet looks at a page view.
pub fn selects_page(row: &PageViewRecord, from: &str, to: Option<&str>, facet: PageFacet) -> (kept: bool)
    ensures
        kept == page_selected(*row, from@, end_view(to), facet),
{
    if !within(row.created_at.as_str(), from, to) {
        return false;
    }
    match facet {
        PageFacet::Referrer => !row.referrer.as_str().is_empty(),
        PageFacet::Browser => !row.browser.as_str().is_empty(),
        PageFacet::System => !row.os.as_str().is_empty(),
        PageFacet::VisitorDay => !row.visitor_id.as_str().is_empty(),
        _ => true,
    }
}

/// Reads from a page view what a query with this facet needs.
pub fn observe_page(row: &PageViewRecord, facet: PageFacet) -> (o: Observation)
    ensures
        o@ == page_observation(*row, facet),
{
    match facet {
        PageFacet::Overall => Observation {
            key: String::new(),
            detail: String::new(),
            visitor: row.visitor_id.clone(),
        },
        PageFacet::Day => Observation {
            key: day(row.created_at.as_str()),
            detail: String::new(),
            visitor: String::new(),
        },
        PageFacet::Path => Observation {
            key: row.path.clone(),
            detail: String::new(),
            visitor: row.visitor_id.clone(),
        },
        PageFacet::Referrer => Observation {
            key: row.referrer.clone(),
            detail: String::new(),
            visitor: String::new(),
        },
        PageFacet::Browser => Observation {
            key: row.browser.clone(),
            detail: String::new(),
            visitor: String::new(),
        },
        PageFacet::System => Observation {
            key: row.os.clone(),
            detail: String::new(),
            visitor: String::new(),
        },
        PageFacet::VisitorDay => Observation {
            key: day(row.created_at.as_str()),
            detail: String::new(),
            visitor: row.visitor_id.clone(),
        },
    }
}

/// Reads from a download what a query with this facet needs.
pub fn observe_download(row: &DownloadRecord, facet: DownloadFacet) -> (o: Observation)
    ensures
        o@ == download_observation(*row, facet),
{
    match facet {
        DownloadFacet::Overall => Observation {
            key: String::new(),
            detail: String::new(),
            visitor: String::new(),
        },
        DownloadFacet::DayAndApp => Observation {
            key: day(row.created_at.as_str()),
            detail: row.app_name.clone(),
            visitor: String::new(),
        },
        DownloadFacet::AppAndPlatform => Observation {
            key: row.app_name.clone(),
            detail: row.platform.clone(),
            visitor: String::new(),
        },
    }
}

/// The observations of a query on the page views `rows`.
pub fn observe_page_views(
    rows: &Vec<PageViewRecord>,
    from: &str,
    to: Option<&str>,
    facet: PageFacet,
) -> (obs: Vec<Observation>)
    ensures
        views_of(obs@) == page_observations(rows@, from@, end_view(to), facet),
        obs.len() <= rows.len(),
{
    let mut obs: Vec<Observation> = Vec::new();
    let mut i: usize = 0;
    while i < rows.len()
        invariant
            i <= rows.len(),
            obs.len() <= i,
            views_of(obs@) == page_observations(rows@.take(i as int), from@, end_view(to), facet),
        decreases rows.len() - i,
    {
        let ghost seen = views_of(obs@);
        proof {
            assert(rows@.take(i + 1) == rows@.take(i as int).push(rows@[i as int]));
            lemma_page_observations_push(rows@.take(i as int), rows@[i as int], from@, end_view(to), facet);
        }
        if selects_page(&rows[i], from, to, facet) {
            let o = observe_page(&rows[i], facet);
            obs.push(o);
            assert(views_of(obs@) == seen.push(o@));
        }
        i = i + 1;
    }
    assert(rows@.take(rows.len() as int) == rows@);
    obs
}

/// The observations of a query on the downloads `rows`.
pub fn observe_downloads(
    rows: &Vec<DownloadRecord>,
    from: &str,
    to: Option<&str>,
    facet: DownloadFacet,
) -> (obs: Vec<Observation>)
    ensures
        views_of(obs@) == download_observations(rows@, from@, end_view(to), facet),
        obs.len() <= rows.len(),
{
    let mut obs: Vec<Observation> = Vec::new();
    let mut i: usize = 0;
    while i < rows.len()
        invariant
            i <= rows.len(),
            obs.len() <= i,
            views_of(obs@) == download_observations(
                rows@.take(i as int),
                from@,
                end_view(to),
                facet,
            ),
        decreases rows.len() - i,
    {
        let ghost seen = views_of(obs@);
        proof {
            assert(rows@.take(i + 1) == rows@.take(i as int).push(rows@[i as int]));
            lemma_download_observations_push(rows@.take(i as int), rows@[i as int], from@, end_view(to), facet);
        }
        if within(rows[i].created_at.as_str(), from, to) {
            let o = observe_download(&rows[i], facet);
            obs.push(o);
            assert(views_of(obs@) == seen.push(o@));
        }
        i = i + 1;
    }
    assert(rows@.take(rows.len() as int) == rows@);
    obs
}

} // verus!
