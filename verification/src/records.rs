//! The rows of the two append-only event streams, as the store holds them.

use vstd::prelude::*;

use crate::text::{in_window, within};

verus! {

/// One stored page view. `id` and `created_at` are assigned by the store;
/// `created_at` is a UTC timestamp of the form `YYYY-MM-DDTHH:MM:SSZ`.
#[derive(Debug, Clone, PartialEq, Eq)]
pub struct PageViewRecord {
    pub id: i64,
    pub domain: String,
    pub path: String,
    pub referrer: String,
    pub browser: String,
    pub os: String,
    pub screen: String,
    pub visitor_id: String,
    pub created_at: String,
}

/// One stored download. `id` and `created_at` are assigned by the store.
#[derive(Debug, Clone, PartialEq, Eq)]
pub struct DownloadRecord {
    pub id: i64,
    pub app_name: String,
    pub version: String,
    pub platform: String,
    pub referrer: String,
    pub created_at: String,
}

/// A row that carries the time at which the store took it.
pub trait Stamped: Sized {
    /// The timestamp of the row.
    spec fn stamp(&self) -> Seq<char>;

    /// The timestamp of the row.
    fn created_at(&self) -> (stamp: &str)
        ensures
            stamp@ == self.stamp(),
    ;
}

impl Stamped for PageViewRecord {
    open spec fn stamp(&self) -> Seq<char> {
        self.created_at@
    }

    fn created_at(&self) -> (stamp: &str) {
        self.created_at.as_str()
    }
}

impl Stamped for DownloadRecord {
    open spec fn stamp(&self) -> Seq<char> {
        self.created_at@
    }

    fn created_at(&self) -> (stamp: &str) {
        self.created_at.as_str()
    }
}

/// The end of an interval as a sequence of characters.
pub open spec fn end_view(to: Option<&str>) -> Option<Seq<char>> {
    match to {
        Some(end) => Some(end@),
        None => None,
    }
}

/// The test for a row whose timestamp lies in the interval.
pub open spec fn stamped_within<R: Stamped>(from: Seq<char>, to: Option<Seq<char>>) -> spec_fn(R) -> bool {
    |row: R| in_window(row.stamp(), from, to)
}

/// The rows whose timestamp lies in the interval from `from` to `to`, in
/// the order in which they came.
pub fn keep_within<R: Stamped>(rows: Vec<R>, from: &str, to: Option<&str>) -> (kept: Vec<R>)
    ensures
        kept@ == rows@.filter(stamped_within::<R>(from@, end_view(to))),
        kept.len() <= rows.len(),
        forall|i: int| 0 <= i < kept.len() ==> in_window((#[trigger] kept[i]).stamp(), from@, end_view(to)),
{
    let ghost given = rows@;
    let ghost inside = stamped_within::<R>(from@, end_view(to));
    let ghost mut done: int = 0;
    let mut kept = rows;
    let mut i: usize = 0;
    while i < kept.len()
        invariant
            0 <= done <= given.len(),
            inside == stamped_within::<R>(from@, end_view(to)),
            i == given.take(done).filter(inside).len(),
            kept@ == given.take(done).filter(inside) + given.skip(done),
        decreases given.len() - done,
    {
        proof {
            assert(kept@[i as int] == given[done]);
            assert(given.take(done + 1) == given.take(done).push(given[done]));
            given.take(done).lemma_filter_push(given[done], inside);
        }
        if within(kept[i].created_at(), from, to) {
            proof {
                assert(kept@ == given.take(done + 1).filter(inside) + given.skip(done + 1));
            }
            i = i + 1;
        } else {
            kept.remove(i);
            proof {
                assert(kept@ == given.take(done + 1).filter(inside) + given.skip(done + 1));
            }
        }
        proof {
            done = done + 1;
        }
    }
    proof {
        assert(done == given.len());
        assert(given.take(done) == given);
        assert(kept@ == given.filter(inside));
        given.lemma_filter_len(inside);
        assert forall|i: int| 0 <= i < kept.len() implies in_window(
            (#[trigger] kept[i]).stamp(),
            from@,
            end_view(to),
        ) by {
            given.lemma_filter_pred(inside, i);
        }
    }
    kept
}

} // verus!
