//! Ordering and truncation of tallies.
//!
//! A ranking lists the largest groups first; a daily series lists the days
//! in ascending order. Both orders are stable: two tallies that the order
//! does not tell apart stay in the order in which they came.

use vstd::prelude::*;
use vstd::utf8::encode_utf8;

use crate::tally::{each_group_once, group_named, total_count, Tally, TallyView};
use crate::text::{at_or_before, lemma_bytes_le_total, lemma_bytes_le_transitive, text_le};
use crate::views::views_of;

verus! {

/// The two orders in which a query hands out its tallies.
#[derive(Debug, Clone, Copy, PartialEq, Eq)]
pub enum Arrangement {
    /// The largest count first.
    CountDescending,
    /// The smallest key first, in the byte order of the keys.
    KeyAscending,
}

/// Whether `a` may stand before `b` in the arrangement.
pub open spec fn holds_place(a: TallyView, b: TallyView, how: Arrangement) -> bool {
    match how {
        Arrangement::CountDescending => a.count >= b.count,
        Arrangement::KeyAscending => text_le(a.key, b.key),
    }
}

/// Whether every tally may stand before all that follow it.
pub open spec fn ordered(tallies: Seq<TallyView>, how: Arrangement) -> bool {
    forall|i: int, j: int|
        0 <= i < j < tallies.len() ==> holds_place(#[trigger] tallies[i], #[trigger] tallies[j], how)
}

/// The index at which `t` joins an arrangement: behind the last tally that
/// may stand before it.
pub open spec fn slot(arranged: Seq<TallyView>, t: TallyView, how: Arrangement) -> nat
    decreases arranged.len(),
{
    if arranged.len() == 0 || holds_place(arranged.last(), t, how) {
        arranged.len()
    } else {
        slot(arranged.drop_last(), t, how)
    }
}

/// The tallies in the order `how`: each in turn joins those before it at its
/// slot.
pub open spec fn arranged(tallies: Seq<TallyView>, how: Arrangement) -> Seq<TallyView>
    decreases tallies.len(),
{
    if tallies.len() == 0 {
        tallies
    } else {
        let earlier = arranged(tallies.drop_last(), how);
        earlier.insert(slot(earlier, tallies.last(), how) as int, tallies.last())
    }
}

/// The first `limit` items of a sequence, or all of it where it has no more
/// than that. A negative limit is no limit.
pub open spec fn limited<A>(items: Seq<A>, limit: int) -> Seq<A> {
    if 0 <= limit < items.len() {
        items.take(limit)
    } else {
        items
    }
}

/// Of two tallies, one may stand before the other.
pub proof fn lemma_holds_place_total(a: TallyView, b: TallyView, how: Arrangement)
    ensures
        holds_place(a, b, how) || holds_place(b, a, how),
{
    lemma_bytes_le_total(encode_utf8(a.key), encode_utf8(b.key));
}

/// Standing before is transitive.
pub proof fn lemma_holds_place_transitive(a: TallyView, b: TallyView, c: TallyView, how: Arrangement)
    requires
        holds_place(a, b, how),
        holds_place(b, c, how),
    ensures
        holds_place(a, c, how),
{
    if how == Arrangement::KeyAscending {
        lemma_bytes_le_transitive(encode_utf8(a.key), encode_utf8(b.key), encode_utf8(c.key));
    }
}

/// The slot of `t` lies within the arrangement; the tally before it, if
/// there is one, may stand before `t`, and none from the slot on may.
pub proof fn lemma_slot(arranged: Seq<TallyView>, t: TallyView, how: Arrangement)
    ensures
        slot(arranged, t, how) <= arranged.len(),
        slot(arranged, t, how) > 0 ==> holds_place(arranged[slot(arranged, t, how) - 1], t, how),
        forall|j: int|
            slot(arranged, t, how) <= j < arranged.len() ==> !holds_place(#[trigger] arranged[j], t, how),
    decreases arranged.len(),
{
    if !(arranged.len() == 0 || holds_place(arranged.last(), t, how)) {
        let shorter = arranged.drop_last();
        lemma_slot(shorter, t, how);
        assert forall|j: int| slot(arranged, t, how) <= j < arranged.len() implies !holds_place(
            #[trigger] arranged[j],
            t,
            how,
        ) by {
            if j < shorter.len() {
                assert(arranged[j] == shorter[j]);
            }
        }
    }
}

/// What one more tally does to an arrangement.
pub proof fn lemma_arranged_push(tallies: Seq<TallyView>, t: TallyView, how: Arrangement)
    ensures
        arranged(tallies.push(t), how) == arranged(tallies, how).insert(
            slot(arranged(tallies, how), t, how) as int,
            t,
        ),
{
    assert(tallies.push(t).drop_last() =~= tallies);
}

/// An arrangement has as many tallies as it was made of.
pub proof fn lemma_arranged_len(tallies: Seq<TallyView>, how: Arrangement)
    ensures
        arranged(tallies, how).len() == tallies.len(),
    decreases tallies.len(),
{
    if tallies.len() > 0 {
        let earlier = arranged(tallies.drop_last(), how);
        lemma_arranged_len(tallies.drop_last(), how);
        lemma_slot(earlier, tallies.last(), how);
    }
}

/// An arrangement holds the tallies it was made of, each as often as it
/// occurs among them.
pub proof fn lemma_arranged_permutes(tallies: Seq<TallyView>, how: Arrangement)
    ensures
        arranged(tallies, how).to_multiset() == tallies.to_multiset(),
    decreases tallies.len(),
{
    broadcast use vstd::seq_lib::group_to_multiset_ensures;

    if tallies.len() > 0 {
        let rest = tallies.drop_last();
        let t = tallies.last();
        let earlier = arranged(rest, how);
        let p = slot(earlier, t, how) as int;
        lemma_arranged_permutes(rest, how);
        lemma_slot(earlier, t, how);
        let joined = earlier.insert(p, t);
        assert(joined.remove(p) =~= earlier);
        assert(joined[p] == t);
        assert(joined.to_multiset().remove(t) == earlier.to_multiset());
        assert(joined.contains(t));
        assert(joined.to_multiset() =~= earlier.to_multiset().insert(t));
        assert(rest.push(t) =~= tallies);
    }
}

/// An arrangement is ordered.
pub proof fn lemma_arranged_ordered(tallies: Seq<TallyView>, how: Arrangement)
    ensures
        ordered(arranged(tallies, how), how),
    decreases tallies.len(),
{
    if tallies.len() > 0 {
        let t = tallies.last();
        let earlier = arranged(tallies.drop_last(), how);
        let p = slot(earlier, t, how) as int;
        lemma_arranged_ordered(tallies.drop_last(), how);
        lemma_slot(earlier, t, how);
        let joined = earlier.insert(p, t);
        assert forall|i: int, j: int| 0 <= i < j < joined.len() implies holds_place(
            #[trigger] joined[i],
            #[trigger] joined[j],
            how,
        ) by {
            if j < p {
                assert(joined[i] == earlier[i] && joined[j] == earlier[j]);
            } else if j == p {
                assert(joined[i] == earlier[i]);
                if i < p - 1 {
                    lemma_holds_place_transitive(earlier[i], earlier[p - 1], t, how);
                }
            } else if i < p {
                assert(joined[i] == earlier[i] && joined[j] == earlier[j - 1]);
            } else if i == p {
                assert(joined[j] == earlier[j - 1]);
                lemma_holds_place_total(t, earlier[j - 1], how);
            } else {
                assert(joined[i] == earlier[i - 1] && joined[j] == earlier[j - 1]);
            }
        }
    }
}

/// An arrangement of tallies that speak of each group once does so too, and
/// each of its tallies is one of those it was made of.
pub proof fn lemma_arranged_each_group_once(tallies: Seq<TallyView>, how: Arrangement)
    requires
        each_group_once(tallies),
    ensures
        each_group_once(arranged(tallies, how)),
        forall|i: int|
            0 <= i < arranged(tallies, how).len() ==> tallies.contains(#[trigger] arranged(tallies, how)[i]),
{
    broadcast use vstd::seq_lib::group_to_multiset_ensures;

    let out = arranged(tallies, how);
    lemma_arranged_permutes(tallies, how);
    assert(tallies.no_duplicates());
    tallies.lemma_multiset_has_no_duplicates();
    out.lemma_multiset_has_no_duplicates_conv();
    assert forall|i: int| 0 <= i < out.len() implies tallies.contains(#[trigger] out[i]) by {
        out.to_multiset_ensures();
        tallies.to_multiset_ensures();
        assert(out.contains(out[i]));
        assert(out.to_multiset().count(out[i]) > 0);
        assert(tallies.to_multiset().count(out[i]) > 0);
    }
    assert forall|i: int, j: int| 0 <= i < j < out.len() implies group_named(#[trigger] out[i])
        != group_named(#[trigger] out[j]) by {
        assert(tallies.contains(out[i]) && tallies.contains(out[j]));
        let a = choose|a: int| 0 <= a < tallies.len() && tallies[a] == out[i];
        let b = choose|b: int| 0 <= b < tallies.len() && tallies[b] == out[j];
        assert(out[i] != out[j]);
        if a < b {
            assert(group_named(tallies[a]) != group_named(tallies[b]));
        } else {
            assert(group_named(tallies[b]) != group_named(tallies[a]));
        }
    }
}

/// A tally that joins a sequence adds its count to the total.
pub proof fn lemma_total_count_insert(tallies: Seq<TallyView>, at: int, t: TallyView)
    requires
        0 <= at <= tallies.len(),
    ensures
        total_count(tallies.insert(at, t)) == total_count(tallies) + t.count,
    decreases tallies.len(),
{
    let joined = tallies.insert(at, t);
    if at == tallies.len() {
        assert(joined.drop_last() == tallies);
    } else {
        assert(joined.drop_last() == tallies.drop_last().insert(at, t));
        assert(joined.last() == tallies.last());
        lemma_total_count_insert(tallies.drop_last(), at, t);
    }
}

/// An arrangement counts as much in total as the tallies it was made of.
pub proof fn lemma_arranged_total_count(tallies: Seq<TallyView>, how: Arrangement)
    ensures
        total_count(arranged(tallies, how)) == total_count(tallies),
    decreases tallies.len(),
{
    if tallies.len() > 0 {
        let earlier = arranged(tallies.drop_last(), how);
        lemma_arranged_total_count(tallies.drop_last(), how);
        lemma_slot(earlier, tallies.last(), how);
        lemma_total_count_insert(earlier, slot(earlier, tallies.last(), how) as int, tallies.last());
    }
}

/// What is left after a limit is ordered as the whole was, and no longer
/// than the limit where that is not negative.
pub proof fn lemma_limited(tallies: Seq<TallyView>, how: Arrangement, limit: int)
    requires
        ordered(tallies, how),
    ensures
        ordered(limited(tallies, limit), how),
        limited(tallies, limit).len() <= tallies.len(),
        limit >= 0 ==> limited(tallies, limit).len() <= limit,
{
}

/// Whether `a` may stand before `b` in the arrangement.
pub fn keeps_place(a: &Tally, b: &Tally, how: Arrangement) -> (kept: bool)
    ensures
        kept == holds_place(a@, b@, how),
{
    match how {
        Arrangement::CountDescending => a.count >= b.count,
        Arrangement::KeyAscending => at_or_before(a.key.as_str(), b.key.as_str()),
    }
}

/// Puts the tallies into the order `how`, keeping the order in which they
/// came wherever `how` does not decide.
pub fn arrange(tallies: Vec<Tally>, how: Arrangement) -> (out: Vec<Tally>)
    ensures
        views_of(out@) == arranged(views_of(tallies@), how),
        out.len() == tallies.len(),
{
    let ghost given = views_of(tallies@);
    let mut out = tallies;
    let mut i: usize = 0;
    while i < out.len()
        invariant
            i <= out.len(),
            out.len() == given.len(),
            views_of(out@) == arranged(given.take(i as int), how) + given.skip(i as int),
        decreases out.len() - i,
    {
        let ghost earlier = arranged(given.take(i as int), how);
        proof {
            lemma_arranged_len(given.take(i as int), how);
            assert(given.take(i + 1) == given.take(i as int).push(given[i as int]));
            lemma_arranged_push(given.take(i as int), given[i as int], how);
        }
        let ghost whole = views_of(out@);
        let t = out.remove(i);
        proof {
            assert(t@ == whole[i as int]);
            assert(views_of(out@) =~= whole.remove(i as int));
            assert(whole.remove(i as int) =~= earlier + given.skip(i + 1));
            assert(earlier.take(i as int) == earlier);
        }
        let mut j: usize = i;
        while j > 0 && !keeps_place(&out[j - 1], &t, how)
            invariant
                j <= i,
                i <= out.len(),
                earlier.len() == i,
                views_of(out@) == earlier + given.skip(i + 1),
                slot(earlier, t@, how) == slot(earlier.take(j as int), t@, how),
            decreases j,
        {
            proof {
                assert(views_of(out@)[j - 1] == earlier[j - 1]);
                assert(earlier.take(j as int).drop_last() == earlier.take(j - 1));
            }
            j = j - 1;
        }
        proof {
            if j > 0 {
                assert(views_of(out@)[j - 1] == earlier[j - 1]);
            }
            assert(slot(earlier, t@, how) == j);
        }
        let ghost rest = views_of(out@);
        out.insert(j, t);
        assert(views_of(out@) == rest.insert(j as int, t@));
        assert(views_of(out@) == earlier.insert(j as int, t@) + given.skip(i + 1));
        i = i + 1;
    }
    proof {
        assert(given.take(out.len() as int) == given);
        assert(given.skip(out.len() as int) == Seq::<TallyView>::empty());
    }
    out
}

/// Keeps the first `limit` tallies and drops the rest; a negative limit
/// keeps them all.
pub fn limit_to(tallies: Vec<Tally>, limit: i64) -> (out: Vec<Tally>)
    ensures
        views_of(out@) == limited(views_of(tallies@), limit as int),
        out@ == limited(tallies@, limit as int),
{
    let mut out = tallies;
    if limit >= 0 && (limit as u64) < (out.len() as u64) {
        out.truncate(limit as usize);
    }
    out
}

} // verus!
