//! Grouping and counting.
//!
//! The observations of a query fall into groups, one for each pair of `key`
//! and `detail` that occurs. A tally says of one group how many observations
//! it holds and how many distinct visitors stand behind them. The empty
//! visitor id stands for an unknown visitor and is never counted.

use vstd::prelude::*;

use crate::observe::{Observation, ObservationView};
use crate::views::views_of;

verus! {

/// What names a group of observations.
pub struct Group {
    pub key: Seq<char>,
    pub detail: Seq<char>,
}

/// The size of one group of observations.
#[derive(Debug, Clone, PartialEq, Eq)]
pub struct Tally {
    pub key: String,
    pub detail: String,
    pub count: i64,
    pub visitors: i64,
}

/// A tally with each string as a sequence of characters and each count as an
/// `int`.
pub struct TallyView {
    pub key: Seq<char>,
    pub detail: Seq<char>,
    pub count: int,
    pub visitors: int,
}

impl View for Tally {
    type V = TallyView;

    open spec fn view(&self) -> TallyView {
        TallyView {
            key: self.key@,
            detail: self.detail@,
            count: self.count as int,
            visitors: self.visitors as int,
        }
    }
}

/// The group that an observation falls into.
pub open spec fn group_of(o: ObservationView) -> Group {
    Group { key: o.key, detail: o.detail }
}

/// Whether an observation counts towards `scope`: towards the one group that
/// is named, or, where none is named, towards the whole.
pub open spec fn in_scope(o: ObservationView, scope: Option<Group>) -> bool {
    scope matches Some(g) ==> group_of(o) == g
}

/// The groups that occur among the observations, each once, in the order in
/// which they first occur.
pub open spec fn groups(obs: Seq<ObservationView>) -> Seq<Group>
    decreases obs.len(),
{
    if obs.len() == 0 {
        Seq::empty()
    } else {
        let earlier = groups(obs.drop_last());
        if earlier.contains(group_of(obs.last())) {
            earlier
        } else {
            earlier.push(group_of(obs.last()))
        }
    }
}

/// The number of observations in `scope`.
pub open spec fn members(obs: Seq<ObservationView>, scope: Option<Group>) -> nat
    decreases obs.len(),
{
    if obs.len() == 0 {
        0
    } else {
        members(obs.drop_last(), scope) + if in_scope(obs.last(), scope) {
            1nat
        } else {
            0nat
        }
    }
}

/// Whether some observation in `scope` was made of `visitor`.
pub open spec fn sighted(obs: Seq<ObservationView>, scope: Option<Group>, visitor: Seq<char>) -> bool {
    exists|i: int| 0 <= i < obs.len() && in_scope(#[trigger] obs[i], scope) && obs[i].visitor == visitor
}

/// The known visitors behind the observations in `scope`: every visitor id
/// that occurs there, but for the empty one.
pub open spec fn visitor_set(obs: Seq<ObservationView>, scope: Option<Group>) -> Set<Seq<char>> {
    Set::new(|visitor: Seq<char>| visitor.len() > 0 && sighted(obs, scope, visitor))
}

/// The tally of the group `g` among the observations.
pub open spec fn summary(obs: Seq<ObservationView>, g: Group) -> TallyView {
    TallyView {
        key: g.key,
        detail: g.detail,
        count: members(obs, Some(g)) as int,
        visitors: visitor_set(obs, Some(g)).len() as int,
    }
}

/// `summary` as a function of the group.
pub open spec fn summarizer(obs: Seq<ObservationView>) -> spec_fn(Group) -> TallyView {
    |g: Group| summary(obs, g)
}

/// The tallies of all the groups that occur among the observations, in the
/// order in which the groups first occur.
pub open spec fn tally_of(obs: Seq<ObservationView>) -> Seq<TallyView> {
    groups(obs).map_values(summarizer(obs))
}

/// The number of observations in `scope` that are the first there of a known
/// visitor.
pub open spec fn first_sightings(obs: Seq<ObservationView>, scope: Option<Group>) -> nat
    decreases obs.len(),
{
    if obs.len() == 0 {
        0
    } else {
        first_sightings(obs.drop_last(), scope) + if in_scope(obs.last(), scope) && obs.last().visitor.len()
            > 0 && !sighted(obs.drop_last(), scope, obs.last().visitor) {
            1nat
        } else {
            0nat
        }
    }
}

/// What one more observation does to the groups.
pub proof fn lemma_groups_push(obs: Seq<ObservationView>, o: ObservationView)
    ensures
        groups(obs.push(o)) == if groups(obs).contains(group_of(o)) {
            groups(obs)
        } else {
            groups(obs).push(group_of(o))
        },
{
    assert(obs.push(o).drop_last() =~= obs);
}

/// What one more observation does to the size of a scope.
pub proof fn lemma_members_push(obs: Seq<ObservationView>, o: ObservationView, scope: Option<Group>)
    ensures
        members(obs.push(o), scope) == members(obs, scope) + if in_scope(o, scope) {
            1nat
        } else {
            0nat
        },
{
    assert(obs.push(o).drop_last() =~= obs);
}

/// What one more observation does to the number of first sightings.
pub proof fn lemma_first_sightings_push(
    obs: Seq<ObservationView>,
    o: ObservationView,
    scope: Option<Group>,
)
    ensures
        first_sightings(obs.push(o), scope) == first_sightings(obs, scope) + if in_scope(o, scope)
            && o.visitor.len() > 0 && !sighted(obs, scope, o.visitor) {
            1nat
        } else {
            0nat
        },
{
    assert(obs.push(o).drop_last() =~= obs);
}

/// What one more observation does to the known visitors of a scope.
pub proof fn lemma_visitor_set_push(obs: Seq<ObservationView>, o: ObservationView, scope: Option<Group>)
    ensures
        visitor_set(obs.push(o), scope) == if in_scope(o, scope) && o.visitor.len() > 0 {
            visitor_set(obs, scope).insert(o.visitor)
        } else {
            visitor_set(obs, scope)
        },
{
    let longer = obs.push(o);
    let expected = if in_scope(o, scope) && o.visitor.len() > 0 {
        visitor_set(obs, scope).insert(o.visitor)
    } else {
        visitor_set(obs, scope)
    };
    assert forall|v: Seq<char>| visitor_set(longer, scope).contains(v) implies expected.contains(v) by {
        let i = choose|i: int|
            0 <= i < longer.len() && in_scope(#[trigger] longer[i], scope) && longer[i].visitor == v;
        if i < obs.len() {
            assert(obs[i] == longer[i]);
        }
    }
    assert forall|v: Seq<char>| expected.contains(v) implies visitor_set(longer, scope).contains(v) by {
        if visitor_set(obs, scope).contains(v) {
            let i = choose|i: int|
                0 <= i < obs.len() && in_scope(#[trigger] obs[i], scope) && obs[i].visitor == v;
            assert(longer[i] == obs[i]);
        } else {
            assert(longer[obs.len() as int] == o);
        }
    }
    assert(visitor_set(longer, scope) =~= expected);
}

/// The known visitors of a scope are finitely many: as many as there are
/// first sightings.
pub proof fn lemma_visitor_set_len(obs: Seq<ObservationView>, scope: Option<Group>)
    ensures
        visitor_set(obs, scope).finite(),
        visitor_set(obs, scope).len() == first_sightings(obs, scope),
    decreases obs.len(),
{
    if obs.len() == 0 {
        assert(visitor_set(obs, scope) =~= Set::empty());
    } else {
        let earlier = obs.drop_last();
        let o = obs.last();
        assert(earlier.push(o) =~= obs);
        lemma_visitor_set_len(earlier, scope);
        lemma_visitor_set_push(earlier, o, scope);
        lemma_first_sightings_push(earlier, o, scope);
    }
}

/// A scope holds no more observations than there are, and no more known
/// visitors than observations.
pub proof fn lemma_scope_bounds(obs: Seq<ObservationView>, scope: Option<Group>)
    ensures
        members(obs, scope) <= obs.len(),
        first_sightings(obs, scope) <= members(obs, scope),
    decreases obs.len(),
{
    if obs.len() > 0 {
        lemma_scope_bounds(obs.drop_last(), scope);
    }
}

/// A group occurs among `groups(obs)` exactly if some observation falls into
/// it.
pub proof fn lemma_groups_cover(obs: Seq<ObservationView>, g: Group)
    ensures
        groups(obs).contains(g) <==> exists|i: int| 0 <= i < obs.len() && group_of(#[trigger] obs[i]) == g,
    decreases obs.len(),
{
    if obs.len() > 0 {
        let earlier = obs.drop_last();
        let k = group_of(obs.last());
        lemma_groups_cover(earlier, g);
        lemma_groups_cover(earlier, k);
        if groups(obs).contains(g) {
            if groups(earlier).contains(g) {
                let i = choose|i: int| 0 <= i < earlier.len() && group_of(#[trigger] earlier[i]) == g;
                assert(obs[i] == earlier[i]);
            } else {
                let j = choose|j: int| 0 <= j < groups(obs).len() && groups(obs)[j] == g;
                assert(g == k);
                assert(group_of(obs[obs.len() - 1]) == g);
            }
        }
        if exists|i: int| 0 <= i < obs.len() && group_of(#[trigger] obs[i]) == g {
            let i = choose|i: int| 0 <= i < obs.len() && group_of(#[trigger] obs[i]) == g;
            if i < earlier.len() {
                assert(earlier[i] == obs[i]);
                let j = choose|j: int| 0 <= j < groups(earlier).len() && groups(earlier)[j] == g;
                assert(groups(obs)[j] == g);
            } else {
                assert(g == k);
                if groups(earlier).contains(k) {
                } else {
                    assert(groups(obs)[groups(earlier).len() as int] == k);
                }
            }
        }
    }
}

/// No group occurs twice among `groups(obs)`.
pub proof fn lemma_groups_distinct(obs: Seq<ObservationView>)
    ensures
        groups(obs).no_duplicates(),
    decreases obs.len(),
{
    if obs.len() > 0 {
        lemma_groups_distinct(obs.drop_last());
    }
}

/// A group that does not occur holds nothing.
pub proof fn lemma_absent_group(obs: Seq<ObservationView>, g: Group)
    requires
        !groups(obs).contains(g),
    ensures
        members(obs, Some(g)) == 0,
        first_sightings(obs, Some(g)) == 0,
    decreases obs.len(),
{
    if obs.len() > 0 {
        let earlier = obs.drop_last();
        lemma_groups_cover(obs, g);
        lemma_groups_cover(earlier, g);
        if groups(earlier).contains(g) {
            let i = choose|i: int| 0 <= i < earlier.len() && group_of(#[trigger] earlier[i]) == g;
            assert(obs[i] == earlier[i]);
        }
        assert(group_of(obs[obs.len() - 1]) != g);
        lemma_absent_group(earlier, g);
    }
}

/// The group that a tally speaks of.
pub open spec fn group_named(t: TallyView) -> Group {
    Group { key: t.key, detail: t.detail }
}

/// Whether no two of the tallies speak of the same group.
pub open spec fn each_group_once(tallies: Seq<TallyView>) -> bool {
    forall|i: int, j: int|
        0 <= i < j < tallies.len() ==> group_named(#[trigger] tallies[i]) != group_named(#[trigger] tallies[j])
}

/// A scope that some observation falls into holds at least that one.
pub proof fn lemma_members_positive(obs: Seq<ObservationView>, scope: Option<Group>, i: int)
    requires
        0 <= i < obs.len(),
        in_scope(obs[i], scope),
    ensures
        members(obs, scope) >= 1,
    decreases obs.len(),
{
    if i < obs.len() - 1 {
        assert(obs.drop_last()[i] == obs[i]);
        lemma_members_positive(obs.drop_last(), scope, i);
    }
}

/// The tallies of the observations speak of each group once, and only of
/// groups that hold an observation; the known visitors of a group are no
/// more than its observations.
pub proof fn lemma_tally_of_shape(obs: Seq<ObservationView>)
    ensures
        tally_of(obs).len() == groups(obs).len(),
        each_group_once(tally_of(obs)),
        forall|i: int|
            0 <= i < tally_of(obs).len() ==> {
                &&& group_named(#[trigger] tally_of(obs)[i]) == groups(obs)[i]
                &&& tally_of(obs)[i].count >= 1
                &&& 0 <= tally_of(obs)[i].visitors <= tally_of(obs)[i].count
            },
{
    lemma_groups_distinct(obs);
    assert forall|i: int| 0 <= i < tally_of(obs).len() implies {
        &&& group_named(#[trigger] tally_of(obs)[i]) == groups(obs)[i]
        &&& tally_of(obs)[i].count >= 1
        &&& 0 <= tally_of(obs)[i].visitors <= tally_of(obs)[i].count
    } by {
        let g = groups(obs)[i];
        lemma_groups_cover(obs, g);
        let k = choose|k: int| 0 <= k < obs.len() && group_of(#[trigger] obs[k]) == g;
        lemma_members_positive(obs, Some(g), k);
        lemma_visitor_set_len(obs, Some(g));
        lemma_scope_bounds(obs, Some(g));
    }
}

/// The counts of the tallies, added up.
pub open spec fn total_count(tallies: Seq<TallyView>) -> int
    decreases tallies.len(),
{
    if tallies.len() == 0 {
        0
    } else {
        total_count(tallies.drop_last()) + tallies.last().count
    }
}

/// The number of observations that fall into one of the groups `gs`, where
/// no group is named twice.
spec fn members_of_all(gs: Seq<Group>, obs: Seq<ObservationView>) -> int
    decreases gs.len(),
{
    if gs.len() == 0 {
        0
    } else {
        members_of_all(gs.drop_last(), obs) + members(obs, Some(gs.last()))
    }
}

/// One more observation is one more member of the groups, if its group is
/// among them.
proof fn lemma_members_of_all_push(gs: Seq<Group>, obs: Seq<ObservationView>, o: ObservationView)
    requires
        gs.no_duplicates(),
    ensures
        members_of_all(gs, obs.push(o)) == members_of_all(gs, obs) + if gs.contains(group_of(o)) {
            1int
        } else {
            0int
        },
    decreases gs.len(),
{
    if gs.len() > 0 {
        let rest = gs.drop_last();
        lemma_members_of_all_push(rest, obs, o);
        lemma_members_push(obs, o, Some(gs.last()));
        if rest.contains(group_of(o)) {
            let j = choose|j: int| 0 <= j < rest.len() && rest[j] == group_of(o);
            assert(gs[j] == group_of(o));
        }
        if gs.contains(group_of(o)) && gs.last() != group_of(o) {
            let j = choose|j: int| 0 <= j < gs.len() && gs[j] == group_of(o);
            assert(rest[j] == group_of(o));
        }
        if gs.last() == group_of(o) {
            assert(gs[gs.len() - 1] == group_of(o));
            if rest.contains(group_of(o)) {
                let j = choose|j: int| 0 <= j < rest.len() && rest[j] == group_of(o);
                assert(gs[j] == gs[gs.len() - 1]);
            }
        }
    }
}

/// The counts of the tallies of some groups add up to the members of those
/// groups.
proof fn lemma_total_count_of_summaries(gs: Seq<Group>, obs: Seq<ObservationView>)
    ensures
        total_count(gs.map_values(summarizer(obs))) == members_of_all(gs, obs),
    decreases gs.len(),
{
    if gs.len() > 0 {
        lemma_total_count_of_summaries(gs.drop_last(), obs);
        assert(gs.map_values(summarizer(obs)).drop_last() == gs.drop_last().map_values(summarizer(obs)));
    }
}

/// Every observation is counted in exactly one tally: the counts of the
/// tallies add up to the number of observations.
pub proof fn lemma_tally_counts_all(obs: Seq<ObservationView>)
    ensures
        total_count(tally_of(obs)) == obs.len(),
    decreases obs.len(),
{
    lemma_total_count_of_summaries(groups(obs), obs);
    if obs.len() > 0 {
        let earlier = obs.drop_last();
        let o = obs.last();
        assert(earlier.push(o) == obs);
        lemma_tally_counts_all(earlier);
        lemma_total_count_of_summaries(groups(earlier), earlier);
        lemma_groups_distinct(earlier);
        lemma_groups_push(earlier, o);
        lemma_members_of_all_push(groups(earlier), earlier, o);
        if !groups(earlier).contains(group_of(o)) {
            lemma_absent_group(earlier, group_of(o));
            lemma_members_push(earlier, o, Some(group_of(o)));
            assert(groups(obs).drop_last() == groups(earlier));
        }
    }
}

/// The tally that the loop of `tally` keeps for a group: the known visitors
/// are counted by their first sightings.
spec fn running(obs: Seq<ObservationView>, g: Group) -> TallyView {
    TallyView {
        key: g.key,
        detail: g.detail,
        count: members(obs, Some(g)) as int,
        visitors: first_sightings(obs, Some(g)) as int,
    }
}

/// The scope in which `seen_earlier` looks for the visitor of `o`.
pub open spec fn scope_of(o: ObservationView, grouped: bool) -> Option<Group> {
    if grouped {
        Some(group_of(o))
    } else {
        None
    }
}

/// Whether the visitor of observation `i` occurs in an earlier observation:
/// in one of the same group where `grouped` is set, in any other where it is
/// not.
pub fn seen_earlier(obs: &Vec<Observation>, i: usize, grouped: bool) -> (seen: bool)
    requires
        i < obs.len(),
    ensures
        seen == sighted(
            views_of(obs@).take(i as int),
            scope_of(obs[i as int]@, grouped),
            obs[i as int].visitor@,
        ),
{
    let ghost earlier = views_of(obs@).take(i as int);
    let ghost scope = scope_of(obs[i as int]@, grouped);
    let mut j: usize = 0;
    while j < i
        invariant
            j <= i,
            i < obs.len(),
            earlier == views_of(obs@).take(i as int),
            scope == scope_of(obs[i as int]@, grouped),
            forall|k: int|
                0 <= k < j ==> !(in_scope(#[trigger] earlier[k], scope) && earlier[k].visitor
                    == obs[i as int].visitor@),
        decreases i - j,
    {
        assert(earlier[j as int] == obs[j as int]@);
        if obs[j].visitor == obs[i].visitor && (!grouped || (obs[j].key == obs[i].key && obs[j].detail
            == obs[i].detail)) {
            return true;
        }
        j = j + 1;
    }
    false
}

/// The number of known visitors behind the observations, whatever their
/// groups.
pub fn count_visitors(obs: &Vec<Observation>) -> (n: i64)
    requires
        obs.len() <= i64::MAX,
    ensures
        n == visitor_set(views_of(obs@), None).len(),
{
    let ghost all = views_of(obs@);
    let mut n: i64 = 0;
    let mut i: usize = 0;
    while i < obs.len()
        invariant
            i <= obs.len(),
            obs.len() <= i64::MAX,
            all == views_of(obs@),
            n == first_sightings(all.take(i as int), None),
            n <= i,
        decreases obs.len() - i,
    {
        proof {
            assert(all.take(i + 1) == all.take(i as int).push(obs[i as int]@));
            lemma_first_sightings_push(all.take(i as int), obs[i as int]@, None);
        }
        if !obs[i].visitor.as_str().is_empty() && !seen_earlier(obs, i, false) {
            n = n + 1;
        }
        i = i + 1;
    }
    proof {
        assert(all.take(obs.len() as int) == all);
        lemma_visitor_set_len(all, None);
    }
    n
}

/// The place of the group of `o` among the tallies, if it has one.
fn find_group(tallies: &Vec<Tally>, o: &Observation) -> (found: Option<usize>)
    ensures
        match found {
            Some(g) => g < tallies.len() && tallies[g as int].key@ == o.key@ && tallies[g as int].detail@
                == o.detail@,
            None => forall|j: int|
                0 <= j < tallies.len() ==> !(#[trigger] tallies[j].key@ == o.key@ && tallies[j].detail@
                    == o.detail@),
        },
{
    let mut j: usize = 0;
    while j < tallies.len()
        invariant
            j <= tallies.len(),
            forall|k: int|
                0 <= k < j ==> !(#[trigger] tallies[k].key@ == o.key@ && tallies[k].detail@ == o.detail@),
        decreases tallies.len() - j,
    {
        if tallies[j].key == o.key && tallies[j].detail == o.detail {
            return Some(j);
        }
        j = j + 1;
    }
    None
}

/// Groups the observations and counts each group: its observations and the
/// known visitors behind them. The groups come in the order in which they
/// first occur.
pub fn tally(obs: &Vec<Observation>) -> (out: Vec<Tally>)
    requires
        obs.len() <= i64::MAX,
    ensures
        views_of(out@) == tally_of(views_of(obs@)),
        out.len() <= obs.len(),
{
    let ghost all = views_of(obs@);
    let mut out: Vec<Tally> = Vec::new();
    let mut i: usize = 0;
    while i < obs.len()
        invariant
            i <= obs.len(),
            obs.len() <= i64::MAX,
            all == views_of(obs@),
            out.len() == groups(all.take(i as int)).len(),
            out.len() <= i,
            forall|j: int|
                0 <= j < out.len() ==> #[trigger] out[j]@ == running(
                    all.take(i as int),
                    groups(all.take(i as int))[j],
                ),
        decreases obs.len() - i,
    {
        let ghost before = all.take(i as int);
        let ghost o = obs[i as int]@;
        let ghost k = group_of(o);
        proof {
            assert(all.take(i + 1) == before.push(o));
            lemma_groups_push(before, o);
            lemma_groups_distinct(before);
            assert forall|j: int| 0 <= j < groups(before).len() implies running(
                before.push(o),
                #[trigger] groups(before)[j],
            ) == (TallyView {
                key: groups(before)[j].key,
                detail: groups(before)[j].detail,
                count: running(before, groups(before)[j]).count + if groups(before)[j] == k {
                    1int
                } else {
                    0int
                },
                visitors: running(before, groups(before)[j]).visitors + if groups(before)[j] == k
                    && o.visitor.len() > 0 && !sighted(before, Some(k), o.visitor) {
                    1int
                } else {
                    0int
                },
            }) by {
                lemma_members_push(before, o, Some(groups(before)[j]));
                lemma_first_sightings_push(before, o, Some(groups(before)[j]));
            }
            lemma_members_push(before, o, Some(k));
            lemma_first_sightings_push(before, o, Some(k));
            lemma_scope_bounds(before, Some(k));
        }
        let fresh = !obs[i].visitor.as_str().is_empty() && !seen_earlier(obs, i, true);
        match find_group(&out, &obs[i]) {
            Some(g) => {
                assert(out[g as int]@ == running(before, groups(before)[g as int]));
                assert(groups(before)[g as int] == k);
                out[g].count = out[g].count + 1;
                if fresh {
                    out[g].visitors = out[g].visitors + 1;
                }
            },
            None => {
                proof {
                    assert forall|j: int| 0 <= j < groups(before).len() implies groups(before)[j] != k by {
                        assert(out[j]@ == running(before, groups(before)[j]));
                    }
                    lemma_absent_group(before, k);
                }
                out.push(
                    Tally {
                        key: obs[i].key.clone(),
                        detail: obs[i].detail.clone(),
                        count: 1,
                        visitors: if fresh {
                            1
                        } else {
                            0
                        },
                    },
                );
            },
        }
        i = i + 1;
    }
    proof {
        assert(all.take(obs.len() as int) == all);
        assert forall|j: int| 0 <= j < out.len() implies #[trigger] views_of(out@)[j] == tally_of(all)[j] by {
            lemma_visitor_set_len(all, Some(groups(all)[j]));
            assert(out[j]@ == running(all, groups(all)[j]));
        }
        assert(views_of(out@) =~= tally_of(all));
    }
    out
}

} // verus!
