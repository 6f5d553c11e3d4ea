//! Tag clouds: the topics of a project or a user, ordered by use. These are
//! small and shown whole, so they are not paged.

use vstd::prelude::*;
use vstd::multiset::Multiset;
use crate::oid::Oid;
use crate::models::Topic;
use crate::join::{JoinRow, JoinQuery, related_ids, related_seq};

verus! {

pub open spec fn quotes_descending(s: Seq<Topic>) -> bool {
    forall|i: int, j: int| 0 <= i < j < s.len() ==> s[i].quotes >= s[j].quotes
}

/// Orders topics by `quotes`, most used first.
pub fn sort_by_quotes_desc(topics: Vec<Topic>) -> (r: Vec<Topic>)
    ensures
        quotes_descending(r@),
        r@.to_multiset() == topics@.to_multiset(),
{
    broadcast use vstd::seq_lib::group_to_multiset_ensures, vstd::multiset::group_multiset_axioms;

    let mut rest = topics;
    let mut r: Vec<Topic> = Vec::new();
    proof {
        assert(r@.to_multiset() =~= Multiset::empty());
        assert(rest@.to_multiset() == topics@.to_multiset());
    }
    while rest.len() > 0
        invariant
            quotes_descending(r@),
            r@.to_multiset().add(rest@.to_multiset()) == topics@.to_multiset(),
        decreases rest.len(),
    {
        let ghost before_rest = rest@;
        let t = rest.remove(0);
        let ghost before = r@;
        let mut j: usize = 0;
        while j < r.len() && r[j].quotes >= t.quotes
            invariant
                j <= r.len(),
                forall|k: int| 0 <= k < j ==> r@[k].quotes >= t.quotes,
            decreases r.len() - j,
        {
            j = j + 1;
        }
        r.insert(j, t);
        proof {
            assert(r@ == before.insert(j as int, t));
            assert forall|a: int, b: int| 0 <= a < b < r@.len() implies r@[a].quotes
                >= r@[b].quotes by {
                if b < j {
                } else if a > j {
                    assert(r@[a] == before[a - 1]);
                    assert(r@[b] == before[b - 1]);
                } else if a == j {
                    assert(r@[b] == before[b - 1]);
                    assert(before[j as int].quotes < t.quotes);
                } else {
                    if b > j {
                        assert(r@[b] == before[b - 1]);
                        assert(before[j as int].quotes < t.quotes);
                    }
                }
            }
            assert(rest@ == before_rest.remove(0));
            vstd::seq_lib::to_multiset_insert(before, j as int, t);
            vstd::seq_lib::to_multiset_remove(before_rest, 0);
            assert(r@.to_multiset() == before.to_multiset().insert(t));
            assert(rest@.to_multiset() == before_rest.to_multiset().remove(t));
            assert(before_rest.to_multiset().contains(t)) by {
                assert(before_rest[0] == t);
                vstd::seq_lib::to_multiset_contains(before_rest, t);
            }
            assert(r@.to_multiset().add(rest@.to_multiset()) =~= before.to_multiset().add(
                before_rest.to_multiset(),
            ));
        }
    }
    proof {
        assert(rest@.to_multiset() =~= Multiset::empty());
        assert(r@.to_multiset().add(Multiset::empty()) =~= r@.to_multiset());
    }
    r
}

/// How many times `id` occurs in `ids`.
pub open spec fn count_of(ids: Seq<Oid>, id: Oid) -> nat
    decreases ids.len(),
{
    if ids.len() == 0 {
        0
    } else {
        count_of(ids.drop_last(), id) + if ids.last() == id {
            1nat
        } else {
            0nat
        }
    }
}

/// Counts the occurrences of `id` in `ids`.
pub fn count_occurrences(ids: &Vec<Oid>, id: Oid) -> (r: u64)
    ensures
        r == count_of(ids@, id),
{
    let mut c: u64 = 0;
    let mut i: usize = 0;
    while i < ids.len()
        invariant
            i <= ids.len(),
            c == count_of(ids@.take(i as int), id),
            c <= i,
        decreases ids.len() - i,
    {
        proof {
            assert(ids@.take(i as int + 1).drop_last() =~= ids@.take(i as int));
        }
        if ids[i] == id {
            c = c + 1;
        }
        i = i + 1;
    }
    proof {
        assert(ids@.take(ids@.len() as int) =~= ids@);
    }
    c
}

/// A topic whose usage count is the number of times its id occurs in `ids`.
pub open spec fn with_count(t: Topic, ids: Seq<Oid>) -> Topic {
    Topic { quotes: count_of(ids, t._id) as i64, ..t }
}

/// Sets each topic's usage count to the number of links in `ids` to it.
pub fn with_usage_counts(topics: Vec<Topic>, ids: &Vec<Oid>) -> (r: Vec<Topic>)
    ensures
        r@ == topics@.map_values(|t: Topic| with_count(t, ids@)),
{
    let mut rest = topics;
    let mut r: Vec<Topic> = Vec::new();
    while rest.len() > 0
        invariant
            rest@.len() <= topics@.len(),
            rest@ == topics@.take(rest@.len() as int),
            r@ == topics@.skip(rest@.len() as int).map_values(|t: Topic| with_count(t, ids@)),
        decreases rest.len(),
    {
        let ghost n = rest@.len();
        let t = rest.pop().unwrap();
        let c = count_occurrences(ids, t._id);
        let counted = Topic { quotes: c as i64, ..t };
        r.insert(0, counted);
        proof {
            assert(topics@[n - 1] == t);
            assert(rest@ =~= topics@.take(n - 1));
            assert(topics@.skip(n - 1) =~= seq![t] + topics@.skip(n as int));
            assert(r@ =~= topics@.skip(n - 1).map_values(|t: Topic| with_count(t, ids@)));
        }
    }
    proof {
        assert(topics@.skip(0) =~= topics@);
    }
    r
}

/// The topics a user has tagged projects with, each counted by the user's
/// tags with it, most used first. `topics` are the topic records the store
/// returned for the ids that the user's rows resolve to.
pub fn user_topic_cloud(topics: Vec<Topic>, rows: &Vec<JoinRow>, user_id: Oid) -> (r: Vec<Topic>)
    ensures
        quotes_descending(r@),
        r@.to_multiset() == topics@.map_values(
            |t: Topic| with_count(t, related_seq(rows@, JoinQuery::TopicsOfUser(user_id))),
        ).to_multiset(),
{
    let ids = related_ids(rows, &JoinQuery::TopicsOfUser(user_id));
    let counted = with_usage_counts(topics, &ids);
    sort_by_quotes_desc(counted)
}

} // verus!
