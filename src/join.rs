//! The join-index resolver over the topic join collection.
//!
//! One collection holds two kinds of rows. A row with a project is a tag: a
//! user tagged that project with the topic. A row without one is a keyword
//! that a user chose for their profile. The resolver reads the rows that the
//! store returned for an anchor and gives the ids on the far side.

use vstd::prelude::*;
use crate::oid::Oid;
use crate::models::CategoryUser;

verus! {

/// A row of the topic join collection.
#[derive(Clone, Copy, Debug, PartialEq, Eq, Structural)]
pub struct JoinRow {
    pub _id: Oid,
    pub user_id: Oid,
    pub topic_id: Oid,
    pub project_id: Option<Oid>,
}

/// The two kinds of join row.
#[derive(Clone, Copy, Debug, PartialEq, Eq, Structural)]
pub enum JoinRole {
    UserKeyword,
    ProjectTag,
}

impl JoinRow {
    pub open spec fn role_spec(self) -> JoinRole {
        if self.project_id is Some {
            JoinRole::ProjectTag
        } else {
            JoinRole::UserKeyword
        }
    }

    /// The kind of the row: a tag when it names a project.
    pub fn role(&self) -> (r: JoinRole)
        ensures
            r == self.role_spec(),
    {
        if self.project_id.is_some() {
            JoinRole::ProjectTag
        } else {
            JoinRole::UserKeyword
        }
    }
}

/// An anchor id and the relation to follow from it.
#[derive(Clone, Copy, Debug, PartialEq, Eq, Structural)]
pub enum JoinQuery {
    /// The projects tagged with a topic.
    ProjectsOfTopic(Oid),
    /// The topics a project is tagged with.
    TopicsOfProject(Oid),
    /// The keywords of a user's profile.
    KeywordsOfUser(Oid),
    /// The topics a user has tagged projects with.
    TopicsOfUser(Oid),
}

/// Whether a row belongs to the relation that a query follows.
pub open spec fn selects(q: JoinQuery, row: JoinRow) -> bool {
    match q {
        JoinQuery::ProjectsOfTopic(t) => row.topic_id == t && row.project_id is Some,
        JoinQuery::TopicsOfProject(p) => row.project_id == Some(p),
        JoinQuery::KeywordsOfUser(u) => row.user_id == u && row.project_id is None,
        JoinQuery::TopicsOfUser(u) => row.user_id == u && row.project_id is Some,
    }
}

/// The id on the far side of a row.
pub open spec fn far_id(q: JoinQuery, row: JoinRow) -> Oid {
    match q {
        JoinQuery::ProjectsOfTopic(_) => row.project_id->Some_0,
        _ => row.topic_id,
    }
}

/// The far ids of the selected rows, in row order, repeats kept.
pub open spec fn related_seq(rows: Seq<JoinRow>, q: JoinQuery) -> Seq<Oid>
    decreases rows.len(),
{
    if rows.len() == 0 {
        Seq::empty()
    } else {
        let prev = related_seq(rows.drop_last(), q);
        if selects(q, rows.last()) {
            prev.push(far_id(q, rows.last()))
        } else {
            prev
        }
    }
}

/// The far ids of the selected rows, as a set.
pub open spec fn related_set(rows: Seq<JoinRow>, q: JoinQuery) -> Set<Oid> {
    Set::new(|id: Oid| exists|i: int| 0 <= i < rows.len() && selects(q, rows[i]) && far_id(q, rows[i]) == id)
}

pub open spec fn strictly_ascending(s: Seq<Oid>) -> bool {
    forall|i: int, j: int| 0 <= i < j < s.len() ==> s[i].value < s[j].value
}

/// `r` is what resolving `q` over `rows` gives: each related id once, ascending.
pub open spec fn resolves_to(rows: Seq<JoinRow>, q: JoinQuery, r: Seq<Oid>) -> bool {
    &&& strictly_ascending(r)
    &&& forall|id: Oid| r.contains(id) <==> related_set(rows, q).contains(id)
}

proof fn lemma_related_seq_members(rows: Seq<JoinRow>, q: JoinQuery)
    ensures
        forall|id: Oid| related_seq(rows, q).contains(id) <==> related_set(rows, q).contains(id),
    decreases rows.len(),
{
    if rows.len() > 0 {
        let init = rows.drop_last();
        lemma_related_seq_members(init, q);
        assert forall|id: Oid| related_seq(rows, q).contains(id) <==> related_set(rows, q).contains(
            id,
        ) by {
            if related_seq(rows, q).contains(id) {
                if related_seq(init, q).contains(id) {
                    let i = choose|i: int|
                        0 <= i < init.len() && selects(q, init[i]) && far_id(q, init[i]) == id;
                    assert(rows[i] == init[i]);
                } else {
                    let k = related_seq(rows, q).index_of(id);
                    assert(selects(q, rows.last()) && far_id(q, rows.last()) == id);
                    assert(rows[rows.len() - 1] == rows.last());
                }
            }
            if related_set(rows, q).contains(id) {
                let i = choose|i: int|
                    0 <= i < rows.len() && selects(q, rows[i]) && far_id(q, rows[i]) == id;
                if i < rows.len() - 1 {
                    assert(init[i] == rows[i]);
                    assert(related_set(init, q).contains(id));
                    assert(related_seq(init, q).contains(id));
                    if selects(q, rows.last()) {
                        let j = related_seq(init, q).index_of(id);
                        assert(related_seq(rows, q)[j] == id);
                    }
                } else {
                    assert(related_seq(rows, q).last() == id);
                }
            }
        }
    }
}

/// The far ids of the rows that `q` selects, in row order, repeats kept.
pub fn related_ids(rows: &Vec<JoinRow>, q: &JoinQuery) -> (r: Vec<Oid>)
    ensures
        r@ == related_seq(rows@, *q),
{
    let mut r: Vec<Oid> = Vec::new();
    let mut i: usize = 0;
    while i < rows.len()
        invariant
            i <= rows.len(),
            r@ == related_seq(rows@.take(i as int), *q),
        decreases rows.len() - i,
    {
        let row = rows[i];
        proof {
            assert(rows@.take(i as int + 1).drop_last() =~= rows@.take(i as int));
            assert(rows@.take(i as int + 1).last() == row);
        }
        let picked = match q {
            JoinQuery::ProjectsOfTopic(t) => match row.project_id {
                Some(p) => if row.topic_id == *t {
                    Some(p)
                } else {
                    None
                },
                None => None,
            },
            JoinQuery::TopicsOfProject(p) => match row.project_id {
                Some(rp) => if rp == *p {
                    Some(row.topic_id)
                } else {
                    None
                },
                None => None,
            },
            JoinQuery::KeywordsOfUser(u) => if row.user_id == *u && row.project_id.is_none() {
                Some(row.topic_id)
            } else {
                None
            },
            JoinQuery::TopicsOfUser(u) => if row.user_id == *u && row.project_id.is_some() {
                Some(row.topic_id)
            } else {
                None
            },
        };
        if let Some(id) = picked {
            r.push(id);
        }
        i = i + 1;
    }
    proof {
        assert(rows@.take(rows@.len() as int) =~= rows@);
    }
    r
}

/// The ids of `ids`, ascending, each once.
pub fn sorted_unique(ids: &Vec<Oid>) -> (r: Vec<Oid>)
    ensures
        strictly_ascending(r@),
        forall|id: Oid| r@.contains(id) <==> ids@.contains(id),
{
    let mut r: Vec<Oid> = Vec::new();
    let mut i: usize = 0;
    while i < ids.len()
        invariant
            i <= ids.len(),
            strictly_ascending(r@),
            forall|id: Oid| r@.contains(id) <==> ids@.take(i as int).contains(id),
        decreases ids.len() - i,
    {
        let id = ids[i];
        let mut j: usize = 0;
        while j < r.len() && r[j].value < id.value
            invariant
                j <= r.len(),
                forall|k: int| 0 <= k < j ==> r@[k].value < id.value,
            decreases r.len() - j,
        {
            j = j + 1;
        }
        let ghost before = r@;
        if j < r.len() && r[j].value == id.value {
            assert forall|x: Oid| r@.contains(x) <==> (before.contains(x) || x == id) by {
                if x == id {
                    assert(r@[j as int] == x);
                }
            }
        } else {
            r.insert(j, id);
            proof {
                assert(r@ == before.insert(j as int, id));
                assert forall|a: int, b: int| 0 <= a < b < r@.len() implies r@[a].value
                    < r@[b].value by {
                    if b < j {
                    } else if a > j {
                        assert(r@[a] == before[a - 1]);
                        assert(r@[b] == before[b - 1]);
                    } else if a == j {
                        assert(r@[b] == before[b - 1]);
                        assert(before[j as int].value > id.value);
                        if b - 1 > j {
                            assert(before[j as int].value < before[b - 1].value);
                        }
                    } else {
                        if b == j {
                        } else {
                            assert(r@[b] == before[b - 1]);
                            assert(before[j as int].value > id.value);
                            if b - 1 > j {
                                assert(before[j as int].value < before[b - 1].value);
                            }
                        }
                    }
                }
                assert forall|x: Oid| r@.contains(x) <==> (before.contains(x) || x == id) by {
                    if r@.contains(x) {
                        let k = r@.index_of(x);
                        if k < j {
                            assert(before[k] == x);
                        } else if k > j {
                            assert(before[k - 1] == x);
                        }
                    }
                    if before.contains(x) {
                        let k = before.index_of(x);
                        if k < j {
                            assert(r@[k] == x);
                        } else {
                            assert(r@[k + 1] == x);
                        }
                    }
                    if x == id {
                        assert(r@[j as int] == x);
                    }
                }
            }
        }
        proof {
            let t = ids@.take(i as int + 1);
            assert(t =~= ids@.take(i as int).push(id));
            assert forall|x: Oid| t.contains(x) <==> (ids@.take(i as int).contains(x) || x == id) by {
                if t.contains(x) {
                    let k = t.index_of(x);
                    if k < i {
                        assert(ids@.take(i as int)[k] == x);
                    }
                }
                if ids@.take(i as int).contains(x) {
                    let k = ids@.take(i as int).index_of(x);
                    assert(t[k] == x);
                }
                if x == id {
                    assert(t[i as int] == x);
                }
            }
            assert forall|x: Oid| r@.contains(x) <==> t.contains(x) by {
                assert(before.contains(x) <==> ids@.take(i as int).contains(x));
                assert(r@.contains(x) <==> (before.contains(x) || x == id));
            }
        }
        i = i + 1;
    }
    proof {
        assert(ids@.take(ids@.len() as int) =~= ids@);
    }
    r
}

/// Resolves a join query: the related ids, ascending, each once.
pub fn resolve_related_ids(rows: &Vec<JoinRow>, q: &JoinQuery) -> (r: Vec<Oid>)
    ensures
        resolves_to(rows@, *q, r@),
{
    let all = related_ids(rows, q);
    proof {
        lemma_related_seq_members(rows@, *q);
    }
    sorted_unique(&all)
}

/// The categories of a user's category links, in row order.
pub open spec fn category_ids_seq(rows: Seq<CategoryUser>, user_id: Oid) -> Seq<Oid>
    decreases rows.len(),
{
    if rows.len() == 0 {
        Seq::empty()
    } else {
        let prev = category_ids_seq(rows.drop_last(), user_id);
        if rows.last().user_id == user_id {
            prev.push(rows.last().category_id)
        } else {
            prev
        }
    }
}

/// The ids of the categories that a user's rows link to, in row order.
pub fn category_ids_of_user(rows: &Vec<CategoryUser>, user_id: Oid) -> (r: Vec<Oid>)
    ensures
        r@ == category_ids_seq(rows@, user_id),
{
    let mut r: Vec<Oid> = Vec::new();
    let mut i: usize = 0;
    while i < rows.len()
        invariant
            i <= rows.len(),
            r@ == category_ids_seq(rows@.take(i as int), user_id),
        decreases rows.len() - i,
    {
        proof {
            assert(rows@.take(i as int + 1).drop_last() =~= rows@.take(i as int));
            assert(rows@.take(i as int + 1).last() == rows@[i as int]);
        }
        if rows[i].user_id == user_id {
            r.push(rows[i].category_id);
        }
        i = i + 1;
    }
    proof {
        assert(rows@.take(rows@.len() as int) =~= rows@);
    }
    r
}

/// Two ascending sequences without repeats that hold the same ids are equal.
proof fn lemma_ascending_same_members(a: Seq<Oid>, b: Seq<Oid>)
    requires
        strictly_ascending(a),
        strictly_ascending(b),
        forall|x: Oid| a.contains(x) <==> b.contains(x),
    ensures
        a == b,
    decreases a.len(),
{
    if a.len() == 0 {
        if b.len() > 0 {
            assert(b.contains(b[0]));
        }
        assert(a =~= b);
    } else {
        assert(a.contains(a[0]));
        let j = b.index_of(a[0]);
        assert(b.contains(b[0]));
        let k = a.index_of(b[0]);
        if k > 0 {
            assert(a[0].value < a[k].value);
            if j > 0 {
                assert(b[0].value < b[j].value);
            }
        }
        if j > 0 {
            assert(b[0].value < b[j].value);
        }
        assert(a[0] == b[0]);
        let a2 = a.drop_first();
        let b2 = b.drop_first();
        assert forall|x: Oid| a2.contains(x) <==> b2.contains(x) by {
            if a2.contains(x) {
                let i = a2.index_of(x);
                assert(a[i + 1] == x);
                assert(b.contains(x));
                let m = b.index_of(x);
                assert(x.value > a[0].value);
                assert(m != 0);
                assert(b2[m - 1] == x);
            }
            if b2.contains(x) {
                let i = b2.index_of(x);
                assert(b[i + 1] == x);
                assert(a.contains(x));
                let m = a.index_of(x);
                assert(x.value > b[0].value);
                assert(m != 0);
                assert(a2[m - 1] == x);
            }
        }
        lemma_ascending_same_members(a2, b2);
        assert(a =~= seq![a[0]] + a2);
        assert(b =~= seq![b[0]] + b2);
    }
}

/// Resolving a join query is idempotent and blind to row order: resolving it
/// twice, over the same rows or over any lists that hold the same rows, gives
/// the same ids in the same order.
pub proof fn law_resolve_idempotent(
    rows1: Seq<JoinRow>,
    rows2: Seq<JoinRow>,
    q: JoinQuery,
    r1: Seq<Oid>,
    r2: Seq<Oid>,
)
    requires
        rows1.to_set() == rows2.to_set(),
        resolves_to(rows1, q, r1),
        resolves_to(rows2, q, r2),
    ensures
        r1 == r2,
{
    assert forall|id: Oid| related_set(rows1, q).contains(id) implies related_set(rows2, q).contains(
        id,
    ) by {
        let i = choose|i: int| 0 <= i < rows1.len() && selects(q, rows1[i]) && far_id(q, rows1[i]) == id;
        assert(rows1.contains(rows1[i]));
        assert(rows1.to_set().contains(rows1[i]));
        assert(rows2.contains(rows1[i]));
        let j = rows2.index_of(rows1[i]);
        assert(rows2[j] == rows1[i]);
    }
    assert forall|id: Oid| related_set(rows2, q).contains(id) implies related_set(rows1, q).contains(
        id,
    ) by {
        let i = choose|i: int| 0 <= i < rows2.len() && selects(q, rows2[i]) && far_id(q, rows2[i]) == id;
        assert(rows2.contains(rows2[i]));
        assert(rows2.to_set().contains(rows2[i]));
        assert(rows1.contains(rows2[i]));
        let j = rows1.index_of(rows2[i]);
        assert(rows1[j] == rows2[i]);
    }
    lemma_ascending_same_members(r1, r2);
}

/// Soft orphaning: when the only tag row of a project is removed, the project
/// no longer resolves under that row's topic, so the topic's listing (whose
/// scope is the resolved ids) cannot hold it, and the project itself resolves
/// to no topics.
pub proof fn law_soft_orphan(rows: Seq<JoinRow>, k: int, project: Oid)
    requires
        0 <= k < rows.len(),
        rows[k].project_id == Some(project),
        forall|i: int| 0 <= i < rows.len() && i != k ==> rows[i].project_id != Some(project),
    ensures
        !related_set(rows.remove(k), JoinQuery::ProjectsOfTopic(rows[k].topic_id)).contains(project),
        related_set(rows.remove(k), JoinQuery::TopicsOfProject(project)) == Set::<Oid>::empty(),
        forall|r: Seq<Oid>|
            resolves_to(rows.remove(k), JoinQuery::ProjectsOfTopic(rows[k].topic_id), r)
                ==> !r.contains(project),
        forall|r: Seq<Oid>|
            resolves_to(rows.remove(k), JoinQuery::TopicsOfProject(project), r) ==> r.len() == 0,
{
    let rest = rows.remove(k);
    let qt = JoinQuery::ProjectsOfTopic(rows[k].topic_id);
    let qp = JoinQuery::TopicsOfProject(project);
    assert forall|i: int| 0 <= i < rest.len() implies rest[i].project_id != Some(project) by {
        if i < k {
            assert(rest[i] == rows[i]);
        } else {
            assert(rest[i] == rows[i + 1]);
        }
    }
    if related_set(rest, qt).contains(project) {
        let i = choose|i: int| 0 <= i < rest.len() && selects(qt, rest[i]) && far_id(qt, rest[i]) == project;
        assert(rest[i].project_id == Some(project));
    }
    assert forall|id: Oid| !related_set(rest, qp).contains(id) by {
        if related_set(rest, qp).contains(id) {
            let i = choose|i: int| 0 <= i < rest.len() && selects(qp, rest[i]) && far_id(qp, rest[i]) == id;
            assert(rest[i].project_id == Some(project));
        }
    }
    assert(related_set(rest, qp) =~= Set::<Oid>::empty());
    assert forall|r: Seq<Oid>| resolves_to(rest, qp, r) implies r.len() == 0 by {
        if r.len() > 0 {
            assert(r.contains(r[0]));
        }
    }
}

} // verus!
