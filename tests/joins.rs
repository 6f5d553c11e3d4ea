use gigs::join::{
    category_ids_of_user, related_ids, resolve_related_ids, sorted_unique, JoinQuery, JoinRole,
    JoinRow,
};
use gigs::listing::{plan_projects_by_topic, Scope};
use gigs::models::{CategoryUser, Topic, TopicProject, TopicUser};
use gigs::oid::Oid;
use gigs::paging::PageConfig;
use gigs::topics::{count_occurrences, sort_by_quotes_desc, user_topic_cloud, with_usage_counts};

fn oid(v: u128) -> Oid {
    Oid { value: v }
}

fn tag(id: u128, user: u128, topic: u128, project: u128) -> JoinRow {
    JoinRow { _id: oid(id), user_id: oid(user), topic_id: oid(topic), project_id: Some(oid(project)) }
}

fn keyword(id: u128, user: u128, topic: u128) -> JoinRow {
    JoinRow { _id: oid(id), user_id: oid(user), topic_id: oid(topic), project_id: None }
}

fn topic(id: u128, quotes: i64) -> Topic {
    Topic { _id: oid(id), name: format!("t{}", id), quotes, slug: format!("t{}-1", id) }
}

fn rows() -> Vec<JoinRow> {
    vec![
        tag(1, 7, 100, 30),
        tag(2, 7, 100, 10),
        tag(3, 8, 100, 30),
        tag(4, 8, 200, 20),
        keyword(5, 7, 100),
        keyword(6, 7, 300),
        tag(7, 7, 200, 10),
    ]
}

#[test]
fn projects_of_topic_are_sorted_and_unique() {
    let ids = resolve_related_ids(&rows(), &JoinQuery::ProjectsOfTopic(oid(100)));
    assert_eq!(ids, vec![oid(10), oid(30)]);
}

#[test]
fn topics_of_project_follow_tags_only() {
    let ids = resolve_related_ids(&rows(), &JoinQuery::TopicsOfProject(oid(10)));
    assert_eq!(ids, vec![oid(100), oid(200)]);
    assert!(resolve_related_ids(&rows(), &JoinQuery::TopicsOfProject(oid(99))).is_empty());
}

#[test]
fn keywords_exclude_tags() {
    let ids = resolve_related_ids(&rows(), &JoinQuery::KeywordsOfUser(oid(7)));
    assert_eq!(ids, vec![oid(100), oid(300)]);
}

#[test]
fn topics_of_user_follow_tags_only() {
    let all = related_ids(&rows(), &JoinQuery::TopicsOfUser(oid(7)));
    assert_eq!(all, vec![oid(100), oid(100), oid(200)]);
    let ids = resolve_related_ids(&rows(), &JoinQuery::TopicsOfUser(oid(7)));
    assert_eq!(ids, vec![oid(100), oid(200)]);
    // user 7's keyword on topic 300 is not a tag
    assert!(!ids.contains(&oid(300)));
}

#[test]
fn resolving_twice_gives_the_same_ids() {
    let q = JoinQuery::ProjectsOfTopic(oid(100));
    let first = resolve_related_ids(&rows(), &q);
    let second = resolve_related_ids(&rows(), &q);
    assert_eq!(first, second);
    let mut reordered = rows();
    reordered.reverse();
    reordered.push(tag(1, 7, 100, 30));
    assert_eq!(resolve_related_ids(&reordered, &q), first);
}

#[test]
fn removing_the_only_tag_orphans_the_project() {
    let mut r = rows();
    // project 20 has one tag row, under topic 200
    assert_eq!(resolve_related_ids(&r, &JoinQuery::ProjectsOfTopic(oid(200))), vec![oid(10), oid(20)]);
    r.retain(|row| row._id != oid(4));
    assert_eq!(resolve_related_ids(&r, &JoinQuery::ProjectsOfTopic(oid(200))), vec![oid(10)]);
    assert!(resolve_related_ids(&r, &JoinQuery::TopicsOfProject(oid(20))).is_empty());
    let cfg = PageConfig::new(10).unwrap();
    let l = plan_projects_by_topic(Some(oid(200)), &r, 1, "-", "-", 1, &cfg).unwrap();
    match l.filter.scope {
        Scope::AmongIds(ids) => assert_eq!(ids, vec![oid(10)]),
        _ => panic!("topic listing must be scoped by ids"),
    }
}

#[test]
fn empty_rows_resolve_to_nothing() {
    assert!(resolve_related_ids(&vec![], &JoinQuery::TopicsOfUser(oid(1))).is_empty());
}

#[test]
fn sorted_unique_orders_and_dedups() {
    let v = vec![oid(5), oid(1), oid(5), oid(3), oid(1)];
    assert_eq!(sorted_unique(&v), vec![oid(1), oid(3), oid(5)]);
    assert!(sorted_unique(&vec![]).is_empty());
}

#[test]
fn row_roles() {
    assert_eq!(tag(1, 1, 1, 1).role(), JoinRole::ProjectTag);
    assert_eq!(keyword(1, 1, 1).role(), JoinRole::UserKeyword);
    let tp = TopicProject { _id: oid(1), user_id: oid(2), project_id: oid(3), topic_id: oid(4) };
    assert_eq!(tp.join_row(), tag(1, 2, 4, 3));
    let tu = TopicUser { _id: oid(1), user_id: oid(2), topic_id: oid(4) };
    assert_eq!(tu.join_row(), keyword(1, 2, 4));
}

#[test]
fn category_links_of_a_user() {
    let links = vec![
        CategoryUser { _id: oid(1), user_id: oid(7), category_id: oid(50) },
        CategoryUser { _id: oid(2), user_id: oid(8), category_id: oid(51) },
        CategoryUser { _id: oid(3), user_id: oid(7), category_id: oid(52) },
    ];
    assert_eq!(category_ids_of_user(&links, oid(7)), vec![oid(50), oid(52)]);
}

#[test]
fn tag_cloud_is_most_used_first() {
    let sorted = sort_by_quotes_desc(vec![topic(1, 2), topic(2, 9), topic(3, 2), topic(4, 5)]);
    let order: Vec<u128> = sorted.iter().map(|t| t._id.value).collect();
    assert_eq!(order, vec![2, 4, 1, 3]);
    assert!(sort_by_quotes_desc(vec![]).is_empty());
}

#[test]
fn usage_counts_count_links() {
    let ids = vec![oid(100), oid(100), oid(300)];
    assert_eq!(count_occurrences(&ids, oid(100)), 2);
    assert_eq!(count_occurrences(&ids, oid(400)), 0);
    let counted = with_usage_counts(vec![topic(300, 40), topic(100, 1)], &ids);
    assert_eq!(counted[0].quotes, 1);
    assert_eq!(counted[1].quotes, 2);
    assert_eq!(counted[0].name, "t300");
}

#[test]
fn user_topic_cloud_counts_and_orders() {
    let cloud = user_topic_cloud(vec![topic(200, 0), topic(100, 0)], &rows(), oid(7));
    let got: Vec<(u128, i64)> = cloud.iter().map(|t| (t._id.value, t.quotes)).collect();
    assert_eq!(got, vec![(100, 2), (200, 1)]);
}
