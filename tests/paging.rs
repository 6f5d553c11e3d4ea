use gigs::listing::{
    plan_listing, plan_projects_by_topic, projects_filter, projects_result, require_found,
    trailing_window_start, users_filter, users_result, ListError, Scope,
};
use gigs::models::{Project, Topic, User};
use gigs::oid::Oid;
use gigs::paging::{
    calculate_current_filter_skip, count_pages_and_total, find_options, parse_boundary,
    resolve_page, IdBound, PageConfig, PageError, PagePlan,
};
use gigs::status::{build_status_filter, StatusFilter};

const A: &str = "0000000000000000000000aa";
const B: &str = "0000000000000000000000bb";

fn cfg(n: u64) -> PageConfig {
    PageConfig::new(n).unwrap()
}

fn oid(v: u128) -> Oid {
    Oid { value: v }
}

fn project(id: u128) -> Project {
    Project {
        _id: oid(id),
        user_id: oid(1),
        category_id: oid(2),
        subject: String::from("subject"),
        content: String::from("content"),
        contact_user: String::new(),
        contact_phone: String::new(),
        contact_email: String::new(),
        contact_im: String::new(),
        created_at: 0,
        updated_at: 0,
        hits: 0,
        insides: 0,
        stars: 0,
        language: String::from("en"),
        status: 1,
    }
}

fn user(id: u128) -> User {
    User {
        _id: oid(id),
        username: String::from("u"),
        email: String::from("u@example.com"),
        cred: String::new(),
        nickname: String::new(),
        phone_number: String::new(),
        phone_public: false,
        im_account: String::new(),
        im_public: false,
        website: String::new(),
        introduction: String::new(),
        worker_quality: 0,
        boss_quality: 0,
        created_at: 0,
        updated_at: 0,
        status: 1,
    }
}

#[test]
fn plain_request_keeps_page_and_skips_nothing() {
    for page in [1u32, 2, 7] {
        let plan = calculate_current_filter_skip(page, "-", "-").unwrap();
        assert_eq!(plan, PagePlan { current_page: page, skip_pages: 0, id_bound: IdBound::Unbounded });
        let plan = calculate_current_filter_skip(page, "", "").unwrap();
        assert_eq!(plan.skip_pages, 0);
        assert_eq!(plan.current_page, page);
    }
}

#[test]
fn first_boundary_moves_back_and_bounds_from_below() {
    let plan = calculate_current_filter_skip(3, A, "-").unwrap();
    assert_eq!(plan.current_page, 2);
    assert_eq!(plan.skip_pages, 1);
    assert_eq!(plan.id_bound, IdBound::AtLeast(oid(0xaa)));
    assert!(plan.id_bound.admits_id(oid(0xaa)));
    assert!(plan.id_bound.admits_id(oid(0xab)));
    assert!(!plan.id_bound.admits_id(oid(0xa9)));
}

#[test]
fn first_boundary_wins_over_last() {
    let plan = calculate_current_filter_skip(4, A, B).unwrap();
    assert_eq!(plan.id_bound, IdBound::AtLeast(oid(0xaa)));
    assert_eq!(plan.current_page, 3);
    assert_eq!(plan.skip_pages, 2);
}

#[test]
fn last_boundary_moves_forward_and_bounds_from_above() {
    let plan = calculate_current_filter_skip(2, "-", B).unwrap();
    assert_eq!(plan.current_page, 3);
    assert_eq!(plan.skip_pages, 0);
    assert_eq!(plan.id_bound, IdBound::AtMost(oid(0xbb)));
    assert!(plan.id_bound.admits_id(oid(0xbb)));
    assert!(!plan.id_bound.admits_id(oid(0xbc)));
}

#[test]
fn malformed_boundaries_are_rejected() {
    assert_eq!(calculate_current_filter_skip(2, "xyz", "-"), Err(PageError::InvalidBoundary));
    assert_eq!(calculate_current_filter_skip(2, "-", "12345"), Err(PageError::InvalidBoundary));
    assert_eq!(parse_boundary("0000000000000000000000zz"), Err(PageError::InvalidBoundary));
    assert_eq!(parse_boundary(" -"), Err(PageError::InvalidBoundary));
    assert_eq!(parse_boundary("-"), Ok(None));
    assert_eq!(parse_boundary(""), Ok(None));
}

#[test]
fn out_of_range_pages_are_rejected() {
    assert_eq!(resolve_page(0, None, None), Err(PageError::PageOutOfRange));
    assert_eq!(resolve_page(1, Some(oid(5)), None), Err(PageError::PageOutOfRange));
    assert_eq!(resolve_page(u32::MAX, None, Some(oid(5))), Err(PageError::PageOutOfRange));
    assert!(resolve_page(u32::MAX, None, None).is_ok());
}

#[test]
fn page_counts_round_up() {
    let c = cfg(10);
    assert_eq!(count_pages_and_total(25, &c), (3, 25));
    assert_eq!(count_pages_and_total(20, &c), (2, 20));
    assert_eq!(count_pages_and_total(0, &c), (0, 0));
    assert_eq!(count_pages_and_total(1, &c), (1, 1));
    assert_eq!(count_pages_and_total(u64::MAX, &cfg(1)), (u64::MAX, u64::MAX));
    assert_eq!(count_pages_and_total(u64::MAX, &cfg(2)), (u64::MAX / 2 + 1, u64::MAX));
}

#[test]
fn page_config_bounds() {
    assert!(PageConfig::new(0).is_none());
    assert!(PageConfig::new(1).is_some());
    assert!(PageConfig::new(u32::MAX as u64).is_some());
    assert!(PageConfig::new(u32::MAX as u64 + 1).is_none());
}

#[test]
fn find_window_skips_whole_pages() {
    let w = find_options(2, &cfg(10));
    assert_eq!(w.skip, 20);
    assert_eq!(w.limit, 10);
    let w = find_options(u32::MAX, &cfg(u32::MAX as u64));
    assert_eq!(w.skip, (u32::MAX as u64) * (u32::MAX as u64));
}

#[test]
fn empty_listing_has_no_neighbours() {
    let r = projects_result(1, 0, &cfg(10), vec![]);
    assert_eq!(r.res_count.pages_count, Some(0));
    assert_eq!(r.res_count.total_count, Some(0));
    assert!(!r.page_info.has_previous_page);
    assert!(!r.page_info.has_next_page);
    assert_eq!(r.page_info.first_cursor, None);
    assert_eq!(r.page_info.last_cursor, None);
    assert_eq!(r.page_info.current_stuff.as_deref(), Some("projects"));
}

#[test]
fn envelope_cursors_come_from_items() {
    let r = projects_result(2, 25, &cfg(10), vec![project(9), project(8), project(5)]);
    assert_eq!(r.page_info.first_cursor, Some(oid(9)));
    assert_eq!(r.page_info.last_cursor, Some(oid(5)));
    assert_eq!(r.page_info.current_page, Some(2));
    assert!(r.page_info.has_previous_page);
    assert!(r.page_info.has_next_page);
    assert_eq!(r.res_count.pages_count, Some(3));
    assert_eq!(r.current_items.len(), 3);

    let last = projects_result(3, 25, &cfg(10), vec![project(1)]);
    assert!(!last.page_info.has_next_page);
    assert_eq!(last.page_info.first_cursor, Some(oid(1)));
    assert_eq!(last.page_info.last_cursor, Some(oid(1)));

    let u = users_result(1, 3, &cfg(2), vec![user(4), user(3)]);
    assert_eq!(u.page_info.current_stuff.as_deref(), Some("users"));
    assert_eq!(u.page_info.first_cursor, Some(oid(4)));
    assert_eq!(u.page_info.last_cursor, Some(oid(3)));
    assert_eq!(u.res_count.pages_count, Some(2));
    assert!(u.page_info.has_next_page);
    assert!(!u.page_info.has_previous_page);
}

#[test]
fn banned_filter_matches_only_banned() {
    let f = build_status_filter(-1);
    assert_eq!(f, StatusFilter::ExactlyEquals(-1));
    assert!(f.matches(-1));
    assert!(!f.matches(2));
    assert!(!f.matches(0));
    assert!(!f.matches(-2));
}

#[test]
fn zero_status_matches_everything() {
    let f = build_status_filter(0);
    assert_eq!(f, StatusFilter::NoConstraint);
    for s in [-3, -1, 0, 1, 2, 6, 12] {
        assert!(f.matches(s));
    }
}

#[test]
fn positive_status_is_a_minimum() {
    let f = build_status_filter(2);
    assert_eq!(f, StatusFilter::AtLeast(2));
    assert!(f.matches(2));
    assert!(f.matches(6));
    assert!(!f.matches(1));
    assert!(!f.matches(-1));
}

#[test]
fn users_filter_reads_the_status_sign() {
    let f = users_filter(-1);
    assert!(matches!(f.scope, Scope::All));
    assert_eq!(f.status, StatusFilter::ExactlyEquals(-1));
    assert!(f.status.matches(-1));
    assert!(!f.status.matches(2));
    let f = users_filter(0);
    assert_eq!(f.status, StatusFilter::NoConstraint);
    assert!(f.status.matches(-1));
    assert!(f.status.matches(13));
    let f = users_filter(1);
    assert_eq!(f.status, StatusFilter::AtLeast(1));
    assert!(f.status.matches(12));
    assert!(!f.status.matches(0));
}

#[test]
fn listing_plan_keeps_filter_and_window() {
    let l = plan_listing(projects_filter(Scope::Owner(oid(3)), 1), 3, A, "-", &cfg(10)).unwrap();
    assert!(matches!(l.filter.scope, Scope::Owner(id) if id == oid(3)));
    assert_eq!(l.filter.status, StatusFilter::AtLeast(1));
    assert_eq!(l.plan.current_page, 2);
    assert_eq!(l.window.skip, 10);
    assert_eq!(l.window.limit, 10);
    assert!(plan_listing(projects_filter(Scope::All, 1), 1, "bad", "-", &cfg(10)).is_err());
}

#[test]
fn unknown_topic_slug_is_not_found() {
    let r = plan_projects_by_topic(None, &vec![], 1, "-", "-", 1, &cfg(10));
    assert_eq!(r.err(), Some(ListError::NotFound));
    let found: Option<Topic> = None;
    assert_eq!(require_found(found).err(), Some(ListError::NotFound));
}

#[test]
fn trailing_window_reaches_back() {
    assert_eq!(trailing_window_start(1_000_000_000_000, 2), Some(1_000_000_000_000 - 172_800_000));
    assert_eq!(trailing_window_start(0, 7), Some(-604_800_000));
    assert_eq!(trailing_window_start(i64::MIN, 1), None);
    assert_eq!(trailing_window_start(i64::MIN, 0), Some(i64::MIN));
}
