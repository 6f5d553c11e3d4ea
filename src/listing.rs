//! The listing engine: one filter per listing kind, the plan of the window
//! to fetch, and the envelope around what the store returned.
//!
//! A listing runs in three steps. `plan_listing` turns a request into a
//! `Listing`. The store then counts the records that `Listing::filter`
//! selects (before any id bound), and finds those that the filter and
//! `Listing::plan.id_bound` select, sorted by id descending, skipping and
//! limiting as `Listing::window` says. `projects_result` or `users_result`
//! wraps the count and the items that came back.

use vstd::prelude::*;
use crate::oid::Oid;
use crate::status::{
    StatusFilter, build_status_filter, status_filter_of, position_filter_of,
    position_status_filter,
};
use crate::join::{JoinRow, JoinQuery, resolve_related_ids, resolves_to};
use crate::text::{lower_of, lowercase, trimmed};
use crate::models::{Project, User};
use crate::paging::{
    PageConfig, PageError, PagePlan, FindWindow, ceil_div, plan_of_text,
    calculate_current_filter_skip, count_pages_and_total, find_options,
};

verus! {

/// The records a listing draws from, before status and cursor.
#[derive(Clone, Debug)]
pub enum Scope {
    /// Every record of the collection.
    All,
    /// Projects posted by one user.
    Owner(Oid),
    /// Projects of one category.
    InCategory(Oid),
    /// Records whose id is one of these.
    AmongIds(Vec<Oid>),
    /// Projects whose investment lies in `[min, max]`.
    Investment(i64, i64),
    /// Projects whose worker type matches this pattern.
    WorkerType(String),
    /// Projects whose `external` flag is this value.
    External(bool),
}

/// What a listing selects, cursor aside.
#[derive(Clone, Debug)]
pub struct ListFilter {
    pub scope: Scope,
    pub status: StatusFilter,
}

/// A request turned into the two store queries it needs.
#[derive(Clone, Debug)]
pub struct Listing {
    /// The filter that counts run against, with no id bound.
    pub filter: ListFilter,
    /// The reported page, the skipped pages and the id bound of the window.
    pub plan: PagePlan,
    /// Records to skip and the page size, in records.
    pub window: FindWindow,
}

/// Plans the listing of `filter` for a request.
pub fn plan_listing(
    filter: ListFilter,
    from_page: u32,
    first_oid: &str,
    last_oid: &str,
    cfg: &PageConfig,
) -> (r: Result<Listing, PageError>)
    requires
        cfg.wf(),
    ensures
        plan_of_text(from_page as int, first_oid@, last_oid@) is Err ==> r is Err && r->Err_0
            == plan_of_text(from_page as int, first_oid@, last_oid@)->Err_0,
        plan_of_text(from_page as int, first_oid@, last_oid@) is Ok ==> r is Ok && ({
            let l = r->Ok_0;
            let plan = plan_of_text(from_page as int, first_oid@, last_oid@)->Ok_0;
            &&& l.filter == filter
            &&& l.plan == plan
            &&& l.window.skip == plan.skip_pages as nat * cfg.page_size as nat
            &&& l.window.limit == cfg.page_size
        }),
{
    let plan = calculate_current_filter_skip(from_page, first_oid, last_oid)?;
    let window = find_options(plan.skip_pages, cfg);
    Ok(Listing { filter, plan, window })
}

/// Why a listing fails.
#[derive(Clone, Copy, Debug, PartialEq, Eq, Structural)]
pub enum ListError {
    /// The user, category or topic that scopes the listing does not exist.
    NotFound,
    /// The request itself is malformed.
    Page(PageError),
}

/// The filter of a project listing: its scope and the signed status code.
pub fn projects_filter(scope: Scope, status: i8) -> (r: ListFilter)
    ensures
        r.scope == scope,
        r.status == status_filter_of(status as int),
{
    ListFilter { scope, status: build_status_filter(status) }
}

/// The filter of the user listing: every account, under the signed status
/// code (zero no constraint, positive a minimum, negative an exact value).
pub fn users_filter(status: i8) -> (r: ListFilter)
    ensures
        r.scope == Scope::All,
        r.status == status_filter_of(status as int),
{
    ListFilter { scope: Scope::All, status: build_status_filter(status) }
}

/// The filter of a showcase: the projects of one owner, or of everyone,
/// at the minimum status of the named position.
pub fn position_filter(owner: Option<Oid>, position: &str) -> (r: ListFilter)
    ensures
        owner is Some ==> r.scope == Scope::Owner(owner->Some_0),
        owner is None ==> r.scope == Scope::All,
        r.status == position_filter_of(trimmed(position@)),
{
    let scope = match owner {
        Some(id) => Scope::Owner(id),
        None => Scope::All,
    };
    ListFilter { scope, status: position_status_filter(position) }
}

pub const MILLIS_PER_DAY: i128 = 86_400_000;

/// The start of a trailing window of `days` days that ends at `now_millis`;
/// records stamped at or after it fall inside. `None` when it lies before
/// the earliest instant an `i64` can hold.
pub fn trailing_window_start(now_millis: i64, days: u32) -> (r: Option<i64>)
    ensures
        now_millis - days * MILLIS_PER_DAY >= i64::MIN ==> r == Some(
            (now_millis - days * MILLIS_PER_DAY) as i64,
        ),
        now_millis - days * MILLIS_PER_DAY < i64::MIN ==> r is None,
{
    let span: i128 = days as i128 * MILLIS_PER_DAY;
    let start: i128 = now_millis as i128 - span;
    if start >= i64::MIN as i128 {
        Some(start as i64)
    } else {
        None
    }
}

/// The key a slug is looked up by: slugs are stored in lower case.
pub fn slug_key(slug: &str) -> (r: String)
    ensures
        r@ == lower_of(slug@),
{
    lowercase(slug)
}

/// What a lookup of the scoping record gave: the record, or `NotFound`.
pub fn require_found<T>(found: Option<T>) -> (r: Result<T, ListError>)
    ensures
        found is Some ==> r == Ok::<T, ListError>(found->Some_0),
        found is None ==> r == Err::<T, ListError>(ListError::NotFound),
{
    match found {
        Some(v) => Ok(v),
        None => Err(ListError::NotFound),
    }
}

/// Plans the listing of the projects tagged with a topic. `topic_id` is the
/// topic that the slug lookup found, if any; `rows` are the tag rows that
/// the store returned for it. The listing's scope is the resolved project
/// ids, so a project whose tag rows are all gone is not listed.
pub fn plan_projects_by_topic(
    topic_id: Option<Oid>,
    rows: &Vec<JoinRow>,
    from_page: u32,
    first_oid: &str,
    last_oid: &str,
    status: i8,
    cfg: &PageConfig,
) -> (r: Result<Listing, ListError>)
    requires
        cfg.wf(),
    ensures
        topic_id is None ==> r == Err::<Listing, ListError>(ListError::NotFound),
        topic_id is Some && plan_of_text(from_page as int, first_oid@, last_oid@) is Err ==> r
            == Err::<Listing, ListError>(
            ListError::Page(plan_of_text(from_page as int, first_oid@, last_oid@)->Err_0),
        ),
        topic_id is Some && plan_of_text(from_page as int, first_oid@, last_oid@) is Ok ==> r is Ok
            && ({
            let l = r->Ok_0;
            let plan = plan_of_text(from_page as int, first_oid@, last_oid@)->Ok_0;
            &&& l.filter.scope is AmongIds
            &&& resolves_to(
                rows@,
                JoinQuery::ProjectsOfTopic(topic_id->Some_0),
                l.filter.scope->AmongIds_0@,
            )
            &&& l.filter.status == status_filter_of(status as int)
            &&& l.plan == plan
            &&& l.window.skip == plan.skip_pages as nat * cfg.page_size as nat
            &&& l.window.limit == cfg.page_size
        }),
{
    let topic_id = require_found(topic_id)?;
    let ids = resolve_related_ids(rows, &JoinQuery::ProjectsOfTopic(topic_id));
    let filter = projects_filter(Scope::AmongIds(ids), status);
    match plan_listing(filter, from_page, first_oid, last_oid, cfg) {
        Ok(l) => Ok(l),
        Err(e) => Err(ListError::Page(e)),
    }
}

/// The page metadata of a listing envelope.
#[derive(Clone, Debug)]
pub struct PageInfo {
    pub current_stuff: Option<String>,
    pub current_page: Option<u32>,
    pub first_cursor: Option<Oid>,
    pub last_cursor: Option<Oid>,
    pub has_previous_page: bool,
    pub has_next_page: bool,
}

/// The counts of a listing envelope.
#[derive(Clone, Copy, Debug, PartialEq, Eq, Structural)]
pub struct ResCount {
    pub pages_count: Option<u64>,
    pub total_count: Option<u64>,
}

/// A page of users with its metadata.
#[derive(Clone, Debug)]
pub struct UsersResult {
    pub page_info: PageInfo,
    pub res_count: ResCount,
    pub current_items: Vec<User>,
}

/// A page of projects with its metadata.
#[derive(Clone, Debug)]
pub struct ProjectsResult {
    pub page_info: PageInfo,
    pub res_count: ResCount,
    pub current_items: Vec<Project>,
}

/// The metadata of a page that holds items with ids `ids`: the cursors are
/// the ids of the first and last item actually returned.
pub open spec fn page_info_describes(
    info: PageInfo,
    stuff: Seq<char>,
    current_page: u32,
    pages_count: nat,
    ids: Seq<Oid>,
) -> bool {
    &&& info.current_stuff is Some && info.current_stuff->Some_0@ == stuff
    &&& info.current_page == Some(current_page)
    &&& info.first_cursor == (if ids.len() > 0 {
        Some(ids[0])
    } else {
        None::<Oid>
    })
    &&& info.last_cursor == (if ids.len() > 0 {
        Some(ids.last())
    } else {
        None::<Oid>
    })
    &&& info.has_previous_page == (current_page > 1)
    &&& info.has_next_page == (current_page < pages_count)
}

/// Builds the page metadata for items with the given first and last ids.
pub fn page_info(
    current_stuff: &str,
    current_page: u32,
    pages_count: u64,
    first_cursor: Option<Oid>,
    last_cursor: Option<Oid>,
) -> (r: PageInfo)
    ensures
        r.current_stuff is Some && r.current_stuff->Some_0@ == current_stuff@,
        r.current_page == Some(current_page),
        r.first_cursor == first_cursor,
        r.last_cursor == last_cursor,
        r.has_previous_page == (current_page > 1),
        r.has_next_page == ((current_page as u64) < pages_count),
{
    PageInfo {
        current_stuff: Some(current_stuff.to_owned()),
        current_page: Some(current_page),
        first_cursor,
        last_cursor,
        has_previous_page: current_page > 1,
        has_next_page: (current_page as u64) < pages_count,
    }
}

pub open spec fn project_ids(items: Seq<Project>) -> Seq<Oid> {
    items.map_values(|p: Project| p._id)
}

pub open spec fn user_ids(items: Seq<User>) -> Seq<Oid> {
    items.map_values(|u: User| u._id)
}

/// Wraps a page of projects that the store returned.
pub fn projects_result(
    current_page: u32,
    total_count: u64,
    cfg: &PageConfig,
    items: Vec<Project>,
) -> (r: ProjectsResult)
    requires
        cfg.wf(),
    ensures
        r.current_items@ == items@,
        r.res_count == (ResCount {
            pages_count: Some(ceil_div(total_count as nat, cfg.page_size as nat) as u64),
            total_count: Some(total_count),
        }),
        page_info_describes(
            r.page_info,
            "projects"@,
            current_page,
            ceil_div(total_count as nat, cfg.page_size as nat),
            project_ids(items@),
        ),
{
    let (pages_count, total) = count_pages_and_total(total_count, cfg);
    let n = items.len();
    let first = if n > 0 {
        Some(items[0]._id)
    } else {
        None
    };
    let last = if n > 0 {
        Some(items[n - 1]._id)
    } else {
        None
    };
    let info = page_info("projects", current_page, pages_count, first, last);
    ProjectsResult {
        page_info: info,
        res_count: ResCount { pages_count: Some(pages_count), total_count: Some(total) },
        current_items: items,
    }
}

/// Wraps a page of users that the store returned.
pub fn users_result(current_page: u32, total_count: u64, cfg: &PageConfig, items: Vec<User>) -> (r:
    UsersResult)
    requires
        cfg.wf(),
    ensures
        r.current_items@ == items@,
        r.res_count == (ResCount {
            pages_count: Some(ceil_div(total_count as nat, cfg.page_size as nat) as u64),
            total_count: Some(total_count),
        }),
        page_info_describes(
            r.page_info,
            "users"@,
            current_page,
            ceil_div(total_count as nat, cfg.page_size as nat),
            user_ids(items@),
        ),
{
    let (pages_count, total) = count_pages_and_total(total_count, cfg);
    let n = items.len();
    let first = if n > 0 {
        Some(items[0]._id)
    } else {
        None
    };
    let last = if n > 0 {
        Some(items[n - 1]._id)
    } else {
        None
    };
    let info = page_info("users", current_page, pages_count, first, last);
    UsersResult {
        page_info: info,
        res_count: ResCount { pages_count: Some(pages_count), total_count: Some(total) },
        current_items: items,
    }
}

} // verus!
