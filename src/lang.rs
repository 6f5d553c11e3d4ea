//! Which translation resource files a page template needs.

use vstd::prelude::*;
use crate::text::same_text;

verus! {

pub open spec fn is_home_page(t: Seq<char>) -> bool {
    t == "index"@ || t == "register"@ || t == "sign-in"@ || t == "admin_admin-index"@
}

pub open spec fn is_projects_page(t: Seq<char>) -> bool {
    t == "projects_projects-index"@ || t == "projects_projects-project-detail"@ || t
        == "projects_projects-project-new"@ || t == "admin_admin-projects"@ || t
        == "admin_admin-project-detail"@
}

pub open spec fn is_users_page(t: Seq<char>) -> bool {
    t == "users_users-index"@ || t == "users_users-user-detail"@ || t == "users_users-user-activate"@
}

/// The resource files of a template, by the template's registered name.
pub open spec fn lang_res_of(t: Seq<char>) -> Seq<Seq<char>> {
    if is_home_page(t) {
        seq!["common.lang"@, "home.lang"@]
    } else if is_projects_page(t) {
        seq!["common.lang"@, "pagination.lang"@, "projects.lang"@]
    } else if is_users_page(t) {
        seq!["common.lang"@, "pagination.lang"@, "users.lang"@]
    } else {
        Seq::empty()
    }
}

pub fn get_lang_res(root_tpl: &str) -> (r: Vec<&'static str>)
    ensures
        r@.map_values(|s: &str| s@) == lang_res_of(root_tpl@),
{
    if same_text(root_tpl, "index") || same_text(root_tpl, "register") || same_text(
        root_tpl,
        "sign-in",
    ) || same_text(root_tpl, "admin_admin-index") {
        let r = vec!["common.lang", "home.lang"];
        assert(r@.map_values(|s: &str| s@) =~= lang_res_of(root_tpl@));
        r
    } else if same_text(root_tpl, "projects_projects-index") || same_text(
        root_tpl,
        "projects_projects-project-detail",
    ) || same_text(root_tpl, "projects_projects-project-new") || same_text(
        root_tpl,
        "admin_admin-projects",
    ) || same_text(root_tpl, "admin_admin-project-detail") {
        let r = vec!["common.lang", "pagination.lang", "projects.lang"];
        assert(r@.map_values(|s: &str| s@) =~= lang_res_of(root_tpl@));
        r
    } else if same_text(root_tpl, "users_users-index") || same_text(
        root_tpl,
        "users_users-user-detail",
    ) || same_text(root_tpl, "users_users-user-activate") {
        let r = vec!["common.lang", "pagination.lang", "users.lang"];
        assert(r@.map_values(|s: &str| s@) =~= lang_res_of(root_tpl@));
        r
    } else {
        let r: Vec<&'static str> = Vec::new();
        assert(r@.map_values(|s: &str| s@) =~= lang_res_of(root_tpl@));
        r
    }
}

} // verus!
