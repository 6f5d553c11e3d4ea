//! What the web frontend reads from requests, and the operations it sends
//! to the API. The operation types are markers: each names one GraphQL
//! operation of the frontend's query files.

use vstd::prelude::*;

verus! {

/// The paging query of a listing page: `?from=&first=&last=`.
#[derive(Clone, Debug)]
pub struct Page {
    pub from: i64,
    pub first: String,
    pub last: String,
}

impl Default for Page {
    /// The first page, with no boundary ids.
    fn default() -> (r: Page)
        ensures
            r.from == 1,
            r.first@ == "-"@,
            r.last@ == "-"@,
    {
        Page { from: 1, first: "-".to_owned(), last: "-".to_owned() }
    }
}

/// The registration form.
#[derive(Clone, Debug)]
pub struct RegisterInfo {
    pub username: String,
    pub email: String,
    pub password: String,
    pub nickname: String,
    pub phone_number: String,
    pub phone_public: bool,
    pub im_account: String,
    pub im_public: bool,
    pub website: String,
    pub topic_names: String,
    pub introduction: String,
}

/// The sign-in form: an e-mail or username, and a password.
#[derive(Clone, Debug)]
pub struct SignInInfo {
    pub signature: String,
    pub password: String,
}

/// The form of a new project.
#[derive(Clone, Debug)]
pub struct ProjectInfo {
    pub user_id: String,
    pub category_id: String,
    pub subject: String,
    pub cover_image_id: String,
    pub topic_names: String,
    pub content: String,
    pub source_file_id: String,
    pub contact_user: String,
    pub contact_phone: String,
    pub contact_email: String,
    pub contact_im: String,
    pub language: String,
}

/// The frontend server's shared state; it holds nothing.
#[derive(Clone, Copy, Debug)]
pub struct State {}

/// The root of the API's queries.
pub struct QueryRoot;

/// The root of the API's mutations.
pub struct MutationRoot;

pub struct HomeData;

pub struct RegisterData;

pub struct SignInData;

pub struct CategoriesData;

pub struct CategoryBySlugData;

pub struct ProjectsData;

pub struct ProjectsByUserData;

pub struct ProjectsByCategoryData;

pub struct ProjectsByTopicData;

pub struct ProjectNewData;

pub struct ProjectData;

pub struct ProjectUpdateOneFieldByIdData;

pub struct ProjectRandomData;

pub struct FileNewData;

pub struct ProjectFileNewData;

pub struct TopicsNewData;

pub struct TopicBySlugData;

pub struct TopicUserNewData;

pub struct TopicProjectNewData;

pub struct UserByIdData;

pub struct UserByUsernameData;

pub struct UserByUsernameDetailData;

pub struct UsersData;

pub struct UserUpdateOneFieldByIdData;

pub struct WishRandomData;

} // verus!
