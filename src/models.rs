//! The entities that listings carry. Identifiers are `Oid`s and instants are
//! milliseconds since the Unix epoch.

use vstd::prelude::*;
use crate::oid::Oid;
use crate::join::JoinRow;

verus! {

/// A posted gig.
#[derive(Clone, Debug)]
pub struct Project {
    pub _id: Oid,
    pub user_id: Oid,
    pub category_id: Oid,
    pub subject: String,
    pub content: String,
    pub contact_user: String,
    pub contact_phone: String,
    pub contact_email: String,
    pub contact_im: String,
    pub created_at: i64,
    pub updated_at: i64,
    pub hits: u64,
    pub insides: u64,
    pub stars: u64,
    pub language: String,
    pub status: i8,
}

/// A registered account.
#[derive(Clone, Debug)]
pub struct User {
    pub _id: Oid,
    pub username: String,
    pub email: String,
    pub cred: String,
    pub nickname: String,
    pub phone_number: String,
    pub phone_public: bool,
    pub im_account: String,
    pub im_public: bool,
    pub website: String,
    pub introduction: String,
    pub worker_quality: i8,
    pub boss_quality: i8,
    pub created_at: i64,
    pub updated_at: i64,
    pub status: i8,
}

/// A topic (tag); `quotes` counts how often it has been used.
#[derive(Clone, Debug)]
pub struct Topic {
    pub _id: Oid,
    pub name: String,
    pub quotes: i64,
    pub slug: String,
}

/// A project category.
#[derive(Clone, Debug)]
pub struct Category {
    pub _id: Oid,
    pub name_zh: String,
    pub name_en: String,
    pub slug: String,
}

/// A stored file: an upload's name, kind and location.
#[derive(Clone, Debug)]
pub struct File {
    pub _id: Oid,
    pub name: String,
    pub kind: i8,
    pub location: String,
}

/// A quotation shown on the pages.
#[derive(Clone, Debug)]
pub struct Wish {
    pub _id: Oid,
    pub user_id: Oid,
    pub aphorism: String,
    pub author: String,
    pub created_at: i64,
    pub updated_at: i64,
    pub published: bool,
}

/// A user's link to a category.
#[derive(Clone, Copy, Debug, PartialEq, Eq, Structural)]
pub struct CategoryUser {
    pub _id: Oid,
    pub user_id: Oid,
    pub category_id: Oid,
}

/// A keyword link of a user to a topic.
#[derive(Clone, Copy, Debug, PartialEq, Eq, Structural)]
pub struct TopicUser {
    pub _id: Oid,
    pub user_id: Oid,
    pub topic_id: Oid,
}

/// A tag: a user tagged a project with a topic.
#[derive(Clone, Copy, Debug, PartialEq, Eq, Structural)]
pub struct TopicProject {
    pub _id: Oid,
    pub user_id: Oid,
    pub project_id: Oid,
    pub topic_id: Oid,
}

/// A file attached to a project.
#[derive(Clone, Copy, Debug, PartialEq, Eq, Structural)]
pub struct ProjectFile {
    pub _id: Oid,
    pub user_id: Oid,
    pub project_id: Oid,
    pub file_id: Oid,
}

/// The fields of a category to create; the slug is derived.
#[derive(Clone, Debug)]
pub struct CategoryNew {
    pub name_zh: String,
    pub name_en: String,
    pub slug: String,
}

#[derive(Clone, Copy, Debug, PartialEq, Eq, Structural)]
pub struct CategoryUserNew {
    pub user_id: Oid,
    pub category_id: Oid,
}

/// The fields of a topic to create; the slug is derived.
#[derive(Clone, Debug)]
pub struct TopicNew {
    pub name: String,
    pub quotes: i64,
    pub slug: String,
}

#[derive(Clone, Copy, Debug, PartialEq, Eq, Structural)]
pub struct TopicUserNew {
    pub user_id: Oid,
    pub topic_id: Oid,
}

#[derive(Clone, Copy, Debug, PartialEq, Eq, Structural)]
pub struct TopicProjectNew {
    pub user_id: Oid,
    pub project_id: Oid,
    pub topic_id: Oid,
}

/// The fields of a project to create.
#[derive(Clone, Debug)]
pub struct ProjectNew {
    pub user_id: Oid,
    pub category_id: Oid,
    pub subject: String,
    pub content: String,
    pub contact_user: String,
    pub contact_phone: String,
    pub contact_email: String,
    pub contact_im: String,
    pub hits: u64,
    pub insides: u64,
    pub stars: u64,
    pub language: String,
    pub status: i8,
}

#[derive(Clone, Debug)]
pub struct FileNew {
    pub name: String,
    pub kind: i8,
    pub location: String,
}

#[derive(Clone, Copy, Debug, PartialEq, Eq, Structural)]
pub struct ProjectFileNew {
    pub user_id: Oid,
    pub project_id: Oid,
    pub file_id: Oid,
}

/// The fields of an account to register.
#[derive(Clone, Debug)]
pub struct UserNew {
    pub username: String,
    pub email: String,
    pub cred: String,
    pub nickname: String,
    pub phone_number: String,
    pub phone_public: bool,
    pub im_account: String,
    pub im_public: bool,
    pub website: String,
    pub introduction: String,
    pub worker_quality: i8,
    pub boss_quality: i8,
    pub status: i8,
}

#[derive(Clone, Debug)]
pub struct WishNew {
    pub user_id: Oid,
    pub aphorism: String,
    pub author: String,
    pub published: bool,
}

/// A signed-in user's name and access token.
#[derive(Clone, Debug)]
pub struct SignInfo {
    pub username: String,
    pub token: String,
}

impl TopicProject {
    /// The join row that this tag is stored as.
    pub fn join_row(&self) -> (r: JoinRow)
        ensures
            r == (JoinRow {
                _id: self._id,
                user_id: self.user_id,
                topic_id: self.topic_id,
                project_id: Some(self.project_id),
            }),
    {
        JoinRow {
            _id: self._id,
            user_id: self.user_id,
            topic_id: self.topic_id,
            project_id: Some(self.project_id),
        }
    }
}

impl TopicUser {
    /// The join row that this keyword link is stored as.
    pub fn join_row(&self) -> (r: JoinRow)
        ensures
            r == (JoinRow {
                _id: self._id,
                user_id: self.user_id,
                topic_id: self.topic_id,
                project_id: None,
            }),
    {
        JoinRow { _id: self._id, user_id: self.user_id, topic_id: self.topic_id, project_id: None }
    }
}

pub const MARKDOWN_TABLES: u32 = 1 << 1;

pub const MARKDOWN_FOOTNOTES: u32 = 1 << 2;

pub const MARKDOWN_STRIKETHROUGH: u32 = 1 << 3;

pub const MARKDOWN_TASKLISTS: u32 = 1 << 4;

pub const MARKDOWN_SMART_PUNCTUATION: u32 = 1 << 5;

pub const MARKDOWN_HEADING_ATTRIBUTES: u32 = 1 << 6;

/// The markdown extensions of project texts.
pub const PROJECT_MARKDOWN: u32 = MARKDOWN_HEADING_ATTRIBUTES | MARKDOWN_FOOTNOTES
    | MARKDOWN_TASKLISTS | MARKDOWN_SMART_PUNCTUATION;

/// The markdown extensions of user introductions.
pub const USER_MARKDOWN: u32 = MARKDOWN_TABLES | MARKDOWN_FOOTNOTES | MARKDOWN_STRIKETHROUGH
    | MARKDOWN_TASKLISTS | MARKDOWN_SMART_PUNCTUATION;

/// The HTML that pulldown-cmark renders a markdown text to, with the
/// extensions whose option bits are set.
pub uninterp spec fn markdown_html_of(text: Seq<char>, options: u32) -> Seq<char>;

/// Relies on pulldown-cmark's `Parser::new_ext` and `html::push_html`: the
/// HTML of a markdown text under the given option bits.
#[verifier::external_body]
fn markdown_to_html(text: &str, options: u32) -> (r: String)
    ensures
        r@ == markdown_html_of(text@, options),
{
    let parser = pulldown_cmark::Parser::new_ext(
        text,
        pulldown_cmark::Options::from_bits_truncate(options),
    );
    let mut out = String::new();
    pulldown_cmark::html::push_html(&mut out, parser);
    out
}

impl Project {
    /// The project's content rendered from markdown to HTML.
    pub fn content_html(&self) -> (r: String)
        ensures
            r@ == markdown_html_of(self.content@, PROJECT_MARKDOWN),
    {
        markdown_to_html(self.content.as_str(), PROJECT_MARKDOWN)
    }
}

impl User {
    /// The user's introduction rendered from markdown to HTML.
    pub fn introduction_html(&self) -> (r: String)
        ensures
            r@ == markdown_html_of(self.introduction@, USER_MARKDOWN),
    {
        markdown_to_html(self.introduction.as_str(), USER_MARKDOWN)
    }
}

} // verus!
