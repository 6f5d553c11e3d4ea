use gigs::account::{
    project_field_update, sign_in_lookup, sign_in_outcome, sign_status, user_field_update,
    BadFieldValue, Counter, FieldUpdate, SignInError, SignInLookup,
};
use gigs::forms::Page;
use gigs::lang::get_lang_res;
use gigs::listing::{position_filter, slug_key, Scope};
use gigs::models::{Project, User};
use gigs::oid::Oid;
use gigs::slug::{
    category_names_valid, category_slug, map_punctuation, replace_text, slugify,
    split_topic_names, topic_name, topic_slug,
};
use gigs::status::{position_status_filter, wishes_published_filter, StatusFilter};
use gigs::text::{is_blank_or_dash, is_unset, same_text};

#[test]
fn object_ids_parse_as_big_endian_numbers() {
    assert_eq!(Oid::parse_str("000000000000000000000001"), Some(Oid { value: 1 }));
    assert_eq!(Oid::parse_str("0000000000000000000001FF"), Some(Oid { value: 0x1ff }));
    assert_eq!(
        Oid::parse_str("5f1b2c3d4e5f60718293a4b5"),
        Some(Oid { value: 0x5f1b2c3d4e5f60718293a4b5 })
    );
    assert_eq!(Oid::parse_str("ffffffffffffffffffffffff"), Some(Oid { value: (1u128 << 96) - 1 }));
    assert_eq!(Oid::parse_str("00000000000000000000001"), None);
    assert_eq!(Oid::parse_str("0000000000000000000000001"), None);
    assert_eq!(Oid::parse_str("00000000000000000000000g"), None);
    assert_eq!(Oid::parse_str(""), None);
    let b = [0u8, 0, 0, 0, 0, 0, 0, 0, 0, 0, 1, 2];
    assert_eq!(Oid::from_bytes(b), Oid { value: 0x102 });
}

#[test]
fn unset_markers() {
    assert!(is_unset(""));
    assert!(is_unset("-"));
    assert!(!is_unset("--"));
    assert!(!is_unset(" "));
    assert!(is_blank_or_dash("  -  "));
    assert!(is_blank_or_dash("   "));
    assert!(!is_blank_or_dash(" bob "));
    assert!(same_text("abc", "abc"));
    assert!(!same_text("abc", "abd"));
    assert!(!same_text("abc", "ab"));
}

#[test]
fn slugs_of_names() {
    assert_eq!(slugify("Hello World"), "hello-world");
    assert_eq!(slugify("  C# & Rust  "), "c++++-rust");
    assert_eq!(slugify("Café Noir"), "cafe-noir");
    assert_eq!(slugify("a/b?c.d[e]\"f"), "a-b-c-d-e-f");
    assert_eq!(slugify("a - b"), "a-b");
    assert_eq!(slugify(""), "");
}

#[test]
fn punctuation_and_replacement() {
    assert_eq!(map_punctuation("a b#c"), "a-b++++c");
    assert_eq!(replace_text("a----b", "---", "-"), "a--b");
    assert_eq!(replace_text("----", "--", "-"), "--");
    assert_eq!(replace_text("abc", "x", "y"), "abc");
}

#[test]
fn topic_names_and_slugs() {
    assert_eq!(topic_name("  Rust Lang "), Some(String::from("rust lang")));
    assert_eq!(topic_name(" - "), None);
    assert_eq!(topic_name("   "), None);
    assert_eq!(topic_slug("rust lang", 1700000000000), "rust-lang-1700000000000");
    assert_eq!(topic_slug("x", -5), "x--5");
}

#[test]
fn category_slugs() {
    assert_eq!(category_slug("Web", "web", 7), "web-7");
    assert_eq!(category_slug("Design", "Art", 7), "design-art-7");
    assert!(category_names_valid("设计", "Design"));
    assert!(!category_names_valid("-", "Design"));
    assert!(!category_names_valid("设计", ""));
}

#[test]
fn topic_lists_split_on_commas() {
    assert_eq!(split_topic_names("rust, web ,ai"), vec!["rust", "web", "ai"]);
    assert_eq!(split_topic_names(""), vec![""]);
    assert_eq!(split_topic_names("a,,b"), vec!["a", "", "b"]);
}

#[test]
fn slug_keys_are_lower_case() {
    assert_eq!(slug_key("Rust-Lang-17"), "rust-lang-17");
}

#[test]
fn sign_in_by_email_or_username() {
    match sign_in_lookup("Foo@Bar.COM") {
        SignInLookup::ByEmail(e) => assert_eq!(e, "foo@bar.com"),
        SignInLookup::ByUsername(_) => panic!("an @ names an e-mail"),
    }
    match sign_in_lookup("Alice") {
        SignInLookup::ByUsername(u) => assert_eq!(u, "alice"),
        SignInLookup::ByEmail(_) => panic!("no @ names a username"),
    }
}

#[test]
fn sign_in_outcomes() {
    assert_eq!(sign_in_outcome(1, true), Ok(()));
    assert_eq!(sign_in_outcome(10, true), Ok(()));
    assert_eq!(sign_in_outcome(5, false), Err(SignInError::Incorrect));
    assert_eq!(sign_in_outcome(0, true), Err(SignInError::NotActivated));
    assert_eq!(sign_in_outcome(-1, true), Err(SignInError::Banned));
    assert_eq!(sign_in_outcome(11, true), Err(SignInError::SecurityProblem));
    assert_eq!(sign_in_outcome(-2, true), Err(SignInError::SecurityProblem));
    assert_eq!(SignInError::Banned.message_key(), "sign-in-banned");
    assert_eq!(SignInError::NotRegistered.message_key(), "sign-in-not-registration");
}

#[test]
fn signed_in_status() {
    let s = sign_status(String::from("bob"), String::from("tok"));
    assert!(s.sign_in);
    assert_eq!(s.username, "bob");
    assert_eq!(s.token, "tok");
    assert!(!sign_status(String::from(" - "), String::from("-")).sign_in);
    assert!(!sign_status(String::from(""), String::from("-")).sign_in);
}

#[test]
fn field_updates() {
    assert_eq!(project_field_update("status", "3"), Ok(FieldUpdate::SetStatus(3)));
    assert_eq!(project_field_update("status", "-1"), Ok(FieldUpdate::SetStatus(-1)));
    assert_eq!(project_field_update("status", "x"), Err(BadFieldValue));
    assert_eq!(project_field_update("status", "3000000000"), Err(BadFieldValue));
    assert_eq!(project_field_update("hits", "+5"), Ok(FieldUpdate::Increment(Counter::Hits, 5)));
    assert_eq!(
        project_field_update("applicants", "3000000000"),
        Ok(FieldUpdate::Increment(Counter::Applicants, 3000000000))
    );
    assert_eq!(project_field_update("hits", ""), Err(BadFieldValue));
    assert_eq!(project_field_update("name", "x"), Ok(FieldUpdate::NoChange));
    assert_eq!(user_field_update("status", "1"), Ok(FieldUpdate::SetStatus(1)));
    assert_eq!(user_field_update("hits", "1"), Ok(FieldUpdate::NoChange));
}

#[test]
fn showcase_positions() {
    assert_eq!(position_status_filter("managed"), StatusFilter::AtLeast(6));
    assert_eq!(position_status_filter(" recommended "), StatusFilter::AtLeast(2));
    assert_eq!(position_status_filter("published"), StatusFilter::AtLeast(1));
    assert_eq!(position_status_filter("other"), StatusFilter::NoConstraint);
    let f = position_filter(Some(Oid { value: 4 }), "published");
    assert!(matches!(f.scope, Scope::Owner(id) if id == Oid { value: 4 }));
    assert!(matches!(position_filter(None, "x").scope, Scope::All));
}

#[test]
fn wish_filters() {
    assert_eq!(wishes_published_filter(1), Some(true));
    assert_eq!(wishes_published_filter(-3), Some(false));
    assert_eq!(wishes_published_filter(0), None);
}

#[test]
fn lang_resources() {
    assert_eq!(get_lang_res("index"), vec!["common.lang", "home.lang"]);
    assert_eq!(get_lang_res("admin_admin-projects"), vec!["common.lang", "pagination.lang", "projects.lang"]);
    assert_eq!(get_lang_res("users_users-user-activate"), vec!["common.lang", "pagination.lang", "users.lang"]);
    assert!(get_lang_res("unknown").is_empty());
}

#[test]
fn default_page_is_first() {
    let p = Page::default();
    assert_eq!(p.from, 1);
    assert_eq!(p.first, "-");
    assert_eq!(p.last, "-");
}

#[test]
fn markdown_renders_to_html() {
    let p = Project {
        _id: Oid { value: 1 },
        user_id: Oid { value: 2 },
        category_id: Oid { value: 3 },
        subject: String::new(),
        content: String::from("# Title\n\n- [x] done"),
        contact_user: String::new(),
        contact_phone: String::new(),
        contact_email: String::new(),
        contact_im: String::new(),
        created_at: 0,
        updated_at: 0,
        hits: 0,
        insides: 0,
        stars: 0,
        language: String::new(),
        status: 1,
    };
    let html = p.content_html();
    assert!(html.contains("<h1>Title</h1>"));
    assert!(html.contains("checkbox"));
    let u = User {
        _id: Oid { value: 1 },
        username: String::new(),
        email: String::new(),
        cred: String::new(),
        nickname: String::new(),
        phone_number: String::new(),
        phone_public: false,
        im_account: String::new(),
        im_public: false,
        website: String::new(),
        introduction: String::from("~~old~~ *new*"),
        worker_quality: 0,
        boss_quality: 0,
        created_at: 0,
        updated_at: 0,
        status: 1,
    };
    let html = u.introduction_html();
    assert!(html.contains("<del>old</del>"));
    assert!(html.contains("<em>new</em>"));
}

#[test]
fn account_keys_ignore_case_and_space() {
    assert_eq!(gigs::account::account_key("  Alice@Example.COM "), "alice@example.com");
    assert_eq!(gigs::account::account_key("Bob"), "bob");
}
