use blog_pages::cache::pages::Article;
use blog_pages::pages::{
    hbs_article_view, hbs_articles_tag, hbs_create_form, ArticleBody, CreatePage,
    article_not_found, hbs_all_articles, hbs_all_articles_notice, hbs_index, hbs_index_notice,
    hbs_input_sanitize, hbs_logout, hbs_medium_sanitize, hbs_strict_sanitize, ListingBody, login_fail_url, Logout, LOGOUT_MESSAGE, LOGOUT_REDIRECT, NOT_LOGGED_IN_REDIRECT,
};

#[test]
fn login_failure_redirects() {
    assert_eq!(login_fail_url("/admin", "bob", "bad password"), "/admin?user=bob&msg=bad password");
    assert_eq!(login_fail_url("/user", "bob", " "), "/user");
    assert_eq!(login_fail_url("/user", "bob", ""), "/user");
    assert_eq!(login_fail_url("/user", "", "  "), "/user?user=&msg=  ");
}

#[test]
fn logout_outcomes() {
    assert_eq!(hbs_logout(true, false), Logout::LoggedOut { remove_admin: true, remove_user: false });
    assert_eq!(hbs_logout(false, true), Logout::LoggedOut { remove_admin: false, remove_user: true });
    assert_eq!(hbs_logout(true, true), Logout::LoggedOut { remove_admin: true, remove_user: true });
    assert_eq!(hbs_logout(false, false), Logout::NotLoggedIn);
    assert_eq!(LOGOUT_REDIRECT, "/");
    assert_eq!(LOGOUT_MESSAGE, "Successfully logged out.");
    assert_eq!(NOT_LOGGED_IN_REDIRECT, "/admin");
}

#[test]
fn notices() {
    assert_eq!(hbs_all_articles_notice(false), "There are no articles.");
    assert!(hbs_all_articles_notice(true).starts_with("There are no articles<br>"));
    assert!(hbs_index_notice(true).starts_with("There are no articles.<br>"));
    assert_eq!(article_not_found(12), "Article 12 not found.");
}

#[test]
fn input_sanitize_escapes_html() {
    assert_eq!(hbs_input_sanitize("<b>x</b>".to_string()), "&lt;b&gt;x&lt;/b&gt;");
    assert_eq!(
        hbs_input_sanitize("Tom & \"Jerry\" 'n' co".to_string()),
        "Tom &amp; &quot;Jerry&quot; &#x27;n&#x27; co"
    );
    assert_eq!(hbs_input_sanitize("plain text é".to_string()), "plain text é");
    assert_eq!(hbs_input_sanitize(String::new()), "");
}

#[test]
fn strict_sanitize_keeps_word_characters() {
    assert_eq!(hbs_strict_sanitize("a b".to_string()), "ab");
    assert_eq!(hbs_strict_sanitize("user_1; DROP--".to_string()), "user_1DROP");
    assert_eq!(hbs_strict_sanitize("héllo-wörld!".to_string()), "héllowörld");
    assert_eq!(hbs_strict_sanitize("<>&\"'".to_string()), "");
}

#[test]
fn medium_sanitize_keeps_spaces_commas_hyphens_underscores() {
    assert_eq!(hbs_medium_sanitize("a b, c-d_e!".to_string()), "a b, c-d_e");
    assert_eq!(hbs_medium_sanitize("<script>alert(1)</script>".to_string()), "scriptalert1script");
    assert_eq!(hbs_medium_sanitize("tab\there".to_string()), "tabhere");
}

#[test]
fn listing_pages_list_or_notice() {
    let page = hbs_all_articles(vec![1, 2], false);
    assert_eq!(page.title.as_deref(), Some("Viewing All Articles"));
    assert!(matches!(page.body, ListingBody::Articles(ref v) if v == &vec![1, 2]));
    let page = hbs_all_articles(Vec::<u32>::new(), true);
    assert_eq!(page.title.as_deref(), Some("Viewing All Articles"));
    assert!(matches!(page.body, ListingBody::General(ref m) if m == &hbs_all_articles_notice(true)));
    let page = hbs_index(vec![3], true);
    assert_eq!(page.title.as_deref(), Some(""));
    assert!(matches!(page.body, ListingBody::Articles(ref v) if v == &vec![3]));
    let page = hbs_index(Vec::<u32>::new(), false);
    assert_eq!(page.title, None);
    assert!(matches!(page.body, ListingBody::General(ref m) if m == "There are no articles."));
}

#[test]
fn tag_page_lists_or_alerts() {
    let page = hbs_articles_tag("rust", vec![1u32, 2]);
    assert_eq!(page.title.as_deref(), Some("Viewing Articles with Tags: rust"));
    assert!(matches!(page.body, ListingBody::Articles(ref v) if v == &vec![1, 2]));
    let page = hbs_articles_tag("go", Vec::<u32>::new());
    assert_eq!(page.title, None);
    assert!(matches!(page.body,
        ListingBody::General(ref m) if m == "Could not find any articles with the specified tag."));
}

#[test]
fn article_view_title() {
    let a = Article {
        aid: 3,
        title: "Hello".to_string(),
        posted: 0,
        body: "b".to_string(),
        tags: vec![],
        description: String::new(),
        userid: 1,
        username: "u".to_string(),
    };
    let page = hbs_article_view(3, Some(a));
    assert_eq!(page.title, "Hello");
    assert!(matches!(page.body, ArticleBody::Article(ref x) if x.aid == 3 && x.title == "Hello"));
    let page = hbs_article_view(42, None);
    assert_eq!(page.title, "Article Not Found");
    assert!(matches!(page.body, ArticleBody::General(ref m) if m == "Article 42 not found."));
}

#[test]
fn create_form_needs_user() {
    assert_eq!(hbs_create_form(true), CreatePage::Form);
    assert_eq!(hbs_create_form(false), CreatePage::NotAuthorized);
}
