use blog_pages::cache::pages::{article, articles, author, tag, tags, Article, PageContext};

fn found<T>(r: PageContext<T>) -> (Option<String>, String, T) {
    match r {
        PageContext::Found { custom_title, page, body } => (custom_title, page, body),
        PageContext::Failed { .. } => panic!("expected a page"),
    }
}

fn failed<T>(r: PageContext<T>) -> (String, String, String) {
    match r {
        PageContext::Failed { title, page, message } => (title, page, message),
        PageContext::Found { .. } => panic!("expected a notice"),
    }
}

fn an_article(aid: u32, title: &str) -> Article {
    Article {
        aid,
        title: title.to_string(),
        posted: 0,
        body: String::new(),
        tags: Vec::new(),
        description: String::new(),
        userid: 1,
        username: "u".to_string(),
    }
}

#[test]
fn articles_from_cache_skip_fallback() {
    let r = articles::context(Some(vec![1u32, 2]), || -> Option<Vec<u32>> { panic!("fallback called") });
    assert_eq!(found(r), (None, "/".to_string(), vec![1, 2]));
}

#[test]
fn articles_from_fallback() {
    let r = articles::context(None, || Some(vec![3u32]));
    assert_eq!(found(r), (None, "/".to_string(), vec![3]));
    let r = articles::context(None, || -> Option<Vec<u32>> { None });
    assert_eq!(
        failed(r),
        ("No articles found".to_string(), "/".to_string(), "No articles found.".to_string())
    );
}

#[test]
fn article_page_titles() {
    let r = article::context(7, Some(an_article(7, "Seven")), || panic!("fallback called"));
    let (title, page, body) = found(r);
    assert_eq!(title.as_deref(), Some("Seven"));
    assert_eq!(page, "/article");
    assert_eq!(body.aid, 7);
    let r = article::context(8, None, || Some(an_article(8, "Eight")));
    assert_eq!(found(r).0.as_deref(), Some("Eight"));
    let r = article::context(9, None, || None);
    assert_eq!(
        failed(r),
        (
            "Article 9 not found".to_string(),
            "/article".to_string(),
            "The article could not be found.".to_string()
        )
    );
}

#[test]
fn tag_page_sources() {
    let r = tag::context("rust", true, true, || Some(1u8), || -> Option<u8> { panic!("fallback called") });
    assert_eq!(found(r), (Some("Showing articles with tag 'rust'".to_string()), "/tag".to_string(), 1));
    let r = tag::context("rust", false, true, || -> Option<u8> { panic!("cache called") }, || Some(2u8));
    assert_eq!(found(r).2, 2);
    let r = tag::context("go", true, false, || -> Option<u8> { None }, || -> Option<u8> { None });
    assert_eq!(
        failed(r),
        (
            "No articles to display for tag 'go'".to_string(),
            "/tag".to_string(),
            "No artiles displayed for tag go".to_string()
        )
    );
    let r = tag::context("x", false, false, || -> Option<u8> { panic!() }, || -> Option<u8> { panic!() });
    assert_eq!(
        failed(r),
        ("Error".to_string(), "/tag".to_string(), "Error retrieving articles.".to_string())
    );
}

#[test]
fn tag_cloud_and_author_pages() {
    assert_eq!(found(tags::context(Some(5u8))), (Some("Tag Cloud".to_string()), "/all_tags".to_string(), 5));
    assert_eq!(
        failed(tags::context::<u8>(None)),
        ("Error".to_string(), "/all_tags".to_string(), "Error retrieving tags".to_string())
    );
    assert_eq!(found(author::context(Some(1u8))).0.as_deref(), Some("Showing articles by author"));
    assert_eq!(
        failed(author::context::<u8>(None)),
        (
            "No articles to display".to_string(),
            "/author".to_string(),
            "No articles found for specified author.".to_string()
        )
    );
}
