use blog_pages::cache::pages::author::{load_author_articles_query, load_authors_result, LOAD_AUTHORS_QUERY};
use blog_pages::cache::pages::rss::{
    checked_filter_rss, checked_load_filtered_rss, checked_rss_output, filter_channel, filter_rss,
    load_filtered_rss, load_rss, selection_feedable, serve, serve_filter,
};
use blog_pages::cache::pages::tag::{load_tag_aids_query, load_tag_aids_result};
use blog_pages::cache::pages::{
    all_feedable, is_feedable, FIRST_RFC2822_SECS, LAST_RFC2822_SECS, create_rss_feed, custom_feed_channel, feed_item, main_feed_channel, rss_output, Article, DESC_LIMIT,
};

fn article(aid: u32, title: &str, userid: u32, tags: &[&str]) -> Article {
    Article {
        aid,
        title: title.to_string(),
        posted: 0,
        body: format!("Body of {}", title),
        tags: tags.iter().map(|t| t.to_string()).collect(),
        description: String::new(),
        userid,
        username: format!("user{}", userid),
    }
}

fn sample() -> Vec<Article> {
    vec![
        article(1, "Rust Tips", 1, &["rust", "tips"]),
        article(2, "JS Notes", 2, &["javascript"]),
        article(3, "More Rust", 2, &["rust"]),
    ]
}

#[test]
fn tag_aids_query_lowercases() {
    assert_eq!(
        load_tag_aids_query("Rust"),
        "SELECT aid FROM articles WHERE 'rust' = ANY(tag) ORDER BY modified DESC"
    );
}

#[test]
fn tag_aids_result() {
    assert_eq!(load_tag_aids_result(Some(vec![3, 1])), Some(vec![3, 1]));
    assert_eq!(load_tag_aids_result(Some(vec![])), None);
    assert_eq!(load_tag_aids_result(None), None);
}

#[test]
fn author_queries() {
    assert_eq!(
        load_author_articles_query(7),
        "SELECT aid FROM articles WHERE author = 7 ORDER BY modified DESC"
    );
    assert_eq!(LOAD_AUTHORS_QUERY, "SELECT userid FROM users");
    assert_eq!(load_authors_result(Some(vec![1, 2])), vec![1, 2]);
    assert_eq!(load_authors_result(None), Vec::<u32>::new());
}

#[test]
fn feed_item_fields() {
    let a = article(5, "Hello World", 9, &[]);
    let item = feed_item(&a);
    assert_eq!(item.title, "Hello World");
    assert_eq!(item.link, "/article/5/Hello%20World");
    assert_eq!(item.description, "Body of Hello World");
    assert_eq!(item.author, "user9");
    assert_eq!(item.pub_date.as_deref(), Some("Thu, 1 Jan 1970 00:00:00 +0000"));
}

#[test]
fn feed_item_prefers_description() {
    let mut a = article(5, "T", 9, &[]);
    a.description = "Short summary".to_string();
    assert_eq!(feed_item(&a).description, "Short summary");
}

#[test]
fn feed_item_cuts_long_body() {
    let mut a = article(5, "T", 9, &[]);
    a.body = "x".repeat(DESC_LIMIT + 50);
    assert_eq!(feed_item(&a).description, "x".repeat(200));
    a.body = "y".repeat(DESC_LIMIT);
    assert_eq!(feed_item(&a).description, "y".repeat(200));
}

#[test]
fn feed_item_date_out_of_range() {
    let mut a = article(5, "T", 9, &[]);
    a.posted = i64::MAX;
    assert!(!is_feedable(&a));
    a.posted = 1_000_000_000;
    assert!(is_feedable(&a));
    assert_eq!(feed_item(&a).pub_date.as_deref(), Some("Sun, 9 Sep 2001 01:46:40 +0000"));
}

#[test]
fn main_channel_fields() {
    let arts = sample();
    let ch = main_feed_channel(&arts);
    assert_eq!(ch.title, "Vishus Blog");
    assert_eq!(ch.link, "/");
    assert_eq!(ch.language, "en-us");
    assert_eq!(ch.copyright, "2018 Andrew Prindle");
    assert_eq!(ch.ttl, "720");
    assert_eq!(ch.search.link, "/search");
    assert_eq!(ch.search.name, "q");
    assert_eq!(ch.items.len(), 3);
    assert_eq!(ch.items[2].link, "/article/3/More%20Rust");
}

#[test]
fn custom_channel_titles() {
    let arts = sample();
    let t = "T".to_string();
    let l = "rss-x".to_string();
    let ch = custom_feed_channel(&arts, None, None, Some(&t), Some(&l));
    assert_eq!(ch.title, "Vishus Blog - T");
    assert_eq!(ch.link, "//rss-x");
    let ch = custom_feed_channel(&arts, None, None, None, None);
    assert_eq!(ch.title, "Vishus blog");
    assert_eq!(ch.link, "/");
}

#[test]
fn filter_by_tag() {
    let arts = sample();
    let tag = "Rust".to_string();
    let ch = filter_channel(&arts, Some(&tag), None, false).unwrap();
    assert_eq!(ch.title, "Vishus Blog - #Rust articles");
    assert_eq!(ch.link, "//rss-tag/Rust");
    let aids: Vec<String> = ch.items.iter().map(|i| i.title.clone()).collect();
    assert_eq!(aids, vec!["Rust Tips", "More Rust"]);
}

#[test]
fn filter_by_author() {
    let arts = sample();
    let ch = filter_channel(&arts, None, Some(2), false).unwrap();
    assert_eq!(ch.title, "Vishus Blog - Userid 2");
    assert_eq!(ch.link, "//rss-userid/2");
    assert_eq!(ch.items.len(), 2);
}

#[test]
fn filter_by_tag_and_author() {
    let arts = sample();
    let tag = "rust".to_string();
    let ch = filter_channel(&arts, Some(&tag), Some(2), false).unwrap();
    assert_eq!(ch.title, "Vishus Blog - Articles in #rust by userid 2");
    assert_eq!(ch.link, "//rss.xml");
    assert_eq!(ch.items.len(), 1);
    assert_eq!(ch.items[0].title, "More Rust");
}

#[test]
fn filter_without_filters_keeps_all() {
    let arts = sample();
    let ch = filter_channel(&arts, None, None, false).unwrap();
    assert_eq!(ch.title, "Vishus blog");
    assert_eq!(ch.items.len(), 3);
}

#[test]
fn filter_with_no_match() {
    let arts = sample();
    let tag = "go".to_string();
    assert!(filter_channel(&arts, Some(&tag), None, false).is_none());
    assert!(filter_rss(Some(&arts), Some(&tag), None, false).is_none());
    assert!(filter_rss(None, None, Some(1), false).is_none());
}

#[test]
fn filter_rss_document() {
    let arts = sample();
    let tag = "Rust".to_string();
    let doc = filter_rss(Some(&arts), Some(&tag), None, false).unwrap();
    assert!(doc.starts_with("<?xml version=\"1.0\"?>"));
    assert!(doc.contains("<title>Vishus Blog - #Rust articles</title>"));
    assert!(doc.contains("<link>/article/1/Rust%20Tips</link>"));
    assert!(!doc.contains("JS Notes"));
}

#[test]
fn feed_documents() {
    let arts = sample();
    let doc = rss_output(sample());
    assert!(doc.starts_with("<?xml version=\"1.0\"?>"));
    assert!(doc.contains("<rss version=\"2.0\""));
    assert!(doc.contains("<title>Vishus Blog</title>"));
    assert!(doc.contains("JS Notes"));
    assert!(doc.contains("<ttl>720</ttl>"));
    let custom = create_rss_feed(sample(), None, None);
    assert!(custom.contains("<title>Vishus blog</title>"));
    assert_eq!(load_rss(None), "Could not create RSS feed.");
    assert!(load_rss(Some(sample())).starts_with("<?xml version=\"1.0\"?>"));
}

#[test]
fn filtered_feed_keys() {
    let arts = sample();
    let feeds = load_filtered_rss(
        Some(&arts),
        &vec![1, 2, 3],
        &vec!["Rust".to_string(), "go".to_string(), "javascript".to_string()],
    )
    .unwrap();
    let keys: Vec<&str> = feeds.iter().map(|(k, _)| k.as_str()).collect();
    assert_eq!(keys, vec!["rss-author/1", "rss-author/2", "rss-tag/rust", "rss-tag/javascript"]);
    for (_, feed) in feeds.iter() {
        assert!(feed.starts_with("<?xml version=\"1.0\"?>"));
    }
    assert!(load_filtered_rss(Some(&arts), &vec![9], &vec![]).is_none());
    assert!(load_filtered_rss(None, &vec![1], &vec![]).is_none());
}

#[test]
fn rss_responses() {
    let r = serve(Some("<rss/>".to_string())).respond_with(b"<rss/>".to_vec());
    assert_eq!(r.content_type, "text/xml; charset=utf-8");
    let e = serve(None);
    assert_eq!(e.memory_contents(), Some(b"Could not load RSS feed.".to_vec()));
    let f = serve_filter(None);
    assert_eq!(f.memory_contents(), Some(b"No rss feed found for specified filter(s).".to_vec()));
    assert_eq!(f.respond_with(Vec::new()).content_type, "text/html; charset=utf-8");
    let g = serve_filter(Some("<rss/>".to_string()));
    assert_eq!(g.respond_with(Vec::new()).content_type, "text/xml; charset=utf-8");
}

#[test]
fn filtered_feed_is_feed_of_selected_articles() {
    let arts = sample();
    let tag = "Rust".to_string();
    let filtered = filter_rss(Some(&arts), Some(&tag), None, false).unwrap();
    let title = "#Rust articles".to_string();
    let link = "rss-tag/Rust".to_string();
    let selected = vec![article(1, "Rust Tips", 1, &["rust", "tips"]), article(3, "More Rust", 2, &["rust"])];
    assert_eq!(filtered, create_rss_feed(selected, Some(&title), Some(&link)));
    let by_author = filter_rss(Some(&arts), None, Some(1), false).unwrap();
    let title = "Userid 1".to_string();
    let link = "rss-userid/1".to_string();
    assert_eq!(by_author, create_rss_feed(vec![article(1, "Rust Tips", 1, &["rust", "tips"])], Some(&title), Some(&link)));
}

#[test]
fn main_feed_is_unfiltered_feed() {
    assert_eq!(load_rss(Some(sample())), rss_output(sample()));
    let doc = rss_output(sample());
    assert!(doc.contains("<guid>/article/2/JS%20Notes</guid>"));
    assert!(doc.contains("<pubDate>Thu, 1 Jan 1970 00:00:00 +0000</pubDate>"));
    assert!(doc.contains("<textInput><title>Search</title>"));
}

#[test]
fn short_clone_keeps_what_a_feed_shows() {
    let mut long = article(4, "Long", 1, &["rust"]);
    long.body = "x".repeat(300);
    let short = long.short_clone();
    assert_eq!(short.body, "x".repeat(DESC_LIMIT));
    assert_eq!(short.aid, 4);
    assert_eq!(short.title, "Long");
    assert_eq!(short.tags, vec!["rust".to_string()]);
    assert_eq!(short.username, "user1");
    let mut described = article(5, "Described", 2, &[]);
    described.description = "About it".to_string();
    let short = described.short_clone();
    assert_eq!(short.body, "");
    assert_eq!(short.description, "About it");
    let plain = article(6, "Plain", 3, &[]);
    assert_eq!(plain.short_clone().body, "Body of Plain");
    assert_eq!(feed_item(&long.short_clone()).description, feed_item(&long).description);
}

#[test]
fn short_description_feeds_match_full_feeds() {
    let mut arts = sample();
    arts[0].body = "y".repeat(500);
    arts[2].description = "Described".to_string();
    let tag = "Rust".to_string();
    let full = filter_rss(Some(&arts), Some(&tag), None, false).unwrap();
    let short = filter_rss(Some(&arts), Some(&tag), None, true).unwrap();
    assert_eq!(full, short);
    assert!(full.contains(&"y".repeat(200)));
    assert!(!full.contains(&"y".repeat(201)));
    let by_author_full = filter_rss(Some(&arts), None, Some(2), false).unwrap();
    let by_author_short = filter_rss(Some(&arts), None, Some(2), true).unwrap();
    assert_eq!(by_author_full, by_author_short);
    assert!(filter_rss(Some(&arts), Some(&"go".to_string()), None, true).is_none());
    let feeds = load_filtered_rss(Some(&arts), &vec![1], &vec![]).unwrap();
    assert_eq!(feeds[0].1, filter_rss(Some(&arts), None, Some(1), false).unwrap());
}

#[test]
fn publication_dates_within_rfc2822_years() {
    let mut a = article(7, "Dated", 1, &[]);
    a.posted = 0;
    assert_eq!(feed_item(&a).pub_date.as_deref(), Some("Thu, 1 Jan 1970 00:00:00 +0000"));
    a.posted = LAST_RFC2822_SECS;
    assert_eq!(feed_item(&a).pub_date.as_deref(), Some("Fri, 31 Dec 9999 23:59:59 +0000"));
    a.posted = FIRST_RFC2822_SECS;
    assert!(feed_item(&a).pub_date.is_some());
    a.posted = LAST_RFC2822_SECS + 1;
    assert!(!is_feedable(&a));
    a.posted = FIRST_RFC2822_SECS - 1;
    assert!(!is_feedable(&a));
}

#[test]
fn feedability_checks() {
    let mut a = article(8, "Cut", 1, &["rust"]);
    assert!(is_feedable(&a));
    a.body = format!("{}é{}", "x".repeat(199), "y".repeat(50));
    assert!(!is_feedable(&a));
    a.description = "Given".to_string();
    assert!(is_feedable(&a));
    a.description = String::new();
    let mut arts = sample();
    assert!(all_feedable(&arts));
    assert!(checked_rss_output(sample()).is_some());
    assert_eq!(checked_rss_output(sample()), Some(rss_output(sample())));
    arts.push(a);
    assert!(!all_feedable(&arts));
    let mut bad = sample();
    bad.push(article(9, "Late", 1, &["rust"]));
    bad[3].posted = LAST_RFC2822_SECS + 1;
    assert_eq!(checked_rss_output(bad), None);
    let rust = "Rust".to_string();
    let js = "javascript".to_string();
    assert!(!selection_feedable(&arts, Some(&rust), None));
    assert!(selection_feedable(&arts, Some(&js), None));
    assert_eq!(checked_filter_rss(Some(&arts), Some(&rust), None, true), None);
    assert_eq!(
        checked_filter_rss(Some(&arts), Some(&js), None, false),
        filter_rss(Some(&arts), Some(&js), None, false)
    );
    assert!(checked_filter_rss(Some(&arts), Some(&js), None, false).is_some());
    assert_eq!(checked_load_filtered_rss(Some(&arts), &vec![1], &vec![]), None);
    let good = sample();
    assert_eq!(
        checked_load_filtered_rss(Some(&good), &vec![1], &vec![]),
        load_filtered_rss(Some(&good), &vec![1], &vec![])
    );
}
