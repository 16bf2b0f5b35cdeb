use blog_pages::cache::pages::tag::load_tag_aids_query;
use blog_pages::cache::pages::{feed_item, Article};
use blog_pages::text::{chars_of, decimal_string, parse_unsigned_in, push_decimal};

#[test]
fn decimal_notation() {
    assert_eq!(decimal_string(0), "0");
    assert_eq!(decimal_string(7), "7");
    assert_eq!(decimal_string(10), "10");
    assert_eq!(decimal_string(1234567890), "1234567890");
    assert_eq!(decimal_string(u64::MAX), u64::MAX.to_string());
    for n in 0u64..2000 {
        assert_eq!(decimal_string(n), n.to_string());
    }
}

#[test]
fn push_decimal_appends() {
    let mut s = String::from("n=");
    push_decimal(&mut s, 42);
    assert_eq!(s, "n=42");
}

#[test]
fn chars_in_order() {
    assert_eq!(chars_of("héllo"), vec!['h', 'é', 'l', 'l', 'o']);
    assert_eq!(chars_of(""), Vec::<char>::new());
}

#[test]
fn parse_bounded_values() {
    let c = chars_of("x=+255;256;12a;;0042");
    assert_eq!(parse_unsigned_in(&c, 2, 6, 255), Some(255));
    assert_eq!(parse_unsigned_in(&c, 7, 10, 255), None);
    assert_eq!(parse_unsigned_in(&c, 7, 10, 1000), Some(256));
    assert_eq!(parse_unsigned_in(&c, 11, 14, 1000), None);
    assert_eq!(parse_unsigned_in(&c, 15, 15, 1000), None);
    assert_eq!(parse_unsigned_in(&c, 16, 20, 1000), Some(42));
    assert_eq!(parse_unsigned_in(&c, 2, 3, 1000), None);
}

#[test]
fn lowercase_text() {
    assert_eq!(
        load_tag_aids_query("RUST-Lang"),
        "SELECT aid FROM articles WHERE 'rust-lang' = ANY(tag) ORDER BY modified DESC"
    );
    assert_eq!(
        load_tag_aids_query("ÀÉ"),
        "SELECT aid FROM articles WHERE 'àé' = ANY(tag) ORDER BY modified DESC"
    );
}

fn link_of(title: &str) -> String {
    let a = Article {
        aid: 1,
        title: title.to_string(),
        posted: 0,
        body: String::new(),
        tags: Vec::new(),
        description: String::new(),
        userid: 1,
        username: String::new(),
    };
    feed_item(&a).link
}

#[test]
fn url_encoding() {
    assert_eq!(link_of("Hello World!"), "/article/1/Hello%20World%21");
    assert_eq!(link_of("a-b_c.d~e"), "/article/1/a-b_c.d~e");
    assert_eq!(link_of("é/?"), "/article/1/%C3%A9%2F%3F");
    assert_eq!(link_of(""), "/article/1/");
}
