use blog_pages::collate::{link, link_active, Collate, Page, Pagination};

fn page(cur_page: u32, route: &str, ipp: u8) -> Page<Pagination> {
    Page { cur_page, route: route.to_string(), settings: Pagination { ipp } }
}

fn a(url: &str, text: &str) -> String {
    format!(" <a href=\"{}\">{}</a> ", url, text)
}

fn active(url: &str, text: &str) -> String {
    format!(" <a href=\"{}\" class=\"active\">[{}]</a> ", url, text)
}

#[test]
fn start_is_first_item_of_page() {
    // 5 items per page, page 3: items 10 to 14
    let p = page(3, "/", 5);
    assert_eq!(p.start(), 10);
    assert_eq!(p.end(), 14);
}

#[test]
fn first_page_starts_at_zero() {
    let p = page(1, "/", 10);
    assert_eq!(p.start(), 0);
    assert_eq!(p.end(), 9);
}

#[test]
fn page_span_holds_ipp_items() {
    for ipp in 1u8..=50 {
        for cur in 1u32..=40 {
            let p = page(cur, "/", ipp);
            assert_eq!(p.end() - p.start() + 1, ipp as u32);
            let next = page(cur + 1, "/", ipp);
            assert_eq!(p.end() + 1, next.start());
        }
    }
}

#[test]
fn num_pages_rounds_up() {
    let p = page(1, "/", 10);
    assert_eq!(p.num_pages(0), 0);
    assert_eq!(p.num_pages(1), 1);
    assert_eq!(p.num_pages(10), 1);
    assert_eq!(p.num_pages(11), 2);
    assert_eq!(p.num_pages(25), 3);
    let one = page(1, "/", 1);
    assert_eq!(one.num_pages(u32::MAX), u32::MAX);
}

#[test]
fn page_count_covers_all_items() {
    for ipp in 1u8..=20 {
        let p = page(1, "/", ipp);
        for total in 0u32..300 {
            let n = p.num_pages(total);
            assert!(total <= n * ipp as u32);
            if total > 0 {
                assert!((n - 1) * (ipp as u32) < total);
            } else {
                assert_eq!(n, 0);
            }
        }
    }
}

#[test]
fn sql_with_order() {
    let p = page(2, "/", 10);
    assert_eq!(
        p.sql("SELECT * FROM articles", Some("posted DESC")),
        "SELECT * FROM articles ORDER BY posted DESC LIMIT 10 OFFSET 10"
    );
}

#[test]
fn sql_without_order() {
    let p = page(3, "/", 5);
    assert_eq!(p.sql("SELECT * FROM articles", None), "SELECT * FROM articles LIMIT 5 OFFSET 10");
}

#[test]
fn page_data_clamps_page() {
    assert_eq!(page(2, "/", 10).page_data(45), (10, 2, 5));
    assert_eq!(page(9, "/", 10).page_data(45), (10, 5, 5));
    assert_eq!(page(0, "/", 10).page_data(45), (10, 1, 5));
    assert_eq!(page(3, "/", 10).page_data(0), (10, 0, 0));
}

#[test]
fn shown_page_is_a_page() {
    for total in 1u32..120 {
        for cur in 0u32..20 {
            let (_, shown, pages) = page(cur, "/", 7).page_data(total);
            assert!(1 <= shown && shown <= pages);
            if 1 <= cur && cur <= pages {
                assert_eq!(shown, cur);
            }
        }
    }
}

#[test]
fn page_info_text() {
    assert_eq!(
        page(2, "/", 10).page_info(45),
        "Showing page 2 of 5 &nbsp; - &nbsp; 45 items found."
    );
    assert_eq!(
        page(12, "/", 10).page_info(45),
        "Showing page 5 of 5 &nbsp; - &nbsp; 45 items found."
    );
}

#[test]
fn collate_link_query() {
    assert_eq!(Pagination::link(&page(1, "/articles", 10), 3), "/articles?page=3");
    assert_eq!(Pagination::link(&page(1, "/articles", 20), 3), "/articles?page=3&ipp=20");
    assert_eq!(Pagination::link(&page(1, "/articles", 20), 1), "/articles?ipp=20");
    assert_eq!(Pagination::link(&page(1, "/articles", 10), 1), "/articles");
    assert_eq!(Pagination::link(&page(1, "/articles", 10), 0), "/articles");
}

#[test]
fn anchors() {
    let p = page(1, "/tag/rust", 10);
    assert_eq!(link(&p, 4, "4"), a("/tag/rust?page=4", "4"));
    assert_eq!(link_active(&p, 4, "4"), active("/tag/rust?page=4", "4"));
}

#[test]
fn pagination_settings() {
    assert_eq!(Pagination::default_ipp(), 10);
    assert_eq!(Pagination::rel_links(), 3);
    assert_eq!(Pagination::abs_links(), 3);
    assert_eq!(Pagination::links_padding(), 4);
    assert_eq!(Pagination::min_ipp(), 5);
    assert_eq!(Pagination::max_ipp(), 50);
    assert_eq!(Pagination::current_link(), "v-collate-cur");
    assert_eq!(Pagination::link_base(), "/");
    assert_eq!(Pagination::new(7).ipp(), 7);
}

#[test]
fn check_ipp_clamps() {
    assert_eq!(Pagination::check_ipp(3), 5);
    assert_eq!(Pagination::check_ipp(60), 50);
    assert_eq!(Pagination::check_ipp(20), 20);
    for ipp in 0u8..=255 {
        let once = Pagination::check_ipp(ipp);
        assert!(5 <= once && once <= 50);
        assert_eq!(Pagination::check_ipp(once), once);
    }
}

#[test]
fn parse_uri_reads_page_and_ipp() {
    let p = Pagination::parse_uri("page=3&ipp=20", "/articles".to_string());
    assert_eq!(p.cur_page, 3);
    assert_eq!(p.settings.ipp, 20);
    assert_eq!(p.route, "/articles");
}

#[test]
fn parse_uri_defaults() {
    let p = Pagination::parse_uri("", "/".to_string());
    assert_eq!((p.cur_page, p.settings.ipp), (1, 10));
    let p = Pagination::parse_uri("foo=bar&page", "/".to_string());
    assert_eq!((p.cur_page, p.settings.ipp), (1, 10));
}

#[test]
fn parse_uri_bad_values() {
    let p = Pagination::parse_uri("page=x&ipp=abc", "/".to_string());
    assert_eq!((p.cur_page, p.settings.ipp), (1, 10));
    let p = Pagination::parse_uri("page=&ipp=", "/".to_string());
    assert_eq!((p.cur_page, p.settings.ipp), (1, 10));
    let p = Pagination::parse_uri("page=99999999999&ipp=300", "/".to_string());
    assert_eq!((p.cur_page, p.settings.ipp), (1, 10));
    let p = Pagination::parse_uri("page=-3&ipp=-1", "/".to_string());
    assert_eq!((p.cur_page, p.settings.ipp), (1, 10));
    let p = Pagination::parse_uri("page=3=4", "/".to_string());
    assert_eq!(p.cur_page, 1);
}

#[test]
fn parse_uri_edge_values() {
    let p = Pagination::parse_uri("page=+4&ipp=255", "/".to_string());
    assert_eq!((p.cur_page, p.settings.ipp), (4, 255));
    let p = Pagination::parse_uri("page=4294967295&ipp=0", "/".to_string());
    assert_eq!((p.cur_page, p.settings.ipp), (4294967295, 0));
    let p = Pagination::parse_uri("page=007", "/".to_string());
    assert_eq!(p.cur_page, 7);
}

#[test]
fn parse_uri_last_mention_wins() {
    let p = Pagination::parse_uri("page=2&ipp=15&foo=1&page=5", "/".to_string());
    assert_eq!((p.cur_page, p.settings.ipp), (5, 15));
    let p = Pagination::parse_uri("page=2&&page=x", "/".to_string());
    assert_eq!(p.cur_page, 1);
}

#[test]
fn parse_uri_agrees_with_std_parse() {
    let values = ["0", "1", "+1", "-1", "+", "", " 1", "1 ", "255", "256", "4294967295", "4294967296", "12a", "٣"];
    for v in values.iter() {
        let p = Pagination::parse_uri(&format!("page={}&ipp={}", v, v), "/".to_string());
        assert_eq!(p.cur_page, v.parse::<u32>().unwrap_or(1));
        assert_eq!(p.settings.ipp, v.parse::<u8>().unwrap_or(10));
    }
}

#[test]
fn from_uri_without_query() {
    let p: Page<Pagination> = Page::from_uri("/articles".to_string(), None);
    assert_eq!((p.cur_page, p.settings.ipp), (1, 10));
    assert_eq!(p.route, "/articles");
    let q: Page<Pagination> = Page::from_uri("/articles".to_string(), Some(""));
    assert_eq!((q.cur_page, q.settings.ipp), (1, 10));
}

#[test]
fn link_reads_back() {
    for ipp in [5u8, 10, 20, 255, 0].iter() {
        for n in 1u32..60 {
            let p = page(1, "/articles", *ipp);
            let url = Pagination::link(&p, n);
            let (route, query) = match url.find('?') {
                Some(i) => (url[..i].to_string(), Some(url[i + 1..].to_string())),
                None => (url.clone(), None),
            };
            let back: Page<Pagination> = Page::from_uri(route.clone(), query.as_deref());
            assert_eq!(back.route, "/articles");
            assert_eq!(back.cur_page, n);
            assert_eq!(back.settings.ipp, *ipp);
        }
    }
}

#[test]
fn navigation_few_pages() {
    let p = page(2, "/a", 10);
    let expected = String::new()
        + "<div class=\"v-collate row\">"
        + "<div class=\"v-collate-prevnext col-2\">"
        + &a("/a", "[Previous]")
        + "</div>"
        + "<div class=\"v-collate-left col-3\">"
        + &a("/a", "1")
        + "</div>"
        + "<div class=\"v-collate-cur\">"
        + &active("/a?page=2", "2")
        + "</div>"
        + "<div class=\"v-collate-right col-3\">"
        + &a("/a?page=3", "3")
        + "</div>"
        + "<div class=\"v-collate-prevnext col-2\">"
        + &a("/a?page=3", "[Next]")
        + "</div>"
        + "</div>";
    assert_eq!(p.navigation(25), expected);
}

#[test]
fn navigation_single_page() {
    let p = page(1, "/a", 10);
    let expected = String::new()
        + "<div class=\"v-collate row\">"
        + "<div class=\"v-collate-prevnext col-2\">"
        + "</div>"
        + "<div class=\"v-collate-left col-3\">"
        + "</div>"
        + "<div class=\"v-collate-cur\">"
        + &active("/a", "1")
        + "</div>"
        + "<div class=\"v-collate-right col-3\">"
        + "</div>"
        + "<div class=\"v-collate-prevnext col-2\">"
        + "</div>"
        + "</div>";
    assert_eq!(p.navigation(3), expected);
}

#[test]
fn navigation_many_pages_has_gaps() {
    let p = page(15, "/a", 10);
    let nums = |r: std::ops::Range<u32>| -> String {
        r.map(|n| if n == 1 { a("/a", "1") } else { a(&format!("/a?page={}", n), &n.to_string()) })
            .collect()
    };
    let expected = String::new()
        + "<div class=\"v-collate row\">"
        + "<div class=\"v-collate-prevnext col-2\">"
        + &a("/a?page=14", "[Previous]")
        + "</div>"
        + "<div class=\"v-collate-left col-3\">"
        + &nums(1..4)
        + " ... "
        + &nums(12..15)
        + "</div>"
        + "<div class=\"v-collate-cur\">"
        + &active("/a?page=15", "15")
        + "</div>"
        + "<div class=\"v-collate-right col-3\">"
        + &nums(16..19)
        + " ... "
        + &nums(28..31)
        + "</div>"
        + "<div class=\"v-collate-prevnext col-2\">"
        + &a("/a?page=16", "[Next]")
        + "</div>"
        + "</div>";
    assert_eq!(p.navigation(300), expected);
}

#[test]
fn navigation_padding_keeps_short_sides_whole() {
    let nums = |r: std::ops::Range<u32>| -> String {
        r.map(|n| if n == 1 { a("/a", "1") } else { a(&format!("/a?page={}", n), &n.to_string()) })
            .collect()
    };
    let html = page(7, "/a", 10).navigation(200);
    let left = String::new() + "<div class=\"v-collate-left col-3\">" + &nums(1..7) + "</div>";
    assert!(html.contains(&left));
    let right = String::new() + "<div class=\"v-collate-right col-3\">" + &nums(8..11) + " ... "
        + &nums(18..21) + "</div>";
    assert!(html.contains(&right));
    let html = page(11, "/a", 10).navigation(210);
    let left = String::new() + "<div class=\"v-collate-left col-3\">" + &nums(1..11) + "</div>";
    let right = String::new() + "<div class=\"v-collate-right col-3\">" + &nums(12..22) + "</div>";
    assert!(html.contains(&left));
    assert!(html.contains(&right));
    assert!(!html.contains(" ... "));
}

#[test]
fn navigation_past_last_page_shows_last() {
    let p = page(40, "/a", 20);
    let html = p.navigation(100);
    assert!(html.contains(&active("/a?page=5&ipp=20", "5")));
    assert!(!html.contains("[Next]"));
    assert!(html.contains(&a("/a?page=4&ipp=20", "[Previous]")));
}

/// The page numbers that the numbered anchors of a navigation bar read, in order.
fn linked_numbers(html: &str) -> Vec<u32> {
    let mut out = Vec::new();
    for piece in html.split("\">").skip(1) {
        if let Some(end) = piece.find("</a>") {
            if let Ok(n) = piece[..end].parse::<u32>() {
                out.push(n);
            }
        }
    }
    out
}

#[test]
fn navigation_links_each_page_once_in_order() {
    for total in 1u32..=400 {
        let pages = (total + 9) / 10;
        for cur in 1..=pages {
            let html = page(cur, "/a", 10).navigation(total);
            let nums = linked_numbers(&html);
            for w in nums.windows(2) {
                assert!(w[0] < w[1], "total {} cur {}: {:?}", total, cur, nums);
            }
            assert!(nums.iter().all(|n| 1 <= *n && *n <= pages));
            assert!(!nums.contains(&cur));
            let left_cut = cur - 1 > 10;
            let right_cut = pages - cur > 10;
            let gaps = html.matches(" ... ").count();
            assert_eq!(gaps, left_cut as usize + right_cut as usize);
            let shown_left = if left_cut { 6 } else { cur - 1 };
            let shown_right = if right_cut { 6 } else { pages - cur };
            assert_eq!(nums.len() as u32, shown_left + shown_right);
            assert!(html.contains(&active(&Pagination::link(&page(1, "/a", 10), cur), &cur.to_string())));
        }
    }
}
