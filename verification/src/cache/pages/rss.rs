//! The RSS feeds: the main feed and the feeds filtered by tag or author.
use vstd::prelude::*;
use crate::cache::pages::{
    article_selected, articles_feed, item_of, custom_channel_link, custom_channel_title, custom_feed_channel,
    all_feedable, article_matches, channel_of, feedable, is_feedable, law_short_clone_same_entry, lemma_channel_document, lemma_feed_opens_with_prolog,
    lemma_select_all, render_feed, rss_output, selected_articles, short_selection, xml_prolog, Article,
    FeedChannel,
};
use crate::collate::BLOG_URL;
use crate::text::{decimal, lowercase, push_decimal, to_lowercase};
use crate::xpress::{lemma_from_string, ContentType, DataString, ExData, Express};

verus! {

/// The custom title of the feed filtered by `tag` and `author`.
pub open spec fn filter_title(tag: Option<Seq<char>>, author: Option<u32>) -> Option<Seq<char>> {
    match (tag, author) {
        (Some(t), Some(u)) => Some("Articles in #"@ + t + " by userid "@ + decimal(u as nat)),
        (Some(t), None) => Some("#"@ + t + " articles"@),
        (None, Some(u)) => Some("Userid "@ + decimal(u as nat)),
        (None, None) => None,
    }
}

/// The custom link of the feed filtered by `tag` and `author`.
pub open spec fn filter_link(tag: Option<Seq<char>>, author: Option<u32>) -> Option<Seq<char>> {
    match (tag, author) {
        // The following link WILL NOT WORK!
        // custom_link = format!("rss-tag-author/{}/{}", tag, author);
        (Some(_), Some(_)) => Some("rss.xml"@),
        (Some(t), None) => Some("rss-tag/"@ + t),
        (None, Some(u)) => Some("rss-userid/"@ + decimal(u as nat)),
        (None, None) => None,
    }
}

/// The articles of the feed filtered by `tag` (compared lowercased) and
/// `author`.
pub open spec fn filtered_articles(articles: Seq<Article>, tag: Option<Seq<char>>, author: Option<u32>) -> Seq<
    Article,
> {
    selected_articles(
        articles,
        match tag {
            Some(t) => Some(lowercase(t)),
            None => None,
        },
        author,
    )
}

/// The feed document filtered by `tag` and `author`.
pub open spec fn filtered_feed(articles: Seq<Article>, tag: Option<Seq<char>>, author: Option<u32>) -> Seq<
    char,
> {
    articles_feed(
        filtered_articles(articles, tag, author),
        custom_channel_title(filter_title(tag, author)),
        custom_channel_link(filter_link(tag, author)),
    )
}

/// Whether every article that the filter selects can be put in a feed.
pub open spec fn filter_feedable(articles: Seq<Article>, tag: Option<Seq<char>>, author: Option<u32>) -> bool {
    forall|i: int|
        0 <= i < articles.len() && article_selected(
            #[trigger] articles[i],
            match tag {
                Some(t) => Some(lowercase(t)),
                None => None,
            },
            author,
        ) ==> feedable(articles[i])
}

/// Every article that carries the tag, at any position among its tags
/// (compared lowercased), and is by the author when one is given, is in
/// the feed filtered by that tag.
pub proof fn law_tagged_article_in_tag_feed(
    articles: Seq<Article>,
    k: int,
    i: int,
    tag: Seq<char>,
    author: Option<u32>,
)
    requires
        0 <= k < articles.len(),
        0 <= i < articles[k].tags@.len(),
        articles[k].tags@[i]@ == lowercase(tag),
        author matches Some(u) ==> articles[k].userid == u,
    ensures
        filtered_articles(articles, Some(tag), author).contains(articles[k]),
{
    broadcast use vstd::seq_lib::group_filter_ensures;

    let a = articles[k];
    assert(exists|j: int| 0 <= j < a.tags@.len() && (#[trigger] a.tags@[j])@ == lowercase(tag)) by {
        assert(a.tags@[i]@ == lowercase(tag));
    }
    let pred = |x: Article| article_selected(x, Some(lowercase(tag)), author);
    assert(pred(articles[k]));
    articles.lemma_filter_contains(pred, k);
}

/// Every article by the author is in the feed filtered by that author
/// alone.
pub proof fn law_authored_article_in_author_feed(articles: Seq<Article>, k: int, author: u32)
    requires
        0 <= k < articles.len(),
        articles[k].userid == author,
    ensures
        filtered_articles(articles, None, Some(author)).contains(articles[k]),
{
    let pred = |x: Article| article_selected(x, None, Some(author));
    assert(pred(articles[k]));
    articles.lemma_filter_contains(pred, k);
}

/// Every article of a filtered feed is one of the articles, carries the
/// tag (compared lowercased) at some position among its tags when a tag is
/// given, and is by the author when one is given.
pub proof fn law_filtered_article_matches(
    articles: Seq<Article>,
    tag: Option<Seq<char>>,
    author: Option<u32>,
    j: int,
)
    requires
        0 <= j < filtered_articles(articles, tag, author).len(),
    ensures
        ({
            let a = filtered_articles(articles, tag, author)[j];
            &&& articles.contains(a)
            &&& tag matches Some(t) ==> exists|i: int|
                0 <= i < a.tags@.len() && (#[trigger] a.tags@[i])@ == lowercase(t)
            &&& author matches Some(u) ==> a.userid == u
        }),
{
    broadcast use vstd::seq_lib::group_filter_ensures;

    let lt = match tag {
        Some(t) => Some(lowercase(t)),
        None => None::<Seq<char>>,
    };
    let pred = |x: Article| article_selected(x, lt, author);
    let a = articles.filter(pred)[j];
    assert(pred(a));
    assert(articles.filter(pred).contains(a));
    articles.lemma_filter_contains_rev(pred, a);
}

/// The texts that stand for a failed feed.
pub open spec fn feed_error_text(t: Seq<char>) -> bool {
    ||| t == "Could not create text input item in RSS channel."@
    ||| t == "Could not create RSS channel."@
    ||| t == "Could not create RSS feed."@
}

/// The channel of the feed filtered by `tag` and `author`: `None` when no
/// article passes the filter. With `short_description` the channel is built
/// from short copies of the selected articles, which give the same entries.
pub fn filter_channel(
    articles: &Vec<Article>,
    tag: Option<&String>,
    author: Option<u32>,
    short_description: bool,
) -> (r: Option<FeedChannel>)
    requires
        filter_feedable(
            articles@,
            match tag {
                Some(t) => Some(t@),
                None => None,
            },
            author,
        ),
    ensures
        ({
            let tagv = match tag {
                Some(t) => Some(t@),
                None => None,
            };
            let selected = filtered_articles(articles@, tagv, author);
            match r {
                Some(ch) => selected.len() > 0 && channel_of(
                    ch,
                    selected,
                    custom_channel_title(filter_title(tagv, author)),
                    custom_channel_link(filter_link(tagv, author)),
                ),
                None => selected.len() == 0,
            }
        }),
{
    let mut title = String::new();
    let mut link = String::new();
    let custom = match tag {
        Some(t) => {
            match author {
                Some(u) => {
                    // both tag and author
                    title.append("Articles in #");
                    title.append(t.as_str());
                    title.append(" by userid ");
                    push_decimal(&mut title, u as u64);
                    link.append("rss.xml");
                },
                None => {
                    // just tag
                    title.append("#");
                    title.append(t.as_str());
                    title.append(" articles");
                    link.append("rss-tag/");
                    link.append(t.as_str());
                },
            }
            true
        },
        None => {
            match author {
                Some(u) => {
                    // just author
                    title.append("Userid ");
                    push_decimal(&mut title, u as u64);
                    link.append("rss-userid/");
                    push_decimal(&mut link, u as u64);
                    true
                },
                // all
                None => false,
            }
        },
    };
    let lower = match tag {
        Some(t) => Some(to_lowercase(t.as_str())),
        None => None,
    };
    let lower_ref = match &lower {
        Some(l) => Some(l),
        None => None,
    };
    let (custom_title, custom_link) = if custom {
        (Some(&title), Some(&link))
    } else {
        (None, None)
    };
    let ch = if short_description {
        let picked = short_selection(articles, lower_ref, author);
        let ghost lowerv = match lower_ref {
            Some(l) => Some(l@),
            None => None::<Seq<char>>,
        };
        let ghost sel = selected_articles(articles@, lowerv, author);
        proof {
            assert forall|j: int| 0 <= j < picked@.len() implies feedable(#[trigger] picked@[j]) by {
                law_short_clone_same_entry(picked@[j], sel[j]);
            }
        }
        let ch = custom_feed_channel(&picked, None, None, custom_title, custom_link);
        proof {
            lemma_select_all(picked@);
            assert forall|j: int| 0 <= j < sel.len() implies item_of(#[trigger] ch.items@[j], sel[j]) by {
                assert(item_of(ch.items@[j], picked@[j]));
                law_short_clone_same_entry(picked@[j], sel[j]);
            }
        }
        ch
    } else {
        custom_feed_channel(articles, lower_ref, author, custom_title, custom_link)
    };
    proof {
        let tagv = match tag {
            Some(t) => Some(t@),
            None => None::<Seq<char>>,
        };
        assert(custom == filter_title(tagv, author) is Some);
        if custom {
            assert(title@ =~= filter_title(tagv, author)->0);
            assert(link@ =~= filter_link(tagv, author)->0);
        }
    }
    if ch.items.len() == 0 {
        None
    } else {
        Some(ch)
    }
}

/// The feed of the articles with `tag` (compared lowercased) by `author`,
/// each filter applying when given; `None` when the articles could not be
/// had or none passes the filter. With `short_description` the feed is
/// built from short copies of the articles (`Article::short_clone`), whose
/// entries are those of the articles themselves.
pub fn filter_rss(
    articles: Option<&Vec<Article>>,
    tag: Option<&String>,
    author: Option<u32>,
    short_description: bool,
) -> (r: Option<String>)
    requires
        articles matches Some(all) ==> filter_feedable(
            all@,
            match tag {
                Some(t) => Some(t@),
                None => None,
            },
            author,
        ),
    ensures
        match articles {
            Some(all) => (r is Some <==> filtered_articles(
                all@,
                match tag {
                    Some(t) => Some(t@),
                    None => None,
                },
                author,
            ).len() > 0),
            None => r is None,
        },
        r matches Some(t) ==> articles matches Some(all) && t@ == filtered_feed(
            all@,
            match tag {
                Some(t) => Some(t@),
                None => None,
            },
            author,
        ),
{
    if let Some(all_articles) = articles {
        let ch = match filter_channel(all_articles, tag, author, short_description) {
            Some(ch) => ch,
            None => {
                return None;
            },
        };
        let output = render_feed(&ch);
        proof {
            let tagv = match tag {
                Some(t) => Some(t@),
                None => None::<Seq<char>>,
            };
            lemma_channel_document(
                ch,
                filtered_articles(all_articles@, tagv, author),
                custom_channel_title(filter_title(tagv, author)),
                custom_channel_link(filter_link(tagv, author)),
            );
            lemma_feed_opens_with_prolog(output@.skip(xml_prolog().len() as int));
            assert(output@ =~= xml_prolog() + output@.skip(xml_prolog().len() as int));
        }
        let out = &output;
        if *out == String::from_str("Could not create text input item in RSS channel.") || *out
            == String::from_str("Could not create RSS channel.") || *out == String::from_str(
            "Could not create RSS feed.",
        ) {
            proof {
                lemma_feed_opens_with_prolog(out@.skip(xml_prolog().len() as int));
                law_feed_is_no_error_text(out@);
            }
            return None;
        }
        Some(output)
    } else {
        None
    }
}

/// A feed document, which opens with the XML prolog, is never one of the
/// texts that stand for a failed feed.
pub proof fn law_feed_is_no_error_text(t: Seq<char>)
    requires
        t.len() >= xml_prolog().len(),
        t.subrange(0, xml_prolog().len() as int) == xml_prolog(),
    ensures
        !feed_error_text(t),
{
    reveal_strlit("<?xml version=\"1.0\"?>");
    reveal_strlit("Could not create text input item in RSS channel.");
    reveal_strlit("Could not create RSS channel.");
    reveal_strlit("Could not create RSS feed.");
    assert(t[0] == t.subrange(0, xml_prolog().len() as int)[0]);
    assert(t[0] == '<');
}

/// The key under which the feed of an author is cached.
pub open spec fn author_feed_key(author: u32) -> Seq<char> {
    lowercase("rss-author/"@ + decimal(author as nat))
}

/// The key under which the feed of a tag is cached.
pub open spec fn tag_feed_key(tag: Seq<char>) -> Seq<char> {
    lowercase("rss-tag/"@ + tag)
}

/// The authors and tags of the filtered feeds that have articles.
pub open spec fn authors_with_feeds(articles: Seq<Article>, authors: Seq<u32>) -> Seq<u32> {
    authors.filter(|u: u32| filtered_articles(articles, None, Some(u)).len() > 0)
}

pub open spec fn tags_with_feeds(articles: Seq<Article>, tags: Seq<String>) -> Seq<String> {
    tags.filter(|t: String| filtered_articles(articles, Some(t@), None).len() > 0)
}

/// The filtered feeds to cache, as (key, document) pairs: one per author
/// and then one per tag that has articles.
pub open spec fn filtered_feeds(articles: Seq<Article>, authors: Seq<u32>, tags: Seq<String>) -> Seq<
    (Seq<char>, Seq<char>),
> {
    authors_with_feeds(articles, authors).map_values(
        |u: u32| (author_feed_key(u), filtered_feed(articles, None, Some(u))),
    ) + tags_with_feeds(articles, tags).map_values(
        |t: String| (tag_feed_key(t@), filtered_feed(articles, Some(t@), None)),
    )
}

/// Whether every article of every author's and every tag's feed can be put
/// in a feed.
pub open spec fn filtered_feeds_feedable(articles: Seq<Article>, authors: Seq<u32>, tags: Seq<String>) -> bool {
    &&& forall|j: int| 0 <= j < authors.len() ==> filter_feedable(articles, None, Some(#[trigger] authors[j]))
    &&& forall|j: int| 0 <= j < tags.len() ==> filter_feedable(articles, Some((#[trigger] tags[j])@), None)
}

/// The filtered feeds to cache, by key: the feed of each author, then of
/// each tag, skipping those without articles; `None` when there is none.
/// The feeds are built from short copies of the articles.
pub fn load_filtered_rss(articles: Option<&Vec<Article>>, authors: &Vec<u32>, tags: &Vec<String>) -> (r: Option<
    Vec<(String, String)>,
>)
    requires
        articles matches Some(all) ==> filtered_feeds_feedable(all@, authors@, tags@),
    ensures
        match articles {
            Some(all) => {
                let expected = filtered_feeds(all@, authors@, tags@);
                match r {
                    Some(feeds) => feeds@.len() > 0 && feeds@.len() == expected.len() && forall|j: int|
                        0 <= j < expected.len() ==> ((#[trigger] feeds@[j]).0@, feeds@[j].1@)
                            == expected[j],
                    None => expected.len() == 0,
                }
            },
            None => r is None,
        },
{
    let mut feeds: Vec<(String, String)> = Vec::new();
    let all = match articles {
        Some(all) => all,
        None => {
            return None;
        },
    };
    let ghost arts = all@;
    let ghost apred = |u: u32| filtered_articles(arts, None, Some(u)).len() > 0;
    let ghost tpred = |t: String| filtered_articles(arts, Some(t@), None).len() > 0;
    let mut i: usize = 0;
    while i < authors.len()
        invariant
            i <= authors@.len(),
            arts == all@,
            filtered_feeds_feedable(arts, authors@, tags@),
            apred == (|u: u32| filtered_articles(arts, None, Some(u)).len() > 0),
            feeds@.len() == authors@.take(i as int).filter(apred).len(),
            forall|j: int|
                0 <= j < feeds@.len() ==> ((#[trigger] feeds@[j]).0@, feeds@[j].1@) == (
                    author_feed_key(authors@.take(i as int).filter(apred)[j]),
                    filtered_feed(arts, None, Some(authors@.take(i as int).filter(apred)[j])),
                ),
        decreases authors@.len() - i,
    {
        let author = authors[i];
        let mut key = String::new();
        key.append("rss-author/");
        push_decimal(&mut key, author as u64);
        let key = to_lowercase(key.as_str());
        assert(key@ == author_feed_key(author)) by {
            assert(author_feed_key(author) == lowercase("rss-author/"@ + decimal(author as nat)));
        }
        proof {
            reveal_with_fuel(Seq::filter, 1);
            assert(authors@.take(i + 1).drop_last() =~= authors@.take(i as int));
            assert(authors@.take(i + 1).last() == author);
            assert(filter_feedable(arts, None, Some(authors@[i as int])));
        }
        if let Some(feed) = filter_rss(Some(all), None, Some(author), true) {
            feeds.push((key, feed));
        }
        i = i + 1;
    }
    let ghost n_authors = feeds@.len();
    proof {
        assert(authors@.take(authors@.len() as int) =~= authors@);
    }
    let mut k: usize = 0;
    while k < tags.len()
        invariant
            k <= tags@.len(),
            arts == all@,
            filtered_feeds_feedable(arts, authors@, tags@),
            apred == (|u: u32| filtered_articles(arts, None, Some(u)).len() > 0),
            tpred == (|t: String| filtered_articles(arts, Some(t@), None).len() > 0),
            n_authors == authors@.filter(apred).len(),
            feeds@.len() == n_authors + tags@.take(k as int).filter(tpred).len(),
            forall|j: int|
                0 <= j < n_authors ==> ((#[trigger] feeds@[j]).0@, feeds@[j].1@) == (
                    author_feed_key(authors@.filter(apred)[j]),
                    filtered_feed(arts, None, Some(authors@.filter(apred)[j])),
                ),
            forall|j: int|
                n_authors <= j < feeds@.len() ==> ((#[trigger] feeds@[j]).0@, feeds@[j].1@) == (
                    tag_feed_key(tags@.take(k as int).filter(tpred)[j - n_authors]@),
                    filtered_feed(arts, Some(tags@.take(k as int).filter(tpred)[j - n_authors]@), None),
                ),
        decreases tags@.len() - k,
    {
        let tag = &tags[k];
        let mut key = String::new();
        key.append("rss-tag/");
        key.append(tag.as_str());
        let key = to_lowercase(key.as_str());
        proof {
            reveal_with_fuel(Seq::filter, 1);
            assert(tags@.take(k + 1).drop_last() =~= tags@.take(k as int));
            assert(tags@.take(k + 1).last() == tags@[k as int]);
            assert(filter_feedable(arts, Some(tags@[k as int]@), None));
        }
        if let Some(feed) = filter_rss(Some(all), Some(tag), None, true) {
            feeds.push((key, feed));
        }
        k = k + 1;
    }
    proof {
        assert(tags@.take(tags@.len() as int) =~= tags@);
        let keys = filtered_feeds(arts, authors@, tags@);
        assert(keys.len() == feeds@.len());
        assert forall|j: int| 0 <= j < keys.len() implies ((#[trigger] feeds@[j]).0@, feeds@[j].1@)
            == keys[j] by {
            if j < n_authors {
            } else {
            }
        }
    }
    if feeds.len() != 0 {
        Some(feeds)
    } else {
        None
    }
}

/// Whether every article that the filter for `tag` (compared lowercased)
/// and `author` selects can be put in a feed.
pub fn selection_feedable(articles: &Vec<Article>, tag: Option<&String>, author: Option<u32>) -> (r: bool)
    ensures
        r == filter_feedable(
            articles@,
            match tag {
                Some(t) => Some(t@),
                None => None,
            },
            author,
        ),
{
    let lower = match tag {
        Some(t) => Some(to_lowercase(t.as_str())),
        None => None,
    };
    let lower_ref = match &lower {
        Some(l) => Some(l),
        None => None,
    };
    let ghost lowerv = match tag {
        Some(t) => Some(lowercase(t@)),
        None => None::<Seq<char>>,
    };
    let mut i: usize = 0;
    while i < articles.len()
        invariant
            i <= articles@.len(),
            lowerv == (match lower_ref {
                Some(l) => Some(l@),
                None => None::<Seq<char>>,
            }),
            lowerv == (match tag {
                Some(t) => Some(lowercase(t@)),
                None => None::<Seq<char>>,
            }),
            forall|j: int|
                0 <= j < i && article_selected(#[trigger] articles@[j], lowerv, author) ==> feedable(
                    articles@[j],
                ),
        decreases articles@.len() - i,
    {
        let a = &articles[i];
        if article_matches(a, lower_ref, author) && !is_feedable(a) {
            proof {
                let tagv = match tag {
                    Some(t) => Some(t@),
                    None => None::<Seq<char>>,
                };
                let lt = match tagv {
                    Some(t) => Some(lowercase(t)),
                    None => None::<Seq<char>>,
                };
                assert(lt == lowerv);
                assert(article_selected(articles@[i as int], lt, author) && !feedable(
                    articles@[i as int],
                ));
                assert(!filter_feedable(articles@, tagv, author));
            }
            return false;
        }
        i = i + 1;
    }
    true
}

/// `filter_rss` for articles that have not been checked: `None` as well
/// when an article that the filter selects cannot be put in a feed.
pub fn checked_filter_rss(
    articles: Option<&Vec<Article>>,
    tag: Option<&String>,
    author: Option<u32>,
    short_description: bool,
) -> (r: Option<String>)
    ensures
        ({
            let tagv = match tag {
                Some(t) => Some(t@),
                None => None,
            };
            match articles {
                Some(all) => if filter_feedable(all@, tagv, author) {
                    &&& (r is Some <==> filtered_articles(all@, tagv, author).len() > 0)
                    &&& r matches Some(t) ==> t@ == filtered_feed(all@, tagv, author)
                } else {
                    r is None
                },
                None => r is None,
            }
        }),
{
    match articles {
        Some(all) => {
            if selection_feedable(all, tag, author) {
                filter_rss(Some(all), tag, author, short_description)
            } else {
                None
            }
        },
        None => None,
    }
}

/// `load_filtered_rss` for articles that have not been checked: `None` as
/// well when some article cannot be put in a feed.
pub fn checked_load_filtered_rss(articles: Option<&Vec<Article>>, authors: &Vec<u32>, tags: &Vec<String>) -> (r:
    Option<Vec<(String, String)>>)
    ensures
        match articles {
            Some(all) => if forall|i: int| 0 <= i < all@.len() ==> feedable(#[trigger] all@[i]) {
                let expected = filtered_feeds(all@, authors@, tags@);
                match r {
                    Some(feeds) => feeds@.len() > 0 && feeds@.len() == expected.len() && forall|j: int|
                        0 <= j < expected.len() ==> ((#[trigger] feeds@[j]).0@, feeds@[j].1@)
                            == expected[j],
                    None => expected.len() == 0,
                }
            } else {
                r is None
            },
            None => r is None,
        },
{
    match articles {
        Some(all) => {
            if all_feedable(all) {
                load_filtered_rss(Some(all), authors, tags)
            } else {
                None
            }
        },
        None => None,
    }
}

/// The main feed for articles that have not been checked: `None` when some
/// article cannot be put in a feed.
pub fn checked_rss_output(articles: Vec<Article>) -> (r: Option<String>)
    ensures
        (r is Some) == (forall|i: int| 0 <= i < articles@.len() ==> feedable(#[trigger] articles@[i])),
        r matches Some(t) ==> t@ == articles_feed(articles@, "Vishus Blog"@, BLOG_URL@),
{
    if all_feedable(&articles) {
        Some(rss_output(articles))
    } else {
        None
    }
}

/// The main feed, or the text that stands for a failed feed when the
/// articles could not be had.
pub fn load_rss(articles: Option<Vec<Article>>) -> (r: String)
    requires
        articles matches Some(all) ==> forall|i: int|
            0 <= i < all@.len() ==> feedable(#[trigger] all@[i]),
    ensures
        match articles {
            Some(all) => r@ == articles_feed(all@, "Vishus Blog"@, BLOG_URL@),
            None => r@ == "Could not create RSS feed."@,
        },
{
    if let Some(all) = articles {
        rss_output(all)
    } else {
        String::from_str("Could not create RSS feed.")
    }
}

/// The response for the main feed held in the text cache: the feed as XML,
/// or a notice when the cache holds none.
pub fn serve(feed: Option<String>) -> (r: Express)
    ensures
        r.data_of() matches ExData::String(DataString(s)) && s@ == match feed {
            Some(f) => f@,
            None => "Could not load RSS feed."@,
        },
        r.content_type_of() == ContentType::XML,
        r.method_of() == crate::xpress::CompressionEncoding::Uncompressed,
        r.ttl_of() == crate::xpress::DEFAULT_TTL,
        r.streamed_of(),
{
    let content = match feed {
        Some(f) => f,
        None => String::from_str("Could not load RSS feed."),
    };
    let express = Express::from(content);
    proof {
        lemma_from_string(content);
    }
    express.set_content_type(ContentType::XML)
}

/// The response for a filtered feed held in the text cache: the feed as XML,
/// or an HTML notice when the cache holds none under the key.
pub fn serve_filter(feed: Option<String>) -> (r: Express)
    ensures
        r.data_of() matches ExData::String(DataString(s)) && s@ == match feed {
            Some(f) => f@,
            None => "No rss feed found for specified filter(s)."@,
        },
        r.content_type_of() == match feed {
            Some(_) => ContentType::XML,
            None => ContentType::HTML,
        },
        r.method_of() == crate::xpress::CompressionEncoding::Uncompressed,
        r.ttl_of() == crate::xpress::DEFAULT_TTL,
        r.streamed_of(),
{
    match feed {
        Some(f) => {
            let output = Express::from(f);
            proof {
                lemma_from_string(f);
            }
            output.set_content_type(ContentType::XML)
        },
        None => {
            let notice = String::from_str("No rss feed found for specified filter(s).");
            let output = Express::from(notice);
            proof {
                lemma_from_string(notice);
            }
            output
        },
    }
}

} // verus!
