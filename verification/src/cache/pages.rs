//! The pages served from the caches: the articles that feed them and the
//! RSS feeds built from those articles.
use vstd::prelude::*;
use vstd::utf8::{decode_utf8, encode_utf8, encode_utf8_decode_utf8, is_char_boundary};
use crate::collate::BLOG_URL;
use crate::text::{decimal, push_decimal, url_encode, url_encoded};
use vstd::string::StringSliceAdditionalSpecFns;

pub mod article;
pub mod articles;
pub mod author;
pub mod rss;
pub mod tag;
pub mod tags;

verus! {

/// Bodies longer than this many bytes are cut to it when they stand in for
/// a missing description.
pub const DESC_LIMIT: usize = 200;

/// An article as the feeds read it.
#[derive(Debug)]
pub struct Article {
    pub aid: u32,
    pub title: String,
    /// When it was posted, in seconds since the Unix epoch (UTC).
    pub posted: i64,
    pub body: String,
    pub tags: Vec<String>,
    pub description: String,
    pub userid: u32,
    pub username: String,
}

/// One entry of an RSS feed; its guid is its link.
#[derive(Debug)]
pub struct FeedItem {
    pub title: String,
    pub link: String,
    pub description: String,
    pub author: String,
    pub pub_date: Option<String>,
}

/// The search box of an RSS channel.
#[derive(Debug)]
pub struct SearchBox {
    pub title: String,
    pub name: String,
    pub description: String,
    pub link: String,
}

/// An RSS channel: its header fields, entries and search box.
#[derive(Debug)]
pub struct FeedChannel {
    pub title: String,
    pub link: String,
    pub description: String,
    pub language: String,
    pub copyright: String,
    pub ttl: String,
    pub items: Vec<FeedItem>,
    pub search: SearchBox,
}

/// What a page shows: what was found, under a title (the site's default
/// when `None`), or a message saying why nothing can be shown.
#[derive(Debug)]
pub enum PageContext<T> {
    Found { custom_title: Option<String>, page: String, body: T },
    Failed { title: String, page: String, message: String },
}

/// Whether `r` shows `body` on `page` under `title`.
pub open spec fn shows<T>(r: PageContext<T>, title: Option<Seq<char>>, page: Seq<char>, body: T) -> bool {
    match r {
        PageContext::Found { custom_title: t, page: p, body: b } => p@ == page && b == body && match t {
            Some(s) => title == Some(s@),
            None => title is None,
        },
        PageContext::Failed { .. } => false,
    }
}

/// Whether `r` shows the message `message` on `page` under `title`.
pub open spec fn fails<T>(r: PageContext<T>, title: Seq<char>, page: Seq<char>, message: Seq<char>) -> bool {
    match r {
        PageContext::Failed { title: t, page: p, message: m } => t@ == title && p@ == page && m@
            == message,
        PageContext::Found { .. } => false,
    }
}

// ---------------------------------------------------------------------------
// What the outside crates compute.

/// The RFC 2822 text of the UTC time `secs` seconds after the Unix epoch, as
/// chrono writes it.
pub uninterp spec fn rfc2822_utc(secs: i64) -> Seq<char>;

/// The first second chrono writes in RFC 2822: 0000-01-01T00:00:00Z.
pub const FIRST_RFC2822_SECS: i64 = -62167219200;

/// The last second chrono writes in RFC 2822: 9999-12-31T23:59:59Z.
pub const LAST_RFC2822_SECS: i64 = 253402300799;

/// Whether chrono can write the time `secs` in RFC 2822: its year lies in
/// `0..=9999`.
pub open spec fn rfc2822_writable(secs: i64) -> bool {
    FIRST_RFC2822_SECS <= secs <= LAST_RFC2822_SECS
}

/// `chrono::DateTime::<Utc>::from_timestamp(secs, 0)` written with
/// `to_rfc2822`. `to_rfc2822` panics on a year outside `0..=9999`, so the
/// contract asks for a time within those years, where `from_timestamp`
/// always gives a time; it names the text and claims nothing of its form.
#[verifier::external_body]
fn rfc2822_of(secs: i64) -> (r: Option<String>)
    requires
        rfc2822_writable(secs),
    ensures
        match r {
            Some(t) => t@ == rfc2822_utc(secs),
            None => false,
        },
{
    match chrono::DateTime::<chrono::Utc>::from_timestamp(secs, 0) {
        Some(date) => Some(date.to_rfc2822()),
        None => None,
    }
}

/// An RSS item as the feeds build it: its fields, the guid holding its
/// value (a permalink), and every other field of `rss::Item` left empty.
pub struct ItemModel {
    pub title: Seq<char>,
    pub link: Seq<char>,
    pub description: Seq<char>,
    pub author: Seq<char>,
    pub guid: Seq<char>,
    pub pub_date: Option<Seq<char>>,
}

/// The header of an RSS channel as the feeds build it, with its search box
/// (`textInput`); every other field of `rss::Channel` left empty.
pub struct ChannelHeader {
    pub title: Seq<char>,
    pub link: Seq<char>,
    pub description: Seq<char>,
    pub language: Seq<char>,
    pub copyright: Seq<char>,
    pub ttl: Seq<char>,
    pub search_title: Seq<char>,
    pub search_name: Seq<char>,
    pub search_description: Seq<char>,
    pub search_link: Seq<char>,
}

#[verifier::external_type_specification]
#[verifier::external_body]
pub struct ExRssChannel(::rss::Channel);

/// The header of an `rss::Channel` whose fields other than the header, the
/// search box and the items are empty and whose items are all built as
/// `ItemModel` describes; `None` for any other channel.
pub uninterp spec fn rss_channel_header(ch: ::rss::Channel) -> Option<ChannelHeader>;

/// The items of an `rss::Channel`, in order, as `ItemModel`s.
pub uninterp spec fn rss_channel_items(ch: ::rss::Channel) -> Seq<ItemModel>;

/// The XML text that `rss::Channel`'s `Display` writes for the channel with
/// this header and these items.
pub uninterp spec fn rss_channel_text(header: ChannelHeader, items: Seq<ItemModel>) -> Seq<char>;

/// `rss::ChannelBuilder` with the channel's title, link, description,
/// language, copyright, ttl and a `rss::TextInputBuilder` search box, and no
/// items. The contract claims the channel has that header and no items.
#[verifier::external_body]
fn rss_channel_start(ch: &FeedChannel) -> (r: ::rss::Channel)
    ensures
        rss_channel_header(r) == Some(header_of(*ch)),
        rss_channel_items(r) == Seq::<ItemModel>::empty(),
{
    let s = &ch.search;
    let search = ::rss::TextInputBuilder::default().title(s.title.clone()).name(s.name.clone()).description(
        s.description.clone(),
    ).link(s.link.clone()).build();
    ::rss::ChannelBuilder::default().title(ch.title.clone()).link(ch.link.clone()).description(
        ch.description.clone(),
    ).language(ch.language.clone()).copyright(ch.copyright.clone()).ttl(ch.ttl.clone()).text_input(
        search,
    ).build()
}

/// Appends to the channel's items one built by `rss::ItemBuilder`, with a
/// `rss::GuidBuilder` guid holding the link. The contract claims the item is
/// appended as `ItemModel` describes it and the header is kept.
#[verifier::external_body]
fn rss_channel_push(ch: &mut ::rss::Channel, item: &FeedItem)
    ensures
        rss_channel_header(*final(ch)) == rss_channel_header(*old(ch)),
        rss_channel_items(*final(ch)) == rss_channel_items(*old(ch)).push(item_model(*item)),
{
    let guid = ::rss::GuidBuilder::default().value(item.link.clone()).build();
    ch.items.push(
        ::rss::ItemBuilder::default().title(item.title.clone()).link(item.link.clone()).description(
            item.description.clone(),
        ).author(item.author.clone()).guid(guid).pub_date(item.pub_date.clone()).build(),
    );
}

/// `rss::Channel`'s `to_string`. The contract names the text for channels
/// built as `rss_channel_header` describes and claims nothing of others.
#[verifier::external_body]
fn rss_channel_text_of(ch: &::rss::Channel) -> (r: String)
    ensures
        rss_channel_header(*ch) matches Some(h) ==> r@ == rss_channel_text(
            h,
            rss_channel_items(*ch),
        ),
{
    ch.to_string()
}

/// The header of a feed channel.
pub open spec fn header_of(ch: FeedChannel) -> ChannelHeader {
    ChannelHeader {
        title: ch.title@,
        link: ch.link@,
        description: ch.description@,
        language: ch.language@,
        copyright: ch.copyright@,
        ttl: ch.ttl@,
        search_title: ch.search.title@,
        search_name: ch.search.name@,
        search_description: ch.search.description@,
        search_link: ch.search.link@,
    }
}

/// The RSS item of a feed entry.
pub open spec fn item_model(item: FeedItem) -> ItemModel {
    ItemModel {
        title: item.title@,
        link: item.link@,
        description: item.description@,
        author: item.author@,
        guid: item.link@,
        pub_date: match item.pub_date {
            Some(t) => Some(t@),
            None => None,
        },
    }
}

// ---------------------------------------------------------------------------

/// The link of an article: its id and its url-encoded title under
/// `article/`.
pub open spec fn article_link(a: Article) -> Seq<char> {
    BLOG_URL@ + "article/"@ + decimal(a.aid as nat) + "/"@ + url_encoded(encode_utf8(a.title@))
}

/// The UTF-8 bytes of an article's feed description: its description, or
/// else its body, cut to its first 200 bytes when longer than `DESC_LIMIT`.
pub open spec fn description_bytes(a: Article) -> Seq<u8> {
    if a.description@.len() != 0 {
        encode_utf8(a.description@)
    } else if encode_utf8(a.body@).len() > DESC_LIMIT {
        encode_utf8(a.body@).subrange(0, 200)
    } else {
        encode_utf8(a.body@)
    }
}

/// Whether a body that stands in for a description can be cut where it is
/// cut: at a character boundary.
pub open spec fn description_cuttable(a: Article) -> bool {
    a.description@.len() == 0 && encode_utf8(a.body@).len() > DESC_LIMIT ==> is_char_boundary(
        encode_utf8(a.body@),
        200,
    )
}

/// Whether an article can be put in a feed: its body's UTF-8 length fits
/// in memory (as it does for every body that exists), where the body is
/// cut the cut falls between characters, and its posting time can be
/// written in RFC 2822.
pub open spec fn feedable(a: Article) -> bool {
    &&& encode_utf8(a.body@).len() <= usize::MAX
    &&& description_cuttable(a)
    &&& rfc2822_writable(a.posted)
}

/// Whether the article can be put in a feed.
pub fn is_feedable(a: &Article) -> (r: bool)
    ensures
        r == feedable(*a),
{
    let body = a.body.as_str();
    assert(body.spec_bytes() == encode_utf8(a.body@));
    let bytes = body.as_bytes();
    let n = bytes.len();
    assert(n == encode_utf8(a.body@).len());
    let cuttable = if a.description.as_str().is_empty() && n > DESC_LIMIT {
        body.is_char_boundary(200)
    } else {
        true
    };
    let dated = FIRST_RFC2822_SECS <= a.posted && a.posted <= LAST_RFC2822_SECS;
    cuttable && dated
}

/// Whether every article can be put in a feed.
pub fn all_feedable(articles: &Vec<Article>) -> (r: bool)
    ensures
        r == forall|i: int| 0 <= i < articles@.len() ==> feedable(#[trigger] articles@[i]),
{
    let mut i: usize = 0;
    while i < articles.len()
        invariant
            i <= articles@.len(),
            forall|j: int| 0 <= j < i ==> feedable(#[trigger] articles@[j]),
        decreases articles@.len() - i,
    {
        if !is_feedable(&articles[i]) {
            return false;
        }
        i = i + 1;
    }
    true
}

/// The body bytes a short copy of an article keeps: none where the article
/// has a description, else the part of the body that stands in for it.
pub open spec fn short_body_bytes(a: Article) -> Seq<u8> {
    if a.description@.len() != 0 {
        Seq::empty()
    } else {
        description_bytes(a)
    }
}

/// Whether `r` is a short copy of `a`: the same article with its body cut
/// to what a feed shows of it.
pub open spec fn is_short_clone(r: Article, a: Article) -> bool {
    &&& r.aid == a.aid
    &&& r.title@ == a.title@
    &&& r.posted == a.posted
    &&& encode_utf8(r.body@) == short_body_bytes(a)
    &&& r.tags@.len() == a.tags@.len()
    &&& forall|i: int| 0 <= i < a.tags@.len() ==> (#[trigger] r.tags@[i])@ == a.tags@[i]@
    &&& r.description@ == a.description@
    &&& r.userid == a.userid
    &&& r.username@ == a.username@
}

impl Article {
    /// A copy of the article that keeps of its body only what a feed shows:
    /// nothing where it has a description, else its first `DESC_LIMIT`
    /// bytes.
    pub fn short_clone(&self) -> (r: Article)
        requires
            feedable(*self),
        ensures
            is_short_clone(r, *self),
    {
        let body = if !self.description.as_str().is_empty() {
            String::new()
        } else {
            let text = self.body.as_str();
            assert(text.spec_bytes() == encode_utf8(self.body@));
            if text.len() > DESC_LIMIT {
                let (head, _) = text.split_at(200);
                let cut = String::from_str(head);
                assert(encode_utf8(cut@) =~= encode_utf8(self.body@).subrange(0, 200));
                assert(encode_utf8(cut@) == short_body_bytes(*self));
                cut
            } else {
                let whole = self.body.clone();
                assert(encode_utf8(self.body@).len() <= DESC_LIMIT);
                assert(encode_utf8(whole@) == short_body_bytes(*self));
                whole
            }
        };
        proof {
            if self.description@.len() != 0 {
                assert(body@ =~= Seq::<char>::empty());
                assert(encode_utf8(body@) =~= Seq::<u8>::empty());
            }
        }
        assert(encode_utf8(body@) == short_body_bytes(*self));
        let mut tags: Vec<String> = Vec::new();
        let mut i: usize = 0;
        while i < self.tags.len()
            invariant
                i <= self.tags@.len(),
                tags@.len() == i,
                forall|j: int| 0 <= j < i ==> (#[trigger] tags@[j])@ == self.tags@[j]@,
            decreases self.tags@.len() - i,
        {
            tags.push(self.tags[i].clone());
            i = i + 1;
        }
        Article {
            aid: self.aid,
            title: self.title.clone(),
            posted: self.posted,
            body,
            tags,
            description: self.description.clone(),
            userid: self.userid,
            username: self.username.clone(),
        }
    }
}

/// A short copy of an article stands for it in every feed: it is selected
/// by the same tags and authors, it can be put in a feed when the article
/// can, and its feed entry is the article's.
pub proof fn law_short_clone_same_entry(r: Article, a: Article)
    requires
        is_short_clone(r, a),
        feedable(a),
    ensures
        feedable(r),
        description_bytes(r) == description_bytes(a),
        article_item(r) == article_item(a),
        forall|item: FeedItem| item_of(item, r) == item_of(item, a),
        forall|tag: Option<Seq<char>>, author: Option<u32>|
            article_selected(r, tag, author) == article_selected(a, tag, author),
{
    assert(a.title@ == r.title@);
    assert(article_link(r) == article_link(a));
    if a.description@.len() == 0 {
        assert(encode_utf8(r.body@).len() <= DESC_LIMIT);
        assert(description_bytes(r) == encode_utf8(r.body@));
    }
    assert forall|tag: Option<Seq<char>>, author: Option<u32>|
        article_selected(r, tag, author) == article_selected(a, tag, author) by {
        if let Some(t) = tag {
            if exists|i: int| 0 <= i < a.tags@.len() && (#[trigger] a.tags@[i])@ == t {
                let i = choose|i: int| 0 <= i < a.tags@.len() && (#[trigger] a.tags@[i])@ == t;
                assert(r.tags@[i]@ == t);
            }
            if exists|i: int| 0 <= i < r.tags@.len() && (#[trigger] r.tags@[i])@ == t {
                let i = choose|i: int| 0 <= i < r.tags@.len() && (#[trigger] r.tags@[i])@ == t;
                assert(a.tags@[i]@ == t);
            }
        }
    }
}

/// Whether `item` is the feed entry of article `a`.
pub open spec fn item_of(item: FeedItem, a: Article) -> bool {
    &&& item.title@ == a.title@
    &&& item.link@ == article_link(a)
    &&& encode_utf8(item.description@) == description_bytes(a)
    &&& item.author@ == a.username@
    &&& item.pub_date matches Some(t) && t@ == rfc2822_utc(a.posted)
}

/// Whether an article is in the feed for a (lowercased) tag and an author:
/// it carries the tag, when one is given, and is by the author, when one is
/// given.
pub open spec fn article_selected(a: Article, tag: Option<Seq<char>>, author: Option<u32>) -> bool {
    &&& match tag {
        Some(t) => exists|i: int| 0 <= i < a.tags@.len() && (#[trigger] a.tags@[i])@ == t,
        None => true,
    }
    &&& match author {
        Some(u) => a.userid == u,
        None => true,
    }
}

/// The articles of a feed for a tag and an author, in their order.
pub open spec fn selected_articles(articles: Seq<Article>, tag: Option<Seq<char>>, author: Option<u32>) -> Seq<
    Article,
> {
    articles.filter(|a: Article| article_selected(a, tag, author))
}

pub open spec fn feed_description() -> Seq<char> {
    "A programming and development blog about Rust, Javascript, and Web Development."@
}

/// Whether `ch` is the channel of the articles `selected` under `title` and
/// `link`, with the blog's header fields and search box.
pub open spec fn channel_of(ch: FeedChannel, selected: Seq<Article>, title: Seq<char>, link: Seq<char>) -> bool {
    &&& ch.title@ == title
    &&& ch.link@ == link
    &&& ch.description@ == feed_description()
    &&& ch.language@ == "en-us"@
    &&& ch.copyright@ == "2018 Andrew Prindle"@
    &&& ch.ttl@ == "720"@
    &&& ch.search.title@ == "Search"@
    &&& ch.search.name@ == "q"@
    &&& ch.search.description@ == "Search articles"@
    &&& ch.search.link@ == BLOG_URL@ + "search"@
    &&& ch.items@.len() == selected.len()
    &&& forall|i: int| 0 <= i < selected.len() ==> item_of(#[trigger] ch.items@[i], selected[i])
}

/// The title of a channel with an optional custom title.
pub open spec fn custom_channel_title(custom: Option<Seq<char>>) -> Seq<char> {
    match custom {
        Some(s) => "Vishus Blog - "@ + s,
        None => "Vishus blog"@,
    }
}

/// The link of a channel with an optional custom link.
pub open spec fn custom_channel_link(custom: Option<Seq<char>>) -> Seq<char> {
    match custom {
        Some(s) => BLOG_URL@ + "/"@ + s,
        None => BLOG_URL@,
    }
}

/// The first line of every feed document.
pub open spec fn xml_prolog() -> Seq<char> {
    "<?xml version=\"1.0\"?>"@
}

/// The feed entry of an article.
pub fn feed_item(a: &Article) -> (r: FeedItem)
    requires
        feedable(*a),
    ensures
        item_of(r, *a),
{
    let mut link = String::new();
    link.append(BLOG_URL);
    link.append("article/");
    push_decimal(&mut link, a.aid as u64);
    link.append("/");
    let encoded = url_encode(a.title.as_str());
    link.append(encoded.as_str());
    assert(link@ =~= article_link(*a));

    let desc: String = if !a.description.as_str().is_empty() {
        let d = a.description.clone();
        assert(a.description@.len() != 0);
        assert(encode_utf8(d@) == description_bytes(*a));
        d
    } else {
        let body = a.body.as_str();
        assert(body.spec_bytes() == encode_utf8(a.body@));
        assert(a.description@.len() == 0);
        if body.len() > DESC_LIMIT {
            let (head, _) = body.split_at(200);
            let cut = String::from_str(head);
            assert(encode_utf8(cut@) =~= encode_utf8(a.body@).subrange(0, 200));
            cut
        } else {
            let whole = a.body.clone();
            assert(encode_utf8(whole@) == description_bytes(*a));
            whole
        }
    };
    assert(encode_utf8(desc@) == description_bytes(*a));
    let item = FeedItem {
        title: a.title.clone(),
        link,
        description: desc,
        author: a.username.clone(),
        pub_date: rfc2822_of(a.posted),
    };
    assert(item.title@ == a.title@);
    assert(item.link@ == article_link(*a));
    assert(item.author@ == a.username@);
    item
}

/// The channel of the articles selected for `tag` (already lowercased) and
/// `author`, under the given channel title and link.
pub fn feed_channel(
    articles: &Vec<Article>,
    tag: Option<&String>,
    author: Option<u32>,
    title: String,
    link: String,
) -> (r: FeedChannel)
    requires
        forall|i: int|
            0 <= i < articles@.len() && article_selected(
                #[trigger] articles@[i],
                match tag {
                    Some(t) => Some(t@),
                    None => None,
                },
                author,
            ) ==> feedable(articles@[i]),
    ensures
        channel_of(
            r,
            selected_articles(
                articles@,
                match tag {
                    Some(t) => Some(t@),
                    None => None,
                },
                author,
            ),
            title@,
            link@,
        ),
{
    let ghost tagv = match tag {
        Some(t) => Some(t@),
        None => None,
    };
    let ghost pred = |a: Article| article_selected(a, tagv, author);
    let mut items: Vec<FeedItem> = Vec::new();
    let mut i: usize = 0;
    while i < articles.len()
        invariant
            i <= articles@.len(),
            tagv == (match tag {
                Some(t) => Some(t@),
                None => None::<Seq<char>>,
            }),
            pred == (|a: Article| article_selected(a, tagv, author)),
            forall|j: int|
                0 <= j < articles@.len() && article_selected(#[trigger] articles@[j], tagv, author)
                    ==> feedable(articles@[j]),
            items@.len() == articles@.take(i as int).filter(pred).len(),
            forall|j: int|
                0 <= j < items@.len() ==> item_of(
                    #[trigger] items@[j],
                    articles@.take(i as int).filter(pred)[j],
                ),
        decreases articles@.len() - i,
    {
        let a = &articles[i];
        let selected = article_matches(a, tag, author);
        proof {
            reveal_with_fuel(Seq::filter, 1);
            assert(articles@.take(i + 1).drop_last() =~= articles@.take(i as int));
            assert(articles@.take(i + 1).last() == articles@[i as int]);
        }
        if selected {
            let item = feed_item(a);
            items.push(item);
        }
        i = i + 1;
    }
    assert(articles@.take(articles@.len() as int) =~= articles@);
    let mut search_link = String::new();
    search_link.append(BLOG_URL);
    search_link.append("search");
    FeedChannel {
        title,
        link,
        description: String::from_str(
            "A programming and development blog about Rust, Javascript, and Web Development.",
        ),
        language: String::from_str("en-us"),
        copyright: String::from_str("2018 Andrew Prindle"),
        // half a day, 1440 minutes in a day
        ttl: String::from_str("720"),
        items,
        search: SearchBox {
            title: String::from_str("Search"),
            name: String::from_str("q"),
            description: String::from_str("Search articles"),
            link: search_link,
        },
    }
}

/// Short copies of the articles selected for `tag` (already lowercased) and
/// `author`, in order.
pub(crate) fn short_selection(articles: &Vec<Article>, tag: Option<&String>, author: Option<u32>) -> (r: Vec<
    Article,
>)
    requires
        forall|i: int|
            0 <= i < articles@.len() && article_selected(
                #[trigger] articles@[i],
                match tag {
                    Some(t) => Some(t@),
                    None => None,
                },
                author,
            ) ==> feedable(articles@[i]),
    ensures
        ({
            let sel = selected_articles(
                articles@,
                match tag {
                    Some(t) => Some(t@),
                    None => None,
                },
                author,
            );
            &&& r@.len() == sel.len()
            &&& forall|j: int|
                0 <= j < sel.len() ==> is_short_clone(#[trigger] r@[j], sel[j]) && feedable(sel[j])
        }),
{
    let ghost tagv = match tag {
        Some(t) => Some(t@),
        None => None,
    };
    let ghost pred = |a: Article| article_selected(a, tagv, author);
    let mut picked: Vec<Article> = Vec::new();
    let mut i: usize = 0;
    while i < articles.len()
        invariant
            i <= articles@.len(),
            tagv == (match tag {
                Some(t) => Some(t@),
                None => None::<Seq<char>>,
            }),
            pred == (|a: Article| article_selected(a, tagv, author)),
            forall|j: int|
                0 <= j < articles@.len() && article_selected(#[trigger] articles@[j], tagv, author)
                    ==> feedable(articles@[j]),
            picked@.len() == articles@.take(i as int).filter(pred).len(),
            forall|j: int|
                0 <= j < picked@.len() ==> is_short_clone(
                    #[trigger] picked@[j],
                    articles@.take(i as int).filter(pred)[j],
                ) && feedable(articles@.take(i as int).filter(pred)[j]),
        decreases articles@.len() - i,
    {
        let a = &articles[i];
        let selected = article_matches(a, tag, author);
        proof {
            reveal_with_fuel(Seq::filter, 1);
            assert(articles@.take(i + 1).drop_last() =~= articles@.take(i as int));
            assert(articles@.take(i + 1).last() == articles@[i as int]);
        }
        if selected {
            let short = a.short_clone();
            picked.push(short);
        }
        i = i + 1;
    }
    proof {
        assert(articles@.take(articles@.len() as int) =~= articles@);
    }
    picked
}

/// Whether the article is selected for `tag` and `author`.
pub(crate) fn article_matches(a: &Article, tag: Option<&String>, author: Option<u32>) -> (r: bool)
    ensures
        r == article_selected(
            *a,
            match tag {
                Some(t) => Some(t@),
                None => None,
            },
            author,
        ),
{
    if let Some(u) = author {
        if a.userid != u {
            return false;
        }
    }
    match tag {
        Some(t) => {
            let mut k: usize = 0;
            while k < a.tags.len()
                invariant
                    k <= a.tags@.len(),
                    author matches Some(u) ==> a.userid == u,
                    tag == Some(t),
                    forall|j: int| 0 <= j < k ==> (#[trigger] a.tags@[j])@ != t@,
                decreases a.tags@.len() - k,
            {
                if a.tags[k] == *t {
                    assert(a.tags@[k as int]@ == t@);
                    return true;
                }
                k = k + 1;
            }
            false
        },
        None => true,
    }
}

/// The feed document of a channel: the XML prolog and the channel's XML.
pub open spec fn feed_document(ch: FeedChannel) -> Seq<char> {
    xml_prolog() + rss_channel_text(header_of(ch), ch.items@.map_values(|i: FeedItem| item_model(i)))
}

/// The RSS item of an article.
pub open spec fn article_item(a: Article) -> ItemModel {
    ItemModel {
        title: a.title@,
        link: article_link(a),
        description: decode_utf8(description_bytes(a)),
        author: a.username@,
        guid: article_link(a),
        pub_date: Some(rfc2822_utc(a.posted)),
    }
}

/// The header of the blog's channels under a title and a link.
pub open spec fn blog_header(title: Seq<char>, link: Seq<char>) -> ChannelHeader {
    ChannelHeader {
        title,
        link,
        description: feed_description(),
        language: "en-us"@,
        copyright: "2018 Andrew Prindle"@,
        ttl: "720"@,
        search_title: "Search"@,
        search_name: "q"@,
        search_description: "Search articles"@,
        search_link: BLOG_URL@ + "search"@,
    }
}

/// The feed document of the articles `selected` under a title and a link.
pub open spec fn articles_feed(selected: Seq<Article>, title: Seq<char>, link: Seq<char>) -> Seq<char> {
    xml_prolog() + rss_channel_text(
        blog_header(title, link),
        selected.map_values(|a: Article| article_item(a)),
    )
}

/// The document of a channel of articles is the articles' feed.
pub proof fn lemma_channel_document(ch: FeedChannel, selected: Seq<Article>, title: Seq<char>, link: Seq<char>)
    requires
        channel_of(ch, selected, title, link),
    ensures
        feed_document(ch) == articles_feed(selected, title, link),
{
    assert(header_of(ch) == blog_header(title, link));
    let items = ch.items@.map_values(|i: FeedItem| item_model(i));
    let arts = selected.map_values(|a: Article| article_item(a));
    assert forall|i: int| 0 <= i < items.len() implies items[i] == arts[i] by {
        let item = ch.items@[i];
        assert(item_of(item, selected[i]));
        encode_utf8_decode_utf8(item.description@);
    }
    assert(items =~= arts);
}

/// The feed document of a channel: the XML prolog and the channel as the
/// `rss` crate writes it.
pub fn render_feed(ch: &FeedChannel) -> (r: String)
    ensures
        r@ == feed_document(*ch),
{
    let mut rss = rss_channel_start(ch);
    let mut i: usize = 0;
    while i < ch.items.len()
        invariant
            i <= ch.items@.len(),
            rss_channel_header(rss) == Some(header_of(*ch)),
            rss_channel_items(rss) == ch.items@.take(i as int).map_values(|it: FeedItem| item_model(it)),
        decreases ch.items@.len() - i,
    {
        rss_channel_push(&mut rss, &ch.items[i]);
        assert(ch.items@.take(i + 1).map_values(|it: FeedItem| item_model(it)) =~= ch.items@.take(
            i as int,
        ).map_values(|it: FeedItem| item_model(it)).push(item_model(ch.items@[i as int])));
        i = i + 1;
    }
    assert(ch.items@.take(ch.items@.len() as int) =~= ch.items@);
    let text = rss_channel_text_of(&rss);
    let mut output = String::new();
    output.append("<?xml version=\"1.0\"?>");
    output.append(text.as_str());
    assert(output@ =~= feed_document(*ch));
    output
}

/// Every feed document opens with the XML prolog.
pub proof fn lemma_feed_opens_with_prolog(body: Seq<char>)
    ensures
        (xml_prolog() + body).len() >= xml_prolog().len(),
        (xml_prolog() + body).subrange(0, xml_prolog().len() as int) == xml_prolog(),
{
    assert((xml_prolog() + body).subrange(0, xml_prolog().len() as int) =~= xml_prolog());
}

// Maybe at some point make the custom RSS feeds use the rss::CategoryBuilder
//     This would make each tag an explicit category instead of a separate RSS feed
//     but would also require making the rss into one large feed
/// The feed of `articles` under an optional custom title and link (see
/// `custom_channel_title` and `custom_channel_link`).
pub fn create_rss_feed(articles: Vec<Article>, custom_title: Option<&String>, custom_link: Option<&String>) -> (r: String)
    requires
        forall|i: int| 0 <= i < articles@.len() ==> feedable(#[trigger] articles@[i]),
    ensures
        r@ == articles_feed(
            articles@,
            custom_channel_title(
                match custom_title {
                    Some(t) => Some(t@),
                    None => None,
                },
            ),
            custom_channel_link(
                match custom_link {
                    Some(t) => Some(t@),
                    None => None,
                },
            ),
        ),
{
    let ch = custom_feed_channel(&articles, None, None, custom_title, custom_link);
    proof {
        lemma_select_all(articles@);
        lemma_channel_document(
            ch,
            articles@,
            custom_channel_title(
                match custom_title {
                    Some(t) => Some(t@),
                    None => None,
                },
            ),
            custom_channel_link(
                match custom_link {
                    Some(t) => Some(t@),
                    None => None,
                },
            ),
        );
    }
    render_feed(&ch)
}

/// Without a tag or an author every article is selected.
pub proof fn lemma_select_all(articles: Seq<Article>)
    ensures
        selected_articles(articles, None, None) == articles,
    decreases articles.len(),
{
    reveal_with_fuel(Seq::filter, 1);
    if articles.len() > 0 {
        lemma_select_all(articles.drop_last());
        assert(articles.drop_last().push(articles.last()) =~= articles);
    } else {
        assert(articles.filter(|a: Article| article_selected(a, None, None)) =~= articles);
    }
}

/// The channel of the articles selected for `tag` and `author` under an
/// optional custom title and link.
pub fn custom_feed_channel(
    articles: &Vec<Article>,
    tag: Option<&String>,
    author: Option<u32>,
    custom_title: Option<&String>,
    custom_link: Option<&String>,
) -> (r: FeedChannel)
    requires
        forall|i: int|
            0 <= i < articles@.len() && article_selected(
                #[trigger] articles@[i],
                match tag {
                    Some(t) => Some(t@),
                    None => None,
                },
                author,
            ) ==> feedable(articles@[i]),
    ensures
        channel_of(
            r,
            selected_articles(
                articles@,
                match tag {
                    Some(t) => Some(t@),
                    None => None,
                },
                author,
            ),
            custom_channel_title(
                match custom_title {
                    Some(t) => Some(t@),
                    None => None,
                },
            ),
            custom_channel_link(
                match custom_link {
                    Some(t) => Some(t@),
                    None => None,
                },
            ),
        ),
{
    let mut title = String::new();
    match custom_title {
        Some(s) => {
            title.append("Vishus Blog - ");
            title.append(s.as_str());
        },
        None => {
            title.append("Vishus blog");
        },
    }
    let mut link = String::new();
    match custom_link {
        Some(s) => {
            link.append(BLOG_URL);
            link.append("/");
            link.append(s.as_str());
        },
        None => {
            link.append(BLOG_URL);
        },
    }
    feed_channel(articles, tag, author, title, link)
}

/// The main feed of `articles`, titled `Vishus Blog` and linked to the blog.
pub fn rss_output(articles: Vec<Article>) -> (r: String)
    requires
        forall|i: int| 0 <= i < articles@.len() ==> feedable(#[trigger] articles@[i]),
    ensures
        r@ == articles_feed(articles@, "Vishus Blog"@, BLOG_URL@),
{
    let ch = main_feed_channel(&articles);
    proof {
        lemma_select_all(articles@);
        lemma_channel_document(ch, articles@, "Vishus Blog"@, BLOG_URL@);
    }
    render_feed(&ch)
}

/// The channel of the main feed: every article, titled `Vishus Blog` and
/// linked to the blog.
pub fn main_feed_channel(articles: &Vec<Article>) -> (r: FeedChannel)
    requires
        forall|i: int| 0 <= i < articles@.len() ==> feedable(#[trigger] articles@[i]),
    ensures
        channel_of(r, selected_articles(articles@, None, None), "Vishus Blog"@, BLOG_URL@),
{
    feed_channel(
        articles,
        None,
        None,
        String::from_str("Vishus Blog"),
        String::from_str(BLOG_URL),
    )
}

} // verus!
