//! The articles that carry a tag.
use vstd::prelude::*;
use crate::cache::pages::{fails, shows, PageContext};
use crate::text::{lowercase, to_lowercase};

verus! {

/// The query for the ids of the articles that carry `tag` (lowercased),
/// most recently modified first.
pub fn load_tag_aids_query(tag: &str) -> (r: String)
    ensures
        r@ == "SELECT aid FROM articles WHERE '"@ + lowercase(tag@)
            + "' = ANY(tag) ORDER BY modified DESC"@,
{
    let lower = to_lowercase(tag);
    let mut qrystr = String::new();
    qrystr.append("SELECT aid FROM articles WHERE '");
    qrystr.append(lower.as_str());
    qrystr.append("' = ANY(tag) ORDER BY modified DESC");
    qrystr
}

/// The ids a tag lookup yields: none when the query failed or found no
/// article.
pub fn load_tag_aids_result(rows: Option<Vec<u32>>) -> (r: Option<Vec<u32>>)
    ensures
        match rows {
            Some(v) => if v@.len() != 0 {
                r == Some(v)
            } else {
                r is None
            },
            None => r is None,
        },
{
    match rows {
        Some(aids) => {
            if aids.len() != 0 {
                Some(aids)
            } else {
                None
            }
        },
        None => None,
    }
}

/// What a tag's page shows after the articles for `tag` were looked up
/// (`loaded`): the page of articles, or a notice that there are none.
pub open spec fn tag_outcome<T>(r: PageContext<T>, tag: Seq<char>, loaded: Option<T>) -> bool {
    match loaded {
        Some(a) => shows(r, Some("Showing articles with tag '"@ + tag + "'"@), "/tag"@, a),
        None => fails(
            r,
            "No articles to display for tag '"@ + tag + "'"@,
            "/tag"@,
            "No artiles displayed for tag "@ + tag,
        ),
    }
}

/// What the page of the articles with `tag` shows: the articles from the
/// cache when it is enabled, else from `fallback` when that is enabled, else
/// a notice of the error. Only the source in use is called.
pub fn context<T, F: FnOnce() -> Option<T>, G: FnOnce() -> Option<T>>(
    tag: &str,
    cache_enabled: bool,
    cache_fallback: bool,
    cached: F,
    fallback: G,
) -> (r: PageContext<T>)
    requires
        cache_enabled ==> call_requires(cached, ()),
        !cache_enabled && cache_fallback ==> call_requires(fallback, ()),
    ensures
        cache_enabled ==> exists|loaded: Option<T>|
            call_ensures(cached, (), loaded) && tag_outcome(r, tag@, loaded),
        !cache_enabled && cache_fallback ==> exists|loaded: Option<T>|
            call_ensures(fallback, (), loaded) && tag_outcome(r, tag@, loaded),
        !cache_enabled && !cache_fallback ==> fails(
            r,
            "Error"@,
            "/tag"@,
            "Error retrieving articles."@,
        ),
{
    if cache_enabled {
        let loaded = cached();
        tag_page(tag, loaded)
    } else if cache_fallback {
        let loaded = fallback();
        tag_page(tag, loaded)
    } else {
        PageContext::Failed {
            title: String::from_str("Error"),
            page: String::from_str("/tag"),
            message: String::from_str("Error retrieving articles."),
        }
    }
}

fn tag_page<T>(tag: &str, loaded: Option<T>) -> (r: PageContext<T>)
    ensures
        tag_outcome(r, tag@, loaded),
{
    match loaded {
        Some(articles) => {
            let mut title = String::from_str("Showing articles with tag '");
            title.append(tag);
            title.append("'");
            PageContext::Found { custom_title: Some(title), page: String::from_str("/tag"), body: articles }
        },
        None => {
            let mut title = String::from_str("No articles to display for tag '");
            title.append(tag);
            title.append("'");
            let mut message = String::from_str("No artiles displayed for tag ");
            message.append(tag);
            PageContext::Failed { title, page: String::from_str("/tag"), message }
        },
    }
}

} // verus!
