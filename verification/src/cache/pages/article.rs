//! The page of a single article.
use vstd::prelude::*;
use crate::cache::pages::{fails, shows, Article, PageContext};
use crate::text::{decimal, push_decimal};

verus! {

/// What the page of article `aid` shows: the article from the cache
/// (`body`), or else the one `fallback` loads, each under its own title, or
/// else a notice that it could not be found. `fallback` is only called when
/// the cache has no article.
pub fn context<F: FnOnce() -> Option<Article>>(aid: u32, body: Option<Article>, fallback: F) -> (r:
    PageContext<Article>)
    requires
        body is None ==> call_requires(fallback, ()),
    ensures
        match body {
            Some(a) => shows(r, Some(a.title@), "/article"@, a),
            None => exists|loaded: Option<Article>|
                call_ensures(fallback, (), loaded) && match loaded {
                    Some(a) => shows(r, Some(a.title@), "/article"@, a),
                    None => fails(
                        r,
                        "Article "@ + decimal(aid as nat) + " not found"@,
                        "/article"@,
                        "The article could not be found."@,
                    ),
                },
        },
{
    let found = match body {
        Some(article) => Some(article),
        None => fallback(),
    };
    match found {
        Some(article) => {
            let title = article.title.clone();
            PageContext::Found {
                custom_title: Some(title),
                page: String::from_str("/article"),
                body: article,
            }
        },
        None => {
            let mut title = String::from_str("Article ");
            push_decimal(&mut title, aid as u64);
            title.append(" not found");
            PageContext::Failed {
                title,
                page: String::from_str("/article"),
                message: String::from_str("The article could not be found."),
            }
        },
    }
}

} // verus!
