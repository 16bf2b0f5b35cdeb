//! The paginated listing of all articles.
use vstd::prelude::*;
use crate::cache::pages::{fails, shows, PageContext};

verus! {

/// What the article listing shows: the page of articles from the cache, or
/// else the one `fallback` loads, or else a notice that there are none.
/// `fallback` is only called when the cache has no page.
pub fn context<T, F: FnOnce() -> Option<T>>(cached: Option<T>, fallback: F) -> (r: PageContext<T>)
    requires
        cached is None ==> call_requires(fallback, ()),
    ensures
        match cached {
            Some(c) => shows(r, None, "/"@, c),
            None => exists|loaded: Option<T>|
                call_ensures(fallback, (), loaded) && match loaded {
                    Some(c) => shows(r, None, "/"@, c),
                    None => fails(r, "No articles found"@, "/"@, "No articles found."@),
                },
        },
{
    if let Some(articles) = cached {
        PageContext::Found { custom_title: None, page: String::from_str("/"), body: articles }
    } else {
        let loaded = fallback();
        match loaded {
            Some(articles) => PageContext::Found {
                custom_title: None,
                page: String::from_str("/"),
                body: articles,
            },
            None => PageContext::Failed {
                title: String::from_str("No articles found"),
                page: String::from_str("/"),
                message: String::from_str("No articles found."),
            },
        }
    }
}

} // verus!
