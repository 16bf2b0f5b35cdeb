//! The articles of an author.
use vstd::prelude::*;
use crate::cache::pages::{fails, shows, PageContext};
use crate::text::{decimal, push_decimal};

verus! {

/// The query for the ids of all users.
pub const LOAD_AUTHORS_QUERY: &'static str = "SELECT userid FROM users";

/// The query for the ids of the articles by `userid`, most recently
/// modified first.
pub fn load_author_articles_query(userid: u32) -> (r: String)
    ensures
        r@ == "SELECT aid FROM articles WHERE author = "@ + decimal(userid as nat)
            + " ORDER BY modified DESC"@,
{
    let mut qrystr = String::new();
    qrystr.append("SELECT aid FROM articles WHERE author = ");
    push_decimal(&mut qrystr, userid as u64);
    qrystr.append(" ORDER BY modified DESC");
    qrystr
}

/// The authors a lookup yields: none when the query failed.
pub fn load_authors_result(rows: Option<Vec<u32>>) -> (r: Vec<u32>)
    ensures
        match rows {
            Some(v) => r == v,
            None => r@.len() == 0,
        },
{
    match rows {
        Some(users) => users,
        None => Vec::new(),
    }
}

/// What the page of an author's articles shows: the page of articles the
/// cache holds for the author, or a notice that there are none.
pub fn context<T>(found: Option<T>) -> (r: PageContext<T>)
    ensures
        match found {
            Some(a) => shows(r, Some("Showing articles by author"@), "/author"@, a),
            None => fails(
                r,
                "No articles to display"@,
                "/author"@,
                "No articles found for specified author."@,
            ),
        },
{
    match found {
        Some(articles) => PageContext::Found {
            custom_title: Some(String::from_str("Showing articles by author")),
            page: String::from_str("/author"),
            body: articles,
        },
        None => PageContext::Failed {
            title: String::from_str("No articles to display"),
            page: String::from_str("/author"),
            message: String::from_str("No articles found for specified author."),
        },
    }
}

} // verus!
