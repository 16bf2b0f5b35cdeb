//! The tag cloud.
use vstd::prelude::*;
use crate::cache::pages::{fails, shows, PageContext};

verus! {

/// What the tag cloud shows: the tags the cache holds, or a notice that
/// they could not be had.
pub fn context<T>(all_tags: Option<T>) -> (r: PageContext<T>)
    ensures
        match all_tags {
            Some(t) => shows(r, Some("Tag Cloud"@), "/all_tags"@, t),
            None => fails(r, "Error"@, "/all_tags"@, "Error retrieving tags"@),
        },
{
    match all_tags {
        Some(tags) => PageContext::Found {
            custom_title: Some(String::from_str("Tag Cloud")),
            page: String::from_str("/all_tags"),
            body: tags,
        },
        None => PageContext::Failed {
            title: String::from_str("Error"),
            page: String::from_str("/all_tags"),
            message: String::from_str("Error retrieving tags"),
        },
    }
}

} // verus!
