//! Pagination, response building and feed assembly for a blog.
use vstd::prelude::*;

pub mod cache;
pub mod collate;
pub mod pages;
pub mod xpress;
pub mod text;

verus! {
} // verus!
