//! Search results as handed to a front end.

use vstd::prelude::*;
use vstd::string::*;
use crate::paging::{clamped_limit, page_limit};
use crate::text::opt_str_text;

verus! {

/// The page size of a search where a request names none.
pub const DEFAULT_SEARCH_LIMIT: u8 = 25;

/// The page size of each half of a quick search.
pub const QUICK_SEARCH_LIMIT: u8 = 5;

/// An account that was found.
pub struct SearchResultAuthor {
    pub did: String,
    pub handle: String,
    pub display_name: Option<String>,
    pub avatar: Option<String>,
    pub description: Option<String>,
}

/// A post that was found.
pub struct SearchResultPost {
    pub uri: String,
    pub cid: String,
    pub author: SearchResultAuthor,
    pub text: String,
    pub indexed_at: String,
    pub like_count: u32,
    pub repost_count: u32,
    pub reply_count: u32,
}

/// What a search found.
pub struct SearchResults {
    pub actors: Vec<SearchResultAuthor>,
    pub posts: Vec<SearchResultPost>,
    pub cursor: Option<String>,
}

/// The page size to ask the remote side for.
pub fn search_limit(requested: Option<u8>) -> (limit: u8)
    ensures
        limit == clamped_limit(requested, DEFAULT_SEARCH_LIMIT),
{
    page_limit(requested, DEFAULT_SEARCH_LIMIT)
}

/// The order of the posts found: the requested one, or the latest first.
pub open spec fn sort_order_text(requested: Option<Seq<char>>) -> Seq<char> {
    match requested {
        Some(order) => order,
        None => "latest"@,
    }
}

/// The order to ask the remote side for.
pub fn sort_order(requested: Option<&str>) -> (order: String)
    ensures
        order@ == sort_order_text(opt_str_text(requested)),
{
    match requested {
        Some(order) => order.to_owned(),
        None => String::from_str("latest"),
    }
}

} // verus!
