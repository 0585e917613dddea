//! Custom feeds as handed to a front end.

use vstd::prelude::*;
use crate::paging::{clamped_limit, page_limit};
use crate::timeline::TimelinePost;

verus! {

/// The page size of a feed where a request names none.
pub const DEFAULT_FEED_PAGE: u8 = 50;

/// A feed.
pub struct FeedInfo {
    pub uri: String,
    pub cid: String,
    pub did: String,
    pub creator_did: String,
    pub creator_handle: String,
    pub creator_display_name: Option<String>,
    pub creator_avatar: Option<String>,
    pub display_name: String,
    pub description: Option<String>,
    pub avatar: Option<String>,
    pub like_count: u32,
    pub is_saved: bool,
}

/// A page of suggested feeds.
pub struct SuggestedFeedsResponse {
    pub feeds: Vec<FeedInfo>,
    pub cursor: Option<String>,
}

/// Asks for a page of a feed.
pub struct GetFeedRequest {
    pub feed_uri: String,
    pub limit: Option<u8>,
    pub cursor: Option<String>,
}

/// A page of a feed.
pub struct FeedPostsResponse {
    pub posts: Vec<TimelinePost>,
    pub cursor: Option<String>,
}

impl GetFeedRequest {
    /// The page size to ask the remote side for.
    pub fn page_size(&self) -> (limit: u8)
        ensures
            limit == clamped_limit(self.limit, DEFAULT_FEED_PAGE),
    {
        page_limit(self.limit, DEFAULT_FEED_PAGE)
    }
}

} // verus!
