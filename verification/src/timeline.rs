//! Timelines, profiles, follow lists and threads as handed to a front end,
//! and the small decisions made on the way to the remote side.

use vstd::prelude::*;
use vstd::string::*;
use crate::media::EmbedView;
use crate::text::opt_str_text;

verus! {

/// The page size where a request names none.
pub const DEFAULT_LIMIT: u8 = 50;

/// The depth of a thread where a request names none.
pub const DEFAULT_THREAD_DEPTH: u8 = 6;

/// Asks for a page of the home timeline.
#[derive(Clone, Debug)]
pub struct TimelineRequest {
    pub limit: u8,
    /// Where the page starts; `None` for the root view.
    pub cursor: Option<String>,
}

/// A post in a timeline.
#[derive(Clone, Debug)]
pub struct TimelinePost {
    pub uri: String,
    pub cid: String,
    pub author_did: String,
    pub author_handle: String,
    pub author_display_name: Option<String>,
    pub author_avatar: Option<String>,
    pub is_repost: bool,
    pub reposted_by_handle: Option<String>,
    pub reposted_by_display_name: Option<String>,
    pub text: String,
    pub created_at: String,
    pub reply_count: u32,
    pub repost_count: u32,
    pub like_count: u32,
    pub is_liked: bool,
    pub is_reposted: bool,
    pub viewer_like: Option<String>,
    pub viewer_repost: Option<String>,
    /// What the post embeds, as JSON text.
    pub embed: Option<String>,
}

/// A page of a timeline.
#[derive(Clone, Debug)]
pub struct TimelineResponse {
    pub posts: Vec<TimelinePost>,
    pub cursor: Option<String>,
}

/// Asks for a profile.
#[derive(Clone, Debug)]
pub struct ProfileRequest {
    pub handle: String,
}

/// A profile.
#[derive(Clone, Debug)]
pub struct ProfileResponse {
    pub did: String,
    pub handle: String,
    pub display_name: Option<String>,
    pub description: Option<String>,
    pub avatar: Option<String>,
    pub banner: Option<String>,
    pub followers_count: u32,
    pub follows_count: u32,
    pub posts_count: u32,
    pub is_following: bool,
    pub is_followed_by: bool,
    pub viewer_following: Option<String>,
    pub viewer_muted: bool,
    pub viewer_blocking: Option<String>,
}

/// Announces a fresh snapshot of a profile.
#[derive(Clone, Debug)]
pub struct ProfileUpdatedEvent {
    pub handle: String,
    pub profile: ProfileResponse,
}

/// Asks for a page of followers or of follows.
#[derive(Clone, Debug)]
pub struct FollowListRequest {
    pub actor: String,
    pub limit: u8,
    pub cursor: Option<String>,
}

/// An account in a follow list.
#[derive(Clone, Debug)]
pub struct FollowListItem {
    pub did: String,
    pub handle: String,
    pub display_name: Option<String>,
    pub avatar: Option<String>,
    pub description: Option<String>,
    pub is_following: bool,
    pub is_followed_by: bool,
}

/// A page of a follow list.
#[derive(Clone, Debug)]
pub struct FollowListResponse {
    pub items: Vec<FollowListItem>,
    pub cursor: Option<String>,
}

/// Asks for a thread.
pub struct PostThreadRequest {
    pub uri: String,
    pub depth: Option<u8>,
}

/// A post in a thread.
pub struct ThreadPost {
    pub uri: String,
    pub cid: String,
    pub author_did: String,
    pub author_handle: String,
    pub author_display_name: Option<String>,
    pub author_avatar: Option<String>,
    pub text: String,
    pub created_at: String,
    pub reply_count: u32,
    pub repost_count: u32,
    pub like_count: u32,
    pub is_liked: bool,
    pub is_reposted: bool,
    pub viewer_like: Option<String>,
    pub viewer_repost: Option<String>,
    pub embed: Option<EmbedView>,
}

/// A thread: a post, what it answers, and the answers to it.
pub struct ThreadResponse {
    pub post: ThreadPost,
    pub parent: Option<Box<ThreadResponse>>,
    pub replies: Vec<ThreadResponse>,
}

/// Asks for a page of an author's feed.
pub struct AuthorFeedRequest {
    pub handle: String,
    pub limit: u8,
    pub cursor: Option<String>,
    /// `posts`, `replies` or `likes`.
    pub filter: Option<String>,
}

/// The page size where a request names none.
pub fn default_limit() -> (limit: u8)
    ensures
        limit == DEFAULT_LIMIT,
{
    DEFAULT_LIMIT
}

/// The depth to ask a thread for: the requested one, or
/// [`DEFAULT_THREAD_DEPTH`], between 1 and 100.
pub open spec fn clamped_depth(requested: Option<u8>) -> u16 {
    let wanted = match requested {
        Some(depth) => depth,
        None => DEFAULT_THREAD_DEPTH,
    };
    if wanted < 1 {
        1
    } else if wanted > 100 {
        100
    } else {
        wanted as u16
    }
}

/// Computes the depth to ask a thread for.
pub fn thread_depth(requested: Option<u8>) -> (depth: u16)
    ensures
        depth == clamped_depth(requested),
        1 <= depth <= 100,
{
    let wanted = match requested {
        Some(depth) => depth,
        None => DEFAULT_THREAD_DEPTH,
    };
    if wanted < 1 {
        1
    } else if wanted > 100 {
        100
    } else {
        wanted as u16
    }
}

/// Which of an author's posts are wanted.
#[derive(Clone, Copy, Debug, PartialEq, Eq, Structural)]
pub enum AuthorFeedKind {
    /// The author's own posts, without replies.
    Posts,
    /// The replies only.
    Replies,
    /// What the author liked.
    Likes,
}

/// The kind that a filter word stands for; anything but `replies` and
/// `likes`, and no word at all, stands for the posts.
pub open spec fn feed_kind_of(filter: Option<Seq<char>>) -> AuthorFeedKind {
    if filter == Some("likes"@) {
        AuthorFeedKind::Likes
    } else if filter == Some("replies"@) {
        AuthorFeedKind::Replies
    } else {
        AuthorFeedKind::Posts
    }
}

/// Reads the filter word of a request.
pub fn author_feed_kind(filter: Option<&str>) -> (kind: AuthorFeedKind)
    ensures
        kind == feed_kind_of(opt_str_text(filter)),
{
    match filter {
        Some(word) => {
            let word = word.to_owned();
            if word == String::from_str("likes") {
                AuthorFeedKind::Likes
            } else if word == String::from_str("replies") {
                AuthorFeedKind::Replies
            } else {
                AuthorFeedKind::Posts
            }
        },
        None => AuthorFeedKind::Posts,
    }
}

impl AuthorFeedKind {
    /// The filter that the remote side is asked with. Likes are read from
    /// another endpoint and have none.
    pub open spec fn remote_filter_text(self) -> Option<Seq<char>> {
        match self {
            AuthorFeedKind::Posts => Some("posts_no_replies"@),
            AuthorFeedKind::Replies => Some("posts_with_replies"@),
            AuthorFeedKind::Likes => None,
        }
    }

    /// The filter that the remote side is asked with.
    pub fn remote_filter(&self) -> (filter: Option<&'static str>)
        ensures
            opt_str_text(filter) == self.remote_filter_text(),
    {
        match self {
            AuthorFeedKind::Posts => Some("posts_no_replies"),
            AuthorFeedKind::Replies => Some("posts_with_replies"),
            AuthorFeedKind::Likes => None,
        }
    }

    /// Whether a post of the page that came back is shown: the remote side
    /// mixes posts among the replies, so under `Replies` only replies are.
    pub fn shows(&self, is_reply: bool) -> (shown: bool)
        ensures
            shown == (*self is Replies ==> is_reply),
    {
        match self {
            AuthorFeedKind::Replies => is_reply,
            _ => true,
        }
    }
}

/// The names under which the likes of an account are asked for once more
/// after asking under `actor` has failed: the handle and the id that the
/// profile resolved to, in this order, each unless it is `actor` itself.
pub open spec fn other_names(actor: Seq<char>, handle: Seq<char>, did: Seq<char>) -> Seq<Seq<char>> {
    let first = if handle != actor {
        seq![handle]
    } else {
        Seq::empty()
    };
    if did != actor {
        first.push(did)
    } else {
        first
    }
}

/// Lists the names to ask under once more.
pub fn retry_names(actor: &str, handle: &str, did: &str) -> (names: Vec<String>)
    ensures
        names@.len() == other_names(actor@, handle@, did@).len(),
        forall|i: int|
            0 <= i < names@.len() ==> (#[trigger] names@[i])@ == other_names(actor@, handle@, did@)[i],
{
    let actor = actor.to_owned();
    let handle = handle.to_owned();
    let did = did.to_owned();
    let mut names: Vec<String> = Vec::new();
    if handle != actor {
        names.push(handle);
    }
    if did != actor {
        names.push(did);
    }
    names
}

/// Says how a post came into a feed, from who reposted it, if anyone: whether
/// it is a repost, and the handle and display name of the reposter.
pub fn repost_context(reposter: Option<(String, Option<String>)>) -> (context: (
    bool,
    Option<String>,
    Option<String>,
))
    ensures
        match reposter {
            Some((handle, display_name)) => context == (true, Some(handle), display_name),
            None => context == (false, None::<String>, None::<String>),
        },
{
    match reposter {
        Some((handle, display_name)) => (true, Some(handle), display_name),
        None => (false, None, None),
    }
}

} // verus!
