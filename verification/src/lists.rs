//! Lists and their members as handed to a front end.

use vstd::prelude::*;
use vstd::string::*;
use crate::error::AppError;
use crate::text::opt_text;

verus! {

/// The page size of a list's feed where a request names none.
pub const DEFAULT_FEED_LIMIT: u8 = 50;

/// A list.
pub struct ListInfo {
    pub uri: String,
    pub cid: String,
    pub name: String,
    pub purpose: String,
    pub description: Option<String>,
    pub avatar: Option<String>,
    pub creator_did: String,
    pub creator_handle: String,
    pub creator_display_name: Option<String>,
    pub creator_avatar: Option<String>,
    pub member_count: u32,
}

/// A member of a list.
pub struct ListMember {
    pub uri: String,
    pub did: String,
    pub handle: String,
    pub display_name: Option<String>,
    pub avatar: Option<String>,
}

/// A page of the lists of an account.
pub struct ActorListsResponse {
    pub lists: Vec<ListInfo>,
    pub cursor: Option<String>,
}

/// Asks for a list and a page of its members.
pub struct GetListRequest {
    pub list_uri: String,
    pub cursor: Option<String>,
}

/// A list and a page of its members.
pub struct ListDetailsResponse {
    pub list: ListInfo,
    pub members: Vec<ListMember>,
    pub cursor: Option<String>,
}

/// That an account is on a list, and the record that says so.
pub struct ListMembership {
    pub list_uri: String,
    pub listitem_uri: String,
}

/// The lists that an account is on.
pub struct SubjectMembershipsResponse {
    pub memberships: Vec<ListMembership>,
}

/// Creates a list.
pub struct CreateListRequest {
    pub name: String,
    pub purpose: String,
    pub description: Option<String>,
}

/// The list that was created.
pub struct CreateListResponse {
    pub uri: String,
    pub cid: String,
}

/// Changes the name and description of a list.
pub struct UpdateListRequest {
    pub list_uri: String,
    pub name: String,
    pub description: Option<String>,
}

/// Puts an account on a list.
pub struct AddListMemberRequest {
    pub list_uri: String,
    pub subject_did: String,
}

/// The record that puts the account on the list.
pub struct AddListMemberResponse {
    pub uri: String,
}

/// Asks for a page of the feed of a list.
pub struct GetListFeedRequest {
    pub list_uri: String,
    pub limit: u8,
    pub cursor: Option<String>,
}

/// A post in the feed of a list.
pub struct ListFeedPost {
    pub uri: String,
    pub cid: String,
    pub author_did: String,
    pub author_handle: String,
    pub author_display_name: Option<String>,
    pub author_avatar: Option<String>,
    pub is_repost: bool,
    pub reposted_by_handle: Option<String>,
    pub reposted_by_display_name: Option<String>,
    pub text: String,
    pub created_at: String,
    pub reply_count: u32,
    pub repost_count: u32,
    pub like_count: u32,
    pub is_liked: bool,
    pub is_reposted: bool,
    pub viewer_like: Option<String>,
    pub viewer_repost: Option<String>,
}

/// A page of the feed of a list.
pub struct ListFeedResponse {
    pub posts: Vec<ListFeedPost>,
    pub cursor: Option<String>,
}

/// The page size of a list's feed where a request names none.
pub fn default_feed_limit() -> (limit: u8)
    ensures
        limit == DEFAULT_FEED_LIMIT,
{
    DEFAULT_FEED_LIMIT
}

/// A description as it is written into a record: an empty one is left out.
pub open spec fn kept_description(description: Option<Seq<char>>) -> Option<Seq<char>> {
    match description {
        Some(text) => if text.len() == 0 {
            None
        } else {
            Some(text)
        },
        None => None,
    }
}

/// Leaves out an empty description.
pub fn non_empty_description(description: Option<String>) -> (kept: Option<String>)
    ensures
        opt_text(kept) == kept_description(opt_text(description)),
{
    match description {
        Some(text) => if text.as_str().is_empty() {
            None
        } else {
            Some(text)
        },
        None => None,
    }
}

/// Whether `key` is what follows the last `/` of `uri`, or all of `uri`
/// where it has none.
pub open spec fn is_record_key(uri: Seq<char>, key: Seq<char>) -> bool {
    &&& key.len() <= uri.len()
    &&& key == uri.subrange(uri.len() - key.len(), uri.len() as int)
    &&& !key.contains('/')
    &&& key.len() < uri.len() ==> uri[uri.len() - key.len() - 1] == '/'
}

/// Takes the record key out of the address of a record, such as
/// `at://did:example/app.bsky.feed.like/3k2a`: what follows the last `/`.
/// Every text has such a part, so this never fails.
pub fn parse_rkey_from_uri(uri: &str) -> (parsed: Result<String, AppError>)
    ensures
        parsed matches Ok(key) && is_record_key(uri@, key@),
{
    let n = uri.unicode_len();
    let mut start: usize = n;
    while start > 0 && uri.get_char(start - 1) != '/'
        invariant
            n == uri@.len(),
            start <= n,
            forall|k: int| start <= k < n ==> uri@[k] != '/',
        decreases start,
    {
        start = start - 1;
    }
    let key = uri.substring_char(start, n);
    proof {
        assert(key@ =~= uri@.subrange(uri@.len() - key@.len(), uri@.len() as int));
        assert forall|k: int| 0 <= k < key@.len() implies key@[k] != '/' by {
            assert(key@[k] == uri@[start + k]);
        }
    }
    Ok(key.to_owned())
}

/// The purpose of a list as the remote side names it: a list asked for as
/// `modlist` moderates, any other curates.
pub open spec fn purpose_text(purpose: Seq<char>) -> Seq<char> {
    if purpose == "modlist"@ {
        "app.bsky.graph.defs#modlist"@
    } else {
        "app.bsky.graph.defs#curatelist"@
    }
}

/// Names the purpose of a list for the remote side.
pub fn list_purpose(purpose: &str) -> (name: &'static str)
    ensures
        name@ == purpose_text(purpose@),
{
    if purpose.to_owned() == String::from_str("modlist") {
        "app.bsky.graph.defs#modlist"
    } else {
        "app.bsky.graph.defs#curatelist"
    }
}

/// Whether `at` is the place of the first of `members` that is the account
/// `subject`.
pub open spec fn is_first_member(members: Seq<ListMember>, subject: Seq<char>, at: int) -> bool {
    &&& 0 <= at < members.len()
    &&& members[at].did@ == subject
    &&& forall|k: int| 0 <= k < at ==> (#[trigger] members[k]).did@ != subject
}

/// Looks for an account among the members of a list. Where it is found, the
/// membership names the list and the record of the first member that is the
/// account.
pub fn membership_in(list_uri: &str, members: &Vec<ListMember>, subject_did: &str) -> (found:
    Option<ListMembership>)
    ensures
        match found {
            Some(membership) => {
                &&& membership.list_uri@ == list_uri@
                &&& exists|at: int|
                    is_first_member(members@, subject_did@, at) && membership.listitem_uri@
                        == members@[at].uri@
            },
            None => forall|k: int| 0 <= k < members@.len() ==> (#[trigger] members@[k]).did@
                != subject_did@,
        },
{
    let subject = subject_did.to_owned();
    let mut i: usize = 0;
    while i < members.len()
        invariant
            i <= members@.len(),
            subject@ == subject_did@,
            forall|k: int| 0 <= k < i ==> (#[trigger] members@[k]).did@ != subject_did@,
        decreases members@.len() - i,
    {
        if members[i].did == subject {
            assert(is_first_member(members@, subject_did@, i as int));
            return Some(
                ListMembership { list_uri: list_uri.to_owned(), listitem_uri: members[i].uri.clone() },
            );
        }
        i = i + 1;
    }
    None
}

} // verus!
