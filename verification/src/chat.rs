//! Conversations and messages as handed to a front end.

use vstd::prelude::*;

verus! {

/// The service that chat requests are passed on to.
pub const CHAT_PROXY_DID: &'static str = "did:web:api.bsky.chat";

/// The kind of that service.
pub const CHAT_SERVICE_TYPE: &'static str = "bsky_chat";

/// A member of a conversation.
pub struct ConversationMember {
    pub did: String,
    pub handle: String,
    pub display_name: Option<String>,
    pub avatar: Option<String>,
}

/// A message.
pub struct MessageInfo {
    pub id: String,
    pub rev: String,
    pub sender_did: String,
    pub text: String,
    pub sent_at: String,
}

/// A conversation.
pub struct ConversationInfo {
    pub id: String,
    pub rev: String,
    pub members: Vec<ConversationMember>,
    pub last_message: Option<MessageInfo>,
    pub unread_count: u32,
    pub muted: bool,
}

/// A page of conversations.
pub struct ConversationsResponse {
    pub conversations: Vec<ConversationInfo>,
    pub cursor: Option<String>,
}

/// Asks for a page of the messages of a conversation.
pub struct GetMessagesRequest {
    pub convo_id: String,
    pub cursor: Option<String>,
}

/// A page of messages.
pub struct MessagesResponse {
    pub messages: Vec<MessageInfo>,
    pub cursor: Option<String>,
}

/// Sends a message.
pub struct SendMessageRequest {
    pub convo_id: String,
    pub text: String,
}

/// Asks for the conversation of the given members.
pub struct GetConvoForMembersRequest {
    pub members: Vec<String>,
}

/// Asks for a conversation.
pub struct GetConvoRequest {
    pub convo_id: String,
}

/// Marks a conversation as read up to a message.
pub struct UpdateReadRequest {
    pub convo_id: String,
    pub message_id: String,
}

/// What marking as read gives back.
pub struct UpdateReadResponse {
    pub convo_id: String,
    pub unread_count: u32,
}

/// The number of unread messages over all conversations.
pub struct ChatUnreadCountResponse {
    pub count: u32,
}

/// The unread messages of a list of conversations, taken together.
pub open spec fn unread_total(counts: Seq<u32>) -> int
    decreases counts.len(),
{
    if counts.len() == 0 {
        0
    } else {
        unread_total(counts.drop_last()) + counts.last()
    }
}

proof fn lemma_unread_total_grows(counts: Seq<u32>, n: int)
    requires
        0 <= n <= counts.len(),
    ensures
        unread_total(counts.subrange(0, n)) <= unread_total(counts),
    decreases counts.len() - n,
{
    if n < counts.len() {
        lemma_unread_total_grows(counts, n + 1);
        assert(counts.subrange(0, n + 1).drop_last() =~= counts.subrange(0, n));
    } else {
        assert(counts.subrange(0, n) =~= counts);
    }
}

/// Adds up the unread messages of a list of conversations.
pub fn total_unread(counts: &Vec<u32>) -> (total: u32)
    requires
        unread_total(counts@) <= u32::MAX,
    ensures
        total == unread_total(counts@),
{
    let mut total: u32 = 0;
    let mut i: usize = 0;
    while i < counts.len()
        invariant
            i <= counts@.len(),
            total == unread_total(counts@.subrange(0, i as int)),
            unread_total(counts@) <= u32::MAX,
        decreases counts@.len() - i,
    {
        proof {
            lemma_unread_total_grows(counts@, i + 1);
            assert(counts@.subrange(0, i + 1).drop_last() =~= counts@.subrange(0, i as int));
        }
        total = total + counts[i];
        i = i + 1;
    }
    assert(counts@.subrange(0, i as int) =~= counts@);
    total
}

} // verus!
