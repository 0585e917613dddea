//! Notifications as handed to a front end.

use vstd::prelude::*;
use vstd::string::*;

verus! {

/// The page size where a request names none.
pub const DEFAULT_NOTIFICATION_LIMIT: u8 = 25;

/// Who caused a notification.
#[derive(Clone, Debug)]
pub struct NotificationAuthor {
    pub did: String,
    pub handle: String,
    pub display_name: Option<String>,
    pub avatar: Option<String>,
}

/// The record of a like. It carries nothing.
#[derive(Clone, Debug)]
pub struct LikeRecord {
}

/// The record of a post.
#[derive(Clone, Debug)]
pub struct PostRecord {
    pub text: String,
}

/// What a notification is about.
#[derive(Clone, Debug)]
pub enum NotificationRecord {
    Like(LikeRecord),
    Repost,
    Follow,
    Post(PostRecord),
    Reply(PostRecord),
    Quote(PostRecord),
    Unknown,
}

/// A notification.
#[derive(Clone, Debug)]
pub struct NotificationInfo {
    pub uri: String,
    pub cid: String,
    pub author: NotificationAuthor,
    pub reason: String,
    pub reason_subject: Option<String>,
    pub is_read: bool,
    pub indexed_at: String,
    pub record: Option<NotificationRecord>,
}

/// A page of notifications.
#[derive(Clone, Debug)]
pub struct NotificationsResponse {
    pub notifications: Vec<NotificationInfo>,
    pub cursor: Option<String>,
}

/// The shape of record that a reason stands for.
#[derive(Clone, Copy, Debug, PartialEq, Eq, Structural)]
pub enum RecordShape {
    Like,
    Repost,
    Follow,
    Post,
    Unknown,
}

/// The shape that goes with a reason: likes, reposts and follows have their
/// own; replies, mentions and quotes are posts; anything else is unknown.
pub open spec fn shape_of(reason: Seq<char>) -> RecordShape {
    if reason == "like"@ {
        RecordShape::Like
    } else if reason == "repost"@ {
        RecordShape::Repost
    } else if reason == "follow"@ {
        RecordShape::Follow
    } else if reason == "reply"@ || reason == "mention"@ || reason == "quote"@ {
        RecordShape::Post
    } else {
        RecordShape::Unknown
    }
}

impl NotificationRecord {
    /// The shape of the record. A reply and a quote are posts.
    pub open spec fn shape(self) -> RecordShape {
        match self {
            NotificationRecord::Like(_) => RecordShape::Like,
            NotificationRecord::Repost => RecordShape::Repost,
            NotificationRecord::Follow => RecordShape::Follow,
            NotificationRecord::Post(_) => RecordShape::Post,
            NotificationRecord::Reply(_) => RecordShape::Post,
            NotificationRecord::Quote(_) => RecordShape::Post,
            NotificationRecord::Unknown => RecordShape::Unknown,
        }
    }
}

/// Builds the record that a notification of the given reason carries. A post
/// is given without its text, which the notification does not bring.
pub fn record_for_reason(reason: &str) -> (record: NotificationRecord)
    ensures
        record.shape() == shape_of(reason@),
        shape_of(reason@) is Post ==> (record matches NotificationRecord::Post(post)
            && post.text@.len() == 0),
{
    let reason = reason.to_owned();
    if reason == String::from_str("like") {
        NotificationRecord::Like(LikeRecord {  })
    } else if reason == String::from_str("repost") {
        NotificationRecord::Repost
    } else if reason == String::from_str("follow") {
        NotificationRecord::Follow
    } else if reason == String::from_str("reply") || reason == String::from_str("mention")
        || reason == String::from_str("quote") {
        NotificationRecord::Post(PostRecord { text: String::new() })
    } else {
        NotificationRecord::Unknown
    }
}

} // verus!
