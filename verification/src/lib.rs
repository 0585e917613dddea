//! Durable outbox, draft slots and cache-aside reads for a desktop client of a
//! federated social network, with the rules of each stated as contracts.

pub mod auth;
pub mod backoff;
pub mod cache;
pub mod chat;
pub mod clock;
pub mod compose;
pub mod drafts;
pub mod embed;
pub mod error;
pub mod feeds;
pub mod ids;
pub mod json;
pub mod lists;
pub mod media;
pub mod notifications;
pub mod outbox;
pub mod paging;
pub mod playlist;
pub mod scheduler;
pub mod search;
pub mod session;
pub mod text;
pub mod timefmt;
pub mod timeline;
