//! Request-handling and state-synchronization core of a remote-control client
//! for a streaming-music service.
//!
//! The crate models the client's decision logic: which remote operations a
//! request needs, how their results are reconciled into the shared application
//! state, the bounded LRU response caches, the pagination aggregator, the
//! retry plans for device connection and post-mutation playback refresh, and
//! the album de-duplication pass. The remote transport itself (HTTP, JSON,
//! authentication) is an external collaborator: callers perform the
//! [`request::RemoteAction`]s this crate plans and hand the typed results
//! back to the commit functions.

pub mod albums;
pub mod cache;
pub mod commit;
pub mod contexts;
pub mod cover;
pub mod dispatch;
pub mod library;
pub mod model;
pub mod pagewalk;
pub mod player;
pub mod request;
pub mod retry;
pub mod search;
pub mod state;
pub mod strkit;
