//! The feed of changes from the store, and the one task that hands each
//! change on to every session.

use crate::error::{FridgeError, StoreError};
use vstd::prelude::*;

verus! {

/// How many changes the channel to the sessions holds where nothing else is
/// configured.
pub const DEFAULT_BROADCAST_CAPACITY: usize = 100;

/// One finished change of a magnet, as the store reports it: where the
/// magnet was, where it is now, and what it looks like now.
#[derive(Clone, Debug, PartialEq, Eq)]
pub struct PgMagnetUpdate {
    pub id: i32,
    pub old_x: i32,
    pub old_y: i32,
    pub new_x: i32,
    pub new_y: i32,
    pub rotation: i32,
    pub z_index: i64,
    pub word: String,
}

/// What the broadcaster does next.
#[derive(Debug)]
pub enum FeedAction {
    /// Hand the change to the sessions. With `slow_consumers` set, the
    /// channel was full already: a session that lags will miss changes, and
    /// a warning is due. The broadcaster does not wait for it.
    Publish { update: PgMagnetUpdate, slow_consumers: bool },
    /// The connection to the store was lost for a moment: listen again.
    Listen,
    /// The server is shutting down: end without an error.
    Finish,
    /// The store failed: tell every task to shut down and end with this
    /// error.
    Abort(FridgeError),
}

/// What the broadcaster does about what it received, while the channel
/// holds `queued` changes of the `capacity` it has.
pub open spec fn feed_action(
    received: Result<Option<PgMagnetUpdate>, StoreError>,
    queued: usize,
    capacity: usize,
) -> FeedAction {
    match received {
        Ok(Some(update)) => FeedAction::Publish { update, slow_consumers: queued >= capacity },
        Ok(None) => FeedAction::Listen,
        Err(StoreError::PoolClosed) => FeedAction::Finish,
        Err(error) => FeedAction::Abort(FridgeError::Sqlx(error)),
    }
}

/// The capacity of the channel to the sessions: the configured one, or the
/// default.
pub fn broadcast_capacity(configured: Option<usize>) -> (capacity: usize)
    ensures
        capacity == match configured {
            Some(n) => n,
            None => DEFAULT_BROADCAST_CAPACITY,
        },
{
    match configured {
        Some(n) => n,
        None => DEFAULT_BROADCAST_CAPACITY,
    }
}

/// One turn of the broadcaster: what to do about what the listener
/// received, while the channel holds `queued` changes of its `capacity`.
pub fn broadcast_changes(
    received: Result<Option<PgMagnetUpdate>, StoreError>,
    queued: usize,
    capacity: usize,
) -> (action: FeedAction)
    ensures
        action == feed_action(received, queued, capacity),
{
    match received {
        Ok(Some(update)) => FeedAction::Publish { update, slow_consumers: queued >= capacity },
        Ok(None) => FeedAction::Listen,
        Err(StoreError::PoolClosed) => FeedAction::Finish,
        Err(error) => FeedAction::Abort(FridgeError::Sqlx(error)),
    }
}

} // verus!
