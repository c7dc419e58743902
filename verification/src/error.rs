//! The ways a session or the broadcaster can fail, and how a session ends
//! on each of them.

use crate::wire::{ClientUpdate, Frame};
use vstd::prelude::*;

verus! {

/// The status of a close frame.
#[derive(Clone, Copy, Debug, PartialEq, Eq, Structural)]
pub enum CloseCode {
    GoingAway,
    ProtocolError,
    UnsupportedData,
    InvalidPayload,
    PolicyViolation,
    MessageTooBig,
    InternalError,
    ServiceRestart,
}

/// How loudly an error is reported.
#[derive(Clone, Copy, Debug, PartialEq, Eq, Structural)]
pub enum LogLevel {
    Debug,
    Warn,
    Error,
}

/// What went wrong on the socket, as far as a session tells failures apart.
#[derive(Clone, Debug, PartialEq, Eq)]
pub enum TransportError {
    /// A payload was longer than the socket accepts.
    PayloadTooLong { len: usize, max_len: usize },
    /// Any other failure of reading or writing, with its description.
    Other(String),
}

/// What went wrong in the store, as far as the server tells failures apart.
#[derive(Clone, Debug, PartialEq, Eq)]
pub enum StoreError {
    /// An update named a magnet that does not exist.
    RowNotFound,
    /// The connection pool was closed: the server is shutting down.
    PoolClosed,
    /// Any other failure, with its description.
    Other(String),
}

/// Why a session stops, or why a frame of it was dropped.
#[derive(Debug)]
pub enum FridgeError {
    /// The server is shutting down.
    Shutdown,
    /// The frame came too soon after the ones before it.
    RateLimited,
    /// The client closed the connection, with the status and reason it gave.
    ClientClose(Option<(u16, String)>),
    /// No binary frame came for too long.
    IdleTimeout,
    /// A frame of a kind that a session does not take.
    UnsupportedMessage(Frame),
    /// A binary frame that is no client record, with the reason.
    InvalidMessage(String),
    /// A client record that breaks the rules on where a client may look
    /// and what it may move.
    OutOfBounds(ClientUpdate),
    /// The socket failed.
    Tungstenite(TransportError),
    /// The store failed.
    Sqlx(StoreError),
    /// Anything else, with a description.
    Other(String),
}

/// How a session goes on after an error.
#[derive(Clone, Copy, Debug, PartialEq, Eq, Structural)]
pub struct Closing {
    /// The status of the close frame to send first, if one is to be sent.
    /// Sending it may fail; the session ends all the same.
    pub frame: Option<CloseCode>,
    /// Whether the session ends.
    pub ends_session: bool,
}

impl CloseCode {
    /// The status as the number that goes into the close frame.
    pub open spec fn number(self) -> u16 {
        match self {
            CloseCode::GoingAway => 1001,
            CloseCode::ProtocolError => 1002,
            CloseCode::UnsupportedData => 1003,
            CloseCode::InvalidPayload => 1007,
            CloseCode::PolicyViolation => 1008,
            CloseCode::MessageTooBig => 1009,
            CloseCode::InternalError => 1011,
            CloseCode::ServiceRestart => 1012,
        }
    }

    /// The status as the number that goes into the close frame.
    pub fn code(&self) -> (n: u16)
        ensures
            n == self.number(),
    {
        match self {
            CloseCode::GoingAway => 1001,
            CloseCode::ProtocolError => 1002,
            CloseCode::UnsupportedData => 1003,
            CloseCode::InvalidPayload => 1007,
            CloseCode::PolicyViolation => 1008,
            CloseCode::MessageTooBig => 1009,
            CloseCode::InternalError => 1011,
            CloseCode::ServiceRestart => 1012,
        }
    }
}

impl FridgeError {
    /// The status with which a session closes on this error, if it sends a
    /// close frame at all.
    pub open spec fn close_code(self) -> Option<CloseCode> {
        match self {
            FridgeError::Shutdown => Some(CloseCode::ServiceRestart),
            FridgeError::IdleTimeout => Some(CloseCode::GoingAway),
            FridgeError::InvalidMessage(_) => Some(CloseCode::InvalidPayload),
            FridgeError::UnsupportedMessage(_) => Some(CloseCode::UnsupportedData),
            FridgeError::Tungstenite(TransportError::PayloadTooLong { .. }) => Some(
                CloseCode::MessageTooBig,
            ),
            FridgeError::Tungstenite(TransportError::Other(_)) => Some(CloseCode::ProtocolError),
            FridgeError::Sqlx(StoreError::RowNotFound) => Some(CloseCode::PolicyViolation),
            FridgeError::OutOfBounds(_) => Some(CloseCode::PolicyViolation),
            FridgeError::Sqlx(_) => Some(CloseCode::InternalError),
            FridgeError::Other(_) => Some(CloseCode::InternalError),
            FridgeError::ClientClose(_) => None,
            FridgeError::RateLimited => None,
        }
    }

    /// Every error ends the session but the one that only drops a frame.
    pub open spec fn is_terminal(self) -> bool {
        !(self is RateLimited)
    }

    /// How loudly the error is reported: a dropped frame as a warning, an
    /// unexpected failure of the store or the server as an error, all else
    /// for debugging only.
    pub open spec fn severity(self) -> LogLevel {
        match self {
            FridgeError::RateLimited => LogLevel::Warn,
            FridgeError::Sqlx(StoreError::RowNotFound) => LogLevel::Debug,
            FridgeError::Sqlx(_) => LogLevel::Error,
            FridgeError::Other(_) => LogLevel::Error,
            _ => LogLevel::Debug,
        }
    }

    /// The status of the close frame that answers this error: `None` where
    /// the session sends none, because the client closed first or because
    /// only a frame was dropped.
    pub fn to_close_message(&self) -> (code: Option<CloseCode>)
        ensures
            code == self.close_code(),
    {
        match self {
            FridgeError::Shutdown => Some(CloseCode::ServiceRestart),
            FridgeError::IdleTimeout => Some(CloseCode::GoingAway),
            FridgeError::InvalidMessage(_) => Some(CloseCode::InvalidPayload),
            FridgeError::UnsupportedMessage(_) => Some(CloseCode::UnsupportedData),
            FridgeError::Tungstenite(TransportError::PayloadTooLong { .. }) => Some(
                CloseCode::MessageTooBig,
            ),
            FridgeError::Tungstenite(_) => Some(CloseCode::ProtocolError),
            FridgeError::Sqlx(StoreError::RowNotFound) | FridgeError::OutOfBounds(_) => Some(
                CloseCode::PolicyViolation,
            ),
            FridgeError::Other(_) | FridgeError::Sqlx(_) => Some(CloseCode::InternalError),
            FridgeError::ClientClose(_) => None,
            FridgeError::RateLimited => None,
        }
    }

    /// How loudly the error is reported.
    pub fn log_level(&self) -> (level: LogLevel)
        ensures
            level == self.severity(),
    {
        match self {
            FridgeError::RateLimited => LogLevel::Warn,
            FridgeError::Sqlx(StoreError::RowNotFound) => LogLevel::Debug,
            FridgeError::Sqlx(_) | FridgeError::Other(_) => LogLevel::Error,
            _ => LogLevel::Debug,
        }
    }
}

/// What a session does about an error: which close frame it sends, and
/// whether it ends. It ends on every error but a dropped frame, and sends
/// at most one close frame.
pub fn close_with(error: &FridgeError) -> (closing: Closing)
    ensures
        closing.frame == error.close_code(),
        closing.ends_session == error.is_terminal(),
{
    match error {
        FridgeError::RateLimited => Closing { frame: None, ends_session: false },
        _ => Closing { frame: error.to_close_message(), ends_session: true },
    }
}

/// Only a dropped frame and a close by the client go without a close frame,
/// and only a dropped frame lets the session go on.
pub proof fn lemma_close_frames(error: FridgeError)
    ensures
        error.close_code() is None <==> error is RateLimited || error is ClientClose,
        !error.is_terminal() ==> error.close_code() is None,
{
}

} // verus!
