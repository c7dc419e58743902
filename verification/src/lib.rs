//! Session logic of a shared magnet canvas: the geometry of client windows,
//! the records on the wire, and the decisions that turn inbound frames and
//! store changes into what a session does next.

pub mod error;
pub mod feed;
pub mod geometry;
pub mod rate;
pub mod session;
pub mod wire;
