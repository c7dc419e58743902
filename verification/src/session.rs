//! One session: what it does about each thing that reaches it.
//!
//! A session waits for the shutdown of the server, for the next change from
//! the store and for the next frame from its client, whichever comes first,
//! and for none of them longer than [`POLL_TIMEOUT`]. The functions here
//! decide what follows from each; whoever owns the socket and the store
//! carries it out.

use crate::error::{FridgeError, TransportError};
use crate::feed::PgMagnetUpdate;
use crate::geometry::{Shape, Window};
use crate::rate::{RateRing, RingView};
use crate::wire::{
    uuid_text, ClientMagnetUpdate, ClientUpdate, Frame, LocationUpdate, Magnet, MagnetUpdate,
    Readings,
};
use vstd::prelude::*;

verus! {

/// How long a session waits for something to happen before it looks at the
/// clock, in nanoseconds.
pub const POLL_TIMEOUT: u64 = 10_000_000_000;

/// How long a session may go without a binary frame from its client, in
/// nanoseconds.
pub const MAX_IDLE: u64 = 300_000_000_000;

/// What reaches a session.
#[derive(Debug)]
pub enum Event {
    /// The server is shutting down.
    Shutdown,
    /// A magnet changed in the store.
    Change(PgMagnetUpdate),
    /// The feed of changes broke off, or the session fell too far behind.
    FeedLost(String),
    /// What the socket read: a frame, a failure, or the end of the stream.
    Inbound(Option<Result<Frame, TransportError>>),
}

/// What a session does next.
#[derive(Clone, Debug, PartialEq, Eq)]
pub enum Action {
    /// Nothing.
    Nothing,
    /// Send a ping with an empty payload.
    Ping,
    /// Answer a ping with a pong of the same payload.
    Pong(Vec<u8>),
    /// Read the magnets of this area from the store and send them as one
    /// canvas update.
    Fetch(Shape),
    /// Write this move to the store in the name of the session.
    Store(ClientMagnetUpdate),
    /// Send this message.
    Emit(MagnetUpdate),
}

/// What a session keeps between events. Times are nanoseconds on a clock
/// that never runs backwards.
#[derive(Debug)]
pub struct SessionState {
    /// The 128-bit value of the id that the server gave the session.
    pub session_id: u128,
    /// What the client looks at.
    pub client_window: Window,
    /// The times of the frames accepted last.
    pub requests: RateRing,
    /// When the last binary frame was accepted, or when the session began.
    pub last_comms: u64,
}

impl PgMagnetUpdate {
    /// The magnet as it is after the change.
    pub open spec fn magnet(self) -> Magnet {
        Magnet {
            id: self.id,
            x: self.new_x,
            y: self.new_y,
            rotation: self.rotation,
            z_index: self.z_index,
            word: self.word,
        }
    }

    /// Where the magnet is after the change.
    pub open spec fn location(self) -> LocationUpdate {
        LocationUpdate {
            id: self.id,
            x: self.new_x,
            y: self.new_y,
            rotation: self.rotation,
            z_index: self.z_index,
        }
    }

    /// What a client that looks at `window` is told of the change: a move
    /// where the magnet was in view and still is, a creation where it came
    /// into view, a removal where it left, nothing where it was not in view
    /// and is not now.
    pub open spec fn seen_through(self, window: Window) -> Option<MagnetUpdate> {
        let before = window.covers(self.old_x as int, self.old_y as int);
        let after = window.covers(self.new_x as int, self.new_y as int);
        if after && before {
            Some(MagnetUpdate::Move(self.location()))
        } else if after {
            Some(MagnetUpdate::Create(self.magnet()))
        } else if before {
            Some(MagnetUpdate::Remove(self.id))
        } else {
            None
        }
    }
}

/// What follows from a record of the client, and the window after it.
///
/// A window must be valid, and its widened form must have coordinates for
/// corners. The session then looks at the widened window, and fetches what
/// the window as the client sent it shows and the old one did not. A move
/// must be allowed in the window. A record that breaks its rule is out of
/// bounds and leaves the window as it was.
pub open spec fn client_update_outcome(window: Window, update: ClientUpdate) -> (
    Window,
    Result<Action, FridgeError>,
) {
    match update {
        ClientUpdate::Window(new) => if new.is_nonempty() && new.can_clamp() {
            (
                new.clamped(),
                match window.unseen(new) {
                    Some(shape) => Ok(Action::Fetch(shape)),
                    None => Ok(Action::Nothing),
                },
            )
        } else {
            (window, Err(FridgeError::OutOfBounds(update)))
        },
        ClientUpdate::Magnet(magnet) => if magnet.allowed_in(window) {
            (window, Ok(Action::Store(magnet)))
        } else {
            (window, Err(FridgeError::OutOfBounds(update)))
        },
    }
}

/// What follows from the payload of a binary frame for a session that
/// looks at `window`, and the window after it: what follows from the record
/// that the payload carries, or an invalid message where it carries none.
pub open spec fn binary_outcome(window: Window, readings: Readings) -> (
    Window,
    Result<Action, FridgeError>,
) {
    match readings.record() {
        Some(update) => client_update_outcome(window, update),
        None => (window, Err(FridgeError::InvalidMessage(readings.failure))),
    }
}

/// What follows from anything the socket read but a binary frame: a pong
/// is ignored, a ping answered, a close or the end of the stream ends the
/// session without a word, a text frame is not supported, a failure of the
/// socket is passed on.
pub open spec fn plain_outcome(message: Option<Result<Frame, TransportError>>) -> Result<
    Action,
    FridgeError,
> {
    match message {
        Some(Ok(Frame::Pong(_))) => Ok(Action::Nothing),
        Some(Ok(Frame::Ping(payload))) => Ok(Action::Pong(payload)),
        Some(Ok(Frame::Close(status))) => Err(FridgeError::ClientClose(status)),
        Some(Ok(frame)) => Err(FridgeError::UnsupportedMessage(frame)),
        Some(Err(error)) => Err(FridgeError::Tungstenite(error)),
        None => Err(FridgeError::ClientClose(None)),
    }
}

/// Whether `after` and `result` are what follows from what the socket read
/// at `now`, for a session in state `before`.
///
/// The rate limit comes first, whatever was read: where the ring does not
/// accept the arrival, the result is `RateLimited` and nothing changes.
/// Else the ring takes note of it. A binary frame then counts as a sign of
/// life before it is looked at.
pub open spec fn inbound_outcome(
    before: SessionState,
    message: Option<Result<Frame, TransportError>>,
    now: u64,
    after: SessionState,
    result: Result<Action, FridgeError>,
) -> bool {
    &&& after.session_id == before.session_id
    &&& after.requests@ == before.requests@.step(now)
    &&& if !before.requests@.admits(now) {
        &&& result == Err::<Action, FridgeError>(FridgeError::RateLimited)
        &&& after.client_window == before.client_window
        &&& after.last_comms == before.last_comms
    } else if let Some(Ok(Frame::Binary(readings))) = message {
        &&& after.last_comms == now
        &&& (after.client_window, result) == binary_outcome(before.client_window, readings)
    } else {
        &&& result == plain_outcome(message)
        &&& after.client_window == before.client_window
        &&& after.last_comms == before.last_comms
    }
}

/// What a client that looks at `client_window` is to be told of a change,
/// if anything.
pub fn relevant_update(client_window: &Window, magnet_update: PgMagnetUpdate) -> (message: Option<
    MagnetUpdate,
>)
    ensures
        message == magnet_update.seen_through(*client_window),
{
    if client_window.contains(magnet_update.new_x, magnet_update.new_y) {
        if client_window.contains(magnet_update.old_x, magnet_update.old_y) {
            Some(
                MagnetUpdate::Move(
                    LocationUpdate {
                        id: magnet_update.id,
                        x: magnet_update.new_x,
                        y: magnet_update.new_y,
                        rotation: magnet_update.rotation,
                        z_index: magnet_update.z_index,
                    },
                ),
            )
        } else {
            Some(
                MagnetUpdate::Create(
                    Magnet {
                        id: magnet_update.id,
                        x: magnet_update.new_x,
                        y: magnet_update.new_y,
                        rotation: magnet_update.rotation,
                        z_index: magnet_update.z_index,
                        word: magnet_update.word,
                    },
                ),
            )
        }
    } else if client_window.contains(magnet_update.old_x, magnet_update.old_y) {
        Some(MagnetUpdate::Remove(magnet_update.id))
    } else {
        None
    }
}

/// Acts on a record of the client: checks it, and says what to fetch or to
/// store. A window that passes becomes the window of the session, widened.
pub fn handle_client_update(update: ClientUpdate, client_window: &mut Window) -> (result: Result<
    Action,
    FridgeError,
>)
    ensures
        (*final(client_window), result) == client_update_outcome(*old(client_window), update),
{
    match update {
        ClientUpdate::Window(window_update) => {
            if !window_update.is_valid() || !window_update.fits_clamp() {
                return Err(FridgeError::OutOfBounds(update));
            }
            let difference = client_window.difference(&window_update);
            *client_window = window_update.clamp();
            match difference {
                Some(shape) => Ok(Action::Fetch(shape)),
                None => Ok(Action::Nothing),
            }
        },
        ClientUpdate::Magnet(magnet_update) => {
            if !magnet_update.is_valid(client_window) {
                return Err(FridgeError::OutOfBounds(update));
            }
            Ok(Action::Store(magnet_update))
        },
    }
}

/// Acts on the payload of a binary frame: takes the record that it reads
/// as and acts on that. A payload that reads as no record is an invalid
/// message.
pub fn handle_websocket_binary(readings: Readings, client_window: &mut Window) -> (result: Result<
    Action,
    FridgeError,
>)
    ensures
        (*final(client_window), result) == binary_outcome(*old(client_window), readings),
{
    match readings.into_update() {
        Ok(update) => handle_client_update(update, client_window),
        Err(why) => Err(FridgeError::InvalidMessage(why)),
    }
}

impl SessionState {
    /// The state of a session that begins at `now`: it looks at the default
    /// window and has accepted no frame yet.
    pub fn new(session_id: u128, now: u64) -> (state: SessionState)
        ensures
            state.session_id == session_id,
            state.client_window == (Window { x1: 0, y1: 0, x2: 0, y2: 0 }),
            state.requests@ == RingView::fresh(),
            state.last_comms == now,
    {
        SessionState {
            session_id,
            client_window: Window { x1: 0, y1: 0, x2: 0, y2: 0 },
            requests: RateRing::new(),
            last_comms: now,
        }
    }

    /// Whether the session has been without a binary frame for longer than
    /// it may be.
    pub open spec fn idle_at(self, now: u64) -> bool {
        now - self.last_comms > MAX_IDLE
    }

    /// What a session tells its client first: its id.
    pub fn greeting(&self) -> (message: MagnetUpdate)
        ensures
            message matches MagnetUpdate::SessionIdUpdate(text) && text@ == uuid_text(
                self.session_id,
            ),
    {
        MagnetUpdate::session_id(self.session_id)
    }

    /// Acts on what the socket read at `now`.
    pub fn handle_websocket_message(
        &mut self,
        message: Option<Result<Frame, TransportError>>,
        now: u64,
    ) -> (result: Result<Action, FridgeError>)
        ensures
            inbound_outcome(*old(self), message, now, *final(self), result),
    {
        if !self.requests.accept(now) {
            return Err(FridgeError::RateLimited);
        }
        match message {
            Some(Ok(Frame::Binary(readings))) => {
                self.last_comms = now;
                handle_websocket_binary(readings, &mut self.client_window)
            },
            Some(Ok(Frame::Pong(_))) => Ok(Action::Nothing),
            Some(Ok(Frame::Close(status))) => Err(FridgeError::ClientClose(status)),
            Some(Ok(Frame::Ping(payload))) => Ok(Action::Pong(payload)),
            Some(Ok(frame)) => Err(FridgeError::UnsupportedMessage(frame)),
            Some(Err(error)) => Err(FridgeError::Tungstenite(error)),
            None => Err(FridgeError::ClientClose(None)),
        }
    }

    /// Acts on whatever reached the session first, at `now`: the shutdown
    /// ends it, a change is passed on as far as the client sees it, a frame
    /// is acted on.
    pub fn get_next_action(&mut self, event: Event, now: u64) -> (result: Result<
        Action,
        FridgeError,
    >)
        ensures
            match event {
                Event::Shutdown => *final(self) == *old(self) && result == Err::<
                    Action,
                    FridgeError,
                >(FridgeError::Shutdown),
                Event::Change(change) => *final(self) == *old(self) && result == Ok::<
                    Action,
                    FridgeError,
                >(
                    match change.seen_through(old(self).client_window) {
                        Some(message) => Action::Emit(message),
                        None => Action::Nothing,
                    },
                ),
                Event::FeedLost(reason) => *final(self) == *old(self) && result == Err::<
                    Action,
                    FridgeError,
                >(FridgeError::Other(reason)),
                Event::Inbound(message) => inbound_outcome(
                    *old(self),
                    message,
                    now,
                    *final(self),
                    result,
                ),
            },
    {
        match event {
            Event::Shutdown => Err(FridgeError::Shutdown),
            Event::Change(change) => match relevant_update(&self.client_window, change) {
                Some(message) => Ok(Action::Emit(message)),
                None => Ok(Action::Nothing),
            },
            Event::FeedLost(reason) => Err(FridgeError::Other(reason)),
            Event::Inbound(message) => self.handle_websocket_message(message, now),
        }
    }

    /// What a session does when nothing reached it for the length of
    /// [`POLL_TIMEOUT`] and the clock shows `now`: it gives up on a client
    /// that has been idle for too long, and pings any other.
    pub fn on_timeout(&self, now: u64) -> (result: Result<Action, FridgeError>)
        ensures
            result == if self.idle_at(now) {
                Err::<Action, FridgeError>(FridgeError::IdleTimeout)
            } else {
                Ok::<Action, FridgeError>(Action::Ping)
            },
    {
        if now > self.last_comms && now - self.last_comms > MAX_IDLE {
            Err(FridgeError::IdleTimeout)
        } else {
            Ok(Action::Ping)
        }
    }
}


/// What a client is told of a change goes by where the magnet was and where
/// it is, and by nothing else: each of the four cases has its one answer,
/// and every message speaks of the changed magnet as it is after the change.
pub proof fn lemma_change_seen(change: PgMagnetUpdate, window: Window)
    ensures
        ({
            let before = window.covers(change.old_x as int, change.old_y as int);
            let after = window.covers(change.new_x as int, change.new_y as int);
            let told = change.seen_through(window);
            &&& after && before <==> told == Some(MagnetUpdate::Move(change.location()))
            &&& after && !before <==> told == Some(MagnetUpdate::Create(change.magnet()))
            &&& !after && before <==> told == Some(MagnetUpdate::Remove(change.id))
            &&& !after && !before <==> told is None
        }),
{
}

/// While a client keeps its window, what it is told of one magnet is a
/// creation, then moves, then a removal. Of two changes of which the second
/// begins where the first ended: after a creation or a move comes a move or
/// a removal; after a removal or nothing comes a creation or nothing.
pub proof fn lemma_changes_in_turn(first: PgMagnetUpdate, second: PgMagnetUpdate, window: Window)
    requires
        second.old_x == first.new_x,
        second.old_y == first.new_y,
    ensures
        ({
            let one = first.seen_through(window);
            let two = second.seen_through(window);
            &&& one is Some && (one.unwrap() is Create || one.unwrap() is Move) ==> two is Some
                && (two.unwrap() is Move || two.unwrap() is Remove)
            &&& one is None || one.unwrap() is Remove ==> two is None || two.unwrap() is Create
        }),
{
}

/// A record of the client changes the window only where it is a window that
/// passes. The session then looks at a valid window that holds all of the
/// window that the client asked for.
pub proof fn lemma_window_after_update(window: Window, update: ClientUpdate)
    ensures
        ({
            let (after, result) = client_update_outcome(window, update);
            &&& result is Err || update is Magnet ==> after == window
            &&& result is Ok ==> (update matches ClientUpdate::Window(new) ==> after.is_nonempty()
                && new.within(after))
        }),
{
}

/// A frame that comes too soon is dropped and changes nothing but that: the
/// session looks at the same window, and counts the same last sign of life.
pub proof fn lemma_dropped_frame(
    before: SessionState,
    message: Option<Result<Frame, TransportError>>,
    now: u64,
    after: SessionState,
    result: Result<Action, FridgeError>,
)
    requires
        inbound_outcome(before, message, now, after, result),
    ensures
        (result is Err && result.unwrap_err() is RateLimited) <==> !before.requests@.admits(now),
        (result is Err && result.unwrap_err() is RateLimited) ==> after.client_window
            == before.client_window && after.last_comms == before.last_comms && after.requests@
            == before.requests@,
{
}

} // verus!
