//! The records that a session exchanges with its client, and the form of
//! what the session sends.
//!
//! Every frame carries one MessagePack value. What a session sends travels
//! as the array of its fields in the order of their declaration, without
//! field names and without a tag. What a client sends is a record as the
//! array of its fields or as a map from their names. Whoever owns the socket
//! reads it, once as a magnet update and once as a window; which of the two
//! readings counts is decided here.

use crate::geometry::Window;
use vstd::prelude::*;

verus! {

/// The highest magnet id that a client may name.
pub const MAX_MAGNET_ID: i32 = 20_000_100;

/// A rotation is given in degrees, a full turn either way at most.
pub const MAX_ROTATION: i32 = 360;

/// How far outside its window a client may put a magnet.
pub const WINDOW_MARGIN: i32 = 100;

/// The world reaches this far from the origin along each axis.
pub const WORLD_EDGE: i32 = 500_000;

/// The error of `rmp_serde::to_vec`. Nothing of it is read here.
#[verifier::external_type_specification]
#[verifier::external_body]
pub struct ExEncodeError(rmp_serde::encode::Error);

/// The fields of a magnet update in order: the flag, the id, `x`, `y` and
/// the rotation.
pub type MagnetFields = (bool, i32, i32, i32, i32);

/// The corners of a window in order: `x1`, `y1`, `x2` and `y2`.
pub type WindowFields = (i32, i32, i32, i32);

/// What the payload of a binary frame reads as. The payload is read twice,
/// each time as one kind of record.
#[derive(Clone, Debug, PartialEq, Eq)]
pub struct Readings {
    /// The fields of the magnet update that the payload reads as, if it
    /// reads as one.
    pub magnet: Option<MagnetFields>,
    /// The corners of the window that the payload reads as, if it reads as
    /// one.
    pub window: Option<WindowFields>,
    /// Why the payload is no record, where it reads as neither.
    pub failure: String,
}

/// A frame as it comes off the socket.
#[derive(Clone, Debug, PartialEq, Eq)]
pub enum Frame {
    /// A binary frame, with what its payload reads as.
    Binary(Readings),
    Text(String),
    Ping(Vec<u8>),
    Pong(Vec<u8>),
    /// A close frame, with the status and the reason where it carries them.
    Close(Option<(u16, String)>),
}

/// A magnet as a client sees it.
#[derive(Clone, Debug, PartialEq, Eq)]
pub struct Magnet {
    pub id: i32,
    pub x: i32,
    pub y: i32,
    pub rotation: i32,
    pub z_index: i64,
    pub word: String,
}

/// Where a magnet that the client already shows has gone.
#[derive(Clone, Copy, Debug, PartialEq, Eq, Structural)]
pub struct LocationUpdate {
    pub id: i32,
    pub x: i32,
    pub y: i32,
    pub rotation: i32,
    pub z_index: i64,
}

/// What a session sends to its client.
#[derive(Clone, Debug, PartialEq, Eq)]
pub enum MagnetUpdate {
    /// A magnet came into view.
    Create(Magnet),
    /// A magnet in view moved and stays in view.
    Move(LocationUpdate),
    /// The magnet with this id left the view.
    Remove(i32),
    /// The magnets of an area that came into view.
    CanvasUpdate(Vec<Magnet>),
    /// The id of the session, as the first frame of a connection.
    SessionIdUpdate(String),
}

/// A client's wish to move one magnet.
#[derive(Clone, Copy, Debug, PartialEq, Eq, Structural)]
pub struct ClientMagnetUpdate {
    /// Tells the record from a window; its value is not read.
    pub is_magnet_update: bool,
    pub id: i32,
    pub x: i32,
    pub y: i32,
    pub rotation: i32,
}

/// What a client sends in a binary frame.
#[derive(Clone, Copy, Debug, PartialEq, Eq, Structural)]
pub enum ClientUpdate {
    /// The client looks at this window from now on.
    Window(Window),
    /// The client moved a magnet.
    Magnet(ClientMagnetUpdate),
}

/// A value as the serializer is handed it: an integer, a text, or a list of
/// such values.
pub enum Wire {
    Int(int),
    Text(Seq<char>),
    List(Seq<Wire>),
}

/// The bytes that `rmp_serde::to_vec` gives for a value: its MessagePack
/// form, an integer in the shortest form that holds it, a tuple or a list as
/// an array.
pub uninterp spec fn msgpack(value: Wire) -> Seq<u8>;

/// The text that `uuid::Uuid` prints for the id with this 128-bit value:
/// lower-case hexadecimal digits in five groups with hyphens between them.
pub uninterp spec fn uuid_text(id: u128) -> Seq<char>;

impl Magnet {
    /// The magnet on the wire: its six fields in order.
    pub open spec fn wire(self) -> Wire {
        Wire::List(
            seq![
                Wire::Int(self.id as int),
                Wire::Int(self.x as int),
                Wire::Int(self.y as int),
                Wire::Int(self.rotation as int),
                Wire::Int(self.z_index as int),
                Wire::Text(self.word@),
            ],
        )
    }
}

impl LocationUpdate {
    /// The update on the wire: its five fields in order.
    pub open spec fn wire(self) -> Wire {
        Wire::List(
            seq![
                Wire::Int(self.id as int),
                Wire::Int(self.x as int),
                Wire::Int(self.y as int),
                Wire::Int(self.rotation as int),
                Wire::Int(self.z_index as int),
            ],
        )
    }
}

impl MagnetUpdate {
    /// The message on the wire. No tag says which kind it is: a creation is
    /// the magnet, a move the update, a removal the bare id, a canvas update
    /// the list of its magnets, a session id the bare text.
    pub open spec fn wire(self) -> Wire {
        match self {
            MagnetUpdate::Create(magnet) => magnet.wire(),
            MagnetUpdate::Move(update) => update.wire(),
            MagnetUpdate::Remove(id) => Wire::Int(id as int),
            MagnetUpdate::CanvasUpdate(magnets) => Wire::List(
                magnets@.map_values(|m: Magnet| m.wire()),
            ),
            MagnetUpdate::SessionIdUpdate(text) => Wire::Text(text@),
        }
    }

    /// The payload of the binary frame that carries the message.
    ///
    /// Fails only where the serializer does, which it has no cause to on
    /// these values unless memory runs out.
    pub fn encode(&self) -> (out: Result<Vec<u8>, rmp_serde::encode::Error>)
        ensures
            out matches Ok(bytes) ==> bytes@ == msgpack(self.wire()),
    {
        match self {
            MagnetUpdate::Create(magnet) => pack_magnet(magnet),
            MagnetUpdate::Move(update) => pack_location(update),
            MagnetUpdate::Remove(id) => pack_id(*id),
            MagnetUpdate::CanvasUpdate(magnets) => pack_magnets(magnets),
            MagnetUpdate::SessionIdUpdate(text) => pack_text(text.as_str()),
        }
    }

    /// The first message of a session: its id as text.
    pub fn session_id(id: u128) -> (message: MagnetUpdate)
        ensures
            message matches MagnetUpdate::SessionIdUpdate(text) && text@ == uuid_text(id),
    {
        MagnetUpdate::SessionIdUpdate(print_uuid(id))
    }
}

impl ClientMagnetUpdate {
    /// The record that a tuple of its fields stands for.
    pub open spec fn of_fields(fields: MagnetFields) -> ClientMagnetUpdate {
        ClientMagnetUpdate {
            is_magnet_update: fields.0,
            id: fields.1,
            x: fields.2,
            y: fields.3,
            rotation: fields.4,
        }
    }

    /// Whether a client that looks at `window` may make this move: the id is
    /// not above the highest one, the rotation is a full turn at most, and
    /// the target lies in the world and no further than the margin outside
    /// the window.
    pub open spec fn allowed_in(self, window: Window) -> bool {
        &&& self.id <= MAX_MAGNET_ID
        &&& -MAX_ROTATION <= self.rotation <= MAX_ROTATION
        &&& window.x1 - WINDOW_MARGIN <= self.x <= window.x2 + WINDOW_MARGIN
        &&& window.y1 - WINDOW_MARGIN <= self.y <= window.y2 + WINDOW_MARGIN
        &&& -WORLD_EDGE <= self.x <= WORLD_EDGE
        &&& -WORLD_EDGE <= self.y <= WORLD_EDGE
    }

    /// Whether a client that looks at `window` may make this move.
    pub fn is_valid(&self, window: &Window) -> (valid: bool)
        ensures
            valid == self.allowed_in(*window),
    {
        if self.id > MAX_MAGNET_ID {
            return false;
        }
        if self.rotation < -MAX_ROTATION || self.rotation > MAX_ROTATION {
            return false;
        }
        let x: i64 = self.x as i64;
        let y: i64 = self.y as i64;
        let margin: i64 = WINDOW_MARGIN as i64;
        if x < window.x1 as i64 - margin || x > window.x2 as i64 + margin || y < window.y1 as i64
            - margin || y > window.y2 as i64 + margin {
            return false;
        }
        if self.x < -WORLD_EDGE || self.x > WORLD_EDGE || self.y < -WORLD_EDGE || self.y
            > WORLD_EDGE {
            return false;
        }
        true
    }
}

impl Readings {
    /// The record that the payload carries, if it carries one.
    pub open spec fn record(self) -> Option<ClientUpdate> {
        ClientUpdate::of_readings(self.magnet, self.window)
    }

    /// The record that the payload carries, or the reason why it carries
    /// none.
    pub fn into_update(self) -> (out: Result<ClientUpdate, String>)
        ensures
            out == match self.record() {
                Some(update) => Ok::<ClientUpdate, String>(update),
                None => Err::<ClientUpdate, String>(self.failure),
            },
    {
        match ClientUpdate::from_readings(self.magnet, self.window) {
            Some(update) => Ok(update),
            None => Err(self.failure),
        }
    }
}

impl ClientUpdate {
    /// The record that two readings of one payload stand for: the magnet
    /// update where the payload reads as one, else the window where it reads
    /// as one, else none. A payload reads as a magnet update only where it
    /// has the flag, so this is the magnet update first where the flag is
    /// present, and the window otherwise.
    pub open spec fn of_readings(
        magnet: Option<MagnetFields>,
        window: Option<WindowFields>,
    ) -> Option<ClientUpdate> {
        match magnet {
            Some(fields) => Some(ClientUpdate::Magnet(ClientMagnetUpdate::of_fields(fields))),
            None => match window {
                Some(corners) => Some(
                    ClientUpdate::Window(
                        Window { x1: corners.0, y1: corners.1, x2: corners.2, y2: corners.3 },
                    ),
                ),
                None => None,
            },
        }
    }

    /// Chooses between the two readings of one payload: a magnet update
    /// before a window.
    pub fn from_readings(magnet: Option<MagnetFields>, window: Option<WindowFields>) -> (update:
        Option<ClientUpdate>)
        ensures
            update == Self::of_readings(magnet, window),
    {
        match magnet {
            Some(fields) => Some(
                ClientUpdate::Magnet(
                    ClientMagnetUpdate {
                        is_magnet_update: fields.0,
                        id: fields.1,
                        x: fields.2,
                        y: fields.3,
                        rotation: fields.4,
                    },
                ),
            ),
            None => match window {
                Some(corners) => Some(
                    ClientUpdate::Window(
                        Window { x1: corners.0, y1: corners.1, x2: corners.2, y2: corners.3 },
                    ),
                ),
                None => None,
            },
        }
    }
}

/// `rmp_serde::to_vec` on the six fields of a magnet as a tuple, the word
/// as `&str`: an array of five integers and a string.
#[verifier::external_body]
fn pack_magnet(magnet: &Magnet) -> (out: Result<Vec<u8>, rmp_serde::encode::Error>)
    ensures
        out matches Ok(bytes) ==> bytes@ == msgpack(magnet.wire()),
{
    rmp_serde::to_vec(
        &(magnet.id, magnet.x, magnet.y, magnet.rotation, magnet.z_index, magnet.word.as_str()),
    )
}

/// `rmp_serde::to_vec` on the five fields of a location update as a tuple:
/// an array of five integers.
#[verifier::external_body]
fn pack_location(update: &LocationUpdate) -> (out: Result<Vec<u8>, rmp_serde::encode::Error>)
    ensures
        out matches Ok(bytes) ==> bytes@ == msgpack(update.wire()),
{
    rmp_serde::to_vec(&(update.id, update.x, update.y, update.rotation, update.z_index))
}

/// `rmp_serde::to_vec` on one 32-bit integer.
#[verifier::external_body]
fn pack_id(id: i32) -> (out: Result<Vec<u8>, rmp_serde::encode::Error>)
    ensures
        out matches Ok(bytes) ==> bytes@ == msgpack(Wire::Int(id as int)),
{
    rmp_serde::to_vec(&id)
}

/// `rmp_serde::to_vec` on a list of magnets, each as the tuple of its six
/// fields: an array of arrays.
#[verifier::external_body]
fn pack_magnets(magnets: &Vec<Magnet>) -> (out: Result<Vec<u8>, rmp_serde::encode::Error>)
    ensures
        out matches Ok(bytes) ==> bytes@ == msgpack(
            Wire::List(magnets@.map_values(|m: Magnet| m.wire())),
        ),
{
    let rows: Vec<(i32, i32, i32, i32, i64, &str)> = magnets.iter().map(
        |m| (m.id, m.x, m.y, m.rotation, m.z_index, m.word.as_str()),
    ).collect();
    rmp_serde::to_vec(&rows)
}

/// `rmp_serde::to_vec` on a text.
#[verifier::external_body]
fn pack_text(text: &str) -> (out: Result<Vec<u8>, rmp_serde::encode::Error>)
    ensures
        out matches Ok(bytes) ==> bytes@ == msgpack(Wire::Text(text@)),
{
    rmp_serde::to_vec(text)
}

/// `uuid::Uuid::from_u128` and the `to_string` of the id it gives.
#[verifier::external_body]
fn print_uuid(id: u128) -> (text: String)
    ensures
        text@ == uuid_text(id),
{
    uuid::Uuid::from_u128(id).to_string()
}

} // verus!
