//! The signalling protocol, the hub and the per-connection session.

pub mod effect;
pub mod laws;
pub mod messages;
pub mod server;
pub mod session;
pub mod store;

pub use server::Server;
pub use session::{Session, SessionId};

use crate::identifier::parsed_uuid;
use crate::webrtc::room::RoomId;
use vstd::prelude::*;
use vstd::string::*;

verus! {

/// What a connection attempt says of the participant, besides the room.
#[derive(Debug, Clone, PartialEq, Eq)]
pub struct QueryParams {
    pub name: String,
}

/// The status with which an attempt that names no room is turned down.
pub const UNPROCESSABLE_ENTITY: u16 = 422;

/// The status with which an attempt is turned down that failed on this
/// side.
pub const INTERNAL_SERVER_ERROR: u16 = 500;

/// Why a connection attempt is turned down: the status to answer with and
/// the reason to give.
#[derive(Debug, Clone, PartialEq, Eq)]
pub struct Rejection {
    pub status: u16,
    pub reason: String,
}

/// Reads the room that a connection attempt names. An attempt whose room
/// identifier cannot be read is turned down before anything else is done.
pub fn room(room_id: &str) -> (r: Result<RoomId, Rejection>)
    ensures
        match parsed_uuid(room_id@) {
            Some(v) => r == Ok::<RoomId, Rejection>(RoomId(v)),
            None => r matches Err(rejection) && rejection.status == UNPROCESSABLE_ENTITY
                && rejection.reason@ == "Invalid ID provided"@,
        },
{
    match RoomId::try_from(room_id) {
        Ok(id) => Ok(id),
        Err(_) => Err(
            Rejection {
                status: UNPROCESSABLE_ENTITY,
                reason: String::from_str("Invalid ID provided"),
            },
        ),
    }
}

/// Passes on what a later stage of a connection attempt yielded: the room
/// from the registry, or the session. A stage that failed turns the attempt
/// down, with the failure as the reason.
pub fn accept<T>(outcome: Result<T, String>) -> (r: Result<T, Rejection>)
    ensures
        match outcome {
            Ok(value) => r == Ok::<T, Rejection>(value),
            Err(text) => r == Err::<T, Rejection>(
                Rejection { status: INTERNAL_SERVER_ERROR, reason: text },
            ),
        },
{
    match outcome {
        Ok(value) => Ok(value),
        Err(text) => Err(Rejection { status: INTERNAL_SERVER_ERROR, reason: text }),
    }
}

} // verus!
