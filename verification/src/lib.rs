//! Connection bookkeeping, message routing and request/response matching
//! for a networking layer built on channels and concurrent maps.

pub mod channel;
pub mod connection;
pub mod managers;
pub mod serialize;
pub mod tables;

pub use connection::{ConnectionId, NetworkData, NetworkError, NetworkEvent, NetworkPacket};
pub use serialize::{NetworkDataTypes, NetworkSerializedData};
