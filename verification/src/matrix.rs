//! The side of the bridge that faces the federated, room-based protocol.

pub mod free_names;
pub mod naming;
pub mod proto;
pub mod room_laws;
pub mod room_mappings;
pub mod room_target;
