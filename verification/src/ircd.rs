//! The side of the bridge that faces the line-oriented protocol.

pub mod login;
pub mod login_laws;
pub mod proto;
pub mod reply;
pub mod session;
