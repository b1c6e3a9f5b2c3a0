//! The logic of a bridge between a line-oriented chat protocol, which local
//! clients speak, and a federated, room-based one, on which each client has an
//! account.
//!
//! Two things are decided here. [`ircd::login`] leads a new connection from
//! its registration to the account it is bound to, by restoring a stored
//! session or by a login with credentials that the user sends.
//! [`matrix::room_mappings`] gives every remote room its one local target, a
//! channel or a query, and [`matrix::room_target`] holds what such a target
//! goes through, down to the messages that wait while a channel is joined.
//! Targets are named after their rooms by [`matrix::naming`], with the help
//! of a pattern engine whose answers are checked before they are used.
//!
//! Nothing here reads a socket, asks a store or waits for a server. The caller
//! does that, under whatever locks it needs, and hands over what it learnt.
//! What holds of the results whatever it hands over is stated and proved in
//! [`ircd::login_laws`] and [`matrix::room_laws`].

pub mod ircd;
pub mod matrix;
