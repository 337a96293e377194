//! A room-based chat relay.
//!
//! Clients connect to a named room; what one of them sends is offered to every
//! other member of that room, and every message is handed to a single writer
//! that logs it. This crate holds the decisions of such a server and their
//! contracts; running the transport, the store and the tasks is the caller's
//! part.
//!
//! - [`rooms`]: the registry of rooms and their members, and the fan-out.
//! - [`user`]: one connected user, and what it does with an inbound frame.
//! - [`connection`]: the life of one connection, as a state machine.
//! - [`db`]: the rows of the message log and the steps of the writer.
//! - [`shutdown`]: one listener's side of the shutdown protocol.
//! - [`server`]: who may still connect, under which id, and when the process
//!   may exit.
//! - [`text`]: the text that a message is shown as.
//! - [`channel`], [`transport`]: the channel handles and the frames that all of
//!   this is built on, and what is taken on trust about them.

mod assoc;
pub mod channel;
pub mod connection;
pub mod db;
pub mod rooms;
pub mod server;
pub mod shutdown;
pub mod text;
pub mod transport;
pub mod user;
