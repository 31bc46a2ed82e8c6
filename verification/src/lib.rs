//! Remote FeliCa mutual authentication: the decisions of a server that owns the
//! long-term keys while a client owns the card reader.
//!
//! For each step of an authentication the server gives the client a command frame to
//! relay to the card, and takes the card's response with the next request. When the
//! authentication succeeds the client gets the ephemeral session material and the
//! server forgets the session.
//!
//! - [`session`] decides what becomes of a request, [`rules`] says by which rules, and
//!   [`table`] holds the sessions in flight.
//! - [`worker`] decides what the worker of a session does; [`relay`] is what passes
//!   between the two.
//! - [`policy`] says which services may be authenticated when only reads are allowed,
//!   and [`keystore`] which keys an authentication takes.
//! - [`request`], [`fields`] and [`text`] read what a client sends, and [`reply`] and
//!   [`error`] are what it is answered.
//! - [`laws`] holds what is true of all of them together; [`request_laws`],
//!   [`body_laws`], [`key_laws`] and [`field_laws`] what is true of each by itself, and
//!   [`view_laws`] what contracts see of a value.
//!
//! Clocks, channels, threads, HTTP and the FeliCa cryptography are the caller's.

pub mod body_laws;
pub mod error;
pub mod field_laws;
pub mod fields;
pub mod key_laws;
pub mod keystore;
pub mod laws;
pub mod policy;
pub mod relay;
pub mod reply;
pub mod request;
pub mod request_laws;
pub mod rules;
pub mod sample_card;
pub mod session;
pub mod table;
pub mod text;
pub mod view_laws;
pub mod worker;
