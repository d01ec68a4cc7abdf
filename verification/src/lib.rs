//! Session and protocol core of an edge client that joins one authenticated
//! session with a dispatch service and relays inference work to a local
//! model backend.
//!
//! Nothing here performs I/O. A driver opens the transport, reads frames and
//! talks to the backend; it hands each outcome to the session as an event and
//! carries out the reaction that comes back.
//!
//! - [`session`] holds the session and its step function, [`model`] what a
//!   step is in mathematical terms, and [`trace`] what holds along every run.
//! - [`protocol`] holds the frames, [`state`] the status that observers read
//!   and the configuration, [`ollama`] the shapes and endpoints of the model
//!   backend.
//! - [`signature`] computes the authentication signature, [`clock`] reads
//!   the time, [`text`] renders and rewrites text.
//!
//! Two things are taken on trust, each behind one private function that
//! says so: the SHA-256 digest of the `sha2` crate and the hex encoding of
//! the `hex` crate. The clock is read through `std::time`, of which only
//! what its documentation says is assumed.

pub mod clock;
pub mod model;
pub mod ollama;
pub mod protocol;
pub mod session;
pub mod signature;
pub mod state;
pub mod text;
pub mod trace;
