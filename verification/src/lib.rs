//! The verified core of a two-player paddle-and-ball match: arena geometry,
//! the entity model, the authoritative simulation engine, the snapshot codec
//! used to resynchronize a remote participant, and the per-tick decisions of
//! the session driver. Everything that touches a terminal or a socket lives
//! outside this crate and talks to it in plain values.

pub mod codec;
pub mod decimal;
pub mod engine;
pub mod entities;
pub mod geom;
pub mod session;
pub mod snapshot;
