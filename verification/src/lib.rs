//! A block-pinned cache of remote chain state, with the wire encoding of the
//! queries that fill it and the session that runs a call against it.

pub mod account;
pub mod bench;
pub mod laws;
pub mod primitives;
pub mod provider;
pub mod state;
pub mod table;
pub mod text;
pub mod vm;
