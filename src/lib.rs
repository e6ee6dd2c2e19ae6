//! A node arena with two kinds of handles: a checked handle that is only
//! honoured by the session that vouches for it, and a raw handle, a plain
//! identity that can be stored inside node payloads and resolved again
//! through a session of the same arena.
pub mod graph;
pub mod handle;
pub mod laws;
