//! A point-to-point message channel over a named pipe: the framing of
//! messages on the wire and the decisions that each endpoint takes when it
//! opens its end, writes or reads, and loses its peer.

pub mod frame;
pub mod endpoint;
pub mod runs;
