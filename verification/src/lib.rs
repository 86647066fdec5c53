//! Building blocks for in-process communication and interior state handling:
//! an unbounded multi-producer, single-consumer channel, simple value cells,
//! an owned heap box, and string tokenizers.

pub mod cell;
pub mod channels;
pub mod dropck;
pub mod lifetimes;
pub mod refcell;
pub mod variance;
