//! The EDM protocol.
//!
//! * [`types`]: the registries of identifiers, types and connect types, and
//!   the errors.
//! * [`header`]: the 16-bit header of a frame.
//! * [`subframe`]: the ten records that a frame can hold, and their
//!   decoders.
//! * [`frame`]: the dispatch table and the assembly of a frame.
//! * [`parser`]: cutting one frame off the front of a buffer.
//! * [`scanner`]: finding every frame of a buffer, past damaged stretches.
//! * [`data`]: the application data that decoded frames carry.
//! * [`text`]: the parts of a frame as text.

pub mod data;
pub mod frame;
pub mod header;
pub mod parser;
pub mod scanner;
pub mod subframe;
pub mod text;
pub mod types;
