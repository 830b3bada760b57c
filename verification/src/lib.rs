//! Decoder for u-blox Extended Data Mode (EDM) byte streams.
//!
//! An EDM stream is a run of frames, each a start byte, a 12-bit payload
//! length, the payload and an end byte. The payload opens with a 16-bit
//! header that names the frame's identifier and type; what follows the
//! header is decoded into the subframe that the pair stands for.
//!
//! * [`edm`] is the protocol: registries, header, subframes, frames, the
//!   parser for one frame and the scanner for a whole buffer.
//! * [`capture`] turns a captured log, written as hexadecimal text, into the
//!   bytes to scan.
//! * [`base16`] and [`strings`] say what is taken from the `hex` crate and
//!   from the standard library.
//!
//! Every executable function carries a contract over sequences of bytes and
//! characters, checked by Verus. What is assumed without proof is the
//! behaviour of five outside functions, each stated where it is declared.

pub mod base16;
pub mod capture;
pub mod edm;
pub mod strings;
