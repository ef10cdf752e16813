//! Decoder for the PS/2 keyboard protocol: clock/data line samples in,
//! classified key events out.
//!
//! - `frame` assembles 11-bit frames from falling clock edges;
//! - `keys` interprets scan codes against modifier state and pending prefixes;
//! - `scancode` maps scan codes to characters;
//! - `decoder` joins the two stages;
//! - `render` gives the console text of each event.
pub mod decoder;
pub mod frame;
pub mod keys;
pub mod render;
pub mod scancode;
