//! Code 128 (subset B) barcode encoder.
//!
//! The encoder turns a string of printable ASCII characters (space through
//! `~`) into the bar sequence of a Code 128 barcode using Code Set B, and
//! renders that sequence as SVG rectangle markup.
//!
//! The crate is layered:
//! - [`symbols`] holds the static symbol table: character-to-symbol-value
//!   resolution and the per-symbol module-width patterns;
//! - [`checksum`] computes the weighted modulo-103 checksum;
//! - [`layout`] turns a data string into the ordered sequence of positioned,
//!   alternating-color bars (Start-B, data, checksum, Stop, terminator,
//!   trailing quiet zone);
//! - [`render`] serializes bars into `<rect .../>` markup and exposes the
//!   string-level entry points.

pub mod checksum;
pub mod layout;
pub mod render;
pub mod symbols;
