//! Short, reversible, URL-safe identifiers for a sequentially numbered
//! resource, and redirect URLs built from them.
//!
//! The [`Encoder`] turns a 64-bit counter value into a fixed-minimum-length
//! string over a restricted alphabet, salted so that sequential counters do
//! not look sequential, and decodes such a string back to the value it came
//! from.  The [`LinkGenerator`] owns a wrapping counter and an encoder, and
//! produces a fresh key and redirect URL on every call, optionally paired
//! with a QR code for the URL.

pub mod encoder;
pub mod generator;

pub use encoder::ConfigError;
pub use encoder::Encoder;
pub use generator::EncodingError;
pub use generator::Link;
pub use generator::LinkGenerator;
