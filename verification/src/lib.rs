//! Decoder for electronic-chart cells stored as a stream of tagged,
//! length-prefixed records.
//!
//! Floating-point fields are never interpreted here: a double is carried as
//! its 64-bit IEEE 754 pattern and a single as its 32-bit pattern, exactly as
//! the bytes of the cell give them.

pub mod bytes;
pub mod chartfile;
pub mod error;
pub mod geometry;
pub mod record;
pub mod s57;
pub mod s57_attribute;
pub mod s57_type;
pub mod text;
pub mod types;
