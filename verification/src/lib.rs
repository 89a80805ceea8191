//! Message encoding and decoding for the Hyprwire protocol, with a Hyprpaper
//! client session built on top of it.

pub mod error;
pub mod hyprpaper;
pub mod message;
pub mod payload;
pub mod roundtrip;
pub mod types;
pub mod vlq;
