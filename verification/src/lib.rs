//! Decoder for NEXRAD Level II WSR-88D archive files.
//!
//! The archive format interleaves bzip2-compressed blocks behind a fixed
//! volume header; the plaintext holds a sequence of fixed-width message
//! frames, of which Message Type 31 carries per-radial moment data located
//! through a pointer table of byte offsets relative to the message start.

pub mod codec;
pub mod decode;
pub mod decompress;
pub mod error;
pub mod file_metadata;
pub mod laws;
pub mod model;

pub use decode::DataFile;
pub use error::Error;
pub use model::Product;
