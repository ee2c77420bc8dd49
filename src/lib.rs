//! Single-pass construction of a brotli-compressed tar archive whose
//! SHA-256 digest is taken over the uncompressed tar stream.
pub mod hex;
pub mod digest;
pub mod compress;
pub mod tee;
pub mod framing;
pub mod archive;
