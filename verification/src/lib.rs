//! Structural reader for the ZIP container format: locates the End Of Central
//! Directory record, parses the Central Directory, and resolves Local File
//! Headers, without decompressing any payload bytes.

pub mod archive;
pub mod bytes;
pub mod central;
pub mod eocd;
pub mod errors;
pub mod local;
pub mod records;
