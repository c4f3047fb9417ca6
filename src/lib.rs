//! Content-addressed, resumable chunking of files: which bytes make up each chunk, the
//! names under which chunks are stored, and whole-file identifiers; plus a client of a
//! remote store for the chunks.

pub mod artifact;
pub mod chunks;
pub mod encoding;
pub mod sha;
pub mod telegram;
pub mod ufid;
