//! Verified core of a creator-media archiver: it paginates a hosting
//! service's listing API into post records, flattens them into a
//! deduplicated set of file descriptors, and drives each file's resumable,
//! hash-verified download.
//!
//! All network and file work stays outside this crate. The retriever and
//! the download engine are state machines: the caller performs the outside
//! work the current state asks for — a request, a backoff sleep, a file
//! operation — and feeds the result back in, while every decision of the
//! retry, resumption and verification logic is made and proved here.

pub mod download;
pub mod posts;
pub mod profile;
pub mod retriever;
pub mod target;
pub mod text;
