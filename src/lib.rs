//! Resolves module specifiers (`file`, `http` and `https` URLs) into source files, through
//! an in-process cache, the file system, a persistent response cache and the network.
//!
//! The library holds the decisions: classifying content, decoding text, the cache policy,
//! and the fetch itself as a state machine (`fetcher::FileFetcher::begin` and `advance`)
//! whose caller performs each I/O step and reports back what happened.

pub mod cache_setting;
pub mod decode;
pub mod fetcher;
pub mod file;
pub mod media;
pub mod specifier;
pub mod text_scan;
