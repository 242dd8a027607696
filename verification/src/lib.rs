//! Rate-limited, single-consumer dispatch core of an image tagging pipeline.
//!
//! Many independent per-file workflows share one reverse-image-search client
//! whose quota is tracked from the service's own response headers. The decisions
//! of that pipeline live here as verified state machines; the program around
//! them performs the network and file operations they ask for.

pub mod address;
pub mod danbooru;
pub mod decimal;
pub mod dispatch;
pub mod error;
pub mod files;
pub mod quota;
pub mod response;
pub mod saucenao;
pub mod similarity;
pub mod trace;
pub mod workflow;
