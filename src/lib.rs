//! A file service core: the open-file cache, the request router and the
//! decisions of each file operation, the patch step of a write, and a line
//! protocol message parser.

pub mod cache;
pub mod laws;
pub mod message;
pub mod patch;
pub mod service;
