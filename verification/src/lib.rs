//! A package-mirror redirector core: classifies the channel of a repository
//! request path and rewrites it to a URL on a mirror host, falling back to
//! the official upstream host for channels that are not mirrored.

pub mod channel;
pub mod config;
pub mod router;
pub mod text;
pub mod urls;
