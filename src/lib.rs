//! A loopback HTTP relay for HLS streams: target URLs are turned into opaque
//! local proxy URLs, and fetched manifests have every entry URI rewritten into
//! further proxy URLs that carry the same request headers.
pub mod codec;
pub mod headers;
pub mod manifest;
pub mod proxy;
pub mod relay;
pub mod urls;
