//! A caching reverse proxy core: resolving a request path to its upstream URL
//! (the cache key), a store of response bodies keyed by that URL, and the
//! lookup-or-fetch protocol around the upstream call.
pub mod resolver;
pub mod store;
pub mod proxy;
