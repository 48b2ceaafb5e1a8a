//! The loading pipeline: cache locations, the cache-aside loader, and the
//! sweep of expired cache files.

pub mod api_loader;
pub mod cache;
pub mod delete_expired_cache;
