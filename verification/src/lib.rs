//! Crawl-and-notify core: contact records, deduplication, the paginated crawl,
//! the daily send quota and the dispatch pass, each as verified logic.

pub mod crawl;
pub mod crawl_laws;
pub mod dedup;
pub mod dispatch;
pub mod dispatch_laws;
pub mod error;
pub mod extract;
pub mod pass_laws;
pub mod quota;
pub mod quota_laws;
pub mod record;
pub mod text;
