//! Link-preview metadata extraction and cache planning.
//!
//! Given a page's raw markup and the URL it came from, the library derives
//! presentation metadata (title, description, icon URL, preview-image URL)
//! through ordered fallback chains, and plans the on-disk layout of a cached
//! copy of the page keyed by a caller-supplied identifier. All decision
//! logic lives here; the surrounding application performs the network and
//! filesystem work and feeds the outcomes back in.

pub mod cache;
pub mod extract;
pub mod scrape;
pub mod text;
pub mod urls;

pub use cache::cache_plan;
pub use cache::check_id;
pub use cache::finish_cache;
pub use cache::link_dir;
pub use cache::AssetPlan;
pub use cache::CacheError;
pub use cache::CachePlan;
pub use cache::CacheResult;
pub use extract::extract_link_metadata;
pub use extract::parse_metadata;
pub use extract::LinkMetadata;
pub use text::infer_extension;
pub use text::trim_str;
pub use urls::favicon_url;
pub use urls::resolve_candidate;
