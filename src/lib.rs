//! Indexing adapter for a search backend: typed errors, classification of
//! backend failures, acknowledgment checks, index naming, alias bookkeeping
//! and bulk ingestion tallies.

/// Errors reported to callers.
pub mod error;
/// Classification of the backend's failure payloads.
pub mod classifier;
/// JSON values read from responses, and acknowledgment fields.
pub mod json;
/// Comparisons of strings.
pub mod text;
/// Outcomes of index, alias and pipeline requests.
pub mod lifecycle;
/// Tally of bulk ingestion.
pub mod bulk;
/// Naming convention of versioned indices.
pub mod naming;
/// Indices and the rows of the backend's index listing.
pub mod index;
/// Alias listings and older versions of an index.
pub mod aliases;
/// Index configuration and request bodies.
pub mod configuration;
/// Types of outside crates that the library carries.
pub mod outside;
/// The document search use case.
pub mod search;
