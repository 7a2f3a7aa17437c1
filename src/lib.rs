//! Client-side gateway to the SciX (NASA ADS) bibliographic API.
//!
//! The library holds the logic of the gateway: the quota governor that
//! spaces outbound requests, the classification of HTTP outcomes, the
//! line-oriented tool protocol and its dispatch table, the query builder and
//! the decoding of search results. Network and terminal I/O live with the
//! program that drives it.

pub mod text;
pub mod query;
pub mod types;
pub mod parse;
pub mod rate_limit;
pub mod error;
pub mod client;
pub mod json;
pub mod catalog;
pub mod tools;
pub mod mcp;
pub mod format;
pub mod requests;
pub mod libraries;
pub mod setup;

pub use error::SciXError;
pub use query::QueryBuilder;
pub use rate_limit::RateLimiter;
pub use types::{
    Author, ExportFormat, Library, LibraryDetail, ObjectResult, Paper, PdfLink, PdfLinkType,
    ResolvedReference, SearchResponse, Sort, SortDirection,
};
