//! Queries against the Google Scholar web interface and extraction of the
//! result records from the pages it answers with.
//!
//! The crate builds the request URL from a query description and turns a
//! fetched page into an ordered list of records. Fetching the page is left to
//! the caller.

pub mod decimal;
pub mod error;
pub mod query;
pub mod markup;
pub mod text;
pub mod record;
pub mod client;
