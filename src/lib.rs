//! A client of a natural-language query service: builds the request of a text
//! query and classifies the answer, leaving the HTTP exchange to the caller.
use vstd::prelude::*;

pub mod client;
pub mod json;
pub mod options;
pub mod response;

pub use client::{Client, PreparedRequest};
pub use json::JsonMap;
pub use options::QueryOptions;
pub use response::{classify_response, read_exchange, read_response, ApiError};

verus! {

} // verus!
