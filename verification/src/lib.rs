//! # supabase-micro
//!
//! A Supabase client for embedded devices: PostgREST requests are built into
//! fixed-capacity buffers (`heapless`), with no heap allocation on the request
//! path. The query strings, headers, URL and error mapping are specified and
//! verified; the HTTP transport and JSON decoding stand outside.
use vstd::prelude::*;

pub mod fixed;
pub mod number;
pub mod error;
pub mod query;
pub mod auth;
pub mod postgrest;
pub mod client;
pub mod response;
pub mod transport;
pub mod laws;

pub use client::SupabaseClient;
pub use error::{Error, PostgrestError};
pub use postgrest::PostgrestBuilder;
pub use query::{QueryBuilder, SortOrder};
pub use response::SupabaseResponse;

verus! {
} // verus!
