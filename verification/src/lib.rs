use vstd::prelude::*;

pub mod text;
pub mod error;
pub mod completion;
pub mod entries;
pub mod chat_collect;
pub mod chat_request;
pub mod anthropic;
pub mod gcp;
pub mod backoff;
pub mod vertex;
pub mod openai_stream;
pub mod responses;
pub mod embedding;
pub mod vector_db;
pub mod auth;
pub mod config;
pub mod mcp;
pub mod statistics;
pub mod error_patch;
pub mod models;
pub mod chat_sse;
pub mod health;
pub mod logs;
pub mod forwarding;

verus! {

} // verus!
