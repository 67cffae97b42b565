//! The OpenCode Go provider: its model catalogue, how a request is routed and answered, and how
//! failures and streams of the upstream are passed on.
pub mod chunk;
pub mod cli;
pub mod course;
pub mod error;
pub mod exchange;
pub mod json;
pub mod message_id;
pub mod model;
pub mod provider;
pub mod relay;
pub mod reply;
pub mod sse;
pub mod status;
pub mod text;
