//! Tool catalog, guards and result assembly for the Unica MCP tool server.
pub mod text;
pub mod json;
pub mod domain;

pub mod catalog;
pub mod descriptors;
pub mod guards;
pub mod events;
pub mod diagnostics;
pub mod project;
pub mod native;

pub mod pipeline;
pub mod application;
pub mod inflight;
pub mod laws;
