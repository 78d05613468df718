//! A content-based request router for an HTTP proxy filter chain.
//!
//! The library inspects the body of an in-flight request, extracts a routing
//! signal from a named field of a structured (JSON) payload, evaluates an
//! ordered rule list over that signal, and drives the per-request lifecycle:
//! pausing the host while the body is buffered, assembling the chunks,
//! deciding a route, and telling the host to write the decision header and
//! invalidate its cached route selection before processing resumes.

pub mod config;
pub mod extract;
pub mod laws;
pub mod lifecycle;
pub mod rules;
