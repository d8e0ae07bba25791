//! Decision engines of an HTTP reverse proxy's policy-enforcement layer:
//! an authentication engine, a license/feature-gating engine and a metrics
//! aggregator, each a pure, bounded computation over the values the host
//! hands it. The host runtime that dispatches exchange events, parses
//! configuration and persists metrics stays outside this crate.

pub mod auth;
pub mod license;
pub mod metrics;
pub mod text;
