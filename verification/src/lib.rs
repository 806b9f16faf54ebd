//! A recursive content-search library: word-bounded context extraction around
//! regex matches, per-file scanning, enumeration filtering, run totals, and
//! cooperative-cancellation decisions, each with a verified contract.

pub mod context;
pub mod pattern;
pub mod pipeline;
pub mod scan;
pub mod text;
pub mod update;
