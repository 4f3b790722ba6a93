//! Verified core of a batch HTTP request runner: template substitution,
//! request validation, outcome classification and summary aggregation.

pub mod headers;
pub mod json;
pub mod outcome;
pub mod report;
pub mod request;
pub mod summary;
pub mod template;
pub mod text;
