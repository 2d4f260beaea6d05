//! Work-order tickets: a fixed four-state lifecycle, a composite external
//! identifier, and a mapping to a string-keyed key-value item, with the
//! transition rules enforced by the orchestration layer.

pub mod model;
pub mod ddb;
pub mod api;
