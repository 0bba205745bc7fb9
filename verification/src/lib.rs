//! Extraction and normalization of structured recipe data embedded in web
//! pages: locating embedded JSON payloads in HTML, strict schema-validated
//! decoding with precise field-path diagnostics, and reconciliation of the
//! schema's loose "one-or-many" typing into a uniform representation.

pub mod duration;
pub mod error;
pub mod extract;
pub mod json;
pub mod recipe;
pub mod uri;
pub mod variant;

pub use duration::Duration;
pub use error::Cause;
pub use error::DecodeError;
pub use error::PathSeg;
pub use extract::Error;
pub use json::Json;
pub use recipe::Recipe;
pub use variant::HowToStep;
pub use variant::Instructions;
pub use variant::OneOrMany;
