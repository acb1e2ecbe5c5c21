//! Declarative HTTP-client generation, modelled and verified.
//!
//! An annotated interface declaration (methods carrying an HTTP verb, a path
//! template and per-parameter markers) is transformed into a plan: a concrete
//! client description plus, per method, the request each invocation must
//! issue. The transformation, the request construction and the outcome
//! classification of a call are verified; the surrounding syntax handling and
//! the actual HTTP dispatch live outside the library.

pub mod client;
pub mod decl;
pub mod error;
pub mod pipeline;
pub mod request;
pub mod search;
pub mod template;
pub mod transform;
