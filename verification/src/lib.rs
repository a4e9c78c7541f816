#![allow(non_snake_case)]
//! A typed data model for chart configuration objects.
//!
//! Callers build strongly-typed structures describing chart datasets, scales,
//! legends and annotations; the model serializes them into the loosely-typed
//! JSON shape a JavaScript charting runtime expects, and can read that shape
//! back at the scalar level.
//!
//! The core is the scalar coercion layer: text-backed values that serialize
//! as a JSON number, boolean or string depending on what the text parses as.

pub mod annotations;
pub mod data;
pub mod datasets;
pub mod json;
pub mod options;
pub mod points;
pub mod scalar;
pub mod scales;
pub mod text;
