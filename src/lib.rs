//! Conversion between typed 2-D geometries and their flat interchange
//! encoding as nested sequences of coordinate numbers.
//!
//! `geometry` holds the typed family (points, line strings, polygons, their
//! multi forms and heterogeneous collections) and `flat` the interchange
//! family; both are generic over the coordinate number type. `conversion`
//! maps between them in both directions, each function stated exactly over
//! the two families' models, and `laws` proves that the two directions undo
//! each other.
pub mod conversion;
pub mod flat;
pub mod geometry;
pub mod laws;
