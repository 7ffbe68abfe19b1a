//! Client-side query construction for a tagged-media search API: a token
//! model with its escaping and rendering rules, per-resource catalogs of
//! search identifiers, and a generic paginated-result container with an
//! order-preserving conversion towards an embedding host runtime.

pub mod catalogs;
pub mod paged;
pub mod tokens;
