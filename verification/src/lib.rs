//! Schema-driven generation of synthetic documents for seeding a document
//! database.
//!
//! A run is described by a list of collections. Each collection has a name, a
//! number of documents, a fan-out for array fields, and a schema: a map from
//! field names to generator tokens, arrays and nested schemas. Generation
//! first allots to every collection the identifiers of its documents (the
//! identifier pool), and then expands each collection's schema, once for every
//! document, into a tree of values. A field can refer to a document of
//! another collection by drawing one of that collection's identifiers from
//! the pool.
//!
//! * [`registry`] names the generators of scalar values, and [`token`] is the
//!   grammar of the tokens that select them;
//! * [`schema`] and [`value`] are what generation reads and what it yields,
//!   both built on [`ordered_map`];
//! * [`pool`] is the identifier pool;
//! * [`conformance`] says which outcomes generation may have;
//! * [`generate_data`] generates;
//! * [`faker`] holds the calls into the crates that draw the values;
//! * [`types`] and [`error`] are the configuration of a run and its failures.

pub mod conformance;
pub mod error;
pub mod faker;
pub mod generate_data;
pub mod ordered_map;
pub mod pool;
pub mod registry;
pub mod schema;
pub mod text;
pub mod token;
pub mod types;
pub mod value;
