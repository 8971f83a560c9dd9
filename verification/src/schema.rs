//! The declarative schema from which documents are generated.

use crate::ordered_map::OrderedMap;
use vstd::prelude::*;

verus! {

/// One node of a schema.
#[derive(Debug, PartialEq)]
pub enum SchemaNode {
    /// A generator token: the field is one generated value.
    Scalar(String),
    /// An array whose elements all follow the shape of the first item; the
    /// other items are not read.
    Array(Vec<SchemaNode>),
    /// A nested document.
    Object(Schema),
    /// Any other shape: the field is the absent value.
    Other,
}

/// A schema: its fields by name, in the order in which they are generated.
pub type Schema = OrderedMap<SchemaNode>;

} // verus!
