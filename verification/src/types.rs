//! The configuration of a seeding run.

use crate::schema::Schema;
use vstd::prelude::*;

verus! {

/// What a run seeds: a database and the collections to fill.
#[derive(Debug, PartialEq)]
pub struct Config {
    /// The name of the database.
    pub db: String,
    /// The collections, in the order in which they are filled.
    pub collections: Vec<CollectionConfig>,
}

/// The number of documents that a collection gets when its configuration
/// names none.
pub open spec fn spec_default_number_of_items() -> usize {
    10
}

/// The number of elements that an array field gets when the configuration
/// names none.
pub open spec fn spec_default_number_of_children() -> usize {
    3
}

/// The number of documents that a collection gets when its configuration
/// names none.
#[verifier::when_used_as_spec(spec_default_number_of_items)]
pub fn default_number_of_items() -> (n: usize)
    ensures
        n == spec_default_number_of_items(),
{
    10
}

/// The number of elements that an array field gets when the configuration
/// names none.
#[verifier::when_used_as_spec(spec_default_number_of_children)]
pub fn default_number_of_children() -> (n: usize)
    ensures
        n == spec_default_number_of_children(),
{
    3
}

/// One collection to fill.
#[derive(Debug, PartialEq)]
pub struct CollectionConfig {
    /// The collection's name, unique within a run.
    pub name: String,
    /// How many documents the collection gets.
    pub number_of_items: usize,
    /// How many elements each array field gets.
    pub number_of_children: usize,
    /// The shape of each document.
    pub schema: Schema,
}

/// The arguments of the command line.
#[derive(Debug, PartialEq, Eq)]
pub struct Cli {
    /// The path of the configuration file.
    pub config: String,
    /// The address of the database server.
    pub url: String,
}

} // verus!
