//! What generation is held to: for a schema, a fan-out and an identifier
//! pool, which failure stops generation, and which documents it may yield.
//!
//! Whether generation fails does not depend on chance. What it yields does,
//! so the values are described by what holds of every outcome.

use crate::error::{AppFailure, Failure};
use crate::ordered_map::{has_key, index_of_key, keys_distinct, lookup, with_entry};
use crate::pool::PoolView;
use crate::schema::{Schema, SchemaNode};
use crate::token::{literals, parse, Token};
use crate::types::CollectionConfig;
use crate::registry::registry;
use crate::value::Value;
use vstd::prelude::*;

verus! {

/// The failure that resolving `token` ends in, if it ends in one.
pub open spec fn token_failure(token: Seq<char>, pool: PoolView) -> Option<Failure> {
    match parse(token) {
        Token::Scalar(_) => None,
        Token::Reference(name) => match lookup(pool, name) {
            None => Some(Failure::CollectionNotFound(name)),
            Some(ids) => if ids@.len() == 0 {
                Some(Failure::RandomIdSelectionFailed(name))
            } else {
                None
            },
        },
        Token::Choice(list) => if literals(list).len() == 0 {
            Some(Failure::RandomIdSelectionFailed(list))
        } else {
            None
        },
        Token::Unknown => Some(Failure::InvalidFakeMethod(token)),
    }
}

/// `value` is one of the values that resolving `token` may yield.
pub open spec fn token_admits(token: Seq<char>, pool: PoolView, value: Value) -> bool {
    match parse(token) {
        Token::Scalar(generator) => generator.admits(value),
        Token::Reference(name) => match lookup(pool, name) {
            Some(ids) => value matches Value::ObjectId(id) && ids@.contains(id),
            None => false,
        },
        Token::Choice(list) => value matches Value::String(text) && literals(list).contains(text@),
        Token::Unknown => false,
    }
}

/// The failure that generating a field of the shape `node` ends in, if it
/// ends in one. An array makes `children` elements from its first item, so
/// with no element to make, nothing in it can fail.
pub open spec fn node_failure(node: SchemaNode, children: nat, pool: PoolView) -> Option<Failure>
    decreases node, 0nat,
{
    match node {
        SchemaNode::Scalar(token) => token_failure(token@, pool),
        SchemaNode::Array(items) => if items@.len() == 0 || children == 0 {
            None
        } else {
            match items@[0] {
                SchemaNode::Scalar(token) => token_failure(token@, pool),
                SchemaNode::Object(schema) => schema_failure(schema, children, pool),
                _ => None,
            }
        },
        SchemaNode::Object(schema) => schema_failure(schema, children, pool),
        SchemaNode::Other => None,
    }
}

/// The failure of the first field of `schema`, at or after position `from`,
/// whose generation fails.
pub open spec fn fields_failure(schema: Schema, from: nat, children: nat, pool: PoolView) -> Option<
    Failure,
>
    decreases schema, schema@.len() - from,
{
    if from >= schema@.len() {
        None
    } else {
        match node_failure(schema@[from as int].1, children, pool) {
            Some(failure) => Some(failure),
            None => fields_failure(schema, from + 1, children, pool),
        }
    }
}

/// The failure that generating a document of `schema` ends in, if it ends in
/// one: that of the first field whose generation fails.
pub open spec fn schema_failure(schema: Schema, children: nat, pool: PoolView) -> Option<Failure>
    decreases schema, schema@.len() + 1,
{
    fields_failure(schema, 0, children, pool)
}

/// `value` is one of the values that a field of the shape `node` may get.
pub open spec fn node_admits(node: SchemaNode, children: nat, pool: PoolView, value: Value) -> bool
    decreases node, 0nat,
{
    match node {
        SchemaNode::Scalar(token) => token_admits(token@, pool, value),
        SchemaNode::Array(items) => value matches Value::Array(elements) && if items@.len() == 0 {
            elements@.len() == 0
        } else {
            match items@[0] {
                SchemaNode::Scalar(token) => elements@.len() == children && forall|i: int|
                    0 <= i < elements@.len() ==> token_admits(
                        token@,
                        pool,
                        #[trigger] elements@[i],
                    ),
                SchemaNode::Object(schema) => elements@.len() == children && forall|i: int|
                    0 <= i < elements@.len() ==> element_admits(
                        schema,
                        children,
                        pool,
                        #[trigger] elements@[i],
                    ),
                _ => elements@.len() == 0,
            }
        },
        SchemaNode::Object(schema) => element_admits(schema, children, pool, value),
        SchemaNode::Other => value is Null,
    }
}

/// `value` is a document that `schema` may yield.
pub open spec fn element_admits(schema: Schema, children: nat, pool: PoolView, value: Value) -> bool
    decreases schema, schema@.len() + 1,
{
    value matches Value::Document(document) && schema_admits(schema, children, pool, document@)
}

/// `fields` are the fields of a document that `schema` may yield: one for
/// each field of the schema, under its name and in its place, with a value
/// that the field's shape admits.
pub open spec fn schema_admits(
    schema: Schema,
    children: nat,
    pool: PoolView,
    fields: Seq<(Seq<char>, Value)>,
) -> bool
    decreases schema, schema@.len(),
{
    fields.len() == schema@.len() && forall|i: int|
        0 <= i < schema@.len() ==> (#[trigger] fields[i]).0 == schema@[i].0 && node_admits(
            schema@[i].1,
            children,
            pool,
            fields[i].1,
        )
}

/// The failure that generating the documents of a collection ends in, if it
/// ends in one. With no document to make, nothing fails. Else the schema's
/// failure comes first, and then that of a collection which the pool lacks.
pub open spec fn documents_failure(config: CollectionConfig, pool: PoolView) -> Option<AppFailure> {
    if config.number_of_items == 0 {
        None
    } else {
        match schema_failure(config.schema, config.number_of_children as nat, pool) {
            Some(failure) => Some(AppFailure::DataGenerationError(failure)),
            None => if lookup(pool, config.name@) is None {
                Some(AppFailure::ConfigError("Collection ID not found for "@ + config.name@))
            } else {
                None
            },
        }
    }
}

/// `document` holds the fields of a document that the collection's schema may
/// yield, with the identifier at position `i` of the collection's pool stored
/// under `_id`.
pub open spec fn assembled(
    config: CollectionConfig,
    pool: PoolView,
    i: int,
    document: Seq<(Seq<char>, Value)>,
) -> bool {
    match lookup(pool, config.name@) {
        Some(ids) => 0 <= i < ids@.len() && exists|generated: Seq<(Seq<char>, Value)>| #[trigger]
            schema_admits(config.schema, config.number_of_children as nat, pool, generated)
                && document == with_entry(generated, "_id"@, Value::ObjectId(ids@[i])),
        None => false,
    }
}

/// The failure of a schema is that of its first field whose generation
/// fails; a schema without such a field does not fail.
pub proof fn lemma_schema_fails_at_its_first_failing_field(
    schema: Schema,
    children: nat,
    pool: PoolView,
)
    ensures
        match schema_failure(schema, children, pool) {
            Some(failure) => exists|k: int|
                0 <= k < schema@.len() && #[trigger] node_failure(schema@[k].1, children, pool)
                    == Some(failure) && forall|j: int|
                    0 <= j < k ==> #[trigger] node_failure(schema@[j].1, children, pool) is None,
            None => forall|k: int|
                0 <= k < schema@.len() ==> #[trigger] node_failure(schema@[k].1, children, pool)
                    is None,
        },
{
    lemma_fields_fail_at_the_first_failing_field(schema, 0, children, pool);
}

/// The failure of the fields from position `from` on is that of the first of
/// them whose generation fails.
proof fn lemma_fields_fail_at_the_first_failing_field(
    schema: Schema,
    from: nat,
    children: nat,
    pool: PoolView,
)
    ensures
        match fields_failure(schema, from, children, pool) {
            Some(failure) => exists|k: int|
                from <= k < schema@.len() && #[trigger] node_failure(schema@[k].1, children, pool)
                    == Some(failure) && forall|j: int|
                    from <= j < k ==> #[trigger] node_failure(schema@[j].1, children, pool)
                        is None,
            None => forall|k: int|
                from <= k < schema@.len() ==> #[trigger] node_failure(
                    schema@[k].1,
                    children,
                    pool,
                ) is None,
        },
    decreases schema@.len() - from,
{
    if from < schema@.len() {
        lemma_fields_fail_at_the_first_failing_field(schema, from + 1, children, pool);
        match node_failure(schema@[from as int].1, children, pool) {
            Some(failure) => {
                assert(node_failure(schema@[from as int].1, children, pool) == Some(failure));
            },
            None => {
                match fields_failure(schema, from + 1, children, pool) {
                    Some(failure) => {
                        let k = choose|k: int|
                            from + 1 <= k < schema@.len() && #[trigger] node_failure(
                                schema@[k].1,
                                children,
                                pool,
                            ) == Some(failure) && forall|j: int|
                                from + 1 <= j < k ==> #[trigger] node_failure(
                                    schema@[j].1,
                                    children,
                                    pool,
                                ) is None;
                        assert(node_failure(schema@[k].1, children, pool) == Some(failure));
                        assert forall|j: int| from <= j < k implies #[trigger] node_failure(
                            schema@[j].1,
                            children,
                            pool,
                        ) is None by {}
                    },
                    None => {},
                }
            },
        }
    }
}

/// A document that a schema may yield has the schema's field names, each
/// once.
pub proof fn lemma_admitted_document_has_the_schemas_names(
    schema: Schema,
    children: nat,
    pool: PoolView,
    fields: Seq<(Seq<char>, Value)>,
)
    requires
        keys_distinct(schema@),
        schema_admits(schema, children, pool, fields),
    ensures
        keys_distinct(fields),
        forall|name: Seq<char>| has_key(fields, name) <==> has_key(schema@, name),
{
    assert forall|i: int, j: int| 0 <= i < j < fields.len() implies (#[trigger] fields[i]).0 != (
    #[trigger] fields[j]).0 by {
        assert(schema@[i].0 != schema@[j].0);
    }
    assert forall|name: Seq<char>| has_key(fields, name) <==> has_key(schema@, name) by {
        if has_key(fields, name) {
            let i = index_of_key(fields, name);
            assert(schema@[i].0 == name);
        }
        if has_key(schema@, name) {
            let i = index_of_key(schema@, name);
            assert(fields[i].0 == name);
        }
    }
}

/// An array field whose first item is an object holds exactly `children`
/// elements, each a document that the item's schema may yield.
pub proof fn lemma_array_of_objects_has_one_document_for_each_child(
    schema: Schema,
    children: nat,
    pool: PoolView,
    fields: Seq<(Seq<char>, Value)>,
    k: int,
)
    requires
        schema_admits(schema, children, pool, fields),
        0 <= k < schema@.len(),
        schema@[k].1 matches SchemaNode::Array(items) && items@.len() > 0 && items@[0] is Object,
    ensures
        fields[k].0 == schema@[k].0,
        fields[k].1 matches Value::Array(elements) && elements@.len() == children && forall|
            i: int,
        |
            0 <= i < children ==> element_admits(
                schema@[k].1->Array_0@[0]->Object_0,
                children,
                pool,
                #[trigger] elements@[i],
            ),
{
    assert(fields[k].0 == schema@[k].0 && node_admits(schema@[k].1, children, pool, fields[k].1));
}

/// The kind of a value: which of the nine a value is, whatever it holds.
pub enum Kind {
    Double,
    String,
    Array,
    Document,
    Boolean,
    Null,
    Int32,
    Int64,
    ObjectId,
}

/// The kind of `value`.
pub open spec fn kind_of(value: Value) -> Kind {
    match value {
        Value::Double(_) => Kind::Double,
        Value::String(_) => Kind::String,
        Value::Array(_) => Kind::Array,
        Value::Document(_) => Kind::Document,
        Value::Boolean(_) => Kind::Boolean,
        Value::Null => Kind::Null,
        Value::Int32(_) => Kind::Int32,
        Value::Int64(_) => Kind::Int64,
        Value::ObjectId(_) => Kind::ObjectId,
    }
}

/// A token fixes the kind of its values: any two values that resolving the
/// same token may yield are of one kind, whatever the pool holds.
pub proof fn lemma_token_fixes_the_kind(
    token: Seq<char>,
    pool: PoolView,
    value: Value,
    other_pool: PoolView,
    other: Value,
)
    requires
        token_admits(token, pool, value),
        token_admits(token, other_pool, other),
    ensures
        kind_of(value) == kind_of(other),
{
}

/// A token of the registry never fails, and yields exactly the values of its
/// generator's kind.
pub proof fn lemma_registry_tokens_never_fail(token: Seq<char>, pool: PoolView)
    requires
        registry(token) is Some,
    ensures
        token_failure(token, pool) is None,
        forall|value: Value|
            token_admits(token, pool, value) <==> registry(token)->Some_0.admits(value),
{
}

} // verus!
