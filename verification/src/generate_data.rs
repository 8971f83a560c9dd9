//! Generation: of one value from a token, of a document from a schema, of
//! the identifier pool of a run, and of a collection's documents.

use crate::conformance::{
    assembled, documents_failure, element_admits, fields_failure, node_admits, node_failure,
    schema_admits, schema_failure, token_admits, token_failure,
};
use crate::error::{AppError, GenerateDataError};
use crate::faker;
use crate::ordered_map::{has_key, keys_distinct, lookup};
use crate::pool::{draw_object_ids, lemma_counts_after_store, pool_counts, pool_shape, IdPool};
use crate::registry::{is_two_names, joined_names, Generator};
use crate::schema::{Schema, SchemaNode};
use crate::token::{parse_token, split_literals, texts_view, ParsedToken};
use crate::types::CollectionConfig;
use crate::value::{Document, DoubleRange, Precision, Value};
use vstd::prelude::*;
use vstd::string::StringExecFns;

verus! {

/// A first name and a last name with a blank between them.
fn full_name() -> (text: String)
    ensures
        is_two_names(text@),
{
    let first = faker::first_name();
    let last = faker::last_name();
    proof {
        reveal_strlit(" ");
        assert(" "@ =~= seq![' ']);
        assert(first@ + " "@ + last@ == joined_names(first@, last@));
    }
    first.concat(" ").concat(last.as_str())
}

/// Draws one value from `generator`.
pub fn generate_scalar(generator: Generator) -> (value: Value)
    ensures
        generator.admits(value),
{
    proof {
        reveal_strlit("###");
    }
    match generator {
        Generator::AddressBuildingNumber => Value::String(faker::building_number()),
        Generator::AddressCityName => Value::String(faker::city_name()),
        Generator::AddressCityPrefix => Value::String(faker::city_prefix()),
        Generator::AddressCitySuffix => Value::String(faker::city_suffix()),
        Generator::AddressCountryCode => Value::String(faker::country_code()),
        Generator::AddressCountryName => Value::String(faker::country_name()),
        Generator::AddressLatitude => Value::String(faker::latitude()),
        Generator::AddressLongitude => Value::String(faker::longitude()),
        Generator::AddressPostCode => Value::String(faker::post_code()),
        Generator::AddressSecondaryAddress => Value::String(faker::secondary_address()),
        Generator::AddressStateAbbr => Value::String(faker::state_abbr()),
        Generator::AddressStateName => Value::String(faker::state_name()),
        Generator::AddressStreetName => Value::String(faker::street_name()),
        Generator::AddressStreetSuffix => Value::String(faker::street_suffix()),
        Generator::AddressTimeZone => Value::String(faker::time_zone()),
        Generator::AddressZipCode => Value::String(faker::zip_code()),
        Generator::BooleanBoolean => Value::Boolean(faker::boolean(1)),
        Generator::ChronoDate => Value::String(faker::chrono_date()),
        Generator::ChronoDatetime => Value::String(faker::chrono_date_time()),
        Generator::ChronoDuration => Value::String(faker::number_with_format("###")),
        Generator::ChronoTime => Value::String(faker::chrono_time()),
        Generator::CompanyBs => Value::String(faker::bs()),
        Generator::CompanyBuzzword => Value::String(faker::buzzword()),
        Generator::CompanyCatchPhrase => Value::String(faker::catch_phrase()),
        Generator::CompanyName => Value::String(faker::company_name()),
        Generator::CompanyProfession => Value::String(faker::profession()),
        Generator::CompanySuffix => Value::String(faker::name_suffix()),
        Generator::CompanyIndustry => Value::String(faker::industry()),
        Generator::CreditCardNumber => Value::String(faker::credit_card_number()),
        Generator::CurrencyCode => Value::String(faker::currency_code()),
        Generator::CurrencyName => Value::String(faker::currency_name()),
        Generator::CurrencySymbol => Value::String(faker::currency_symbol()),
        Generator::FileSystemExtension => Value::String(faker::file_extension()),
        Generator::FileSystemFileName => Value::String(faker::file_name()),
        Generator::FileSystemFilePath => Value::String(faker::file_path()),
        Generator::FileSystemMimeType => Value::String(faker::mime_type()),
        Generator::InternetDomainSuffix => Value::String(faker::domain_suffix()),
        Generator::InternetFreeEmail => Value::String(faker::free_email()),
        Generator::InternetIpV4 => Value::String(faker::ipv4()),
        Generator::InternetIpV6 => Value::String(faker::ipv6()),
        Generator::InternetPassword => Value::String(faker::password(8, 12)),
        Generator::InternetEmail => Value::String(faker::free_email()),
        Generator::InternetUsername => Value::String(faker::username()),
        Generator::JobField => Value::String(faker::job_field()),
        Generator::JobPosition => Value::String(faker::job_position()),
        Generator::JobSeniority => Value::String(faker::job_seniority()),
        Generator::JobTitle => Value::String(faker::job_title()),
        Generator::LoremSentence => Value::String(faker::lorem_sentence(1, 5)),
        Generator::LoremWord => Value::String(faker::lorem_word()),
        Generator::LoremParagraph => Value::String(faker::lorem_paragraph(1, 5)),
        Generator::NameFirstName => Value::String(faker::first_name()),
        Generator::NameLastName => Value::String(faker::last_name()),
        Generator::NameFullName => Value::String(full_name()),
        Generator::NumberU8 => Value::Int32(faker::u8_between(0, 255) as i32),
        Generator::NumberI32 => Value::Int32(faker::i32_between(0, 1000)),
        Generator::NumberU32 => Value::Int64(faker::u32_between(0, 1000) as i64),
        Generator::NumberI64 => Value::Int64(faker::i64_between(0, 1000)),
        Generator::NumberU64 => Value::Int64(faker::u64_between(0, 1000) as i64),
        Generator::NumberF32 => Value::Double(
            DoubleRange { low: 0, high: 1000, inclusive: false, precision: Precision::Single },
        ),
        Generator::NumberF64 => Value::Double(
            DoubleRange { low: 0, high: 1000, inclusive: true, precision: Precision::Double },
        ),
        Generator::NumberPhoneNumber => Value::String(faker::cell_number()),
        Generator::RandomUuid => Value::String(faker::uuid_v4()),
    }
}

/// Resolves a token to a value.
///
/// The name of a generator of the registry gives a value of that generator's
/// kind. `ref.` and a collection's name give one of the identifiers that
/// `ids_pool` holds for that collection; this fails where the pool lacks the
/// collection, and where the collection has no identifier. `from.` and a list
/// of literals give one of the literals; this fails where the list is empty.
/// Every other token fails, and is handed back in the failure.
pub fn generate_fake_value(fake_method: &str, ids_pool: &IdPool) -> (result: Result<
    Value,
    GenerateDataError,
>)
    ensures
        match token_failure(fake_method@, ids_pool@) {
            Some(failure) => result matches Err(error) && error@ == failure,
            None => result matches Ok(value) && token_admits(fake_method@, ids_pool@, value),
        },
{
    match parse_token(fake_method) {
        ParsedToken::Scalar(generator) => Ok(generate_scalar(generator)),
        ParsedToken::Reference(name) => match ids_pool.get(name.as_str()) {
            None => Err(GenerateDataError::CollectionNotFound(name)),
            Some(ids) => match faker::choose_one(ids) {
                None => Err(GenerateDataError::RandomIdSelectionFailed(name)),
                Some(id) => Ok(Value::ObjectId(*id)),
            },
        },
        ParsedToken::Choice(list) => {
            let pieces = split_literals(list.as_str());
            match faker::choose_one(&pieces) {
                None => Err(GenerateDataError::RandomIdSelectionFailed(list)),
                Some(text) => {
                    proof {
                        let i = choose|i: int| 0 <= i < pieces@.len() && pieces@[i] == *text;
                        assert(texts_view(pieces@)[i] == text@);
                    }
                    Ok(Value::String(text.clone()))
                },
            }
        },
        ParsedToken::Unknown => Err(
            GenerateDataError::InvalidFakeMethod(String::from_str(fake_method)),
        ),
    }
}

/// Generates `number_of_children` values from one token.
fn generate_scalars(token: &str, number_of_children: usize, ids_pool: &IdPool) -> (result: Result<
    Vec<Value>,
    GenerateDataError,
>)
    ensures
        match token_failure(token@, ids_pool@) {
            Some(failure) => if number_of_children == 0 {
                result matches Ok(elements) && elements@.len() == 0
            } else {
                result matches Err(error) && error@ == failure
            },
            None => result matches Ok(elements) && elements@.len() == number_of_children
                && forall|i: int|
                0 <= i < elements@.len() ==> token_admits(
                    token@,
                    ids_pool@,
                    #[trigger] elements@[i],
                ),
        },
{
    let mut elements: Vec<Value> = Vec::new();
    let mut made: usize = 0;
    while made < number_of_children
        invariant
            made <= number_of_children,
            elements@.len() == made,
            made > 0 ==> token_failure(token@, ids_pool@) is None,
            forall|i: int|
                0 <= i < elements@.len() ==> token_admits(
                    token@,
                    ids_pool@,
                    #[trigger] elements@[i],
                ),
        decreases number_of_children - made,
    {
        match generate_fake_value(token, ids_pool) {
            Ok(value) => elements.push(value),
            Err(error) => {
                return Err(error);
            },
        }
        made += 1;
    }
    Ok(elements)
}

/// Generates `number_of_children` documents from one schema.
fn generate_objects(schema: &Schema, number_of_children: usize, ids_pool: &IdPool) -> (result:
    Result<Vec<Value>, GenerateDataError>)
    ensures
        match schema_failure(*schema, number_of_children as nat, ids_pool@) {
            Some(failure) => if number_of_children == 0 {
                result matches Ok(elements) && elements@.len() == 0
            } else {
                result matches Err(error) && error@ == failure
            },
            None => result matches Ok(elements) && elements@.len() == number_of_children
                && forall|i: int|
                0 <= i < elements@.len() ==> element_admits(
                    *schema,
                    number_of_children as nat,
                    ids_pool@,
                    #[trigger] elements@[i],
                ),
        },
    decreases schema, schema@.len() + 3,
{
    let mut elements: Vec<Value> = Vec::new();
    let mut made: usize = 0;
    while made < number_of_children
        invariant
            made <= number_of_children,
            elements@.len() == made,
            made > 0 ==> schema_failure(*schema, number_of_children as nat, ids_pool@) is None,
            forall|i: int|
                0 <= i < elements@.len() ==> element_admits(
                    *schema,
                    number_of_children as nat,
                    ids_pool@,
                    #[trigger] elements@[i],
                ),
        decreases number_of_children - made,
    {
        match generate_data(schema, number_of_children, ids_pool) {
            Ok(value) => elements.push(value),
            Err(error) => {
                return Err(error);
            },
        }
        made += 1;
    }
    Ok(elements)
}

/// Generates the value of one field.
fn generate_field(node: &SchemaNode, number_of_children: usize, ids_pool: &IdPool) -> (result:
    Result<Value, GenerateDataError>)
    ensures
        match node_failure(*node, number_of_children as nat, ids_pool@) {
            Some(failure) => result matches Err(error) && error@ == failure,
            None => result matches Ok(value) && node_admits(
                *node,
                number_of_children as nat,
                ids_pool@,
                value,
            ),
        },
    decreases node, 0nat,
{
    match node {
        SchemaNode::Scalar(token) => generate_fake_value(token.as_str(), ids_pool),
        SchemaNode::Array(items) => {
            if items.len() == 0 {
                return Ok(Value::Array(Vec::new()));
            }
            let made = match &items[0] {
                SchemaNode::Scalar(token) => generate_scalars(
                    token.as_str(),
                    number_of_children,
                    ids_pool,
                ),
                SchemaNode::Object(schema) => generate_objects(
                    schema,
                    number_of_children,
                    ids_pool,
                ),
                _ => Ok(Vec::new()),
            };
            match made {
                Ok(elements) => Ok(Value::Array(elements)),
                Err(error) => Err(error),
            }
        },
        SchemaNode::Object(schema) => generate_data(schema, number_of_children, ids_pool),
        SchemaNode::Other => Ok(Value::Null),
    }
}

/// Generates one document from a schema.
///
/// The fields are generated in the schema's order, and the document has them
/// in that order. A scalar field is resolved as a token. An array field gets
/// `number_of_children` elements, each generated anew from the array's first
/// item: values of the token where that is a scalar, documents where it is an
/// object, and no element at all where there is no first item or it is of
/// another shape. An object field gets one nested document. Every other field
/// is the absent value.
///
/// The failure of the first field that cannot be generated ends the
/// generation, and no document is handed out.
pub fn generate_document(schema: &Schema, number_of_children: usize, ids_pool: &IdPool) -> (result:
    Result<Document, GenerateDataError>)
    ensures
        match schema_failure(*schema, number_of_children as nat, ids_pool@) {
            Some(failure) => result matches Err(error) && error@ == failure,
            None => result matches Ok(document) && schema_admits(
                *schema,
                number_of_children as nat,
                ids_pool@,
                document@,
            ),
        },
    decreases schema, schema@.len() + 1,
{
    let mut document = Document::new();
    let count = schema.len();
    let mut i: usize = 0;
    while i < count
        invariant
            i <= count,
            count == schema@.len(),
            keys_distinct(schema@),
            fields_failure(*schema, 0, number_of_children as nat, ids_pool@) == fields_failure(
                *schema,
                i as nat,
                number_of_children as nat,
                ids_pool@,
            ),
            document@.len() == i,
            forall|j: int|
                0 <= j < i ==> (#[trigger] document@[j]).0 == schema@[j].0 && node_admits(
                    schema@[j].1,
                    number_of_children as nat,
                    ids_pool@,
                    document@[j].1,
                ),
        decreases count - i,
    {
        let value = match generate_field(schema.value_at(i), number_of_children, ids_pool) {
            Ok(value) => value,
            Err(error) => {
                return Err(error);
            },
        };
        let key = schema.key_at(i).clone();
        let ghost before = document@;
        proof {
            if has_key(before, key@) {
                let j = choose|j: int| 0 <= j < before.len() && (#[trigger] before[j]).0 == key@;
                assert(schema@[j].0 != schema@[i as int].0);
            }
        }
        document.insert(key, value);
        i += 1;
    }
    Ok(document)
}

/// Generates one document from a schema, as a value.
///
/// This is [`generate_document`] with the document handed out as a
/// [`Value`], as a nested document is held.
pub fn generate_data(schema: &Schema, number_of_children: usize, ids_pool: &IdPool) -> (result:
    Result<Value, GenerateDataError>)
    ensures
        match schema_failure(*schema, number_of_children as nat, ids_pool@) {
            Some(failure) => result matches Err(error) && error@ == failure,
            None => result matches Ok(value) && element_admits(
                *schema,
                number_of_children as nat,
                ids_pool@,
                value,
            ),
        },
    decreases schema, schema@.len() + 2,
{
    match generate_document(schema, number_of_children, ids_pool) {
        Ok(document) => Ok(Value::Document(document)),
        Err(error) => Err(error),
    }
}

/// Allots to every collection of a run as many new identifiers as it is to
/// get documents.
///
/// The pool is made before anything is generated, so that a document of one
/// collection can refer to a document of another that does not exist yet.
pub fn generate_ids_pool(collections_config: &Vec<CollectionConfig>) -> (ids_pool: IdPool)
    ensures
        pool_counts(ids_pool@) == pool_shape(collections_config@),
{
    let mut ids_pool = IdPool::new();
    let mut done: usize = 0;
    assert(pool_counts(ids_pool@) =~= pool_shape(collections_config@.subrange(0, 0)));
    while done < collections_config.len()
        invariant
            done <= collections_config.len(),
            keys_distinct(ids_pool@),
            pool_counts(ids_pool@) == pool_shape(collections_config@.subrange(0, done as int)),
        decreases collections_config.len() - done,
    {
        let collection_config = &collections_config[done];
        let ids = draw_object_ids(collection_config.number_of_items);
        proof {
            lemma_counts_after_store(ids_pool@, collection_config.name@, ids);
            assert(collections_config@.subrange(0, done + 1).drop_last()
                =~= collections_config@.subrange(0, done as int));
        }
        ids_pool.insert(collection_config.name.clone(), ids);
        done += 1;
    }
    assert(collections_config@.subrange(0, done as int) =~= collections_config@);
    ids_pool
}

/// Generates the documents of one collection.
///
/// Document `i` is generated from the collection's schema, and then gets,
/// under `_id`, the identifier at position `i` of those that `ids_pool`
/// holds for the collection: by its place, whatever the document holds. These
/// are the identifiers that the documents of other collections refer to.
///
/// The pool must hold at least as many identifiers for the collection as the
/// collection gets documents.
pub fn generate_documents(collection_config: &CollectionConfig, ids_pool: &IdPool) -> (result:
    Result<Vec<Document>, AppError>)
    requires
        lookup(ids_pool@, collection_config.name@) matches Some(ids)
            ==> collection_config.number_of_items <= ids@.len(),
    ensures
        match documents_failure(*collection_config, ids_pool@) {
            Some(failure) => result matches Err(error) && error@ == failure,
            None => result matches Ok(documents) && documents@.len()
                == collection_config.number_of_items && forall|i: int|
                0 <= i < documents@.len() ==> assembled(
                    *collection_config,
                    ids_pool@,
                    i,
                    (#[trigger] documents@[i])@,
                ),
        },
{
    let number_of_items = collection_config.number_of_items;
    let mut documents: Vec<Document> = Vec::new();
    let mut i: usize = 0;
    while i < number_of_items
        invariant
            i <= number_of_items,
            number_of_items == collection_config.number_of_items,
            lookup(ids_pool@, collection_config.name@) matches Some(ids) ==> number_of_items
                <= ids@.len(),
            documents@.len() == i,
            i > 0 ==> documents_failure(*collection_config, ids_pool@) is None,
            forall|j: int|
                0 <= j < documents@.len() ==> assembled(
                    *collection_config,
                    ids_pool@,
                    j,
                    (#[trigger] documents@[j])@,
                ),
        decreases number_of_items - i,
    {
        let mut document = match generate_document(
            &collection_config.schema,
            collection_config.number_of_children,
            ids_pool,
        ) {
            Ok(document) => document,
            Err(error) => {
                return Err(AppError::DataGenerationError(error));
            },
        };
        let ids = match ids_pool.get(collection_config.name.as_str()) {
            Some(ids) => ids,
            None => {
                return Err(
                    AppError::ConfigError(
                        String::from_str("Collection ID not found for ").concat(
                            collection_config.name.as_str(),
                        ),
                    ),
                );
            },
        };
        let ghost fields = document@;
        document.insert(String::from_str("_id"), Value::ObjectId(ids[i]));
        assert(assembled(*collection_config, ids_pool@, i as int, document@)) by {
            assert(schema_admits(
                collection_config.schema,
                collection_config.number_of_children as nat,
                ids_pool@,
                fields,
            ));
        }
        documents.push(document);
        i += 1;
    }
    Ok(documents)
}

} // verus!
