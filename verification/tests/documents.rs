use db_populator::pool::IdPool;
use db_populator::error::{AppError, GenerateDataError};
use db_populator::generate_data::{generate_documents, generate_ids_pool};
use db_populator::schema::{Schema, SchemaNode};
use db_populator::types::{
    default_number_of_children, default_number_of_items, Cli, CollectionConfig, Config,
};
use db_populator::value::{ObjectId, Value};

fn scalar(token: &str) -> SchemaNode {
    SchemaNode::Scalar(token.to_string())
}

fn id(seed: u8) -> ObjectId {
    ObjectId::from_bytes([seed; 12])
}

fn users(number_of_items: usize) -> CollectionConfig {
    let mut schema = Schema::new();
    schema.insert("name".to_string(), scalar("name.firstName"));
    schema.insert(
        "tags".to_string(),
        SchemaNode::Array(vec![scalar("from.red|green")]),
    );
    CollectionConfig {
        name: "users".to_string(),
        number_of_items,
        number_of_children: 2,
        schema,
    }
}

#[test]
fn documents_get_their_identifiers_by_position() {
    let mut pool = IdPool::new();
    pool.insert("users".to_string(), vec![id(1), id(2), id(3), id(4)]);
    let documents = generate_documents(&users(3), &pool).unwrap();
    assert_eq!(documents.len(), 3);
    for (i, document) in documents.iter().enumerate() {
        assert_eq!(document.len(), 3);
        assert_eq!(document.key_at(0), "name");
        assert_eq!(document.key_at(1), "tags");
        assert_eq!(document.key_at(2), "_id");
        assert_eq!(
            document.get("_id"),
            Some(&Value::ObjectId(id(i as u8 + 1)))
        );
        assert_eq!(document.get("tags").unwrap().as_array().unwrap().len(), 2);
    }
}

#[test]
fn identifier_takes_the_place_of_a_generated_field_of_its_name() {
    let mut schema = Schema::new();
    schema.insert("_id".to_string(), scalar("random.uuid"));
    schema.insert("name".to_string(), scalar("name.firstName"));
    let config = CollectionConfig {
        name: "users".to_string(),
        number_of_items: 1,
        number_of_children: 0,
        schema,
    };
    let mut pool = IdPool::new();
    pool.insert("users".to_string(), vec![id(5)]);
    let documents = generate_documents(&config, &pool).unwrap();
    assert_eq!(documents[0].len(), 2);
    assert_eq!(documents[0].key_at(0), "_id");
    assert_eq!(documents[0].get("_id"), Some(&Value::ObjectId(id(5))));
}

#[test]
fn documents_refer_to_the_pool_of_the_run() {
    let mut order = Schema::new();
    order.insert("buyer".to_string(), scalar("ref.users"));
    let collections = vec![
        CollectionConfig {
            name: "orders".to_string(),
            number_of_items: 4,
            number_of_children: 0,
            schema: order,
        },
        users(2),
    ];
    let pool = generate_ids_pool(&collections);
    let orders = generate_documents(&collections[0], &pool).unwrap();
    let buyers = pool.get("users").unwrap();
    assert_eq!(orders.len(), 4);
    for (i, document) in orders.iter().enumerate() {
        match document.get("buyer") {
            Some(Value::ObjectId(buyer)) => assert!(buyers.contains(buyer)),
            other => panic!("not an identifier: {:?}", other),
        }
        assert_eq!(
            document.get("_id"),
            Some(&Value::ObjectId(pool.get("orders").unwrap()[i]))
        );
    }
}

#[test]
fn no_document_is_asked_for() {
    assert_eq!(generate_documents(&users(0), &IdPool::new()), Ok(Vec::new()));
    let mut bad = users(0);
    bad.schema.insert("bad".to_string(), scalar("bogus.token"));
    assert_eq!(generate_documents(&bad, &IdPool::new()), Ok(Vec::new()));
}

#[test]
fn collection_missing_from_the_pool_is_reported() {
    let error = generate_documents(&users(2), &IdPool::new()).unwrap_err();
    assert_eq!(
        error,
        AppError::ConfigError("Collection ID not found for users".to_string())
    );
    assert_eq!(
        error.message(),
        "Configuration error: Collection ID not found for users"
    );
}

#[test]
fn failure_of_the_schema_comes_first() {
    let mut config = users(2);
    config.schema.insert("bad".to_string(), scalar("bogus.token"));
    assert_eq!(
        generate_documents(&config, &IdPool::new()),
        Err(AppError::DataGenerationError(
            GenerateDataError::InvalidFakeMethod("bogus.token".to_string())
        ))
    );
}

#[test]
fn failures_have_their_messages() {
    assert_eq!(
        GenerateDataError::InvalidFakeMethod("bogus.token".to_string()).message(),
        "Invalid fake method: bogus.token"
    );
    assert_eq!(
        GenerateDataError::CollectionNotFound("users".to_string()).message(),
        "Collection not found: users"
    );
    assert_eq!(
        GenerateDataError::RandomIdSelectionFailed("users".to_string()).message(),
        "Failed to choose a random ID from the collection: users"
    );
    assert_eq!(
        AppError::ConfigError("no file".to_string()).message(),
        "Configuration error: no file"
    );
    assert_eq!(
        AppError::DatabaseError("refused".to_string()).message(),
        "Database error: refused"
    );
    assert_eq!(
        AppError::DataGenerationError(GenerateDataError::CollectionNotFound(
            "users".to_string()
        ))
        .message(),
        "Data generation error: Collection not found: users"
    );
}

#[test]
fn generation_failure_becomes_a_run_failure() {
    let error: AppError = GenerateDataError::CollectionNotFound("users".to_string()).into();
    assert_eq!(
        error,
        AppError::DataGenerationError(GenerateDataError::CollectionNotFound(
            "users".to_string()
        ))
    );
}

#[test]
fn defaults_are_ten_items_and_three_children() {
    assert_eq!(default_number_of_items(), 10);
    assert_eq!(default_number_of_children(), 3);
}

#[test]
fn configuration_holds_what_it_is_given() {
    let config = Config {
        db: "shop".to_string(),
        collections: vec![users(default_number_of_items())],
    };
    assert_eq!(config.db, "shop");
    assert_eq!(config.collections[0].number_of_items, 10);
    let cli = Cli {
        config: "config.json".to_string(),
        url: "mongodb://localhost:27017".to_string(),
    };
    assert_eq!(cli.config, "config.json");
    assert_eq!(cli.url, "mongodb://localhost:27017");
}
