use db_populator::error::GenerateDataError;
use db_populator::generate_data::{
    generate_data, generate_fake_value, generate_ids_pool, generate_scalar,
};
use db_populator::pool::{draw_object_ids, has_distinct_ids, IdPool};
use db_populator::registry::Generator;
use db_populator::schema::{Schema, SchemaNode};
use db_populator::types::CollectionConfig;
use db_populator::value::{DoubleRange, ObjectId, Precision, Value};

fn scalar(token: &str) -> SchemaNode {
    SchemaNode::Scalar(token.to_string())
}

fn id(seed: u8) -> ObjectId {
    ObjectId::from_bytes([seed; 12])
}

fn users_pool() -> IdPool {
    let mut pool = IdPool::new();
    pool.insert("users".to_string(), vec![id(1), id(2), id(3)]);
    pool
}

fn text_of(value: &Value) -> &str {
    match value {
        Value::String(text) => text,
        other => panic!("not a text: {:?}", other),
    }
}

#[test]
fn test_generate_fake_value() {
    let ids_pool = IdPool::new();

    assert!(matches!(
        generate_fake_value("name.firstName", &ids_pool),
        Ok(Value::String(_))
    ));
    assert!(matches!(
        generate_fake_value("address.cityName", &ids_pool),
        Ok(Value::String(_))
    ));
    assert!(matches!(
        generate_fake_value("number.i32", &ids_pool),
        Ok(Value::Int32(_))
    ));
    assert!(matches!(
        generate_fake_value("currency.code", &ids_pool),
        Ok(Value::String(_))
    ));
    assert!(matches!(
        generate_fake_value("random.uuid", &ids_pool),
        Ok(Value::String(_))
    ));
}

#[test]
fn test_generate_data() {
    let mut address = Schema::new();
    address.insert("street".to_string(), scalar("address.streetName"));
    address.insert("city".to_string(), scalar("address.cityName"));
    let mut schema = Schema::new();
    schema.insert("first_name".to_string(), scalar("name.firstName"));
    schema.insert("last_name".to_string(), scalar("name.lastName"));
    schema.insert("address".to_string(), SchemaNode::Object(address));
    schema.insert(
        "emails".to_string(),
        SchemaNode::Array(vec![scalar("internet.email")]),
    );
    schema.insert(
        "numbers".to_string(),
        SchemaNode::Array(vec![scalar("number.i32")]),
    );

    let ids_pool = IdPool::new();
    let generated_data = generate_data(&schema, 3, &ids_pool).unwrap();

    assert!(generated_data
        .as_document()
        .unwrap()
        .contains_key("first_name"));
    assert!(generated_data
        .as_document()
        .unwrap()
        .contains_key("last_name"));
    assert!(generated_data
        .as_document()
        .unwrap()
        .contains_key("address"));
    assert!(generated_data.as_document().unwrap().contains_key("emails"));
    assert!(generated_data
        .as_document()
        .unwrap()
        .contains_key("numbers"));
}

#[test]
fn test_generate_ids_pool() {
    let collections_config = vec![
        CollectionConfig {
            name: "users".to_string(),
            number_of_items: 5,
            number_of_children: 2,
            schema: Schema::new(),
        },
        CollectionConfig {
            name: "orders".to_string(),
            number_of_items: 3,
            number_of_children: 2,
            schema: Schema::new(),
        },
    ];

    let ids_pool = generate_ids_pool(&collections_config);

    assert_eq!(ids_pool.get("users").unwrap().len(), 5);
    assert_eq!(ids_pool.get("orders").unwrap().len(), 3);
}

#[test]
fn ids_pool_has_no_identifier_twice() {
    let collections_config = vec![
        CollectionConfig {
            name: "users".to_string(),
            number_of_items: 5,
            number_of_children: 2,
            schema: Schema::new(),
        },
        CollectionConfig {
            name: "orders".to_string(),
            number_of_items: 3,
            number_of_children: 2,
            schema: Schema::new(),
        },
    ];
    let ids_pool = generate_ids_pool(&collections_config);
    let mut all: Vec<ObjectId> = Vec::new();
    all.extend(ids_pool.get("users").unwrap().iter().copied());
    all.extend(ids_pool.get("orders").unwrap().iter().copied());
    assert_eq!(all.len(), 8);
    for i in 0..all.len() {
        for j in (i + 1)..all.len() {
            assert_ne!(all[i], all[j]);
        }
    }
    assert!(has_distinct_ids(&ids_pool));
}

#[test]
fn ids_pool_keeps_the_order_of_the_collections() {
    let collections_config = vec![
        CollectionConfig {
            name: "users".to_string(),
            number_of_items: 2,
            number_of_children: 0,
            schema: Schema::new(),
        },
        CollectionConfig {
            name: "orders".to_string(),
            number_of_items: 0,
            number_of_children: 0,
            schema: Schema::new(),
        },
        CollectionConfig {
            name: "users".to_string(),
            number_of_items: 4,
            number_of_children: 0,
            schema: Schema::new(),
        },
    ];
    let ids_pool = generate_ids_pool(&collections_config);
    assert_eq!(ids_pool.len(), 2);
    assert_eq!(ids_pool.key_at(0), "users");
    assert_eq!(ids_pool.key_at(1), "orders");
    assert_eq!(ids_pool.get("users").unwrap().len(), 4);
    assert_eq!(ids_pool.get("orders").unwrap().len(), 0);
    assert!(ids_pool.get("payments").is_none());
}

#[test]
fn ids_pool_has_the_same_shape_on_every_run() {
    let collections_config = vec![
        CollectionConfig {
            name: "users".to_string(),
            number_of_items: 5,
            number_of_children: 2,
            schema: Schema::new(),
        },
        CollectionConfig {
            name: "orders".to_string(),
            number_of_items: 3,
            number_of_children: 2,
            schema: Schema::new(),
        },
    ];
    let first = generate_ids_pool(&collections_config);
    let second = generate_ids_pool(&collections_config);
    assert_eq!(first.len(), second.len());
    for i in 0..first.len() {
        assert_eq!(first.key_at(i), second.key_at(i));
        assert_eq!(first.value_at(i).len(), second.value_at(i).len());
    }
    assert_ne!(first, second);
}

#[test]
fn ids_pool_of_no_collection_is_empty() {
    let ids_pool = generate_ids_pool(&Vec::new());
    assert!(ids_pool.is_empty());
    assert!(has_distinct_ids(&ids_pool));
}

#[test]
fn drawn_identifiers_come_in_the_number_asked_for() {
    assert_eq!(draw_object_ids(0).len(), 0);
    let ids = draw_object_ids(7);
    assert_eq!(ids.len(), 7);
    assert_ne!(ids[0], ids[1]);
}

#[test]
fn repeated_identifiers_are_found() {
    let mut pool = IdPool::new();
    pool.insert("users".to_string(), vec![id(1), id(2)]);
    pool.insert("orders".to_string(), vec![id(3)]);
    assert!(has_distinct_ids(&pool));
    pool.insert("payments".to_string(), vec![id(4), id(2)]);
    assert!(!has_distinct_ids(&pool));
    let mut twice = IdPool::new();
    twice.insert("users".to_string(), vec![id(9), id(9)]);
    assert!(!has_distinct_ids(&twice));
}

#[test]
fn generated_document_follows_the_schema() {
    let mut schema = Schema::new();
    schema.insert("first_name".to_string(), scalar("name.firstName"));
    schema.insert(
        "emails".to_string(),
        SchemaNode::Array(vec![scalar("internet.email")]),
    );
    schema.insert(
        "numbers".to_string(),
        SchemaNode::Array(vec![scalar("number.i32")]),
    );
    let generated = generate_data(&schema, 3, &IdPool::new()).unwrap();
    let document = generated.as_document().unwrap();
    assert_eq!(document.len(), 3);
    assert_eq!(document.key_at(0), "first_name");
    assert_eq!(document.key_at(1), "emails");
    assert_eq!(document.key_at(2), "numbers");
    assert!(matches!(document.get("first_name"), Some(Value::String(_))));
    let emails = document.get("emails").unwrap().as_array().unwrap();
    assert_eq!(emails.len(), 3);
    for email in emails {
        assert!(text_of(email).contains('@'));
    }
    let numbers = document.get("numbers").unwrap().as_array().unwrap();
    assert_eq!(numbers.len(), 3);
    for number in numbers {
        match number {
            Value::Int32(n) => assert!((0..=1000).contains(n)),
            other => panic!("not an integer: {:?}", other),
        }
    }
}

#[test]
fn reference_is_one_of_the_pool() {
    let pool = users_pool();
    let mut seen = [false; 3];
    for _ in 0..200 {
        match generate_fake_value("ref.users", &pool) {
            Ok(Value::ObjectId(found)) => {
                let at = [id(1), id(2), id(3)]
                    .iter()
                    .position(|known| *known == found)
                    .unwrap();
                seen[at] = true;
            }
            other => panic!("not an identifier: {:?}", other),
        }
    }
    assert_eq!(seen, [true, true, true]);
}

#[test]
fn reference_to_a_missing_collection_fails() {
    assert_eq!(
        generate_fake_value("ref.users", &IdPool::new()),
        Err(GenerateDataError::CollectionNotFound("users".to_string()))
    );
    assert_eq!(
        generate_fake_value("ref.orders", &users_pool()),
        Err(GenerateDataError::CollectionNotFound("orders".to_string()))
    );
    assert_eq!(
        generate_fake_value("ref.", &users_pool()),
        Err(GenerateDataError::CollectionNotFound(String::new()))
    );
}

#[test]
fn reference_to_a_collection_without_identifiers_fails() {
    let mut pool = IdPool::new();
    pool.insert("users".to_string(), Vec::new());
    assert_eq!(
        generate_fake_value("ref.users", &pool),
        Err(GenerateDataError::RandomIdSelectionFailed(
            "users".to_string()
        ))
    );
}

#[test]
fn reference_ends_at_the_next_dot() {
    let pool = users_pool();
    assert!(matches!(
        generate_fake_value("ref.users.archive", &pool),
        Ok(Value::ObjectId(_))
    ));
}

#[test]
fn choice_is_one_of_the_literals() {
    let pool = IdPool::new();
    let mut seen = [false; 3];
    for _ in 0..200 {
        let value = generate_fake_value("from.a|b|c", &pool).unwrap();
        let at = ["a", "b", "c"]
            .iter()
            .position(|known| *known == text_of(&value))
            .unwrap();
        seen[at] = true;
    }
    assert_eq!(seen, [true, true, true]);
    assert_eq!(
        generate_fake_value("from.only", &pool),
        Ok(Value::String("only".to_string()))
    );
}

#[test]
fn choice_among_no_literals_fails() {
    assert_eq!(
        generate_fake_value("from.", &IdPool::new()),
        Err(GenerateDataError::RandomIdSelectionFailed(String::new()))
    );
}

#[test]
fn unknown_token_fails() {
    assert_eq!(
        generate_fake_value("bogus.token", &IdPool::new()),
        Err(GenerateDataError::InvalidFakeMethod(
            "bogus.token".to_string()
        ))
    );
    for token in ["", "ref", "from", "refs.users", "fromage.a|b", "name", "name.", "Name.firstName"] {
        assert_eq!(
            generate_fake_value(token, &users_pool()),
            Err(GenerateDataError::InvalidFakeMethod(token.to_string()))
        );
    }
}

#[test]
fn array_of_objects_has_one_document_for_each_child() {
    let mut item = Schema::new();
    item.insert("sku".to_string(), scalar("random.uuid"));
    item.insert("buyer".to_string(), scalar("ref.users"));
    let mut schema = Schema::new();
    schema.insert(
        "items".to_string(),
        SchemaNode::Array(vec![SchemaNode::Object(item)]),
    );
    for children in [0usize, 1, 4, 9] {
        let generated = generate_data(&schema, children, &users_pool()).unwrap();
        let items = generated
            .as_document()
            .unwrap()
            .get("items")
            .unwrap()
            .as_array()
            .unwrap();
        assert_eq!(items.len(), children);
        for element in items {
            let document = element.as_document().unwrap();
            assert_eq!(document.len(), 2);
            assert_eq!(text_of(document.get("sku").unwrap()).len(), 36);
            assert!(matches!(document.get("buyer"), Some(Value::ObjectId(_))));
        }
    }
}

#[test]
fn array_elements_are_drawn_one_by_one() {
    let mut schema = Schema::new();
    schema.insert(
        "ids".to_string(),
        SchemaNode::Array(vec![scalar("random.uuid")]),
    );
    let generated = generate_data(&schema, 8, &IdPool::new()).unwrap();
    let ids = generated
        .as_document()
        .unwrap()
        .get("ids")
        .unwrap()
        .as_array()
        .unwrap();
    assert_eq!(ids.len(), 8);
    assert!(ids.iter().any(|other| text_of(other) != text_of(&ids[0])));
}

#[test]
fn array_follows_its_first_item_only() {
    let mut schema = Schema::new();
    schema.insert("none".to_string(), SchemaNode::Array(Vec::new()));
    schema.insert(
        "other".to_string(),
        SchemaNode::Array(vec![SchemaNode::Other, scalar("name.firstName")]),
    );
    schema.insert(
        "nested".to_string(),
        SchemaNode::Array(vec![SchemaNode::Array(vec![scalar("name.firstName")])]),
    );
    schema.insert(
        "first".to_string(),
        SchemaNode::Array(vec![scalar("boolean.boolean"), scalar("bogus.token")]),
    );
    let generated = generate_data(&schema, 2, &IdPool::new()).unwrap();
    let document = generated.as_document().unwrap();
    assert_eq!(document.get("none"), Some(&Value::Array(Vec::new())));
    assert_eq!(document.get("other"), Some(&Value::Array(Vec::new())));
    assert_eq!(document.get("nested"), Some(&Value::Array(Vec::new())));
    let first = document.get("first").unwrap().as_array().unwrap();
    assert_eq!(first.len(), 2);
    assert!(first.iter().all(|value| matches!(value, Value::Boolean(_))));
}

#[test]
fn other_shapes_give_the_absent_value() {
    let mut inner = Schema::new();
    inner.insert("nothing".to_string(), SchemaNode::Other);
    let mut schema = Schema::new();
    schema.insert("absent".to_string(), SchemaNode::Other);
    schema.insert("inner".to_string(), SchemaNode::Object(inner));
    let generated = generate_data(&schema, 3, &IdPool::new()).unwrap();
    let document = generated.as_document().unwrap();
    assert_eq!(document.get("absent"), Some(&Value::Null));
    let inner = document.get("inner").unwrap().as_document().unwrap();
    assert_eq!(inner.len(), 1);
    assert_eq!(inner.get("nothing"), Some(&Value::Null));
    assert!(Value::Null.as_document().is_none());
    assert!(Value::Null.as_array().is_none());
}

#[test]
fn empty_schema_gives_an_empty_document() {
    let generated = generate_data(&Schema::new(), 3, &IdPool::new()).unwrap();
    assert!(generated.as_document().unwrap().is_empty());
}

#[test]
fn first_failing_field_ends_the_generation() {
    let mut schema = Schema::new();
    schema.insert("name".to_string(), scalar("name.firstName"));
    schema.insert("owner".to_string(), scalar("ref.owners"));
    schema.insert("bad".to_string(), scalar("bogus.token"));
    assert_eq!(
        generate_data(&schema, 3, &users_pool()),
        Err(GenerateDataError::CollectionNotFound("owners".to_string()))
    );
}

#[test]
fn failure_inside_an_array_ends_the_generation() {
    let mut item = Schema::new();
    item.insert("bad".to_string(), scalar("bogus.token"));
    let mut schema = Schema::new();
    schema.insert(
        "items".to_string(),
        SchemaNode::Array(vec![SchemaNode::Object(item)]),
    );
    schema.insert(
        "tags".to_string(),
        SchemaNode::Array(vec![scalar("from.")]),
    );
    assert_eq!(
        generate_data(&schema, 2, &IdPool::new()),
        Err(GenerateDataError::InvalidFakeMethod(
            "bogus.token".to_string()
        ))
    );
}

#[test]
fn array_without_children_cannot_fail() {
    let mut item = Schema::new();
    item.insert("bad".to_string(), scalar("bogus.token"));
    let mut schema = Schema::new();
    schema.insert(
        "items".to_string(),
        SchemaNode::Array(vec![SchemaNode::Object(item)]),
    );
    schema.insert(
        "tags".to_string(),
        SchemaNode::Array(vec![scalar("bogus.token")]),
    );
    let generated = generate_data(&schema, 0, &IdPool::new()).unwrap();
    let document = generated.as_document().unwrap();
    assert_eq!(document.get("items"), Some(&Value::Array(Vec::new())));
    assert_eq!(document.get("tags"), Some(&Value::Array(Vec::new())));
}

#[test]
fn numbers_keep_their_type_and_range() {
    let pool = IdPool::new();
    for _ in 0..300 {
        match generate_fake_value("number.u8", &pool) {
            Ok(Value::Int32(n)) => assert!((0..=255).contains(&n)),
            other => panic!("number.u8 gave {:?}", other),
        }
        match generate_fake_value("number.i32", &pool) {
            Ok(Value::Int32(n)) => assert!((0..=1000).contains(&n)),
            other => panic!("number.i32 gave {:?}", other),
        }
        for token in ["number.u32", "number.i64", "number.u64"] {
            match generate_fake_value(token, &pool) {
                Ok(Value::Int64(n)) => assert!((0..=1000).contains(&n)),
                other => panic!("{} gave {:?}", token, other),
            }
        }
    }
}

#[test]
fn integer_draws_are_not_constant() {
    let pool = IdPool::new();
    for token in ["number.u8", "number.i32", "number.u32", "number.i64", "number.u64"] {
        let first = generate_fake_value(token, &pool).unwrap();
        assert!((0..200).any(|_| generate_fake_value(token, &pool).unwrap() != first));
    }
}

#[test]
fn doubles_are_handed_out_as_their_range() {
    let pool = IdPool::new();
    assert_eq!(
        generate_fake_value("number.f32", &pool),
        Ok(Value::Double(DoubleRange {
            low: 0,
            high: 1000,
            inclusive: false,
            precision: Precision::Single,
        }))
    );
    assert_eq!(
        generate_fake_value("number.f64", &pool),
        Ok(Value::Double(DoubleRange {
            low: 0,
            high: 1000,
            inclusive: true,
            precision: Precision::Double,
        }))
    );
}

#[test]
fn double_ranges_know_whether_they_hold_a_number() {
    let range = |low, high, inclusive| DoubleRange {
        low,
        high,
        inclusive,
        precision: Precision::Double,
    };
    assert!(range(0, 1000, true).can_be_drawn());
    assert!(range(0, 1000, false).can_be_drawn());
    assert!(range(5, 5, true).can_be_drawn());
    assert!(!range(5, 5, false).can_be_drawn());
    assert!(!range(6, 5, true).can_be_drawn());
    assert!(!range(6, 5, false).can_be_drawn());
    for token in ["number.f32", "number.f64"] {
        match generate_fake_value(token, &IdPool::new()) {
            Ok(Value::Double(drawn)) => assert!(drawn.can_be_drawn()),
            other => panic!("{} gave {:?}", token, other),
        }
    }
}

#[test]
fn uuid_is_in_the_canonical_form() {
    for _ in 0..50 {
        let value = generate_fake_value("random.uuid", &IdPool::new()).unwrap();
        let text: Vec<char> = text_of(&value).chars().collect();
        assert_eq!(text.len(), 36);
        for (i, c) in text.iter().enumerate() {
            if i == 8 || i == 13 || i == 18 || i == 23 {
                assert_eq!(*c, '-');
            } else {
                assert!(matches!(c, '0'..='9' | 'a'..='f'));
            }
        }
        assert_eq!(text[14], '4');
    }
}

#[test]
fn boolean_is_a_truth_value() {
    let mut falses = 0;
    for _ in 0..300 {
        match generate_fake_value("boolean.boolean", &IdPool::new()) {
            Ok(Value::Boolean(drawn)) => {
                if !drawn {
                    falses += 1;
                }
            }
            other => panic!("not a truth value: {:?}", other),
        }
    }
    assert!(falses > 200);
}

#[test]
fn password_has_eight_to_eleven_characters() {
    for _ in 0..100 {
        let value = generate_fake_value("internet.password", &IdPool::new()).unwrap();
        let length = text_of(&value).chars().count();
        assert!((8..12).contains(&length));
    }
}

#[test]
fn duration_is_three_digits() {
    for _ in 0..50 {
        let value = generate_fake_value("chrono.duration", &IdPool::new()).unwrap();
        let text = text_of(&value);
        assert_eq!(text.len(), 3);
        assert!(text.chars().all(|c| c.is_ascii_digit()));
    }
}

#[test]
fn full_name_is_two_names_with_a_blank() {
    for _ in 0..50 {
        let value = generate_fake_value("name.fullName", &IdPool::new()).unwrap();
        let text = text_of(&value);
        let (first, last) = text.split_once(' ').unwrap();
        assert!(!first.is_empty());
        assert!(!last.is_empty());
    }
}

#[test]
fn sentence_ends_with_a_full_stop() {
    let value = generate_fake_value("lorem.sentence", &IdPool::new()).unwrap();
    assert!(text_of(&value).ends_with('.'));
    let value = generate_fake_value("lorem.paragraph", &IdPool::new()).unwrap();
    assert!(text_of(&value).ends_with('.'));
    let value = generate_fake_value("lorem.word", &IdPool::new()).unwrap();
    assert!(!text_of(&value).is_empty());
}

#[test]
fn every_text_token_gives_a_text() {
    let tokens = [
        "address.buildingNumber",
        "address.cityName",
        "address.cityPrefix",
        "address.citySuffix",
        "address.countryCode",
        "address.countryName",
        "address.latitude",
        "address.longitude",
        "address.postCode",
        "address.secondaryAddress",
        "address.stateAbbr",
        "address.stateName",
        "address.streetName",
        "address.streetSuffix",
        "address.timeZone",
        "address.zipCode",
        "chrono.date",
        "chrono.datetime",
        "chrono.duration",
        "chrono.time",
        "company.bs",
        "company.buzzword",
        "company.catchPhrase",
        "company.name",
        "company.profession",
        "company.suffix",
        "company.industry",
        "creditCard.number",
        "currency.code",
        "currency.name",
        "currency.symbol",
        "fileSystem.extension",
        "fileSystem.fileName",
        "fileSystem.filePath",
        "fileSystem.mimeType",
        "internet.domainSuffix",
        "internet.freeEmail",
        "internet.ipV4",
        "internet.ipV6",
        "internet.password",
        "internet.email",
        "internet.username",
        "job.field",
        "job.position",
        "job.seniority",
        "job.title",
        "lorem.sentence",
        "lorem.word",
        "lorem.paragraph",
        "name.firstName",
        "name.lastName",
        "name.fullName",
        "number.phoneNumber",
        "random.uuid",
    ];
    for token in tokens {
        for _ in 0..5 {
            match generate_fake_value(token, &IdPool::new()) {
                Ok(Value::String(text)) => assert!(!text.is_empty(), "{} gave no text", token),
                other => panic!("{} gave {:?}", token, other),
            }
        }
    }
}

#[test]
fn scalar_generators_give_their_kind() {
    assert!(matches!(
        generate_scalar(Generator::AddressZipCode),
        Value::String(_)
    ));
    assert!(matches!(
        generate_scalar(Generator::BooleanBoolean),
        Value::Boolean(_)
    ));
    assert!(matches!(generate_scalar(Generator::NumberU8), Value::Int32(_)));
    assert!(matches!(generate_scalar(Generator::NumberU64), Value::Int64(_)));
    assert!(matches!(generate_scalar(Generator::NumberF64), Value::Double(_)));
}
