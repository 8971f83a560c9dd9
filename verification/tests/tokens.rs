use db_populator::registry::{find_generator, Generator};
use db_populator::token::{parse_token, split_literals, starts_with, ParsedToken};

#[test]
fn registry_knows_its_tokens() {
    assert_eq!(
        find_generator("address.buildingNumber"),
        Some(Generator::AddressBuildingNumber)
    );
    assert_eq!(find_generator("company.suffix"), Some(Generator::CompanySuffix));
    assert_eq!(find_generator("creditCard.number"), Some(Generator::CreditCardNumber));
    assert_eq!(find_generator("internet.email"), Some(Generator::InternetEmail));
    assert_eq!(find_generator("internet.freeEmail"), Some(Generator::InternetFreeEmail));
    assert_eq!(find_generator("number.u8"), Some(Generator::NumberU8));
    assert_eq!(find_generator("number.f32"), Some(Generator::NumberF32));
    assert_eq!(find_generator("number.phoneNumber"), Some(Generator::NumberPhoneNumber));
    assert_eq!(find_generator("random.uuid"), Some(Generator::RandomUuid));
}

#[test]
fn registry_knows_nothing_else() {
    for token in [
        "",
        "random",
        "random.",
        "random.uuid ",
        "Random.uuid",
        "random.UUID",
        "ref.users",
        "from.a|b",
        "address.cityname",
    ] {
        assert_eq!(find_generator(token), None);
    }
}

#[test]
fn scalar_tokens_parse_to_their_generator() {
    assert_eq!(
        parse_token("name.firstName"),
        ParsedToken::Scalar(Generator::NameFirstName)
    );
    assert_eq!(
        parse_token("chrono.datetime"),
        ParsedToken::Scalar(Generator::ChronoDatetime)
    );
}

#[test]
fn reference_names_the_part_up_to_the_next_dot() {
    assert_eq!(
        parse_token("ref.users"),
        ParsedToken::Reference("users".to_string())
    );
    assert_eq!(
        parse_token("ref.users.archive"),
        ParsedToken::Reference("users".to_string())
    );
    assert_eq!(parse_token("ref."), ParsedToken::Reference(String::new()));
    assert_eq!(parse_token("ref..users"), ParsedToken::Reference(String::new()));
    assert_eq!(
        parse_token("ref.caf\u{e9}s"),
        ParsedToken::Reference("caf\u{e9}s".to_string())
    );
}

#[test]
fn choice_holds_the_list_up_to_the_next_dot() {
    assert_eq!(
        parse_token("from.a|b|c"),
        ParsedToken::Choice("a|b|c".to_string())
    );
    assert_eq!(parse_token("from.a.b|c"), ParsedToken::Choice("a".to_string()));
    assert_eq!(parse_token("from."), ParsedToken::Choice(String::new()));
}

#[test]
fn other_texts_are_no_tokens() {
    for token in ["", "ref", "from", "refs.users", "reference.users", "fromage.a", "re.f", " ref.users"] {
        assert_eq!(parse_token(token), ParsedToken::Unknown);
    }
}

#[test]
fn literals_are_the_pieces_between_the_bars() {
    assert_eq!(split_literals("a|b|c"), vec!["a", "b", "c"]);
    assert_eq!(split_literals("only"), vec!["only"]);
    assert_eq!(split_literals("a||b"), vec!["a", "", "b"]);
    assert_eq!(split_literals("|"), vec!["", ""]);
    assert_eq!(split_literals("a|"), vec!["a", ""]);
    assert_eq!(split_literals("|a"), vec!["", "a"]);
    assert_eq!(split_literals("gr\u{fc}n|bl\u{e5}"), vec!["gr\u{fc}n", "bl\u{e5}"]);
}

#[test]
fn empty_list_has_no_literal() {
    assert_eq!(split_literals(""), Vec::<String>::new());
}

#[test]
fn prefix_is_found_at_the_start_only() {
    assert!(starts_with("ref.users", "ref."));
    assert!(starts_with("ref.", "ref."));
    assert!(starts_with("anything", ""));
    assert!(!starts_with("ref", "ref."));
    assert!(!starts_with("a.ref.", "ref."));
    assert!(!starts_with("", "ref."));
}
