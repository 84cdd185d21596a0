use uquest::character::PlayerCharacterBuilder;
use uquest::codec::{
    decode_character, decode_command, decode_output, decode_quest, decode_update, encode_command,
    encode_output, parse_command, parse_output, SchemaViolation,
};
use uquest::json::{find, parse, Json};
use uquest::schema::{AIInput, AIOutput, QuestDefinition, QuestUpdate};

fn hero() -> uquest::character::PlayerCharacter {
    PlayerCharacterBuilder::new("Jim".to_owned())
        .with_race("Human".to_owned())
        .with_class("Fighter".to_owned())
        .build()
}

fn lost_coin() -> QuestDefinition {
    QuestDefinition {
        title: "The Lost Coin".to_owned(),
        description: "A coin went missing.".to_owned(),
        objective_summary: "Find the coin.".to_owned(),
    }
}

fn text(value: &str) -> Json {
    Json::Text(value.to_owned())
}

fn record(members: Vec<(&str, Json)>) -> Json {
    Json::Record(members.into_iter().map(|(key, value)| (key.to_owned(), value)).collect())
}

#[test]
fn start_command_is_written_in_declaration_order() {
    let written = encode_command(&AIInput::Start(hero()));
    assert_eq!(written, "{\"Start\":{\"name\":\"Jim\",\"race\":\"Human\",\"class\":\"Fighter\"}}");
}

#[test]
fn user_input_command_is_written() {
    let written = encode_command(&AIInput::UserInput("go north".to_owned()));
    assert_eq!(written, "{\"UserInput\":\"go north\"}");
}

#[test]
fn written_text_is_escaped() {
    let written = encode_command(&AIInput::UserInput("say \"hi\"\n\tback\\slash".to_owned()));
    assert_eq!(written, "{\"UserInput\":\"say \\\"hi\\\"\\n\\tback\\\\slash\"}");
}

#[test]
fn control_characters_are_written_as_escapes() {
    let written = encode_command(&AIInput::UserInput("a\u{1}b".to_owned()));
    assert_eq!(written, "{\"UserInput\":\"a\\u0001b\"}");
}

#[test]
fn output_is_written_with_commas_between_updates() {
    let output = AIOutput {
        updates: vec![
            QuestUpdate::QuestDefinition(lost_coin()),
            QuestUpdate::Description("You wake in a tavern...".to_owned()),
        ],
    };
    assert_eq!(
        encode_output(&output),
        "{\"updates\":[{\"QuestDefinition\":{\"title\":\"The Lost Coin\",\"description\":\"A coin went missing.\",\"objective_summary\":\"Find the coin.\"}},{\"Description\":\"You wake in a tavern...\"}]}"
    );
}

#[test]
fn output_without_updates_is_written() {
    assert_eq!(encode_output(&AIOutput { updates: vec![] }), "{\"updates\":[]}");
}

#[test]
fn output_of_one_update_is_written_without_comma() {
    let output = AIOutput { updates: vec![QuestUpdate::Description("Hello".to_owned())] };
    assert_eq!(encode_output(&output), "{\"updates\":[{\"Description\":\"Hello\"}]}");
}

#[test]
fn output_is_read_from_text() {
    let read = parse_output(
        "{\"updates\":[{\"QuestDefinition\":{\"title\":\"The Lost Coin\",\"description\":\"A coin went missing.\",\"objective_summary\":\"Find the coin.\"}},{\"Description\":\"You wake in a tavern...\"}]}",
    );
    assert_eq!(
        read,
        Ok(AIOutput {
            updates: vec![
                QuestUpdate::QuestDefinition(lost_coin()),
                QuestUpdate::Description("You wake in a tavern...".to_owned()),
            ],
        })
    );
}

#[test]
fn output_is_read_whatever_the_order_of_members_and_the_spacing() {
    let read = parse_output(
        " { \"updates\" : [ { \"QuestDefinition\" : { \"objective_summary\" : \"c\", \"title\" : \"a\", \"description\" : \"b\" } } ] } ",
    );
    assert_eq!(
        read,
        Ok(AIOutput {
            updates: vec![QuestUpdate::QuestDefinition(QuestDefinition {
                title: "a".to_owned(),
                description: "b".to_owned(),
                objective_summary: "c".to_owned(),
            })],
        })
    );
}

#[test]
fn output_round_trips_through_text() {
    let output = AIOutput {
        updates: vec![
            QuestUpdate::Description("Quote \" and backslash \\ and newline \n.".to_owned()),
            QuestUpdate::QuestDefinition(QuestDefinition {
                title: "Caf\u{e9} \u{1F409}".to_owned(),
                description: String::new(),
                objective_summary: "tab\there".to_owned(),
            }),
            QuestUpdate::Description(String::new()),
        ],
    };
    let written = encode_output(&output);
    assert_eq!(parse_output(&written), Ok(output));
}

#[test]
fn command_round_trips_through_text() {
    let start = AIInput::Start(hero());
    assert_eq!(parse_command(&encode_command(&start)), Ok(start));
    let input = AIInput::UserInput("open the \"red\" door".to_owned());
    assert_eq!(parse_command(&encode_command(&input)), Ok(input));
}

#[test]
fn output_with_an_undeclared_member_is_rejected() {
    assert_eq!(parse_output("{\"updates\":[],\"extra\":1}"), Err(SchemaViolation::UnknownField));
}

#[test]
fn quest_with_an_undeclared_member_is_rejected() {
    let read = parse_output(
        "{\"updates\":[{\"QuestDefinition\":{\"title\":\"a\",\"description\":\"b\",\"objective_summary\":\"c\",\"reward\":\"d\"}}]}",
    );
    assert_eq!(read, Err(SchemaViolation::UnknownField));
}

#[test]
fn update_with_a_second_member_is_rejected() {
    let read = parse_output("{\"updates\":[{\"Description\":\"x\",\"Mood\":\"y\"}]}");
    assert_eq!(read, Err(SchemaViolation::UnknownField));
}

#[test]
fn update_of_an_unknown_variant_is_rejected() {
    let read = parse_output("{\"updates\":[{\"Teleport\":\"x\"}]}");
    assert_eq!(read, Err(SchemaViolation::UnknownVariant));
}

#[test]
fn command_with_an_undeclared_member_is_rejected() {
    assert_eq!(
        parse_command("{\"UserInput\":\"go north\",\"loud\":true}"),
        Err(SchemaViolation::UnknownField)
    );
    assert_eq!(
        parse_command(
            "{\"Start\":{\"name\":\"Jim\",\"race\":\"Human\",\"class\":\"Fighter\",\"level\":3}}"
        ),
        Err(SchemaViolation::UnknownField)
    );
    assert_eq!(parse_command("{\"Stop\":\"now\"}"), Err(SchemaViolation::UnknownVariant));
}

#[test]
fn missing_members_are_rejected() {
    assert_eq!(parse_output("{}"), Err(SchemaViolation::MissingField));
    assert_eq!(parse_output("{\"update\":[]}"), Err(SchemaViolation::MissingField));
    assert_eq!(
        parse_output(
            "{\"updates\":[{\"QuestDefinition\":{\"description\":\"b\",\"objective_summary\":\"c\"}}]}"
        ),
        Err(SchemaViolation::MissingField)
    );
    assert_eq!(parse_output("{\"updates\":[{}]}"), Err(SchemaViolation::MissingField));
    assert_eq!(
        parse_command("{\"Start\":{\"name\":\"Jim\",\"race\":\"Human\"}}"),
        Err(SchemaViolation::MissingField)
    );
}

#[test]
fn values_of_the_wrong_type_are_rejected() {
    assert_eq!(parse_output("[]"), Err(SchemaViolation::WrongType));
    assert_eq!(parse_output("\"updates\""), Err(SchemaViolation::WrongType));
    assert_eq!(parse_output("{\"updates\":\"x\"}"), Err(SchemaViolation::WrongType));
    assert_eq!(parse_output("{\"updates\":[5]}"), Err(SchemaViolation::WrongType));
    assert_eq!(parse_output("{\"updates\":[{\"Description\":5}]}"), Err(SchemaViolation::WrongType));
    assert_eq!(
        parse_output("{\"updates\":[{\"QuestDefinition\":\"a quest\"}]}"),
        Err(SchemaViolation::WrongType)
    );
    assert_eq!(
        parse_output(
            "{\"updates\":[{\"QuestDefinition\":{\"title\":null,\"description\":\"b\",\"objective_summary\":\"c\"}}]}"
        ),
        Err(SchemaViolation::WrongType)
    );
    assert_eq!(parse_command("{\"UserInput\":[\"go north\"]}"), Err(SchemaViolation::WrongType));
    assert_eq!(parse_command("{\"Start\":\"Jim\"}"), Err(SchemaViolation::WrongType));
}

#[test]
fn the_first_violation_among_the_updates_is_reported() {
    assert_eq!(
        parse_output("{\"updates\":[{\"Description\":\"fine\"},{\"Teleport\":\"x\"},{\"Description\":5}]}"),
        Err(SchemaViolation::UnknownVariant)
    );
    assert_eq!(
        parse_output("{\"updates\":[{\"Description\":5},{\"Teleport\":\"x\"}]}"),
        Err(SchemaViolation::WrongType)
    );
}

#[test]
fn text_that_is_no_json_is_a_syntax_violation() {
    let broken = "{\"updates\":";
    let reported = serde_json::from_str::<serde_json::Value>(broken).unwrap_err().to_string();
    assert!(!reported.is_empty());
    assert_eq!(parse_output(broken), Err(SchemaViolation::Syntax(reported.clone())));
    assert_eq!(parse_command(broken), Err(SchemaViolation::Syntax(reported)));
    assert!(matches!(parse_output(""), Err(SchemaViolation::Syntax(_))));
    assert!(matches!(parse_output("{\"updates\":[]} trailing"), Err(SchemaViolation::Syntax(_))));
}

#[test]
fn documents_are_read_as_trees() {
    let read = parse("[1, true, null, \"x\", {\"a\": 2.5}, []]");
    assert_eq!(
        read,
        Ok(Json::List(vec![
            Json::Number,
            Json::Bool(true),
            Json::Null,
            text("x"),
            record(vec![("a", Json::Number)]),
            Json::List(vec![]),
        ]))
    );
    assert!(parse("[1,").is_err());
}

#[test]
fn every_member_of_a_document_is_read() {
    let read = parse("{\"b\":\"second\",\"a\":\"first\"}").unwrap();
    match &read {
        Json::Record(members) => {
            assert_eq!(members.len(), 2);
            assert_eq!(find(members, "a"), Some(&text("first")));
            assert_eq!(find(members, "b"), Some(&text("second")));
            assert_eq!(find(members, "c"), None);
        }
        other => panic!("not an object: {:?}", other),
    }
}

#[test]
fn find_returns_the_first_member_under_a_key() {
    let members = vec![
        ("k".to_owned(), text("one")),
        ("other".to_owned(), Json::Null),
        ("k".to_owned(), text("two")),
    ];
    assert_eq!(find(&members, "k"), Some(&text("one")));
    assert_eq!(find(&members, "other"), Some(&Json::Null));
    assert_eq!(find(&members, "K"), None);
    assert_eq!(find(&Vec::new(), "k"), None);
}

#[test]
fn trees_are_decoded() {
    let quest = record(vec![
        ("title", text("a")),
        ("description", text("b")),
        ("objective_summary", text("c")),
    ]);
    assert_eq!(
        decode_quest(&quest),
        Ok(QuestDefinition {
            title: "a".to_owned(),
            description: "b".to_owned(),
            objective_summary: "c".to_owned(),
        })
    );
    let character = record(vec![
        ("class", text("Fighter")),
        ("race", text("Human")),
        ("name", text("Jim")),
    ]);
    assert_eq!(decode_character(&character), Ok(hero()));
    assert_eq!(
        decode_update(&record(vec![("Description", text("Hello"))])),
        Ok(QuestUpdate::Description("Hello".to_owned()))
    );
    assert_eq!(
        decode_command(&record(vec![("Start", character)])),
        Ok(AIInput::Start(hero()))
    );
    assert_eq!(
        decode_output(&record(vec![(
            "updates",
            Json::List(vec![record(vec![("QuestDefinition", quest)])])
        )])),
        Ok(AIOutput {
            updates: vec![QuestUpdate::QuestDefinition(QuestDefinition {
                title: "a".to_owned(),
                description: "b".to_owned(),
                objective_summary: "c".to_owned(),
            })],
        })
    );
}

#[test]
fn a_member_that_occurs_twice_is_one_too_many() {
    let quest = record(vec![
        ("title", text("a")),
        ("title", text("again")),
        ("description", text("b")),
        ("objective_summary", text("c")),
    ]);
    assert_eq!(decode_quest(&quest), Err(SchemaViolation::UnknownField));
    let short = record(vec![("title", text("a")), ("title", text("b")), ("description", text("c"))]);
    assert_eq!(decode_quest(&short), Err(SchemaViolation::MissingField));
}

#[test]
fn scalars_are_no_records() {
    for json in [Json::Null, Json::Bool(false), Json::Number, text("x"), Json::List(vec![])] {
        assert_eq!(decode_quest(&json), Err(SchemaViolation::WrongType));
        assert_eq!(decode_character(&json), Err(SchemaViolation::WrongType));
        assert_eq!(decode_update(&json), Err(SchemaViolation::WrongType));
        assert_eq!(decode_output(&json), Err(SchemaViolation::WrongType));
        assert_eq!(decode_command(&json), Err(SchemaViolation::WrongType));
    }
}

#[test]
fn violations_are_described() {
    assert_eq!(SchemaViolation::Syntax("oops".to_owned()).describe(), "oops");
    assert_eq!(SchemaViolation::WrongType.describe(), "a value has the wrong type");
    assert_eq!(SchemaViolation::MissingField.describe(), "a field is missing");
    assert_eq!(
        SchemaViolation::UnknownField.describe(),
        "an object has a field that is not allowed"
    );
    assert_eq!(SchemaViolation::UnknownVariant.describe(), "an object names no known variant");
}
