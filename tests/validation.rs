use tinybase::json::Json;
use tinybase::schema::{CollectionSchema, FieldDefinition, FieldType};
use tinybase::validation::{validate_record, ValidationError};

fn text(s: &str) -> String {
    s.to_string()
}

fn field(field_type: FieldType, required: bool) -> FieldDefinition {
    FieldDefinition { field_type, required, default: None }
}

fn title_schema() -> CollectionSchema {
    CollectionSchema { fields: vec![(text("title"), field(FieldType::String, true))] }
}

fn object(members: Vec<(&str, Json)>) -> Json {
    Json::Object(members.into_iter().map(|(k, v)| (text(k), v)).collect())
}

#[test]
fn record_with_required_title_is_accepted() {
    let data = object(vec![("title", Json::String(text("Hello!")))]);
    assert_eq!(validate_record(&title_schema(), &data), Ok(()));
}

#[test]
fn record_without_title_reports_missing_field() {
    let data = object(vec![("wrong_field", Json::String(text("Hello!")))]);
    assert_eq!(
        validate_record(&title_schema(), &data),
        Err(vec![ValidationError::MissingRequiredField(text("title"))])
    );
}

#[test]
fn non_object_document_gets_one_error_on_data() {
    let expected = Err(vec![ValidationError::InvalidType(
        text("data"),
        text("object"),
        text("not an object"),
    )]);
    for data in [
        Json::Null,
        Json::Bool(true),
        Json::Number(text("3")),
        Json::String(text("x")),
        Json::Array(vec![]),
    ] {
        assert_eq!(validate_record(&title_schema(), &data), expected);
    }
    let empty = CollectionSchema { fields: vec![] };
    assert_eq!(validate_record(&empty, &Json::Null), expected);
}

#[test]
fn every_violation_is_reported() {
    let schema = CollectionSchema {
        fields: vec![
            (text("title"), field(FieldType::Text, true)),
            (text("count"), field(FieldType::Number, true)),
            (text("done"), field(FieldType::Boolean, false)),
            (text("meta"), field(FieldType::Json, true)),
            (text("note"), field(FieldType::String, false)),
        ],
    };
    let data = object(vec![
        ("count", Json::String(text("seven"))),
        ("done", Json::Null),
        ("meta", Json::Number(text("1.5"))),
        ("extra", Json::Bool(false)),
    ]);
    assert_eq!(
        validate_record(&schema, &data),
        Err(vec![
            ValidationError::MissingRequiredField(text("title")),
            ValidationError::InvalidType(text("count"), text("Number"), text("string")),
            ValidationError::InvalidType(text("done"), text("Boolean"), text("null")),
            ValidationError::InvalidType(text("meta"), text("Json"), text("number")),
        ])
    );
}

#[test]
fn type_compatibility_follows_declared_type() {
    let cases: Vec<(FieldType, Json, bool)> = vec![
        (FieldType::String, Json::String(text("a")), true),
        (FieldType::Text, Json::String(text("a")), true),
        (FieldType::Text, Json::Number(text("1")), false),
        (FieldType::Number, Json::Number(text("-2.5e3")), true),
        (FieldType::Number, Json::String(text("1")), false),
        (FieldType::Boolean, Json::Bool(false), true),
        (FieldType::Boolean, Json::Number(text("0")), false),
        (FieldType::Json, Json::Array(vec![Json::Null]), true),
        (FieldType::Json, object(vec![]), true),
        (FieldType::Json, Json::String(text("{}")), false),
        (FieldType::Json, Json::Null, false),
    ];
    for (t, v, ok) in cases {
        let schema = CollectionSchema { fields: vec![(text("f"), field(t, true))] };
        let data = object(vec![("f", v)]);
        assert_eq!(validate_record(&schema, &data).is_ok(), ok);
    }
}

#[test]
fn array_value_is_reported_as_array() {
    let schema = CollectionSchema { fields: vec![(text("f"), field(FieldType::String, false))] };
    let data = object(vec![("f", Json::Array(vec![]))]);
    assert_eq!(
        validate_record(&schema, &data),
        Err(vec![ValidationError::InvalidType(text("f"), text("String"), text("array"))])
    );
    let data = object(vec![("f", object(vec![]))]);
    assert_eq!(
        validate_record(&schema, &data),
        Err(vec![ValidationError::InvalidType(text("f"), text("String"), text("object"))])
    );
}

#[test]
fn optional_absent_field_and_empty_schema_pass() {
    let schema = CollectionSchema {
        fields: vec![(
            text("tag"),
            FieldDefinition {
                field_type: FieldType::String,
                required: false,
                default: Some(Json::String(text("none"))),
            },
        )],
    };
    assert_eq!(validate_record(&schema, &object(vec![])), Ok(()));
    let empty = CollectionSchema { fields: vec![] };
    assert_eq!(validate_record(&empty, &object(vec![("x", Json::Null)])), Ok(()));
}

#[test]
fn validation_repeats_identically() {
    let data = object(vec![("title", Json::Bool(true))]);
    let first = validate_record(&title_schema(), &data);
    let second = validate_record(&title_schema(), &data);
    assert_eq!(first, second);
    assert!(first.is_err());
}

#[test]
fn first_member_of_a_name_is_the_one_read() {
    let data = Json::Object(vec![
        (text("title"), Json::String(text("a"))),
        (text("title"), Json::Number(text("1"))),
    ]);
    assert_eq!(validate_record(&title_schema(), &data), Ok(()));
}
