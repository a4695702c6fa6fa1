use vstd::prelude::*;

use crate::json::{find_member, member, Json};
use crate::schema::{CollectionSchema, FieldDefinition, FieldType};

verus! {

broadcast use vstd::string::to_string_from_display_ensures_for_str;

/// One violation of a schema by a document.
#[derive(Clone, Debug, PartialEq, Eq)]
pub enum ValidationError {
    /// A required field is absent.
    MissingRequiredField(String),
    /// A field holds a value of another type: field, expected, actual.
    InvalidType(String, String, String),
}

/// What a `ValidationError` says, as text.
pub enum Violation {
    MissingRequiredField(Seq<char>),
    InvalidType(Seq<char>, Seq<char>, Seq<char>),
}

impl View for ValidationError {
    type V = Violation;

    open spec fn view(&self) -> Violation {
        match self {
            ValidationError::MissingRequiredField(f) => Violation::MissingRequiredField(f@),
            ValidationError::InvalidType(f, e, a) => Violation::InvalidType(f@, e@, a@),
        }
    }
}

/// The name under which an expected type is reported.
pub open spec fn type_label(t: FieldType) -> Seq<char> {
    match t {
        FieldType::String => "String"@,
        FieldType::Text => "Text"@,
        FieldType::Number => "Number"@,
        FieldType::Boolean => "Boolean"@,
        FieldType::Json => "Json"@,
    }
}

/// The name under which the type of a found value is reported.
pub open spec fn kind_label(v: Json) -> Seq<char> {
    match v {
        Json::Null => "null"@,
        Json::Bool(_) => "boolean"@,
        Json::Number(_) => "number"@,
        Json::String(_) => "string"@,
        Json::Array(_) => "array"@,
        Json::Object(_) => "object"@,
    }
}

/// Whether a field of type `t` accepts the value `v`.
pub open spec fn accepts(t: FieldType, v: Json) -> bool {
    match t {
        FieldType::String | FieldType::Text => v is String,
        FieldType::Number => v is Number,
        FieldType::Boolean => v is Bool,
        FieldType::Json => v is Object || v is Array,
    }
}

/// The violation, if any, of one declared field by the members of a document.
pub open spec fn field_violation(
    name: Seq<char>,
    def: FieldDefinition,
    members: Seq<(String, Json)>,
) -> Option<Violation> {
    match member(members, name) {
        Some(v) => if accepts(def.field_type, v) {
            None
        } else {
            Some(Violation::InvalidType(name, type_label(def.field_type), kind_label(v)))
        },
        None => if def.required {
            Some(Violation::MissingRequiredField(name))
        } else {
            None
        },
    }
}

/// The violations of the declared fields `fields`, in the order of declaration.
pub open spec fn field_violations(
    fields: Seq<(String, FieldDefinition)>,
    members: Seq<(String, Json)>,
) -> Seq<Violation>
    decreases fields.len(),
{
    if fields.len() == 0 {
        Seq::empty()
    } else {
        let before = field_violations(fields.drop_last(), members);
        match field_violation(fields.last().0@, fields.last().1, members) {
            Some(e) => before.push(e),
            None => before,
        }
    }
}

/// The violation reported for a document that is not an object.
pub open spec fn not_an_object() -> Violation {
    Violation::InvalidType("data"@, "object"@, "not an object"@)
}

/// Every violation of `schema` by `data`.
pub open spec fn violations(schema: CollectionSchema, data: Json) -> Seq<Violation> {
    match data {
        Json::Object(members) => field_violations(schema.fields@, members@),
        _ => seq![not_an_object()],
    }
}

/// The views of a list of errors.
pub open spec fn views(errors: Seq<ValidationError>) -> Seq<Violation> {
    errors.map_values(|e: ValidationError| e@)
}

/// `r` is the outcome of validating `data` against `schema`: success exactly
/// when there is no violation, and otherwise every violation.
pub open spec fn is_validation_of(
    schema: CollectionSchema,
    data: Json,
    r: Result<(), Vec<ValidationError>>,
) -> bool {
    match r {
        Ok(()) => violations(schema, data).len() == 0,
        Err(errors) => views(errors@) == violations(schema, data) && errors@.len() > 0,
    }
}

fn value_type_name(value: &Json) -> (r: String)
    ensures
        r@ == kind_label(*value),
{
    match value {
        Json::Null => "null".to_string(),
        Json::Bool(_) => "boolean".to_string(),
        Json::Number(_) => "number".to_string(),
        Json::String(_) => "string".to_string(),
        Json::Array(_) => "array".to_string(),
        Json::Object(_) => "object".to_string(),
    }
}

fn expected_type_name(t: FieldType) -> (r: String)
    ensures
        r@ == type_label(t),
{
    match t {
        FieldType::String => "String".to_string(),
        FieldType::Text => "Text".to_string(),
        FieldType::Number => "Number".to_string(),
        FieldType::Boolean => "Boolean".to_string(),
        FieldType::Json => "Json".to_string(),
    }
}

fn is_correct_type(value: &Json, t: FieldType) -> (r: bool)
    ensures
        r == accepts(t, *value),
{
    match t {
        FieldType::String | FieldType::Text => matches!(value, Json::String(_)),
        FieldType::Number => matches!(value, Json::Number(_)),
        FieldType::Boolean => matches!(value, Json::Bool(_)),
        FieldType::Json => matches!(value, Json::Object(_) | Json::Array(_)),
    }
}

/// Checks `data` against `schema` and reports every violation in one pass.
/// A document that is not an object gets the single violation on `"data"`;
/// members the schema does not declare are never reported.
pub fn validate_record(schema: &CollectionSchema, data: &Json) -> (r: Result<
    (),
    Vec<ValidationError>,
>)
    ensures
        is_validation_of(*schema, *data, r),
{
    let mut errors: Vec<ValidationError> = Vec::new();
    let members = match data {
        Json::Object(members) => members,
        _ => {
            errors.push(
                ValidationError::InvalidType(
                    "data".to_string(),
                    "object".to_string(),
                    "not an object".to_string(),
                ),
            );
            assert(views(errors@) =~= violations(*schema, *data));
            return Err(errors);
        },
    };
    let fields = &schema.fields;
    let mut i: usize = 0;
    while i < fields.len()
        invariant
            i <= fields@.len(),
            views(errors@) == field_violations(fields@.subrange(0, i as int), members@),
        decreases fields@.len() - i,
    {
        let name = &fields[i].0;
        let def = &fields[i].1;
        proof {
            let prefix = fields@.subrange(0, i + 1);
            assert(prefix.drop_last() =~= fields@.subrange(0, i as int));
        }
        match find_member(members, name) {
            Some(k) => {
                let value = &members[k].1;
                if !is_correct_type(value, def.field_type) {
                    errors.push(
                        ValidationError::InvalidType(
                            name.clone(),
                            expected_type_name(def.field_type),
                            value_type_name(value),
                        ),
                    );
                }
            },
            None => {
                if def.required {
                    errors.push(ValidationError::MissingRequiredField(name.clone()));
                }
            },
        }
        proof {
            assert(views(errors@) =~= field_violations(fields@.subrange(0, i + 1), members@));
        }
        i = i + 1;
    }
    assert(fields@.subrange(0, fields@.len() as int) =~= fields@);
    if errors.len() == 0 {
        Ok(())
    } else {
        Err(errors)
    }
}

/// A required field that a document lacks is among the violations of the
/// declared fields, whatever else is wrong with the document.
proof fn lemma_missing_field_in_violations(
    fields: Seq<(String, FieldDefinition)>,
    members: Seq<(String, Json)>,
    i: int,
)
    requires
        0 <= i < fields.len(),
        fields[i].1.required,
        member(members, fields[i].0@) is None,
    ensures
        field_violations(fields, members).contains(Violation::MissingRequiredField(fields[i].0@)),
    decreases fields.len(),
{
    let target = Violation::MissingRequiredField(fields[i].0@);
    let before = field_violations(fields.drop_last(), members);
    if i == fields.len() - 1 {
        let after = before.push(target);
        assert(after[after.len() - 1] == target);
    } else {
        lemma_missing_field_in_violations(fields.drop_last(), members, i);
        let k = choose|k: int| 0 <= k < before.len() && before[k] == target;
        match field_violation(fields.last().0@, fields.last().1, members) {
            Some(e) => assert(before.push(e)[k] == target),
            None => assert(before[k] == target),
        }
    }
}

/// Validating the same document against the same schema twice gives the same
/// outcome: both succeed, or both fail with the same errors.
pub proof fn validation_is_deterministic(
    schema: CollectionSchema,
    data: Json,
    first: Result<(), Vec<ValidationError>>,
    second: Result<(), Vec<ValidationError>>,
)
    requires
        is_validation_of(schema, data, first),
        is_validation_of(schema, data, second),
    ensures
        first is Ok <==> second is Ok,
        first is Err ==> views(first->Err_0@) == views(second->Err_0@),
{
}

/// When an object lacks a field that the schema declares required, validation
/// fails and reports that field as missing, however many other fields are wrong.
pub proof fn missing_required_field_is_reported(
    schema: CollectionSchema,
    data: Json,
    i: int,
    r: Result<(), Vec<ValidationError>>,
)
    requires
        data is Object,
        0 <= i < schema.fields@.len(),
        schema.fields@[i].1.required,
        member(data->Object_0@, schema.fields@[i].0@) is None,
        is_validation_of(schema, data, r),
    ensures
        r is Err,
        views(r->Err_0@).contains(Violation::MissingRequiredField(schema.fields@[i].0@)),
{
    lemma_missing_field_in_violations(schema.fields@, data->Object_0@, i);
}

/// A document that is not an object fails validation with exactly one error:
/// the wrong type on `"data"`, where an object was expected.
pub proof fn non_object_has_single_error(
    schema: CollectionSchema,
    data: Json,
    r: Result<(), Vec<ValidationError>>,
)
    requires
        !(data is Object),
        is_validation_of(schema, data, r),
    ensures
        r is Err,
        r->Err_0@.len() == 1,
        r->Err_0@[0]@ == not_an_object(),
{
    assert(views(r->Err_0@)[0] == r->Err_0@[0]@);
}

} // verus!
