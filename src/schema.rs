use vstd::prelude::*;

use crate::json::{find_member, member, Json};

verus! {

/// The closed set of types a field may declare. `String` and `Text` accept
/// the same values; they are kept apart as distinct declared intents.
#[derive(Clone, Copy, Debug, PartialEq, Eq, Structural)]
pub enum FieldType {
    String,
    Text,
    Number,
    Boolean,
    Json,
}

/// One declared field: its type, whether a document must carry it, and a
/// default value that is declared only and never applied.
#[derive(Debug, PartialEq)]
pub struct FieldDefinition {
    pub field_type: FieldType,
    pub required: bool,
    pub default: Option<Json>,
}

/// The declared shape of a collection's documents: field name to definition.
#[derive(Debug, PartialEq)]
pub struct CollectionSchema {
    pub fields: Vec<(String, FieldDefinition)>,
}

impl CollectionSchema {
    /// Field names are unique within a schema.
    pub open spec fn wf(&self) -> bool {
        forall|i: int, j: int|
            0 <= i < j < self.fields@.len() ==> #[trigger] self.fields@[i].0@
                != #[trigger] self.fields@[j].0@
    }
}

broadcast use vstd::string::to_string_from_display_ensures_for_str;

/// The lowercase token that names a field type in a schema's JSON form.
pub open spec fn type_token(t: FieldType) -> Seq<char> {
    match t {
        FieldType::String => "string"@,
        FieldType::Text => "text"@,
        FieldType::Number => "number"@,
        FieldType::Boolean => "boolean"@,
        FieldType::Json => "json"@,
    }
}

/// Whether `j` is the JSON form of `def`: an object with `type`, `required`
/// and `default`, in that order; an absent default is written as null.
pub open spec fn encodes_field(def: FieldDefinition, j: Json) -> bool {
    &&& j matches Json::Object(ms) && {
        &&& ms@.len() == 3
        &&& ms@[0].0@ == "type"@
        &&& ms@[0].1 matches Json::String(t) && t@ == type_token(def.field_type)
        &&& ms@[1].0@ == "required"@
        &&& ms@[1].1 == Json::Bool(def.required)
        &&& ms@[2].0@ == "default"@
        &&& match def.default {
            Some(v) => ms@[2].1 == v,
            None => ms@[2].1 is Null,
        }
    }
}

/// Whether `j` is the JSON form of `schema`: an object whose one member
/// `fields` maps each field name, in order, to the form of its definition.
pub open spec fn encodes_schema(schema: CollectionSchema, j: Json) -> bool {
    &&& j matches Json::Object(top) && {
        &&& top@.len() == 1
        &&& top@[0].0@ == "fields"@
        &&& top@[0].1 matches Json::Object(fs) && {
            &&& fs@.len() == schema.fields@.len()
            &&& forall|i: int|
                0 <= i < fs@.len() ==> #[trigger] fs@[i].0@ == schema.fields@[i].0@
                    && encodes_field(schema.fields@[i].1, fs@[i].1)
        }
    }
}

/// The token of a field type.
pub fn type_token_of(t: FieldType) -> (r: String)
    ensures
        r@ == type_token(t),
{
    match t {
        FieldType::String => "string".to_string(),
        FieldType::Text => "text".to_string(),
        FieldType::Number => "number".to_string(),
        FieldType::Boolean => "boolean".to_string(),
        FieldType::Json => "json".to_string(),
    }
}

/// The JSON form of a field definition.
pub fn field_to_json(def: FieldDefinition) -> (r: Json)
    ensures
        encodes_field(def, r),
{
    let ghost d = def;
    let default = match def.default {
        Some(v) => v,
        None => Json::Null,
    };
    let mut ms: Vec<(String, Json)> = Vec::new();
    ms.push(("type".to_string(), Json::String(type_token_of(def.field_type))));
    ms.push(("required".to_string(), Json::Bool(def.required)));
    ms.push(("default".to_string(), default));
    Json::Object(ms)
}

/// The JSON form of a schema: `{"fields": {name: definition, ...}}`.
pub fn schema_to_json(schema: CollectionSchema) -> (r: Json)
    ensures
        encodes_schema(schema, r),
{
    let ghost all = schema.fields@;
    let mut fields = schema.fields;
    let mut out: Vec<(String, Json)> = Vec::new();
    while fields.len() > 0
        invariant
            out@.len() + fields@.len() == all.len(),
            fields@ == all.subrange(out@.len() as int, all.len() as int),
            forall|i: int|
                0 <= i < out@.len() ==> #[trigger] out@[i].0@ == all[i].0@ && encodes_field(
                    all[i].1,
                    out@[i].1,
                ),
        decreases fields@.len(),
    {
        let ghost before = fields@;
        let (name, def) = fields.remove(0);
        assert(before[0] == all[out@.len() as int]);
        out.push((name, field_to_json(def)));
        assert(fields@ =~= all.subrange(out@.len() as int, all.len() as int));
    }
    let mut top: Vec<(String, Json)> = Vec::new();
    top.push(("fields".to_string(), Json::Object(out)));
    Json::Object(top)
}

/// The field type that a token names, if it names one.
pub open spec fn token_type(s: Seq<char>) -> Option<FieldType> {
    if s == "string"@ {
        Some(FieldType::String)
    } else if s == "text"@ {
        Some(FieldType::Text)
    } else if s == "number"@ {
        Some(FieldType::Number)
    } else if s == "boolean"@ {
        Some(FieldType::Boolean)
    } else if s == "json"@ {
        Some(FieldType::Json)
    } else {
        None
    }
}

/// The default that a definition's `default` member declares: none where the
/// member is absent or null.
pub open spec fn declared_default(v: Option<Json>) -> Option<Json> {
    match v {
        Some(Json::Null) | None => None,
        Some(d) => Some(d),
    }
}

/// Whether `j` can be read as a field definition: an object whose `type` is a
/// known token and whose `required` is a boolean. Other members are ignored.
pub open spec fn field_readable(j: Json) -> bool {
    &&& j matches Json::Object(ms) && {
        &&& member(ms@, "type"@) matches Some(Json::String(t)) && token_type(t@) is Some
        &&& member(ms@, "required"@) matches Some(Json::Bool(_))
    }
}

/// Whether `j` reads as the field definition `def`.
pub open spec fn decodes_field(j: Json, def: FieldDefinition) -> bool {
    &&& j matches Json::Object(ms) && {
        &&& member(ms@, "type"@) matches Some(Json::String(t)) && token_type(t@) == Some(
            def.field_type,
        )
        &&& member(ms@, "required"@) == Some(Json::Bool(def.required))
        &&& def.default == declared_default(member(ms@, "default"@))
    }
}

/// Whether no two members share a name.
pub open spec fn names_unique(ms: Seq<(String, Json)>) -> bool {
    forall|i: int, j: int| 0 <= i < j < ms.len() ==> #[trigger] ms[i].0@ != #[trigger] ms[j].0@
}

/// Whether `j` can be read as a schema: an object whose `fields` member is an
/// object of readable definitions under distinct names.
pub open spec fn schema_readable(j: Json) -> bool {
    &&& j matches Json::Object(top) && {
        &&& member(top@, "fields"@) matches Some(Json::Object(fs)) && {
            &&& names_unique(fs@)
            &&& forall|i: int| 0 <= i < fs@.len() ==> #[trigger] field_readable(fs@[i].1)
        }
    }
}

/// Whether `j` reads as `schema`: the same field names in the same order,
/// each with the definition its JSON form reads as.
pub open spec fn decodes_schema(j: Json, schema: CollectionSchema) -> bool {
    &&& j matches Json::Object(top) && {
        &&& member(top@, "fields"@) matches Some(Json::Object(fs)) && {
            &&& schema.fields@.len() == fs@.len()
            &&& forall|i: int|
                0 <= i < fs@.len() ==> #[trigger] schema.fields@[i].0@ == fs@[i].0@
                    && decodes_field(fs@[i].1, schema.fields@[i].1)
        }
    }
}

/// The field type that a token names.
pub fn type_of_token(s: &String) -> (r: Option<FieldType>)
    ensures
        r == token_type(s@),
{
    if *s == "string".to_string() {
        Some(FieldType::String)
    } else if *s == "text".to_string() {
        Some(FieldType::Text)
    } else if *s == "number".to_string() {
        Some(FieldType::Number)
    } else if *s == "boolean".to_string() {
        Some(FieldType::Boolean)
    } else if *s == "json".to_string() {
        Some(FieldType::Json)
    } else {
        None
    }
}

/// Reads a field definition from its JSON form.
pub fn field_from_json(j: Json) -> (r: Option<FieldDefinition>)
    ensures
        r is Some <==> field_readable(j),
        r matches Some(def) ==> decodes_field(j, def),
{
    let ms = match j {
        Json::Object(ms) => ms,
        _ => return None,
    };
    let mut ms = ms;
    let field_type = match find_member(&ms, &"type".to_string()) {
        Some(i) => match &ms[i].1 {
            Json::String(t) => match type_of_token(t) {
                Some(t) => t,
                None => return None,
            },
            _ => return None,
        },
        None => return None,
    };
    let required = match find_member(&ms, &"required".to_string()) {
        Some(i) => match &ms[i].1 {
            Json::Bool(b) => *b,
            _ => return None,
        },
        None => return None,
    };
    let default = match find_member(&ms, &"default".to_string()) {
        Some(i) => {
            let (_, v) = ms.remove(i);
            match v {
                Json::Null => None,
                other => Some(other),
            }
        },
        None => None,
    };
    Some(FieldDefinition { field_type, required, default })
}

/// Reads a schema from its JSON form, `{"fields": {name: definition, ...}}`.
/// Members other than `fields` are ignored; two fields of one name are refused.
#[verifier::loop_isolation(false)]
pub fn schema_from_json(j: Json) -> (r: Option<CollectionSchema>)
    ensures
        r is Some <==> schema_readable(j),
        r matches Some(schema) ==> decodes_schema(j, schema) && schema.wf(),
{
    let ghost whole = j;
    let top = match j {
        Json::Object(top) => top,
        _ => return None,
    };
    let mut top = top;
    let i = match find_member(&top, &"fields".to_string()) {
        Some(i) => i,
        None => return None,
    };
    let (_, fields_json) = top.remove(i);
    let fs = match fields_json {
        Json::Object(fs) => fs,
        _ => return None,
    };
    let ghost all = fs@;
    let mut fs = fs;
    let mut out: Vec<(String, FieldDefinition)> = Vec::new();
    while fs.len() > 0
        invariant
            whole matches Json::Object(t) && member(t@, "fields"@) matches Some(Json::Object(f))
                && f@ == all,
            out@.len() + fs@.len() == all.len(),
            fs@ == all.subrange(out@.len() as int, all.len() as int),
            forall|k: int|
                0 <= k < out@.len() ==> #[trigger] out@[k].0@ == all[k].0@ && decodes_field(
                    all[k].1,
                    out@[k].1,
                ) && field_readable(all[k].1),
            forall|a: int, b: int|
                0 <= a < b < out@.len() ==> #[trigger] out@[a].0@ != #[trigger] out@[b].0@,
        decreases fs@.len(),
    {
        let ghost before = fs@;
        let ghost n = out@.len() as int;
        let (name, fj) = fs.remove(0);
        assert(before[0] == all[n]);
        assert(fs@ =~= all.subrange(n + 1, all.len() as int));
        let mut k: usize = 0;
        while k < out.len()
            invariant
                k <= out@.len(),
                forall|m: int| 0 <= m < k ==> out@[m].0@ != name@,
            decreases out@.len() - k,
        {
            if out[k].0 == name {
                assert(!names_unique(all)) by {
                    assert(all[k as int].0@ == all[n].0@);
                }
                return None;
            }
            k = k + 1;
        }
        match field_from_json(fj) {
            Some(def) => {
                out.push((name, def));
            },
            None => {
                assert(!field_readable(all[n].1));
                return None;
            },
        }
    }
    assert(names_unique(all)) by {
        assert forall|a: int, b: int| 0 <= a < b < all.len() implies #[trigger] all[a].0@
            != #[trigger] all[b].0@ by {
            assert(out@[a].0@ != out@[b].0@);
        }
    }
    assert forall|i: int| 0 <= i < all.len() implies #[trigger] field_readable(all[i].1) by {
        assert(out@[i].0@ == all[i].0@);
    }
    Some(CollectionSchema { fields: out })
}

/// Whether two declared fields have the same name, type, requirement and default.
pub open spec fn same_field(a: (String, FieldDefinition), b: (String, FieldDefinition)) -> bool {
    &&& a.0@ == b.0@
    &&& a.1.field_type == b.1.field_type
    &&& a.1.required == b.1.required
    &&& a.1.default == b.1.default
}

/// Whether `a` and `b` declare the same fields in the same order.
pub open spec fn same_fields(a: CollectionSchema, b: CollectionSchema) -> bool {
    &&& a.fields@.len() == b.fields@.len()
    &&& forall|i: int|
        0 <= i < a.fields@.len() ==> #[trigger] same_field(a.fields@[i], b.fields@[i])
}

proof fn lemma_token_round_trip(t: FieldType)
    ensures
        token_type(type_token(t)) == Some(t),
{
    reveal_strlit("string");
    reveal_strlit("text");
    reveal_strlit("number");
    reveal_strlit("boolean");
    reveal_strlit("json");
    assert("string"@.len() == 6 && "text"@.len() == 4 && "number"@.len() == 6);
    assert("boolean"@.len() == 7 && "json"@.len() == 4);
    assert("string"@[0] != "number"@[0]);
    assert("text"@[0] != "json"@[0]);
}

proof fn lemma_field_round_trip(def: FieldDefinition, j: Json)
    requires
        encodes_field(def, j),
        def.default != Some(Json::Null),
    ensures
        field_readable(j),
        forall|d: FieldDefinition| #[trigger]
            decodes_field(j, d) ==> d.field_type == def.field_type && d.required == def.required
                && d.default == def.default,
{
    reveal_strlit("type");
    reveal_strlit("required");
    reveal_strlit("default");
    reveal_with_fuel(member, 3);
    assert("type"@.len() == 4 && "required"@.len() == 8 && "default"@.len() == 7);
    let ms = j->Object_0@;
    assert(ms.drop_first()[0] == ms[1]);
    assert(ms.drop_first().drop_first()[0] == ms[2]);
    assert(member(ms, "type"@) == Some(ms[0].1));
    assert(member(ms, "required"@) == Some(ms[1].1));
    assert(member(ms, "default"@) == Some(ms[2].1));
    lemma_token_round_trip(def.field_type);
}

/// A schema survives its JSON form: the form of a schema with distinct field
/// names reads back, and only as a schema that declares the same fields. A
/// default of null is the one thing lost, since it reads back as no default.
pub proof fn schema_json_round_trip(schema: CollectionSchema, j: Json)
    requires
        schema.wf(),
        encodes_schema(schema, j),
        forall|i: int|
            0 <= i < schema.fields@.len() ==> #[trigger] schema.fields@[i].1.default != Some(
                Json::Null,
            ),
    ensures
        schema_readable(j),
        forall|s: CollectionSchema| #[trigger] decodes_schema(j, s) ==> same_fields(s, schema),
{
    reveal_strlit("fields");
    let top = j->Object_0@;
    assert(member(top, "fields"@) == Some(top[0].1));
    let fs = top[0].1->Object_0@;
    assert forall|i: int| 0 <= i < fs.len() implies #[trigger] field_readable(fs[i].1) by {
        assert(fs[i].0@ == schema.fields@[i].0@);
        lemma_field_round_trip(schema.fields@[i].1, fs[i].1);
    }
    assert forall|a: int, b: int| 0 <= a < b < fs.len() implies #[trigger] fs[a].0@
        != #[trigger] fs[b].0@ by {
        assert(schema.fields@[a].0@ != schema.fields@[b].0@);
    }
    assert forall|s: CollectionSchema| #[trigger] decodes_schema(j, s) implies same_fields(
        s,
        schema,
    ) by {
        assert(s.fields@.len() == fs.len());
        assert(fs.len() == schema.fields@.len());
        assert forall|i: int| 0 <= i < s.fields@.len() implies #[trigger] same_field(
            s.fields@[i],
            schema.fields@[i],
        ) by {
            assert(fs[i].0@ == schema.fields@[i].0@);
            assert(s.fields@[i].0@ == fs[i].0@);
            lemma_field_round_trip(schema.fields@[i].1, fs[i].1);
            assert(decodes_field(fs[i].1, s.fields@[i].1));
        }
    }
}

} // verus!
