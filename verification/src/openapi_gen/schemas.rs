//! The schemas of a kind of entity.
use crate::entity_config::{self, EntityConfig, FieldConfig, FieldType, NamedField};
use crate::entity_handlers::mapping::{self, place_of, Place, PlaceView};
use crate::json::{self, empty_object, member, put, text, texts, with, Json, JsonView, Members};
use crate::keyed::KeyedList;
use crate::objects::{self, make_obj1, make_obj2, make_obj3};
use crate::text;
use vstd::prelude::*;
use vstd::string::*;

verus! {

/// The type of a schema for a field type.
pub open spec fn openapi_type(t: FieldType) -> Seq<char> {
    match t {
        FieldType::TagArray => "array"@,
        FieldType::Metadata => "object"@,
        _ => "string"@,
    }
}

/// The type of a schema for a field type.
pub fn field_type_to_openapi(t: &FieldType) -> (r: &'static str)
    ensures
        r@ == openapi_type(*t),
{
    match t {
        FieldType::Text | FieldType::Markdown => "string",
        FieldType::Date => "string",
        FieldType::Enum => "string",
        FieldType::TagArray => "array",
        FieldType::Relation => "string",
        FieldType::Metadata => "object",
    }
}

/// The schema of a field: its type, and the values it may have where they are
/// restricted.
pub open spec fn value_schema(field: FieldConfig) -> Members {
    let m = Map::empty().insert("type"@, JsonView::Text(openapi_type(field.field_type)));
    match field.values {
        Some(values) => m.insert("enum"@, json::text_list(text::views(values@))),
        None => m,
    }
}

/// The schema of a field with its label as the description.
pub open spec fn labelled_schema(field: FieldConfig) -> Members {
    match field.label {
        Some(label) => value_schema(field).insert("description"@, JsonView::Text(label@)),
        None => value_schema(field),
    }
}

fn write_value_schema(field: &FieldConfig) -> (r: KeyedList<Json>)
    ensures
        json::members(r) == value_schema(*field),
{
    let o = with(empty_object(), "type", text(field_type_to_openapi(&field.field_type)));
    match &field.values {
        Some(values) => {
            proof {
                text::lemma_views(*values);
            }
            with(o, "enum", texts(values))
        },
        None => o,
    }
}

fn write_labelled_schema(field: &FieldConfig) -> (r: KeyedList<Json>)
    ensures
        json::members(r) == labelled_schema(*field),
{
    let o = write_value_schema(field);
    match &field.label {
        Some(label) => with(o, "description", text(label.as_str())),
        None => o,
    }
}

/// The schema of a time.
pub open spec fn time_schema() -> JsonView {
    objects::obj2("type"@, JsonView::Text("string"@), "format"@, JsonView::Text("date-time"@))
}

/// A member, unless there is one of that name.
pub open spec fn with_absent(m: Members, key: Seq<char>, value: JsonView) -> Members {
    if m.contains_key(key) {
        m
    } else {
        m.insert(key, value)
    }
}

/// The schemas of the fields, in order.
pub open spec fn field_schemas(fields: Seq<NamedField>, start: Members) -> Members
    decreases fields.len(),
{
    if fields.len() == 0 {
        start
    } else {
        field_schemas(fields.drop_last(), start).insert(
            fields.last().0@,
            JsonView::Object(labelled_schema(fields.last().1)),
        )
    }
}

/// The names of the required fields, in order.
pub open spec fn required_names(fields: Seq<NamedField>) -> Seq<Seq<char>>
    decreases fields.len(),
{
    if fields.len() == 0 {
        Seq::empty()
    } else if fields.last().1.required {
        required_names(fields.drop_last()).push(fields.last().0@)
    } else {
        required_names(fields.drop_last())
    }
}

/// An object schema.
pub open spec fn object_schema(properties: Members, required: Seq<Seq<char>>) -> JsonView {
    objects::obj3(
        "type"@,
        JsonView::Text("object"@),
        "properties"@,
        JsonView::Object(properties),
        "required"@,
        json::text_list(required),
    )
}

/// The schema of an entity: the id, the fields and the two times.
pub open spec fn entity_schema(config: EntityConfig) -> JsonView {
    let fields = config.fields.entries();
    let start = Map::empty().insert(
        "id"@,
        objects::obj1("type"@, JsonView::Text("string"@)),
    );
    object_schema(
        with_absent(
            with_absent(field_schemas(fields, start), "created_at"@, time_schema()),
            "updated_at"@,
            time_schema(),
        ),
        required_names(fields).push("id"@),
    )
}

/// A field that a creation can give: all but the times, which are not given.
pub open spec fn can_be_given(field: FieldConfig) -> bool {
    let p = mapping::place(field.map.deep_view());
    p != PlaceView::CreatedAt && p != PlaceView::UpdatedAt
}

/// The fields that a creation can give.
pub open spec fn given_fields(fields: Seq<NamedField>) -> Seq<NamedField> {
    fields.filter(|f: NamedField| can_be_given(f.1))
}

/// The schemas of the fields that a creation can give, in order.
pub open spec fn given_schemas(fields: Seq<NamedField>) -> Members
    decreases fields.len(),
{
    if fields.len() == 0 {
        Map::empty()
    } else {
        given_schemas(fields.drop_last()).insert(
            fields.last().0@,
            JsonView::Object(value_schema(fields.last().1)),
        )
    }
}

/// The schema of a creation.
pub open spec fn create_schema(config: EntityConfig) -> JsonView {
    let fields = given_fields(config.fields.entries());
    object_schema(given_schemas(fields), required_names(fields))
}

fn write_object_schema(properties: KeyedList<Json>, required: Vec<String>) -> (r: Json)
    ensures
        r.model() == object_schema(json::members(properties), text::views(required@)),
{
    proof {
        text::lemma_views(required);
    }
    make_obj3(
        "type",
        text("object"),
        "properties",
        Json::Object(properties),
        "required",
        texts(&required),
    )
}

fn push_name(names: &mut Vec<String>, name: &str)
    ensures
        text::views(final(names)@) == text::views(old(names)@).push(name@),
{
    let ghost before = names@;
    names.push(name.to_owned());
    assert(text::views(names@) =~= text::views(before).push(name@));
}

fn put_time(properties: &mut KeyedList<Json>, key: &str)
    ensures
        json::members(*final(properties)) == with_absent(
            json::members(*old(properties)),
            key@,
            time_schema(),
        ),
{
    if member(properties, key).is_none() {
        put(
            properties,
            key.to_owned(),
            make_obj2("type", text("string"), "format", text("date-time")),
        );
    }
}

/// The schema of an entity.
pub fn generate_entity_schema_json(config: &EntityConfig) -> (r: Json)
    ensures
        r.model() == entity_schema(*config),
{
    let n: usize = config.fields.len();
    let ghost fields = config.fields.entries();
    let ghost start = Map::empty().insert(
        "id"@,
        objects::obj1("type"@, JsonView::Text("string"@)),
    );
    let mut properties = with(empty_object(), "id", make_obj1("type", text("string")));
    let mut required: Vec<String> = Vec::new();
    let mut i: usize = 0;
    assert(text::views(required@) =~= required_names(fields.take(0)));
    while i < n
        invariant
            i <= n,
            n == fields.len(),
            fields == config.fields.entries(),
            json::members(properties) == field_schemas(fields.take(i as int), start),
            text::views(required@) == required_names(fields.take(i as int)),
        decreases n - i,
    {
        let e = config.fields.entry(i);
        proof {
            assert(fields.take(i + 1).drop_last() =~= fields.take(i as int));
            assert(fields.take(i + 1).last() == *e);
        }
        put(&mut properties, e.0.clone(), Json::Object(write_labelled_schema(&e.1)));
        if e.1.required {
            push_name(&mut required, e.0.as_str());
        }
        i = i + 1;
    }
    assert(fields.take(n as int) =~= fields);
    put_time(&mut properties, "created_at");
    put_time(&mut properties, "updated_at");
    push_name(&mut required, "id");
    write_object_schema(properties, required)
}

fn given(field: &FieldConfig) -> (r: bool)
    ensures
        r == can_be_given(*field),
{
    match place_of(&field.map) {
        Place::CreatedAt | Place::UpdatedAt => false,
        _ => true,
    }
}

/// The schema of a creation.
pub fn generate_create_schema_json(config: &EntityConfig) -> (r: Json)
    ensures
        r.model() == create_schema(*config),
{
    let n: usize = config.fields.len();
    let ghost fields = config.fields.entries();
    let ghost wanted = |f: NamedField| can_be_given(f.1);
    let mut properties = empty_object();
    let mut required: Vec<String> = Vec::new();
    let mut i: usize = 0;
    proof {
        reveal(Seq::filter);
        assert(given_fields(fields.take(0)) =~= Seq::empty());
        assert(text::views(required@) =~= required_names(given_fields(fields.take(0))));
    }
    while i < n
        invariant
            i <= n,
            n == fields.len(),
            fields == config.fields.entries(),
            wanted == (|f: NamedField| can_be_given(f.1)),
            json::members(properties) == given_schemas(given_fields(fields.take(i as int))),
            text::views(required@) == required_names(given_fields(fields.take(i as int))),
        decreases n - i,
    {
        let e = config.fields.entry(i);
        let ghost before = given_fields(fields.take(i as int));
        proof {
            entity_config::lemma_filter_take(fields, i as int, wanted);
            assert(before.push(*e).drop_last() =~= before);
        }
        if given(&e.1) {
            put(&mut properties, e.0.clone(), Json::Object(write_value_schema(&e.1)));
            if e.1.required {
                push_name(&mut required, e.0.as_str());
            }
        }
        i = i + 1;
    }
    assert(fields.take(n as int) =~= fields);
    write_object_schema(properties, required)
}

/// The names that a schema requires are those of the required fields.
pub proof fn law_required_names(fields: Seq<NamedField>, name: Seq<char>)
    ensures
        required_names(fields).contains(name) <==> exists|i: int|
            0 <= i < fields.len() && (#[trigger] fields[i]).1.required && fields[i].0@ == name,
    decreases fields.len(),
{
    if fields.len() > 0 {
        let init = fields.drop_last();
        let before = required_names(init);
        let all = required_names(fields);
        let n = fields.len() - 1;
        law_required_names(init, name);
        assert(fields[n] == fields.last());
        if all.contains(name) {
            let k = choose|k: int| 0 <= k < all.len() && all[k] == name;
            if k < before.len() {
                assert(before[k] == name);
                assert(before.contains(name));
                let i = choose|i: int|
                    0 <= i < init.len() && (#[trigger] init[i]).1.required && init[i].0@ == name;
                assert(fields[i] == init[i]);
            }
        }
        if exists|i: int|
            0 <= i < fields.len() && (#[trigger] fields[i]).1.required && fields[i].0@ == name {
            let i = choose|i: int|
                0 <= i < fields.len() && (#[trigger] fields[i]).1.required && fields[i].0@ == name;
            if i < n {
                assert(init[i] == fields[i]);
                assert(before.contains(name));
                let k = choose|k: int| 0 <= k < before.len() && before[k] == name;
                assert(all[k] == name);
            } else {
                assert(all[all.len() - 1] == name);
            }
        }
    }
}

/// The schema of a creation requires a field exactly where a creation can give the
/// field and must.
pub proof fn law_create_schema_asks_for_what_is_needed(config: EntityConfig, name: Seq<char>)
    ensures
        required_names(given_fields(config.fields.entries())).contains(name) <==> exists|i: int|
            0 <= i < config.fields.entries().len() && (
            #[trigger] config.fields.entries()[i]).1.required && can_be_given(
                config.fields.entries()[i].1,
            ) && config.fields.entries()[i].0@ == name,
{
    let fields = config.fields.entries();
    let given = given_fields(fields);
    let wanted = |f: NamedField| can_be_given(f.1);
    law_required_names(given, name);
    if required_names(given).contains(name) {
        let k = choose|k: int|
            0 <= k < given.len() && (#[trigger] given[k]).1.required && given[k].0@ == name;
        fields.lemma_filter_pred(wanted, k);
        let f = given[k];
        assert(given.contains(f));
        fields.lemma_filter_contains_rev(wanted, f);
        let i = choose|i: int| 0 <= i < fields.len() && fields[i] == f;
        assert(fields[i].1.required);
    }
    if exists|i: int|
        0 <= i < fields.len() && (#[trigger] fields[i]).1.required && can_be_given(fields[i].1)
            && fields[i].0@ == name {
        let i = choose|i: int|
            0 <= i < fields.len() && (#[trigger] fields[i]).1.required && can_be_given(fields[i].1)
                && fields[i].0@ == name;
        assert(wanted(fields[i]));
        fields.lemma_filter_contains(wanted, i);
        let k = choose|k: int| 0 <= k < given.len() && given[k] == fields[i];
        assert(given[k].1.required && given[k].0@ == name);
    }
}

} // verus!
