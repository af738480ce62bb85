//! What every schema says, in terms of the definition that it is made from.
use crate::entity_config::{EntityConfig, FieldConfig, FieldType, NamedField};
use crate::entity_handlers::field_laws;
use crate::json::{self, Json, JsonView, Members};
use crate::json_laws;
use crate::openapi_gen::required;
use crate::openapi_gen::schemas;
use crate::text;
use vstd::prelude::*;

verus! {

/// The type of the values that a field of a type has: a list of tags is an array,
/// metadata are an object, and anything else is a text.
pub open spec fn is_schema_type(t: FieldType, name: Seq<char>) -> bool {
    &&& t is TagArray ==> name == "array"@
    &&& t is Metadata ==> name == "object"@
    &&& t !is TagArray && t !is Metadata ==> name == "string"@
}

/// The type of a field's schema.
pub proof fn law_types_of_schemas(t: &FieldType, r: &'static str)
    requires
        call_ensures(schemas::field_type_to_openapi, (t,), r),
    ensures
        is_schema_type(*t, r@),
{
}

/// A list of texts.
pub open spec fn text_items(items: Seq<String>) -> JsonView {
    JsonView::List(items.map_values(|s: String| JsonView::Text(s@)))
}

/// A schema describes a field: its type, the values that it may have where they are
/// restricted, and its label where the schema is to give it.
pub open spec fn describes_field(v: JsonView, f: FieldConfig, labelled: bool) -> bool {
    let t = v->Object_0["type"@];
    &&& json_laws::has(v, "type"@, t)
    &&& t is Text && is_schema_type(f.field_type, t->Text_0)
    &&& f.values is Some ==> json_laws::has(v, "enum"@, text_items(f.values->0@))
    &&& f.values is None ==> json_laws::lacks(v, "enum"@)
    &&& labelled && f.label is Some ==> json_laws::has(
        v,
        "description"@,
        JsonView::Text(f.label->0@),
    )
    &&& !labelled || f.label is None ==> json_laws::lacks(v, "description"@)
}

proof fn lemma_field_described(f: FieldConfig)
    ensures
        describes_field(JsonView::Object(schemas::labelled_schema(f)), f, true),
        describes_field(JsonView::Object(schemas::value_schema(f)), f, false),
{
    reveal_strlit("type");
    reveal_strlit("enum");
    reveal_strlit("description");
    assert("type"@.len() == 4 && "type"@[0] == 't' && "enum"@.len() == 4 && "enum"@[0] == 'e'
        && "description"@.len() == 11);
    if let Some(v) = f.values {
        assert(json::text_list(text::views(v@))->List_0 =~= text_items(v@)->List_0);
    }
}

/// The field at a position is the last with its name.
pub open spec fn is_last_named(fields: Seq<NamedField>, i: int) -> bool {
    &&& 0 <= i < fields.len()
    &&& forall|j: int| i < j < fields.len() ==> (#[trigger] fields[j]).0@ != fields[i].0@
}

/// No field has a name.
pub open spec fn unnamed(fields: Seq<NamedField>, name: Seq<char>) -> bool {
    forall|j: int| 0 <= j < fields.len() ==> (#[trigger] fields[j]).0@ != name
}

proof fn lemma_field_schemas(fields: Seq<NamedField>, start: Members, i: int, name: Seq<char>)
    ensures
        is_last_named(fields, i) ==> json_laws::has(
            JsonView::Object(schemas::field_schemas(fields, start)),
            fields[i].0@,
            JsonView::Object(schemas::labelled_schema(fields[i].1)),
        ),
        is_last_named(fields, i) ==> json_laws::has(
            JsonView::Object(schemas::given_schemas(fields)),
            fields[i].0@,
            JsonView::Object(schemas::value_schema(fields[i].1)),
        ),
        unnamed(fields, name) ==> json::member_of(schemas::field_schemas(fields, start), name)
            == json::member_of(start, name) && !schemas::given_schemas(fields).contains_key(name),
        !unnamed(fields, name) ==> schemas::field_schemas(fields, start).contains_key(name),
    decreases fields.len(),
{
    if fields.len() > 0 {
        let init = fields.drop_last();
        let n = fields.len() - 1;
        lemma_field_schemas(init, start, i, name);
        assert(fields.last() == fields[n]);
        if is_last_named(fields, i) && i < n {
            assert(fields[n].0@ != fields[i].0@);
            assert(init[i] == fields[i]);
            assert forall|j: int| i < j < init.len() implies (#[trigger] init[j]).0@
                != init[i].0@ by {
                assert(init[j] == fields[j]);
            }
        }
        if unnamed(fields, name) {
            assert(fields[n].0@ != name);
            assert forall|j: int| 0 <= j < init.len() implies (#[trigger] init[j]).0@ != name by {
                assert(init[j] == fields[j]);
            }
        } else if fields[n].0@ != name {
            assert(!unnamed(init, name)) by {
                if unnamed(init, name) {
                    assert forall|j: int| 0 <= j < fields.len() implies (#[trigger] fields[j]).0@
                        != name by {
                        if j < n {
                            assert(init[j] == fields[j]);
                        }
                    }
                }
            }
        }
    }
}

proof fn lemma_required_names(fields: Seq<NamedField>)
    ensures
        schemas::required_names(fields) == fields.filter(
            |f: NamedField| f.1.required,
        ).map_values(|f: NamedField| f.0@),
    decreases fields.len(),
{
    reveal(Seq::filter);
    let wanted = |f: NamedField| f.1.required;
    let inner = |f: NamedField| f.0@;
    if fields.len() == 0 {
        assert(schemas::required_names(fields) =~= fields.filter(wanted).map_values(inner));
    } else {
        let init = fields.drop_last();
        lemma_required_names(init);
        if wanted(fields.last()) {
            assert(init.filter(wanted).push(fields.last()).map_values(inner) =~= init.filter(
                wanted,
            ).map_values(inner).push(fields.last().0@));
        }
    }
}

/// The names of the required fields, as texts, in order.
pub open spec fn required_texts(fields: Seq<NamedField>) -> Seq<JsonView> {
    fields.filter(|f: NamedField| f.1.required).map_values(|f: NamedField| JsonView::Text(f.0@))
}

proof fn lemma_required_texts(fields: Seq<NamedField>)
    ensures
        json::text_list(schemas::required_names(fields)) == JsonView::List(required_texts(fields)),
{
    lemma_required_names(fields);
    assert(json::text_list(schemas::required_names(fields))->List_0 =~= required_texts(fields));
}

/// The schema of a text.
pub open spec fn is_text_schema(v: JsonView) -> bool {
    v == JsonView::Object(Map::empty().insert("type"@, JsonView::Text("string"@)))
}

/// The schema of a time.
pub open spec fn is_time_schema(v: JsonView) -> bool {
    json_laws::has(v, "type"@, JsonView::Text("string"@)) && json_laws::has(
        v,
        "format"@,
        JsonView::Text("date-time"@),
    )
}

/// The schema of an entity describes every field, with its label; it has the id and
/// the two times where no field is named so, and no other name; it requires the
/// required fields, in order, and the id.
pub proof fn law_entity_schema_describes_the_entity(
    config: &EntityConfig,
    r: Json,
    i: int,
    name: Seq<char>,
)
    requires
        call_ensures(schemas::generate_entity_schema_json, (config,), r),
    ensures
        ({
            let fields = config.fields.entries();
            let properties = r.model()->Object_0["properties"@];
            let m = properties->Object_0;
            &&& json_laws::has(r.model(), "type"@, JsonView::Text("object"@))
            &&& json_laws::has(r.model(), "properties"@, properties)
            &&& properties is Object
            &&& is_last_named(fields, i) ==> m.contains_key(fields[i].0@) && describes_field(
                m[fields[i].0@],
                fields[i].1,
                true,
            )
            &&& unnamed(fields, "id"@) ==> m.contains_key("id"@) && is_text_schema(m["id"@])
            &&& unnamed(fields, "created_at"@) ==> m.contains_key("created_at"@)
                && is_time_schema(m["created_at"@])
            &&& unnamed(fields, "updated_at"@) ==> m.contains_key("updated_at"@)
                && is_time_schema(m["updated_at"@])
            &&& unnamed(fields, name) && name != "id"@ && name != "created_at"@ && name
                != "updated_at"@ ==> !m.contains_key(name)
            &&& json_laws::has(
                r.model(),
                "required"@,
                JsonView::List(required_texts(fields).push(JsonView::Text("id"@))),
            )
        }),
{
    let fields = config.fields.entries();
    reveal_strlit("type");
    reveal_strlit("format");
    reveal_strlit("properties");
    reveal_strlit("required");
    reveal_strlit("id");
    reveal_strlit("created_at");
    reveal_strlit("updated_at");
    assert("type"@.len() == 4 && "format"@.len() == 6 && "properties"@.len() == 10
        && "required"@.len() == 8 && "id"@.len() == 2 && "created_at"@.len() == 10
        && "created_at"@[0] == 'c' && "updated_at"@.len() == 10 && "updated_at"@[0] == 'u');
    let start = Map::<Seq<char>, JsonView>::empty().insert(
        "id"@,
        crate::objects::obj1("type"@, JsonView::Text("string"@)),
    );
    lemma_field_schemas(fields, start, i, name);
    lemma_field_schemas(fields, start, i, "id"@);
    lemma_field_schemas(fields, start, i, "created_at"@);
    lemma_field_schemas(fields, start, i, "updated_at"@);
    if is_last_named(fields, i) {
        lemma_field_described(fields[i].1);
    }
    lemma_required_texts(fields);
    assert(json::text_list(schemas::required_names(fields).push("id"@))->List_0
        =~= required_texts(fields).push(JsonView::Text("id"@)));
}

/// A creation gives a field unless the field is one of the times.
pub open spec fn is_given(f: FieldConfig) -> bool {
    f.map.deep_view() != Some("created_at"@) && f.map.deep_view() != Some("updated_at"@)
}

proof fn lemma_is_given(f: FieldConfig)
    ensures
        schemas::can_be_given(f) <==> is_given(f),
{
    field_laws::law_hint_says_where(Seq::empty(), f.map.deep_view());
}

/// The schema of a creation describes every field but the times, without its label,
/// and has no other name; it requires the required ones among them, in order.
pub proof fn law_create_schema_describes_what_is_given(
    config: &EntityConfig,
    r: Json,
    i: int,
    name: Seq<char>,
)
    requires
        call_ensures(schemas::generate_create_schema_json, (config,), r),
    ensures
        ({
            let fields = config.fields.entries().filter(|f: NamedField| is_given(f.1));
            let properties = r.model()->Object_0["properties"@];
            let m = properties->Object_0;
            &&& json_laws::has(r.model(), "type"@, JsonView::Text("object"@))
            &&& json_laws::has(r.model(), "properties"@, properties)
            &&& properties is Object
            &&& is_last_named(fields, i) ==> m.contains_key(fields[i].0@) && describes_field(
                m[fields[i].0@],
                fields[i].1,
                false,
            )
            &&& unnamed(fields, name) ==> !m.contains_key(name)
            &&& json_laws::has(r.model(), "required"@, JsonView::List(required_texts(fields)))
        }),
{
    let a = |f: NamedField| schemas::can_be_given(f.1);
    let b = |f: NamedField| is_given(f.1);
    assert forall|f: NamedField| #[trigger] a(f) == b(f) by {
        lemma_is_given(f.1);
    }
    assert(a =~= b);
    let fields = config.fields.entries().filter(b);
    assert(schemas::given_fields(config.fields.entries()) == fields);
    reveal_strlit("type");
    reveal_strlit("properties");
    reveal_strlit("required");
    assert("type"@.len() == 4 && "properties"@.len() == 10 && "required"@.len() == 8);
    lemma_field_schemas(fields, Map::empty(), i, name);
    if is_last_named(fields, i) {
        lemma_field_described(fields[i].1);
    }
    lemma_required_texts(fields);
}

/// An object that lacks `required`.
pub open spec fn open_object(v: JsonView) -> bool {
    json_laws::lacks(v, "required"@)
}

/// An object that reads like an object schema: its type is `object`, or it has
/// properties.
pub open spec fn like_a_schema(m: Members) -> bool {
    (m.contains_key("type"@) && m["type"@] == JsonView::Text("object"@)) || m.contains_key(
        "properties"@,
    )
}

/// Completing a value leaves a scalar as it is and completes every item of a list
/// and every member of an object; an object gets a `required` only where it has none
/// and needs one: an empty list where it reads like an object schema, else `false`
/// where it reads like a parameter.
pub proof fn law_required_is_added_where_it_is_missing(
    v: &Json,
    r: Json,
    key: Seq<char>,
    i: int,
    inner: &Json,
    of_inner: Json,
)
    requires
        call_ensures(required::complete, (v,), r),
        call_ensures(required::complete, (inner,), of_inner),
    ensures
        v.model() !is Object && v.model() !is List ==> r.model() == v.model(),
        v.model() is List ==> r.model() is List && r.model()->List_0.len()
            == v.model()->List_0.len(),
        v.model() is List && 0 <= i < v.model()->List_0.len() && v.model()->List_0[i]
            == inner.model() ==> r.model()->List_0[i] == of_inner.model(),
        v.model() is Object ==> r.model() is Object,
        json_laws::has(v.model(), key, inner.model()) ==> json_laws::has(
            r.model(),
            key,
            of_inner.model(),
        ),
        json_laws::lacks(v.model(), key) && key != "required"@ ==> json_laws::lacks(
            r.model(),
            key,
        ),
        open_object(v.model()) && like_a_schema(v.model()->Object_0) ==> json_laws::has(
            r.model(),
            "required"@,
            JsonView::List(Seq::empty()),
        ),
        open_object(v.model()) && !like_a_schema(v.model()->Object_0)
            && v.model()->Object_0.contains_key("in"@) ==> json_laws::has(
            r.model(),
            "required"@,
            JsonView::Bool(false),
        ),
        open_object(v.model()) && !like_a_schema(v.model()->Object_0)
            && !v.model()->Object_0.contains_key("in"@) ==> json_laws::lacks(
            r.model(),
            "required"@,
        ),
{
}

} // verus!
