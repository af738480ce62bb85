//! What the API description says of every kind, in terms of its definition.
use crate::entity_config::EntityConfig;
use crate::json::{self, Json, JsonView, Members};
use crate::json_laws;
use crate::keyed::KeyedList;
use crate::openapi_gen::paths;
use crate::openapi_gen::required;
use crate::openapi_gen::schemas;
use vstd::prelude::*;

verus! {

/// The value of a member.
pub open spec fn under(v: JsonView, key: Seq<char>) -> JsonView {
    v->Object_0[key]
}

/// Two members, one inside the other, lead to a value.
pub open spec fn leads(v: JsonView, a: Seq<char>, b: Seq<char>, x: JsonView) -> bool {
    json_laws::has(v, a, under(v, a)) && json_laws::has(under(v, a), b, x)
}

/// The schema that a request body or an answer is in JSON.
pub open spec fn schema_of(v: JsonView) -> JsonView {
    under(under(under(v, "content"@), "application/json"@), "schema"@)
}

/// A request body or an answer has a JSON schema.
pub open spec fn has_schema(v: JsonView) -> bool {
    &&& leads(v, "content"@, "application/json"@, under(under(v, "content"@), "application/json"@))
    &&& json_laws::has(
        under(under(v, "content"@), "application/json"@),
        "schema"@,
        schema_of(v),
    )
}

/// A schema is a reference to the one of a name.
pub open spec fn refers_to(schema: JsonView, name: Seq<char>) -> bool {
    json_laws::has(schema, "$ref"@, JsonView::Text("#/components/schemas/"@ + name))
}

/// An operation answers with a status: a description, and the schema of a name.
pub open spec fn answers(
    op: JsonView,
    status: Seq<char>,
    description: Seq<char>,
    name: Seq<char>,
) -> bool {
    let a = under(under(op, "responses"@), status);
    &&& leads(op, "responses"@, status, a)
    &&& json_laws::has(a, "description"@, JsonView::Text(description))
    &&& has_schema(a)
    &&& refers_to(schema_of(a), name)
}

/// An operation has a name, and belongs to the entities.
pub open spec fn is_named(op: JsonView, name: Seq<char>) -> bool {
    &&& json_laws::has(op, "operationId"@, JsonView::Text(name))
    &&& json_laws::has(op, "tags"@, JsonView::List(seq![JsonView::Text("entities"@)]))
}

/// An operation has as many parameters.
pub open spec fn has_parameters(op: JsonView, n: int) -> bool {
    let list = under(op, "parameters"@);
    json_laws::has(op, "parameters"@, list) && list is List && list->List_0.len() == n
}

/// A parameter of an operation: its name, where it stands, whether it is required,
/// and that it is a text.
pub open spec fn takes(
    op: JsonView,
    i: int,
    name: Seq<char>,
    place: Seq<char>,
    needed: bool,
) -> bool {
    let p = under(op, "parameters"@)->List_0[i];
    &&& json_laws::has(p, "name"@, JsonView::Text(name))
    &&& json_laws::has(p, "in"@, JsonView::Text(place))
    &&& json_laws::has(p, "required"@, JsonView::Bool(needed))
    &&& leads(p, "schema"@, "type"@, JsonView::Text("string"@))
}

/// A parameter of an operation is explained.
pub open spec fn explains(op: JsonView, i: int, t: Seq<char>) -> bool {
    json_laws::has(under(op, "parameters"@)->List_0[i], "description"@, JsonView::Text(t))
}

/// The values that the first parameter of an operation may have are those of the
/// kind's status, where they are restricted.
pub open spec fn restricts_first(op: JsonView, config: EntityConfig) -> bool {
    let s = under(under(op, "parameters"@)->List_0[0], "schema"@);
    if config.fields@.contains_key("status"@) && config.fields@["status"@].values is Some {
        json_laws::has(
            s,
            "enum"@,
            JsonView::List(
                config.fields@["status"@].values->0@.map_values(
                    |t: String| JsonView::Text(t@),
                ),
            ),
        )
    } else {
        json_laws::lacks(s, "enum"@)
    }
}

/// The body of an operation is an object with one text, which is required.
pub open spec fn wants_text(op: JsonView, name: Seq<char>) -> bool {
    let b = under(op, "requestBody"@);
    let s = schema_of(b);
    &&& json_laws::has(op, "requestBody"@, b)
    &&& has_schema(b)
    &&& json_laws::has(s, "type"@, JsonView::Text("object"@))
    &&& json_laws::has(s, "required"@, JsonView::List(seq![JsonView::Text(name)]))
    &&& leads(s, "properties"@, name, under(under(s, "properties"@), name))
    &&& json_laws::has(
        under(under(s, "properties"@), name),
        "type"@,
        JsonView::Text("string"@),
    )
}

/// The listing of a kind: it is narrowed by a status and by what entities are
/// attached to.
pub open spec fn is_listing(op: JsonView, config: EntityConfig) -> bool {
    &&& is_named(op, "list_"@ + (config.slug@ + "s"@))
    &&& has_parameters(op, 2)
    &&& takes(op, 0, "status"@, "query"@, false)
    &&& restricts_first(op, config)
    &&& takes(op, 1, "attached_to"@, "query"@, false)
    &&& explains(op, 0, "Filter by status"@)
    &&& explains(op, 1, "Filter by relation target (e.g. project ID)"@)
    &&& answers(op, "200"@, "List of "@ + config.slug@ + "s"@, config.name@ + "ListResponse"@)
}

/// The creation of an entity of a kind.
pub open spec fn is_creation(op: JsonView, config: EntityConfig) -> bool {
    &&& is_named(op, "create_"@ + config.slug@)
    &&& json_laws::has(op, "requestBody"@, under(op, "requestBody"@))
    &&& has_schema(under(op, "requestBody"@))
    &&& refers_to(
        schema_of(under(op, "requestBody"@)),
        "Create"@ + config.name@ + "Request"@,
    )
    &&& answers(op, "201"@, config.name@ + " created"@, config.name@)
}

/// The reading of an entity of a kind.
pub open spec fn is_reading(op: JsonView, config: EntityConfig) -> bool {
    &&& is_named(op, "get_"@ + config.slug@)
    &&& has_parameters(op, 1)
    &&& takes(op, 0, "id"@, "path"@, true)
    &&& answers(op, "200"@, config.name@ + " details"@, config.name@)
}

/// The change of an entity's status.
pub open spec fn is_status_change(op: JsonView, config: EntityConfig) -> bool {
    &&& is_named(op, "update_"@ + config.slug@ + "_status"@)
    &&& has_parameters(op, 1)
    &&& takes(op, 0, "id"@, "path"@, true)
    &&& wants_text(op, "status"@)
    &&& answers(op, "200"@, "Status updated"@, config.name@)
}

/// An operation answers with a status and a description.
pub open spec fn answers_plainly(op: JsonView, status: Seq<char>, t: Seq<char>) -> bool {
    leads(op, "responses"@, status, under(under(op, "responses"@), status)) && json_laws::has(
        under(under(op, "responses"@), status),
        "description"@,
        JsonView::Text(t),
    )
}

/// The schema of the hashes of a content change: the new one is a text, and the old
/// one is a text or nothing.
pub open spec fn is_hash_schema(v: JsonView) -> bool {
    let h = under(under(v, "properties"@), "content_hash"@);
    let p = under(h, "properties"@);
    &&& json_laws::has(v, "type"@, JsonView::Text("object"@))
    &&& leads(v, "properties"@, "content_hash"@, h)
    &&& json_laws::has(h, "type"@, JsonView::Text("object"@))
    &&& leads(h, "properties"@, "old"@, under(p, "old"@))
    &&& json_laws::has(
        under(p, "old"@),
        "type"@,
        JsonView::List(seq![JsonView::Text("string"@), JsonView::Text("null"@)]),
    )
    &&& leads(h, "properties"@, "new"@, under(p, "new"@))
    &&& json_laws::has(under(p, "new"@), "type"@, JsonView::Text("string"@))
}

/// The change of an identity's content, which needs the instance.
pub open spec fn is_content_change(op: JsonView, config: EntityConfig) -> bool {
    let a = under(under(op, "responses"@), "200"@);
    &&& is_named(op, "update_"@ + config.slug@ + "_content"@)
    &&& has_parameters(op, 2)
    &&& takes(op, 0, "id"@, "path"@, true)
    &&& takes(op, 1, "X-Instance-Id"@, "header"@, true)
    &&& wants_text(op, "content"@)
    &&& leads(op, "responses"@, "200"@, a)
    &&& has_schema(a)
    &&& is_hash_schema(schema_of(a))
    &&& answers_plainly(op, "200"@, "Content updated in place (entity + old→new sha256 echo)"@)
    &&& answers_plainly(op, "400"@, "Missing X-Instance-Id or content field"@)
    &&& answers_plainly(op, "403"@, "Cedar deny — principal outside the stored admin_group"@)
    &&& answers_plainly(op, "404"@, "Identity not found (never create-on-miss)"@)
    &&& explains(
        op,
        1,
        "Agent asset ID — identity content is instance-scoped (agent nested DB)"@,
    )
}

proof fn lemma_words()
    ensures
        "operationId"@.len() == 11,
        "tags"@.len() == 4,
        "tags"@[0] == 't',
        "parameters"@.len() == 10,
        "parameters"@[0] == 'p',
        "responses"@.len() == 9,
        "requestBody"@.len() == 11,
        "requestBody"@[0] == 'r',
        "operationId"@[0] == 'o',
        "description"@.len() == 11,
        "description"@[0] == 'd',
        "content"@.len() == 7,
        "schema"@.len() == 6,
        "name"@.len() == 4,
        "name"@[0] == 'n',
        "in"@.len() == 2,
        "required"@.len() == 8,
        "type"@.len() == 4,
        "type"@[0] == 't',
        "type"@[1] == 'y',
        "enum"@.len() == 4,
        "enum"@[0] == 'e',
        "properties"@.len() == 10,
        "properties"@[2] == 'o',
        "parameters"@[2] == 'r',
        "items"@.len() == 5,
        "200"@.len() == 3,
        "200"@[0] == '2',
        "400"@[0] == '4',
        "400"@[2] == '0',
        "403"@[0] == '4',
        "403"@[2] == '3',
        "404"@[0] == '4',
        "404"@[2] == '4',
{
    reveal_strlit("operationId");
    reveal_strlit("tags");
    reveal_strlit("parameters");
    reveal_strlit("responses");
    reveal_strlit("requestBody");
    reveal_strlit("description");
    reveal_strlit("content");
    reveal_strlit("schema");
    reveal_strlit("name");
    reveal_strlit("in");
    reveal_strlit("required");
    reveal_strlit("type");
    reveal_strlit("enum");
    reveal_strlit("properties");
    reveal_strlit("items");
    reveal_strlit("200");
    reveal_strlit("400");
    reveal_strlit("403");
    reveal_strlit("404");
}

proof fn lemma_listing(config: EntityConfig)
    ensures
        is_listing(paths::list_operation(config), config),
{
    lemma_words();
    if config.fields@.contains_key("status"@) && config.fields@["status"@].values is Some {
        let values = config.fields@["status"@].values->0@;
        assert(json::text_list(config.allowed_statuses()->0)->List_0 =~= values.map_values(
            |t: String| JsonView::Text(t@),
        ));
    }
}

proof fn lemma_creation(config: EntityConfig)
    ensures
        is_creation(paths::create_operation(config), config),
{
    lemma_words();
}

proof fn lemma_reading(config: EntityConfig)
    ensures
        is_reading(paths::get_operation(config), config),
{
    lemma_words();
}

proof fn lemma_status_change(config: EntityConfig)
    ensures
        is_status_change(paths::status_operation(config), config),
{
    lemma_words();
}

proof fn lemma_content_change(config: EntityConfig)
    ensures
        is_content_change(paths::content_operation(config), config),
{
    lemma_words();
    reveal_strlit("old");
    reveal_strlit("new");
    assert("old"@[0] == 'o' && "new"@[0] == 'n');
}

proof fn lemma_done(v: JsonView, a: Seq<char>, x: JsonView)
    requires
        json_laws::has(v, a, x),
    ensures
        json_laws::has(required::completed(v), a, required::completed(x)),
        under(required::completed(v), a) == required::completed(x),
        x is Text || x is Bool ==> required::completed(x) == x,
{
    required::law_completing_keeps_members(v->Object_0, a);
}

proof fn lemma_texts_stay(items: Seq<JsonView>)
    requires
        forall|i: int| 0 <= i < items.len() ==> (#[trigger] items[i]) is Text,
    ensures
        required::completed(JsonView::List(items)) == JsonView::List(items),
{
    let done = required::completed(JsonView::List(items))->List_0;
    assert forall|i: int| 0 <= i < items.len() implies done[i] == #[trigger] items[i] by {
        assert(required::completed(items[i]) == items[i]);
    }
    assert(done =~= items);
}

proof fn lemma_leads_done(v: JsonView, a: Seq<char>, b: Seq<char>, x: JsonView)
    requires
        leads(v, a, b, x),
    ensures
        leads(required::completed(v), a, b, required::completed(x)),
        under(under(required::completed(v), a), b) == required::completed(x),
        x is Text || x is Bool ==> required::completed(x) == x,
{
    lemma_done(v, a, under(v, a));
    lemma_done(under(v, a), b, x);
}

proof fn lemma_schema_done(v: JsonView)
    requires
        has_schema(v),
    ensures
        has_schema(required::completed(v)),
        schema_of(required::completed(v)) == required::completed(schema_of(v)),
{
    let c = under(under(v, "content"@), "application/json"@);
    lemma_leads_done(v, "content"@, "application/json"@, c);
    lemma_done(c, "schema"@, schema_of(v));
}

proof fn lemma_named_done(op: JsonView, name: Seq<char>)
    requires
        is_named(op, name),
    ensures
        is_named(required::completed(op), name),
{
    let tags = seq![JsonView::Text("entities"@)];
    lemma_done(op, "operationId"@, JsonView::Text(name));
    lemma_done(op, "tags"@, JsonView::List(tags));
    lemma_texts_stay(tags);
}

proof fn lemma_answers_done(
    op: JsonView,
    status: Seq<char>,
    description: Seq<char>,
    name: Seq<char>,
)
    requires
        answers(op, status, description, name),
    ensures
        answers(required::completed(op), status, description, name),
{
    let a = under(under(op, "responses"@), status);
    lemma_leads_done(op, "responses"@, status, a);
    lemma_done(a, "description"@, JsonView::Text(description));
    lemma_schema_done(a);
    lemma_done(schema_of(a), "$ref"@, JsonView::Text("#/components/schemas/"@ + name));
}

proof fn lemma_parameters_done(op: JsonView, n: int)
    requires
        has_parameters(op, n),
    ensures
        has_parameters(required::completed(op), n),
        forall|i: int| #![trigger under(required::completed(op), "parameters"@)->List_0[i]]
            0 <= i < n ==> under(required::completed(op), "parameters"@)->List_0[i]
                == required::completed(under(op, "parameters"@)->List_0[i]),
{
    lemma_done(op, "parameters"@, under(op, "parameters"@));
}

proof fn lemma_takes_done(
    op: JsonView,
    n: int,
    i: int,
    name: Seq<char>,
    place: Seq<char>,
    needed: bool,
)
    requires
        has_parameters(op, n),
        0 <= i < n,
        takes(op, i, name, place, needed),
    ensures
        takes(required::completed(op), i, name, place, needed),
{
    lemma_parameters_done(op, n);
    let p = under(op, "parameters"@)->List_0[i];
    assert(under(required::completed(op), "parameters"@)->List_0[i] == required::completed(p));
    lemma_done(p, "name"@, JsonView::Text(name));
    lemma_done(p, "in"@, JsonView::Text(place));
    lemma_done(p, "required"@, JsonView::Bool(needed));
    lemma_leads_done(p, "schema"@, "type"@, JsonView::Text("string"@));
}

proof fn lemma_explains_done(op: JsonView, n: int, i: int, t: Seq<char>)
    requires
        has_parameters(op, n),
        0 <= i < n,
        explains(op, i, t),
    ensures
        explains(required::completed(op), i, t),
{
    lemma_parameters_done(op, n);
    let p = under(op, "parameters"@)->List_0[i];
    assert(under(required::completed(op), "parameters"@)->List_0[i] == required::completed(p));
    lemma_done(p, "description"@, JsonView::Text(t));
}

proof fn lemma_answers_plainly_done(op: JsonView, status: Seq<char>, t: Seq<char>)
    requires
        answers_plainly(op, status, t),
    ensures
        answers_plainly(required::completed(op), status, t),
{
    let a = under(under(op, "responses"@), status);
    lemma_leads_done(op, "responses"@, status, a);
    lemma_done(a, "description"@, JsonView::Text(t));
}

proof fn lemma_hash_schema_done(v: JsonView)
    requires
        is_hash_schema(v),
    ensures
        is_hash_schema(required::completed(v)),
{
    let h = under(under(v, "properties"@), "content_hash"@);
    let p = under(h, "properties"@);
    let kinds = seq![JsonView::Text("string"@), JsonView::Text("null"@)];
    lemma_done(v, "type"@, JsonView::Text("object"@));
    lemma_leads_done(v, "properties"@, "content_hash"@, h);
    lemma_done(h, "type"@, JsonView::Text("object"@));
    lemma_leads_done(h, "properties"@, "old"@, under(p, "old"@));
    lemma_done(under(p, "old"@), "type"@, JsonView::List(kinds));
    lemma_texts_stay(kinds);
    lemma_leads_done(h, "properties"@, "new"@, under(p, "new"@));
    lemma_done(under(p, "new"@), "type"@, JsonView::Text("string"@));
}

proof fn lemma_restricts_done(op: JsonView, n: int, config: EntityConfig)
    requires
        has_parameters(op, n),
        0 < n,
        takes(op, 0, "status"@, "query"@, false),
        restricts_first(op, config),
    ensures
        restricts_first(required::completed(op), config),
{
    lemma_words();
    lemma_parameters_done(op, n);
    let p = under(op, "parameters"@)->List_0[0];
    let s = under(p, "schema"@);
    assert(under(required::completed(op), "parameters"@)->List_0[0] == required::completed(p));
    lemma_done(p, "schema"@, s);
    if config.fields@.contains_key("status"@) && config.fields@["status"@].values is Some {
        let items = config.fields@["status"@].values->0@.map_values(
            |t: String| JsonView::Text(t@),
        );
        lemma_done(s, "enum"@, JsonView::List(items));
        lemma_texts_stay(items);
    } else {
        required::law_completing_keeps_members(s->Object_0, "enum"@);
    }
}

proof fn lemma_wants_done(op: JsonView, name: Seq<char>)
    requires
        wants_text(op, name),
    ensures
        wants_text(required::completed(op), name),
{
    let b = under(op, "requestBody"@);
    let s = schema_of(b);
    let p = under(under(s, "properties"@), name);
    let names = seq![JsonView::Text(name)];
    lemma_done(op, "requestBody"@, b);
    lemma_schema_done(b);
    lemma_done(s, "type"@, JsonView::Text("object"@));
    lemma_done(s, "required"@, JsonView::List(names));
    lemma_texts_stay(names);
    lemma_leads_done(s, "properties"@, name, p);
    lemma_done(p, "type"@, JsonView::Text("string"@));
}

proof fn lemma_listing_done(config: EntityConfig)
    ensures
        is_listing(required::completed(paths::list_operation(config)), config),
{
    let op = paths::list_operation(config);
    lemma_listing(config);
    lemma_named_done(op, "list_"@ + (config.slug@ + "s"@));
    lemma_parameters_done(op, 2);
    lemma_takes_done(op, 2, 0, "status"@, "query"@, false);
    lemma_restricts_done(op, 2, config);
    lemma_takes_done(op, 2, 1, "attached_to"@, "query"@, false);
    lemma_explains_done(op, 2, 0, "Filter by status"@);
    lemma_explains_done(op, 2, 1, "Filter by relation target (e.g. project ID)"@);
    lemma_answers_done(
        op,
        "200"@,
        "List of "@ + config.slug@ + "s"@,
        config.name@ + "ListResponse"@,
    );
}

proof fn lemma_creation_done(config: EntityConfig)
    ensures
        is_creation(required::completed(paths::create_operation(config)), config),
{
    let op = paths::create_operation(config);
    let b = under(op, "requestBody"@);
    lemma_creation(config);
    lemma_named_done(op, "create_"@ + config.slug@);
    lemma_done(op, "requestBody"@, b);
    lemma_schema_done(b);
    lemma_done(
        schema_of(b),
        "$ref"@,
        JsonView::Text("#/components/schemas/"@ + ("Create"@ + config.name@ + "Request"@)),
    );
    lemma_answers_done(op, "201"@, config.name@ + " created"@, config.name@);
}

proof fn lemma_reading_done(config: EntityConfig)
    ensures
        is_reading(required::completed(paths::get_operation(config)), config),
{
    let op = paths::get_operation(config);
    lemma_reading(config);
    lemma_named_done(op, "get_"@ + config.slug@);
    lemma_parameters_done(op, 1);
    lemma_takes_done(op, 1, 0, "id"@, "path"@, true);
    lemma_answers_done(op, "200"@, config.name@ + " details"@, config.name@);
}

proof fn lemma_status_change_done(config: EntityConfig)
    ensures
        is_status_change(required::completed(paths::status_operation(config)), config),
{
    let op = paths::status_operation(config);
    lemma_status_change(config);
    lemma_named_done(op, "update_"@ + config.slug@ + "_status"@);
    lemma_parameters_done(op, 1);
    lemma_takes_done(op, 1, 0, "id"@, "path"@, true);
    lemma_wants_done(op, "status"@);
    lemma_answers_done(op, "200"@, "Status updated"@, config.name@);
}

proof fn lemma_content_change_done(config: EntityConfig)
    ensures
        is_content_change(required::completed(paths::content_operation(config)), config),
{
    let op = paths::content_operation(config);
    let a = under(under(op, "responses"@), "200"@);
    lemma_content_change(config);
    lemma_named_done(op, "update_"@ + config.slug@ + "_content"@);
    lemma_parameters_done(op, 2);
    lemma_takes_done(op, 2, 0, "id"@, "path"@, true);
    lemma_takes_done(op, 2, 1, "X-Instance-Id"@, "header"@, true);
    lemma_wants_done(op, "content"@);
    lemma_leads_done(op, "responses"@, "200"@, a);
    lemma_schema_done(a);
    lemma_hash_schema_done(schema_of(a));
    lemma_answers_plainly_done(
        op,
        "200"@,
        "Content updated in place (entity + old→new sha256 echo)"@,
    );
    lemma_answers_plainly_done(op, "400"@, "Missing X-Instance-Id or content field"@);
    lemma_answers_plainly_done(
        op,
        "403"@,
        "Cedar deny — principal outside the stored admin_group"@,
    );
    lemma_answers_plainly_done(op, "404"@, "Identity not found (never create-on-miss)"@);
    lemma_explains_done(
        op,
        2,
        1,
        "Agent asset ID — identity content is instance-scoped (agent nested DB)"@,
    );
}

/// Where something of a kind is served.
pub open spec fn at(slug: Seq<char>, rest: Seq<char>) -> Seq<char> {
    "/api/v1/"@ + slug + "s"@ + rest
}

/// A path is one of those of a kind.
pub open spec fn is_path_of(key: Seq<char>, slug: Seq<char>) -> bool {
    ||| key == "/api/v1/"@ + slug + "s"@
    ||| key == at(slug, "/{id}"@)
    ||| key == at(slug, "/{id}/content"@)
    ||| key == at(slug, "/{id}/status"@)
}

/// The kind at a position is served by the generic handler, and none behind it has a
/// path of its own at the key.
pub open spec fn has_last_say(configs: Seq<EntityConfig>, k: int, key: Seq<char>) -> bool {
    &&& 0 <= k < configs.len()
    &&& configs[k].handler@ == "generic"@
    &&& forall|j: int|
        k < j < configs.len() && (#[trigger] configs[j]).handler@ == "generic"@ ==> !is_path_of(
            key,
            configs[j].slug@,
        )
}

/// No kind that the generic handler serves has a path of its own at the key.
pub open spec fn is_free(configs: Seq<EntityConfig>, key: Seq<char>) -> bool {
    forall|j: int|
        0 <= j < configs.len() && (#[trigger] configs[j]).handler@ == "generic"@ ==> !is_path_of(
            key,
            configs[j].slug@,
        )
}

proof fn lemma_all_paths(m: Members, configs: Seq<EntityConfig>, k: int, key: Seq<char>)
    ensures
        has_last_say(configs, k, key) ==> exists|before: Members| #[trigger]
            paths::with_paths(before, configs[k]).contains_key(key) == paths::all_paths(
                m,
                configs,
            ).contains_key(key) && paths::with_paths(before, configs[k])[key]
                == paths::all_paths(m, configs)[key],
        is_free(configs, key) ==> json::member_of(paths::all_paths(m, configs), key)
            == json::member_of(m, key),
    decreases configs.len(),
{
    if configs.len() > 0 {
        let init = configs.drop_last();
        let n = configs.len() - 1;
        let done = paths::all_paths(m, init);
        lemma_all_paths(m, init, k, key);
        assert(configs.last() == configs[n]);
        if has_last_say(configs, k, key) {
            if k == n {
                assert(paths::with_paths(done, configs[k]).contains_key(key) == paths::all_paths(
                    m,
                    configs,
                ).contains_key(key));
            } else {
                assert(init[k] == configs[k]);
                assert forall|j: int|
                    k < j < init.len() && (#[trigger] init[j]).handler@ == "generic"@ implies
                    !is_path_of(key, init[j].slug@) by {
                    assert(init[j] == configs[j]);
                }
                assert(has_last_say(init, k, key));
                let before = choose|before: Members| #[trigger]
                    paths::with_paths(before, init[k]).contains_key(key) == done.contains_key(key)
                        && paths::with_paths(before, init[k])[key] == done[key];
                if configs[n].handler@ == "generic"@ {
                    assert(!is_path_of(key, configs[n].slug@));
                }
                assert(paths::with_paths(before, configs[k]).contains_key(key) == paths::all_paths(
                    m,
                    configs,
                ).contains_key(key));
            }
        }
        if is_free(configs, key) {
            assert forall|j: int|
                0 <= j < init.len() && (#[trigger] init[j]).handler@ == "generic"@ implies
                !is_path_of(key, init[j].slug@) by {
                assert(init[j] == configs[j]);
            }
            if configs[n].handler@ == "generic"@ {
                assert(!is_path_of(key, configs[n].slug@));
            }
        }
    }
}

/// The paths that a description has.
pub open spec fn paths_of(v: JsonView) -> Members {
    under(v, "paths"@)->Object_0
}

proof fn lemma_top()
    ensures
        "paths"@.len() == 5,
        "components"@.len() == 10,
        "schemas"@.len() == 7,
        "required"@.len() == 8,
        "get"@.len() == 3,
        "post"@.len() == 4,
        "patch"@.len() == 5,
        "/{id}"@.len() == 5,
        "/{id}/content"@.len() == 13,
        "/{id}/status"@.len() == 12,
{
    reveal_strlit("paths");
    reveal_strlit("components");
    reveal_strlit("schemas");
    reveal_strlit("required");
    reveal_strlit("get");
    reveal_strlit("post");
    reveal_strlit("patch");
    reveal_strlit("/{id}");
    reveal_strlit("/{id}/content");
    reveal_strlit("/{id}/status");
}

proof fn lemma_path_in_description(
    base: Members,
    configs: Seq<EntityConfig>,
    key: Seq<char>,
    x: JsonView,
)
    requires
        json_laws::has(
            JsonView::Object(paths::all_paths(paths::object_member(base, "paths"@), configs)),
            key,
            x,
        ),
    ensures
        ({
            let v = required::completed(JsonView::Object(paths::merged(base, configs)));
            &&& leads(v, "paths"@, key, required::completed(x))
            &&& paths_of(v).contains_key(key)
            &&& paths_of(v)[key] == required::completed(x)
        }),
{
    lemma_top();
    let v = JsonView::Object(paths::merged(base, configs));
    let p = JsonView::Object(paths::all_paths(paths::object_member(base, "paths"@), configs));
    assert(json_laws::has(v, "paths"@, p));
    lemma_leads_done(v, "paths"@, key, x);
}

/// Every kind that the generic handler serves is described where it is served: its
/// listing and its creation, its reading, the change of its status, and, of an agent
/// identity, that of its content.  Where two kinds are served at one place the later
/// one is described.
pub proof fn law_kinds_are_described_where_they_are_served(
    base: &KeyedList<Json>,
    configs: &Vec<EntityConfig>,
    r: Json,
    k: int,
)
    requires
        call_ensures(paths::generate_merged_openapi, (base, configs), r),
        0 <= k < configs@.len(),
    ensures
        ({
            let c = configs@[k];
            let m = paths_of(r.model());
            let own = "/api/v1/"@ + c.slug@ + "s"@;
            let one = at(c.slug@, "/{id}"@);
            let status = at(c.slug@, "/{id}/status"@);
            let content = at(c.slug@, "/{id}/content"@);
            &&& has_last_say(configs@, k, own) ==> m.contains_key(own) && json_laws::has(
                m[own],
                "get"@,
                under(m[own], "get"@),
            ) && is_listing(under(m[own], "get"@), c) && json_laws::has(
                m[own],
                "post"@,
                under(m[own], "post"@),
            ) && is_creation(under(m[own], "post"@), c)
            &&& has_last_say(configs@, k, one) ==> m.contains_key(one) && json_laws::has(
                m[one],
                "get"@,
                under(m[one], "get"@),
            ) && is_reading(under(m[one], "get"@), c)
            &&& has_last_say(configs@, k, status) ==> m.contains_key(status) && json_laws::has(
                m[status],
                "patch"@,
                under(m[status], "patch"@),
            ) && is_status_change(under(m[status], "patch"@), c)
            &&& c.slug@ == "agent-identity"@ && has_last_say(configs@, k, content)
                ==> m.contains_key(content) && json_laws::has(
                m[content],
                "patch"@,
                under(m[content], "patch"@),
            ) && is_content_change(under(m[content], "patch"@), c)
        }),
{
    lemma_top();
    let c = configs@[k];
    let b = json::members(*base);
    let p0 = paths::object_member(b, "paths"@);
    let all = paths::all_paths(p0, configs@);
    let own = "/api/v1/"@ + c.slug@ + "s"@;
    let one = at(c.slug@, "/{id}"@);
    let status = at(c.slug@, "/{id}/status"@);
    let content = at(c.slug@, "/{id}/content"@);
    let lop = paths::list_operation(c);
    let cop = paths::create_operation(c);
    lemma_all_paths(p0, configs@, k, own);
    lemma_all_paths(p0, configs@, k, one);
    lemma_all_paths(p0, configs@, k, status);
    lemma_all_paths(p0, configs@, k, content);
    assert(own.len() + 5 == one.len() && own.len() + 12 == status.len() && own.len() + 13
        == content.len());
    lemma_listing_done(c);
    lemma_creation_done(c);
    lemma_reading_done(c);
    lemma_status_change_done(c);
    lemma_content_change_done(c);
    if has_last_say(configs@, k, own) {
        let x = all[own];
        lemma_path_in_description(b, configs@, own, x);
        lemma_done(x, "get"@, lop);
        lemma_done(x, "post"@, cop);
    }
    if has_last_say(configs@, k, one) {
        let x = all[one];
        lemma_path_in_description(b, configs@, one, x);
        lemma_done(x, "get"@, paths::get_operation(c));
    }
    if has_last_say(configs@, k, status) {
        let x = all[status];
        lemma_path_in_description(b, configs@, status, x);
        lemma_done(x, "patch"@, paths::status_operation(c));
    }
    if c.slug@ == "agent-identity"@ && has_last_say(configs@, k, content) {
        let x = all[content];
        lemma_path_in_description(b, configs@, content, x);
        lemma_done(x, "patch"@, paths::content_operation(c));
    }
}

/// What the base description says is kept, completed: every path at which no kind is
/// served, and everything but the paths and the components.
pub proof fn law_base_description_is_kept(
    base: &KeyedList<Json>,
    configs: &Vec<EntityConfig>,
    r: Json,
    key: Seq<char>,
    inner: &Json,
    of_inner: Json,
)
    requires
        call_ensures(paths::generate_merged_openapi, (base, configs), r),
        call_ensures(required::complete, (inner,), of_inner),
    ensures
        ({
            let b = JsonView::Object(json::members(*base));
            &&& leads(b, "paths"@, key, inner.model()) && is_free(configs@, key) ==> leads(
                r.model(),
                "paths"@,
                key,
                of_inner.model(),
            )
            &&& json_laws::has(b, key, inner.model()) && key != "paths"@ && key != "components"@
                ==> json_laws::has(r.model(), key, of_inner.model())
        }),
{
    lemma_top();
    let b = json::members(*base);
    let v = JsonView::Object(paths::merged(b, configs@));
    let p0 = paths::object_member(b, "paths"@);
    if leads(JsonView::Object(b), "paths"@, key, inner.model()) && is_free(configs@, key) {
        lemma_all_paths(p0, configs@, 0, key);
        lemma_path_in_description(b, configs@, key, inner.model());
    }
    if json_laws::has(JsonView::Object(b), key, inner.model()) && key != "paths"@ && key
        != "components"@ {
        lemma_done(v, key, inner.model());
    }
}

/// A name is one of those of a kind's schemas.
pub open spec fn is_schema_of(key: Seq<char>, name: Seq<char>) -> bool {
    ||| key == name
    ||| key == "Create"@ + name + "Request"@
    ||| key == name + "ListResponse"@
}

/// The kind at a position is served by the generic handler, and none behind it has a
/// schema of the name.
pub open spec fn names_last(configs: Seq<EntityConfig>, k: int, key: Seq<char>) -> bool {
    &&& 0 <= k < configs.len()
    &&& configs[k].handler@ == "generic"@
    &&& forall|j: int|
        k < j < configs.len() && (#[trigger] configs[j]).handler@ == "generic"@ ==> !is_schema_of(
            key,
            configs[j].name@,
        )
}

proof fn lemma_all_schemas(m: Members, configs: Seq<EntityConfig>, k: int, key: Seq<char>)
    ensures
        names_last(configs, k, key) ==> exists|before: Members| #[trigger]
            paths::with_schemas(before, configs[k]).contains_key(key) == paths::all_schemas(
                m,
                configs,
            ).contains_key(key) && paths::with_schemas(before, configs[k])[key]
                == paths::all_schemas(m, configs)[key],
    decreases configs.len(),
{
    if configs.len() > 0 {
        let init = configs.drop_last();
        let n = configs.len() - 1;
        let done = paths::all_schemas(m, init);
        lemma_all_schemas(m, init, k, key);
        assert(configs.last() == configs[n]);
        if names_last(configs, k, key) {
            if k == n {
                assert(paths::with_schemas(done, configs[k]).contains_key(key)
                    == paths::all_schemas(m, configs).contains_key(key));
            } else {
                assert(init[k] == configs[k]);
                assert forall|j: int|
                    k < j < init.len() && (#[trigger] init[j]).handler@ == "generic"@ implies
                    !is_schema_of(key, init[j].name@) by {
                    assert(init[j] == configs[j]);
                }
                assert(names_last(init, k, key));
                let before = choose|before: Members| #[trigger]
                    paths::with_schemas(before, init[k]).contains_key(key) == done.contains_key(
                        key,
                    ) && paths::with_schemas(before, init[k])[key] == done[key];
                if configs[n].handler@ == "generic"@ {
                    assert(!is_schema_of(key, configs[n].name@));
                }
                assert(paths::with_schemas(before, configs[k]).contains_key(key)
                    == paths::all_schemas(m, configs).contains_key(key));
            }
        }
    }
}

/// The schemas that a description has.
pub open spec fn schemas_of(v: JsonView) -> Members {
    under(under(v, "components"@), "schemas"@)->Object_0
}

/// The schema of a listing: a list of entities of the kind, and how many there are.
pub open spec fn is_list_schema(v: JsonView, name: Seq<char>) -> bool {
    let e = under(under(v, "properties"@), "entities"@);
    &&& json_laws::has(v, "type"@, JsonView::Text("object"@))
    &&& leads(v, "properties"@, "entities"@, e)
    &&& json_laws::has(e, "type"@, JsonView::Text("array"@))
    &&& json_laws::has(e, "items"@, under(e, "items"@))
    &&& refers_to(under(e, "items"@), name)
    &&& leads(v, "properties"@, "total"@, under(under(v, "properties"@), "total"@))
    &&& json_laws::has(
        under(under(v, "properties"@), "total"@),
        "type"@,
        JsonView::Text("integer"@),
    )
}

proof fn lemma_list_schema(name: Seq<char>)
    ensures
        is_list_schema(required::completed(paths::list_schema(name)), name),
{
    lemma_words();
    reveal_strlit("entities");
    reveal_strlit("total");
    assert("entities"@.len() == 8 && "total"@.len() == 5);
    let v = paths::list_schema(name);
    let e = under(under(v, "properties"@), "entities"@);
    let t = under(under(v, "properties"@), "total"@);
    assert(is_list_schema(v, name));
    lemma_done(v, "type"@, JsonView::Text("object"@));
    lemma_leads_done(v, "properties"@, "entities"@, e);
    lemma_done(e, "type"@, JsonView::Text("array"@));
    lemma_done(e, "items"@, under(e, "items"@));
    lemma_done(under(e, "items"@), "$ref"@, JsonView::Text("#/components/schemas/"@ + name));
    lemma_leads_done(v, "properties"@, "total"@, t);
    lemma_done(t, "type"@, JsonView::Text("integer"@));
}

/// Every kind that the generic handler serves has its schemas: that of an entity,
/// that of a creation and that of a listing, each under its name, completed.  Where
/// two kinds have a name in common the later one has it.
pub proof fn law_kinds_have_their_schemas(
    base: &KeyedList<Json>,
    configs: &Vec<EntityConfig>,
    r: Json,
    k: int,
    entity: &Json,
    of_entity: Json,
    creation: &Json,
    of_creation: Json,
)
    requires
        call_ensures(paths::generate_merged_openapi, (base, configs), r),
        0 <= k < configs@.len(),
        call_ensures(schemas::generate_entity_schema_json, (&configs@[k],), *entity),
        call_ensures(required::complete, (entity,), of_entity),
        call_ensures(schemas::generate_create_schema_json, (&configs@[k],), *creation),
        call_ensures(required::complete, (creation,), of_creation),
    ensures
        ({
            let name = configs@[k].name@;
            let m = schemas_of(r.model());
            let created = "Create"@ + name + "Request"@;
            let listed = name + "ListResponse"@;
            &&& names_last(configs@, k, name) ==> m.contains_key(name) && m[name]
                == of_entity.model()
            &&& names_last(configs@, k, created) ==> m.contains_key(created) && m[created]
                == of_creation.model()
            &&& names_last(configs@, k, listed) ==> m.contains_key(listed) && is_list_schema(
                m[listed],
                name,
            )
        }),
{
    lemma_top();
    reveal_strlit("Create");
    reveal_strlit("Request");
    reveal_strlit("ListResponse");
    let b = json::members(*base);
    let components = paths::object_member(b, "components"@);
    let s0 = paths::object_member(components, "schemas"@);
    let all = paths::all_schemas(s0, configs@);
    let name = configs@[k].name@;
    let created = "Create"@ + name + "Request"@;
    let listed = name + "ListResponse"@;
    assert(created.len() == name.len() + 13 && listed.len() == name.len() + 12);
    let v = JsonView::Object(paths::merged(b, configs@));
    assert(leads(v, "components"@, "schemas"@, JsonView::Object(all)));
    lemma_leads_done(v, "components"@, "schemas"@, JsonView::Object(all));
    lemma_all_schemas(s0, configs@, k, name);
    lemma_all_schemas(s0, configs@, k, created);
    lemma_all_schemas(s0, configs@, k, listed);
    lemma_list_schema(name);
    if names_last(configs@, k, name) {
        lemma_done(JsonView::Object(all), name, entity.model());
    }
    if names_last(configs@, k, created) {
        lemma_done(JsonView::Object(all), created, creation.model());
    }
    if names_last(configs@, k, listed) {
        lemma_done(JsonView::Object(all), listed, paths::list_schema(name));
    }
}

/// No kind that the generic handler serves has a schema of the name.
pub open spec fn is_free_name(configs: Seq<EntityConfig>, key: Seq<char>) -> bool {
    forall|j: int|
        0 <= j < configs.len() && (#[trigger] configs[j]).handler@ == "generic"@ ==> !is_schema_of(
            key,
            configs[j].name@,
        )
}

proof fn lemma_free_schemas(m: Members, configs: Seq<EntityConfig>, key: Seq<char>)
    requires
        is_free_name(configs, key),
    ensures
        json::member_of(paths::all_schemas(m, configs), key) == json::member_of(m, key),
    decreases configs.len(),
{
    if configs.len() > 0 {
        let init = configs.drop_last();
        let n = configs.len() - 1;
        assert(configs.last() == configs[n]);
        assert forall|j: int|
            0 <= j < init.len() && (#[trigger] init[j]).handler@ == "generic"@ implies
            !is_schema_of(key, init[j].name@) by {
            assert(init[j] == configs[j]);
        }
        lemma_free_schemas(m, init, key);
        if configs[n].handler@ == "generic"@ {
            assert(!is_schema_of(key, configs[n].name@));
        }
    }
}

/// The components of the base description are kept, completed: the schemas whose
/// names no kind has, and everything but the schemas.
pub proof fn law_base_components_are_kept(
    base: &KeyedList<Json>,
    configs: &Vec<EntityConfig>,
    r: Json,
    key: Seq<char>,
    inner: &Json,
    of_inner: Json,
)
    requires
        call_ensures(paths::generate_merged_openapi, (base, configs), r),
        call_ensures(required::complete, (inner,), of_inner),
        json::members(*base).contains_key("components"@),
        json::members(*base)["components"@] is Object,
    ensures
        ({
            let old = json::members(*base)["components"@];
            let new = under(r.model(), "components"@);
            &&& json_laws::has(old, key, inner.model()) && key != "schemas"@ ==> json_laws::has(
                new,
                key,
                of_inner.model(),
            )
            &&& leads(old, "schemas"@, key, inner.model()) && is_free_name(configs@, key)
                ==> leads(new, "schemas"@, key, of_inner.model())
        }),
{
    lemma_top();
    let b = json::members(*base);
    let old = b["components"@];
    let v = JsonView::Object(paths::merged(b, configs@));
    let c = under(v, "components"@);
    assert(json_laws::has(v, "components"@, c));
    lemma_done(v, "components"@, c);
    if json_laws::has(old, key, inner.model()) && key != "schemas"@ {
        lemma_done(c, key, inner.model());
    }
    if leads(old, "schemas"@, key, inner.model()) && is_free_name(configs@, key) {
        lemma_free_schemas(old->Object_0["schemas"@]->Object_0, configs@, key);
        lemma_leads_done(c, "schemas"@, key, inner.model());
    }
}

} // verus!
