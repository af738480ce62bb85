//! The paths of a kind of entity, and the whole API description.
use crate::entity_config::EntityConfig;
use crate::json::{self, copy_members, empty_object, member, put, text, texts, Json, JsonView, Members};
use crate::keyed::KeyedList;
use crate::objects::{self, make_obj1, make_obj2, make_obj3, make_obj4, make_obj5};
use crate::openapi_gen::required::{self, ensure_required_fields};
use crate::openapi_gen::schemas::{
    self, generate_create_schema_json, generate_entity_schema_json,
};
use crate::text::{self, join2, join3, same};
use vstd::prelude::*;

verus! {

/// The schema of a text.
pub open spec fn string_schema() -> JsonView {
    objects::obj1("type"@, objects::txt("string"@))
}

fn write_string_schema() -> (r: Json)
    ensures
        r.model() == string_schema(),
{
    make_obj1("type", text("string"))
}

/// A reference to a schema.
pub open spec fn schema_ref(name: Seq<char>) -> JsonView {
    objects::obj1("$ref"@, objects::txt("#/components/schemas/"@ + name))
}

fn write_schema_ref(name: &str) -> (r: Json)
    ensures
        r.model() == schema_ref(name@),
{
    make_obj1("$ref", text(join2("#/components/schemas/", name).as_str()))
}

/// A JSON content of a schema.
pub open spec fn json_content(schema: JsonView) -> JsonView {
    objects::obj1("application/json"@, objects::obj1("schema"@, schema))
}

fn write_json_content(schema: Json) -> (r: Json)
    ensures
        r.model() == json_content(schema.model()),
{
    make_obj1("application/json", make_obj1("schema", schema))
}

/// A request body of a schema.
pub open spec fn request_body(schema: JsonView) -> JsonView {
    objects::obj1("content"@, json_content(schema))
}

fn write_request_body(schema: Json) -> (r: Json)
    ensures
        r.model() == request_body(schema.model()),
{
    make_obj1("content", write_json_content(schema))
}

/// A response of a schema.
pub open spec fn response(description: Seq<char>, schema: JsonView) -> JsonView {
    objects::obj2("description"@, objects::txt(description), "content"@, json_content(schema))
}

fn write_response(description: &str, schema: Json) -> (r: Json)
    ensures
        r.model() == response(description@, schema.model()),
{
    make_obj2("description", text(description), "content", write_json_content(schema))
}

/// A response without a content.
pub open spec fn bare_response(description: Seq<char>) -> JsonView {
    objects::obj1("description"@, objects::txt(description))
}

fn write_bare_response(description: &str) -> (r: Json)
    ensures
        r.model() == bare_response(description@),
{
    make_obj1("description", text(description))
}

/// The tags of an operation.
pub open spec fn entity_tags() -> JsonView {
    JsonView::List(seq![objects::txt("entities"@)])
}

fn write_list1(a: Json) -> (r: Json)
    ensures
        r.model() == JsonView::List(seq![a.model()]),
{
    let mut list: Vec<Json> = Vec::new();
    list.push(a);
    let r = Json::List(list);
    assert(r.model()->List_0 =~= seq![a.model()]);
    r
}

fn write_list2(a: Json, b: Json) -> (r: Json)
    ensures
        r.model() == JsonView::List(seq![a.model(), b.model()]),
{
    let mut list: Vec<Json> = Vec::new();
    list.push(a);
    list.push(b);
    let r = Json::List(list);
    assert(r.model()->List_0 =~= seq![a.model(), b.model()]);
    r
}

/// The parameter that names an entity.
pub open spec fn id_parameter() -> JsonView {
    objects::obj4(
        "name"@,
        objects::txt("id"@),
        "in"@,
        objects::txt("path"@),
        "required"@,
        JsonView::Bool(true),
        "schema"@,
        string_schema(),
    )
}

fn write_id_parameter() -> (r: Json)
    ensures
        r.model() == id_parameter(),
{
    make_obj4(
        "name",
        text("id"),
        "in",
        text("path"),
        "required",
        Json::Bool(true),
        "schema",
        write_string_schema(),
    )
}

/// A parameter that narrows a listing.
pub open spec fn query_parameter(
    name: Seq<char>,
    schema: JsonView,
    description: Seq<char>,
) -> JsonView {
    objects::obj5(
        "name"@,
        objects::txt(name),
        "in"@,
        objects::txt("query"@),
        "required"@,
        JsonView::Bool(false),
        "schema"@,
        schema,
        "description"@,
        objects::txt(description),
    )
}

fn write_query_parameter(name: &str, schema: Json, description: &str) -> (r: Json)
    ensures
        r.model() == query_parameter(name@, schema.model(), description@),
{
    make_obj5(
        "name",
        text(name),
        "in",
        text("query"),
        "required",
        Json::Bool(false),
        "schema",
        schema,
        "description",
        text(description),
    )
}

/// The schema of a status, with the values it may have where they are restricted.
pub open spec fn status_schema(config: EntityConfig) -> JsonView {
    match config.allowed_statuses() {
        Some(values) => objects::obj2(
            "type"@,
            objects::txt("string"@),
            "enum"@,
            json::text_list(values),
        ),
        None => string_schema(),
    }
}

fn write_status_schema(config: &EntityConfig) -> (r: Json)
    ensures
        r.model() == status_schema(*config),
{
    match config.get_field("status") {
        Some(f) => match &f.values {
            Some(values) => {
                proof {
                    text::lemma_views(*values);
                }
                make_obj2("type", text("string"), "enum", texts(values))
            },
            None => write_string_schema(),
        },
        None => write_string_schema(),
    }
}

/// The listing of a kind.
pub open spec fn list_operation(config: EntityConfig) -> JsonView {
    objects::obj4(
        "operationId"@,
        objects::txt("list_"@ + (config.slug@ + "s"@)),
        "tags"@,
        entity_tags(),
        "parameters"@,
        JsonView::List(
            seq![
                query_parameter("status"@, status_schema(config), "Filter by status"@),
                query_parameter(
                    "attached_to"@,
                    string_schema(),
                    "Filter by relation target (e.g. project ID)"@,
                ),
            ],
        ),
        "responses"@,
        objects::obj1(
            "200"@,
            response(
                "List of "@ + config.slug@ + "s"@,
                schema_ref(config.name@ + "ListResponse"@),
            ),
        ),
    )
}

fn write_list_operation(config: &EntityConfig) -> (r: Json)
    ensures
        r.model() == list_operation(*config),
{
    let plural = join2(config.slug.as_str(), "s");
    let parameters = write_list2(
        write_query_parameter("status", write_status_schema(config), "Filter by status"),
        write_query_parameter(
            "attached_to",
            write_string_schema(),
            "Filter by relation target (e.g. project ID)",
        ),
    );
    let answer = write_response(
        join3("List of ", config.slug.as_str(), "s").as_str(),
        write_schema_ref(join2(config.name.as_str(), "ListResponse").as_str()),
    );
    make_obj4(
        "operationId",
        text(join2("list_", plural.as_str()).as_str()),
        "tags",
        write_list1(text("entities")),
        "parameters",
        parameters,
        "responses",
        make_obj1("200", answer),
    )
}

/// The creation of an entity of a kind.
pub open spec fn create_operation(config: EntityConfig) -> JsonView {
    objects::obj4(
        "operationId"@,
        objects::txt("create_"@ + config.slug@),
        "tags"@,
        entity_tags(),
        "requestBody"@,
        request_body(schema_ref("Create"@ + config.name@ + "Request"@)),
        "responses"@,
        objects::obj1(
            "201"@,
            response(config.name@ + " created"@, schema_ref(config.name@)),
        ),
    )
}

fn write_create_operation(config: &EntityConfig) -> (r: Json)
    ensures
        r.model() == create_operation(*config),
{
    let answer = write_response(
        join2(config.name.as_str(), " created").as_str(),
        write_schema_ref(config.name.as_str()),
    );
    make_obj4(
        "operationId",
        text(join2("create_", config.slug.as_str()).as_str()),
        "tags",
        write_list1(text("entities")),
        "requestBody",
        write_request_body(
            write_schema_ref(join3("Create", config.name.as_str(), "Request").as_str()),
        ),
        "responses",
        make_obj1("201", answer),
    )
}

/// The reading of an entity of a kind.
pub open spec fn get_operation(config: EntityConfig) -> JsonView {
    objects::obj4(
        "operationId"@,
        objects::txt("get_"@ + config.slug@),
        "tags"@,
        entity_tags(),
        "parameters"@,
        JsonView::List(seq![id_parameter()]),
        "responses"@,
        objects::obj1(
            "200"@,
            response(config.name@ + " details"@, schema_ref(config.name@)),
        ),
    )
}

fn write_get_operation(config: &EntityConfig) -> (r: Json)
    ensures
        r.model() == get_operation(*config),
{
    let answer = write_response(
        join2(config.name.as_str(), " details").as_str(),
        write_schema_ref(config.name.as_str()),
    );
    make_obj4(
        "operationId",
        text(join2("get_", config.slug.as_str()).as_str()),
        "tags",
        write_list1(text("entities")),
        "parameters",
        write_list1(write_id_parameter()),
        "responses",
        make_obj1("200", answer),
    )
}

/// The schema of a body with one required text.
pub open spec fn one_text_schema(name: Seq<char>, schema: JsonView) -> JsonView {
    objects::obj3(
        "type"@,
        objects::txt("object"@),
        "properties"@,
        objects::obj1(name, schema),
        "required"@,
        JsonView::List(seq![objects::txt(name)]),
    )
}

fn write_one_text_schema(name: &str, schema: Json) -> (r: Json)
    ensures
        r.model() == one_text_schema(name@, schema.model()),
{
    make_obj3(
        "type",
        text("object"),
        "properties",
        make_obj1(name, schema),
        "required",
        write_list1(text(name)),
    )
}

/// The change of an entity's status.
pub open spec fn status_operation(config: EntityConfig) -> JsonView {
    objects::obj5(
        "operationId"@,
        objects::txt("update_"@ + config.slug@ + "_status"@),
        "tags"@,
        entity_tags(),
        "parameters"@,
        JsonView::List(seq![id_parameter()]),
        "requestBody"@,
        request_body(one_text_schema("status"@, string_schema())),
        "responses"@,
        objects::obj1("200"@, response("Status updated"@, schema_ref(config.name@))),
    )
}

fn write_status_operation(config: &EntityConfig) -> (r: Json)
    ensures
        r.model() == status_operation(*config),
{
    make_obj5(
        "operationId",
        text(join3("update_", config.slug.as_str(), "_status").as_str()),
        "tags",
        write_list1(text("entities")),
        "parameters",
        write_list1(write_id_parameter()),
        "requestBody",
        write_request_body(write_one_text_schema("status", write_string_schema())),
        "responses",
        make_obj1(
            "200",
            write_response("Status updated", write_schema_ref(config.name.as_str())),
        ),
    )
}

/// The parameter that names the instance of an agent identity.
pub open spec fn instance_parameter() -> JsonView {
    objects::obj5(
        "name"@,
        objects::txt("X-Instance-Id"@),
        "in"@,
        objects::txt("header"@),
        "required"@,
        JsonView::Bool(true),
        "schema"@,
        string_schema(),
        "description"@,
        objects::txt(
            "Agent asset ID — identity content is instance-scoped (agent nested DB)"@,
        ),
    )
}

fn write_instance_parameter() -> (r: Json)
    ensures
        r.model() == instance_parameter(),
{
    make_obj5(
        "name",
        text("X-Instance-Id"),
        "in",
        text("header"),
        "required",
        Json::Bool(true),
        "schema",
        write_string_schema(),
        "description",
        text("Agent asset ID — identity content is instance-scoped (agent nested DB)"),
    )
}

/// The schema of the hashes that a content change answers with.
pub open spec fn hash_echo_schema() -> JsonView {
    objects::obj2(
        "type"@,
        objects::txt("object"@),
        "properties"@,
        objects::obj1(
            "content_hash"@,
            objects::obj2(
                "type"@,
                objects::txt("object"@),
                "properties"@,
                objects::obj2(
                    "old"@,
                    objects::obj1(
                        "type"@,
                        JsonView::List(seq![objects::txt("string"@), objects::txt("null"@)]),
                    ),
                    "new"@,
                    string_schema(),
                ),
            ),
        ),
    )
}

fn write_hash_echo_schema() -> (r: Json)
    ensures
        r.model() == hash_echo_schema(),
{
    let hashes = make_obj2(
        "old",
        make_obj1("type", write_list2(text("string"), text("null"))),
        "new",
        write_string_schema(),
    );
    let echo = make_obj2("type", text("object"), "properties", hashes);
    make_obj2("type", text("object"), "properties", make_obj1("content_hash", echo))
}

/// The change of an agent identity's content.
pub open spec fn content_operation(config: EntityConfig) -> JsonView {
    objects::obj5(
        "operationId"@,
        objects::txt("update_"@ + config.slug@ + "_content"@),
        "tags"@,
        entity_tags(),
        "parameters"@,
        JsonView::List(seq![id_parameter(), instance_parameter()]),
        "requestBody"@,
        request_body(
            one_text_schema(
                "content"@,
                objects::obj2(
                    "type"@,
                    objects::txt("string"@),
                    "description"@,
                    objects::txt(
                        "New identity content (empty string = explicit wipe, logged)"@,
                    ),
                ),
            ),
        ),
        "responses"@,
        objects::obj4(
            "200"@,
            response(
                "Content updated in place (entity + old→new sha256 echo)"@,
                hash_echo_schema(),
            ),
            "400"@,
            bare_response("Missing X-Instance-Id or content field"@),
            "403"@,
            bare_response("Cedar deny — principal outside the stored admin_group"@),
            "404"@,
            bare_response("Identity not found (never create-on-miss)"@),
        ),
    )
}

fn write_content_operation(config: &EntityConfig) -> (r: Json)
    ensures
        r.model() == content_operation(*config),
{
    let content = make_obj2(
        "type",
        text("string"),
        "description",
        text("New identity content (empty string = explicit wipe, logged)"),
    );
    let responses = make_obj4(
        "200",
        write_response(
            "Content updated in place (entity + old→new sha256 echo)",
            write_hash_echo_schema(),
        ),
        "400",
        write_bare_response("Missing X-Instance-Id or content field"),
        "403",
        write_bare_response("Cedar deny — principal outside the stored admin_group"),
        "404",
        write_bare_response("Identity not found (never create-on-miss)"),
    );
    make_obj5(
        "operationId",
        text(join3("update_", config.slug.as_str(), "_content").as_str()),
        "tags",
        write_list1(text("entities")),
        "parameters",
        write_list2(write_id_parameter(), write_instance_parameter()),
        "requestBody",
        write_request_body(write_one_text_schema("content", content)),
        "responses",
        responses,
    )
}

/// Where the entities of a kind are.
pub open spec fn base_path(slug: Seq<char>) -> Seq<char> {
    "/api/v1/"@ + slug + "s"@
}

/// The paths, with those of a kind.
pub open spec fn with_paths(paths: Members, config: EntityConfig) -> Members {
    let base = base_path(config.slug@);
    let m = paths.insert(
        base,
        objects::obj2(
            "get"@,
            list_operation(config),
            "post"@,
            create_operation(config),
        ),
    ).insert(base + "/{id}"@, objects::obj1("get"@, get_operation(config)));
    let m = if config.slug@ == "agent-identity"@ {
        m.insert(
            base + "/{id}/content"@,
            objects::obj1("patch"@, content_operation(config)),
        )
    } else {
        m
    };
    m.insert(base + "/{id}/status"@, objects::obj1("patch"@, status_operation(config)))
}

fn put_paths(paths: &mut KeyedList<Json>, config: &EntityConfig)
    ensures
        json::members(*final(paths)) == with_paths(json::members(*old(paths)), *config),
{
    let base = join3("/api/v1/", config.slug.as_str(), "s");
    put(
        paths,
        base.clone(),
        make_obj2(
            "get",
            write_list_operation(config),
            "post",
            write_create_operation(config),
        ),
    );
    put(
        paths,
        join2(base.as_str(), "/{id}"),
        make_obj1("get", write_get_operation(config)),
    );
    if same(config.slug.as_str(), "agent-identity") {
        put(
            paths,
            join2(base.as_str(), "/{id}/content"),
            make_obj1("patch", write_content_operation(config)),
        );
    }
    put(
        paths,
        join2(base.as_str(), "/{id}/status"),
        make_obj1("patch", write_status_operation(config)),
    );
}

/// The schema of a listing.
pub open spec fn list_schema(name: Seq<char>) -> JsonView {
    objects::obj3(
        "type"@,
        objects::txt("object"@),
        "properties"@,
        objects::obj2(
            "entities"@,
            objects::obj2("type"@, objects::txt("array"@), "items"@, schema_ref(name)),
            "total"@,
            objects::obj1("type"@, objects::txt("integer"@)),
        ),
        "required"@,
        JsonView::List(seq![objects::txt("entities"@), objects::txt("total"@)]),
    )
}

fn write_list_schema(name: &str) -> (r: Json)
    ensures
        r.model() == list_schema(name@),
{
    let entities = make_obj2("type", text("array"), "items", write_schema_ref(name));
    let total = make_obj1("type", text("integer"));
    make_obj3(
        "type",
        text("object"),
        "properties",
        make_obj2("entities", entities, "total", total),
        "required",
        write_list2(text("entities"), text("total")),
    )
}

/// The schemas, with those of a kind.
pub open spec fn with_schemas(schemas: Members, config: EntityConfig) -> Members {
    schemas.insert(config.name@, schemas::entity_schema(config)).insert(
        "Create"@ + config.name@ + "Request"@,
        schemas::create_schema(config),
    ).insert(config.name@ + "ListResponse"@, list_schema(config.name@))
}

fn put_schemas(schemas: &mut KeyedList<Json>, config: &EntityConfig)
    ensures
        json::members(*final(schemas)) == with_schemas(json::members(*old(schemas)), *config),
{
    put(schemas, config.name.clone(), generate_entity_schema_json(config));
    put(
        schemas,
        join3("Create", config.name.as_str(), "Request"),
        generate_create_schema_json(config),
    );
    put(
        schemas,
        join2(config.name.as_str(), "ListResponse"),
        write_list_schema(config.name.as_str()),
    );
}

/// The paths of all kinds that are served by the generic handler, in order.
pub open spec fn all_paths(paths: Members, configs: Seq<EntityConfig>) -> Members
    decreases configs.len(),
{
    if configs.len() == 0 {
        paths
    } else {
        let init = all_paths(paths, configs.drop_last());
        if configs.last().handler@ == "generic"@ {
            with_paths(init, configs.last())
        } else {
            init
        }
    }
}

/// The schemas of all kinds that are served by the generic handler, in order.
pub open spec fn all_schemas(schemas: Members, configs: Seq<EntityConfig>) -> Members
    decreases configs.len(),
{
    if configs.len() == 0 {
        schemas
    } else {
        let init = all_schemas(schemas, configs.drop_last());
        if configs.last().handler@ == "generic"@ {
            with_schemas(init, configs.last())
        } else {
            init
        }
    }
}

/// The members of a member that is an object.
pub open spec fn object_member(m: Members, key: Seq<char>) -> Members {
    match json::member_of(m, key) {
        Some(JsonView::Object(inner)) => inner,
        _ => Map::empty(),
    }
}

fn take_object_member(object: &KeyedList<Json>, key: &str) -> (r: KeyedList<Json>)
    ensures
        json::members(r) == object_member(json::members(*object), key@),
{
    match member(object, key) {
        Some(Json::Object(inner)) => copy_members(inner),
        _ => empty_object(),
    }
}

/// The API description with all kinds, before it is completed.
pub open spec fn merged(base: Members, configs: Seq<EntityConfig>) -> Members {
    let components = object_member(base, "components"@);
    base.insert(
        "paths"@,
        JsonView::Object(all_paths(object_member(base, "paths"@), configs)),
    ).insert(
        "components"@,
        JsonView::Object(
            components.insert(
                "schemas"@,
                JsonView::Object(all_schemas(object_member(components, "schemas"@), configs)),
            ),
        ),
    )
}

/// The API description of the server: the base description, with the paths and
/// the schemas of every kind that the generic handler serves.
pub fn generate_merged_openapi(base: &KeyedList<Json>, configs: &Vec<EntityConfig>) -> (r: Json)
    ensures
        r.model() == required::completed(
            JsonView::Object(merged(json::members(*base), configs@)),
        ),
{
    let ghost all = configs@;
    let mut paths = take_object_member(base, "paths");
    let mut components = take_object_member(base, "components");
    let mut schemas = take_object_member(&components, "schemas");
    let ghost paths0 = json::members(paths);
    let ghost schemas0 = json::members(schemas);
    let mut i: usize = 0;
    while i < configs.len()
        invariant
            i <= configs.len(),
            all == configs@,
            json::members(paths) == all_paths(paths0, all.take(i as int)),
            json::members(schemas) == all_schemas(schemas0, all.take(i as int)),
        decreases configs.len() - i,
    {
        let config = &configs[i];
        proof {
            assert(all.take(i + 1).drop_last() =~= all.take(i as int));
            assert(all.take(i + 1).last() == *config);
        }
        if same(config.handler.as_str(), "generic") {
            put_schemas(&mut schemas, config);
            put_paths(&mut paths, config);
        }
        i = i + 1;
    }
    assert(all.take(all.len() as int) =~= all);
    put(&mut components, "schemas".to_owned(), Json::Object(schemas));
    let mut spec = copy_members(base);
    put(&mut spec, "paths".to_owned(), Json::Object(paths));
    put(&mut spec, "components".to_owned(), Json::Object(components));
    let mut spec = Json::Object(spec);
    ensure_required_fields(&mut spec);
    spec
}

} // verus!
