use fame::config::{
    authorizer_at_start, default_entity_dir, health_report, CedarConfig, CedarEnv, Config,
};
use fame::auth::config::AuthConfig;
use fame::entity_config::{CedarActions, EntityConfig, FieldConfig, FieldType, ViewConfig};
use fame::entity_handlers::routes::{
    list_entity_configs, register_entity_routes, Operation, RouteMethod,
};
use fame::hashing::{hash_text, write_hash};
use fame::json::{Json, JsonNumber};
use fame::keyed::KeyedList;
use fame::openapi_gen::paths::generate_merged_openapi;
use fame::openapi_gen::required::{complete, ensure_required_fields};
use fame::openapi_gen::schemas::{
    field_type_to_openapi, generate_create_schema_json, generate_entity_schema_json,
};
use fame::text::{decimal_text, hex_text, percent_byte, replace_char, strip_prefix, trim_end_char};
use serde_json::Value;

fn value(j: &Json) -> Value {
    match j {
        Json::Null => Value::Null,
        Json::Bool(b) => Value::Bool(*b),
        Json::Number(JsonNumber::Unsigned(n)) => Value::from(*n),
        Json::Number(JsonNumber::Signed(n)) => Value::from(*n),
        Json::Number(JsonNumber::FloatBits(b)) => Value::from(f64::from_bits(*b)),
        Json::Text(s) => Value::String(s.clone()),
        Json::List(v) => Value::Array(v.iter().map(value).collect()),
        Json::Object(o) => {
            let mut m = serde_json::Map::new();
            for i in 0..o.len() {
                m.insert(o.entry(i).0.clone(), value(&o.entry(i).1));
            }
            Value::Object(m)
        }
    }
}

fn json(v: &Value) -> Json {
    match v {
        Value::Null => Json::Null,
        Value::Bool(b) => Json::Bool(*b),
        Value::Number(n) => Json::Number(match (n.as_u64(), n.as_i64()) {
            (Some(u), _) => JsonNumber::Unsigned(u),
            (None, Some(i)) => JsonNumber::Signed(i),
            (None, None) => JsonNumber::FloatBits(n.as_f64().unwrap().to_bits()),
        }),
        Value::String(s) => Json::Text(s.clone()),
        Value::Array(a) => Json::List(a.iter().map(json).collect()),
        Value::Object(m) => Json::Object(members(m)),
    }
}

fn members(m: &serde_json::Map<String, Value>) -> KeyedList<Json> {
    let mut list = KeyedList::new();
    for (k, v) in m {
        list.insert(k.clone(), json(v));
    }
    list
}

fn parsed(source: &str) -> Value {
    serde_json::from_str(source).expect("JSON")
}

fn field(field_type: FieldType, map: Option<&str>) -> FieldConfig {
    FieldConfig {
        field_type,
        required: false,
        label: None,
        map: map.map(|m| m.to_string()),
        values: None,
        default: None,
        badge: false,
        in_views: vec!["list".to_string()],
        target_entity: None,
        relation_type: None,
    }
}

fn config(name: &str, slug: &str) -> EntityConfig {
    let mut title = field(FieldType::Text, Some("title_suffix"));
    title.required = true;
    title.label = Some("Title".to_string());
    let mut status = field(FieldType::Enum, Some("tag:status"));
    status.values = Some(vec!["a".to_string(), "b".to_string()]);
    let mut fields = KeyedList::new();
    fields.insert("title".to_string(), title);
    fields.insert("status".to_string(), status);
    fields.insert("created_at".to_string(), field(FieldType::Date, Some("created_at")));
    let mut views = KeyedList::new();
    views.insert(
        "list".to_string(),
        ViewConfig {
            layout: "card".to_string(),
            fields: vec!["title".to_string()],
            sort: None,
        },
    );
    EntityConfig {
        name: name.to_string(),
        slug: slug.to_string(),
        title_prefix: "P: ".to_string(),
        handler: "generic".to_string(),
        default_tags: KeyedList::new(),
        cedar: CedarActions::default(),
        fields,
        views,
    }
}

#[test]
fn openapi_types() {
    assert_eq!(field_type_to_openapi(&FieldType::Text), "string");
    assert_eq!(field_type_to_openapi(&FieldType::Markdown), "string");
    assert_eq!(field_type_to_openapi(&FieldType::Date), "string");
    assert_eq!(field_type_to_openapi(&FieldType::Enum), "string");
    assert_eq!(field_type_to_openapi(&FieldType::TagArray), "array");
    assert_eq!(field_type_to_openapi(&FieldType::Relation), "string");
    assert_eq!(field_type_to_openapi(&FieldType::Metadata), "object");
}

#[test]
fn entity_schema() {
    assert_eq!(
        value(&generate_entity_schema_json(&config("Doc", "doc"))),
        parsed(
            r#"{"type": "object",
                "properties": {
                    "id": {"type": "string"},
                    "title": {"type": "string", "description": "Title"},
                    "status": {"type": "string", "enum": ["a", "b"]},
                    "created_at": {"type": "string"},
                    "updated_at": {"type": "string", "format": "date-time"}},
                "required": ["title", "id"]}"#
        )
    );
}

#[test]
fn create_schema() {
    assert_eq!(
        value(&generate_create_schema_json(&config("Doc", "doc"))),
        parsed(
            r#"{"type": "object",
                "properties": {
                    "title": {"type": "string"},
                    "status": {"type": "string", "enum": ["a", "b"]}},
                "required": ["title"]}"#
        )
    );
}

#[test]
fn required_is_completed() {
    let source = parsed(
        r#"{"a": {"type": "object"}, "b": {"properties": {}}, "c": [{"in": "query"}],
            "d": {"in": "path", "required": true}, "e": {"type": "object", "in": "x"},
            "f": {"type": "string"}, "g": {"type": "object", "required": ["x"]}, "h": 1}"#,
    );
    let expected = parsed(
        r#"{"a": {"type": "object", "required": []}, "b": {"properties": {}, "required": []},
            "c": [{"in": "query", "required": false}], "d": {"in": "path", "required": true},
            "e": {"type": "object", "in": "x", "required": []},
            "f": {"type": "string"}, "g": {"type": "object", "required": ["x"]}, "h": 1}"#,
    );
    let done = complete(&json(&source));
    assert_eq!(value(&done), expected);
    assert_eq!(value(&complete(&done)), expected);
    let mut spec = json(&source);
    ensure_required_fields(&mut spec);
    assert_eq!(value(&spec), expected);
}

#[test]
fn merged_description() {
    let base = parsed(
        r#"{"openapi": "3.1.0", "paths": {"/health": {"get": {}}}, "components": {"x": 1}}"#,
    );
    let mut other = config("Other", "other");
    other.handler = "custom".to_string();
    let configs = vec![config("Doc", "doc"), other, config("Agent", "agent-identity")];
    let spec = value(&generate_merged_openapi(
        &members(base.as_object().unwrap()),
        &configs,
    ));
    assert_eq!(spec["openapi"], "3.1.0");
    let paths: Vec<&str> = spec["paths"]
        .as_object()
        .unwrap()
        .keys()
        .map(|k| k.as_str())
        .collect();
    let mut expected = vec![
        "/health",
        "/api/v1/docs",
        "/api/v1/docs/{id}",
        "/api/v1/docs/{id}/status",
        "/api/v1/agent-identitys",
        "/api/v1/agent-identitys/{id}",
        "/api/v1/agent-identitys/{id}/content",
        "/api/v1/agent-identitys/{id}/status",
    ];
    expected.sort();
    let mut sorted = paths.clone();
    sorted.sort();
    assert_eq!(sorted, expected);
    let list = &spec["paths"]["/api/v1/docs"]["get"];
    assert_eq!(list["operationId"], "list_docs");
    assert_eq!(
        list["parameters"][0]["schema"],
        parsed(r#"{"type": "string", "enum": ["a", "b"]}"#)
    );
    assert_eq!(list["parameters"][1]["name"], "attached_to");
    assert_eq!(list["responses"]["200"]["description"], "List of docs");
    let create = &spec["paths"]["/api/v1/docs"]["post"];
    assert_eq!(
        create["requestBody"]["content"]["application/json"]["schema"]["$ref"],
        "#/components/schemas/CreateDocRequest"
    );
    assert_eq!(create["responses"]["201"]["description"], "Doc created");
    assert_eq!(
        spec["paths"]["/api/v1/docs/{id}"]["get"]["operationId"],
        "get_doc"
    );
    let content = &spec["paths"]["/api/v1/agent-identitys/{id}/content"]["patch"];
    assert_eq!(content["operationId"], "update_agent-identity_content");
    assert_eq!(content["parameters"][1]["name"], "X-Instance-Id");
    // Inline schemas without `required` are completed.
    assert_eq!(
        content["responses"]["200"]["content"]["application/json"]["schema"]["required"],
        parsed("[]")
    );
    assert_eq!(
        spec["paths"]["/api/v1/docs/{id}/status"]["patch"]["requestBody"]["content"]
            ["application/json"]["schema"]["required"],
        parsed(r#"["status"]"#)
    );
    let schemas = spec["components"]["schemas"].as_object().unwrap();
    let mut names: Vec<&str> = schemas.keys().map(|k| k.as_str()).collect();
    names.sort();
    assert_eq!(
        names,
        vec![
            "Agent",
            "AgentListResponse",
            "CreateAgentRequest",
            "CreateDocRequest",
            "Doc",
            "DocListResponse"
        ]
    );
    assert_eq!(
        schemas["DocListResponse"],
        parsed(
            r##"{"type": "object",
                "properties": {
                    "entities": {"type": "array", "items": {"$ref": "#/components/schemas/Doc"}},
                    "total": {"type": "integer"}},
                "required": ["entities", "total"]}"##
        )
    );
    assert_eq!(spec["components"]["x"], 1);
}

#[test]
fn description_is_accepted_by_its_readers() {
    let configs = vec![config("Doc", "doc")];
    let base = parsed(
        r#"{"openapi": "3.1.0", "info": {"title": "Fame", "version": "1"}, "paths": {}}"#,
    );
    let spec = value(&generate_merged_openapi(
        &members(base.as_object().unwrap()),
        &configs,
    ));
    let read: Result<utoipa::openapi::OpenApi, serde_json::Error> = serde_json::from_value(spec);
    let read = read.expect("the description is read");
    assert!(read.paths.paths.contains_key("/api/v1/docs/{id}"));
}

#[test]
fn routes() {
    let mut other = config("Other", "other");
    other.handler = "custom".to_string();
    let configs = vec![config("Doc", "doc"), other, config("Agent", "agent-identity")];
    let routes = register_entity_routes(&configs);
    let lines: Vec<(RouteMethod, &str, Operation)> = routes
        .iter()
        .map(|r| (r.method, r.path.as_str(), r.operation))
        .collect();
    assert_eq!(
        lines,
        vec![
            (RouteMethod::Get, "/api/v1/docs", Operation::List),
            (RouteMethod::Post, "/api/v1/docs", Operation::Create),
            (RouteMethod::Get, "/api/v1/docs/{id}", Operation::Read),
            (RouteMethod::Patch, "/api/v1/docs/{id}/status", Operation::UpdateStatus),
            (RouteMethod::Get, "/api/v1/agent-identitys", Operation::List),
            (RouteMethod::Post, "/api/v1/agent-identitys", Operation::Create),
            (RouteMethod::Get, "/api/v1/agent-identitys/{id}", Operation::Read),
            (
                RouteMethod::Patch,
                "/api/v1/agent-identitys/{id}/content",
                Operation::UpdateContent
            ),
            (
                RouteMethod::Patch,
                "/api/v1/agent-identitys/{id}/status",
                Operation::UpdateStatus
            ),
        ]
    );
    assert!(routes.iter().all(|r| r.slug == "doc" || r.slug == "agent-identity"));
}

#[test]
fn discovery() {
    let shown = value(&list_entity_configs(&vec![config("Doc", "doc")]));
    assert_eq!(
        shown,
        parsed(
            r#"{"entities": [{"name": "Doc", "slug": "doc", "title_prefix": "P: ",
                "fields": [
                    {"name": "title", "type": "text", "required": true, "label": "Title",
                     "values": null, "badge": false, "in_views": ["list"]},
                    {"name": "status", "type": "enum", "required": false, "label": null,
                     "values": ["a", "b"], "badge": false, "in_views": ["list"]},
                    {"name": "created_at", "type": "date", "required": false, "label": null,
                     "values": null, "badge": false, "in_views": ["list"]}],
                "views": [{"layout": "card", "fields": ["title"]}]}], "total": 1}"#
        )
    );
    let mut c = config("Doc", "doc");
    let mut fields = KeyedList::new();
    for (name, t) in [
        ("markdown", FieldType::Markdown),
        ("tagarray", FieldType::TagArray),
        ("relation", FieldType::Relation),
        ("metadata", FieldType::Metadata),
    ] {
        fields.insert(name.to_string(), field(t, None));
    }
    c.fields = fields;
    let shown = value(&list_entity_configs(&vec![c]));
    for f in shown["entities"][0]["fields"].as_array().unwrap() {
        assert_eq!(f["name"], f["type"]);
    }
}

#[test]
fn hashes() {
    assert_eq!(
        hash_text(""),
        "sha256:e3b0c44298fc1c149afbf4c8996fb92427ae41e4649b934ca495991b7852b855"
    );
    assert_eq!(
        hash_text("abc"),
        "sha256:ba7816bf8f01cfea414140de5dae2223b00361a396177a9cb410ff61f20015ad"
    );
    assert_ne!(hash_text("é"), hash_text("e"));
    assert_eq!(write_hash(&vec![0, 15, 16, 255]), "sha256:000f10ff");
}

#[test]
fn texts() {
    assert_eq!(decimal_text(0), "0");
    assert_eq!(decimal_text(i64::MIN), "-9223372036854775808");
    assert_eq!(decimal_text(i64::MAX), "9223372036854775807");
    assert_eq!(hex_text(&vec![171, 0]), "ab00");
    assert_eq!(percent_byte(175), "%AF");
    assert_eq!(replace_char("a b  c", ' ', '+'), "a+b++c");
    assert_eq!(strip_prefix("tag:x", "tag:"), Some("x"));
    assert_eq!(strip_prefix("ta", "tag:"), None);
    assert_eq!(trim_end_char("a/b//", '/'), "a/b");
}

#[test]
fn tables_keep_one_value_per_name() {
    let mut t: KeyedList<u32> = KeyedList::new();
    t.insert("a".to_string(), 1);
    t.insert("b".to_string(), 2);
    t.insert("a".to_string(), 3);
    assert_eq!(t.len(), 2);
    assert_eq!(t.get("a"), Some(&3));
    assert_eq!(t.entry(0).0, "a");
    assert!(t.contains_key("b"));
    assert!(!t.contains_key("c"));
}

fn no_env() -> CedarEnv {
    CedarEnv {
        enabled: None,
        policy_path: None,
        schema_path: None,
        validate_on_load: None,
        policy_store_url: None,
        policy_store_token: None,
    }
}

#[test]
fn cedar_configuration() {
    let c = CedarConfig::from_env(&no_env());
    assert!(c.enabled);
    assert_eq!(c.policy_path, "./policies");
    assert_eq!(c.schema_path, "./policies/schema.cedarschema");
    assert!(c.validate_on_load);
    assert_eq!(c.policy_store_url, None);
    let mut env = no_env();
    env.enabled = Some("false".to_string());
    env.validate_on_load = Some("no".to_string());
    env.policy_path = Some("/p".to_string());
    env.schema_path = Some("/s".to_string());
    env.policy_store_url = Some("u".to_string());
    env.policy_store_token = Some("t".to_string());
    let c = CedarConfig::from_env(&env);
    assert!(!c.enabled);
    assert!(c.validate_on_load);
    assert_eq!(c.policy_path, "/p");
    assert_eq!(c.schema_path, "/s");
    assert_eq!(c.policy_store_url.as_deref(), Some("u"));
    assert_eq!(c.policy_store_token.as_deref(), Some("t"));
}

#[test]
fn start_of_the_server() {
    assert_eq!(authorizer_at_start::<u32>(false, None), Ok(None));
    assert_eq!(authorizer_at_start(true, Some(Ok(1))), Ok(Some(1)));
    assert_eq!(
        authorizer_at_start::<u32>(true, Some(Err("no schema".to_string()))),
        Err("Failed to init Cedar: no schema".to_string())
    );
    assert!(authorizer_at_start::<u32>(true, None).is_err());
    let c = Config {
        host: "0.0.0.0".to_string(),
        port: 8628,
        pdt_url: "http://localhost:8090".to_string(),
        entity_dir: default_entity_dir(),
        auth: AuthConfig::default(),
        cedar: CedarConfig::from_env(&no_env()),
    };
    assert_eq!(c.address(), "0.0.0.0:8628");
    assert_eq!(c.entity_dir_or(None), "entities");
    assert_eq!(c.entity_dir_or(Some("/e")), "/e");
}

#[test]
fn health() {
    assert_eq!(
        value(&health_report("0.3.9")),
        parsed(r#"{"status": "OK", "service": "fame", "version": "0.3.9"}"#)
    );
}
