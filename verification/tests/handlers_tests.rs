use fame::api::ApiError;
use fame::auth::extractor::{AuthenticatedUser, WorkspaceAdmins};
use fame::entity_config::{CedarActions, EntityConfig, FieldConfig, FieldType};
use fame::entity_handlers::create::{
    authorize, create_entity_finish, create_entity_followups, create_entity_start,
    create_entity_store, next_parent_lookup, new_asset, plan_entity, CreatePlan,
};
use fame::entity_handlers::listing::{
    candidate, get_entity, get_entity_checked, get_entity_config, get_entity_start, list_entities,
    list_entities_start, list_relation_requests, read_query, relation_requests,
    text_before, ListEntitiesQuery,
};
use fame::entity_handlers::mapping::{
    extract_field_value, extract_field_value_compact, map_asset_to_entity,
    map_asset_to_entity_with_relations, map_compact_to_entity,
};
use fame::entity_handlers::update::{
    check_content, check_status, update_status_decide, update_status_finish, update_status_read,
    update_status_start,
};
use fame::json::{text, Json, JsonNumber};
use fame::keyed::KeyedList;
use fame::pdt::client::{Method, PdtClient, PdtRequest};
use fame::pdt::types::{
    AuthContext, PdtAsset, PdtRelation, PdtSearchResult, PdtTag, PdtTagSummary,
};
use serde_json::Value;

fn value(j: &Json) -> Value {
    match j {
        Json::Null => Value::Null,
        Json::Bool(b) => Value::Bool(*b),
        Json::Number(JsonNumber::Unsigned(n)) => Value::from(*n),
        Json::Number(JsonNumber::Signed(n)) => Value::from(*n),
        Json::Number(JsonNumber::FloatBits(b)) => Value::from(f64::from_bits(*b)),
        Json::Text(s) => Value::String(s.clone()),
        Json::List(v) => Value::Array(v.iter().map(value).collect()),
        Json::Object(o) => {
            let mut m = serde_json::Map::new();
            for i in 0..o.len() {
                m.insert(o.entry(i).0.clone(), value(&o.entry(i).1));
            }
            Value::Object(m)
        }
    }
}

fn parsed(source: &str) -> Value {
    serde_json::from_str(source).expect("JSON")
}

fn object(members: &[(&str, Json)]) -> Json {
    let mut o = KeyedList::new();
    for (k, v) in members {
        o.insert(k.to_string(), v.clone());
    }
    Json::Object(o)
}

fn field(field_type: FieldType, map: Option<&str>) -> FieldConfig {
    FieldConfig {
        field_type,
        required: false,
        label: None,
        map: map.map(|m| m.to_string()),
        values: None,
        default: None,
        badge: false,
        in_views: Vec::new(),
        target_entity: None,
        relation_type: None,
    }
}

fn config(slug: &str, tags: &[(&str, &str)], fields: Vec<(&str, FieldConfig)>) -> EntityConfig {
    let mut default_tags = KeyedList::new();
    for (c, v) in tags {
        default_tags.insert(c.to_string(), v.to_string());
    }
    let mut table = KeyedList::new();
    for (n, f) in fields {
        table.insert(n.to_string(), f);
    }
    EntityConfig {
        name: "Memory".to_string(),
        slug: slug.to_string(),
        title_prefix: "Memory: ".to_string(),
        handler: "generic".to_string(),
        default_tags,
        cedar: CedarActions::default(),
        fields: table,
        views: KeyedList::new(),
    }
}

fn memory() -> EntityConfig {
    let mut title = field(FieldType::Text, Some("title_suffix"));
    title.required = true;
    let mut kind = field(FieldType::Enum, Some("tag:outcome"));
    kind.default = Some("unknown".to_string());
    config(
        "semantic-memory",
        &[("type", "agent-memory"), ("memory-type", "semantic")],
        vec![
            ("title", title),
            ("content", field(FieldType::Markdown, Some("content"))),
            ("outcome", kind),
            ("source", field(FieldType::Metadata, Some("metadata:source"))),
            ("status", field(FieldType::Enum, Some("tag:status"))),
            ("created_at", field(FieldType::Date, Some("created_at"))),
            ("updated_at", field(FieldType::Date, Some("updated_at"))),
            ("topic", field(FieldType::Text, None)),
        ],
    )
}

fn document() -> EntityConfig {
    let mut relation = field(FieldType::Relation, None);
    relation.relation_type = Some("contains".to_string());
    config(
        "document",
        &[("type", "document")],
        vec![
            ("title", field(FieldType::Text, Some("title_suffix"))),
            ("attached_to", relation),
            ("see_also", field(FieldType::Relation, None)),
            ("updated_at", field(FieldType::Date, Some("updated_at"))),
            ("status", field(FieldType::Enum, Some("tag:status"))),
        ],
    )
}

fn tag(category: &str, value: &str) -> PdtTag {
    PdtTag {
        id: format!("id-{}", value),
        category: category.to_string(),
        value: value.to_string(),
        added_by: String::new(),
        added_at: String::new(),
    }
}

fn asset(id: &str, title: &str, content: &str, tags: &[(&str, &str)]) -> PdtAsset {
    PdtAsset {
        id: id.to_string(),
        title: title.to_string(),
        content: content.to_string(),
        tags: tags.iter().map(|(c, v)| tag(c, v)).collect(),
        metadata: KeyedList::new(),
        created_at: "2026-01-01".to_string(),
        updated_at: "2026-01-02".to_string(),
        created_by: String::new(),
        updated_by: String::new(),
        deleted_at: None,
        auth_context: None,
    }
}

fn result(id: &str, title: &str, updated_at: &str, tags: &[(&str, &str)]) -> PdtSearchResult {
    PdtSearchResult {
        id: id.to_string(),
        title: title.to_string(),
        snippet: None,
        tags: tags
            .iter()
            .map(|(c, v)| PdtTagSummary {
                category: c.to_string(),
                value: v.to_string(),
            })
            .collect(),
        updated_at: updated_at.to_string(),
    }
}

fn relation(from: &str, to: &str, relation_type: &str) -> PdtRelation {
    PdtRelation {
        id: "r".to_string(),
        from_asset_id: from.to_string(),
        to_asset_id: to.to_string(),
        relation_type: relation_type.to_string(),
        metadata: None,
        created_at: String::new(),
    }
}

fn everything() -> ListEntitiesQuery {
    ListEntitiesQuery {
        status: None,
        attached_to: None,
        tags: Vec::new(),
    }
}

fn user(groups: &[&str]) -> AuthenticatedUser {
    let mut extra = KeyedList::new();
    extra.insert(
        "groups".to_string(),
        Json::List(groups.iter().map(|g| text(g)).collect()),
    );
    extra.insert("role".to_string(), text("agent"));
    AuthenticatedUser {
        user_id: "u".to_string(),
        username: None,
        email: None,
        claims_extra: Some(extra),
    }
}

fn ok<T>(r: Result<T, ApiError>) -> T {
    match r {
        Ok(t) => t,
        Err(e) => panic!("refused: {} {}", e.status, value(&e.body)),
    }
}

fn refusal<T>(r: Result<T, ApiError>) -> (u16, Value) {
    match r {
        Ok(_) => panic!("a refusal was expected"),
        Err(e) => (e.status, value(&e.body)),
    }
}

fn ids(listing: &Json) -> Vec<String> {
    listing
        .get("entities")
        .unwrap()
        .as_list()
        .unwrap()
        .iter()
        .map(|e| e.get_text("id").unwrap().to_string())
        .collect()
}

const SEMANTIC: [(&str, &str); 2] = [("type", "agent-memory"), ("memory-type", "semantic")];

// ---- Mapping ----

#[test]
fn asset_to_entity() {
    let mut a = asset(
        "a1",
        "Memory: Rust",
        "text",
        &[("outcome", "good"), ("outcome", "bad"), ("topic", "t")],
    );
    a.metadata.insert("source".to_string(), Json::Bool(true));
    assert_eq!(
        value(&map_asset_to_entity(&a, &memory())),
        parsed(
            r#"{"id": "a1", "title": "Rust", "content": "text", "outcome": "good", "source": true,
                "created_at": "2026-01-01", "updated_at": "2026-01-02", "topic": "t"}"#
        )
    );
}

#[test]
fn empty_fields_are_left_out() {
    let a = asset("a1", "Memory: ", "", &[]);
    assert_eq!(
        value(&map_asset_to_entity(&a, &memory())),
        parsed(r#"{"id": "a1", "created_at": "2026-01-01", "updated_at": "2026-01-02"}"#)
    );
    // A title without the prefix is shown whole.
    let a = asset("a1", "Other", "", &[]);
    assert_eq!(
        map_asset_to_entity(&a, &memory()).get_text("title"),
        Some("Other")
    );
}

#[test]
fn search_result_to_entity() {
    let r = result("r1", "Memory: Rust", "2026-03-01", &[("outcome", "good")]);
    assert_eq!(
        value(&map_compact_to_entity(&r, &memory())),
        parsed(
            r#"{"id": "r1", "title": "Rust", "outcome": "good",
                "created_at": "2026-03-01", "updated_at": "2026-03-01"}"#
        )
    );
}

#[test]
fn field_named_id_wins() {
    let c = config("x", &[], vec![("id", field(FieldType::Text, Some("tag:id")))]);
    let a = asset("a1", "", "", &[("id", "other")]);
    assert_eq!(map_asset_to_entity(&a, &c).get_text("id"), Some("other"));
    let a = asset("a1", "", "", &[]);
    assert_eq!(map_asset_to_entity(&a, &c).get_text("id"), Some("a1"));
}

#[test]
fn unknown_hint_reads_the_tag_of_the_field() {
    let c = memory();
    let a = asset("a1", "", "c", &[("x", "v"), ("", "empty")]);
    let hint = Some("nonsense".to_string());
    assert_eq!(
        extract_field_value(&a, "x", &hint, &c).unwrap().as_str(),
        Some("v")
    );
    assert!(extract_field_value(&a, "y", &None, &c).is_none());
    let hint = Some("tag:".to_string());
    assert_eq!(
        extract_field_value(&a, "y", &hint, &c).unwrap().as_str(),
        Some("empty")
    );
    let r = result("r", "t", "u", &[]);
    for hint in ["content", "metadata:source"] {
        assert!(extract_field_value_compact(&r, "f", &Some(hint.to_string()), &c).is_none());
    }
}

#[test]
fn relations_are_resolved() {
    let c = document();
    let a = asset("a1", "Memory: D", "", &[]);
    let rels = || {
        vec![
            relation("other", "x", "contains"),
            relation("a1", "p1", "contains"),
            relation("a1", "p2", "contains"),
            relation("a1", "q", "related_to"),
        ]
    };
    let e = map_asset_to_entity_with_relations(&a, &c, &vec![Some(rels()), Some(rels())]);
    assert_eq!(e.get_text("attached_to"), Some("p1"));
    assert_eq!(e.get_text("see_also"), Some("q"));
    // What could not be read is left out.
    let e = map_asset_to_entity_with_relations(&a, &c, &vec![None, Some(rels())]);
    assert_eq!(e.get_text("attached_to"), None);
    assert_eq!(e.get_text("see_also"), Some("q"));
    let e = map_asset_to_entity_with_relations(&a, &c, &Vec::new());
    assert_eq!(e.get_text("see_also"), None);
}

// ---- Listing ----

#[test]
fn slug_or_plural() {
    let configs = vec![memory(), document()];
    assert_eq!(get_entity_config(&configs, "document").unwrap().slug, "document");
    assert!(get_entity_config(&configs, "documents").is_none());
    let configs = vec![config("news", &[], vec![])];
    assert_eq!(get_entity_config(&configs, "new").unwrap().slug, "news");
}

#[test]
fn listing_searches_for_the_type() {
    let configs = vec![memory()];
    let pdt = PdtClient::new("http://pdt/");
    let q = ok(list_entities_start(
        &configs,
        &pdt,
        Some("a"),
        "semantic-memory",
        Some("tok"),
    ));
    assert_eq!(q.url, "http://pdt/api/search?tag=type:agent-memory&limit=100");
    assert_eq!(q.instance_id.as_deref(), Some("a"));
    assert_eq!(q.bearer.as_deref(), Some("tok"));
    let configs = vec![config("thing", &[], vec![])];
    let q = ok(list_entities_start(&configs, &pdt, None, "thing", None));
    assert_eq!(q.url, "http://pdt/api/search?tag=type:thing&limit=100");
    assert_eq!(
        refusal(list_entities_start(&configs, &pdt, None, "x", None)),
        (404, parsed(r#"{"error": "Unknown entity type: x"}"#))
    );
}

#[test]
fn listing_is_isolated_and_sorted() {
    let configs = vec![memory()];
    let mine = |more: &[(&'static str, &'static str)]| {
        let mut v = SEMANTIC.to_vec();
        v.push(("agent", "me"));
        v.extend_from_slice(more);
        v
    };
    let mut theirs = SEMANTIC.to_vec();
    theirs.push(("agent", "them"));
    let results = || {
        vec![
            result("old", "t", "2026-01-01", &mine(&[])),
            result("theirs", "t", "2026-09-01", &theirs),
            result("new1", "t", "2026-05-01", &mine(&[])),
            result("episodic", "t", "2026-09-01", &[("type", "agent-memory"), ("agent", "me")]),
            result("new2", "t", "2026-05-01", &mine(&[])),
            result("nobody", "t", "2026-09-01", &SEMANTIC),
        ]
    };
    let l = ok(list_entities(
        &configs,
        Some("me"),
        "semantic-memory",
        &everything(),
        Some(results()),
        &Vec::new(),
    ));
    assert_eq!(ids(&l), vec!["new1", "new2", "old"]);
    assert_eq!(value(&l)["total"], Value::from(3));
    // Without an instance, all of the kind are listed.
    let l = ok(list_entities(
        &configs,
        None,
        "semantic-memory",
        &everything(),
        Some(results()),
        &Vec::new(),
    ));
    assert_eq!(ids(&l), vec!["theirs", "nobody", "new1", "new2", "old"]);
}

#[test]
fn failed_search_lists_nothing() {
    let l = ok(list_entities(
        &vec![memory()],
        None,
        "semantic-memory",
        &everything(),
        None,
        &Vec::new(),
    ));
    assert_eq!(value(&l), parsed(r#"{"entities": [], "total": 0}"#));
    assert_eq!(
        refusal(list_entities(&vec![], None, "x", &everything(), None, &Vec::new())).0,
        404
    );
}

#[test]
fn listing_by_status() {
    let configs = vec![memory()];
    let with = |id: &str, status: &'static str| {
        let mut tags = SEMANTIC.to_vec();
        tags.push(("status", status));
        result(id, "t", "2026-01-01", &tags)
    };
    let query = ListEntitiesQuery {
        status: Some("open".to_string()),
        attached_to: None,
        tags: Vec::new(),
    };
    let results = vec![
        with("a", "open"),
        with("b", "closed"),
        result("c", "t", "2026-01-01", &SEMANTIC),
    ];
    let l = ok(list_entities(
        &configs,
        None,
        "semantic-memory",
        &query,
        Some(results),
        &Vec::new(),
    ));
    assert_eq!(ids(&l), vec!["a"]);
}

#[test]
fn unrelated_documents_are_left_out() {
    let configs = vec![document()];
    let results = || {
        vec![
            result("linked", "t", "1", &[("type", "document")]),
            result("target", "t", "2", &[("type", "document")]),
            result("unread", "t", "3", &[("type", "document")]),
        ]
    };
    let replies = || {
        vec![
            Some(vec![relation("linked", "p", "whatever")]),
            Some(vec![relation("x", "target", "contains")]),
            None,
        ]
    };
    let l = ok(list_entities(
        &configs,
        None,
        "document",
        &everything(),
        Some(results()),
        &replies(),
    ));
    assert_eq!(ids(&l), vec!["linked"]);
}

#[test]
fn listing_by_relation() {
    let configs = vec![document()];
    let query = |target: &str, status: Option<&str>| ListEntitiesQuery {
        status: status.map(|s| s.to_string()),
        attached_to: Some(target.to_string()),
        tags: Vec::new(),
    };
    let results = || {
        vec![
            result("a", "t", "1", &[("type", "document"), ("status", "open")]),
            result("b", "t", "2", &[("type", "document"), ("status", "closed")]),
            result("c", "t", "3", &[("type", "document"), ("status", "open")]),
            result("d", "t", "4", &[("type", "document"), ("status", "closed")]),
        ]
    };
    let replies = || {
        vec![
            Some(vec![relation("a", "p", "contains")]),
            // Only a type that a relation field names counts.
            Some(vec![relation("b", "p", "related_to"), relation("b", "q", "contains")]),
            Some(vec![relation("x", "p", "contains")]),
            Some(vec![relation("d", "p", "contains")]),
        ]
    };
    let list = |target: &str, status: Option<&str>| {
        ids(&ok(list_entities(
            &configs,
            None,
            "document",
            &query(target, status),
            Some(results()),
            &replies(),
        )))
    };
    assert_eq!(list("p", None), vec!["d", "a"]);
    assert_eq!(list("q", None), vec!["b"]);
    assert!(list("z", None).is_empty());
    // Both filters apply.
    assert_eq!(list("p", Some("open")), vec!["a"]);
    assert_eq!(list("p", Some("closed")), vec!["d"]);
    assert!(list("q", Some("open")).is_empty());
}

fn pairs(q: &[(&str, &str)]) -> Vec<(String, String)> {
    q.iter().map(|(k, v)| (k.to_string(), v.to_string())).collect()
}

#[test]
fn queries_are_read() {
    let Ok(q) = read_query(pairs(&[
        ("outcome", "good"),
        ("status", "open"),
        ("topic", "rust"),
        ("attached_to", "p"),
        ("topic", "cedar"),
    ])) else {
        panic!("a query was expected")
    };
    assert_eq!(q.status.as_deref(), Some("open"));
    assert_eq!(q.attached_to.as_deref(), Some("p"));
    assert_eq!(q.tags, pairs(&[("outcome", "good"), ("topic", "rust"), ("topic", "cedar")]));
    let Ok(q) = read_query(Vec::new()) else {
        panic!("a query was expected")
    };
    assert!(q.status.is_none() && q.attached_to.is_none() && q.tags.is_empty());
    let twice = |key: &'static str| read_query(pairs(&[(key, "a"), ("x", "y"), (key, "a")])).err();
    assert_eq!(twice("status").as_deref(), Some("status"));
    assert_eq!(twice("attached_to").as_deref(), Some("attached_to"));
    assert_eq!(twice("topic"), None);
    // Of two known keys, the one met again first is named.
    let named = |q: &[(&str, &str)]| read_query(pairs(q)).err();
    assert_eq!(
        named(&[("attached_to", "a"), ("attached_to", "b"), ("status", "x"), ("status", "y")])
            .as_deref(),
        Some("attached_to")
    );
    assert_eq!(
        named(&[("attached_to", "a"), ("status", "x"), ("status", "y"), ("attached_to", "b")])
            .as_deref(),
        Some("status")
    );
}

#[test]
fn listing_by_tags() {
    let configs = vec![memory()];
    let with = |id: &str, more: &[(&'static str, &'static str)]| {
        let mut tags = SEMANTIC.to_vec();
        tags.extend_from_slice(more);
        result(id, "t", "1", &tags)
    };
    let list = |wanted: &[(&str, &str)]| {
        let Ok(query) = read_query(pairs(wanted)) else {
            panic!("a query was expected")
        };
        ids(&ok(list_entities(
            &configs,
            None,
            "semantic-memory",
            &query,
            Some(vec![
                with("a", &[("topic", "rust"), ("topic", "cedar"), ("status", "open")]),
                with("b", &[("topic", "rust"), ("status", "closed")]),
                with("c", &[("subject", "rust")]),
            ]),
            &Vec::new(),
        )))
    };
    assert_eq!(list(&[]), vec!["a", "b", "c"]);
    assert_eq!(list(&[("topic", "rust")]), vec!["a", "b"]);
    assert_eq!(list(&[("topic", "rust"), ("topic", "cedar")]), vec!["a"]);
    assert_eq!(list(&[("topic", "rust"), ("status", "closed")]), vec!["b"]);
    assert!(list(&[("topic", "Rust")]).is_empty());
}

#[test]
fn relations_are_read_where_they_are_needed() {
    let pdt = PdtClient::new("http://pdt");
    let c = document();
    let results = vec![
        result("a", "t", "1", &[("type", "document"), ("agent", "me")]),
        result("b", "t", "2", &[("type", "document")]),
    ];
    let q = list_relation_requests(&c, &pdt, Some("me"), &everything(), &results, None);
    assert_eq!(q.len(), 2);
    assert_eq!(q[0].as_ref().unwrap().url, "http://pdt/api/assets/a/relations");
    assert!(q[1].is_none());
    assert!(candidate(&c, Some("me"), &results[0]));
    assert!(!candidate(&c, Some("me"), &results[1]));
    // A kind without relation fields needs none, unless the query asks.
    let m = memory();
    let mut tags = SEMANTIC.to_vec();
    tags.push(("agent", "me"));
    let results = vec![result("a", "t", "1", &tags)];
    let q = list_relation_requests(&m, &pdt, Some("me"), &everything(), &results, None);
    assert!(q[0].is_none());
    let query = ListEntitiesQuery {
        status: None,
        attached_to: Some("p".to_string()),
        tags: Vec::new(),
    };
    let q = list_relation_requests(&m, &pdt, Some("me"), &query, &results, None);
    assert!(q[0].is_some());
}

#[test]
fn text_order() {
    assert!(text_before("", "a"));
    assert!(text_before("2026-01-01", "2026-01-02"));
    assert!(text_before("a", "ab"));
    assert!(!text_before("ab", "a"));
    assert!(!text_before("a", "a"));
    assert!(text_before("z", "é"));
    assert!(text_before("\u{ffff}", "\u{10000}"));
    assert_eq!(text_before("Z", "a"), "Z" < "a");
}

// ---- Reading ----

#[test]
fn reading_an_entity() {
    let configs = vec![memory(), document()];
    let pdt = PdtClient::new("http://pdt");
    let q = ok(get_entity_start(&configs, &pdt, Some("me"), "semantic-memory", "a1", Some("t")));
    assert_eq!(q.url, "http://pdt/api/assets/a1");
    assert_eq!(q.reported_as.as_deref(), Some("get_asset"));
    assert_eq!(refusal(get_entity_start(&configs, &pdt, Some("me"), "x", "a1", None)).0, 404);
    let good = asset("a1", "Memory: Rust", "", &SEMANTIC);
    let e = ok(get_entity(&configs, "semantic-memory", "a1", Ok(good), &Vec::new()));
    assert_eq!(e.get_text("title"), Some("Rust"));
    let requests = relation_requests(&configs[1], &pdt, Some("me"), "a1", None);
    assert_eq!(requests.len(), 2);
    assert_eq!(requests[1].url, "http://pdt/api/assets/a1/relations");
}

#[test]
fn another_kind_is_not_found() {
    let configs = vec![memory()];
    let other = asset("a1", "t", "", &[("type", "agent-memory"), ("memory-type", "episodic")]);
    assert_eq!(
        refusal(get_entity(&configs, "semantic-memory", "a1", Ok(other), &Vec::new())),
        (404, parsed(r#"{"error": "Asset a1 is not a Memory"}"#))
    );
    assert_eq!(
        refusal(get_entity_checked(
            &configs,
            "semantic-memory",
            "a1",
            Err("gone".to_string())
        )),
        (404, parsed(r#"{"error": "gone"}"#))
    );
    assert_eq!(
        refusal(get_entity(&configs, "x", "a1", Err("gone".to_string()), &Vec::new())),
        (404, parsed(r#"{"error": "Unknown entity type: x"}"#))
    );
}

// ---- Creation ----

fn start(
    configs: &Vec<EntityConfig>,
    slug: &str,
    body: &Json,
    instance: Option<&str>,
) -> Result<CreatePlan, ApiError> {
    create_entity_start(
        configs,
        None,
        &user(&[]),
        instance,
        slug,
        body,
        &WorkspaceAdmins(None),
    )
}

#[test]
fn creation_is_planned() {
    let configs = vec![memory()];
    let body = object(&[
        ("title", text("Rust")),
        ("content", text("safe")),
        ("source", Json::Bool(true)),
        ("status", Json::Null),
        ("created_at", text("ignored")),
    ]);
    let plan = ok(start(&configs, "semantic-memory", &body, Some("me")));
    assert_eq!(plan.title, "Memory: Rust");
    assert_eq!(plan.content.as_deref(), Some("safe"));
    let tags: Vec<(&str, &str)> = plan
        .tags
        .iter()
        .map(|t| (t.category.as_str(), t.value.as_str()))
        .collect();
    assert_eq!(
        tags,
        vec![
            ("type", "agent-memory"),
            ("memory-type", "semantic"),
            ("agent", "me"),
            ("outcome", "unknown"),
        ]
    );
    assert_eq!(value(&Json::Object(plan.metadata)), parsed(r#"{"source": true}"#));
    assert!(plan.targets.is_empty());
}

#[test]
fn untitled() {
    let configs = vec![memory()];
    let body = object(&[("title", Json::Bool(true))]);
    let plan = ok(start(&configs, "semantic-memory", &body, None));
    assert_eq!(plan.title, "Memory: Untitled");
    assert_eq!(plan.content, None);
}

#[test]
fn creation_refusals() {
    let configs = vec![memory()];
    assert_eq!(
        refusal(start(&configs, "x", &Json::Null, None)),
        (404, parsed(r#"{"error": "Unknown entity type: x"}"#))
    );
    assert_eq!(
        refusal(start(&configs, "semantic-memory", &Json::Null, None)),
        (400, parsed(r#"{"error": "Request body must be a JSON object"}"#))
    );
    assert_eq!(
        refusal(start(&configs, "semantic-memory", &object(&[]), None)),
        (
            400,
            parsed(r#"{"error": "Validation failed", "details": "Missing required field: title"}"#)
        )
    );
    assert_eq!(
        refusal(plan_entity(&memory(), &Json::Null, None, None, Err(403))),
        (403, parsed(r#"{"error": "Access denied"}"#))
    );
    assert_eq!(
        refusal(plan_entity(&memory(), &object(&[]), None, None, Err(500))),
        (500, parsed(r#"{"error": "Access denied"}"#))
    );
}

#[test]
fn denied_creation() {
    let deny = pep::cedar::CedarAuthorizer::from_policy_str(
        "permit (principal, action == Action::\"CreateDocument\", resource) when { principal has groups && principal.groups.contains(\"writers\") };",
    )
    .unwrap();
    let mut c = document();
    c.cedar.action_create = Some("CreateDocument".to_string());
    let configs = vec![c];
    let create = |groups: &[&str]| {
        create_entity_start(
            &configs,
            Some(&deny),
            &user(groups),
            None,
            "document",
            &object(&[]),
            &WorkspaceAdmins(None),
        )
    };
    assert_eq!(
        refusal(create(&["readers"])),
        (403, parsed(r#"{"error": "Access denied"}"#))
    );
    assert_eq!(ok(create(&["writers"])).title, "Memory: Untitled");
    // A kind without the action is not checked.
    let configs = vec![document()];
    assert!(create_entity_start(
        &configs,
        Some(&deny),
        &user(&[]),
        None,
        "document",
        &object(&[]),
        &WorkspaceAdmins(None),
    )
    .is_ok());
}

#[test]
fn admin_group_of_an_identity() {
    let scoped = pep::cedar::CedarAuthorizer::from_policy_str(
        "permit (principal, action == Action::\"Create\", resource is AgentIdentity) when { resource has admin_group && principal has groups && principal.groups.contains(resource.admin_group) };",
    )
    .unwrap();
    let mut c = config("agent-identity", &[("type", "agent-identity")], vec![]);
    c.cedar.action_create = Some("Create".to_string());
    let configs = vec![c];
    let create = |authorizer: Option<&pep::cedar::CedarAuthorizer>, group: Option<&str>| {
        create_entity_start(
            &configs,
            authorizer,
            &user(&["mem-1"]),
            Some("agent-1"),
            "agent-identity",
            &object(&[]),
            &WorkspaceAdmins(group.map(|g| g.to_string())),
        )
    };
    let plan = ok(create(Some(&scoped), Some("mem-1")));
    assert_eq!(plan.admin_group.as_deref(), Some("mem-1"));
    assert_eq!(plan.metadata.get("admin_group").unwrap().as_str(), Some("mem-1"));
    assert_eq!(refusal(create(Some(&scoped), Some("mem-2"))).0, 403);
    assert_eq!(refusal(create(Some(&scoped), None)).0, 403);
    // Without authorization in force, the group is not taken.
    let plan = ok(create(None, Some("mem-1")));
    assert_eq!(plan.admin_group, None);
    assert!(plan.metadata.get("admin_group").is_none());
}

fn context(group: &str) -> AuthContext {
    AuthContext {
        visibility: "org".to_string(),
        owner_groups: vec![group.to_string()],
        confidentiality: "low".to_string(),
    }
}

fn document_plan() -> CreatePlan {
    let body = object(&[
        ("title", text("D")),
        ("attached_to", text("p")),
        ("see_also", text("q")),
    ]);
    ok(start(&vec![document()], "document", &body, Some("me")))
}

#[test]
fn parents_are_looked_up_in_order() {
    let pdt = PdtClient::new("http://pdt");
    let plan = document_plan();
    let q = next_parent_lookup(&plan, &pdt, Some("me"), &Vec::new(), None).unwrap();
    assert_eq!(q.url, "http://pdt/api/assets/p");
    let q = next_parent_lookup(&plan, &pdt, Some("me"), &vec![None], None).unwrap();
    assert_eq!(q.url, "http://pdt/api/assets/q");
    assert!(next_parent_lookup(&plan, &pdt, Some("me"), &vec![None, None], None).is_none());
    assert!(next_parent_lookup(&plan, &pdt, Some("me"), &vec![Some(context("g"))], None).is_none());
}

#[test]
fn born_with_a_context() {
    let mut plan = document_plan();
    let inherited = new_asset(&plan, &user(&["mem-1"]), &vec![None, Some(context("parent"))]);
    let c = inherited.auth_context.unwrap();
    assert_eq!(c.visibility, "org");
    assert_eq!(c.owner_groups, vec!["parent"]);
    assert_eq!(c.confidentiality, "low");

    let own = new_asset(&plan, &user(&["x", "mem-1"]), &vec![None, None]);
    let c = own.auth_context.unwrap();
    assert_eq!(c.visibility, "team");
    assert_eq!(c.owner_groups, vec!["mem-1"]);
    assert_eq!(c.confidentiality, "");

    assert!(new_asset(&plan, &user(&["x"]), &Vec::new()).auth_context.is_none());

    // An agent identity belongs to the group that administers it.
    plan.admin_group = Some("mem-9".to_string());
    let c = new_asset(&plan, &user(&["mem-1"]), &Vec::new()).auth_context.unwrap();
    assert_eq!(c.owner_groups, vec!["mem-9"]);
}

#[test]
fn creation_is_stored() {
    let pdt = PdtClient::new("http://pdt");
    let q = create_entity_store(
        &document_plan(),
        &pdt,
        Some("me"),
        &user(&["mem-1"]),
        &Vec::new(),
        Some("t"),
    );
    assert_eq!(q.method, Method::Post);
    assert_eq!(q.url, "http://pdt/api/assets");
    assert_eq!(
        value(q.body.as_ref().unwrap()),
        parsed(
            r#"{"title": "Memory: D",
                "tags": [{"category": "type", "value": "document"}, {"category": "agent", "value": "me"}],
                "auth_context": {"visibility": "team", "owner_groups": ["mem-1"], "confidentiality": ""}}"#
        )
    );
}

fn line(q: &PdtRequest) -> (Method, &str) {
    (q.method, q.url.as_str())
}

#[test]
fn creation_is_followed_up() {
    let pdt = PdtClient::new("http://pdt");
    let mut plan = document_plan();
    let sent = create_entity_followups(&plan, &pdt, Some("me"), "new", Some("t"));
    assert_eq!(sent.len(), 2);
    assert_eq!(line(&sent[0]), (Method::Post, "http://pdt/api/relations"));
    assert_eq!(
        value(sent[0].body.as_ref().unwrap()),
        parsed(r#"{"from_asset_id": "new", "to_asset_id": "p", "relation_type": "contains"}"#)
    );
    assert_eq!(
        value(sent[1].body.as_ref().unwrap()),
        parsed(r#"{"from_asset_id": "new", "to_asset_id": "q", "relation_type": "related_to"}"#)
    );
    plan.metadata.insert("k".to_string(), text("v"));
    let sent = create_entity_followups(&plan, &pdt, Some("me"), "new", None);
    assert_eq!(sent.len(), 3);
    assert_eq!(line(&sent[0]), (Method::Put, "http://pdt/api/assets/new"));
    assert_eq!(sent[0].bearer.as_deref(), Some(""));
    assert_eq!(sent[0].instance_id.as_deref(), Some("me"));
    assert_eq!(
        value(sent[0].body.as_ref().unwrap()),
        parsed(r#"{"metadata": {"k": "v"}}"#)
    );
}

#[test]
fn creation_is_answered() {
    let c = document();
    let plan = document_plan();
    let stored = asset("new", "Memory: D", "", &[("type", "document")]);
    let (status, entity) = ok(create_entity_finish(&c, &plan, Ok(stored)));
    assert_eq!(status, 201);
    assert_eq!(
        value(&entity),
        parsed(
            r#"{"id": "new", "title": "D", "updated_at": "2026-01-02",
                "attached_to": "p", "see_also": "q"}"#
        )
    );
    assert_eq!(
        refusal(create_entity_finish(&c, &plan, Err("down".to_string()))),
        (500, parsed(r#"{"error": "down"}"#))
    );
}

#[test]
fn created_entity_is_read_back() {
    let configs = vec![memory()];
    let body = object(&[
        ("title", text("Rust")),
        ("content", text("safe")),
        ("outcome", text("good")),
        ("source", text("book")),
    ]);
    let plan = ok(start(&configs, "semantic-memory", &body, Some("me")));
    let mut stored = asset("n", &plan.title, plan.content.as_deref().unwrap(), &[]);
    stored.tags = plan.tags.iter().map(|t| tag(&t.category, &t.value)).collect();
    stored.metadata = plan.metadata;
    let e = ok(get_entity(&configs, "semantic-memory", "n", Ok(stored), &Vec::new()));
    assert_eq!(e.get_text("title"), Some("Rust"));
    assert_eq!(e.get_text("content"), Some("safe"));
    assert_eq!(e.get_text("outcome"), Some("good"));
    assert_eq!(e.get_text("source"), Some("book"));
    // The agent finds it again.
    let found = result(
        "n",
        "Memory: Rust",
        "1",
        &plan
            .tags
            .iter()
            .map(|t| (t.category.as_str(), t.value.as_str()))
            .collect::<Vec<_>>(),
    );
    assert!(candidate(&configs[0], Some("me"), &found));
    assert!(!candidate(&configs[0], Some("you"), &found));
}

#[test]
fn creation_answers_what_is_read() {
    let c = document();
    let plan = document_plan();
    let stored = || asset("new", "Memory: D", "", &[("type", "document")]);
    let (_, answered) = ok(create_entity_finish(&c, &plan, Ok(stored())));
    let relations = || {
        plan.targets
            .iter()
            .map(|t| relation("new", &t.id, &t.relation_type))
            .collect::<Vec<_>>()
    };
    let replies = vec![Some(relations()), Some(relations())];
    let read = ok(get_entity(&vec![document()], "document", "new", Ok(stored()), &replies));
    assert_eq!(value(&read), value(&answered));
}

#[test]
fn default_tag_comes_before_a_given_one() {
    let configs = vec![config(
        "document",
        &[("type", "document"), ("status", "draft")],
        vec![("status", field(FieldType::Enum, Some("tag:status")))],
    )];
    let body = object(&[("status", text("review"))]);
    let plan = ok(start(&configs, "document", &body, None));
    let mut stored = asset("n", &plan.title, "", &[]);
    stored.tags = plan.tags.iter().map(|t| tag(&t.category, &t.value)).collect();
    assert_eq!(stored.tags.len(), 3);
    assert_eq!(
        map_asset_to_entity(&stored, &configs[0]).get_text("status"),
        Some("draft")
    );
}

// ---- Status ----

fn with_statuses() -> EntityConfig {
    let mut status = field(FieldType::Enum, Some("tag:status"));
    status.values = Some(vec!["draft".to_string(), "review".to_string()]);
    let mut c = config("document", &[("type", "document")], vec![("status", status)]);
    c.cedar.action_edit = Some("EditDocument".to_string());
    c
}

#[test]
fn status_is_checked() {
    let c = with_statuses();
    let ask = |s: &str| object(&[("status", text(s))]);
    assert_eq!(ok(check_status(&c, &ask("review"), Ok(()))), "review");
    assert_eq!(
        refusal(check_status(&c, &ask("gone"), Ok(()))),
        (
            400,
            parsed(
                r#"{"error": "Invalid status", "allowed_values": ["draft", "review"], "got": "gone"}"#
            )
        )
    );
    assert_eq!(
        refusal(check_status(&c, &object(&[]), Ok(()))),
        (400, parsed(r#"{"error": "Missing 'status' field"}"#))
    );
    assert_eq!(
        refusal(check_status(&c, &ask("gone"), Err(403))),
        (403, parsed(r#"{"error": "Access denied"}"#))
    );
    // Where nothing is said of the values, every status is allowed.
    assert_eq!(ok(check_status(&memory(), &ask("anything"), Ok(()))), "anything");
}

#[test]
fn status_change_is_sent() {
    let configs = vec![with_statuses()];
    let pdt = PdtClient::new("http://pdt");
    let first = ok(update_status_start(&configs, true, &pdt, Some("me"), "document", "d", None));
    assert!(first.is_none());
    let sent = ok(update_status_decide(
        &configs,
        None,
        &user(&[]),
        &pdt,
        Some("me"),
        "document",
        "d",
        &object(&[("status", text("review"))]),
        None,
        Some("t"),
    ));
    assert_eq!(line(&sent.tag), (Method::Post, "http://pdt/api/assets/d/tags"));
    assert_eq!(
        value(sent.tag.body.as_ref().unwrap()),
        parsed(r#"{"category": "status", "value": "review"}"#)
    );
    assert_eq!(line(&sent.read), (Method::Get, "http://pdt/api/assets/d"));
    assert_eq!(sent.tag.instance_id.as_deref(), Some("me"));
    assert_eq!(sent.read.instance_id.as_deref(), Some("me"));
    // The asset is read unless the tag could not be sent.
    assert_eq!(line(ok(update_status_read(&sent, Ok(())))), line(&sent.read));
    assert_eq!(
        refusal(update_status_read(&sent, Err("down".to_string()))),
        (500, parsed(r#"{"error": "down"}"#))
    );
    assert_eq!(
        refusal(update_status_start(&configs, true, &pdt, Some("me"), "x", "d", None)).0,
        404
    );
}

#[test]
fn status_of_an_identity_is_scoped_by_the_stored_group() {
    let scoped = pep::cedar::CedarAuthorizer::from_policy_str(
        "permit (principal, action == Action::\"Edit\", resource is AgentIdentity) when { resource has admin_group && principal has groups && principal.groups.contains(resource.admin_group) };",
    )
    .unwrap();
    let mut c = config("agent-identity", &[("type", "agent-identity")], vec![]);
    c.cedar.action_edit = Some("Edit".to_string());
    let configs = vec![c];
    let pdt = PdtClient::new("http://pdt");
    let first = ok(update_status_start(&configs, true, &pdt, Some("me"), "agent-identity", "i", None));
    assert_eq!(first.unwrap().url, "http://pdt/api/assets/i");
    let first = ok(update_status_start(&configs, false, &pdt, Some("me"), "agent-identity", "i", None));
    assert!(first.is_none());
    let mut stored = asset("i", "t", "", &[("type", "agent-identity")]);
    stored.metadata.insert("admin_group".to_string(), text("mem-1"));
    let decide = |groups: &[&str], fetched: Option<&PdtAsset>| {
        update_status_decide(
            &configs,
            Some(&scoped),
            &user(groups),
            &pdt,
        Some("me"),
            "agent-identity",
            "i",
            &object(&[("status", text("x"))]),
            fetched,
            None,
        )
    };
    assert!(decide(&["mem-1"], Some(&stored)).is_ok());
    assert_eq!(refusal(decide(&["mem-2"], Some(&stored))).0, 403);
    assert_eq!(refusal(decide(&["mem-1"], None)).0, 403);
}

#[test]
fn status_change_is_answered() {
    let c = with_statuses();
    let a = asset("d", "t", "", &[("status", "review")]);
    let e = ok(update_status_finish(&c, Ok(a), &Vec::new()));
    assert_eq!(value(&e), parsed(r#"{"id": "d", "status": "review"}"#));
    assert_eq!(
        refusal(update_status_finish(&c, Err("down".to_string()), &Vec::new())),
        (500, parsed(r#"{"error": "down"}"#))
    );
}

#[test]
fn content_is_checked() {
    let body = object(&[("content", text("c"))]);
    assert_eq!(ok(check_content(&body, Ok(()))), "c");
    assert_eq!(refusal(check_content(&body, Err(500))).0, 500);
    assert_eq!(refusal(check_content(&object(&[("content", Json::Null)]), Ok(()))).0, 400);
}

#[test]
fn authorization_not_in_force() {
    let action = Some("Edit".to_string());
    assert_eq!(authorize(None, &user(&[]), &action, "document", "d", None), Ok(()));
    let nothing = pep::cedar::CedarAuthorizer::from_policy_str("").unwrap();
    assert_eq!(
        authorize(Some(&nothing), &user(&[]), &action, "document", "d", None),
        Err(403)
    );
    assert_eq!(
        authorize(Some(&nothing), &user(&[]), &None, "document", "d", None),
        Ok(())
    );
}
