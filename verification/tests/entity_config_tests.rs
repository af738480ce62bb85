use fame::entity_config::{
    default_handler, default_sort_order, is_entity_file, load_entity_configs, slug_to_cedar_type,
    CedarActions, EntityConfig, EntityFile, FieldConfig, FieldType, SortConfig, ViewConfig,
};
use fame::keyed::KeyedList;
use fame::pdt::types::{PdtTag, PdtTagSummary};
use toml::Value;

fn text(v: &Value, key: &str) -> Option<String> {
    v.get(key).and_then(|t| t.as_str()).map(|t| t.to_string())
}

fn flag(v: &Value, key: &str) -> bool {
    v.get(key).and_then(|b| b.as_bool()).unwrap_or(false)
}

fn texts(v: &Value, key: &str) -> Option<Vec<String>> {
    v.get(key).and_then(|l| l.as_array()).map(|l| {
        l.iter()
            .map(|t| t.as_str().expect("a list of texts").to_string())
            .collect()
    })
}

fn field_type(name: &str) -> FieldType {
    match name {
        "text" => FieldType::Text,
        "markdown" => FieldType::Markdown,
        "enum" => FieldType::Enum,
        "date" => FieldType::Date,
        "tag_array" => FieldType::TagArray,
        "relation" => FieldType::Relation,
        "metadata" => FieldType::Metadata,
        other => panic!("unknown field type {}", other),
    }
}

fn field(v: &Value) -> FieldConfig {
    FieldConfig {
        field_type: text(v, "type").map(|t| field_type(&t)).unwrap_or_default(),
        required: flag(v, "required"),
        label: text(v, "label"),
        map: text(v, "map"),
        values: texts(v, "values"),
        default: text(v, "default"),
        badge: flag(v, "badge"),
        in_views: texts(v, "in_views").unwrap_or_default(),
        target_entity: text(v, "target_entity"),
        relation_type: text(v, "relation_type"),
    }
}

fn view(v: &Value) -> ViewConfig {
    ViewConfig {
        layout: text(v, "layout").expect("a layout"),
        fields: texts(v, "fields").expect("fields"),
        sort: v.get("sort").map(|s| SortConfig {
            field: text(s, "field").expect("a field"),
            order: text(s, "order").unwrap_or_else(default_sort_order),
        }),
    }
}

fn table<V>(v: &Value, key: &str, read: fn(&Value) -> V) -> KeyedList<V> {
    let mut list = KeyedList::new();
    if let Some(entries) = v.get(key).and_then(|t| t.as_table()) {
        for (name, value) in entries {
            list.insert(name.clone(), read(value));
        }
    }
    list
}

fn parse(source: &str) -> EntityFile {
    let root: Value = toml::from_str(source).expect("Failed to parse sample TOML");
    let e = root.get("entity").expect("an entity");
    let cedar = match e.get("cedar") {
        Some(c) => CedarActions {
            action_create: text(c, "action_create"),
            action_read: text(c, "action_read"),
            action_edit: text(c, "action_edit"),
            action_delete: text(c, "action_delete"),
        },
        None => CedarActions::default(),
    };
    EntityFile {
        entity: EntityConfig {
            name: text(e, "name").expect("a name"),
            slug: text(e, "slug").expect("a slug"),
            title_prefix: text(e, "title_prefix").unwrap_or_default(),
            handler: text(e, "handler").unwrap_or_else(default_handler),
            default_tags: table(e, "default_tags", |t| t.as_str().expect("a text").to_string()),
            cedar,
            fields: table(e, "fields", field),
            views: table(e, "views", view),
        },
    }
}

const SAMPLE_TOML: &str = r#"
[entity]
name = "Document"
slug = "document"
title_prefix = "Document: "
handler = "generic"

[entity.default_tags]
type = "document"
status = "draft"

[entity.cedar]
action_create = "CreateDocument"
action_read = "ViewDocument"
action_edit = "EditDocument"
action_delete = "DeleteDocument"

[entity.fields.title]
type = "text"
required = true
map = "title_suffix"
in_views = ["list", "detail"]

[entity.fields.content]
type = "markdown"
map = "content"
in_views = ["detail"]

[entity.fields.status]
type = "enum"
values = ["draft", "review", "approved", "published", "archived"]
default = "draft"
map = "tag:status"
badge = true
in_views = ["list", "detail"]

    [entity.fields.attached_to]
type = "relation"
target_entity = "any"
relation_type = "related_to"
required = true
in_views = ["list", "detail"]

[entity.fields.created_at]
type = "date"
map = "created_at"
in_views = ["list", "detail"]

[entity.fields.updated_at]
type = "date"
map = "updated_at"
in_views = ["detail"]

[entity.views.list]
layout = "card"
fields = ["title", "status", "updated_at"]

[entity.views.detail]
layout = "detail"
fields = ["title", "status", "content", "attached_to", "created_at", "updated_at"]
"#;

#[test]
fn test_parse_document_config() {
    let file: EntityFile = parse(SAMPLE_TOML);
    let entity = &file.entity;

    assert_eq!(entity.name, "Document");
    assert_eq!(entity.slug, "document");
    assert_eq!(entity.title_prefix, "Document: ");
    assert_eq!(entity.handler, "generic");
}

#[test]
fn test_default_tags() {
    let file = parse(SAMPLE_TOML);
    let entity = &file.entity;

    assert_eq!(entity.type_tag(), Some("document"));
    assert_eq!(entity.default_status(), Some("draft"));
}

#[test]
fn test_tags_match_discriminates_shared_type() {
    let entity_toml = r#"
        [entity]
        name = "Episodic Memory"
        slug = "episodic-memory"
        title_prefix = "Episode: "
        handler = "generic"

        [entity.default_tags]
        type = "agent-memory"
        memory-type = "episodic"
    "#;
    let file = parse(entity_toml);
    let entity = &file.entity;

    let summary = |c: &str, v: &str| PdtTagSummary {
        category: c.to_string(),
        value: v.to_string(),
    };
    let full = |c: &str, v: &str| PdtTag {
        id: "t".into(),
        category: c.to_string(),
        value: v.to_string(),
        added_by: String::new(),
        added_at: String::new(),
    };

    // An episodic memory: has both discriminators.
    let episodic_summary = vec![
        summary("type", "agent-memory"),
        summary("memory-type", "episodic"),
    ];
    assert!(entity.tags_match(&episodic_summary));

    // A semantic memory: same type, different memory-type.
    let semantic_summary = vec![
        summary("type", "agent-memory"),
        summary("memory-type", "semantic"),
    ];
    assert!(!entity.tags_match(&semantic_summary));

    // Missing the discriminator entirely.
    let bare_summary = vec![summary("type", "agent-memory")];
    assert!(!entity.tags_match(&bare_summary));

    // Extra tags on the asset are ignored.
    let noisy_summary = vec![
        summary("type", "agent-memory"),
        summary("memory-type", "episodic"),
        summary("outcome", "success"),
    ];
    assert!(entity.tags_match(&noisy_summary));

    // The same for the tags of an asset.
    let episodic_full = vec![
        full("type", "agent-memory"),
        full("memory-type", "episodic"),
    ];
    assert!(entity.tags_match(&episodic_full));
    let semantic_full = vec![
        full("type", "agent-memory"),
        full("memory-type", "semantic"),
    ];
    assert!(!entity.tags_match(&semantic_full));
}

#[test]
fn test_cedar_actions() {
    let file = parse(SAMPLE_TOML);
    let entity = &file.entity;

    assert_eq!(
        entity.cedar.action_create.as_deref(),
        Some("CreateDocument")
    );
    assert_eq!(entity.cedar.action_read.as_deref(), Some("ViewDocument"));
    assert_eq!(entity.cedar.action_edit.as_deref(), Some("EditDocument"));
    assert_eq!(
        entity.cedar.action_delete.as_deref(),
        Some("DeleteDocument")
    );
}

#[test]
fn test_field_configs() {
    let file = parse(SAMPLE_TOML);
    let entity = &file.entity;

    let title = entity.get_field("title").unwrap();
    assert_eq!(title.field_type, FieldType::Text);
    assert!(title.required);
    assert_eq!(title.map.as_deref(), Some("title_suffix"));

    let content = entity.get_field("content").unwrap();
    assert_eq!(content.field_type, FieldType::Markdown);
    assert_eq!(content.map.as_deref(), Some("content"));

    let status = entity.get_field("status").unwrap();
    assert_eq!(status.field_type, FieldType::Enum);
    assert_eq!(
        status.values.as_deref(),
        Some(
            &[
                "draft".to_string(),
                "review".to_string(),
                "approved".to_string(),
                "published".to_string(),
                "archived".to_string()
            ][..]
        )
    );
    assert_eq!(status.default.as_deref(), Some("draft"));
    assert!(status.badge);

    let attached_to = entity.get_field("attached_to").unwrap();
    assert_eq!(attached_to.field_type, FieldType::Relation);
    assert_eq!(attached_to.target_entity.as_deref(), Some("any"));
    assert_eq!(attached_to.relation_type.as_deref(), Some("related_to"));

    let created_at = entity.get_field("created_at").unwrap();
    assert_eq!(created_at.field_type, FieldType::Date);
    assert_eq!(created_at.map.as_deref(), Some("created_at"));
}

#[test]
fn test_views() {
    let file = parse(SAMPLE_TOML);
    let entity = &file.entity;

    let list_view = entity.views.get("list").unwrap();
    assert_eq!(list_view.layout, "card");
    assert_eq!(list_view.fields, vec!["title", "status", "updated_at"]);

    let detail_view = entity.views.get("detail").unwrap();
    assert_eq!(detail_view.layout, "detail");
    assert_eq!(
        detail_view.fields,
        vec![
            "title",
            "status",
            "content",
            "attached_to",
            "created_at",
            "updated_at"
        ]
    );
}

#[test]
fn test_fields_for_view() {
    let file = parse(SAMPLE_TOML);
    let entity = &file.entity;

    let list_fields = entity.fields_for_view("list");
    let list_names: Vec<&str> = list_fields.iter().map(|(n, _)| n.as_str()).collect();
    assert!(list_names.contains(&"title"));
    assert!(list_names.contains(&"status"));
    assert!(!list_names.contains(&"content"));

    let detail_fields = entity.fields_for_view("detail");
    let detail_names: Vec<&str> = detail_fields.iter().map(|(n, _)| n.as_str()).collect();
    assert!(detail_names.contains(&"content"));
    assert!(detail_names.contains(&"attached_to"));
}

#[test]
fn test_relation_fields() {
    let file = parse(SAMPLE_TOML);
    let entity = &file.entity;

    let rels = entity.relation_fields();
    assert_eq!(rels.len(), 1);
    assert_eq!(rels[0].0, "attached_to");
}

#[test]
fn test_status_values() {
    let file = parse(SAMPLE_TOML);
    let entity = &file.entity;

    let values = entity.status_values().unwrap();
    assert_eq!(values.len(), 5);
    assert!(values.contains(&"draft".to_string()));
    assert!(values.contains(&"archived".to_string()));
}

#[test]
fn test_empty_cedar_defaults() {
    let toml_str = r#"
[entity]
name = "Test"
slug = "test"
"#;
    let file = parse(toml_str);
    assert!(file.entity.cedar.action_create.is_none());
    assert!(file.entity.cedar.action_read.is_none());
}

#[test]
fn test_handler_default() {
    let toml_str = r#"
[entity]
name = "Test"
slug = "test"
"#;
    let file = parse(toml_str);
    assert_eq!(file.entity.handler, "generic");
}

#[test]
fn test_slug_to_cedar_type() {
    assert_eq!(slug_to_cedar_type("semantic-memory"), "SemanticMemory");
    assert_eq!(slug_to_cedar_type("agent-identity"), "AgentIdentity");
    assert_eq!(slug_to_cedar_type("procedural-memory"), "ProceduralMemory");
    assert_eq!(slug_to_cedar_type("episodic-memory"), "EpisodicMemory");
    // Leading and trailing separators and accidental spaces are tolerated.
    assert_eq!(slug_to_cedar_type(" semantic-memory "), "SemanticMemory");
    assert_eq!(slug_to_cedar_type("a"), "A");
    // A display name with spaces comes to the same type as the slug.
    assert_eq!(slug_to_cedar_type("Semantic Memory"), "SemanticMemory");
}

#[test]
fn cedar_type_edges() {
    assert_eq!(slug_to_cedar_type(""), "");
    assert_eq!(slug_to_cedar_type("--"), "");
    assert_eq!(slug_to_cedar_type("a--b_c"), "ABC");
    assert_eq!(slug_to_cedar_type("x1-2y"), "X12y");
    assert_eq!(slug_to_cedar_type("é-a"), "A");
    assert_eq!(slug_to_cedar_type("SemanticMemory"), "SemanticMemory");
}

#[test]
fn kind_without_default_tags_matches_everything() {
    let file = parse("[entity]\nname = \"Test\"\nslug = \"test\"\n");
    let none: Vec<PdtTagSummary> = Vec::new();
    assert!(file.entity.tags_match(&none));
    assert_eq!(file.entity.type_tag(), None);
    assert_eq!(file.entity.default_status(), None);
    assert!(file.entity.status_values().is_none());
    assert!(file.entity.relation_fields().is_empty());
}

#[test]
fn default_status_from_the_field() {
    let file = parse(
        "[entity]\nname = \"T\"\nslug = \"t\"\n[entity.fields.status]\ntype = \"enum\"\ndefault = \"open\"\n",
    );
    assert_eq!(file.entity.default_status(), Some("open"));
    assert!(file.entity.status_values().is_none());
}

#[test]
fn sort_order_default() {
    assert_eq!(default_sort_order(), "desc");
    let file = parse(
        "[entity]\nname = \"T\"\nslug = \"t\"\n[entity.views.list]\nlayout = \"card\"\nfields = []\n[entity.views.list.sort]\nfield = \"title\"\n",
    );
    let view = file.entity.views.get("list").unwrap();
    assert_eq!(view.sort.as_ref().unwrap().order, "desc");
    assert_eq!(view.sort.as_ref().unwrap().field, "title");
}

#[test]
fn entity_file_names() {
    assert!(is_entity_file("semantic.toml"));
    assert!(is_entity_file("..toml"));
    assert!(!is_entity_file(".toml"));
    assert!(!is_entity_file("semantic.toml.bak"));
    assert!(!is_entity_file("semantictoml"));
    assert!(!is_entity_file("semantic.TOML"));
}

#[test]
fn bad_files_are_passed_over() {
    let minimal = |name: &str| {
        parse(&format!("[entity]\nname = \"{}\"\nslug = \"{}\"\n", name, name)).entity
    };
    let files = vec![
        ("a.toml".to_string(), Some(minimal("a"))),
        ("broken.toml".to_string(), None),
        ("notes.txt".to_string(), Some(minimal("n"))),
        ("b.toml".to_string(), Some(minimal("b"))),
    ];
    let loaded = load_entity_configs(files);
    let slugs: Vec<&str> = loaded.iter().map(|c| c.slug.as_str()).collect();
    assert_eq!(slugs, vec!["a", "b"]);
}
