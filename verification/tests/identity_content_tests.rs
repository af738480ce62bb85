//! Content changes of agent identities, against an in-memory PDT and real policies.
use fame::api::ApiError;
use fame::auth::extractor::AuthenticatedUser;
use fame::entity_config::{CedarActions, EntityConfig, FieldConfig, FieldType};
use fame::entity_handlers::listing::{get_entity_config, relation_requests};
use fame::entity_handlers::update::{
    update_identity_content_decide, update_identity_content_finish, update_identity_content_start,
};
use fame::json::{text, Json};
use fame::keyed::KeyedList;
use fame::pdt::client::{Method, PdtClient, PdtRequest};
use fame::pdt::types::{PdtAsset, PdtRelation, PdtTag};
use sha2::Digest;

const ADMIN_GROUP: &str = "ws-1-admins";
const OLD: &str = "old charter";
const NEW: &str = "new charter";
const BASE: &str = "http://pdt.example.com";
const AGENT: &str = "agent-1";
const IDENTITY: &str = "ident-0001";

const POLICY: &str = r#"
permit (principal, action, resource)
when { principal has role && principal.role == "admin" };

permit (principal, action == Action::"EditAgentIdentity", resource)
when { principal has role && principal.role == "agent" };

permit (principal, action == Action::"EditAgentIdentity", resource)
when {
    principal has role && principal.role == "user" &&
    principal has groups && resource has admin_group &&
    principal.groups.contains(resource.admin_group)
};
"#;

fn user_with(role: &str, groups: &[&str]) -> AuthenticatedUser {
    let mut extra = KeyedList::new();
    extra.insert("role".to_string(), text(role));
    extra.insert(
        "groups".to_string(),
        Json::List(groups.iter().map(|g| text(g)).collect()),
    );
    AuthenticatedUser {
        user_id: "user-test".to_string(),
        username: Some("tester".to_string()),
        email: None,
        claims_extra: Some(extra),
    }
}

fn sha_hex(s: &str) -> String {
    format!("sha256:{:x}", sha2::Sha256::digest(s.as_bytes()))
}

fn field(map: &str) -> FieldConfig {
    FieldConfig {
        field_type: FieldType::Markdown,
        required: false,
        label: None,
        map: Some(map.to_string()),
        values: None,
        default: None,
        badge: false,
        in_views: Vec::new(),
        target_entity: None,
        relation_type: None,
    }
}

fn identity_config() -> EntityConfig {
    let mut fields = KeyedList::new();
    fields.insert("name".to_string(), field("title_suffix"));
    fields.insert("content".to_string(), field("content"));
    let mut default_tags = KeyedList::new();
    default_tags.insert("type".to_string(), "agent-identity".to_string());
    EntityConfig {
        name: "Agent Identity".to_string(),
        slug: "agent-identity".to_string(),
        title_prefix: "Identity: ".to_string(),
        handler: "generic".to_string(),
        default_tags,
        cedar: CedarActions {
            action_create: Some("CreateAgentIdentity".to_string()),
            action_read: Some("ViewAgentIdentity".to_string()),
            action_edit: Some("EditAgentIdentity".to_string()),
            action_delete: None,
        },
        fields,
        views: KeyedList::new(),
    }
}

/// An in-memory PDT with the assets of one instance.
struct Store {
    assets: Vec<PdtAsset>,
}

fn copy(a: &PdtAsset) -> PdtAsset {
    let mut metadata = KeyedList::new();
    let mut i = 0;
    while i < a.metadata.len() {
        let e = a.metadata.entry(i);
        metadata.insert(e.0.clone(), e.1.clone());
        i += 1;
    }
    PdtAsset {
        id: a.id.clone(),
        title: a.title.clone(),
        content: a.content.clone(),
        tags: a
            .tags
            .iter()
            .map(|t| PdtTag {
                id: t.id.clone(),
                category: t.category.clone(),
                value: t.value.clone(),
                added_by: t.added_by.clone(),
                added_at: t.added_at.clone(),
            })
            .collect(),
        metadata,
        created_at: a.created_at.clone(),
        updated_at: a.updated_at.clone(),
        created_by: a.created_by.clone(),
        updated_by: a.updated_by.clone(),
        deleted_at: None,
        auth_context: None,
    }
}

impl Store {
    fn send(&mut self, request: &PdtRequest) -> Result<PdtAsset, String> {
        assert_eq!(request.instance_id.as_deref(), Some(AGENT), "every request is routed");
        let id = request
            .url
            .strip_prefix("http://pdt.example.com/api/assets/")
            .expect("an asset");
        let found = self.assets.iter_mut().find(|a| a.id == id);
        match found {
            None => {
                let refused = request.check_status(404, "404 Not Found", "{\"error\":\"not found\"}");
                match refused {
                    Err(e) => Err(e),
                    Ok(()) => Err("no asset".to_string()),
                }
            }
            Some(asset) => {
                if request.method == Method::Put {
                    let body = request.body.as_ref().expect("a body");
                    asset.content = body.get_text("content").expect("a content").to_string();
                    asset.updated_at = "2026-08-31T12:00:00Z".to_string();
                }
                Ok(copy(asset))
            }
        }
    }
}

struct TestEnv {
    store: Store,
    client: PdtClient,
    authorizer: pep::cedar::CedarAuthorizer,
    configs: Vec<EntityConfig>,
}

fn test_env() -> TestEnv {
    let mut metadata = KeyedList::new();
    metadata.insert("admin_group".to_string(), text(ADMIN_GROUP));
    let tag = |category: &str, value: &str| PdtTag {
        id: format!("tag-{}", category),
        category: category.to_string(),
        value: value.to_string(),
        added_by: String::new(),
        added_at: String::new(),
    };
    TestEnv {
        store: Store {
            assets: vec![PdtAsset {
                id: IDENTITY.to_string(),
                title: "Identity: Test Agent".to_string(),
                content: OLD.to_string(),
                tags: vec![tag("type", "agent-identity"), tag("agent", AGENT)],
                metadata,
                created_at: "2026-08-29T00:00:00Z".to_string(),
                updated_at: "2026-08-29T00:00:00Z".to_string(),
                created_by: String::new(),
                updated_by: String::new(),
                deleted_at: None,
                auth_context: None,
            }],
        },
        client: PdtClient::new(BASE),
        authorizer: pep::cedar::CedarAuthorizer::from_policy_str(POLICY).expect("policies load"),
        configs: vec![identity_config()],
    }
}

fn body(content: &str) -> Json {
    let mut o = KeyedList::new();
    o.insert("content".to_string(), text(content));
    Json::Object(o)
}

fn call(
    env: &mut TestEnv,
    user: &AuthenticatedUser,
    instance: Option<&str>,
    id: &str,
    body: Json,
) -> Result<Json, ApiError> {
    let slug = "agent-identity";
    let read = update_identity_content_start(&env.configs, &env.client, instance, slug, id, None)?;
    let fetched = env.store.send(&read);
    let change = update_identity_content_decide(
        &env.configs,
        Some(&env.authorizer),
        user,
        &env.client,
        instance,
        slug,
        id,
        &body,
        &fetched,
        None,
    )?;
    let updated = env.store.send(&change.request);
    let config = get_entity_config(&env.configs, slug).expect("the kind");
    let replies: Vec<Option<Vec<PdtRelation>>> = relation_requests(config, &env.client, instance, id, None)
        .iter()
        .map(|_| Some(Vec::new()))
        .collect();
    let old = match fetched {
        Ok(asset) => asset,
        Err(_) => panic!("a change needs an asset"),
    };
    update_identity_content_finish(config, &old, &change.content, updated, &replies)
}

fn allowed(r: Result<Json, ApiError>) -> Json {
    match r {
        Ok(j) => j,
        Err(e) => panic!("refused with {}", e.status),
    }
}

fn refused(r: Result<Json, ApiError>) -> ApiError {
    match r {
        Ok(_) => panic!("a refusal was expected"),
        Err(e) => e,
    }
}

#[test]
fn roundtrip_updates_in_place_with_hash_echo() {
    let mut env = test_env();
    let resp = allowed(call(
        &mut env,
        &user_with("user", &[ADMIN_GROUP]),
        Some(AGENT),
        IDENTITY,
        body(NEW),
    ));
    assert_eq!(resp.get_text("content"), Some(NEW), "content lands");
    let hashes = resp.get("content_hash").unwrap();
    assert_eq!(hashes.get_text("old"), Some(sha_hex(OLD).as_str()), "old hash echoes");
    assert_eq!(hashes.get_text("new"), Some(sha_hex(NEW).as_str()), "new hash echoes");
    assert_eq!(env.store.assets.len(), 1, "zero duplicate identity records");
    assert_eq!(env.store.assets[0].content, NEW);
}

#[test]
fn unknown_identity_is_loud_404() {
    let mut env = test_env();
    let err = refused(call(
        &mut env,
        &user_with("admin", &[]),
        Some(AGENT),
        "ident-missing",
        body(NEW),
    ));
    assert_eq!(err.status, 404);
    assert!(err
        .body
        .get_text("error")
        .unwrap()
        .contains("Agent identity not found"));
    assert_eq!(
        err.body.get_text("error"),
        Some("Agent identity not found: ident-missing (PDT get_asset failed (404 Not Found): {\"error\":\"not found\"})")
    );
    assert_eq!(env.store.assets.len(), 1, "never created");
}

#[test]
fn cedar_denies_principal_outside_admin_group() {
    let mut env = test_env();
    let err = refused(call(
        &mut env,
        &user_with("user", &["some-other-group"]),
        Some(AGENT),
        IDENTITY,
        body(NEW),
    ));
    assert_eq!(err.status, 403);
    assert_eq!(err.body.get_text("error"), Some("Access denied"));
    assert_eq!(env.store.assets[0].content, OLD, "denied write must not land");
}

#[test]
fn admin_role_edits_without_group() {
    let mut env = test_env();
    let resp = allowed(call(
        &mut env,
        &user_with("admin", &[]),
        Some(AGENT),
        IDENTITY,
        body(NEW),
    ));
    assert_eq!(resp.get_text("content"), Some(NEW));
}

#[test]
fn agent_role_edits_own_identity() {
    let mut env = test_env();
    let resp = allowed(call(
        &mut env,
        &user_with("agent", &[]),
        Some(AGENT),
        IDENTITY,
        body("self-written charter"),
    ));
    assert_eq!(resp.get_text("content"), Some("self-written charter"));
}

#[test]
fn empty_content_is_explicit_wipe() {
    let mut env = test_env();
    let resp = allowed(call(
        &mut env,
        &user_with("user", &[ADMIN_GROUP]),
        Some(AGENT),
        IDENTITY,
        body(""),
    ));
    assert_eq!(
        resp.get("content_hash").unwrap().get_text("new"),
        Some(sha_hex("").as_str())
    );
    assert_eq!(env.store.assets[0].content, "", "wipe stored as empty string");

    // The next change finds an empty content, which has no hash.
    let resp = allowed(call(
        &mut env,
        &user_with("admin", &[]),
        Some(AGENT),
        IDENTITY,
        body(NEW),
    ));
    assert!(matches!(resp.get("content_hash").unwrap().get("old"), Some(Json::Null)));
}

#[test]
fn missing_instance_header_is_loud_400() {
    let mut env = test_env();
    let err = refused(call(
        &mut env,
        &user_with("admin", &[]),
        None,
        IDENTITY,
        body(NEW),
    ));
    assert_eq!(err.status, 400);
    assert!(err
        .body
        .get_text("error")
        .unwrap()
        .contains("X-Instance-Id header required"));
}

#[test]
fn content_is_required() {
    let mut env = test_env();
    let err = refused(call(
        &mut env,
        &user_with("admin", &[]),
        Some(AGENT),
        IDENTITY,
        Json::Object(KeyedList::new()),
    ));
    assert_eq!(err.status, 400);
    assert_eq!(
        err.body.get_text("error"),
        Some("Missing or non-string 'content' field")
    );
    // A denied caller is not told what is missing.
    let err = refused(call(
        &mut env,
        &user_with("user", &[]),
        Some(AGENT),
        IDENTITY,
        Json::Null,
    ));
    assert_eq!(err.status, 403);
}

#[test]
fn unknown_kind_is_404() {
    let mut env = test_env();
    env.configs = Vec::new();
    let err = refused(call(
        &mut env,
        &user_with("admin", &[]),
        Some(AGENT),
        IDENTITY,
        body(NEW),
    ));
    assert_eq!(err.status, 404);
    assert_eq!(err.body.get_text("error"), Some("Unknown entity type: agent-identity"));
}

#[test]
fn failed_update_is_500() {
    let env = test_env();
    let old = copy(&env.store.assets[0]);
    let err = match update_identity_content_finish(
        &env.configs[0],
        &old,
        NEW,
        Err("down".to_string()),
        &Vec::new(),
    ) {
        Err(e) => e,
        Ok(_) => panic!("a refusal was expected"),
    };
    assert_eq!(err.status, 500);
    assert_eq!(
        err.body.get_text("error"),
        Some("Failed to update identity content: down")
    );
}
