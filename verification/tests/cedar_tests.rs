use fame::auth::extractor::{AuthenticatedUser, JwtClaims};
use fame::cedar::enforcement::{
    check_permission, check_permission_scoped, extract_claims_for_cedar, is_allowed,
    verdict_outcome, Verdict, ADMIN_GROUP_METADATA_KEY,
};
use fame::cedar::entity::{
    build_resource_uid, principal_attr_list, resource_entity, user_to_cedar_principal, Attr,
    CedarFailure,
};
use fame::entity_config::slug_to_cedar_type;
use fame::json::{text, Json};
use fame::keyed::KeyedList;

const POLICY: &str = r#"
permit (principal, action, resource)
when { principal has role && principal.role == "admin" };

permit (
    principal,
    action in [
        Action::"CreateSemanticMemory",
        Action::"CreateEpisodicMemory",
        Action::"ViewSemanticMemory",
        Action::"EditAgentIdentity",
        Action::"ViewAgentIdentity"
    ],
    resource
)
when { principal has role && principal.role == "agent" };

permit (
    principal,
    action in [
        Action::"CreateAgentIdentity",
        Action::"EditAgentIdentity",
        Action::"ViewAgentIdentity"
    ],
    resource
)
when {
    principal has role && principal.role == "user" && !(resource has admin_group)
};

permit (
    principal,
    action in [
        Action::"CreateAgentIdentity",
        Action::"EditAgentIdentity",
        Action::"ViewAgentIdentity"
    ],
    resource
)
when {
    principal has role && principal.role == "user" &&
    resource has admin_group && principal has groups &&
    principal.groups.contains(resource.admin_group)
};

permit (principal, action == Action::"ViewSemanticMemory", resource)
when { principal has role && principal.role == "user" };
"#;

const SCHEMA: &str = r#"
entity User = { email?: String, role?: String, groups?: Set<String> };
entity SemanticMemory;
entity EpisodicMemory;
entity AgentIdentity = { admin_group?: String };
action CreateSemanticMemory, ViewSemanticMemory, EditSemanticMemory, DeleteSemanticMemory
    appliesTo { principal: [User], resource: [SemanticMemory] };
action CreateEpisodicMemory appliesTo { principal: [User], resource: [EpisodicMemory] };
action CreateAgentIdentity, ViewAgentIdentity, EditAgentIdentity, DeleteAgentIdentity
    appliesTo { principal: [User], resource: [AgentIdentity] };
"#;

fn test_cedar_config() -> pep::cedar::CedarConfig {
    pep::cedar::CedarConfig {
        policy_path: std::path::PathBuf::from("/nonexistent/fame-test-policies"),
        schema_path: None,
        entities_path: None,
        default_decision: pep::cedar::config::DefaultDecision::Deny,
        validate_on_load: true,
        policy_store_url: None,
        policy_store_token: None,
        embedded_policy: Some(POLICY),
        embedded_schema: Some(SCHEMA),
    }
}

fn authorizer() -> pep::cedar::CedarAuthorizer {
    pep::cedar::CedarAuthorizer::new(test_cedar_config())
        .expect("Cedar must initialize from embedded policy/schema")
}

fn claims_with_role(role: Option<&str>) -> JwtClaims {
    let user = AuthenticatedUser {
        user_id: format!("user-{}", role.unwrap_or("norole")),
        username: Some("tester".to_string()),
        email: Some("tester@example.com".to_string()),
        claims_extra: role.map(|r| {
            let mut extra = KeyedList::new();
            extra.insert("role".to_string(), text(r));
            extra
        }),
    };
    user.to_cedar_claims()
}

fn claims_with_groups(role: &str, groups: &[&str]) -> JwtClaims {
    let mut claims = claims_with_role(Some(role));
    claims.extra.insert(
        "groups".to_string(),
        Json::List(groups.iter().map(|g| text(g)).collect()),
    );
    claims
}

#[test]
fn cedar_enforces_admin_vs_viewer() {
    let authorizer = authorizer();
    let resource_type = slug_to_cedar_type("semantic-memory");

    let admin = claims_with_role(Some("admin"));
    assert_eq!(
        check_permission(
            &authorizer,
            &admin,
            "CreateSemanticMemory",
            &resource_type,
            "<_>"
        ),
        Ok(())
    );

    let viewer = claims_with_role(Some("viewer"));
    assert_eq!(
        check_permission(&authorizer, &viewer, "CreateSemanticMemory", &resource_type, "<_>"),
        Err(403)
    );

    // No role at all is a denial, not a failure.
    let norole = claims_with_role(None);
    assert_eq!(
        check_permission(&authorizer, &norole, "CreateSemanticMemory", &resource_type, "<_>"),
        Err(403)
    );
}

#[test]
fn cedar_scopes_agent_role() {
    let authorizer = authorizer();
    let agent = claims_with_role(Some("agent"));

    assert_eq!(
        check_permission(
            &authorizer,
            &agent,
            "CreateEpisodicMemory",
            &slug_to_cedar_type("episodic-memory"),
            "<_>"
        ),
        Ok(())
    );
    assert_eq!(
        check_permission(
            &authorizer,
            &agent,
            "DeleteSemanticMemory",
            &slug_to_cedar_type("semantic-memory"),
            "<_>"
        ),
        Err(403)
    );
    assert_eq!(
        check_permission(
            &authorizer,
            &agent,
            "CreateAgentIdentity",
            &slug_to_cedar_type("agent-identity"),
            "<_>"
        ),
        Err(403)
    );
}

#[test]
fn cedar_user_role_identity_permits() {
    let authorizer = authorizer();
    let user = claims_with_role(Some("user"));
    let identity = slug_to_cedar_type("agent-identity");

    assert_eq!(
        check_permission(&authorizer, &user, "CreateAgentIdentity", &identity, "<_>"),
        Ok(())
    );
    assert_eq!(
        check_permission(
            &authorizer,
            &user,
            "EditAgentIdentity",
            &identity,
            "some-agent-id"
        ),
        Ok(())
    );
    assert_eq!(
        check_permission(
            &authorizer,
            &user,
            "ViewAgentIdentity",
            &identity,
            "some-agent-id"
        ),
        Ok(())
    );

    let memory = slug_to_cedar_type("semantic-memory");
    assert_eq!(
        check_permission(
            &authorizer,
            &user,
            "ViewSemanticMemory",
            &memory,
            "some-memory-id"
        ),
        Ok(())
    );
    assert_eq!(
        check_permission(&authorizer, &user, "CreateSemanticMemory", &memory, "<_>"),
        Err(403)
    );
    assert_eq!(
        check_permission(
            &authorizer,
            &user,
            "DeleteAgentIdentity",
            &identity,
            "some-agent-id"
        ),
        Err(403)
    );
}

#[test]
fn stored_group_scopes_an_edit() {
    let authorizer = authorizer();
    let attrs = vec![(ADMIN_GROUP_METADATA_KEY.to_string(), "ws-1-admins".to_string())];
    let check = |groups: &[&str]| {
        check_permission_scoped(
            &authorizer,
            &claims_with_groups("user", groups),
            "EditAgentIdentity",
            "AgentIdentity",
            "a-1",
            &attrs,
        )
    };
    assert_eq!(check(&["other", "ws-1-admins"]), Ok(()));
    assert_eq!(check(&["other"]), Err(403));
    assert_eq!(check(&[]), Err(403));
}

#[test]
fn invalid_type_is_a_failure() {
    let authorizer = authorizer();
    let admin = claims_with_role(Some("admin"));
    assert_eq!(
        check_permission(&authorizer, &admin, "CreateSemanticMemory", "Semantic Memory", "x"),
        Err(500)
    );
    assert!(!is_allowed(&authorizer, &admin, "CreateSemanticMemory", "Semantic Memory", "x"));
    assert!(is_allowed(&authorizer, &admin, "CreateSemanticMemory", "SemanticMemory", "x"));
    let viewer = claims_with_role(Some("viewer"));
    assert!(!is_allowed(&authorizer, &viewer, "CreateSemanticMemory", "SemanticMemory", "x"));
}

#[test]
fn resource_that_is_the_principal() {
    // Two entities with one uid that differ do not go together.
    let authorizer = authorizer();
    let admin = claims_with_role(Some("admin"));
    let attrs = vec![("admin_group".to_string(), "g".to_string())];
    assert_eq!(
        check_permission_scoped(&authorizer, &admin, "A", "User", "user-admin", &attrs),
        Err(500)
    );
    assert_eq!(
        check_permission_scoped(&authorizer, &admin, "A", "User", "other", &attrs),
        Ok(())
    );
    // With the principal's own attributes they do.
    let same = vec![
        ("email".to_string(), "tester@example.com".to_string()),
        ("role".to_string(), "admin".to_string()),
    ];
    assert_eq!(
        check_permission_scoped(&authorizer, &admin, "A", "User", "user-admin", &same),
        Ok(())
    );
}

#[test]
fn principal_without_attributes_is_decided_on() {
    let bare = AuthenticatedUser {
        user_id: "u-1".to_string(),
        username: None,
        email: None,
        claims_extra: Some(KeyedList::new()),
    }
    .to_cedar_claims();
    assert!(principal_attr_list(&bare).is_empty());
    assert!(user_to_cedar_principal(&bare).is_ok());
    assert_eq!(check_permission(&authorizer(), &bare, "A", "T", "x"), Err(403));
    assert!(!is_allowed(&authorizer(), &bare, "A", "T", "x"));
    let open = pep::cedar::CedarAuthorizer::from_policy_str(
        "permit (principal == User::\"u-1\", action == Action::\"A\", resource == T::\"x\");",
    )
    .unwrap();
    assert!(is_allowed(&open, &bare, "A", "T", "x"));
    assert!(!is_allowed(&open, &bare, "A", "T", "y"));
}

#[test]
fn failing_policy_is_no_permission() {
    let authorizer = pep::cedar::CedarAuthorizer::from_policy_str(
        "permit (principal, action, resource);\npermit (principal, action, resource) when { principal.missing == 1 };",
    )
    .unwrap();
    assert_eq!(
        check_permission(&authorizer, &claims_with_role(Some("admin")), "A", "T", "x"),
        Err(500)
    );
}

#[test]
fn verdicts() {
    let v = |allowed: bool, has_errors: bool| verdict_outcome(Verdict { allowed, has_errors });
    assert_eq!(v(true, false), Ok(()));
    assert_eq!(v(false, false), Err(403));
    assert_eq!(v(true, true), Err(500));
    assert_eq!(v(false, true), Err(500));
}

#[test]
fn uids() {
    assert_eq!(
        build_resource_uid("Task", "t-1").unwrap().to_string(),
        "Task::\"t-1\""
    );
    assert!(build_resource_uid("not a type", "t-1").is_err());
    assert!(build_resource_uid("", "t-1").is_err());
}

#[test]
fn type_names() {
    for name in ["A", "_", "_x1", "True", "a::b", "A::B::C", "__Cedar", "trueish"] {
        assert!(build_resource_uid(name, "any id, \"quoted\"").is_ok(), "{}", name);
    }
    for name in [
        "1A", "A-B", "A B", " A", "A\n", "A:B", "A:::B", "A::", "::A", "A::1", "\u{c4}", "true",
        "false", "if", "then", "else", "in", "is", "like", "has", "__cedar", "A::in", "has::A",
        "A::__cedar::B",
    ] {
        assert!(build_resource_uid(name, "x").is_err(), "{}", name);
    }
}

#[test]
fn slugs_give_type_names() {
    for slug in ["semantic-memory", "true", "--in--", "a1", "x_y", "\u{e9}t\u{e9}"] {
        assert!(build_resource_uid(&slug_to_cedar_type(slug), "x").is_ok(), "{}", slug);
    }
    for slug in ["", "-", "1-memory", "-2x"] {
        assert!(build_resource_uid(&slug_to_cedar_type(slug), "x").is_err(), "{}", slug);
    }
}

fn attr_text(attrs: &[(String, Attr)], name: &str) -> Option<String> {
    attrs.iter().find(|a| a.0 == name).map(|a| match &a.1 {
        Attr::Text(t) => t.clone(),
        Attr::TextSet(v) => v.join(","),
    })
}

#[test]
fn principals() {
    let claims = claims_with_groups("agent", &["g1", "g2"]);
    let principal = match user_to_cedar_principal(&claims) {
        Ok(p) => p,
        Err(_) => panic!("a principal"),
    };
    assert_eq!(principal.uid().to_string(), "User::\"user-agent\"");
    assert!(principal.attr("role").is_some());
    assert!(principal.attr("groups").is_some());
    assert!(principal.attr("email").is_some());

    let attrs = principal_attr_list(&claims);
    assert_eq!(attr_text(&attrs, "email").as_deref(), Some("tester@example.com"));
    assert_eq!(attr_text(&attrs, "role").as_deref(), Some("agent"));
    assert_eq!(attr_text(&attrs, "groups").as_deref(), Some("g1,g2"));
}

#[test]
fn role_as_text_or_list() {
    let mut claims = claims_with_role(Some("agent"));
    claims.extra.insert(
        "role".to_string(),
        Json::List(vec![Json::Null, text("admin"), text("agent")]),
    );
    assert_eq!(
        attr_text(&principal_attr_list(&claims), "role").as_deref(),
        Some("admin")
    );
    assert_eq!(
        check_permission(&authorizer(), &claims, "DeleteSemanticMemory", "SemanticMemory", "x"),
        Ok(())
    );
    claims.extra.insert("role".to_string(), Json::List(vec![]));
    assert_eq!(attr_text(&principal_attr_list(&claims), "role"), None);
    claims.extra.insert("role".to_string(), Json::Bool(true));
    assert_eq!(attr_text(&principal_attr_list(&claims), "role"), None);
}

#[test]
fn empty_groups_are_left_out() {
    let mut claims = claims_with_groups("agent", &[]);
    assert_eq!(attr_text(&principal_attr_list(&claims), "groups"), None);
    claims.extra.insert("groups".to_string(), text("g"));
    assert_eq!(attr_text(&principal_attr_list(&claims), "groups"), None);
    claims.email = None;
    assert_eq!(attr_text(&principal_attr_list(&claims), "email"), None);
}

#[test]
fn resources() {
    let attrs = vec![
        ("admin_group".to_string(), "a".to_string()),
        ("admin_group".to_string(), "b".to_string()),
    ];
    match resource_entity("AgentIdentity", "x", &attrs) {
        Ok(e) => {
            assert_eq!(e.uid().to_string(), "AgentIdentity::\"x\"");
            match e.attr("admin_group") {
                Some(Ok(cedar_policy::EvalResult::String(s))) => assert_eq!(s, "b"),
                _ => panic!("a text"),
            }
        }
        Err(_) => panic!("a resource"),
    }
    assert!(matches!(
        resource_entity("not a type", "x", &attrs),
        Err(CedarFailure::ResourceUid)
    ));
}

#[test]
fn claims_for_cedar() {
    let user = AuthenticatedUser {
        user_id: "u".to_string(),
        username: Some("n".to_string()),
        email: None,
        claims_extra: None,
    };
    let claims = extract_claims_for_cedar(&user);
    assert_eq!(claims.sub, "u");
    assert_eq!(claims.preferred_username.as_deref(), Some("n"));
    assert_eq!(claims.extra.get("role").unwrap().as_str(), Some("viewer"));
}
