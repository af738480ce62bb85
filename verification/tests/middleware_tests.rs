use fame::auth::config::AuthConfig;
use fame::auth::error::AuthError;
use fame::auth::extractor::{
    user_groups, AuthenticatedUser, ForwardedToken, InstanceContext, JwtClaims,
};
use fame::auth::middleware::{
    after_enrichment, after_validation, begin, extract_bearer_token, instance_context, mock_claims,
    AuthStep,
};
use fame::json::{text, Json};
use fame::keyed::KeyedList;

fn config(enabled: bool, dev_mode: bool) -> AuthConfig {
    AuthConfig {
        enabled,
        dev_mode,
        issuer_url: "https://idp.example.com".to_string(),
        expected_audience: None,
        userinfo_url: Some("https://idp.example.com/me".to_string()),
    }
}

fn claims(sub: &str) -> JwtClaims {
    let mut extra = KeyedList::new();
    extra.insert("role".to_string(), text("agent"));
    JwtClaims {
        sub: sub.to_string(),
        iss: "issuer".to_string(),
        aud: None,
        exp: 10,
        iat: None,
        email: Some("a@example.com".to_string()),
        name: None,
        preferred_username: Some("alice".to_string()),
        extra,
    }
}

#[test]
fn bearer_tokens() {
    assert_eq!(extract_bearer_token(Some("Bearer abc")).as_deref(), Some("abc"));
    assert_eq!(extract_bearer_token(Some("Bearer ")).as_deref(), Some(""));
    assert_eq!(extract_bearer_token(Some("bearer abc")), None);
    assert_eq!(extract_bearer_token(Some("Basic abc")), None);
    assert_eq!(extract_bearer_token(None), None);
}

#[test]
fn disabled_passes_through() {
    match begin(&config(false, false), Some("Bearer abc")) {
        AuthStep::Forward { claims, token } => {
            assert!(claims.is_none());
            assert!(token.0.is_none());
        }
        _ => panic!("the request goes on"),
    }
}

#[test]
fn development_user_without_a_token() {
    for enabled in [false, true] {
        match begin(&config(enabled, true), None) {
            AuthStep::Forward { claims, token } => {
                let c = claims.expect("the development user");
                assert_eq!(c.sub, "dev-user-id");
                assert!(token.0.is_none());
            }
            _ => panic!("the request goes on"),
        }
    }
    let c = mock_claims();
    assert_eq!(c.iss, "dev-issuer");
    assert_eq!(c.aud.as_deref(), Some("dev-audience"));
    assert_eq!(c.exp, 9999999999);
    assert_eq!(c.iat, Some(0));
    assert_eq!(c.email.as_deref(), Some("dev@example.com"));
    assert_eq!(c.name.as_deref(), Some("Dev User"));
    assert_eq!(c.preferred_username.as_deref(), Some("dev-user"));
    assert_eq!(c.extra.get("role").unwrap().as_str(), Some("admin"));
    let groups = c.extra.get("groups").unwrap().as_list().unwrap();
    assert_eq!(groups.len(), 1);
    assert_eq!(groups[0].as_str(), Some("developers"));
}

#[test]
fn missing_token_is_refused() {
    assert!(matches!(
        begin(&config(true, false), None),
        AuthStep::Refuse(AuthError::MissingToken)
    ));
    assert!(matches!(
        begin(&config(true, false), Some("Basic x")),
        AuthStep::Refuse(AuthError::MissingToken)
    ));
}

#[test]
fn token_is_validated() {
    match begin(&config(true, true), Some("Bearer abc")) {
        AuthStep::Validate(v) => {
            assert_eq!(v.token, "abc");
            assert_eq!(v.issuer_url, "https://idp.example.com");
            assert_eq!(v.audience, "");
            assert!(v.skip_audience_validation);
        }
        _ => panic!("the token is validated"),
    }
    let mut c = config(true, false);
    c.expected_audience = Some("fame".to_string());
    match begin(&c, Some("Bearer abc")) {
        AuthStep::Validate(v) => {
            assert_eq!(v.audience, "fame");
            assert!(!v.skip_audience_validation);
        }
        _ => panic!("the token is validated"),
    }
}

#[test]
fn validation_is_followed_by_enrichment() {
    match after_validation(&config(true, false), "abc".to_string(), Ok(claims("u"))) {
        AuthStep::Enrich(e) => {
            assert_eq!(e.claims.sub, "u");
            assert_eq!(e.token, "abc");
            assert_eq!(e.issuer_url, "https://idp.example.com");
            assert_eq!(e.userinfo_url.as_deref(), Some("https://idp.example.com/me"));
        }
        _ => panic!("the claims are completed"),
    }
    let refused = AuthError::from_pep(&pep::error::PepError::JwtValidation("x".to_string()));
    match after_validation(&config(true, false), "abc".to_string(), Err(refused)) {
        AuthStep::Refuse(e) => assert_eq!(e.into_response().status, 401),
        _ => panic!("the request is refused"),
    }
}

#[test]
fn enrichment_failure_never_goes_on() {
    match after_enrichment("abc".to_string(), Err("down".to_string())) {
        AuthStep::Refuse(e) => {
            assert_eq!(e.message(), "Token enrichment failed: down");
            assert_eq!(e.into_response().status, 401);
        }
        _ => panic!("the request is refused"),
    }
    match after_enrichment("abc".to_string(), Ok(claims("u"))) {
        AuthStep::Forward { claims, token } => {
            assert_eq!(claims.unwrap().sub, "u");
            assert_eq!(token.0.as_deref(), Some("abc"));
        }
        _ => panic!("the request goes on"),
    }
}

#[test]
fn users_come_from_claims() {
    let c = claims("u");
    let user = match AuthenticatedUser::from_claims(Some(&c)) {
        Ok(u) => u,
        Err(_) => panic!("there are claims"),
    };
    assert_eq!(user.user_id, "u");
    assert_eq!(user.username.as_deref(), Some("alice"));
    assert_eq!(user.email.as_deref(), Some("a@example.com"));
    let cedar = user.to_cedar_claims();
    assert_eq!(cedar.sub, "u");
    assert_eq!(cedar.iss, "nghr");
    assert_eq!(cedar.exp, i64::MAX);
    assert_eq!(cedar.extra.get("role").unwrap().as_str(), Some("agent"));
    match AuthenticatedUser::from_claims(None) {
        Err(e) => assert_eq!(e.into_response().status, 401),
        Ok(_) => panic!("there are no claims"),
    }
}

#[test]
fn no_role_is_made_up() {
    let mut user = AuthenticatedUser {
        user_id: "u".to_string(),
        username: None,
        email: None,
        claims_extra: Some(KeyedList::new()),
    };
    assert!(user.to_cedar_claims().extra.get("role").is_none());
    user.claims_extra = None;
    assert_eq!(
        user.to_cedar_claims().extra.get("role").unwrap().as_str(),
        Some("viewer")
    );
}

#[test]
fn groups_of_a_user() {
    let mut extra = KeyedList::new();
    extra.insert(
        "groups".to_string(),
        Json::List(vec![text("a"), Json::Null, text("b")]),
    );
    let mut user = AuthenticatedUser {
        user_id: "u".to_string(),
        username: None,
        email: None,
        claims_extra: Some(extra),
    };
    assert_eq!(user_groups(&user), vec!["a", "b"]);
    let mut extra = KeyedList::new();
    extra.insert("groups".to_string(), text("a"));
    user.claims_extra = Some(extra);
    assert!(user_groups(&user).is_empty());
    user.claims_extra = None;
    assert!(user_groups(&user).is_empty());
}

#[test]
fn instance_and_token_of_a_request() {
    let left = instance_context(Some("agent-1"));
    assert_eq!(left.as_deref(), Some("agent-1"));
    assert_eq!(
        InstanceContext::from_request(Some(&left), Some("agent-2")).as_deref(),
        Some("agent-1")
    );
    let none = InstanceContext::default();
    assert_eq!(
        InstanceContext::from_request(Some(&none), Some("agent-2")).as_deref(),
        Some("agent-2")
    );
    assert_eq!(InstanceContext::from_request(None, None).as_deref(), None);
    let token = ForwardedToken(Some("t".to_string()));
    assert_eq!(ForwardedToken::from_extension(Some(&token)).0.as_deref(), Some("t"));
    assert!(ForwardedToken::from_extension(None).0.is_none());
    assert!(ForwardedToken::default().0.is_none());
}

#[test]
fn auth_defaults() {
    let c = AuthConfig::default();
    assert!(!c.enabled);
    assert!(!c.dev_mode);
    assert_eq!(c.issuer_url, "http://localhost:8080");
}
