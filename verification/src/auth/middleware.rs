//! The authentication layer's decisions.
//!
//! A request is taken through up to three steps.  The first looks at the
//! configuration and the `Authorization` header, the second at what the token
//! validator said, the third at whether the claims could be completed.  Each
//! step ends in a refusal, in the request going on to its handler, or in the
//! work that the next step waits for.
use crate::auth::config::AuthConfig;
use crate::auth::error::AuthError;
use crate::auth::extractor::{ClaimsView, ForwardedToken, InstanceContext, JwtClaims};
use crate::entity_config::as_text;
use crate::json::{self, empty_object, text, with, Json, JsonView};
use crate::text::{self, owned, strip_prefix};
use vstd::prelude::*;

verus! {

/// What becomes of a request.
pub enum AuthStep {
    /// The request goes on to its handler, with these claims and this token.
    Forward { claims: Option<JwtClaims>, token: ForwardedToken },
    /// The token is to be validated.
    Validate(Validation),
    /// The claims are to be completed.
    Enrich(Enrichment),
    /// The request is refused.
    Refuse(AuthError),
}

/// A token to be validated.
pub struct Validation {
    pub token: String,
    pub issuer_url: String,
    pub audience: String,
    pub skip_audience_validation: bool,
}

/// Claims to be completed.
pub struct Enrichment {
    pub claims: JwtClaims,
    pub token: String,
    pub issuer_url: String,
    pub userinfo_url: Option<String>,
}

/// What becomes of a request, as a value.
#[allow(inconsistent_fields)]
pub enum AuthStepView {
    Forward { claims: Option<ClaimsView>, token: Option<Seq<char>> },
    Validate {
        token: Seq<char>,
        issuer_url: Seq<char>,
        audience: Seq<char>,
        skip_audience_validation: bool,
    },
    Enrich {
        claims: ClaimsView,
        token: Seq<char>,
        issuer_url: Seq<char>,
        userinfo_url: Option<Seq<char>>,
    },
    Refuse(AuthError),
}

impl View for AuthStep {
    type V = AuthStepView;

    open spec fn view(&self) -> AuthStepView {
        match *self {
            AuthStep::Forward { claims, token } => AuthStepView::Forward {
                claims: match claims {
                    Some(c) => Some(c.deep_view()),
                    None => None,
                },
                token: token.0.deep_view(),
            },
            AuthStep::Validate(v) => AuthStepView::Validate {
                token: v.token@,
                issuer_url: v.issuer_url@,
                audience: v.audience@,
                skip_audience_validation: v.skip_audience_validation,
            },
            AuthStep::Enrich(e) => AuthStepView::Enrich {
                claims: e.claims.deep_view(),
                token: e.token@,
                issuer_url: e.issuer_url@,
                userinfo_url: e.userinfo_url.deep_view(),
            },
            AuthStep::Refuse(e) => AuthStepView::Refuse(e),
        }
    }
}

/// The token of an `Authorization` header.
pub open spec fn bearer_token(header: Option<Seq<char>>) -> Option<Seq<char>> {
    match header {
        Some(h) => text::without_prefix(h, "Bearer "@),
        None => None,
    }
}

/// The token of an `Authorization` header.
pub fn extract_bearer_token(header: Option<&str>) -> (r: Option<String>)
    ensures
        r.deep_view() == bearer_token(header.deep_view()),
{
    match header {
        Some(h) => owned(strip_prefix(h, "Bearer ")),
        None => None,
    }
}

/// The claims of the development user.
pub open spec fn dev_claims() -> ClaimsView {
    ClaimsView {
        sub: "dev-user-id"@,
        iss: "dev-issuer"@,
        aud: Some("dev-audience"@),
        exp: 9999999999,
        iat: Some(0),
        email: Some("dev@example.com"@),
        name: Some("Dev User"@),
        preferred_username: Some("dev-user"@),
        extra: Map::empty().insert("role"@, JsonView::Text("admin"@)).insert(
            "groups"@,
            json::text_list(seq!["developers"@]),
        ),
    }
}

/// The claims of the development user, who is an administrator.
pub fn mock_claims() -> (r: JwtClaims)
    ensures
        r.deep_view() == dev_claims(),
{
    let mut groups: Vec<Json> = Vec::new();
    groups.push(text("developers"));
    let list = Json::List(groups);
    assert(list.model()->List_0 =~= json::text_list(seq!["developers"@])->List_0);
    let extra = with(empty_object(), "role", text("admin"));
    let extra = with(extra, "groups", list);
    JwtClaims {
        sub: "dev-user-id".to_owned(),
        iss: "dev-issuer".to_owned(),
        aud: Some("dev-audience".to_owned()),
        exp: 9999999999,
        iat: Some(0),
        email: Some("dev@example.com".to_owned()),
        name: Some("Dev User".to_owned()),
        preferred_username: Some("dev-user".to_owned()),
        extra,
    }
}

/// The instance of a request, from its `X-Instance-Id` header.
pub fn instance_context(header: Option<&str>) -> (r: InstanceContext)
    ensures
        r.instance_id.deep_view() == header.deep_view(),
{
    InstanceContext { instance_id: owned(header) }
}

/// The development user's claims, where there is a development user.
pub open spec fn dev_user(dev_mode: bool) -> Option<ClaimsView> {
    if dev_mode {
        Some(dev_claims())
    } else {
        None
    }
}

/// The first step.
pub open spec fn first_step(config: AuthConfig, header: Option<Seq<char>>) -> AuthStepView {
    if !config.enabled {
        AuthStepView::Forward { claims: dev_user(config.dev_mode), token: None }
    } else {
        match bearer_token(header) {
            Some(token) => AuthStepView::Validate {
                token,
                issuer_url: config.issuer_url@,
                audience: match config.expected_audience {
                    Some(a) => a@,
                    None => ""@,
                },
                skip_audience_validation: config.expected_audience is None,
            },
            None => if config.dev_mode {
                AuthStepView::Forward { claims: dev_user(true), token: None }
            } else {
                AuthStepView::Refuse(AuthError::MissingToken)
            },
        }
    }
}

/// The first step: by the configuration and the `Authorization` header.
///
/// Where tokens are not asked for, the request goes on as it is, or as the
/// development user's.  Where they are, a request without one is refused, unless
/// there is a development user.
pub fn begin(config: &AuthConfig, header: Option<&str>) -> (r: AuthStep)
    ensures
        r@ == first_step(*config, header.deep_view()),
{
    if !config.enabled {
        let claims = if config.dev_mode {
            Some(mock_claims())
        } else {
            None
        };
        return AuthStep::Forward { claims, token: ForwardedToken(None) };
    }
    match extract_bearer_token(header) {
        Some(token) => {
            let audience = match &config.expected_audience {
                Some(a) => a.clone(),
                None => "".to_owned(),
            };
            AuthStep::Validate(
                Validation {
                    token,
                    issuer_url: config.issuer_url.clone(),
                    audience,
                    skip_audience_validation: config.expected_audience.is_none(),
                },
            )
        },
        None => if config.dev_mode {
            AuthStep::Forward { claims: Some(mock_claims()), token: ForwardedToken(None) }
        } else {
            AuthStep::Refuse(AuthError::MissingToken)
        },
    }
}

/// The second step.
pub open spec fn second_step(
    config: AuthConfig,
    token: Seq<char>,
    validated: Result<ClaimsView, AuthError>,
) -> AuthStepView {
    match validated {
        Ok(claims) => AuthStepView::Enrich {
            claims,
            token,
            issuer_url: config.issuer_url@,
            userinfo_url: config.userinfo_url.deep_view(),
        },
        Err(e) => AuthStepView::Refuse(e),
    }
}

/// What the token validator said, as a value.
pub open spec fn validated_view(validated: Result<JwtClaims, AuthError>) -> Result<
    ClaimsView,
    AuthError,
> {
    match validated {
        Ok(claims) => Ok(claims.deep_view()),
        Err(e) => Err(e),
    }
}

/// The second step: by what the token validator said.
pub fn after_validation(
    config: &AuthConfig,
    token: String,
    validated: Result<JwtClaims, AuthError>,
) -> (r: AuthStep)
    ensures
        r@ == second_step(*config, token@, validated_view(validated)),
{
    match validated {
        Ok(claims) => AuthStep::Enrich(
            Enrichment {
                claims,
                token,
                issuer_url: config.issuer_url.clone(),
                userinfo_url: owned(as_text(&config.userinfo_url)),
            },
        ),
        Err(e) => AuthStep::Refuse(e),
    }
}

/// The third step: by whether the claims could be completed.
///
/// A failure is a failure to authenticate.  The request is refused; it never
/// goes on with the claims as they were.
pub fn after_enrichment(token: String, enriched: Result<JwtClaims, String>) -> (r: AuthStep)
    ensures
        enriched matches Ok(claims) ==> r@ == (AuthStepView::Forward {
            claims: Some(claims.deep_view()),
            token: Some(token@),
        }),
        enriched matches Err(e) ==> r == AuthStep::Refuse(AuthError::EnrichmentFailed(e)),
{
    match enriched {
        Ok(claims) => AuthStep::Forward {
            claims: Some(claims),
            token: ForwardedToken(Some(token)),
        },
        Err(e) => AuthStep::Refuse(AuthError::EnrichmentFailed(e)),
    }
}

/// A request without a bearer token goes on as the development user's exactly
/// where there is a development user, also where tokens are asked for.
pub proof fn law_development_user(config: AuthConfig, header: Option<Seq<char>>)
    requires
        bearer_token(header) is None,
    ensures
        config.dev_mode ==> first_step(config, header) == (AuthStepView::Forward {
            claims: Some(dev_claims()),
            token: None,
        }),
        !config.dev_mode && config.enabled ==> first_step(config, header) == AuthStepView::Refuse(
            AuthError::MissingToken,
        ),
{
}

/// Where tokens are asked for and there is no development user, no request goes
/// on at the first step: it is refused or its token is validated.
pub proof fn law_no_request_goes_on_unvalidated(config: AuthConfig, header: Option<Seq<char>>)
    requires
        config.enabled,
        !config.dev_mode,
    ensures
        first_step(config, header) !is Forward,
        first_step(config, header) is Validate == bearer_token(header) is Some,
{
}

/// A refused token is never passed on: the second step never lets a request go on.
pub proof fn law_validation_alone_does_not_let_go_on(
    config: AuthConfig,
    token: Seq<char>,
    validated: Result<ClaimsView, AuthError>,
)
    ensures
        second_step(config, token, validated) !is Forward,
        validated is Err ==> second_step(config, token, validated) is Refuse,
{
}

} // verus!
