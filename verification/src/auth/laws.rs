//! What holds of every authentication.
use crate::auth::config::AuthConfig;
use crate::auth::error::{AuthBodyView, AuthError, AuthResponse, AuthResponseView};
use crate::auth::extractor::{
    self, AuthenticatedUser, ClaimsView, ForwardedToken, InstanceContext, JwtClaims, UserView,
};
use crate::auth::middleware::{self, AuthStep, AuthStepView};
use crate::json::{self, JsonView, Members};
use crate::json_laws;
use crate::text;
use crate::text_laws;
use vstd::prelude::*;

verus! {

/// A header does not begin with `Bearer ` and more.
pub open spec fn no_bearer(header: Option<Seq<char>>) -> bool {
    header matches Some(h) ==> forall|t: Seq<char>| #[trigger] ("Bearer "@ + t) != h
}

/// The token of a header is all that follows `Bearer `.  Any other header has none.
pub proof fn law_token_is_what_follows_bearer(t: Seq<char>, header: Option<Seq<char>>)
    ensures
        middleware::bearer_token(Some("Bearer "@ + t)) == Some(t),
        middleware::bearer_token(header) is None <==> no_bearer(header),
        middleware::bearer_token(header) matches Some(token) ==> header == Some(
            "Bearer "@ + token,
        ),
{
    text_laws::law_prefix_and_rest("Bearer "@, t, "Bearer "@ + t);
    if let Some(h) = header {
        text_laws::law_prefix_and_rest("Bearer "@, t, h);
        if let Some(token) = middleware::bearer_token(header) {
            assert("Bearer "@ + token == h);
        }
    }
}

/// Where tokens are asked for, the token of the header is what is validated,
/// whole, against the configured issuer and for the configured audience; the
/// audience is looked at exactly where one is configured.
pub proof fn law_given_token_is_validated(config: AuthConfig, t: Seq<char>)
    requires
        config.enabled,
    ensures
        middleware::first_step(config, Some("Bearer "@ + t)) matches AuthStepView::Validate {
            token,
            issuer_url,
            audience,
            skip_audience_validation,
        } && token == t && issuer_url == config.issuer_url@ && skip_audience_validation == (
        config.expected_audience is None) && (config.expected_audience matches Some(a) ==> audience
            == a@) && (config.expected_audience is None ==> audience.len() == 0),
{
    law_token_is_what_follows_bearer(t, None);
    reveal_strlit("");
}

/// Where tokens are asked for, a request without one is refused for it, or goes on
/// as the development user's.  Where they are not, every request goes on, without
/// a token, and with claims only where there is a development user.
pub proof fn law_request_without_a_token(config: AuthConfig, header: Option<Seq<char>>)
    ensures
        config.enabled && no_bearer(header) && !config.dev_mode ==> middleware::first_step(
            config,
            header,
        ) == AuthStepView::Refuse(AuthError::MissingToken),
        config.enabled && no_bearer(header) && config.dev_mode ==> middleware::first_step(
            config,
            header,
        ) == (AuthStepView::Forward { claims: Some(middleware::dev_claims()), token: None }),
        !config.enabled && config.dev_mode ==> middleware::first_step(config, header) == (
        AuthStepView::Forward { claims: Some(middleware::dev_claims()), token: None }),
        !config.enabled && !config.dev_mode ==> middleware::first_step(config, header) == (
        AuthStepView::Forward { claims: None, token: None }),
{
    law_token_is_what_follows_bearer(Seq::empty(), header);
}

/// The claims of a valid token are completed as they are, with the token that was
/// validated; a token that is not valid is refused with the validator's error.
pub proof fn law_validated_claims_are_completed(
    config: AuthConfig,
    t: Seq<char>,
    c: ClaimsView,
    e: AuthError,
)
    ensures
        middleware::second_step(config, t, Ok(c)) matches AuthStepView::Enrich {
            claims,
            token,
            issuer_url,
            userinfo_url,
        } && claims == c && token == t && issuer_url == config.issuer_url@ && (
        config.userinfo_url matches Some(u) ==> userinfo_url == Some(u@)) && (
        config.userinfo_url is None ==> userinfo_url is None),
        middleware::second_step(config, t, Err(e)) == AuthStepView::Refuse(e),
{
}

/// The user of a request is the one that the claims speak of, and is authorized on
/// the claims' own subject, email, name and other claims.
pub proof fn law_user_is_the_tokens(c: ClaimsView)
    ensures
        extractor::user_of(c).user_id == c.sub,
        extractor::user_of(c).username == c.preferred_username,
        extractor::user_of(c).email == c.email,
        extractor::user_of(c).claims_extra == Some(c.extra),
        extractor::user_of(c).cedar_claims().sub == c.sub,
        extractor::user_of(c).cedar_claims().email == c.email,
        extractor::user_of(c).cedar_claims().preferred_username == c.preferred_username,
        extractor::user_of(c).cedar_claims().extra == c.extra,
{
}

/// A user without a token behind it is authorized as a viewer, and with no other
/// claim.
pub proof fn law_user_without_a_token_is_a_viewer(user: UserView, key: Seq<char>)
    requires
        user.claims_extra is None,
    ensures
        user.cedar_claims().sub == user.user_id,
        user.cedar_claims().email == user.email,
        user.cedar_claims().extra.contains_key("role"@),
        user.cedar_claims().extra["role"@] == JsonView::Text("viewer"@),
        user.cedar_claims().extra.contains_key(key) ==> key == "role"@,
        user.groups().len() == 0,
{
}

/// The groups of a user are the texts of the list under `groups`, in order.
/// Without such a list there are none.
pub proof fn law_groups_are_the_claims(user: UserView, m: Members, items: Seq<JsonView>)
    requires
        user.claims_extra == Some(m),
    ensures
        m.contains_key("groups"@) && m["groups"@] == JsonView::List(items) ==> user.groups()
            == items.filter(|v: JsonView| v is Text).map_values(|v: JsonView| v->Text_0),
        !m.contains_key("groups"@) ==> user.groups().len() == 0,
        m.contains_key("groups"@) && m["groups"@] !is List ==> user.groups().len() == 0,
{
    json_laws::law_texts_among_items(items);
}

/// The challenge gives its reason between quotes.  Of the reason it changes
/// nothing but quotes, which become apostrophes.
pub proof fn law_challenge_gives_the_reason(reason: Seq<char>, i: int)
    ensures
        crate::auth::error::challenge(reason) == "Bearer error=\"invalid_token\", error_description=\""@
            + text::replaced(reason, '"', '\'') + "\""@,
        0 <= i < reason.len() && reason[i] != '"' ==> text::replaced(reason, '"', '\'')[i]
            == reason[i],
        0 <= i < reason.len() && reason[i] == '"' ==> text::replaced(reason, '"', '\'')[i] == '\'',
        text::replaced(reason, '"', '\'').len() == reason.len(),
{
    text_laws::law_replaced(reason, '"', '\'', i);
}

/// An answer that is a text, without a challenge.
pub open spec fn is_plain(a: AuthResponseView, status: u16, body: Seq<char>) -> bool {
    a.status == status && a.www_authenticate is None && a.body == AuthBodyView::Text(body)
}

/// An answer that asks for authentication, for a reason, and tells to try again.
pub open spec fn is_rejection(
    a: AuthResponseView,
    reason: Seq<char>,
    detail: Seq<char>,
) -> bool {
    &&& a.status == 401
    &&& a.www_authenticate == Some(crate::auth::error::challenge(reason))
    &&& a.body matches AuthBodyView::Json(b) && json_laws::has(
        b,
        "error"@,
        JsonView::Text("token_expired"@),
    ) && json_laws::has(b, "retryable"@, JsonView::Bool(true)) && json_laws::has(
        b,
        "detail"@,
        JsonView::Text(detail),
    )
}

/// Each error has its answer, which gives the error's own message.
pub proof fn law_every_error_has_its_answer(m: String, status: u16)
    ensures
        crate::auth::error::answer(AuthError::MissingToken).status == 401,
        crate::auth::error::answer(AuthError::MissingToken).www_authenticate == Some(
            crate::auth::error::challenge("missing or invalid bearer token"@),
        ),
        crate::auth::error::answer(AuthError::MissingToken).body == AuthBodyView::Text(
            "Missing authentication token"@,
        ),
        is_rejection(
            crate::auth::error::answer(AuthError::InvalidToken(m)),
            "missing or invalid bearer token"@,
            "Invalid token: "@ + m@,
        ),
        is_rejection(
            crate::auth::error::answer(AuthError::EnrichmentFailed(m)),
            "token enrichment failed"@,
            m@,
        ),
        is_plain(crate::auth::error::answer(AuthError::InvalidClaims(m)), 403, "Invalid claims: "@ + m@),
        is_plain(crate::auth::error::answer(AuthError::Internal(m)), 500, "Internal error: "@ + m@),
        status != 401 ==> is_plain(
            crate::auth::error::answer(AuthError::PepError { status, message: m }),
            status,
            "PEP error: "@ + m@,
        ),
        status == 401 ==> is_rejection(
            crate::auth::error::answer(AuthError::PepError { status, message: m }),
            "missing or invalid bearer token"@,
            "PEP error: "@ + m@,
        ),
{
    reveal_strlit("error");
    reveal_strlit("retryable");
    reveal_strlit("detail");
    assert("error"@.len() == 5 && "retryable"@.len() == 9 && "detail"@.len() == 6);
}

/// The token that is taken from a header `Bearer t` is `t`, whatever `t` is; from any
/// other header none is taken.
pub proof fn law_bearer_token_is_taken_whole(h: &str, t: Seq<char>, r: Option<String>)
    requires
        call_ensures(middleware::extract_bearer_token, (Some(h),), r),
    ensures
        h@ == "Bearer "@ + t ==> r is Some && r->0@ == t,
        no_bearer(Some(h@)) ==> r is None,
{
    law_token_is_what_follows_bearer(t, Some(h@));
}

/// Where tokens are asked for, the token of the header is handed to validation
/// whole, and a request without one is not let through, unless there is a
/// development user.
pub proof fn law_first_step_validates_the_token(
    config: &AuthConfig,
    header: Option<&str>,
    t: Seq<char>,
    r: AuthStep,
)
    requires
        call_ensures(middleware::begin, (config, header), r),
        config.enabled,
    ensures
        header matches Some(h) && h@ == "Bearer "@ + t ==> (r matches AuthStep::Validate(v)
            && v.token@ == t && v.issuer_url@ == config.issuer_url@ && v.skip_audience_validation
            == (config.expected_audience is None) && (config.expected_audience matches Some(a)
            ==> v.audience@ == a@)),
        no_bearer(header.deep_view()) && !config.dev_mode ==> r == AuthStep::Refuse(
            AuthError::MissingToken,
        ),
        no_bearer(header.deep_view()) && config.dev_mode ==> (r matches AuthStep::Forward {
            claims,
            token,
        } && claims is Some && token.0 is None),
{
    law_given_token_is_validated(*config, t);
    law_request_without_a_token(*config, header.deep_view());
}

/// Where tokens are not asked for, every request goes on without a token.
pub proof fn law_first_step_without_authentication(
    config: &AuthConfig,
    header: Option<&str>,
    r: AuthStep,
)
    requires
        call_ensures(middleware::begin, (config, header), r),
        !config.enabled,
    ensures
        r matches AuthStep::Forward { claims, token } && token.0 is None && claims is Some
            == config.dev_mode,
{
    law_request_without_a_token(*config, header.deep_view());
}

/// A valid token leads to the completion of its own claims, and a refused one to
/// the refusal that the validator gave.
pub proof fn law_second_step_keeps_claims_and_token(
    config: &AuthConfig,
    t: String,
    validated: Result<JwtClaims, AuthError>,
    r: AuthStep,
)
    requires
        call_ensures(middleware::after_validation, (config, t, validated), r),
    ensures
        validated matches Ok(c) ==> (r matches AuthStep::Enrich(e) && e.token@ == t@
            && e.claims.deep_view() == c.deep_view() && e.issuer_url@ == config.issuer_url@
            && e.userinfo_url.deep_view() == config.userinfo_url.deep_view()),
        validated matches Err(e) ==> r == AuthStep::Refuse(e),
{
}

/// A request goes on after the completion of its claims exactly where that
/// succeeded: with the completed claims and the token.  A failure is refused for
/// what it was.
pub proof fn law_third_step_needs_complete_claims(
    t: String,
    enriched: Result<JwtClaims, String>,
    r: AuthStep,
)
    requires
        call_ensures(middleware::after_enrichment, (t, enriched), r),
    ensures
        r is Forward <==> enriched is Ok,
        enriched matches Ok(c) ==> (r matches AuthStep::Forward { claims, token } && token.0 is Some
            && token.0->0@ == t@ && claims is Some && claims->0.deep_view() == c.deep_view()),
        enriched matches Err(e) ==> r == AuthStep::Refuse(AuthError::EnrichmentFailed(e)),
{
}

/// The user of a request has the id, the name, the address and the claims of the
/// token, and without claims there is no user.
pub proof fn law_user_comes_from_the_claims(
    claims: Option<&JwtClaims>,
    r: Result<AuthenticatedUser, AuthError>,
)
    requires
        call_ensures(AuthenticatedUser::from_claims, (claims,), r),
    ensures
        claims matches Some(c) ==> (r matches Ok(u) && u.user_id@ == c.sub@
            && u.username.deep_view() == c.preferred_username.deep_view() && u.email.deep_view()
            == c.email.deep_view() && u.claims_extra is Some && json::members(u.claims_extra->0)
            == json::members(c.extra)),
        claims is None ==> r == Err::<AuthenticatedUser, AuthError>(AuthError::MissingToken),
{
}

/// Authorization is asked for the user's own id and address, and on the user's own
/// claims.
pub proof fn law_authorized_on_own_claims(user: &AuthenticatedUser, r: JwtClaims)
    requires
        call_ensures(AuthenticatedUser::to_cedar_claims, (user,), r),
    ensures
        r.sub@ == user.user_id@,
        r.email.deep_view() == user.email.deep_view(),
        r.preferred_username.deep_view() == user.username.deep_view(),
        r.iss@ == "nghr"@,
        r.exp == i64::MAX,
        r.aud is None && r.iat is None && r.name is None,
        user.claims_extra matches Some(m) ==> json::members(r.extra) == json::members(m),
        user.claims_extra is None ==> json::members(r.extra) == Map::empty().insert(
            "role"@,
            JsonView::Text("viewer"@),
        ),
{
}

/// The groups of a user are the texts of the list under `groups`, in order, and
/// nothing else.
pub proof fn law_user_groups_are_the_claims(user: &AuthenticatedUser, r: Vec<String>)
    requires
        call_ensures(extractor::user_groups, (user,), r),
    ensures
        user.claims_extra is None ==> r@.len() == 0,
        user.claims_extra matches Some(m) ==> {
            let all = json::members(m);
            if all.contains_key("groups"@) && all["groups"@] is List {
                text::views(r@) == all["groups"@]->List_0.filter(
                    |v: JsonView| v is Text,
                ).map_values(|v: JsonView| v->Text_0)
            } else {
                r@.len() == 0
            }
        },
{
    if let Some(m) = user.claims_extra {
        let all = json::members(m);
        let items = if all.contains_key("groups"@) && all["groups"@] is List {
            all["groups"@]->List_0
        } else {
            Seq::empty()
        };
        law_groups_are_the_claims(user.deep_view(), all, items);
    }
    assert(text::views(r@).len() == r@.len());
}

/// An error is answered with its status, its challenge and its message.
pub proof fn law_error_is_answered(m: String, status: u16, e: AuthError, r: AuthResponse)
    requires
        call_ensures(AuthError::into_response, (e,), r),
    ensures
        e == AuthError::MissingToken ==> r.status == 401 && r.www_authenticate is Some && r.body@
            == AuthBodyView::Text("Missing authentication token"@),
        e == AuthError::InvalidToken(m) ==> is_rejection(
            r.deep_view(),
            "missing or invalid bearer token"@,
            "Invalid token: "@ + m@,
        ),
        e == AuthError::EnrichmentFailed(m) ==> is_rejection(
            r.deep_view(),
            "token enrichment failed"@,
            m@,
        ),
        e == AuthError::InvalidClaims(m) ==> is_plain(
            r.deep_view(),
            403,
            "Invalid claims: "@ + m@,
        ),
        e == AuthError::Internal(m) ==> is_plain(r.deep_view(), 500, "Internal error: "@ + m@),
        e == (AuthError::PepError { status, message: m }) && status != 401 ==> is_plain(
            r.deep_view(),
            status,
            "PEP error: "@ + m@,
        ),
        e == (AuthError::PepError { status, message: m }) && status == 401 ==> is_rejection(
            r.deep_view(),
            "missing or invalid bearer token"@,
            "PEP error: "@ + m@,
        ),
        r.deep_view().status == r.status,
        r.deep_view().www_authenticate == r.www_authenticate.deep_view(),
        r.deep_view().body == r.body@,
{
    law_every_error_has_its_answer(m, status);
}

/// An error says what it is, with the reason that it was made for.
pub proof fn law_errors_say_what_they_are(e: &AuthError, r: String, m: String, status: u16)
    requires
        call_ensures(AuthError::message, (e,), r),
    ensures
        *e == AuthError::MissingToken ==> r@ == "Missing authentication token"@,
        *e == AuthError::InvalidToken(m) ==> r@ == "Invalid token: "@ + m@,
        *e == AuthError::InvalidClaims(m) ==> r@ == "Invalid claims: "@ + m@,
        *e == AuthError::EnrichmentFailed(m) ==> r@ == "Token enrichment failed: "@ + m@,
        *e == (AuthError::PepError { status, message: m }) ==> r@ == "PEP error: "@ + m@,
        *e == AuthError::Internal(m) ==> r@ == "Internal error: "@ + m@,
{
}

/// The challenge is `Bearer` with the error `invalid_token` and the reason between
/// quotes; a quote in the reason becomes an apostrophe, and nothing else changes.
pub proof fn law_challenge_is_made_of_the_reason(reason: &str, r: String, inner: Seq<char>)
    requires
        call_ensures(AuthError::www_authenticate, (reason,), r),
        inner.len() == reason@.len(),
        forall|i: int|
            0 <= i < inner.len() ==> #[trigger] inner[i] == (if reason@[i] == '"' {
                '\''
            } else {
                reason@[i]
            }),
    ensures
        r@ == "Bearer error=\"invalid_token\", error_description=\""@ + inner + "\""@,
{
    let changed = text::replaced(reason@, '"', '\'');
    law_challenge_gives_the_reason(reason@, 0);
    assert forall|i: int| 0 <= i < inner.len() implies #[trigger] inner[i] == changed[i] by {
        law_challenge_gives_the_reason(reason@, i);
    }
    assert(inner =~= changed);
}

/// The validator's own refusal of a token is answered as a rejection, with its
/// message; any other error of it is answered with its status and message.
pub proof fn law_validator_errors_are_answered(status: u16, m: String, r: AuthResponse)
    requires
        call_ensures(crate::auth::error::validator_response, (status, m), r),
    ensures
        status == 401 ==> is_rejection(
            r.deep_view(),
            "missing or invalid bearer token"@,
            m@,
        ),
        status != 401 ==> is_plain(r.deep_view(), status, m@),
{
    reveal_strlit("error");
    reveal_strlit("retryable");
    reveal_strlit("detail");
    assert("error"@.len() == 5 && "retryable"@.len() == 9 && "detail"@.len() == 6);
}

/// The instance of a request is the one that the authentication layer left, else the
/// one of the header; the layer leaves the one of the header.
pub proof fn law_instance_is_the_headers(
    left: Option<&InstanceContext>,
    header: Option<&str>,
    r: InstanceContext,
    id: Option<&str>,
    made: InstanceContext,
)
    requires
        call_ensures(InstanceContext::from_request, (left, header), r),
        call_ensures(InstanceContext::as_deref, (&r,), id),
        call_ensures(middleware::instance_context, (header,), made),
    ensures
        left is Some && left->0.instance_id is Some ==> id is Some && id->0@
            == left->0.instance_id->0@,
        (left is None || left->0.instance_id is None) && header is Some ==> id is Some && id->0@
            == header->0@,
        (left is None || left->0.instance_id is None) && header is None ==> id is None,
        header is Some ==> made.instance_id is Some && made.instance_id->0@ == header->0@,
        header is None ==> made.instance_id is None,
{
    assert(id.deep_view() == r.instance_id.deep_view());
    assert(made.instance_id.deep_view() == header.deep_view());
}

/// The token that goes with requests made on behalf of a request is the one that the
/// authentication layer left.
pub proof fn law_forwarded_token_is_the_one_left(
    left: Option<&ForwardedToken>,
    r: ForwardedToken,
)
    requires
        call_ensures(ForwardedToken::from_extension, (left,), r),
    ensures
        left is Some && (left->0).0 is Some ==> r.0 is Some && r.0->0@ == (left->0).0->0@,
        left is None || (left->0).0 is None ==> r.0 is None,
{
    assert(left is Some ==> r.0.deep_view() == (left->0).0.deep_view());
}

/// The development user is an administrator among the developers, and a request
/// that goes on as the development user's goes on with those claims.
pub proof fn law_development_user_is_an_administrator(
    config: &AuthConfig,
    header: Option<&str>,
    r: AuthStep,
    dev: JwtClaims,
)
    requires
        call_ensures(middleware::begin, (config, header), r),
        call_ensures(middleware::mock_claims, (), dev),
        config.dev_mode,
        !config.enabled || no_bearer(header.deep_view()),
    ensures
        r matches AuthStep::Forward { claims, token } && claims is Some && claims->0.deep_view()
            == dev.deep_view() && token.0 is None,
        dev.sub@ == "dev-user-id"@,
        dev.iss@ == "dev-issuer"@,
        dev.aud is Some && dev.aud->0@ == "dev-audience"@,
        dev.exp == 9999999999 && dev.iat == Some(0i64),
        dev.email is Some && dev.email->0@ == "dev@example.com"@,
        dev.name is Some && dev.name->0@ == "Dev User"@,
        dev.preferred_username is Some && dev.preferred_username->0@ == "dev-user"@,
        json::members(dev.extra).contains_key("role"@),
        json::members(dev.extra)["role"@] == JsonView::Text("admin"@),
        json::members(dev.extra).contains_key("groups"@),
        json::members(dev.extra)["groups"@] == JsonView::List(
            seq![JsonView::Text("developers"@)],
        ),
{
    reveal_strlit("role");
    reveal_strlit("groups");
    assert("role"@.len() == 4 && "groups"@.len() == 6);
    law_request_without_a_token(*config, header.deep_view());
    assert(dev.deep_view().sub == dev.sub@);
    assert(dev.deep_view().aud == dev.aud.deep_view());
    assert(dev.deep_view().email == dev.email.deep_view());
    assert(dev.deep_view().name == dev.name.deep_view());
    assert(dev.deep_view().preferred_username == dev.preferred_username.deep_view());
    assert(dev.deep_view().extra == json::members(dev.extra));
    assert(json::text_list(seq!["developers"@])->List_0 =~= seq![JsonView::Text("developers"@)]);
}

/// The validator's error keeps its status.
pub proof fn law_validator_status_is_kept(e: &pep::error::PepError, r: AuthError)
    requires
        call_ensures(AuthError::from_pep, (e,), r),
    ensures
        r matches AuthError::PepError { status, message } && status
            == crate::auth::validator::pep_status(*e),
{
}

} // verus!
