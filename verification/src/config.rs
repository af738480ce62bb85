//! The configuration of the server, and what it comes to at the start.
use crate::auth::config::AuthConfig;
use crate::entity_config::as_text;
use crate::json::{text, Json, JsonView};
use crate::objects::{self, make_obj3};
use crate::text::{self, decimal_text, join2, join3, owned, same};
use vstd::prelude::*;

verus! {

/// The configuration of the server.
pub struct Config {
    pub host: String,
    pub port: u16,
    /// Where PDT is.
    pub pdt_url: String,
    /// The directory of the entity definitions.
    pub entity_dir: String,
    pub auth: AuthConfig,
    pub cedar: CedarConfig,
}

/// The directory of the entity definitions, where none is configured.
pub fn default_entity_dir() -> (r: String)
    ensures
        r@ == "entities"@,
{
    "entities".to_owned()
}

/// How authorization is set up.
pub struct CedarConfig {
    pub enabled: bool,
    pub policy_path: String,
    pub schema_path: String,
    pub validate_on_load: bool,
    /// Where policies are fetched from, where they are fetched.
    pub policy_store_url: Option<String>,
    /// The bearer token for that place.
    pub policy_store_token: Option<String>,
}

/// The environment that authorization is set up from.
pub struct CedarEnv {
    pub enabled: Option<String>,
    pub policy_path: Option<String>,
    pub schema_path: Option<String>,
    pub validate_on_load: Option<String>,
    pub policy_store_url: Option<String>,
    pub policy_store_token: Option<String>,
}

/// A switch: off only where it says `false`.
pub open spec fn switch(value: Option<Seq<char>>) -> bool {
    value != Some("false"@)
}

/// A text, or another where there is none.
pub open spec fn text_or(value: Option<Seq<char>>, other: Seq<char>) -> Seq<char> {
    match value {
        Some(v) => v,
        None => other,
    }
}

fn read_switch(value: &Option<String>) -> (r: bool)
    ensures
        r == switch(value.deep_view()),
{
    match value {
        Some(v) => !same(v.as_str(), "false"),
        None => true,
    }
}

fn read_text(value: &Option<String>, other: &str) -> (r: String)
    ensures
        r@ == text_or(value.deep_view(), other@),
{
    match value {
        Some(v) => v.clone(),
        None => other.to_owned(),
    }
}

impl CedarConfig {
    /// How authorization is set up where the configuration does not say.
    ///
    /// It is enabled, and policies are validated, unless the environment says
    /// `false`.
    pub fn from_env(env: &CedarEnv) -> (r: Self)
        ensures
            r.enabled == switch(env.enabled.deep_view()),
            r.policy_path@ == text_or(env.policy_path.deep_view(), "./policies"@),
            r.schema_path@ == text_or(
                env.schema_path.deep_view(),
                "./policies/schema.cedarschema"@,
            ),
            r.validate_on_load == switch(env.validate_on_load.deep_view()),
            r.policy_store_url.deep_view() == env.policy_store_url.deep_view(),
            r.policy_store_token.deep_view() == env.policy_store_token.deep_view(),
    {
        CedarConfig {
            enabled: read_switch(&env.enabled),
            policy_path: read_text(&env.policy_path, "./policies"),
            schema_path: read_text(&env.schema_path, "./policies/schema.cedarschema"),
            validate_on_load: read_switch(&env.validate_on_load),
            policy_store_url: owned(as_text(&env.policy_store_url)),
            policy_store_token: owned(as_text(&env.policy_store_token)),
        }
    }
}

impl Config {
    /// The directory that entity definitions are read from: the environment's,
    /// else the configured one.
    pub fn entity_dir_or(&self, env: Option<&str>) -> (r: String)
        ensures
            r@ == text_or(env.deep_view(), self.entity_dir@),
    {
        match env {
            Some(dir) => dir.to_owned(),
            None => self.entity_dir.clone(),
        }
    }

    /// Where the server listens.
    pub fn address(&self) -> (r: String)
        ensures
            r@ == self.host@ + ":"@ + text::decimal(self.port as int),
    {
        join3(self.host.as_str(), ":", decimal_text(self.port as i64).as_str())
    }
}

/// What the server starts with: policies in force, or none.
///
/// Where authorization is enabled and cannot be set up, the server does not start:
/// it never runs without the authorization it was told to have.
pub fn authorizer_at_start<A>(enabled: bool, loaded: Option<Result<A, String>>) -> (r: Result<
    Option<A>,
    String,
>)
    ensures
        !enabled ==> r == Ok::<Option<A>, String>(None),
        enabled && loaded is None ==> r is Err,
        enabled && loaded is Some && loaded->0 is Ok ==> r == Ok::<Option<A>, String>(
            Some(loaded->0->Ok_0),
        ),
        enabled && loaded is Some && loaded->0 is Err ==> r is Err && r->Err_0@
            == "Failed to init Cedar: "@ + loaded->0->Err_0@,
{
    if !enabled {
        return Ok(None);
    }
    match loaded {
        Some(Ok(a)) => Ok(Some(a)),
        Some(Err(e)) => Err(join2("Failed to init Cedar: ", e.as_str())),
        None => Err("Failed to init Cedar: no policies were loaded".to_owned()),
    }
}

/// What the server says of its health.
pub open spec fn health(version: Seq<char>) -> JsonView {
    objects::obj3(
        "status"@,
        JsonView::Text("OK"@),
        "service"@,
        JsonView::Text("fame"@),
        "version"@,
        JsonView::Text(version),
    )
}

/// What the server says of its health: that it is well, what it is, and in which
/// version.
pub fn health_report(version: &str) -> (r: Json)
    ensures
        r.model() == health(version@),
{
    make_obj3("status", text("OK"), "service", text("fame"), "version", text(version))
}

} // verus!
