//! What every configuration comes to.
use crate::auth::config::AuthConfig;
use crate::auth::extractor::{ForwardedToken, InstanceContext};
use crate::config::{self, CedarConfig, CedarEnv, Config};
use crate::entity_config::{self, CedarActions, FieldType};
use crate::hashing;
use crate::json::{Json, JsonView};
use crate::json_laws;
use crate::text;
use crate::text_laws;
use vstd::prelude::*;

verus! {

/// A variable of the environment says a text.
pub open spec fn says(value: Option<String>, t: Seq<char>) -> bool {
    value is Some && value->0@ == t
}

/// A variable of the environment is taken where it is set, and another text is where
/// it is not.
pub open spec fn is_taken(r: String, value: Option<String>, other: Seq<char>) -> bool {
    &&& value is Some ==> r@ == value->0@
    &&& value is None ==> r@ == other
}

/// An optional text is kept as it is.
pub open spec fn is_kept(r: Option<String>, value: Option<String>) -> bool {
    r is Some == value is Some && (value is Some ==> r->0@ == value->0@)
}

/// Authorization is off, and policies go without validation, only where the
/// environment says `false`; every path is the environment's where it gives one.
pub proof fn law_authorization_is_on_unless_told_otherwise(env: &CedarEnv, r: CedarConfig)
    requires
        call_ensures(CedarConfig::from_env, (env,), r),
    ensures
        !r.enabled <==> says(env.enabled, "false"@),
        !r.validate_on_load <==> says(env.validate_on_load, "false"@),
        is_taken(r.policy_path, env.policy_path, "./policies"@),
        is_taken(r.schema_path, env.schema_path, "./policies/schema.cedarschema"@),
        is_kept(r.policy_store_url, env.policy_store_url),
        is_kept(r.policy_store_token, env.policy_store_token),
{
    assert(r.policy_store_url.deep_view() == env.policy_store_url.deep_view());
    assert(r.policy_store_token.deep_view() == env.policy_store_token.deep_view());
}

/// Entity definitions are read from the directory that the environment names, else
/// from the configured one.
pub proof fn law_environment_names_the_directory(c: &Config, env: Option<&str>, r: String)
    requires
        call_ensures(Config::entity_dir_or, (c, env), r),
    ensures
        env is Some ==> r@ == env->0@,
        env is None ==> r@ == c.entity_dir@,
{
}

/// The server listens at its host and its port, which is written in digits.
pub proof fn law_address_is_host_and_port(c: &Config, r: String, port: Seq<char>)
    requires
        call_ensures(Config::address, (c,), r),
        port == r@.skip(c.host@.len() + 1int),
    ensures
        r@ == c.host@ + seq![':'] + port,
        text_laws::number_of(port) == c.port,
        port.len() > 0,
        forall|i: int| 0 <= i < port.len() ==> '0' <= #[trigger] port[i] && port[i] <= '9',
        port[0] == '0' ==> c.port == 0,
{
    reveal_strlit(":");
    assert(":"@ =~= seq![':']);
    text_laws::law_digits_stand_for_the_number(c.port as nat);
    text_laws::law_decimal(c.port as int);
    assert(text::decimal(c.port as int) == text::digits(c.port as nat));
    assert(port =~= text::decimal(c.port as int));
}

/// The server has policies in force exactly where it is told to and they were
/// loaded; where it is told to and they were not, it does not start.
pub proof fn law_no_start_without_the_policies<A>(
    enabled: bool,
    loaded: Option<Result<A, String>>,
    r: Result<Option<A>, String>,
)
    requires
        call_ensures(config::authorizer_at_start::<A>, (enabled, loaded), r),
    ensures
        r is Ok <==> !enabled || (loaded is Some && loaded->0 is Ok),
        r is Ok ==> (r->Ok_0 is Some <==> enabled),
        r is Ok && enabled ==> r->Ok_0->0 == loaded->0->Ok_0,
        enabled && loaded is Some && loaded->0 is Err ==> r->Err_0@ == "Failed to init Cedar: "@
            + loaded->0->Err_0@,
{
}

/// The server says that it is well, what it is, and in which version, and nothing
/// else.
pub proof fn law_health_gives_the_version(version: &str, r: Json, other: Seq<char>)
    requires
        call_ensures(config::health_report, (version,), r),
        other != "status"@ && other != "service"@ && other != "version"@,
    ensures
        json_laws::has(r.model(), "status"@, JsonView::Text("OK"@)),
        json_laws::has(r.model(), "service"@, JsonView::Text("fame"@)),
        json_laws::has(r.model(), "version"@, JsonView::Text(version@)),
        json_laws::lacks(r.model(), other),
{
    reveal_strlit("status");
    reveal_strlit("service");
    reveal_strlit("version");
    assert("status"@.len() == 6 && "service"@[0] == 's' && "service"@.len() == 7
        && "version"@[0] == 'v' && "version"@.len() == 7);
}

/// A hash is `sha256:` and two small hexadecimal digits for each byte of the digest,
/// which stand for it.
pub proof fn law_hash_is_the_digest_in_hexadecimal(digest: &Vec<u8>, r: String, i: int)
    requires
        call_ensures(hashing::write_hash, (digest,), r),
        0 <= i < digest@.len(),
    ensures
        r@.len() == 7 + 2 * digest@.len(),
        r@.take(7) == seq!['s', 'h', 'a', '2', '5', '6', ':'],
        16 * text_laws::hex_value(r@[7 + 2 * i]) + text_laws::hex_value(r@[7 + 2 * i + 1])
            == digest@[i],
{
    reveal_strlit("sha256:");
    text_laws::law_hex_stands_for_the_bytes(digest@, i);
    assert("sha256:"@ =~= seq!['s', 'h', 'a', '2', '5', '6', ':']);
    assert(r@.take(7) =~= "sha256:"@);
    assert(r@[7 + 2 * i] == text::hex(digest@)[2 * i]);
    assert(r@[7 + 2 * i + 1] == text::hex(digest@)[2 * i + 1]);
}

/// The hash of a text is that of the digest of its UTF-8 bytes: texts with one
/// encoding, and digests that are the same, give one hash.
pub proof fn law_text_is_hashed_by_its_digest(
    s: &str,
    r: String,
    digest: &Vec<u8>,
    written: String,
)
    requires
        call_ensures(hashing::hash_text, (s,), r),
        digest@ == hashing::sha256_digest(vstd::utf8::encode_utf8(s@)),
        call_ensures(hashing::write_hash, (digest,), written),
    ensures
        r@ == written@,
{
}

/// What a definition or a configuration does not say: the directory of the
/// definitions is `entities`, the handler is the generic one, and a view is sorted
/// downwards.
pub proof fn law_what_is_not_said(dir: String, handler: String, order: String)
    requires
        call_ensures(config::default_entity_dir, (), dir),
        call_ensures(entity_config::default_handler, (), handler),
        call_ensures(entity_config::default_sort_order, (), order),
    ensures
        dir@ == "entities"@,
        handler@ == "generic"@,
        order@ == "desc"@,
{
}

/// What is not configured at all: no token is asked for and there is no development
/// user, no audience is looked at, and claims are completed at the issuer; a
/// definition names no action, a field is a text, no token is forwarded, and a
/// request is for no instance.
pub proof fn law_nothing_is_configured(
    auth: AuthConfig,
    actions: CedarActions,
    field: FieldType,
    token: ForwardedToken,
    instance: InstanceContext,
)
    requires
        call_ensures(AuthConfig::default, (), auth),
        call_ensures(CedarActions::default, (), actions),
        call_ensures(FieldType::default, (), field),
        call_ensures(ForwardedToken::default, (), token),
        call_ensures(InstanceContext::default, (), instance),
    ensures
        !auth.enabled && !auth.dev_mode,
        auth.issuer_url@ == "http://localhost:8080"@,
        auth.expected_audience is None && auth.userinfo_url is None,
        actions.action_create is None && actions.action_read is None,
        actions.action_edit is None && actions.action_delete is None,
        field is Text,
        token.0 is None,
        instance.instance_id is None,
{
}

} // verus!
