//! Changing entities: the status of any, the content of an agent identity.
use crate::api::{self, refuse, ApiError, BAD_REQUEST, INTERNAL_SERVER_ERROR, NOT_FOUND};
use crate::auth::extractor::AuthenticatedUser;
use crate::cedar::enforcement::ADMIN_GROUP_METADATA_KEY;
use crate::entity_config::{contains_text, EntityConfig};
use crate::entity_handlers::create::{self, authorize};
use crate::entity_handlers::listing::{self, find_config};
use crate::entity_handlers::mapping::{
    self, map_asset_to_entity_with_relations, related_entity_table,
};
use crate::hashing::{self, hash_text};
use crate::json::{self, empty_object, put, text, text_member, texts, with, Json, JsonView};
use crate::pdt::client::{self, PdtClient, PdtRequest, ReplyForm, RequestView};
use crate::pdt::types::{self, PdtAsset, PdtRelation};
use crate::text::{self, join2, join3, same};
use vstd::prelude::*;
use vstd::string::*;

verus! {

/// The group that administers a stored entity, from its metadata.  It never comes
/// from the request: who asks cannot declare a group of their own.
pub open spec fn stored_group(asset: PdtAsset) -> Option<Seq<char>> {
    json::text_member_of(json::members(asset.metadata), ADMIN_GROUP_METADATA_KEY@)
}

fn admin_group_of(asset: &PdtAsset) -> (r: Option<&str>)
    ensures
        r.deep_view() == stored_group(*asset),
{
    text_member(&asset.metadata, ADMIN_GROUP_METADATA_KEY)
}

/// A status change looks at the stored asset before it is decided: where
/// authorization of an agent identity is in force.
pub open spec fn status_reads_first(in_force: bool, config: EntityConfig, slug: Seq<char>) -> bool {
    in_force && config.cedar.action_edit is Some && slug == "agent-identity"@
}

/// The request that a status change begins with, where it begins with one.
pub fn update_status_start(
    configs: &Vec<EntityConfig>,
    in_force: bool,
    pdt: &PdtClient,
    instance: Option<&str>,
    slug: &str,
    id: &str,
    token: Option<&str>,
) -> (r: Result<Option<PdtRequest>, ApiError>)
    ensures
        match listing::config_for(configs@, slug@) {
            None => r is Err && r->Err_0.deep_view() == listing::unknown_entity(slug@),
            Some(config) => {
                &&& r is Ok
                &&& r->Ok_0 is Some == status_reads_first(in_force, config, slug@)
                &&& r->Ok_0 is Some ==> r->Ok_0->0.deep_view() == client::checked_get(
                    client::asset_url(pdt.base(), id@),
                    token.deep_view(),
                    instance.deep_view(),
                    "get_asset"@,
                    ReplyForm::Asset,
                )
            },
        },
{
    match find_config(configs, slug) {
        Err(e) => Err(e),
        Ok(config) => {
            if in_force && config.cedar.action_edit.is_some() && same(slug, "agent-identity") {
                Ok(Some(pdt.for_instance(instance).get_asset(id, token)))
            } else {
                Ok(None)
            }
        },
    }
}

/// The refusal of a status that is not among the allowed ones.
pub open spec fn invalid_status(allowed: Seq<Seq<char>>, got: Seq<char>) -> api::ApiErrorView {
    api::ApiErrorView {
        status: BAD_REQUEST,
        body: JsonView::Object(
            Map::empty().insert("error"@, JsonView::Text("Invalid status"@)).insert(
                "allowed_values"@,
                json::text_list(allowed),
            ).insert("got"@, JsonView::Text(got)),
        ),
    }
}

/// What a status change comes to, given whether it is permitted: a refusal, or the
/// new status.
pub open spec fn status_or_refusal(
    config: EntityConfig,
    body: JsonView,
    permission: Result<(), u16>,
) -> Result<Seq<char>, api::ApiErrorView> {
    match permission {
        Err(status) => Err(api::refusal(status, "Access denied"@)),
        Ok(_) => match body.text_member("status"@) {
            None => Err(api::refusal(BAD_REQUEST, "Missing 'status' field"@)),
            Some(new) => match config.allowed_statuses() {
                Some(allowed) if !allowed.contains(new) => Err(invalid_status(allowed, new)),
                _ => Ok(new),
            },
        },
    }
}

/// A text or a refusal, as a value.
pub open spec fn text_result(r: Result<String, ApiError>) -> Result<Seq<char>, api::ApiErrorView> {
    match r {
        Ok(s) => Ok(s@),
        Err(e) => Err(e.deep_view()),
    }
}

fn copy_texts(items: &[String]) -> (r: Vec<String>)
    ensures
        text::views(r@) == text::views(items@),
{
    let mut r: Vec<String> = Vec::new();
    let mut i: usize = 0;
    while i < items.len()
        invariant
            i <= items.len(),
            r@.len() == i,
            forall|j: int| 0 <= j < i ==> (#[trigger] r@[j])@ == items@[j]@,
        decreases items.len() - i,
    {
        r.push(items[i].clone());
        i = i + 1;
    }
    assert(text::views(r@) =~= text::views(items@));
    r
}

/// Checks a status change, given whether it is permitted.
pub fn check_status(config: &EntityConfig, body: &Json, permission: Result<(), u16>) -> (r: Result<
    String,
    ApiError,
>)
    ensures
        text_result(r) == status_or_refusal(*config, body.model(), permission),
{
    if let Err(status) = permission {
        return Err(refuse(status, "Access denied"));
    }
    let new = match body.get_text("status") {
        Some(s) => s,
        None => {
            return Err(refuse(BAD_REQUEST, "Missing 'status' field"));
        },
    };
    if let Some(allowed) = config.status_values() {
        if !contains_text(allowed, new) {
            let copy = copy_texts(allowed);
            proof {
                text::lemma_views(copy);
            }
            let o = with(empty_object(), "error", text("Invalid status"));
            let o = with(o, "allowed_values", texts(&copy));
            let o = with(o, "got", text(new));
            return Err(ApiError { status: BAD_REQUEST, body: Json::Object(o) });
        }
    }
    Ok(new.to_owned())
}

/// The group that a status change is authorized against.
pub open spec fn status_group(slug: Seq<char>, fetched: Option<&PdtAsset>) -> Option<Seq<char>> {
    if slug == "agent-identity"@ && fetched is Some {
        stored_group(*fetched->0)
    } else {
        None
    }
}

/// A status change that was decided on.
pub struct StatusChange {
    /// The request that adds the tag.
    pub tag: PdtRequest,
    /// The request that reads the asset afterwards.
    pub read: PdtRequest,
}

/// A status change, as a value.
pub struct StatusChangeView {
    pub tag: RequestView,
    pub read: RequestView,
}

impl DeepView for StatusChange {
    type V = StatusChangeView;

    open spec fn deep_view(&self) -> StatusChangeView {
        StatusChangeView { tag: self.tag.deep_view(), read: self.read.deep_view() }
    }
}

/// The requests that change the status: the tag is added, the asset is read.
pub open spec fn status_requests(
    base: Seq<char>,
    instance: Option<Seq<char>>,
    id: Seq<char>,
    status: Seq<char>,
    token: Option<Seq<char>>,
) -> StatusChangeView {
    StatusChangeView {
        tag: client::request(
            client::Method::Post,
            client::asset_url(base, id) + "/tags"@,
            token,
            instance,
            Some(types::tag_json(("status"@, status))),
            ReplyForm::Nothing,
        ),
        read: client::request(
            client::Method::Get,
            client::asset_url(base, id),
            token,
            instance,
            None,
            ReplyForm::Asset,
        ),
    }
}

/// Decides a status change.
///
/// `fetched` is the asset that was read first, where one was read.  The checks
/// come in this order: the kind must be known, the user must be permitted to edit,
/// a status must be given, it must be an allowed one.
pub fn update_status_decide(
    configs: &Vec<EntityConfig>,
    authorizer: Option<&pep::cedar::CedarAuthorizer>,
    user: &AuthenticatedUser,
    pdt: &PdtClient,
    instance: Option<&str>,
    slug: &str,
    id: &str,
    body: &Json,
    fetched: Option<&PdtAsset>,
    token: Option<&str>,
) -> (r: Result<StatusChange, ApiError>)
    ensures
        match listing::config_for(configs@, slug@) {
            None => r is Err && r->Err_0.deep_view() == listing::unknown_entity(slug@),
            Some(config) => exists|permission: Result<(), u16>| #[trigger]
                create::possible_answer(
                    authorizer,
                    user.deep_view(),
                    config.cedar.action_edit.deep_view(),
                    config.slug@,
                    id@,
                    status_group(slug@, fetched),
                    permission,
                ) && match status_or_refusal(config, body.model(), permission) {
                    Err(e) => r is Err && r->Err_0.deep_view() == e,
                    Ok(status) => r is Ok && r->Ok_0.deep_view() == status_requests(
                        pdt.base(),
                        instance.deep_view(),
                        id@,
                        status,
                        token.deep_view(),
                    ),
                },
        },
{
    let config = match find_config(configs, slug) {
        Ok(c) => c,
        Err(e) => {
            return Err(e);
        },
    };
    let group = if same(slug, "agent-identity") {
        match fetched {
            Some(asset) => admin_group_of(asset),
            None => None,
        }
    } else {
        None
    };
    let permission = authorize(
        authorizer,
        user,
        &config.cedar.action_edit,
        config.slug.as_str(),
        id,
        group,
    );
    match check_status(config, body, permission) {
        Err(e) => Err(e),
        Ok(status) => {
            let client = pdt.for_instance(instance);
            let mut requests = client.update_asset_tag(id, "status", status.as_str(), token);
            let ghost sent = requests.deep_view();
            assert(requests@.len() == sent.len());
            assert(requests@[0].deep_view() == sent[0] && requests@[1].deep_view() == sent[1]);
            let read = requests.pop().unwrap();
            let tag = requests.pop().unwrap();
            Ok(StatusChange { tag, read })
        },
    }
}

/// What follows the reply to the tag of a status change: the asset is read, unless
/// the tag could not be sent.
pub fn update_status_read(change: &StatusChange, tagged: Result<(), String>) -> (r: Result<
    &PdtRequest,
    ApiError,
>)
    ensures
        match tagged {
            Ok(_) => r is Ok && *r->Ok_0 == change.read,
            Err(e) => r is Err && r->Err_0.deep_view() == api::refusal(INTERNAL_SERVER_ERROR, e@),
        },
{
    match tagged {
        Ok(_) => Ok(&change.read),
        Err(e) => Err(refuse(INTERNAL_SERVER_ERROR, e.as_str())),
    }
}

/// The answer to a status change: the entity as it is now.
pub fn update_status_finish(
    config: &EntityConfig,
    updated: Result<PdtAsset, String>,
    replies: &Vec<Option<Vec<PdtRelation>>>,
) -> (r: Result<Json, ApiError>)
    ensures
        match updated {
            Ok(asset) => r is Ok && r->Ok_0.model() == JsonView::Object(
                mapping::related_entity(asset, *config, replies@),
            ),
            Err(e) => r is Err && r->Err_0.deep_view() == api::refusal(INTERNAL_SERVER_ERROR, e@),
        },
{
    match updated {
        Ok(asset) => Ok(map_asset_to_entity_with_relations(&asset, config, replies)),
        Err(e) => Err(refuse(INTERNAL_SERVER_ERROR, e.as_str())),
    }
}

/// The refusal of a content change without an instance.
pub open spec fn instance_required() -> api::ApiErrorView {
    api::refusal(
        BAD_REQUEST,
        "X-Instance-Id header required: agent identity content                 updates are instance-scoped (the identity lives in the agent's nested DB)"@,
    )
}

fn refuse_without_instance() -> (r: ApiError)
    ensures
        r.deep_view() == instance_required(),
{
    refuse(
        BAD_REQUEST,
        "X-Instance-Id header required: agent identity content                 updates are instance-scoped (the identity lives in the agent's nested DB)",
    )
}

/// The refusal of a content change of an identity that is not there.
pub open spec fn identity_not_found(id: Seq<char>, e: Seq<char>) -> api::ApiErrorView {
    api::refusal(NOT_FOUND, "Agent identity not found: "@ + id + " ("@ + e + ")"@)
}

/// What stands in the way of a content change before it is authorized: no
/// instance, no such kind, no such identity.
pub open spec fn content_obstacle(
    configs: Seq<EntityConfig>,
    instance: Option<Seq<char>>,
    slug: Seq<char>,
    id: Seq<char>,
    fetched: Result<PdtAsset, String>,
) -> Option<api::ApiErrorView> {
    if instance is None {
        Some(instance_required())
    } else if listing::config_for(configs, slug) is None {
        Some(listing::unknown_entity(slug))
    } else {
        match fetched {
            Err(e) => Some(identity_not_found(id, e@)),
            Ok(_) => None,
        }
    }
}

/// What a content change of an identity that is there comes to, given whether it
/// is permitted: a refusal, or the new content.  An empty content is a content.
pub open spec fn content_or_refusal(body: JsonView, permission: Result<(), u16>) -> Result<
    Seq<char>,
    api::ApiErrorView,
> {
    match permission {
        Err(status) => Err(api::refusal(status, "Access denied"@)),
        Ok(_) => match body.text_member("content"@) {
            None => Err(api::refusal(BAD_REQUEST, "Missing or non-string 'content' field"@)),
            Some(content) => Ok(content),
        },
    }
}

/// Checks a content change of an identity that is there, given whether it is
/// permitted.
pub fn check_content(body: &Json, permission: Result<(), u16>) -> (r: Result<String, ApiError>)
    ensures
        text_result(r) == content_or_refusal(body.model(), permission),
{
    if let Err(status) = permission {
        return Err(refuse(status, "Access denied"));
    }
    match body.get_text("content") {
        Some(c) => Ok(c.to_owned()),
        None => Err(refuse(BAD_REQUEST, "Missing or non-string 'content' field")),
    }
}

/// The request that a content change begins with: the identity is read.
///
/// An identity belongs to an instance, so a change without one is refused.
pub fn update_identity_content_start(
    configs: &Vec<EntityConfig>,
    pdt: &PdtClient,
    instance: Option<&str>,
    slug: &str,
    id: &str,
    token: Option<&str>,
) -> (r: Result<PdtRequest, ApiError>)
    ensures
        if instance is None {
            r is Err && r->Err_0.deep_view() == instance_required()
        } else if listing::config_for(configs@, slug@) is None {
            r is Err && r->Err_0.deep_view() == listing::unknown_entity(slug@)
        } else {
            r is Ok && r->Ok_0.deep_view() == client::checked_get(
                client::asset_url(pdt.base(), id@),
                token.deep_view(),
                instance.deep_view(),
                "get_asset"@,
                ReplyForm::Asset,
            )
        },
{
    if instance.is_none() {
        return Err(refuse_without_instance());
    }
    match find_config(configs, slug) {
        Ok(_) => Ok(pdt.for_instance(instance).get_asset(id, token)),
        Err(e) => Err(e),
    }
}

/// A content change that was decided on.
pub struct ContentChange {
    /// The new content.
    pub content: String,
    /// The request that makes it.
    pub request: PdtRequest,
}

/// A content change, or its refusal, as a value.
pub open spec fn change_is(
    r: Result<ContentChange, ApiError>,
    decided: Result<Seq<char>, api::ApiErrorView>,
    base: Seq<char>,
    instance: Option<Seq<char>>,
    id: Seq<char>,
    token: Option<Seq<char>>,
) -> bool {
    match decided {
        Err(e) => r is Err && r->Err_0.deep_view() == e,
        Ok(content) => r is Ok && r->Ok_0.content@ == content && r->Ok_0.request.deep_view()
            == client::request(
            client::Method::Put,
            client::asset_url(base, id),
            token,
            instance,
            Some(client::text_body("content"@, content)),
            ReplyForm::AssetOrData,
        ),
    }
}

/// Decides a content change, by the identity that was read.
///
/// The checks come in this order: there must be an instance, the kind must be
/// known, the identity must be there, the user must be permitted to edit it, a
/// content must be given.  An identity that is not there is never created.
pub fn update_identity_content_decide(
    configs: &Vec<EntityConfig>,
    authorizer: Option<&pep::cedar::CedarAuthorizer>,
    user: &AuthenticatedUser,
    pdt: &PdtClient,
    instance: Option<&str>,
    slug: &str,
    id: &str,
    body: &Json,
    fetched: &Result<PdtAsset, String>,
    token: Option<&str>,
) -> (r: Result<ContentChange, ApiError>)
    ensures
        match content_obstacle(configs@, instance.deep_view(), slug@, id@, *fetched) {
            Some(e) => r is Err && r->Err_0.deep_view() == e,
            None => {
                let config = listing::config_for(configs@, slug@)->0;
                exists|permission: Result<(), u16>| #[trigger]
                    create::possible_answer(
                        authorizer,
                        user.deep_view(),
                        config.cedar.action_edit.deep_view(),
                        config.slug@,
                        id@,
                        stored_group(fetched->Ok_0),
                        permission,
                    ) && change_is(
                        r,
                        content_or_refusal(body.model(), permission),
                        pdt.base(),
                        instance.deep_view(),
                        id@,
                        token.deep_view(),
                    )
            },
        },
{
    if instance.is_none() {
        return Err(refuse_without_instance());
    }
    let config = match find_config(configs, slug) {
        Ok(c) => c,
        Err(e) => {
            return Err(e);
        },
    };
    match fetched {
        Err(e) => Err(
            refuse(
                NOT_FOUND,
                join3("Agent identity not found: ", id, " (").concat(e.as_str()).concat(
                    ")",
                ).as_str(),
            ),
        ),
        Ok(asset) => {
            let permission = authorize(
                authorizer,
                user,
                &config.cedar.action_edit,
                config.slug.as_str(),
                id,
                admin_group_of(asset),
            );
            match check_content(body, permission) {
                Err(e) => Err(e),
                Ok(content) => {
                    let request = pdt.for_instance(instance).update_asset_content(id, content.as_str(), token);
                    Ok(ContentChange { content, request })
                },
            }
        },
    }
}

/// The hashes of the old and the new content.  An empty old content has none.
pub open spec fn hash_echo(old: Seq<char>, new: Seq<char>) -> JsonView {
    JsonView::Object(
        Map::empty().insert(
            "old"@,
            json::text_or_null(
                if old.len() == 0 {
                    None
                } else {
                    Some(hashing::content_hash(old))
                },
            ),
        ).insert("new"@, JsonView::Text(hashing::content_hash(new))),
    )
}

fn write_hash_echo(old: &str, new: &str) -> (r: Json)
    ensures
        r.model() == hash_echo(old@, new@),
{
    let old_hash = if old.unicode_len() == 0 {
        Json::Null
    } else {
        text(hash_text(old).as_str())
    };
    let o = with(empty_object(), "old", old_hash);
    Json::Object(with(o, "new", text(hash_text(new).as_str())))
}

/// The answer to a content change: the entity as it is now, with the hashes of the
/// old and the new content, by which the caller sees what landed.
pub fn update_identity_content_finish(
    config: &EntityConfig,
    old: &PdtAsset,
    new_content: &str,
    updated: Result<PdtAsset, String>,
    replies: &Vec<Option<Vec<PdtRelation>>>,
) -> (r: Result<Json, ApiError>)
    ensures
        match updated {
            Ok(asset) => r is Ok && r->Ok_0.model() == JsonView::Object(
                mapping::related_entity(asset, *config, replies@).insert(
                    "content_hash"@,
                    hash_echo(old.content@, new_content@),
                ),
            ),
            Err(e) => r is Err && r->Err_0.deep_view() == api::refusal(
                INTERNAL_SERVER_ERROR,
                "Failed to update identity content: "@ + e@,
            ),
        },
{
    match updated {
        Ok(asset) => {
            let mut table = related_entity_table(&asset, config, replies);
            put(
                &mut table,
                "content_hash".to_owned(),
                write_hash_echo(old.content.as_str(), new_content),
            );
            Ok(Json::Object(table))
        },
        Err(e) => Err(
            refuse(
                INTERNAL_SERVER_ERROR,
                join2("Failed to update identity content: ", e.as_str()).as_str(),
            ),
        ),
    }
}

/// Only a permitted change to an allowed status is made.
pub proof fn law_status_is_allowed(
    config: EntityConfig,
    body: JsonView,
    permission: Result<(), u16>,
)
    ensures
        status_or_refusal(config, body, permission) matches Ok(status) ==> permission is Ok
            && body.text_member("status"@) == Some(status) && (config.allowed_statuses() matches Some(
            allowed,
        ) ==> allowed.contains(status)),
{
}

/// A content change is made only of an identity that was found, in an instance: an
/// identity that is not there answers 404, whoever asks, and is never created.
pub proof fn law_missing_identity_is_not_found(
    configs: Seq<EntityConfig>,
    instance: Option<Seq<char>>,
    slug: Seq<char>,
    id: Seq<char>,
    fetched: Result<PdtAsset, String>,
)
    requires
        instance is Some,
        listing::config_for(configs, slug) is Some,
    ensures
        content_obstacle(configs, instance, slug, id, fetched) is None <==> fetched is Ok,
        fetched is Err ==> content_obstacle(
            configs,
            instance,
            slug,
            id,
            fetched,
        )->0.status == NOT_FOUND,
{
}

/// A content change without an instance answers 400, whatever else it asks.
pub proof fn law_content_change_needs_an_instance(
    configs: Seq<EntityConfig>,
    slug: Seq<char>,
    id: Seq<char>,
    fetched: Result<PdtAsset, String>,
)
    ensures
        content_obstacle(configs, None, slug, id, fetched) == Some(instance_required()),
        instance_required().status == BAD_REQUEST,
{
}

/// A denied content change is refused, whatever its body holds; a permitted one is
/// made exactly where its body gives a text, which may be empty.
pub proof fn law_content_change_is_decided(body: JsonView, permission: Result<(), u16>)
    ensures
        permission is Err ==> content_or_refusal(body, permission) is Err,
        permission is Ok ==> (content_or_refusal(body, permission) is Ok <==> body.text_member(
            "content"@,
        ) is Some),
        content_or_refusal(body, permission) matches Ok(content) ==> body.text_member("content"@)
            == Some(content),
{
}

/// A content change echoes the hash of the content that it was asked to store, and
/// the hash of the one before, which has one unless it was empty.
pub proof fn law_hashes_are_echoed(old: Seq<char>, new: Seq<char>)
    ensures
        hash_echo(old, new).text_member("new"@) == Some(hashing::content_hash(new)),
        old.len() > 0 ==> hash_echo(old, new).text_member("old"@) == Some(
            hashing::content_hash(old),
        ),
        old.len() == 0 ==> hash_echo(old, new).member("old"@) == Some(JsonView::Null),
{
    reveal_strlit("old");
    reveal_strlit("new");
    assert("old"@[0] == 'o' && "new"@[0] == 'n');
}

} // verus!
