//! What every change of an entity comes to, in terms of what the request gives.
use crate::api::ApiError;
use crate::auth::extractor::AuthenticatedUser;
use crate::entity_config::EntityConfig;
use crate::entity_handlers::create;
use crate::entity_handlers::field_laws;
use crate::entity_handlers::filter_laws;
use crate::entity_handlers::mapping;
use crate::entity_handlers::store_laws;
use crate::entity_handlers::update::{self, ContentChange, StatusChange};
use crate::hashing;
use crate::json::{self, Json, JsonView};
use crate::json_laws;
use crate::pdt::client::{Method, PdtClient, PdtRequest, ReplyForm};
use crate::pdt::types::{PdtAsset, PdtRelation};
use vstd::prelude::*;

verus! {

/// The kind's status has allowed values.
pub open spec fn restricts_status(config: EntityConfig) -> bool {
    config.fields@.contains_key("status"@) && config.fields@["status"@].values is Some
}

/// A text is among the values that the kind's status may have.
pub open spec fn may_have_status(config: EntityConfig, t: Seq<char>) -> bool {
    exists|i: int|
        0 <= i < config.fields@["status"@].values->0@.len() && (
        #[trigger] config.fields@["status"@].values->0@[i])@ == t
}

/// A body gives no text for a name.
pub open spec fn without_text(body: JsonView, name: Seq<char>) -> bool {
    body !is Object || store_laws::gives_no_text(body->Object_0, name)
}

/// A permitted status change whose body gives a text for `status` is accepted with
/// that text if and only if the kind has no allowed values or the text is among
/// them; else it is refused, and the refusal holds the text and the allowed values.
pub proof fn law_status_is_accepted_where_allowed(
    config: &EntityConfig,
    body: &Json,
    r: Result<String, ApiError>,
    t: Seq<char>,
)
    requires
        call_ensures(update::check_status, (config, body, Ok(())), r),
        json_laws::has(body.model(), "status"@, JsonView::Text(t)),
    ensures
        r is Ok <==> !restricts_status(*config) || may_have_status(*config, t),
        r is Ok ==> r->Ok_0@ == t,
        r is Err ==> filter_laws::is_refused(r->Err_0.deep_view(), 400, "Invalid status"@),
        r is Err ==> json_laws::has(r->Err_0.deep_view().body, "got"@, JsonView::Text(t)),
        r is Err ==> json_laws::has(
            r->Err_0.deep_view().body,
            "allowed_values"@,
            JsonView::List(
                config.fields@["status"@].values->0@.map_values(
                    |v: String| JsonView::Text(v@),
                ),
            ),
        ),
{
    reveal_strlit("error");
    reveal_strlit("allowed_values");
    reveal_strlit("got");
    assert("error"@.len() == 5 && "allowed_values"@.len() == 14 && "got"@.len() == 3);
    if restricts_status(*config) {
        let values = config.fields@["status"@].values->0@;
        let allowed = config.allowed_statuses()->0;
        assert(allowed =~= values.map_values(|v: String| v@));
        if may_have_status(*config, t) {
            let i = choose|i: int| 0 <= i < values.len() && (#[trigger] values[i])@ == t;
            assert(allowed[i] == t);
        }
        if allowed.contains(t) {
            let i = choose|i: int| 0 <= i < allowed.len() && allowed[i] == t;
            assert(values[i]@ == t);
        }
        assert(json::text_list(allowed)->List_0 =~= values.map_values(
            |v: String| JsonView::Text(v@),
        ));
    }
}

/// A status change that is not permitted is refused with the status of that; a
/// permitted one whose body gives no text for `status` is refused as incomplete.
pub proof fn law_status_change_is_refused_for_what_is_wrong(
    config: &EntityConfig,
    body: &Json,
    permission: Result<(), u16>,
    r: Result<String, ApiError>,
)
    requires
        call_ensures(update::check_status, (config, body, permission), r),
    ensures
        permission matches Err(status) ==> r is Err && filter_laws::is_refused(
            r->Err_0.deep_view(),
            status,
            "Access denied"@,
        ),
        permission is Ok && without_text(body.model(), "status"@) ==> r is Err
            && filter_laws::is_refused(r->Err_0.deep_view(), 400, "Missing 'status' field"@),
{
}

/// A status change looks at the stored asset first exactly where authorization is in
/// force, the kind names an action for it, and it is about an agent identity; what
/// it reads is the asset itself, in the request's own instance.
pub proof fn law_status_change_of_an_identity_reads_it_first(
    configs: &Vec<EntityConfig>,
    in_force: bool,
    pdt: &PdtClient,
    instance: Option<&str>,
    slug: &str,
    id: &str,
    token: Option<&str>,
    r: Result<Option<PdtRequest>, ApiError>,
    k: int,
)
    requires
        call_ensures(
            update::update_status_start,
            (configs, in_force, pdt, instance, slug, id, token),
            r,
        ),
        filter_laws::is_definition(configs@, slug@, k),
    ensures
        r is Ok,
        r->Ok_0 is Some <==> in_force && configs@[k].cedar.action_edit is Some && slug@
            == "agent-identity"@,
        r->Ok_0 is Some ==> filter_laws::reads(
            r->Ok_0->0,
            pdt.base() + "/api/assets/"@ + id@,
            token,
            instance,
        ) && r->Ok_0->0.reply == ReplyForm::Asset && r->Ok_0->0.reported_as is Some,
{
    filter_laws::law_slug_names_the_first_definition(configs@, slug@, k);
}

/// A kind that has no definition is answered with 404, on each way to change it.
pub proof fn law_unknown_kinds_are_not_changed(
    configs: &Vec<EntityConfig>,
    slug: &str,
    start: Result<Option<PdtRequest>, ApiError>,
    in_force: bool,
    pdt: &PdtClient,
    instance: Option<&str>,
    id: &str,
    token: Option<&str>,
    authorizer: Option<&pep::cedar::CedarAuthorizer>,
    user: &AuthenticatedUser,
    body: &Json,
    fetched: Option<&PdtAsset>,
    decided: Result<StatusChange, ApiError>,
)
    requires
        call_ensures(
            update::update_status_start,
            (configs, in_force, pdt, instance, slug, id, token),
            start,
        ),
        call_ensures(
            update::update_status_decide,
            (configs, authorizer, user, pdt, instance, slug, id, body, fetched, token),
            decided,
        ),
        forall|j: int|
            0 <= j < configs@.len() ==> (#[trigger] configs@[j]).slug@ != slug@
                && configs@[j].slug@ != slug@.push('s'),
    ensures
        start is Err && filter_laws::is_refused(
            start->Err_0.deep_view(),
            404,
            "Unknown entity type: "@ + slug@,
        ),
        decided is Err && filter_laws::is_refused(
            decided->Err_0.deep_view(),
            404,
            "Unknown entity type: "@ + slug@,
        ),
{
    filter_laws::law_slug_names_the_first_definition(configs@, slug@, 0);
}

/// A status change without authorization adds the tag that the body gives and reads
/// the asset, if and only if the text may be had; where authorization is in force it
/// does so only for such a text, whatever the policies said.
pub proof fn law_accepted_status_is_tagged(
    configs: &Vec<EntityConfig>,
    authorizer: Option<&pep::cedar::CedarAuthorizer>,
    user: &AuthenticatedUser,
    pdt: &PdtClient,
    instance: Option<&str>,
    slug: &str,
    id: &str,
    body: &Json,
    fetched: Option<&PdtAsset>,
    token: Option<&str>,
    r: Result<StatusChange, ApiError>,
    k: int,
    t: Seq<char>,
)
    requires
        call_ensures(
            update::update_status_decide,
            (configs, authorizer, user, pdt, instance, slug, id, body, fetched, token),
            r,
        ),
        filter_laws::is_definition(configs@, slug@, k),
    ensures
        without_text(body.model(), "status"@) ==> r is Err,
        json_laws::has(body.model(), "status"@, JsonView::Text(t)) && restricts_status(configs@[k])
            && !may_have_status(configs@[k], t) ==> r is Err,
        json_laws::has(body.model(), "status"@, JsonView::Text(t)) && (!restricts_status(
            configs@[k],
        ) || may_have_status(configs@[k], t)) && (authorizer is None
            || configs@[k].cedar.action_edit is None) ==> r is Ok,
        json_laws::has(body.model(), "status"@, JsonView::Text(t)) && r is Ok ==> {
            let c = r->Ok_0;
            let url = pdt.base() + "/api/assets/"@ + id@;
            &&& store_laws::sends(c.tag, Method::Post, url + "/tags"@, token, instance)
            &&& c.tag.reply == ReplyForm::Nothing && c.tag.reported_as is None
            &&& json_laws::has(c.tag.body->0.model(), "category"@, JsonView::Text("status"@))
            &&& json_laws::has(c.tag.body->0.model(), "value"@, JsonView::Text(t))
            &&& filter_laws::reads(c.read, url, token, instance)
            &&& c.read.reply == ReplyForm::Asset && c.read.reported_as is None
        },
{
    filter_laws::law_slug_names_the_first_definition(configs@, slug@, k);
    let config = configs@[k];
    reveal_strlit("category");
    reveal_strlit("value");
    assert("category"@.len() == 8 && "value"@.len() == 5);
    if json_laws::has(body.model(), "status"@, JsonView::Text(t)) && restricts_status(config) {
        let values = config.fields@["status"@].values->0@;
        let allowed = config.allowed_statuses()->0;
        assert(allowed =~= values.map_values(|v: String| v@));
        if may_have_status(config, t) {
            let i = choose|i: int| 0 <= i < values.len() && (#[trigger] values[i])@ == t;
            assert(allowed[i] == t);
        }
        if allowed.contains(t) {
            let i = choose|i: int| 0 <= i < allowed.len() && allowed[i] == t;
            assert(values[i]@ == t);
        }
    }
    let permission = choose|permission: Result<(), u16>| #[trigger]
        create::possible_answer(
            authorizer,
            user.deep_view(),
            config.cedar.action_edit.deep_view(),
            config.slug@,
            id@,
            update::status_group(slug@, fetched),
            permission,
        ) && match update::status_or_refusal(config, body.model(), permission) {
            Err(e) => r is Err && r->Err_0.deep_view() == e,
            Ok(status) => r is Ok && r->Ok_0.deep_view() == update::status_requests(
                pdt.base(),
                instance.deep_view(),
                id@,
                status,
                token.deep_view(),
            ),
        };
    if r is Ok {
        let c = r->Ok_0;
        assert(c.tag.deep_view() == c.deep_view().tag);
        assert(c.read.deep_view() == c.deep_view().read);
    }
}

/// The asset is read behind the tag, unless the tag could not be sent: then the
/// answer is 500 with the reason.
pub proof fn law_asset_is_read_behind_the_tag(
    change: &StatusChange,
    tagged: Result<(), String>,
    r: Result<&PdtRequest, ApiError>,
)
    requires
        call_ensures(update::update_status_read, (change, tagged), r),
    ensures
        tagged is Ok ==> r is Ok && *r->Ok_0 == change.read,
        tagged matches Err(e) ==> r is Err && filter_laws::is_refused(
            r->Err_0.deep_view(),
            500,
            e@,
        ),
{
}

/// A changed entity is answered as it would be read: with the same replies, the
/// answer to a status change is the answer to a read of the asset as it is now, and
/// the answer to a content change differs from it in `content_hash` alone.
pub proof fn law_changed_entity_is_answered_as_read(
    config: &EntityConfig,
    asset: PdtAsset,
    e: String,
    replies: &Vec<Option<Vec<PdtRelation>>>,
    read: Json,
    by_status: Result<Json, ApiError>,
    failed: Result<Json, ApiError>,
    old: &PdtAsset,
    new_content: &str,
    by_content: Result<Json, ApiError>,
    name: Seq<char>,
)
    requires
        call_ensures(mapping::map_asset_to_entity_with_relations, (&asset, config, replies), read),
        call_ensures(update::update_status_finish, (config, Ok(asset), replies), by_status),
        call_ensures(update::update_status_finish, (config, Err(e), replies), failed),
        call_ensures(
            update::update_identity_content_finish,
            (config, old, new_content, Ok(asset), replies),
            by_content,
        ),
        name != "content_hash"@,
    ensures
        read.model() is Object,
        by_status is Ok && by_status->Ok_0.model() == read.model(),
        failed is Err && filter_laws::is_refused(failed->Err_0.deep_view(), 500, e@),
        by_content is Ok && field_laws::shows(
            by_content->Ok_0.model()->Object_0,
            name,
            json::member_of(read.model()->Object_0, name),
        ),
{
}

/// A permitted content change is accepted with the text that the body gives for
/// `content`, the empty one too, and refused exactly where it gives none; one that
/// is not permitted is refused with the status of that.
pub proof fn law_content_is_accepted_as_given(
    body: &Json,
    permission: Result<(), u16>,
    r: Result<String, ApiError>,
    t: Seq<char>,
)
    requires
        call_ensures(update::check_content, (body, permission), r),
    ensures
        permission matches Err(status) ==> r is Err && filter_laws::is_refused(
            r->Err_0.deep_view(),
            status,
            "Access denied"@,
        ),
        permission is Ok && json_laws::has(body.model(), "content"@, JsonView::Text(t)) ==> r is Ok
            && r->Ok_0@ == t,
        permission is Ok && without_text(body.model(), "content"@) ==> r is Err
            && filter_laws::is_refused(
            r->Err_0.deep_view(),
            400,
            "Missing or non-string 'content' field"@,
        ),
{
}

/// A content change begins by reading the identity, in its instance; without an
/// instance it is refused with 400, and for an unknown kind with 404.
pub proof fn law_content_change_reads_the_identity(
    configs: &Vec<EntityConfig>,
    pdt: &PdtClient,
    instance: Option<&str>,
    slug: &str,
    id: &str,
    token: Option<&str>,
    r: Result<PdtRequest, ApiError>,
    k: int,
)
    requires
        call_ensures(
            update::update_identity_content_start,
            (configs, pdt, instance, slug, id, token),
            r,
        ),
    ensures
        instance is None ==> r is Err && filter_laws::is_refused(
            r->Err_0.deep_view(),
            400,
            "X-Instance-Id header required: agent identity content                 updates are instance-scoped (the identity lives in the agent's nested DB)"@,
        ),
        instance is Some && (forall|j: int|
            0 <= j < configs@.len() ==> (#[trigger] configs@[j]).slug@ != slug@
                && configs@[j].slug@ != slug@.push('s')) ==> r is Err && filter_laws::is_refused(
            r->Err_0.deep_view(),
            404,
            "Unknown entity type: "@ + slug@,
        ),
        instance is Some && filter_laws::is_definition(configs@, slug@, k) ==> r is Ok
            && filter_laws::reads(
            r->Ok_0,
            pdt.base() + "/api/assets/"@ + id@,
            token,
            instance,
        ) && r->Ok_0.reply == ReplyForm::Asset && r->Ok_0.reported_as is Some,
{
    filter_laws::law_slug_names_the_first_definition(configs@, slug@, k);
}

/// A content change of an identity that was found sends exactly the text that the
/// body gives for `content`, and nothing else, to that identity in its instance.  It
/// is made without authorization wherever such a text is given, and never without
/// an instance, a known kind and an identity that was found.
pub proof fn law_given_content_replaces_the_old(
    configs: &Vec<EntityConfig>,
    authorizer: Option<&pep::cedar::CedarAuthorizer>,
    user: &AuthenticatedUser,
    pdt: &PdtClient,
    instance: Option<&str>,
    slug: &str,
    id: &str,
    body: &Json,
    fetched: &Result<PdtAsset, String>,
    token: Option<&str>,
    r: Result<ContentChange, ApiError>,
    k: int,
    t: Seq<char>,
)
    requires
        call_ensures(
            update::update_identity_content_decide,
            (configs, authorizer, user, pdt, instance, slug, id, body, fetched, token),
            r,
        ),
        filter_laws::is_definition(configs@, slug@, k),
    ensures
        instance is None ==> r is Err && filter_laws::is_refused(
            r->Err_0.deep_view(),
            400,
            "X-Instance-Id header required: agent identity content                 updates are instance-scoped (the identity lives in the agent's nested DB)"@,
        ),
        instance is Some && *fetched is Err ==> r is Err && filter_laws::is_refused(
            r->Err_0.deep_view(),
            404,
            "Agent identity not found: "@ + id@ + " ("@ + fetched->Err_0@ + ")"@,
        ),
        without_text(body.model(), "content"@) ==> r is Err,
        instance is Some && *fetched is Ok && json_laws::has(
            body.model(),
            "content"@,
            JsonView::Text(t),
        ) && (authorizer is None || configs@[k].cedar.action_edit is None) ==> r is Ok,
        json_laws::has(body.model(), "content"@, JsonView::Text(t)) && r is Ok ==> {
            let q = r->Ok_0.request;
            &&& r->Ok_0.content@ == t
            &&& store_laws::sends(
                q,
                Method::Put,
                pdt.base() + "/api/assets/"@ + id@,
                token,
                instance,
            )
            &&& q.reply == ReplyForm::AssetOrData && q.reported_as is None
            &&& q.body->0.model() == JsonView::Object(
                Map::empty().insert("content"@, JsonView::Text(t)),
            )
        },
{
    filter_laws::law_slug_names_the_first_definition(configs@, slug@, k);
    if r is Ok {
        let q = r->Ok_0.request;
        assert(q.deep_view().body is Some);
        assert(q.deep_view().url == q.url@);
    }
}

/// The answer to a content change gives the hash of the new content, and that of
/// the old one unless it was empty; a failure is answered with 500 and its reason.
pub proof fn law_content_change_gives_both_hashes(
    config: &EntityConfig,
    old: &PdtAsset,
    new_content: &str,
    updated: Result<PdtAsset, String>,
    replies: &Vec<Option<Vec<PdtRelation>>>,
    r: Result<Json, ApiError>,
)
    requires
        call_ensures(
            update::update_identity_content_finish,
            (config, old, new_content, updated, replies),
            r,
        ),
    ensures
        updated is Ok ==> r is Ok && ({
            let hashes = r->Ok_0.model()->Object_0["content_hash"@];
            &&& json_laws::has(r->Ok_0.model(), "content_hash"@, hashes)
            &&& json_laws::has(
                hashes,
                "new"@,
                JsonView::Text(hashing::content_hash(new_content@)),
            )
            &&& old.content@.len() == 0 ==> json_laws::has(hashes, "old"@, JsonView::Null)
            &&& old.content@.len() > 0 ==> json_laws::has(
                hashes,
                "old"@,
                JsonView::Text(hashing::content_hash(old.content@)),
            )
        }),
        updated matches Err(e) ==> r is Err && filter_laws::is_refused(
            r->Err_0.deep_view(),
            500,
            "Failed to update identity content: "@ + e@,
        ),
{
    reveal_strlit("old");
    reveal_strlit("new");
    assert("old"@[0] == 'o' && "new"@[0] == 'n');
}

/// The group that administers a stored entity is the text under `admin_group` in
/// its metadata.
pub proof fn law_group_is_the_stored_one(asset: PdtAsset, g: Seq<char>)
    ensures
        update::stored_group(asset) == Some(g) <==> store_laws::gives(
            json::members(asset.metadata),
            "admin_group"@,
            g,
        ),
{
}

} // verus!
