//! Who may create and change entities, in terms of what the policies permit.
use crate::api::ApiError;
use crate::auth::extractor::{AuthenticatedUser, JwtClaims, WorkspaceAdmins};
use crate::cedar::enforcement;
use crate::cedar::entity::{Attrs, UidView};
use crate::cedar::laws;
use crate::entity_config::{self, EntityConfig};
use crate::entity_handlers::create::{self, CreatePlan};
use crate::entity_handlers::filter_laws;
use crate::entity_handlers::store_laws;
use crate::entity_handlers::update::{self, ContentChange, StatusChange};
use crate::json::{self, Json};
use crate::pdt::client::PdtClient;
use crate::pdt::types::PdtAsset;
use vstd::prelude::*;

verus! {

/// The policies permit the user an action on a resource, by what they are shown.
pub open spec fn permits(
    authorizer: pep::cedar::CedarAuthorizer,
    user: AuthenticatedUser,
    action: String,
    resource: UidView,
    entities: Map<UidView, Attrs>,
) -> bool {
    enforcement::policy_allows(
        authorizer,
        (("User"@, user.user_id@), ("Action"@, action@), resource),
        entities,
    )
}

/// The policies are shown the user's claims, and the group that administers the
/// resource, where there is one.
pub open spec fn shown_with_group(
    entities: Map<UidView, Attrs>,
    user: AuthenticatedUser,
    claims: JwtClaims,
    resource: UidView,
    group: Option<Seq<char>>,
) -> bool {
    &&& call_ensures(enforcement::extract_claims_for_cedar, (&user,), claims)
    &&& forall|pairs: Seq<(String, String)>| #[trigger]
        laws::administered(pairs, group) ==> laws::shown(entities, claims, resource, pairs)
}

/// The group that an asset's metadata names under `admin_group`.
pub open spec fn is_group_of(asset: PdtAsset, group: Option<Seq<char>>) -> bool {
    match group {
        Some(g) => store_laws::gives(json::members(asset.metadata), "admin_group"@, g),
        None => store_laws::gives_no_text(json::members(asset.metadata), "admin_group"@),
    }
}

/// Nothing is created that the policies do not permit: the user, to create an
/// entity of the kind, with the id `<_>`; for an agent identity, one that the group
/// of the request administers.
pub proof fn law_creation_is_permitted(
    configs: &Vec<EntityConfig>,
    authorizer: Option<&pep::cedar::CedarAuthorizer>,
    user: &AuthenticatedUser,
    instance: Option<&str>,
    slug: &str,
    body: &Json,
    admins: &WorkspaceAdmins,
    r: Result<CreatePlan, ApiError>,
    k: int,
    claims: JwtClaims,
    group: Option<Seq<char>>,
    entities: Map<UidView, Attrs>,
)
    requires
        call_ensures(
            create::create_entity_start,
            (configs, authorizer, user, instance, slug, body, admins),
            r,
        ),
        filter_laws::is_definition(configs@, slug@, k),
        authorizer is Some,
        configs@[k].cedar.action_create is Some,
        group == (if slug@ == "agent-identity"@ {
            admins.0.deep_view()
        } else {
            None
        }),
        shown_with_group(
            entities,
            *user,
            claims,
            (entity_config::cedar_type(configs@[k].slug@), "<_>"@),
            group,
        ),
    ensures
        r is Ok ==> permits(
            *authorizer->0,
            *user,
            configs@[k].cedar.action_create->0,
            (entity_config::cedar_type(configs@[k].slug@), "<_>"@),
            entities,
        ),
        r is Err && r->Err_0.status == 403 ==> !permits(
            *authorizer->0,
            *user,
            configs@[k].cedar.action_create->0,
            (entity_config::cedar_type(configs@[k].slug@), "<_>"@),
            entities,
        ),
        r matches Ok(plan) ==> plan.admin_group.deep_view() == group,
{
    filter_laws::law_slug_names_the_first_definition(configs@, slug@, k);
    let config = configs@[k];
    let permission = choose|permission: Result<(), u16>| #[trigger]
        create::possible_answer(
            authorizer,
            user.deep_view(),
            config.cedar.action_create.deep_view(),
            config.slug@,
            "<_>"@,
            group,
            permission,
        ) && create::planned(r) == create::plan_or_refusal(
            config,
            body.model(),
            instance.deep_view(),
            group,
            permission,
        );
    laws::lemma_answer(
        authorizer,
        user,
        config.cedar.action_create.deep_view(),
        config.slug@,
        "<_>"@,
        group,
        permission,
        claims,
        entities,
    );
    if let Ok(plan) = r {
        assert(plan.deep_view().admin_group == plan.admin_group.deep_view());
    }
    if let Err(e) = r {
        assert(e.deep_view().status == e.status);
    }
}

/// A creation without authorization is planned like a permitted one, without a group
/// of its own; with authorization it is planned like a permitted one too, or refused.
/// A kind that has no definition is answered with 404.
pub proof fn law_creation_is_planned(
    configs: &Vec<EntityConfig>,
    authorizer: Option<&pep::cedar::CedarAuthorizer>,
    user: &AuthenticatedUser,
    instance: Option<&str>,
    slug: &str,
    body: &Json,
    admins: &WorkspaceAdmins,
    r: Result<CreatePlan, ApiError>,
    k: int,
    group: Option<&str>,
    permitted: Result<CreatePlan, ApiError>,
)
    requires
        call_ensures(
            create::create_entity_start,
            (configs, authorizer, user, instance, slug, body, admins),
            r,
        ),
        group.deep_view() == (if authorizer is Some && configs@[k].cedar.action_create is Some
            && slug@ == "agent-identity"@ {
            admins.0.deep_view()
        } else {
            None
        }),
        call_ensures(
            create::plan_entity,
            (&configs@[k], body, instance, group, Ok(())),
            permitted,
        ),
    ensures
        filter_laws::is_definition(configs@, slug@, k) && (authorizer is None
            || configs@[k].cedar.action_create is None) ==> (r is Ok <==> permitted is Ok),
        filter_laws::is_definition(configs@, slug@, k) && r is Ok ==> permitted is Ok
            && r->Ok_0.deep_view() == permitted->Ok_0.deep_view(),
        (forall|j: int|
            0 <= j < configs@.len() ==> (#[trigger] configs@[j]).slug@ != slug@
                && configs@[j].slug@ != slug@.push('s')) ==> r is Err && filter_laws::is_refused(
            r->Err_0.deep_view(),
            404,
            "Unknown entity type: "@ + slug@,
        ),
{
    filter_laws::law_slug_names_the_first_definition(configs@, slug@, k);
}

/// A plan is what it holds.
pub proof fn law_plan_is_what_it_holds(a: CreatePlan, b: CreatePlan, i: int)
    requires
        a.deep_view() == b.deep_view(),
    ensures
        a.title@ == b.title@,
        a.content.deep_view() == b.content.deep_view(),
        a.tags@.len() == b.tags@.len(),
        0 <= i < a.tags@.len() ==> a.tags@[i].category@ == b.tags@[i].category@
            && a.tags@[i].value@ == b.tags@[i].value@,
        json::members(a.metadata) == json::members(b.metadata),
        a.targets@.len() == b.targets@.len(),
        0 <= i < a.targets@.len() ==> a.targets@[i].id@ == b.targets@[i].id@
            && a.targets@[i].field@ == b.targets@[i].field@ && a.targets@[i].relation_type@
            == b.targets@[i].relation_type@,
        a.admin_group.deep_view() == b.admin_group.deep_view(),
{
    let x = a.deep_view();
    let y = b.deep_view();
    assert(x.tags == y.tags);
    assert(x.targets == y.targets);
    assert(x.tags.len() == a.tags@.len() && y.tags.len() == b.tags@.len());
    assert(x.targets.len() == a.targets@.len() && y.targets.len() == b.targets@.len());
    if 0 <= i < a.tags@.len() {
        assert(x.tags[i] == y.tags[i]);
    }
    if 0 <= i < a.targets@.len() {
        assert(x.targets[i] == a.targets@[i]@);
        assert(y.targets[i] == b.targets@[i]@);
    }
}

/// No status is changed that the policies do not permit: the user, to edit that
/// entity of the kind; for an agent identity that was read, as the group in its
/// metadata administers it.
pub proof fn law_status_change_is_permitted(
    configs: &Vec<EntityConfig>,
    authorizer: Option<&pep::cedar::CedarAuthorizer>,
    user: &AuthenticatedUser,
    pdt: &PdtClient,
    instance: Option<&str>,
    slug: &str,
    id: &str,
    body: &Json,
    fetched: Option<&PdtAsset>,
    token: Option<&str>,
    r: Result<StatusChange, ApiError>,
    k: int,
    claims: JwtClaims,
    group: Option<Seq<char>>,
    entities: Map<UidView, Attrs>,
)
    requires
        call_ensures(
            update::update_status_decide,
            (configs, authorizer, user, pdt, instance, slug, id, body, fetched, token),
            r,
        ),
        filter_laws::is_definition(configs@, slug@, k),
        authorizer is Some,
        configs@[k].cedar.action_edit is Some,
        if slug@ == "agent-identity"@ && fetched is Some {
            is_group_of(*fetched->0, group)
        } else {
            group is None
        },
        shown_with_group(
            entities,
            *user,
            claims,
            (entity_config::cedar_type(configs@[k].slug@), id@),
            group,
        ),
    ensures
        r is Ok ==> permits(
            *authorizer->0,
            *user,
            configs@[k].cedar.action_edit->0,
            (entity_config::cedar_type(configs@[k].slug@), id@),
            entities,
        ),
        r is Err && r->Err_0.status == 403 ==> !permits(
            *authorizer->0,
            *user,
            configs@[k].cedar.action_edit->0,
            (entity_config::cedar_type(configs@[k].slug@), id@),
            entities,
        ),
{
    filter_laws::law_slug_names_the_first_definition(configs@, slug@, k);
    let config = configs@[k];
    let permission = choose|permission: Result<(), u16>| #[trigger]
        create::possible_answer(
            authorizer,
            user.deep_view(),
            config.cedar.action_edit.deep_view(),
            config.slug@,
            id@,
            group,
            permission,
        ) && match update::status_or_refusal(config, body.model(), permission) {
            Err(e) => r is Err && r->Err_0.deep_view() == e,
            Ok(status) => r is Ok && r->Ok_0.deep_view() == update::status_requests(
                pdt.base(),
                instance.deep_view(),
                id@,
                status,
                token.deep_view(),
            ),
        };
    assert(update::status_group(slug@, fetched) == group);
    laws::lemma_answer(
        authorizer,
        user,
        config.cedar.action_edit.deep_view(),
        config.slug@,
        id@,
        group,
        permission,
        claims,
        entities,
    );
    if let Err(e) = r {
        assert(e.deep_view().status == e.status);
    }
}

/// No content is changed that the policies do not permit: the user, to edit that
/// identity, as the group in its own metadata administers it.
pub proof fn law_content_change_is_permitted(
    configs: &Vec<EntityConfig>,
    authorizer: Option<&pep::cedar::CedarAuthorizer>,
    user: &AuthenticatedUser,
    pdt: &PdtClient,
    instance: Option<&str>,
    slug: &str,
    id: &str,
    body: &Json,
    fetched: &Result<PdtAsset, String>,
    token: Option<&str>,
    r: Result<ContentChange, ApiError>,
    k: int,
    claims: JwtClaims,
    group: Option<Seq<char>>,
    entities: Map<UidView, Attrs>,
)
    requires
        call_ensures(
            update::update_identity_content_decide,
            (configs, authorizer, user, pdt, instance, slug, id, body, fetched, token),
            r,
        ),
        filter_laws::is_definition(configs@, slug@, k),
        authorizer is Some,
        configs@[k].cedar.action_edit is Some,
        *fetched is Ok && is_group_of(fetched->Ok_0, group),
        shown_with_group(
            entities,
            *user,
            claims,
            (entity_config::cedar_type(configs@[k].slug@), id@),
            group,
        ),
    ensures
        r is Ok ==> permits(
            *authorizer->0,
            *user,
            configs@[k].cedar.action_edit->0,
            (entity_config::cedar_type(configs@[k].slug@), id@),
            entities,
        ),
        r is Err && r->Err_0.status == 403 ==> !permits(
            *authorizer->0,
            *user,
            configs@[k].cedar.action_edit->0,
            (entity_config::cedar_type(configs@[k].slug@), id@),
            entities,
        ),
{
    filter_laws::law_slug_names_the_first_definition(configs@, slug@, k);
    let config = configs@[k];
    if instance is Some {
        let permission = choose|permission: Result<(), u16>| #[trigger]
            create::possible_answer(
                authorizer,
                user.deep_view(),
                config.cedar.action_edit.deep_view(),
                config.slug@,
                id@,
                group,
                permission,
            ) && update::change_is(
                r,
                update::content_or_refusal(body.model(), permission),
                pdt.base(),
                instance.deep_view(),
                id@,
                token.deep_view(),
            );
        assert(update::stored_group(fetched->Ok_0) == group);
        laws::lemma_answer(
            authorizer,
            user,
            config.cedar.action_edit.deep_view(),
            config.slug@,
            id@,
            group,
            permission,
            claims,
            entities,
        );
    }
    if let Err(e) = r {
        assert(e.deep_view().status == e.status);
    }
}

/// A status change is decided as its check comes out for an answer that has its
/// cause: refused where that denies it, and else as for a permitted one.
pub proof fn law_status_change_is_decided_by_an_answer(
    configs: &Vec<EntityConfig>,
    authorizer: Option<&pep::cedar::CedarAuthorizer>,
    user: &AuthenticatedUser,
    pdt: &PdtClient,
    instance: Option<&str>,
    slug: &str,
    id: &str,
    body: &Json,
    fetched: Option<&PdtAsset>,
    token: Option<&str>,
    r: Result<StatusChange, ApiError>,
    k: int,
    claims: JwtClaims,
    group: Option<Seq<char>>,
    permitted: Result<String, ApiError>,
)
    requires
        call_ensures(
            update::update_status_decide,
            (configs, authorizer, user, pdt, instance, slug, id, body, fetched, token),
            r,
        ),
        filter_laws::is_definition(configs@, slug@, k),
        if slug@ == "agent-identity"@ && fetched is Some {
            is_group_of(*fetched->0, group)
        } else {
            group is None
        },
        call_ensures(enforcement::extract_claims_for_cedar, (user,), claims),
        call_ensures(update::check_status, (&configs@[k], body, Ok(())), permitted),
    ensures
        exists|answer: Result<(), u16>| #[trigger]
            laws::is_answer(
                answer,
                authorizer,
                claims,
                configs@[k].cedar.action_edit.deep_view(),
                (entity_config::cedar_type(configs@[k].slug@), id@),
                group,
            ) && match answer {
                Err(status) => r is Err && filter_laws::is_refused(
                    r->Err_0.deep_view(),
                    status,
                    "Access denied"@,
                ),
                Ok(_) => (r is Ok <==> permitted is Ok) && (r is Err ==> r->Err_0.deep_view()
                    == permitted->Err_0.deep_view()),
            },
{
    filter_laws::law_slug_names_the_first_definition(configs@, slug@, k);
    let config = configs@[k];
    assert(update::status_group(slug@, fetched) == group);
    let answer = choose|permission: Result<(), u16>| #[trigger]
        create::possible_answer(
            authorizer,
            user.deep_view(),
            config.cedar.action_edit.deep_view(),
            config.slug@,
            id@,
            group,
            permission,
        ) && match update::status_or_refusal(config, body.model(), permission) {
            Err(e) => r is Err && r->Err_0.deep_view() == e,
            Ok(status) => r is Ok && r->Ok_0.deep_view() == update::status_requests(
                pdt.base(),
                instance.deep_view(),
                id@,
                status,
                token.deep_view(),
            ),
        };
    laws::lemma_is_answer(
        answer,
        authorizer,
        user,
        claims,
        config.cedar.action_edit.deep_view(),
        config.slug@,
        id@,
        group,
    );
}

/// A content change of an identity that was found, in an instance, is decided as its
/// check comes out for an answer that has its cause: refused where that denies it,
/// and else as for a permitted one.
pub proof fn law_content_change_is_decided_by_an_answer(
    configs: &Vec<EntityConfig>,
    authorizer: Option<&pep::cedar::CedarAuthorizer>,
    user: &AuthenticatedUser,
    pdt: &PdtClient,
    instance: Option<&str>,
    slug: &str,
    id: &str,
    body: &Json,
    fetched: &Result<PdtAsset, String>,
    token: Option<&str>,
    r: Result<ContentChange, ApiError>,
    k: int,
    claims: JwtClaims,
    group: Option<Seq<char>>,
    permitted: Result<String, ApiError>,
)
    requires
        call_ensures(
            update::update_identity_content_decide,
            (configs, authorizer, user, pdt, instance, slug, id, body, fetched, token),
            r,
        ),
        filter_laws::is_definition(configs@, slug@, k),
        instance is Some,
        *fetched is Ok && is_group_of(fetched->Ok_0, group),
        call_ensures(enforcement::extract_claims_for_cedar, (user,), claims),
        call_ensures(update::check_content, (body, Ok(())), permitted),
    ensures
        exists|answer: Result<(), u16>| #[trigger]
            laws::is_answer(
                answer,
                authorizer,
                claims,
                configs@[k].cedar.action_edit.deep_view(),
                (entity_config::cedar_type(configs@[k].slug@), id@),
                group,
            ) && match answer {
                Err(status) => r is Err && filter_laws::is_refused(
                    r->Err_0.deep_view(),
                    status,
                    "Access denied"@,
                ),
                Ok(_) => (r is Ok <==> permitted is Ok) && (r is Err ==> r->Err_0.deep_view()
                    == permitted->Err_0.deep_view()),
            },
{
    filter_laws::law_slug_names_the_first_definition(configs@, slug@, k);
    let config = configs@[k];
    assert(update::stored_group(fetched->Ok_0) == group);
    let answer = choose|permission: Result<(), u16>| #[trigger]
        create::possible_answer(
            authorizer,
            user.deep_view(),
            config.cedar.action_edit.deep_view(),
            config.slug@,
            id@,
            group,
            permission,
        ) && update::change_is(
            r,
            update::content_or_refusal(body.model(), permission),
            pdt.base(),
            instance.deep_view(),
            id@,
            token.deep_view(),
        );
    laws::lemma_is_answer(
        answer,
        authorizer,
        user,
        claims,
        config.cedar.action_edit.deep_view(),
        config.slug@,
        id@,
        group,
    );
}

/// A creation is planned as it comes out for an answer that has its cause: refused
/// where that denies it, and else as for a permitted one.
pub proof fn law_creation_is_decided_by_an_answer(
    configs: &Vec<EntityConfig>,
    authorizer: Option<&pep::cedar::CedarAuthorizer>,
    user: &AuthenticatedUser,
    instance: Option<&str>,
    slug: &str,
    body: &Json,
    admins: &WorkspaceAdmins,
    r: Result<CreatePlan, ApiError>,
    k: int,
    claims: JwtClaims,
    group: Option<&str>,
    permitted: Result<CreatePlan, ApiError>,
)
    requires
        call_ensures(
            create::create_entity_start,
            (configs, authorizer, user, instance, slug, body, admins),
            r,
        ),
        filter_laws::is_definition(configs@, slug@, k),
        group.deep_view() == (if authorizer is Some && configs@[k].cedar.action_create is Some
            && slug@ == "agent-identity"@ {
            admins.0.deep_view()
        } else {
            None
        }),
        call_ensures(enforcement::extract_claims_for_cedar, (user,), claims),
        call_ensures(
            create::plan_entity,
            (&configs@[k], body, instance, group, Ok(())),
            permitted,
        ),
    ensures
        exists|answer: Result<(), u16>| #[trigger]
            laws::is_answer(
                answer,
                authorizer,
                claims,
                configs@[k].cedar.action_create.deep_view(),
                (entity_config::cedar_type(configs@[k].slug@), "<_>"@),
                group.deep_view(),
            ) && match answer {
                Err(status) => r is Err && filter_laws::is_refused(
                    r->Err_0.deep_view(),
                    status,
                    "Access denied"@,
                ),
                Ok(_) => (r is Ok <==> permitted is Ok) && (r is Ok ==> r->Ok_0.deep_view()
                    == permitted->Ok_0.deep_view()) && (r is Err ==> r->Err_0.deep_view()
                    == permitted->Err_0.deep_view()),
            },
{
    filter_laws::law_slug_names_the_first_definition(configs@, slug@, k);
    let config = configs@[k];
    let answer = choose|permission: Result<(), u16>| #[trigger]
        create::possible_answer(
            authorizer,
            user.deep_view(),
            config.cedar.action_create.deep_view(),
            config.slug@,
            "<_>"@,
            group.deep_view(),
            permission,
        ) && create::planned(r) == create::plan_or_refusal(
            config,
            body.model(),
            instance.deep_view(),
            group.deep_view(),
            permission,
        );
    laws::lemma_is_answer(
        answer,
        authorizer,
        user,
        claims,
        config.cedar.action_create.deep_view(),
        config.slug@,
        "<_>"@,
        group.deep_view(),
    );
}

} // verus!
