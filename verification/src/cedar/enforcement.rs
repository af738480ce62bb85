//! Decisions on who may do what.
//!
//! A decision is asked of the policies with the user as the principal, the
//! entity's type and id as the resource, and the attributes of both.  Nothing is
//! permitted unless the policies permit it.
use crate::api::{FORBIDDEN, INTERNAL_SERVER_ERROR};
use crate::auth::extractor::{AuthenticatedUser, ClaimsView, JwtClaims};
use crate::cedar::entity::{
    self, action_uid, build_resource_uid, new_entities, new_request, principal_uid,
    resource_entity, user_to_cedar_principal, AttrView, Attrs, CedarFailure, UidView,
};
use vstd::prelude::*;

verus! {

/// The metadata key, and the resource attribute, that holds the group which
/// administers an agent identity.
pub const ADMIN_GROUP_METADATA_KEY: &'static str = "admin_group";

/// `pep::cedar::CedarAuthorizer`: the policies that are in force.
#[verifier::external_type_specification]
#[verifier::external_body]
pub struct ExCedarAuthorizer(pep::cedar::CedarAuthorizer);

/// What the policies said.
#[derive(Clone, Copy, PartialEq, Eq, Structural, Debug)]
pub struct Verdict {
    pub allowed: bool,
    pub has_errors: bool,
}

/// Whether the policies of an authorizer permit a request among entities.
pub uninterp spec fn policy_allows(
    authorizer: pep::cedar::CedarAuthorizer,
    request: (UidView, UidView, UidView),
    entities: Map<UidView, Attrs>,
) -> bool;

/// `CedarAuthorizer::is_allowed_with_entities`: where no policy failed to
/// evaluate, the decision on a request with an empty context among plain entities
/// depends on the policies, on the three uids and on the attributes alone.  Nothing
/// is said of when a policy fails: one can fail for want of stack.
#[verifier::external_body]
pub(crate) fn evaluate(
    authorizer: &pep::cedar::CedarAuthorizer,
    request: &cedar_policy::Request,
    entities: &cedar_policy::Entities,
) -> (r: Verdict)
    ensures
        !r.has_errors && entity::request_parts(*request) is Some && entity::entities_parts(
            *entities,
        ) is Some ==> r.allowed == policy_allows(
            *authorizer,
            entity::request_parts(*request)->0,
            entity::entities_parts(*entities)->0,
        ),
{
    let response = authorizer.is_allowed_with_entities(request, entities);
    Verdict { allowed: response.allowed(), has_errors: response.has_errors() }
}

/// What a verdict comes to: permission, denial, or a failure on this side.
pub open spec fn outcome(v: Verdict) -> Result<(), u16> {
    if v.has_errors {
        Err(INTERNAL_SERVER_ERROR)
    } else if v.allowed {
        Ok(())
    } else {
        Err(FORBIDDEN)
    }
}

/// What a verdict comes to.  A policy that failed is never taken for permission.
pub fn verdict_outcome(v: Verdict) -> (r: Result<(), u16>)
    ensures
        r == outcome(v),
{
    if v.has_errors {
        Err(INTERNAL_SERVER_ERROR)
    } else if v.allowed {
        Ok(())
    } else {
        Err(FORBIDDEN)
    }
}

/// The claims that authorization is decided on.
pub fn extract_claims_for_cedar(user: &AuthenticatedUser) -> (r: JwtClaims)
    ensures
        r.deep_view() == user.deep_view().cedar_claims(),
{
    user.to_cedar_claims()
}

/// The entities of a decision: the principal, and the resource where attributes
/// of it are known.
pub open spec fn decision_entities(
    claims: ClaimsView,
    resource: UidView,
    attrs: Seq<(String, String)>,
) -> Map<UidView, Attrs> {
    let principal = Map::empty().insert(
        ("User"@, claims.sub),
        entity::principal_attrs(claims),
    );
    if attrs.len() > 0 {
        principal.insert(resource, entity::text_attrs(attrs))
    } else {
        principal
    }
}

/// The policies permit the user an action on a resource.
pub open spec fn permitted(
    authorizer: pep::cedar::CedarAuthorizer,
    claims: ClaimsView,
    action: Seq<char>,
    resource: UidView,
    attrs: Seq<(String, String)>,
) -> bool {
    policy_allows(
        authorizer,
        (("User"@, claims.sub), ("Action"@, action), resource),
        decision_entities(claims, resource, attrs),
    )
}

/// An answer to whether something is permitted: it is, it is not, or the question
/// could not be decided.
pub open spec fn sound(r: Result<(), u16>, permitted: bool) -> bool {
    match r {
        Ok(_) => permitted,
        Err(status) => status == INTERNAL_SERVER_ERROR || (status == FORBIDDEN && !permitted),
    }
}

/// The resource is the principal itself, with attributes other than the principal's:
/// the two do not go together.
pub open spec fn clash(
    claims: ClaimsView,
    resource: UidView,
    attrs: Seq<(String, String)>,
) -> bool {
    attrs.len() > 0 && resource == ("User"@, claims.sub) && entity::text_attrs(attrs)
        != entity::principal_attrs(claims)
}

/// The principal, or the resource where attributes of it are known, may be refused
/// as an entity.
pub open spec fn entities_may_be_refused(
    claims: ClaimsView,
    resource: UidView,
    attrs: Seq<(String, String)>,
) -> bool {
    ||| entity::may_be_refused(("User"@, claims.sub), entity::principal_attrs(claims))
    ||| attrs.len() > 0 && entity::may_be_refused(resource, entity::text_attrs(attrs))
}

/// The policies may give a verdict on whether a user may do something to a resource.
pub closed spec fn may_say(
    authorizer: pep::cedar::CedarAuthorizer,
    claims: ClaimsView,
    action: Seq<char>,
    resource: UidView,
    attrs: Seq<(String, String)>,
    v: Verdict,
) -> bool {
    exists|request: cedar_policy::Request, entities: cedar_policy::Entities|
        entity::request_parts(request) == Some(
            (("User"@, claims.sub), ("Action"@, action), resource),
        ) && entity::entities_parts(entities) == Some(decision_entities(claims, resource, attrs))
            && #[trigger] call_ensures(evaluate, (&authorizer, &request, &entities), v)
}

/// The answer to whether a user may do something to a resource.
///
/// Without a type's name, or where the principal and the resource clash, nothing is
/// asked.  Else the answer is what a verdict of the policies comes to, unless Cedar
/// refused an entity.
pub open spec fn answered(
    r: Result<(), u16>,
    authorizer: pep::cedar::CedarAuthorizer,
    claims: ClaimsView,
    action: Seq<char>,
    resource: UidView,
    attrs: Seq<(String, String)>,
) -> bool {
    if !entity::is_type_name(resource.0) || clash(claims, resource, attrs) {
        r == Err::<(), u16>(INTERNAL_SERVER_ERROR)
    } else {
        ||| exists|v: Verdict| #[trigger]
            may_say(authorizer, claims, action, resource, attrs, v) && r == outcome(v)
        ||| r == Err::<(), u16>(INTERNAL_SERVER_ERROR) && entities_may_be_refused(
            claims,
            resource,
            attrs,
        )
    }
}

/// The entities of a decision.
///
/// They are made unless the resource has no type's name, the principal and the
/// resource clash, or Cedar refuses one of them.  It refuses none without attributes.
fn gather_entities(
    claims: &JwtClaims,
    entity_type: &str,
    entity_id: &str,
    attrs: &Vec<(String, String)>,
) -> (r: Result<cedar_policy::Entities, CedarFailure>)
    ensures
        r matches Ok(e) ==> entity::entities_parts(e) == Some(
            decision_entities(claims.deep_view(), (entity_type@, entity_id@), attrs@),
        ),
        r matches Err(e) ==> match e {
            CedarFailure::ResourceUid => attrs@.len() > 0 && !entity::is_type_name(entity_type@),
            CedarFailure::Entity => entities_may_be_refused(
                claims.deep_view(),
                (entity_type@, entity_id@),
                attrs@,
            ),
            CedarFailure::Entities => clash(
                claims.deep_view(),
                (entity_type@, entity_id@),
                attrs@,
            ),
            _ => false,
        },
        attrs@.len() > 0 && !entity::is_type_name(entity_type@) ==> r is Err,
        clash(claims.deep_view(), (entity_type@, entity_id@), attrs@) ==> r is Err,
        attrs@.len() == 0 && entity::principal_attrs(claims.deep_view()) == Map::<
            Seq<char>,
            AttrView,
        >::empty() ==> r is Ok,
{
    let principal = match user_to_cedar_principal(claims) {
        Ok(p) => p,
        Err(e) => {
            return Err(e);
        },
    };
    let mut list: Vec<cedar_policy::Entity> = Vec::new();
    list.push(principal);
    let ghost one = list@;
    if attrs.len() > 0 {
        match resource_entity(entity_type, entity_id, attrs) {
            Ok(e) => {
                list.push(e);
            },
            Err(e) => {
                return Err(e);
            },
        }
        assert(list@.drop_last() =~= one);
        assert(list@[0] == principal);
    }
    proof {
        assert(one.drop_last() =~= Seq::empty());
        assert(entity::entities_of(one) =~= Map::empty().insert(
            ("User"@, claims.sub@),
            entity::principal_attrs(claims.deep_view()),
        )) by {
            reveal_with_fuel(entity::entities_of, 2);
        }
        assert(entity::all_plain(list@));
        assert(entity::consistent(list@) == !clash(
            claims.deep_view(),
            (entity_type@, entity_id@),
            attrs@,
        )) by {
            if attrs@.len() > 0 {
                assert(entity::entity_parts(list@[0]) == Some(
                    (
                        ("User"@, claims.sub@),
                        entity::principal_attrs(claims.deep_view()),
                    ),
                ));
                assert(entity::entity_parts(list@[1]) == Some(
                    ((entity_type@, entity_id@), entity::text_attrs(attrs@)),
                ));
            }
        }
    }
    match new_entities(list) {
        Ok(e) => Ok(e),
        Err(_) => Err(CedarFailure::Entities),
    }
}

/// The request of a decision.
fn gather_request(claims: &JwtClaims, action: &str, entity_type: &str, entity_id: &str) -> (r:
    Result<cedar_policy::Request, CedarFailure>)
    ensures
        r matches Ok(q) ==> entity::request_parts(q) == Some(
            (("User"@, claims.sub@), ("Action"@, action@), (entity_type@, entity_id@)),
        ),
        r is Ok == entity::is_type_name(entity_type@),
        r matches Err(e) ==> e == CedarFailure::ResourceUid,
{
    let principal = match principal_uid(claims.sub.as_str()) {
        Ok(u) => u,
        Err(_) => {
            return Err(CedarFailure::PrincipalUid);
        },
    };
    let action = match action_uid(action) {
        Ok(u) => u,
        Err(_) => {
            return Err(CedarFailure::ActionUid);
        },
    };
    let resource = match build_resource_uid(entity_type, entity_id) {
        Ok(u) => u,
        Err(_) => {
            return Err(CedarFailure::ResourceUid);
        },
    };
    match new_request(principal, action, resource) {
        Ok(q) => Ok(q),
        Err(_) => Err(CedarFailure::Request),
    }
}

/// Whether the policies permit a user an action on a resource of which some
/// attributes are known.
///
/// `Ok` where they do, 403 where they do not.  What cannot be decided is a
/// failure on this side: 500.
pub fn check_permission_scoped(
    authorizer: &pep::cedar::CedarAuthorizer,
    claims: &JwtClaims,
    action: &str,
    entity_type: &str,
    entity_id: &str,
    attrs: &Vec<(String, String)>,
) -> (r: Result<(), u16>)
    ensures
        sound(
            r,
            permitted(
                *authorizer,
                claims.deep_view(),
                action@,
                (entity_type@, entity_id@),
                attrs@,
            ),
        ),
        !entity::is_type_name(entity_type@) ==> r == Err::<(), u16>(INTERNAL_SERVER_ERROR),
        answered(
            r,
            *authorizer,
            claims.deep_view(),
            action@,
            (entity_type@, entity_id@),
            attrs@,
        ),
{
    let request = match gather_request(claims, action, entity_type, entity_id) {
        Ok(q) => q,
        Err(_) => {
            return Err(INTERNAL_SERVER_ERROR);
        },
    };
    let entities = match gather_entities(claims, entity_type, entity_id, attrs) {
        Ok(e) => e,
        Err(_) => {
            return Err(INTERNAL_SERVER_ERROR);
        },
    };
    let v = evaluate(authorizer, &request, &entities);
    assert(may_say(
        *authorizer,
        claims.deep_view(),
        action@,
        (entity_type@, entity_id@),
        attrs@,
        v,
    ));
    verdict_outcome(v)
}

/// Whether the policies permit a user an action on a resource.
pub fn check_permission(
    authorizer: &pep::cedar::CedarAuthorizer,
    claims: &JwtClaims,
    action: &str,
    entity_type: &str,
    entity_id: &str,
) -> (r: Result<(), u16>)
    ensures
        sound(
            r,
            permitted(
                *authorizer,
                claims.deep_view(),
                action@,
                (entity_type@, entity_id@),
                Seq::empty(),
            ),
        ),
        !entity::is_type_name(entity_type@) ==> r == Err::<(), u16>(INTERNAL_SERVER_ERROR),
        answered(
            r,
            *authorizer,
            claims.deep_view(),
            action@,
            (entity_type@, entity_id@),
            Seq::empty(),
        ),
{
    let none: Vec<(String, String)> = Vec::new();
    check_permission_scoped(authorizer, claims, action, entity_type, entity_id, &none)
}

/// Whether the policies permit a user an action on a resource, as a plain answer.
/// What cannot be decided is not permitted.
pub fn is_allowed(
    authorizer: &pep::cedar::CedarAuthorizer,
    claims: &JwtClaims,
    action: &str,
    entity_type: &str,
    entity_id: &str,
) -> (r: bool)
    ensures
        r ==> permitted(
            *authorizer,
            claims.deep_view(),
            action@,
            (entity_type@, entity_id@),
            Seq::empty(),
        ),
        !entity::is_type_name(entity_type@) ==> !r,
        exists|answer: Result<(), u16>| #[trigger]
            answered(
                answer,
                *authorizer,
                claims.deep_view(),
                action@,
                (entity_type@, entity_id@),
                Seq::empty(),
            ) && r == (answer is Ok),
{
    let answer = check_permission(authorizer, claims, action, entity_type, entity_id);
    answer.is_ok()
}

/// Nothing is permitted unless the policies permit it, and a policy that failed is
/// never taken for permission.
pub proof fn law_default_deny(v: Verdict)
    ensures
        outcome(v) is Ok <==> v.allowed && !v.has_errors,
        outcome(v) == Err::<(), u16>(FORBIDDEN) <==> !v.allowed && !v.has_errors,
{
}

} // verus!
