//! Principals and resources, as Cedar sees them.
//!
//! Cedar's own values are opaque here.  What they hold is given by names:
//! [`uid_parts`], [`entity_parts`], [`entities_parts`], [`request_parts`].
use crate::auth::extractor::{texts_among, ClaimsView, JwtClaims};
use crate::json::{self, Json, JsonView};
use crate::text;
use vstd::prelude::*;
use vstd::string::*;

verus! {

/// `cedar_policy::EntityUid`: the type and the id of an entity.
#[verifier::external_type_specification]
#[verifier::external_body]
pub struct ExEntityUid(cedar_policy::EntityUid);

/// `cedar_policy::Entity`: an entity with its attributes.
#[verifier::external_type_specification]
#[verifier::external_body]
pub struct ExEntity(cedar_policy::Entity);

/// `cedar_policy::Entities`: the entities that a decision is made among.
#[verifier::external_type_specification]
#[verifier::external_body]
pub struct ExEntities(cedar_policy::Entities);

/// `cedar_policy::Request`: who asks to do what to which resource.
#[verifier::external_type_specification]
#[verifier::external_body]
pub struct ExRequest(cedar_policy::Request);

/// `pep::cedar::CedarError`: why a uid could not be made.
#[verifier::external_type_specification]
#[verifier::external_body]
pub struct ExCedarError(pep::cedar::CedarError);

/// `cedar_policy::EntityAttrEvaluationError`: why an entity could not be made.
#[verifier::external_type_specification]
#[verifier::external_body]
pub struct ExEntityAttrEvaluationError(cedar_policy::EntityAttrEvaluationError);

/// `cedar_policy::entities_errors::EntitiesError`: why entities do not go together.
#[verifier::external_type_specification]
#[verifier::external_body]
pub struct ExEntitiesError(cedar_policy::entities_errors::EntitiesError);

/// `cedar_policy::RequestValidationError`: why a request does not fit a schema.
#[verifier::external_type_specification]
#[verifier::external_body]
pub struct ExRequestValidationError(cedar_policy::RequestValidationError);

/// An attribute of an entity.
pub enum Attr {
    Text(String),
    TextSet(Vec<String>),
}

/// An attribute of an entity, as a value.
pub enum AttrView {
    Text(Seq<char>),
    TextSet(Set<Seq<char>>),
}

/// The type and the id of an entity, as values.
pub type UidView = (Seq<char>, Seq<char>);

/// The attributes of an entity, by name.
pub type Attrs = Map<Seq<char>, AttrView>;

impl View for Attr {
    type V = AttrView;

    open spec fn view(&self) -> AttrView {
        match *self {
            Attr::Text(s) => AttrView::Text(s@),
            Attr::TextSet(v) => AttrView::TextSet(text::views(v@).to_set()),
        }
    }
}

/// The attributes that a list gives.  Of two with one name the later counts.
pub open spec fn attrs_of(s: Seq<(String, Attr)>) -> Attrs
    decreases s.len(),
{
    if s.len() == 0 {
        Map::empty()
    } else {
        attrs_of(s.drop_last()).insert(s.last().0@, s.last().1@)
    }
}

/// The type and the id that an `EntityUid` holds.
pub uninterp spec fn uid_parts(u: cedar_policy::EntityUid) -> UidView;

/// The uid and the attributes of an `Entity`, where that is all it holds: where it
/// has no parents and no tags, and every attribute is a text or a set of texts.
pub uninterp spec fn entity_parts(e: cedar_policy::Entity) -> Option<(UidView, Attrs)>;

/// The attributes of each of the `Entities`, where that is all they hold.
pub uninterp spec fn entities_parts(e: cedar_policy::Entities) -> Option<Map<UidView, Attrs>>;

/// The principal, the action and the resource of a `Request`, where its context is
/// empty.
pub uninterp spec fn request_parts(r: cedar_policy::Request) -> Option<
    (UidView, UidView, UidView),
>;

/// The words that no part of a type's name may be.
pub open spec fn is_reserved(t: Seq<char>) -> bool {
    ||| t == "true"@
    ||| t == "false"@
    ||| t == "if"@
    ||| t == "then"@
    ||| t == "else"@
    ||| t == "in"@
    ||| t == "is"@
    ||| t == "like"@
    ||| t == "has"@
    ||| t == "__cedar"@
}

/// An identifier: ASCII letters, digits and underscores, no digit first, and no
/// reserved word.
pub open spec fn is_identifier(t: Seq<char>) -> bool {
    &&& t.len() > 0
    &&& !('0' <= t[0] && t[0] <= '9')
    &&& forall|i: int| 0 <= i < t.len() ==> text::is_ascii_alnum(#[trigger] t[i]) || t[i] == '_'
    &&& !is_reserved(t)
}

/// Cedar takes a text for the name of an entity type: it is made of identifiers
/// with `::` between them.
pub open spec fn is_type_name(t: Seq<char>) -> bool
    decreases t.len(),
{
    ||| is_identifier(t)
    ||| exists|i: int|
        0 <= i <= t.len() - 2 && #[trigger] is_identifier(t.take(i)) && t[i] == ':' && t[i + 1]
            == ':' && is_type_name(t.skip(i + 2))
}

/// `pep::cedar::build_principal_uid`: the uid of type `User` with the claims'
/// subject as its id.  Of the claims it reads the subject alone.
#[verifier::external_body]
pub(crate) fn principal_uid(sub: &str) -> (r: Result<
    cedar_policy::EntityUid,
    pep::cedar::CedarError,
>)
    ensures
        r is Ok,
        r matches Ok(u) ==> uid_parts(u) == ("User"@, sub@),
{
    let claims = pep::oidc::types::JwtClaims {
        sub: sub.to_string(),
        iss: String::new(),
        aud: None,
        exp: 0,
        iat: None,
        email: None,
        name: None,
        preferred_username: None,
        extra: std::collections::HashMap::new(),
    };
    pep::cedar::build_principal_uid(&claims)
}

/// `pep::cedar::build_action_uid`: the uid of type `Action` with the given id.
#[verifier::external_body]
pub(crate) fn action_uid(action: &str) -> (r: Result<
    cedar_policy::EntityUid,
    pep::cedar::CedarError,
>)
    ensures
        r is Ok,
        r matches Ok(u) ==> uid_parts(u) == ("Action"@, action@),
{
    pep::cedar::build_action_uid(action)
}

/// `pep::cedar::ResourceInfo::to_cedar_uid`: the uid of the given type and id.
/// It fails exactly where the type is no type's name: `EntityTypeName::from_str`
/// takes identifiers with `::` between them, none of them a reserved word, and
/// nothing else; every text is an id.
#[verifier::external_body]
pub fn build_resource_uid(entity_type: &str, id: &str) -> (r: Result<
    cedar_policy::EntityUid,
    pep::cedar::CedarError,
>)
    ensures
        r is Ok == is_type_name(entity_type@),
        r matches Ok(u) ==> uid_parts(u) == (entity_type@, id@),
{
    pep::cedar::ResourceInfo::new(entity_type, id).to_cedar_uid()
}

/// `cedar_policy::Entity::new`, without parents: an entity with the given uid and
/// attributes.  It succeeds where there are no attributes.  Where there are some,
/// nothing is said of when it does, since it evaluates them with what is left of the
/// stack.
#[verifier::external_body]
pub(crate) fn new_entity(uid: cedar_policy::EntityUid, attrs: Vec<(String, Attr)>) -> (r: Result<
    cedar_policy::Entity,
    cedar_policy::EntityAttrEvaluationError,
>)
    ensures
        r matches Ok(e) ==> entity_parts(e) == Some((uid_parts(uid), attrs_of(attrs@))),
        attrs@.len() == 0 ==> r is Ok,
{
    let value = |a: Attr| match a {
        Attr::Text(s) => cedar_policy::RestrictedExpression::new_string(s),
        Attr::TextSet(v) => cedar_policy::RestrictedExpression::new_set(
            v.into_iter().map(cedar_policy::RestrictedExpression::new_string),
        ),
    };
    let attrs = attrs.into_iter().map(|(k, a)| (k, value(a))).collect();
    cedar_policy::Entity::new(uid, attrs, std::collections::HashSet::new())
}

/// Cedar may refuse an entity with the given uid and attributes: `Entity::new` may fail
/// on them.
pub closed spec fn may_be_refused(uid: UidView, attrs: Attrs) -> bool {
    exists|
        u: cedar_policy::EntityUid,
        list: Vec<(String, Attr)>,
        e: cedar_policy::EntityAttrEvaluationError,
    |
        uid_parts(u) == uid && attrs_of(list@) == attrs && #[trigger] call_ensures(
            new_entity,
            (u, list),
            Err::<cedar_policy::Entity, cedar_policy::EntityAttrEvaluationError>(e),
        )
}

/// Cedar refuses no entity without attributes.
pub proof fn law_bare_entities_are_made(uid: UidView)
    ensures
        !may_be_refused(uid, Map::empty()),
{
    if may_be_refused(uid, Map::empty()) {
        let (u, list, e) = choose|
            u: cedar_policy::EntityUid,
            list: Vec<(String, Attr)>,
            e: cedar_policy::EntityAttrEvaluationError,
        |
            uid_parts(u) == uid && attrs_of(list@) == Map::<Seq<char>, AttrView>::empty()
                && #[trigger] call_ensures(
                new_entity,
                (u, list),
                Err::<cedar_policy::Entity, cedar_policy::EntityAttrEvaluationError>(e),
            );
        assert(list@.len() > 0 ==> attrs_of(list@).dom().contains(list@.last().0@));
    }
}

/// Each entity of a list holds nothing but its uid and its attributes.
pub open spec fn all_plain(list: Seq<cedar_policy::Entity>) -> bool {
    forall|i: int| 0 <= i < list.len() ==> entity_parts(#[trigger] list[i]) is Some
}

/// The attributes of each entity of a list.
pub open spec fn entities_of(list: Seq<cedar_policy::Entity>) -> Map<UidView, Attrs>
    decreases list.len(),
{
    if list.len() == 0 {
        Map::empty()
    } else {
        let parts = entity_parts(list.last())->0;
        entities_of(list.drop_last()).insert(parts.0, parts.1)
    }
}

/// Entities of a list with one uid have the same attributes.
pub open spec fn consistent(list: Seq<cedar_policy::Entity>) -> bool {
    forall|i: int, j: int|
        #![trigger list[i], list[j]]
        0 <= i < list.len() && 0 <= j < list.len() ==> {
            let a = entity_parts(list[i])->0;
            let b = entity_parts(list[j])->0;
            a.0 == b.0 ==> a.1 == b.1
        }
}

/// `cedar_policy::Entities::from_entities`, without a schema: the entities of the
/// list.  Of entities without parents it fails exactly where two with one uid differ.
#[verifier::external_body]
pub(crate) fn new_entities(list: Vec<cedar_policy::Entity>) -> (r: Result<
    cedar_policy::Entities,
    cedar_policy::entities_errors::EntitiesError,
>)
    ensures
        r matches Ok(e) ==> (all_plain(list@) ==> entities_parts(e) == Some(entities_of(list@))),
        all_plain(list@) ==> r is Ok == consistent(list@),
{
    cedar_policy::Entities::from_entities(list, None)
}

/// `cedar_policy::Request::new`, with an empty context and without a schema: it
/// succeeds, and holds the three uids.
#[verifier::external_body]
pub(crate) fn new_request(
    principal: cedar_policy::EntityUid,
    action: cedar_policy::EntityUid,
    resource: cedar_policy::EntityUid,
) -> (r: Result<cedar_policy::Request, cedar_policy::RequestValidationError>)
    ensures
        r is Ok,
        r matches Ok(q) ==> request_parts(q) == Some(
            (uid_parts(principal), uid_parts(action), uid_parts(resource)),
        ),
{
    let context = cedar_policy::Context::empty();
    cedar_policy::Request::new(principal, action, resource, context, None)
}

/// The role that a `role` claim gives: the text itself, or the first text of a
/// list.  Some issuers map several groups to several roles and send a list.
pub open spec fn role_text(role: Option<JsonView>) -> Option<Seq<char>> {
    match role {
        Some(JsonView::Text(s)) => Some(s),
        Some(JsonView::List(items)) => if json::texts_of(items).len() > 0 {
            Some(json::texts_of(items)[0])
        } else {
            None
        },
        _ => None,
    }
}

/// The groups that a `groups` claim gives.
pub open spec fn group_texts(groups: Option<JsonView>) -> Seq<Seq<char>> {
    match groups {
        Some(JsonView::List(items)) => json::texts_of(items),
        _ => Seq::empty(),
    }
}

/// One more attribute, where there is a value for it.
pub open spec fn with_attr(m: Attrs, key: Seq<char>, value: Option<AttrView>) -> Attrs {
    match value {
        Some(v) => m.insert(key, v),
        None => m,
    }
}

/// The attributes of a principal: the email, the role and the groups, each where
/// the claims give one.
pub open spec fn principal_attrs(claims: ClaimsView) -> Attrs {
    let email = match claims.email {
        Some(e) => Some(AttrView::Text(e)),
        None => None,
    };
    let role = match role_text(json::member_of(claims.extra, "role"@)) {
        Some(s) => Some(AttrView::Text(s)),
        None => None,
    };
    let texts = group_texts(json::member_of(claims.extra, "groups"@));
    let groups = if texts.len() > 0 {
        Some(AttrView::TextSet(texts.to_set()))
    } else {
        None
    };
    with_attr(
        with_attr(with_attr(Map::empty(), "email"@, email), "role"@, role),
        "groups"@,
        groups,
    )
}

fn role_of(role: Option<&Json>) -> (r: Option<String>)
    ensures
        r.deep_view() == role_text(
            (match role {
                Some(j) => Some(j.model()),
                None => None,
            }),
        ),
{
    match role {
        Some(Json::Text(s)) => Some(s.clone()),
        Some(Json::List(items)) => {
            let texts = texts_among(items);
            if texts.len() > 0 {
                assert(text::views(texts@)[0] == texts@[0]@);
                Some(texts[0].clone())
            } else {
                None
            }
        },
        _ => None,
    }
}

/// Appends an attribute.
fn push_attr(attrs: &mut Vec<(String, Attr)>, key: &str, value: Attr)
    ensures
        attrs_of(final(attrs)@) == attrs_of(old(attrs)@).insert(key@, value@),
{
    let ghost before = attrs@;
    attrs.push((key.to_owned(), value));
    assert(attrs@.drop_last() =~= before);
}

/// The attributes of a principal, as a list.
pub fn principal_attr_list(claims: &JwtClaims) -> (r: Vec<(String, Attr)>)
    ensures
        attrs_of(r@) == principal_attrs(claims.deep_view()),
{
    let mut attrs: Vec<(String, Attr)> = Vec::new();
    if let Some(email) = &claims.email {
        push_attr(&mut attrs, "email", Attr::Text(email.clone()));
    }
    if let Some(role) = role_of(json::member(&claims.extra, "role")) {
        push_attr(&mut attrs, "role", Attr::Text(role));
    }
    if let Some(Json::List(items)) = json::member(&claims.extra, "groups") {
        let groups = texts_among(items);
        if groups.len() > 0 {
            push_attr(&mut attrs, "groups", Attr::TextSet(groups));
        }
    }
    attrs
}

/// What could not be made for a decision.
#[derive(Clone, Copy, PartialEq, Eq, Structural, Debug)]
pub enum CedarFailure {
    PrincipalUid,
    ActionUid,
    ResourceUid,
    Entity,
    Entities,
    Request,
}

/// The principal that claims speak of: the user with the claims' subject, and
/// with the email, the role and the groups that the claims give.
pub fn user_to_cedar_principal(claims: &JwtClaims) -> (r: Result<
    cedar_policy::Entity,
    CedarFailure,
>)
    ensures
        r matches Ok(e) ==> entity_parts(e) == Some(
            (("User"@, claims.sub@), principal_attrs(claims.deep_view())),
        ),
        r matches Err(e) ==> e == CedarFailure::Entity && may_be_refused(
            ("User"@, claims.sub@),
            principal_attrs(claims.deep_view()),
        ),
        principal_attrs(claims.deep_view()) == Map::<Seq<char>, AttrView>::empty() ==> r is Ok,
{
    match principal_uid(claims.sub.as_str()) {
        Ok(uid) => {
            let attrs = principal_attr_list(claims);
            assert(attrs@.len() > 0 ==> attrs_of(attrs@).dom().contains(attrs@.last().0@));
            match new_entity(uid, attrs) {
                Ok(e) => Ok(e),
                Err(_) => Err(CedarFailure::Entity),
            }
        },
        Err(_) => Err(CedarFailure::PrincipalUid),
    }
}

/// A resource with text attributes.
pub fn resource_entity(entity_type: &str, id: &str, attrs: &Vec<(String, String)>) -> (r: Result<
    cedar_policy::Entity,
    CedarFailure,
>)
    ensures
        r matches Ok(e) ==> entity_parts(e) == Some(
            ((entity_type@, id@), text_attrs(attrs@)),
        ),
        !is_type_name(entity_type@) ==> r == Err::<cedar_policy::Entity, CedarFailure>(
            CedarFailure::ResourceUid,
        ),
        is_type_name(entity_type@) && r is Err ==> r->Err_0 == CedarFailure::Entity
            && may_be_refused((entity_type@, id@), text_attrs(attrs@)),
{
    match build_resource_uid(entity_type, id) {
        Ok(uid) => match new_entity(uid, text_attr_list(attrs)) {
            Ok(e) => Ok(e),
            Err(_) => Err(CedarFailure::Entity),
        },
        Err(_) => Err(CedarFailure::ResourceUid),
    }
}

/// Text attributes.  Of two with one name the later counts.
pub open spec fn text_attrs(s: Seq<(String, String)>) -> Attrs
    decreases s.len(),
{
    if s.len() == 0 {
        Map::empty()
    } else {
        text_attrs(s.drop_last()).insert(s.last().0@, AttrView::Text(s.last().1@))
    }
}

fn text_attr_list(attrs: &Vec<(String, String)>) -> (r: Vec<(String, Attr)>)
    ensures
        attrs_of(r@) == text_attrs(attrs@),
{
    let mut r: Vec<(String, Attr)> = Vec::new();
    let mut i: usize = 0;
    while i < attrs.len()
        invariant
            i <= attrs.len(),
            attrs_of(r@) == text_attrs(attrs@.take(i as int)),
        decreases attrs.len() - i,
    {
        assert(attrs@.take(i + 1).drop_last() =~= attrs@.take(i as int));
        push_attr(&mut r, attrs[i].0.as_str(), Attr::Text(attrs[i].1.clone()));
        i = i + 1;
    }
    assert(attrs@.take(i as int) =~= attrs@);
    r
}

/// A role that comes as a list counts like the same role as a text.
pub proof fn law_role_as_text_or_list(role: Seq<char>, others: Seq<JsonView>)
    ensures
        role_text(Some(JsonView::Text(role))) == Some(role),
        role_text(Some(JsonView::List(seq![JsonView::Text(role)] + others))) == Some(role),
    decreases others.len(),
{
    let items = seq![JsonView::Text(role)] + others;
    if others.len() == 0 {
        assert(items.drop_last() =~= Seq::empty());
        assert(json::texts_of(items.drop_last()) =~= Seq::empty());
        assert(items.last() == JsonView::Text(role));
    } else {
        law_role_as_text_or_list(role, others.drop_last());
        assert(items.drop_last() =~= seq![JsonView::Text(role)] + others.drop_last());
    }
}

} // verus!
