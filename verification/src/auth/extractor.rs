//! What a handler learns of the request's user.
use crate::auth::error::AuthError;
use crate::entity_config::as_text;
use crate::json::{self, copy_members, empty_object, text, with, Json, JsonView, Members};
use crate::keyed::KeyedList;
use crate::text::{self, owned};
use vstd::prelude::*;

verus! {

/// The bearer token of the request, for the requests that are made on its behalf.
pub struct ForwardedToken(pub Option<String>);

impl Default for ForwardedToken {
    fn default() -> (r: Self)
        ensures
            r.0 is None,
    {
        ForwardedToken(None)
    }
}

impl ForwardedToken {
    /// The token left by the authentication layer, or none.
    pub fn from_extension(left: Option<&ForwardedToken>) -> (r: Self)
        ensures
            r.0.deep_view() == (match left {
                Some(t) => t.0.deep_view(),
                None => None,
            }),
    {
        match left {
            Some(t) => ForwardedToken(owned(as_text(&t.0))),
            None => ForwardedToken(None),
        }
    }
}

/// The instance that the request is for, from its `X-Instance-Id` header.
pub struct InstanceContext {
    pub instance_id: Option<String>,
}

impl Default for InstanceContext {
    fn default() -> (r: Self)
        ensures
            r.instance_id is None,
    {
        InstanceContext { instance_id: None }
    }
}

impl InstanceContext {
    /// The instance as a reference.
    pub fn as_deref(&self) -> (r: Option<&str>)
        ensures
            r.deep_view() == self.instance_id.deep_view(),
    {
        as_text(&self.instance_id)
    }

    /// The instance of a request: the one left by the authentication layer, else
    /// the one of the header.
    pub fn from_request(left: Option<&InstanceContext>, header: Option<&str>) -> (r: Self)
        ensures
            r.instance_id.deep_view() == (if left is Some && left->0.instance_id is Some {
                left->0.instance_id.deep_view()
            } else {
                header.deep_view()
            }),
    {
        if let Some(c) = left {
            if let Some(id) = &c.instance_id {
                return InstanceContext { instance_id: Some(id.clone()) };
            }
        }
        InstanceContext { instance_id: owned(header) }
    }
}

/// The admin group of a workspace, from the `X-Workspace-Admins` header.
pub struct WorkspaceAdmins(pub Option<String>);

/// What a token says of its user.
pub struct JwtClaims {
    /// The user's id.
    pub sub: String,
    /// Who issued the token.
    pub iss: String,
    /// Whom the token is meant for.
    pub aud: Option<String>,
    /// When the token expires.
    pub exp: i64,
    /// When the token was issued.
    pub iat: Option<i64>,
    pub email: Option<String>,
    pub name: Option<String>,
    pub preferred_username: Option<String>,
    /// All other claims, such as the role and the groups.
    pub extra: KeyedList<Json>,
}

/// What a token says of its user, as a value.
#[verifier::ext_equal]
pub struct ClaimsView {
    pub sub: Seq<char>,
    pub iss: Seq<char>,
    pub aud: Option<Seq<char>>,
    pub exp: i64,
    pub iat: Option<i64>,
    pub email: Option<Seq<char>>,
    pub name: Option<Seq<char>>,
    pub preferred_username: Option<Seq<char>>,
    pub extra: Members,
}

impl DeepView for JwtClaims {
    type V = ClaimsView;

    open spec fn deep_view(&self) -> ClaimsView {
        ClaimsView {
            sub: self.sub@,
            iss: self.iss@,
            aud: self.aud.deep_view(),
            exp: self.exp,
            iat: self.iat,
            email: self.email.deep_view(),
            name: self.name.deep_view(),
            preferred_username: self.preferred_username.deep_view(),
            extra: json::members(self.extra),
        }
    }
}

/// The user of a request.
pub struct AuthenticatedUser {
    pub user_id: String,
    pub username: Option<String>,
    pub email: Option<String>,
    /// The token's other claims, such as the role and the groups.
    pub claims_extra: Option<KeyedList<Json>>,
}

/// The user of a request, as a value.
#[verifier::ext_equal]
pub struct UserView {
    pub user_id: Seq<char>,
    pub username: Option<Seq<char>>,
    pub email: Option<Seq<char>>,
    pub claims_extra: Option<Members>,
}

impl DeepView for AuthenticatedUser {
    type V = UserView;

    open spec fn deep_view(&self) -> UserView {
        UserView {
            user_id: self.user_id@,
            username: self.username.deep_view(),
            email: self.email.deep_view(),
            claims_extra: match self.claims_extra {
                Some(m) => Some(json::members(m)),
                None => None,
            },
        }
    }
}

impl UserView {
    /// The claims that authorization is decided on: those of the token, and the
    /// role `viewer` only where there is no token behind the user.
    pub open spec fn cedar_claims(self) -> ClaimsView {
        ClaimsView {
            sub: self.user_id,
            iss: "nghr"@,
            aud: None,
            exp: i64::MAX,
            iat: None,
            email: self.email,
            name: None,
            preferred_username: self.username,
            extra: match self.claims_extra {
                Some(m) => m,
                None => Map::empty().insert("role"@, JsonView::Text("viewer"@)),
            },
        }
    }

    /// The user's groups.
    pub open spec fn groups(self) -> Seq<Seq<char>> {
        match self.claims_extra {
            Some(m) => match json::member_of(m, "groups"@) {
                Some(JsonView::List(items)) => json::texts_of(items),
                _ => Seq::empty(),
            },
            None => Seq::empty(),
        }
    }
}

/// The user that claims speak of.
pub open spec fn user_of(claims: ClaimsView) -> UserView {
    UserView {
        user_id: claims.sub,
        username: claims.preferred_username,
        email: claims.email,
        claims_extra: Some(claims.extra),
    }
}

impl AuthenticatedUser {
    /// The user that the authentication layer left claims of.  Without claims
    /// there is no user, and the request is refused like one without a token.
    pub fn from_claims(claims: Option<&JwtClaims>) -> (r: Result<Self, AuthError>)
        ensures
            claims matches Some(c) ==> (r matches Ok(u) && u.deep_view() == user_of(c.deep_view())),
            claims is None ==> r == Err::<Self, AuthError>(AuthError::MissingToken),
    {
        match claims {
            Some(c) => Ok(
                AuthenticatedUser {
                    user_id: c.sub.clone(),
                    username: owned(as_text(&c.preferred_username)),
                    email: owned(as_text(&c.email)),
                    claims_extra: Some(copy_members(&c.extra)),
                },
            ),
            None => Err(AuthError::MissingToken),
        }
    }

    /// The claims that authorization is decided on.
    ///
    /// They are the token's own.  Only a user without a token behind it, as a
    /// test makes one, gets a role from here: `viewer`, which may do least.
    pub fn to_cedar_claims(&self) -> (r: JwtClaims)
        ensures
            r.deep_view() == self.deep_view().cedar_claims(),
    {
        let extra = match &self.claims_extra {
            Some(m) => copy_members(m),
            None => with(empty_object(), "role", text("viewer")),
        };
        JwtClaims {
            sub: self.user_id.clone(),
            iss: "nghr".to_owned(),
            aud: None,
            exp: i64::MAX,
            iat: None,
            email: owned(as_text(&self.email)),
            name: None,
            preferred_username: owned(as_text(&self.username)),
            extra,
        }
    }
}

/// The texts among JSON items, in order.
pub fn texts_among(items: &Vec<Json>) -> (r: Vec<String>)
    ensures
        text::views(r@) == json::texts_of(json::list_model(items@)),
{
    let mut r: Vec<String> = Vec::new();
    let ghost all = json::list_model(items@);
    let mut i: usize = 0;
    assert(text::views(r@) =~= json::texts_of(all.take(0)));
    while i < items.len()
        invariant
            i <= items.len(),
            all == json::list_model(items@),
            text::views(r@) == json::texts_of(all.take(i as int)),
        decreases items.len() - i,
    {
        let ghost before = r@;
        proof {
            assert(all.take(i + 1).drop_last() =~= all.take(i as int));
            assert(all[i as int] == items@[i as int].model());
        }
        if let Some(s) = items[i].as_str() {
            r.push(s.to_owned());
            assert(text::views(r@) =~= text::views(before).push(s@));
        }
        i = i + 1;
    }
    assert(all.take(all.len() as int) =~= all);
    r
}

/// The user's groups: the texts among the items of the `groups` claim.
pub fn user_groups(user: &AuthenticatedUser) -> (r: Vec<String>)
    ensures
        text::views(r@) == user.deep_view().groups(),
{
    if let Some(m) = &user.claims_extra {
        if let Some(Json::List(items)) = json::member(m, "groups") {
            return texts_among(items);
        }
    }
    let r: Vec<String> = Vec::new();
    assert(text::views(r@) =~= Seq::<Seq<char>>::empty());
    r
}

/// A user with a token behind it is authorized on exactly the token's claims:
/// no role is made up for it.
pub proof fn law_no_role_is_made_up(user: UserView)
    requires
        user.claims_extra is Some,
    ensures
        user.cedar_claims().extra == user.claims_extra->0,
{
}

} // verus!
