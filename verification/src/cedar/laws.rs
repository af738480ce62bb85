//! What every decision is asked of the policies, in terms of who asks for what.
use crate::auth::extractor::{AuthenticatedUser, JwtClaims};
use crate::cedar::enforcement::{self, Verdict};
use crate::cedar::entity::{self, Attr, AttrView, Attrs, CedarFailure, UidView};
use crate::entity_config;
use crate::entity_handlers::create;
use crate::json::{self, JsonView};
use crate::text;
use vstd::prelude::*;

verus! {

/// An entity has an attribute exactly where there is a value for it.
pub open spec fn holds(attrs: Attrs, name: Seq<char>, value: Option<AttrView>) -> bool {
    &&& attrs.contains_key(name) == value is Some
    &&& value is Some ==> attrs[name] == value->0
}

/// The item at a position is the first text of a list.
pub open spec fn is_first_text(items: Seq<JsonView>, i: int) -> bool {
    &&& 0 <= i < items.len()
    &&& items[i] is Text
    &&& forall|j: int| 0 <= j < i ==> (#[trigger] items[j]) !is Text
}

/// No item of a list is a text.
pub open spec fn no_text(items: Seq<JsonView>) -> bool {
    forall|j: int| 0 <= j < items.len() ==> (#[trigger] items[j]) !is Text
}

proof fn lemma_texts(items: Seq<JsonView>, i: int)
    ensures
        no_text(items) <==> json::texts_of(items).len() == 0,
        is_first_text(items, i) ==> json::texts_of(items).len() > 0 && json::texts_of(items)[0]
            == items[i]->Text_0,
        forall|t: Seq<char>| #[trigger]
            json::texts_of(items).contains(t) <==> items.contains(JsonView::Text(t)),
    decreases items.len(),
{
    if items.len() > 0 {
        let init = items.drop_last();
        let n = items.len() - 1;
        lemma_texts(init, i);
        let before = json::texts_of(init);
        assert forall|j: int| 0 <= j < n implies init[j] == #[trigger] items[j] by {}
        if no_text(items) {
            assert(items[n] !is Text);
            assert(no_text(init)) by {
                assert forall|j: int| 0 <= j < init.len() implies (#[trigger] init[j]) !is Text by {
                    assert(init[j] == items[j]);
                }
            }
        }
        if json::texts_of(items).len() == 0 {
            assert(no_text(init));
            assert forall|j: int| 0 <= j < items.len() implies (#[trigger] items[j]) !is Text by {
                if j < n {
                    assert(init[j] == items[j]);
                }
            }
        }
        if is_first_text(items, i) {
            if i < n {
                assert(is_first_text(init, i)) by {
                    assert forall|j: int| 0 <= j < i implies (#[trigger] init[j]) !is Text by {
                        assert(init[j] == items[j]);
                    }
                }
            } else {
                assert(no_text(init)) by {
                    assert forall|j: int| 0 <= j < init.len() implies (#[trigger] init[j])
                        !is Text by {
                        assert(init[j] == items[j]);
                    }
                }
            }
        }
        assert forall|t: Seq<char>| #[trigger]
            json::texts_of(items).contains(t) <==> items.contains(JsonView::Text(t)) by {
            let all = json::texts_of(items);
            assert(before.contains(t) <==> init.contains(JsonView::Text(t)));
            if all.contains(t) {
                let p = choose|p: int| 0 <= p < all.len() && all[p] == t;
                if p < before.len() {
                    assert(before[p] == t);
                    let q = choose|q: int| 0 <= q < init.len() && init[q] == JsonView::Text(t);
                    assert(items[q] == JsonView::Text(t));
                } else {
                    assert(items[n] == JsonView::Text(t));
                }
            }
            if items.contains(JsonView::Text(t)) {
                let q = choose|q: int| 0 <= q < items.len() && items[q] == JsonView::Text(t);
                if q < n {
                    assert(init[q] == JsonView::Text(t));
                    let p = choose|p: int| 0 <= p < before.len() && before[p] == t;
                    assert(all[p] == t);
                } else {
                    assert(all[all.len() - 1] == t);
                }
            }
        }
    }
}

/// The attributes say of a user what the claims do: the email; the role, as a text
/// or as the first text of a list; the groups, as the set of the texts of a list;
/// each where the claims give one, and nothing else.
pub open spec fn describes(attrs: Attrs, claims: JwtClaims) -> bool {
    let m = json::members(claims.extra);
    let role = m["role"@];
    let groups = m["groups"@];
    &&& holds(
        attrs,
        "email"@,
        match claims.email {
            Some(e) => Some(AttrView::Text(e@)),
            None => None,
        },
    )
    &&& m.contains_key("role"@) && role is Text ==> holds(
        attrs,
        "role"@,
        Some(AttrView::Text(role->Text_0)),
    )
    &&& forall|i: int| #[trigger]
        is_first_text(role->List_0, i) && m.contains_key("role"@) && role is List ==> holds(
            attrs,
            "role"@,
            Some(AttrView::Text(role->List_0[i]->Text_0)),
        )
    &&& (!m.contains_key("role"@) || (role !is Text && role !is List) || (role is List && no_text(
        role->List_0,
    ))) ==> holds(attrs, "role"@, None)
    &&& m.contains_key("groups"@) && groups is List && !no_text(groups->List_0) ==> {
        &&& attrs.contains_key("groups"@)
        &&& attrs["groups"@] is TextSet
        &&& forall|g: Seq<char>| #[trigger]
            attrs["groups"@]->TextSet_0.contains(g) <==> groups->List_0.contains(JsonView::Text(g))
    }
    &&& (!m.contains_key("groups"@) || groups !is List || no_text(groups->List_0)) ==> holds(
        attrs,
        "groups"@,
        None,
    )
    &&& forall|name: Seq<char>| #[trigger]
        attrs.contains_key(name) ==> name == "email"@ || name == "role"@ || name == "groups"@
}

/// Of a list of attributes, the last one with a name is the one with that name.
pub proof fn law_last_attribute_counts(list: Seq<(String, Attr)>, i: int, name: Seq<char>)
    ensures
        0 <= i < list.len() && list[i].0@ == name && (forall|j: int|
            i < j < list.len() ==> (#[trigger] list[j]).0@ != name) ==> holds(
            entity::attrs_of(list),
            name,
            Some(list[i].1@),
        ),
        (forall|j: int| 0 <= j < list.len() ==> (#[trigger] list[j]).0@ != name) ==> holds(
            entity::attrs_of(list),
            name,
            None,
        ),
    decreases list.len(),
{
    if list.len() > 0 {
        let init = list.drop_last();
        let n = list.len() - 1;
        law_last_attribute_counts(init, i, name);
        assert(list.last() == list[n]);
        if 0 <= i < n && list[i].0@ == name && (forall|j: int|
            i < j < list.len() ==> (#[trigger] list[j]).0@ != name) {
            assert(list[n].0@ != name);
            assert(init[i] == list[i]);
            assert forall|j: int| i < j < init.len() implies (#[trigger] init[j]).0@ != name by {
                assert(init[j] == list[j]);
            }
        }
        if forall|j: int| 0 <= j < list.len() ==> (#[trigger] list[j]).0@ != name {
            assert(list[n].0@ != name);
            assert forall|j: int| 0 <= j < init.len() implies (#[trigger] init[j]).0@ != name by {
                assert(init[j] == list[j]);
            }
        }
    }
}

/// A text attribute is its text, and a set of texts holds the texts of the list.
pub proof fn law_attributes_are_what_they_hold(s: String, v: Vec<String>, t: Seq<char>)
    ensures
        Attr::Text(s)@ == AttrView::Text(s@),
        Attr::TextSet(v)@ is TextSet,
        Attr::TextSet(v)@->TextSet_0.contains(t) <==> exists|i: int|
            0 <= i < v@.len() && (#[trigger] v@[i])@ == t,
{
    let ts = text::views(v@);
    if ts.contains(t) {
        let i = choose|i: int| 0 <= i < ts.len() && ts[i] == t;
        assert(v@[i]@ == t);
    }
    if exists|i: int| 0 <= i < v@.len() && (#[trigger] v@[i])@ == t {
        let i = choose|i: int| 0 <= i < v@.len() && (#[trigger] v@[i])@ == t;
        assert(ts[i] == t);
    }
}

proof fn lemma_attr_names()
    ensures
        "email"@ != "role"@,
        "email"@ != "groups"@,
        "role"@ != "groups"@,
{
    reveal_strlit("email");
    reveal_strlit("role");
    reveal_strlit("groups");
    assert("email"@.len() == 5 && "role"@.len() == 4 && "groups"@.len() == 6);
}

/// The attributes that a decision sees of a user describe the user.
pub proof fn law_principal_is_described(claims: &JwtClaims, r: Vec<(String, Attr)>)
    requires
        call_ensures(entity::principal_attr_list, (claims,), r),
    ensures
        describes(entity::attrs_of(r@), *claims),
{
    lemma_described(*claims);
}

proof fn lemma_described(claims: JwtClaims)
    ensures
        describes(entity::principal_attrs(claims.deep_view()), claims),
{
    lemma_attr_names();
    let m = json::members(claims.extra);
    let attrs = entity::principal_attrs(claims.deep_view());
    if m.contains_key("role"@) && m["role"@] is List {
        let items = m["role"@]->List_0;
        lemma_texts(items, 0);
        assert forall|i: int| #[trigger] is_first_text(items, i) implies holds(
            attrs,
            "role"@,
            Some(AttrView::Text(items[i]->Text_0)),
        ) by {
            lemma_texts(items, i);
        }
    }
    if m.contains_key("groups"@) && m["groups"@] is List {
        let items = m["groups"@]->List_0;
        lemma_texts(items, 0);
        let ts = json::texts_of(items);
        assert forall|g: Seq<char>| #[trigger]
            ts.to_set().contains(g) <==> items.contains(JsonView::Text(g)) by {
            assert(ts.contains(g) <==> items.contains(JsonView::Text(g)));
        }
    }
}

/// Two sets of attributes that describe one user are the same.
proof fn lemma_one_description(a: Attrs, b: Attrs, claims: JwtClaims)
    requires
        describes(a, claims),
        describes(b, claims),
    ensures
        a == b,
{
    lemma_attr_names();
    let m = json::members(claims.extra);
    if m.contains_key("role"@) && m["role"@] is List && !no_text(m["role"@]->List_0) {
        let items = m["role"@]->List_0;
        lemma_first_text_is_there(items);
        let i = choose|i: int| is_first_text(items, i);
        assert(is_first_text(items, i));
    }
    if m.contains_key("groups"@) && m["groups"@] is List && !no_text(m["groups"@]->List_0) {
        assert(a["groups"@]->TextSet_0 =~= b["groups"@]->TextSet_0);
        assert(a["groups"@] == b["groups"@]);
    }
    assert forall|name: Seq<char>| #[trigger] a.contains_key(name) == b.contains_key(name) by {}
    assert(a =~= b);
}

proof fn lemma_first_text_is_there(items: Seq<JsonView>)
    requires
        !no_text(items),
    ensures
        exists|i: int| is_first_text(items, i),
    decreases items.len(),
{
    let init = items.drop_last();
    if no_text(init) {
        let n = items.len() - 1;
        assert forall|j: int| 0 <= j < n implies (#[trigger] items[j]) !is Text by {
            assert(init[j] == items[j]);
        }
        assert(is_first_text(items, n));
    } else {
        lemma_first_text_is_there(init);
        let i = choose|i: int| is_first_text(init, i);
        assert forall|j: int| 0 <= j < i implies (#[trigger] items[j]) !is Text by {
            assert(init[j] == items[j]);
        }
        assert(init[i] == items[i]);
        assert(is_first_text(items, i));
    }
}

/// The attributes of a resource are the pairs of a list: the last one with a name is
/// the one with that name.
pub open spec fn lists(attrs: Attrs, pairs: Seq<(String, String)>) -> bool {
    &&& forall|name: Seq<char>| #[trigger]
        attrs.contains_key(name) ==> exists|i: int|
            0 <= i < pairs.len() && (#[trigger] pairs[i]).0@ == name
    &&& forall|i: int| #![trigger pairs[i]]
        0 <= i < pairs.len() ==> attrs.contains_key(pairs[i].0@) && ((forall|j: int|
            i < j < pairs.len() ==> (#[trigger] pairs[j]).0@ != pairs[i].0@)
            ==> attrs[pairs[i].0@] == AttrView::Text(pairs[i].1@))
}

proof fn lemma_lists(pairs: Seq<(String, String)>)
    ensures
        lists(entity::text_attrs(pairs), pairs),
    decreases pairs.len(),
{
    if pairs.len() > 0 {
        let init = pairs.drop_last();
        let n = pairs.len() - 1;
        let attrs = entity::text_attrs(pairs);
        let before = entity::text_attrs(init);
        lemma_lists(init);
        assert forall|name: Seq<char>| #[trigger] attrs.contains_key(name) implies exists|i: int|
            0 <= i < pairs.len() && (#[trigger] pairs[i]).0@ == name by {
            if name == pairs[n].0@ {
            } else {
                assert(before.contains_key(name));
                let i = choose|i: int| 0 <= i < init.len() && (#[trigger] init[i]).0@ == name;
                assert(pairs[i].0@ == name);
            }
        }
        assert forall|i: int| #![trigger pairs[i]] 0 <= i < pairs.len() implies attrs.contains_key(
            pairs[i].0@,
        ) && ((forall|j: int| i < j < pairs.len() ==> (#[trigger] pairs[j]).0@ != pairs[i].0@)
            ==> attrs[pairs[i].0@] == AttrView::Text(pairs[i].1@)) by {
            if i < n {
                assert(init[i] == pairs[i]);
                if forall|j: int| i < j < pairs.len() ==> (#[trigger] pairs[j]).0@ != pairs[i].0@ {
                    assert(pairs[n].0@ != pairs[i].0@);
                    assert forall|j: int| i < j < init.len() implies (#[trigger] init[j]).0@
                        != init[i].0@ by {
                        assert(init[j] == pairs[j]);
                    }
                }
            }
        }
    }
}

proof fn lemma_last_named(pairs: Seq<(String, String)>, i: int) -> (k: int)
    requires
        0 <= i < pairs.len(),
    ensures
        i <= k < pairs.len(),
        pairs[k].0@ == pairs[i].0@,
        forall|j: int| k < j < pairs.len() ==> (#[trigger] pairs[j]).0@ != pairs[k].0@,
    decreases pairs.len() - i,
{
    if exists|j: int| i < j < pairs.len() && (#[trigger] pairs[j]).0@ == pairs[i].0@ {
        let j = choose|j: int| i < j < pairs.len() && (#[trigger] pairs[j]).0@ == pairs[i].0@;
        lemma_last_named(pairs, j)
    } else {
        i
    }
}

proof fn lemma_one_list(a: Attrs, b: Attrs, pairs: Seq<(String, String)>)
    requires
        lists(a, pairs),
        lists(b, pairs),
    ensures
        a == b,
{
    assert forall|name: Seq<char>| #[trigger] a.contains_key(name) implies b.contains_key(name)
        && a[name] == b[name] by {
        let i = choose|i: int| 0 <= i < pairs.len() && (#[trigger] pairs[i]).0@ == name;
        let k = lemma_last_named(pairs, i);
        assert(a[pairs[k].0@] == AttrView::Text(pairs[k].1@));
        assert(b[pairs[k].0@] == AttrView::Text(pairs[k].1@));
    }
    assert forall|name: Seq<char>| #[trigger] b.contains_key(name) implies a.contains_key(name) by {
        let i = choose|i: int| 0 <= i < pairs.len() && (#[trigger] pairs[i]).0@ == name;
        assert(a.contains_key(pairs[i].0@));
    }
    assert(a =~= b);
}

/// What the policies are shown: the user, described, and the resource with what is
/// known of it, where anything is, and nothing else.
pub open spec fn shown(
    entities: Map<UidView, Attrs>,
    claims: JwtClaims,
    resource: UidView,
    pairs: Seq<(String, String)>,
) -> bool {
    let user = ("User"@, claims.sub@);
    &&& entities.contains_key(user)
    &&& pairs.len() == 0 || resource != user ==> describes(entities[user], claims)
    &&& pairs.len() > 0 ==> entities.contains_key(resource) && lists(entities[resource], pairs)
    &&& forall|u: UidView| #[trigger]
        entities.contains_key(u) ==> u == user || (u == resource && pairs.len() > 0)
}

/// A user may do something only where the policies permit it, of that user, to that
/// resource, by what they are shown; where the answer is 403, they do not permit it;
/// any other answer is 500.
pub proof fn law_only_the_policies_permit(
    authorizer: &pep::cedar::CedarAuthorizer,
    claims: &JwtClaims,
    action: &str,
    entity_type: &str,
    entity_id: &str,
    pairs: &Vec<(String, String)>,
    r: Result<(), u16>,
    entities: Map<UidView, Attrs>,
)
    requires
        call_ensures(
            enforcement::check_permission_scoped,
            (authorizer, claims, action, entity_type, entity_id, pairs),
            r,
        ),
        shown(entities, *claims, (entity_type@, entity_id@), pairs@),
    ensures
        ({
            let permits = enforcement::policy_allows(
                *authorizer,
                (("User"@, claims.sub@), ("Action"@, action@), (entity_type@, entity_id@)),
                entities,
            );
            &&& r is Ok ==> permits
            &&& r == Err::<(), u16>(403) ==> !permits
            &&& r is Err ==> r->Err_0 == 403 || r->Err_0 == 500
        }),
{
    lemma_shown(*claims, (entity_type@, entity_id@), pairs@, entities);
}

proof fn lemma_shown(
    claims: JwtClaims,
    resource: UidView,
    pairs: Seq<(String, String)>,
    entities: Map<UidView, Attrs>,
)
    requires
        shown(entities, claims, resource, pairs),
    ensures
        entities == enforcement::decision_entities(claims.deep_view(), resource, pairs),
{
    let user = ("User"@, claims.sub@);
    let wanted = enforcement::decision_entities(claims.deep_view(), resource, pairs);
    lemma_described(claims);
    lemma_lists(pairs);
    if pairs.len() == 0 || resource != user {
        lemma_one_description(
            entities[user],
            entity::principal_attrs(claims.deep_view()),
            claims,
        );
    }
    if pairs.len() > 0 {
        lemma_one_list(entities[resource], entity::text_attrs(pairs), pairs);
    }
    assert forall|u: UidView| #[trigger] entities.contains_key(u) == wanted.contains_key(u) by {}
    assert(entities =~= wanted);
}

/// A question of which nothing is known but the resource is decided like one with
/// nothing known of it, and the plain answer is yes only where the policies permit.
pub proof fn law_plain_answers_are_the_policies(
    authorizer: &pep::cedar::CedarAuthorizer,
    claims: &JwtClaims,
    action: &str,
    entity_type: &str,
    entity_id: &str,
    r: Result<(), u16>,
    yes: bool,
    entities: Map<UidView, Attrs>,
)
    requires
        call_ensures(
            enforcement::check_permission,
            (authorizer, claims, action, entity_type, entity_id),
            r,
        ),
        call_ensures(
            enforcement::is_allowed,
            (authorizer, claims, action, entity_type, entity_id),
            yes,
        ),
        shown(entities, *claims, (entity_type@, entity_id@), Seq::empty()),
    ensures
        ({
            let permits = enforcement::policy_allows(
                *authorizer,
                (("User"@, claims.sub@), ("Action"@, action@), (entity_type@, entity_id@)),
                entities,
            );
            &&& r is Ok ==> permits
            &&& r == Err::<(), u16>(403) ==> !permits
            &&& r is Err ==> r->Err_0 == 403 || r->Err_0 == 500
            &&& yes ==> permits
        }),
{
    lemma_shown(*claims, (entity_type@, entity_id@), Seq::empty(), entities);
}

/// A verdict is permission exactly where the policies allowed and none failed; it is
/// 403 where they did not allow and none failed, and 500 where one failed.
pub proof fn law_verdict_is_taken_as_it_is(v: Verdict, r: Result<(), u16>)
    requires
        call_ensures(enforcement::verdict_outcome, (v,), r),
    ensures
        r is Ok <==> v.allowed && !v.has_errors,
        r == Err::<(), u16>(500) <==> v.has_errors,
        r == Err::<(), u16>(403) <==> !v.allowed && !v.has_errors,
{
}

/// The claims that a decision is made on are the user's.
pub proof fn law_decided_on_the_users_claims(user: &AuthenticatedUser, r: JwtClaims)
    requires
        call_ensures(enforcement::extract_claims_for_cedar, (user,), r),
    ensures
        r.sub@ == user.user_id@,
        r.email.deep_view() == user.email.deep_view(),
        user.claims_extra is Some ==> json::members(r.extra) == json::members(
            user.claims_extra->0,
        ),
        user.claims_extra is None ==> json::members(r.extra) == Map::<
            Seq<char>,
            JsonView,
        >::empty().insert("role"@, JsonView::Text("viewer"@)),
{
    assert(r.deep_view() == user.deep_view().cedar_claims());
    assert(r.deep_view().sub == r.sub@);
    assert(r.deep_view().extra == json::members(r.extra));
    assert(r.deep_view().email == r.email.deep_view());
}

/// What is known of a resource that a group administers: the group, under
/// `admin_group`; of any other, nothing.
pub open spec fn administered(pairs: Seq<(String, String)>, group: Option<Seq<char>>) -> bool {
    match group {
        Some(g) => pairs.len() == 1 && pairs[0].0@ == "admin_group"@ && pairs[0].1@ == g,
        None => pairs.len() == 0,
    }
}

/// The user is permitted without authorization, and where the kind names no action
/// for it; else only where the policies permit the user that action on an entity of
/// the kind, administered by the group.
pub proof fn law_authorized_by_the_policies(
    authorizer: Option<&pep::cedar::CedarAuthorizer>,
    user: &AuthenticatedUser,
    action: &Option<String>,
    slug: &str,
    id: &str,
    group: Option<&str>,
    r: Result<(), u16>,
    claims: JwtClaims,
    entities: Map<UidView, Attrs>,
)
    requires
        call_ensures(create::authorize, (authorizer, user, action, slug, id, group), r),
        call_ensures(enforcement::extract_claims_for_cedar, (user,), claims),
        forall|pairs: Seq<(String, String)>| #[trigger]
            administered(pairs, group.deep_view()) ==> shown(
                entities,
                claims,
                (entity_config::cedar_type(slug@), id@),
                pairs,
            ),
    ensures
        authorizer is None || *action is None ==> r is Ok,
        authorizer is Some && *action is Some ==> {
            let permits = enforcement::policy_allows(
                *authorizer->0,
                (
                    ("User"@, user.user_id@),
                    ("Action"@, action->0@),
                    (entity_config::cedar_type(slug@), id@),
                ),
                entities,
            );
            &&& r is Ok ==> permits
            &&& r == Err::<(), u16>(403) ==> !permits
            &&& r is Err ==> r->Err_0 == 403 || r->Err_0 == 500
        },
{
    lemma_answer(
        authorizer,
        user,
        action.deep_view(),
        slug@,
        id@,
        group.deep_view(),
        r,
        claims,
        entities,
    );
}

/// What an answer of the policies comes to, by what they are shown.
pub proof fn lemma_answer(
    authorizer: Option<&pep::cedar::CedarAuthorizer>,
    user: &AuthenticatedUser,
    action: Option<Seq<char>>,
    slug: Seq<char>,
    id: Seq<char>,
    group: Option<Seq<char>>,
    answer: Result<(), u16>,
    claims: JwtClaims,
    entities: Map<UidView, Attrs>,
)
    requires
        create::possible_answer(authorizer, user.deep_view(), action, slug, id, group, answer),
        call_ensures(enforcement::extract_claims_for_cedar, (user,), claims),
        forall|pairs: Seq<(String, String)>| #[trigger]
            administered(pairs, group) ==> shown(
                entities,
                claims,
                (entity_config::cedar_type(slug), id),
                pairs,
            ),
    ensures
        authorizer is None || action is None ==> answer is Ok,
        authorizer is Some && action is Some ==> {
            let permits = enforcement::policy_allows(
                *authorizer->0,
                (
                    ("User"@, user.user_id@),
                    ("Action"@, action->0),
                    (entity_config::cedar_type(slug), id),
                ),
                entities,
            );
            &&& answer is Ok ==> permits
            &&& answer == Err::<(), u16>(403) ==> !permits
            &&& answer is Err ==> answer->Err_0 == 403 || answer->Err_0 == 500
        },
{
    if authorizer is Some && action is Some {
        let c = user.deep_view().cedar_claims();
        assert(claims.deep_view() == c);
        assert(claims.deep_view().sub == claims.sub@);
        let resource = (entity_config::cedar_type(slug), id);
        let pairs = choose|attrs: Seq<(String, String)>| #[trigger]
            create::group_attrs(attrs, group) && enforcement::sound(
                answer,
                enforcement::permitted(*authorizer->0, c, action->0, resource, attrs),
            ) && enforcement::answered(
                answer,
                *authorizer->0,
                c,
                action->0,
                resource,
                attrs,
            );
        assert(administered(pairs, group));
        lemma_shown(claims, resource, pairs, entities);
    }
}

/// The Cedar type of a slug, word by word: a character that is no ASCII letter or
/// digit only parts what stands before it from what stands behind it, and a word
/// keeps its characters but for the first, which becomes a capital.
pub proof fn law_cedar_type_is_its_words(a: Seq<char>, c: char, b: Seq<char>)
    ensures
        !is_word_char(c) ==> entity_config::cedar_type(a + seq![c] + b)
            == entity_config::cedar_type(a) + entity_config::cedar_type(b),
        a.len() > 0 && (forall|i: int| 0 <= i < a.len() ==> is_word_char(#[trigger] a[i]))
            ==> entity_config::cedar_type(a) == seq![capital(a[0])] + a.drop_first(),
        entity_config::cedar_type(Seq::empty()) == Seq::<char>::empty(),
    decreases a.len() + b.len(),
{
    if !is_word_char(c) {
        let s = a + seq![c] + b;
        if b.len() == 0 {
            assert(s.drop_last() =~= a);
            assert(s.last() == c);
            assert(entity_config::cedar_type(a) + Seq::<char>::empty()
                =~= entity_config::cedar_type(a));
        } else {
            let init = b.drop_last();
            law_cedar_type_is_its_words(a, c, init);
            assert(s.drop_last() =~= a + seq![c] + init);
            assert(s.last() == b.last());
            if b.len() > 1 {
                assert(s[s.len() - 2] == b[b.len() - 2]);
            } else {
                assert(s[s.len() - 2] == c);
            }
            assert(entity_config::cedar_type(s) =~= entity_config::cedar_type(a)
                + entity_config::cedar_type(b));
        }
    }
    if a.len() > 0 && (forall|i: int| 0 <= i < a.len() ==> is_word_char(#[trigger] a[i])) {
        let init = a.drop_last();
        assert(is_word_char(a[a.len() - 1]));
        if a.len() > 1 {
            assert forall|i: int| 0 <= i < init.len() implies is_word_char(#[trigger] init[i]) by {
                assert(init[i] == a[i]);
            }
            law_cedar_type_is_its_words(init, '-', Seq::empty());
            assert(is_word_char(a[a.len() - 2]));
            assert(init[0] == a[0]);
            assert((seq![capital(a[0])] + init.drop_first()).push(a.last()) =~= seq![
                capital(a[0]),
            ] + a.drop_first());
        } else {
            assert(init =~= Seq::empty());
            assert(entity_config::cedar_type(init) =~= Seq::empty());
            assert(Seq::<char>::empty().push(capital(a[0])) =~= seq![capital(a[0])]
                + a.drop_first());
        }
    }
}

/// An ASCII letter or digit.
pub open spec fn is_word_char(c: char) -> bool {
    ('a' <= c && c <= 'z') || ('A' <= c && c <= 'Z') || ('0' <= c && c <= '9')
}

/// A character, as a capital where it is a small ASCII letter.
pub open spec fn capital(c: char) -> char {
    if 'a' <= c && c <= 'z' {
        (c as u32 - 32) as char
    } else {
        c
    }
}

/// The principal of a decision is the user of the claims' subject, described, and a
/// resource is of the given type and id, with the given attributes.
pub proof fn law_principal_and_resource_are_as_given(
    claims: &JwtClaims,
    p: Result<cedar_policy::Entity, CedarFailure>,
    entity_type: &str,
    id: &str,
    pairs: &Vec<(String, String)>,
    r: Result<cedar_policy::Entity, CedarFailure>,
)
    requires
        call_ensures(entity::user_to_cedar_principal, (claims,), p),
        call_ensures(entity::resource_entity, (entity_type, id, pairs), r),
    ensures
        p matches Ok(e) ==> {
            let parts = entity::entity_parts(e);
            parts is Some && (parts->0).0 == ("User"@, claims.sub@) && describes(
                (parts->0).1,
                *claims,
            )
        },
        r matches Ok(e) ==> {
            let parts = entity::entity_parts(e);
            parts is Some && (parts->0).0 == (entity_type@, id@) && lists((parts->0).1, pairs@)
        },
{
    lemma_described(*claims);
    lemma_lists(pairs@);
}

/// An answer is what a verdict comes to: permission where the policies allowed and
/// none failed, 403 where they did not allow and none failed, 500 where one failed.
pub open spec fn is_verdict(r: Result<(), u16>, v: Verdict) -> bool {
    &&& r is Ok <==> v.allowed && !v.has_errors
    &&& r == Err::<(), u16>(500) <==> v.has_errors
    &&& r == Err::<(), u16>(403) <==> !v.allowed && !v.has_errors
}

/// The resource is the user itself, and what is known of it is not what describes
/// the user.
pub open spec fn clashes(
    claims: JwtClaims,
    resource: UidView,
    pairs: Seq<(String, String)>,
) -> bool {
    &&& pairs.len() > 0
    &&& resource == ("User"@, claims.sub@)
    &&& forall|a: Attrs| #[trigger] describes(a, claims) ==> !lists(a, pairs)
}

/// The user, or the resource where something is known of it, may be refused as an
/// entity.
pub open spec fn may_be_unmade(
    claims: JwtClaims,
    resource: UidView,
    pairs: Seq<(String, String)>,
) -> bool {
    ||| exists|a: Attrs| #[trigger]
        describes(a, claims) && entity::may_be_refused(("User"@, claims.sub@), a)
    ||| pairs.len() > 0 && exists|a: Attrs| #[trigger]
        lists(a, pairs) && entity::may_be_refused(resource, a)
}

/// An answer has its cause: a verdict of the policies; or, for 500, that the resource
/// has no type's name, that it clashes with the user, or that an entity may have been
/// refused.
pub open spec fn has_its_cause(
    r: Result<(), u16>,
    authorizer: pep::cedar::CedarAuthorizer,
    claims: JwtClaims,
    action: Seq<char>,
    resource: UidView,
    pairs: Seq<(String, String)>,
) -> bool {
    if !entity::is_type_name(resource.0) || clashes(claims, resource, pairs) {
        r == Err::<(), u16>(500)
    } else {
        ||| exists|v: Verdict| #[trigger]
            enforcement::may_say(
                authorizer,
                claims.deep_view(),
                action,
                resource,
                pairs,
                v,
            ) && is_verdict(r, v)
        ||| r == Err::<(), u16>(500) && may_be_unmade(claims, resource, pairs)
    }
}

proof fn lemma_cause(
    r: Result<(), u16>,
    authorizer: pep::cedar::CedarAuthorizer,
    claims: JwtClaims,
    action: Seq<char>,
    resource: UidView,
    pairs: Seq<(String, String)>,
)
    requires
        enforcement::answered(r, authorizer, claims.deep_view(), action, resource, pairs),
    ensures
        has_its_cause(r, authorizer, claims, action, resource, pairs),
{
    let user = ("User"@, claims.sub@);
    let a = entity::principal_attrs(claims.deep_view());
    let b = entity::text_attrs(pairs);
    lemma_described(claims);
    lemma_lists(pairs);
    assert(enforcement::clash(claims.deep_view(), resource, pairs) <==> clashes(
        claims,
        resource,
        pairs,
    )) by {
        if enforcement::clash(claims.deep_view(), resource, pairs) {
            assert forall|x: Attrs| #[trigger] describes(x, claims) implies !lists(x, pairs) by {
                if lists(x, pairs) {
                    lemma_one_description(x, a, claims);
                    lemma_one_list(x, b, pairs);
                }
            }
        }
        if clashes(claims, resource, pairs) {
            assert(!lists(a, pairs));
        }
    }
    if entity::is_type_name(resource.0) && !clashes(claims, resource, pairs) {
        if exists|v: Verdict| #[trigger]
            enforcement::may_say(authorizer, claims.deep_view(), action, resource, pairs, v) && r
                == enforcement::outcome(v) {
            let v = choose|v: Verdict| #[trigger]
                enforcement::may_say(authorizer, claims.deep_view(), action, resource, pairs, v)
                    && r == enforcement::outcome(v);
            assert(is_verdict(r, v));
        } else {
            assert(describes(a, claims));
            assert(lists(b, pairs));
        }
    }
}

/// Every answer has its cause: nothing is refused but for what the policies say, or
/// because the question could not be put to them.
pub proof fn law_every_answer_has_its_cause(
    authorizer: &pep::cedar::CedarAuthorizer,
    claims: &JwtClaims,
    action: &str,
    entity_type: &str,
    entity_id: &str,
    pairs: &Vec<(String, String)>,
    r: Result<(), u16>,
    plain: Result<(), u16>,
    yes: bool,
)
    requires
        call_ensures(
            enforcement::check_permission_scoped,
            (authorizer, claims, action, entity_type, entity_id, pairs),
            r,
        ),
        call_ensures(
            enforcement::check_permission,
            (authorizer, claims, action, entity_type, entity_id),
            plain,
        ),
        call_ensures(
            enforcement::is_allowed,
            (authorizer, claims, action, entity_type, entity_id),
            yes,
        ),
    ensures
        has_its_cause(r, *authorizer, *claims, action@, (entity_type@, entity_id@), pairs@),
        has_its_cause(
            plain,
            *authorizer,
            *claims,
            action@,
            (entity_type@, entity_id@),
            Seq::empty(),
        ),
        exists|answer: Result<(), u16>| #[trigger]
            has_its_cause(
                answer,
                *authorizer,
                *claims,
                action@,
                (entity_type@, entity_id@),
                Seq::empty(),
            ) && yes == (answer is Ok),
{
    let resource = (entity_type@, entity_id@);
    lemma_cause(r, *authorizer, *claims, action@, resource, pairs@);
    lemma_cause(plain, *authorizer, *claims, action@, resource, Seq::empty());
    let answer = choose|answer: Result<(), u16>| #[trigger]
        enforcement::answered(
            answer,
            *authorizer,
            claims.deep_view(),
            action@,
            resource,
            Seq::empty(),
        ) && yes == (answer is Ok);
    lemma_cause(answer, *authorizer, *claims, action@, resource, Seq::empty());
}

/// An answer to whether a user may do something to an entity of a kind: permission
/// without authorization and where the kind names no action for it, else one that has
/// its cause, with the group that administers the entity.
pub open spec fn is_answer(
    r: Result<(), u16>,
    authorizer: Option<&pep::cedar::CedarAuthorizer>,
    claims: JwtClaims,
    action: Option<Seq<char>>,
    resource: UidView,
    group: Option<Seq<char>>,
) -> bool {
    if authorizer is None || action is None {
        r is Ok
    } else {
        exists|pairs: Seq<(String, String)>| #[trigger]
            administered(pairs, group) && has_its_cause(
                r,
                *authorizer->0,
                claims,
                action->0,
                resource,
                pairs,
            )
    }
}

/// What is taken for an answer is one.
pub proof fn lemma_is_answer(
    r: Result<(), u16>,
    authorizer: Option<&pep::cedar::CedarAuthorizer>,
    user: &AuthenticatedUser,
    claims: JwtClaims,
    action: Option<Seq<char>>,
    slug: Seq<char>,
    id: Seq<char>,
    group: Option<Seq<char>>,
)
    requires
        create::possible_answer(authorizer, user.deep_view(), action, slug, id, group, r),
        call_ensures(enforcement::extract_claims_for_cedar, (user,), claims),
    ensures
        is_answer(
            r,
            authorizer,
            claims,
            action,
            (entity_config::cedar_type(slug), id),
            group,
        ),
{
    if authorizer is Some && action is Some {
        let c = user.deep_view().cedar_claims();
        assert(claims.deep_view() == c);
        let resource = (entity_config::cedar_type(slug), id);
        let pairs = choose|attrs: Seq<(String, String)>| #[trigger]
            create::group_attrs(attrs, group) && enforcement::sound(
                r,
                enforcement::permitted(*authorizer->0, c, action->0, resource, attrs),
            ) && enforcement::answered(r, *authorizer->0, c, action->0, resource, attrs);
        assert(administered(pairs, group));
        lemma_cause(r, *authorizer->0, claims, action->0, resource, pairs);
    }
}

/// Whether a user may do something is answered for a cause.
pub proof fn law_authorization_has_its_cause(
    authorizer: Option<&pep::cedar::CedarAuthorizer>,
    user: &AuthenticatedUser,
    action: &Option<String>,
    slug: &str,
    id: &str,
    group: Option<&str>,
    r: Result<(), u16>,
    claims: JwtClaims,
)
    requires
        call_ensures(create::authorize, (authorizer, user, action, slug, id, group), r),
        call_ensures(enforcement::extract_claims_for_cedar, (user,), claims),
    ensures
        is_answer(
            r,
            authorizer,
            claims,
            action.deep_view(),
            (entity_config::cedar_type(slug@), id@),
            group.deep_view(),
        ),
{
    lemma_is_answer(
        r,
        authorizer,
        user,
        claims,
        action.deep_view(),
        slug@,
        id@,
        group.deep_view(),
    );
}

} // verus!
