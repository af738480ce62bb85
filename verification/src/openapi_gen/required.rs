//! Completing schemas and parameters.
//!
//! Readers of an API description expect `required` on every object schema and on
//! every parameter, also where there is nothing to require.
use crate::json::{self, empty_object, member, put, text_member, Json, JsonView, Members};
use crate::keyed::KeyedList;
use crate::text::same_opt;
use vstd::prelude::*;

verus! {

/// An object that reads like an object schema.
pub open spec fn is_object_schema(m: Members) -> bool {
    json::text_member_of(m, "type"@) == Some("object"@) || m.contains_key("properties"@)
}

/// An object that reads like a parameter.
pub open spec fn is_parameter(m: Members) -> bool {
    m.contains_key("in"@)
}

/// What `required` is where it is missing: an empty list for an object schema,
/// `false` for a parameter.
pub open spec fn missing_required(m: Members) -> Option<JsonView> {
    if m.contains_key("required"@) {
        None
    } else if is_object_schema(m) {
        Some(JsonView::List(Seq::empty()))
    } else if is_parameter(m) {
        Some(JsonView::Bool(false))
    } else {
        None
    }
}

/// A value in which every object schema and every parameter has `required`.
pub open spec fn completed(v: JsonView) -> JsonView
    decreases v,
{
    match v {
        JsonView::Object(m) => {
            let inner = Map::new(
                |k: Seq<char>| m.contains_key(k),
                |k: Seq<char>|
                    if m.contains_key(k) {
                        completed(m[k])
                    } else {
                        JsonView::Null
                    },
            );
            match missing_required(m) {
                Some(r) => JsonView::Object(inner.insert("required"@, r)),
                None => JsonView::Object(inner),
            }
        },
        JsonView::List(s) => JsonView::List(
            Seq::new(
                s.len(),
                |i: int|
                    if 0 <= i < s.len() {
                        completed(s[i])
                    } else {
                        JsonView::Null
                    },
            ),
        ),
        _ => v,
    }
}

/// The members, each completed.
pub open spec fn completed_members(m: Members) -> Members {
    Map::new(|k: Seq<char>| m.contains_key(k), |k: Seq<char>| completed(m[k]))
}

fn complete_list(items: &Vec<Json>) -> (r: Json)
    ensures
        r.model() == completed(JsonView::List(json::list_model(items@))),
    decreases items,
{
    let mut list: Vec<Json> = Vec::new();
    let mut i: usize = 0;
    while i < items.len()
        invariant
            i <= items.len(),
            list@.len() == i,
            forall|j: int|
                0 <= j < i ==> (#[trigger] list@[j]).model() == completed(items@[j].model()),
        decreases items.len() - i,
    {
        proof {
            assert(decreases_to!(*items => items@[i as int]));
        }
        let item = complete(&items[i]);
        list.push(item);
        i = i + 1;
    }
    let r = Json::List(list);
    assert(r.model()->List_0 =~= completed(JsonView::List(json::list_model(items@)))->List_0);
    r
}

fn complete_members(object: &KeyedList<Json>) -> (r: KeyedList<Json>)
    ensures
        json::members(r) == completed_members(json::members(*object)),
    decreases object,
{
    let n: usize = object.len();
    let ghost all = object.entries();
    let mut r = empty_object();
    let mut i: usize = 0;
    assert(json::members(r) =~= completed_members(json::members_model(all.take(0))));
    while i < n
        invariant
            i <= n,
            n == all.len(),
            all == object.entries(),
            json::members(r) == completed_members(json::members_model(all.take(i as int))),
        decreases n - i,
    {
        let e = object.entry(i);
        let ghost before = json::members_model(all.take(i as int));
        proof {
            object.lemma_entries_decrease();
            json::lemma_members_take(all, i as int);
            assert(completed_members(before.insert(e.0@, e.1.model())) =~= completed_members(
                before,
            ).insert(e.0@, completed(e.1.model())));
        }
        let value = complete(&e.1);
        put(&mut r, e.0.clone(), value);
        i = i + 1;
    }
    assert(all.take(n as int) =~= all);
    r
}

/// The value in which every object schema and every parameter has `required`.
pub fn complete(value: &Json) -> (r: Json)
    ensures
        r.model() == completed(value.model()),
    decreases value,
{
    match value {
        Json::Object(o) => {
            let mut inner = complete_members(o);
            if member(o, "required").is_none() {
                if same_opt(text_member(o, "type"), "object") || member(o, "properties").is_some() {
                    let nothing: Vec<Json> = Vec::new();
                    assert(json::list_model(nothing@) =~= Seq::<JsonView>::empty());
                    put(&mut inner, "required".to_owned(), Json::List(nothing));
                } else if member(o, "in").is_some() {
                    put(&mut inner, "required".to_owned(), Json::Bool(false));
                }
            }
            let r = Json::Object(inner);
            proof {
                assert(r.model()->Object_0 =~= completed(value.model())->Object_0);
            }
            r
        },
        Json::List(items) => complete_list(items),
        _ => value.clone(),
    }
}

/// Gives every object schema and every parameter of an API description its
/// `required`.
pub fn ensure_required_fields(spec: &mut Json)
    ensures
        final(spec).model() == completed(old(spec).model()),
{
    let done = complete(&*spec);
    *spec = done;
}

/// Every object schema and every parameter has `required`.
pub open spec fn is_complete(v: JsonView) -> bool
    decreases v,
{
    match v {
        JsonView::Object(m) => {
            &&& is_object_schema(m) || is_parameter(m) ==> m.contains_key("required"@)
            &&& forall|k: Seq<char>| #[trigger] m.contains_key(k) ==> is_complete(m[k])
        },
        JsonView::List(s) => forall|i: int| 0 <= i < s.len() ==> is_complete(#[trigger] s[i]),
        _ => true,
    }
}

/// Completing leaves no object schema and no parameter without `required`.
pub proof fn law_completed_is_complete(v: JsonView)
    ensures
        is_complete(completed(v)),
    decreases v,
{
    match v {
        JsonView::Object(m) => {
            let done = completed(v)->Object_0;
            reveal_strlit("required");
            reveal_strlit("type");
            reveal_strlit("properties");
            reveal_strlit("in");
            assert("required"@.len() == 8 && "type"@.len() == 4 && "properties"@.len() == 10
                && "in"@.len() == 2);
            assert forall|k: Seq<char>| #[trigger] done.contains_key(k) implies is_complete(
                done[k],
            ) by {
                if m.contains_key(k) && !(k == "required"@ && missing_required(m) is Some) {
                    law_completed_is_complete(m[k]);
                }
            }
            assert(is_parameter(done) == is_parameter(m));
            assert(is_object_schema(done) == is_object_schema(m)) by {
                if m.contains_key("type"@) {
                    assert(done["type"@] == completed(m["type"@]));
                }
            }
        },
        JsonView::List(s) => {
            let done = completed(v)->List_0;
            assert forall|i: int| 0 <= i < done.len() implies is_complete(#[trigger] done[i]) by {
                law_completed_is_complete(s[i]);
            }
        },
        _ => {},
    }
}

/// What is complete stays as it is.
pub proof fn law_complete_stays(v: JsonView)
    requires
        is_complete(v),
    ensures
        completed(v) == v,
    decreases v,
{
    match v {
        JsonView::Object(m) => {
            let done = completed(v)->Object_0;
            assert forall|k: Seq<char>| #[trigger] m.contains_key(k) implies completed(m[k])
                == m[k] by {
                law_complete_stays(m[k]);
            }
            assert(done =~= m);
        },
        JsonView::List(s) => {
            let done = completed(v)->List_0;
            assert forall|i: int| 0 <= i < s.len() implies completed(s[i]) == #[trigger] s[i] by {
                law_complete_stays(s[i]);
            }
            assert(done =~= s);
        },
        _ => {},
    }
}

/// Completing a second time changes nothing.
pub proof fn law_completing_twice(v: JsonView)
    ensures
        completed(completed(v)) == completed(v),
{
    law_completed_is_complete(v);
    law_complete_stays(completed(v));
}

/// Completing an object keeps every member, itself completed, and adds nothing
/// but `required`.
pub proof fn law_completing_keeps_members(m: Members, k: Seq<char>)
    ensures
        completed(JsonView::Object(m)) matches JsonView::Object(done) && {
            &&& m.contains_key(k) ==> done.contains_key(k) && done[k] == completed(m[k])
            &&& done.contains_key(k) && !m.contains_key(k) ==> k == "required"@
        },
{
}

} // verus!
