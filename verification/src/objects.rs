//! Building JSON objects of a few members.
use crate::json::{empty_object, with, Json, JsonView};
use vstd::prelude::*;

verus! {

/// A text.
pub open spec fn txt(s: Seq<char>) -> JsonView {
    JsonView::Text(s)
}

/// An object of one member.
pub open spec fn obj1(k1: Seq<char>, v1: JsonView) -> JsonView {
    JsonView::Object(Map::empty().insert(k1, v1))
}

/// An object of two members.
pub open spec fn obj2(
    k1: Seq<char>,
    v1: JsonView,
    k2: Seq<char>,
    v2: JsonView,
) -> JsonView {
    JsonView::Object(
        Map::empty().insert(k1, v1).insert(k2, v2),
    )
}

/// An object of three members.
pub open spec fn obj3(
    k1: Seq<char>,
    v1: JsonView,
    k2: Seq<char>,
    v2: JsonView,
    k3: Seq<char>,
    v3: JsonView,
) -> JsonView {
    JsonView::Object(
        Map::empty().insert(k1, v1).insert(k2, v2).insert(k3, v3),
    )
}

/// An object of four members.
pub open spec fn obj4(
    k1: Seq<char>,
    v1: JsonView,
    k2: Seq<char>,
    v2: JsonView,
    k3: Seq<char>,
    v3: JsonView,
    k4: Seq<char>,
    v4: JsonView,
) -> JsonView {
    JsonView::Object(
        Map::empty().insert(k1, v1).insert(k2, v2).insert(k3, v3).insert(k4, v4),
    )
}

/// An object of five members.
pub open spec fn obj5(
    k1: Seq<char>,
    v1: JsonView,
    k2: Seq<char>,
    v2: JsonView,
    k3: Seq<char>,
    v3: JsonView,
    k4: Seq<char>,
    v4: JsonView,
    k5: Seq<char>,
    v5: JsonView,
) -> JsonView {
    JsonView::Object(
        Map::empty().insert(k1, v1).insert(k2, v2).insert(k3, v3).insert(k4, v4).insert(k5, v5),
    )
}

/// An object of seven members.
pub open spec fn obj7(
    k1: Seq<char>,
    v1: JsonView,
    k2: Seq<char>,
    v2: JsonView,
    k3: Seq<char>,
    v3: JsonView,
    k4: Seq<char>,
    v4: JsonView,
    k5: Seq<char>,
    v5: JsonView,
    k6: Seq<char>,
    v6: JsonView,
    k7: Seq<char>,
    v7: JsonView,
) -> JsonView {
    JsonView::Object(
        Map::empty().insert(k1, v1).insert(k2, v2).insert(k3, v3).insert(k4, v4).insert(k5, v5).insert(k6, v6).insert(k7, v7),
    )
}

/// An object of one member.
pub fn make_obj1(k1: &str, v1: Json) -> (r: Json)
    ensures
        r.model() == obj1(k1@, v1.model()),
{
    let o = with(empty_object(), k1, v1);
    Json::Object(o)
}

/// An object of two members.
pub fn make_obj2(
    k1: &str,
    v1: Json,
    k2: &str,
    v2: Json,
) -> (r: Json)
    ensures
        r.model() == obj2(k1@, v1.model(), k2@, v2.model()),
{
    let o = with(empty_object(), k1, v1);
    let o = with(o, k2, v2);
    Json::Object(o)
}

/// An object of three members.
pub fn make_obj3(
    k1: &str,
    v1: Json,
    k2: &str,
    v2: Json,
    k3: &str,
    v3: Json,
) -> (r: Json)
    ensures
        r.model() == obj3(k1@, v1.model(), k2@, v2.model(), k3@, v3.model()),
{
    let o = with(empty_object(), k1, v1);
    let o = with(o, k2, v2);
    let o = with(o, k3, v3);
    Json::Object(o)
}

/// An object of four members.
pub fn make_obj4(
    k1: &str,
    v1: Json,
    k2: &str,
    v2: Json,
    k3: &str,
    v3: Json,
    k4: &str,
    v4: Json,
) -> (r: Json)
    ensures
        r.model() == obj4(k1@, v1.model(), k2@, v2.model(), k3@, v3.model(), k4@, v4.model()),
{
    let o = with(empty_object(), k1, v1);
    let o = with(o, k2, v2);
    let o = with(o, k3, v3);
    let o = with(o, k4, v4);
    Json::Object(o)
}

/// An object of five members.
pub fn make_obj5(
    k1: &str,
    v1: Json,
    k2: &str,
    v2: Json,
    k3: &str,
    v3: Json,
    k4: &str,
    v4: Json,
    k5: &str,
    v5: Json,
) -> (r: Json)
    ensures
        r.model() == obj5(k1@, v1.model(), k2@, v2.model(), k3@, v3.model(), k4@, v4.model(), k5@, v5.model()),
{
    let o = with(empty_object(), k1, v1);
    let o = with(o, k2, v2);
    let o = with(o, k3, v3);
    let o = with(o, k4, v4);
    let o = with(o, k5, v5);
    Json::Object(o)
}

/// An object of seven members.
pub fn make_obj7(
    k1: &str,
    v1: Json,
    k2: &str,
    v2: Json,
    k3: &str,
    v3: Json,
    k4: &str,
    v4: Json,
    k5: &str,
    v5: Json,
    k6: &str,
    v6: Json,
    k7: &str,
    v7: Json,
) -> (r: Json)
    ensures
        r.model() == obj7(k1@, v1.model(), k2@, v2.model(), k3@, v3.model(), k4@, v4.model(), k5@, v5.model(), k6@, v6.model(), k7@, v7.model()),
{
    let o = with(empty_object(), k1, v1);
    let o = with(o, k2, v2);
    let o = with(o, k3, v3);
    let o = with(o, k4, v4);
    let o = with(o, k5, v5);
    let o = with(o, k6, v6);
    let o = with(o, k7, v7);
    Json::Object(o)
}

} // verus!
