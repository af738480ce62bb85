//! What holds of every JSON value.
use crate::json::{self, Json, JsonNumber, JsonView, Members};
use crate::keyed::{self, KeyedList};
use vstd::prelude::*;

verus! {

/// A value is an object that has a member of the given name and value.
pub open spec fn has(v: JsonView, key: Seq<char>, value: JsonView) -> bool {
    v matches JsonView::Object(m) && m.contains_key(key) && m[key] == value
}

/// A value is an object without a member of the given name.
pub open spec fn lacks(v: JsonView, key: Seq<char>) -> bool {
    v matches JsonView::Object(m) && !m.contains_key(key)
}

/// The member of a name is the value that the object has under it, and the text
/// of a member is that value's where it is a text.
pub proof fn law_members_are_looked_up(m: Members, key: Seq<char>, value: JsonView, t: Seq<char>)
    ensures
        json::member_of(m, key) == Some(value) <==> m.contains_key(key) && m[key] == value,
        json::member_of(m, key) is None <==> !m.contains_key(key),
        json::text_member_of(m, key) == Some(t) <==> m.contains_key(key) && m[key]
            == JsonView::Text(t),
        JsonView::Object(m).member(key) == Some(value) <==> m.contains_key(key) && m[key] == value,
        JsonView::Object(m).text_member(key) == Some(t) <==> m.contains_key(key) && m[key]
            == JsonView::Text(t),
        value !is Object ==> value.member(key) is None && value.text_member(key) is None,
        value.text() == Some(t) <==> value == JsonView::Text(t),
        value.object() == Some(m) <==> value == JsonView::Object(m),
{
}

/// The texts among items are the items that are texts, in order.
pub proof fn law_texts_among_items(items: Seq<JsonView>)
    ensures
        json::texts_of(items) == items.filter(|v: JsonView| v is Text).map_values(
            |v: JsonView| v->Text_0,
        ),
    decreases items.len(),
{
    reveal(Seq::filter);
    let is_text = |v: JsonView| v is Text;
    let inner = |v: JsonView| v->Text_0;
    if items.len() == 0 {
        assert(json::texts_of(items) =~= items.filter(is_text).map_values(inner));
    } else {
        let init = items.drop_last();
        law_texts_among_items(init);
        if items.last() is Text {
            assert(init.filter(is_text).push(items.last()).map_values(inner) =~= init.filter(
                is_text,
            ).map_values(inner).push(items.last()->Text_0));
        }
    }
}

/// A list of texts is the list of each of them as a text.
pub proof fn law_text_list(items: Seq<Seq<char>>, i: int)
    ensures
        json::text_list(items) matches JsonView::List(s) && s.len() == items.len() && (0 <= i
            < items.len() ==> s[i] == JsonView::Text(items[i])),
        json::text_or_null(None) == JsonView::Null,
        0 <= i < items.len() ==> json::text_or_null(Some(items[i])) == JsonView::Text(items[i]),
{
}

/// A JSON value says what it holds.
pub proof fn law_json_says_what_it_holds(
    b: bool,
    n: JsonNumber,
    s: String,
    v: Vec<Json>,
    o: KeyedList<Json>,
    i: int,
)
    requires
        keyed::distinct_keys(o.entries()),
    ensures
        Json::Null.model() == JsonView::Null,
        Json::Bool(b).model() == JsonView::Bool(b),
        Json::Number(n).model() == JsonView::Number(n),
        Json::Text(s).model() == JsonView::Text(s@),
        Json::List(v).model() matches JsonView::List(items) && items.len() == v@.len() && (0 <= i
            < v@.len() ==> items[i] == v@[i].model()),
        Json::Object(o).model() matches JsonView::Object(m) && (0 <= i < o.entries().len() ==> has(
            Json::Object(o).model(),
            o.entries()[i].0@,
            o.entries()[i].1.model(),
        )) && forall|k: Seq<char>| #[trigger]
            m.contains_key(k) ==> exists|j: int|
                0 <= j < o.entries().len() && (#[trigger] o.entries()[j]).0@ == k,
{
    json::lemma_members(o.entries());
    keyed::lemma_map_of(o.entries());
    if 0 <= i < o.entries().len() {
        assert(keyed::map_of(o.entries()).contains_key(o.entries()[i].0@));
    }
    let m = json::members_model(o.entries());
    assert forall|k: Seq<char>| #[trigger] m.contains_key(k) implies exists|j: int|
        0 <= j < o.entries().len() && (#[trigger] o.entries()[j]).0@ == k by {
        assert(keyed::map_of(o.entries()).contains_key(k));
    }
}

/// The value of a name in a table is that of its entry.
pub proof fn law_table_is_its_entries<V>(list: KeyedList<V>, i: int, key: Seq<char>)
    requires
        keyed::distinct_keys(list.entries()),
    ensures
        0 <= i < list.entries().len() ==> list@.contains_key(list.entries()[i].0@)
            && list@[list.entries()[i].0@] == list.entries()[i].1,
        list@.contains_key(key) ==> exists|j: int|
            0 <= j < list.entries().len() && (#[trigger] list.entries()[j]).0@ == key,
{
    keyed::lemma_map_of(list.entries());
}

} // verus!
