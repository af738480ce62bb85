//! JSON values, as plain data.
//!
//! A [`Json`] value is what a request body, a claim or a stored piece of
//! metadata holds.  Contracts speak of its [`JsonView`], in which an object is a
//! map from names to values.
use crate::keyed::{self, KeyedList};
use vstd::prelude::*;

verus! {

/// A JSON number.  A number with a fraction or an exponent is kept as the bits
/// of its binary form, and is never computed with.
#[derive(Clone, Copy, PartialEq, Eq, Structural, Debug)]
pub enum JsonNumber {
    Unsigned(u64),
    Signed(i64),
    FloatBits(u64),
}

/// A JSON value.
pub enum Json {
    Null,
    Bool(bool),
    Number(JsonNumber),
    Text(String),
    List(Vec<Json>),
    Object(KeyedList<Json>),
}

/// What a JSON value says.
#[verifier::ext_equal]
pub enum JsonView {
    Null,
    Bool(bool),
    Number(JsonNumber),
    Text(Seq<char>),
    List(Seq<JsonView>),
    Object(Map<Seq<char>, JsonView>),
}

/// The members of a JSON object.
pub type Members = Map<Seq<char>, JsonView>;

/// What a list of JSON values says.
pub open spec fn list_model(s: Seq<Json>) -> Seq<JsonView>
    decreases s,
{
    Seq::new(
        s.len(),
        |i: int|
            if 0 <= i < s.len() {
                s[i].model()
            } else {
                JsonView::Null
            },
    )
}

/// What a list of named JSON values says.
pub open spec fn members_model(s: Seq<(String, Json)>) -> Members
    decreases s,
{
    if s.len() == 0 {
        Map::empty()
    } else {
        members_model(s.drop_last()).insert(s.last().0@, s.last().1.model())
    }
}

impl Json {
    /// What the value says.
    pub open spec fn model(self) -> JsonView
        decreases self,
    {
        match self {
            Json::Null => JsonView::Null,
            Json::Bool(b) => JsonView::Bool(b),
            Json::Number(n) => JsonView::Number(n),
            Json::Text(s) => JsonView::Text(s@),
            Json::List(v) => JsonView::List(list_model(v@)),
            Json::Object(o) => {
                proof {
                    o.lemma_entries_decrease();
                }
                JsonView::Object(members_model(o.entries()))
            },
        }
    }
}

/// The members that a table of JSON values stands for.
pub open spec fn members(list: KeyedList<Json>) -> Members {
    members_model(list.entries())
}

impl JsonView {
    /// The text of a value that is a text.
    pub open spec fn text(self) -> Option<Seq<char>> {
        match self {
            JsonView::Text(s) => Some(s),
            _ => None,
        }
    }

    /// The items of a value that is a list.
    pub open spec fn list(self) -> Option<Seq<JsonView>> {
        match self {
            JsonView::List(s) => Some(s),
            _ => None,
        }
    }

    /// The members of a value that is an object.
    pub open spec fn object(self) -> Option<Members> {
        match self {
            JsonView::Object(m) => Some(m),
            _ => None,
        }
    }

    /// The member of an object with the given name.
    pub open spec fn member(self, key: Seq<char>) -> Option<JsonView> {
        match self {
            JsonView::Object(m) => member_of(m, key),
            _ => None,
        }
    }

    /// The text of the member of an object with the given name.
    pub open spec fn text_member(self, key: Seq<char>) -> Option<Seq<char>> {
        match self {
            JsonView::Object(m) => text_member_of(m, key),
            _ => None,
        }
    }
}

/// The member with the given name.
pub open spec fn member_of(m: Members, key: Seq<char>) -> Option<JsonView> {
    if m.contains_key(key) {
        Some(m[key])
    } else {
        None
    }
}

/// The text of the member with the given name.
pub open spec fn text_member_of(m: Members, key: Seq<char>) -> Option<Seq<char>> {
    if m.contains_key(key) {
        m[key].text()
    } else {
        None
    }
}

/// The texts among the items, in order.
pub open spec fn texts_of(items: Seq<JsonView>) -> Seq<Seq<char>>
    decreases items.len(),
{
    if items.len() == 0 {
        Seq::empty()
    } else {
        match items.last() {
            JsonView::Text(s) => texts_of(items.drop_last()).push(s),
            _ => texts_of(items.drop_last()),
        }
    }
}

/// A list of texts as a JSON list.
pub open spec fn text_list(items: Seq<Seq<char>>) -> JsonView {
    JsonView::List(items.map_values(|s: Seq<char>| JsonView::Text(s)))
}

/// A text, or `null` where there is none.
pub open spec fn text_or_null(t: Option<Seq<char>>) -> JsonView {
    match t {
        Some(s) => JsonView::Text(s),
        None => JsonView::Null,
    }
}

/// The members of a table are the values of its map.
pub proof fn lemma_members(s: Seq<(String, Json)>)
    ensures
        members_model(s).dom() =~= keyed::map_of(s).dom(),
        forall|k: Seq<char>| #[trigger]
            keyed::map_of(s).contains_key(k) ==> members_model(s)[k] == keyed::map_of(s)[k].model(),
    decreases s.len(),
{
    if s.len() > 0 {
        lemma_members(s.drop_last());
    }
}

/// One more entry is one more member.
pub proof fn lemma_members_take(s: Seq<(String, Json)>, i: int)
    requires
        0 <= i < s.len(),
    ensures
        members_model(s.take(i + 1)) == members_model(s.take(i)).insert(s[i].0@, s[i].1.model()),
{
    assert(s.take(i + 1).drop_last() =~= s.take(i));
}

/// An object has no members exactly where its table has no entries.
pub proof fn lemma_empty(list: KeyedList<Json>)
    ensures
        (members(list) == Map::<Seq<char>, JsonView>::empty()) == (list.entries().len() == 0),
{
    let s = list.entries();
    if s.len() > 0 {
        assert(members(list).contains_key(s.last().0@));
    }
}

/// The empty object.
pub fn empty_object() -> (r: KeyedList<Json>)
    ensures
        members(r) == Map::<Seq<char>, JsonView>::empty(),
{
    KeyedList::new()
}

/// Makes `value` the member named `key`.
pub fn put(object: &mut KeyedList<Json>, key: String, value: Json)
    ensures
        members(*final(object)) == members(*old(object)).insert(key@, value.model()),
{
    let ghost before = *object;
    object.insert(key, value);
    proof {
        lemma_members(before.entries());
        lemma_members(object.entries());
        assert(members(*object) =~= members(before).insert(key@, value.model()));
    }
}

/// The object with `value` as the member named `key`.
pub fn with(object: KeyedList<Json>, key: &str, value: Json) -> (r: KeyedList<Json>)
    ensures
        members(r) == members(object).insert(key@, value.model()),
{
    let mut list = object;
    put(&mut list, key.to_owned(), value);
    list
}

/// The member named `key`.
pub fn member<'a>(object: &'a KeyedList<Json>, key: &str) -> (r: Option<&'a Json>)
    ensures
        r is Some == members(*object).contains_key(key@),
        r matches Some(v) ==> v.model() == members(*object)[key@],
{
    proof {
        lemma_members(object.entries());
    }
    object.get(key)
}

/// The text of the member named `key`.
pub fn text_member<'a>(object: &'a KeyedList<Json>, key: &str) -> (r: Option<&'a str>)
    ensures
        r.deep_view() == text_member_of(members(*object), key@),
{
    match member(object, key) {
        Some(v) => v.as_str(),
        None => None,
    }
}

/// A JSON text.
pub fn text(s: &str) -> (r: Json)
    ensures
        r.model() == JsonView::Text(s@),
{
    Json::Text(s.to_owned())
}

/// A JSON text, or `null` where there is none.
pub fn opt_text(s: Option<&str>) -> (r: Json)
    ensures
        r.model() == text_or_null(s.deep_view()),
{
    match s {
        Some(t) => text(t),
        None => Json::Null,
    }
}

/// A JSON list of texts.
pub fn texts(items: &Vec<String>) -> (r: Json)
    ensures
        r.model() == text_list(items.deep_view()),
{
    let mut list: Vec<Json> = Vec::new();
    let mut i: usize = 0;
    while i < items.len()
        invariant
            i <= items.len(),
            list@.len() == i,
            forall|j: int| 0 <= j < i ==> (#[trigger] list@[j]).model() == JsonView::Text(items@[j]@),
        decreases items.len() - i,
    {
        list.push(text(items[i].as_str()));
        i = i + 1;
    }
    let r = Json::List(list);
    assert(r.model()->List_0 =~= text_list(items.deep_view())->List_0);
    r
}

impl Json {
    /// The text of a value that is a text.
    pub fn as_str(&self) -> (r: Option<&str>)
        ensures
            r.deep_view() == self.model().text(),
    {
        match self {
            Json::Text(s) => Some(s.as_str()),
            _ => None,
        }
    }

    /// The items of a value that is a list.
    pub fn as_list(&self) -> (r: Option<&Vec<Json>>)
        ensures
            r is Some == self.model().list() is Some,
            r matches Some(v) ==> list_model(v@) == self.model().list()->0,
    {
        match self {
            Json::List(v) => Some(v),
            _ => None,
        }
    }

    /// The members of a value that is an object.
    pub fn as_object(&self) -> (r: Option<&KeyedList<Json>>)
        ensures
            r is Some == self.model().object() is Some,
            r matches Some(o) ==> members(*o) == self.model().object()->0,
    {
        match self {
            Json::Object(o) => Some(o),
            _ => None,
        }
    }

    /// The member of an object with the given name.
    pub fn get(&self, key: &str) -> (r: Option<&Json>)
        ensures
            r is Some == self.model().member(key@) is Some,
            r matches Some(v) ==> v.model() == self.model().member(key@)->0,
    {
        match self {
            Json::Object(o) => member(o, key),
            _ => None,
        }
    }

    /// The text of the member of an object with the given name.
    pub fn get_text(&self, key: &str) -> (r: Option<&str>)
        ensures
            r.deep_view() == self.model().text_member(key@),
    {
        match self {
            Json::Object(o) => text_member(o, key),
            _ => None,
        }
    }
}

/// A copy of a list of JSON values.
pub fn copy_list(items: &Vec<Json>) -> (r: Vec<Json>)
    ensures
        list_model(r@) == list_model(items@),
    decreases items,
{
    let mut list: Vec<Json> = Vec::new();
    let mut i: usize = 0;
    while i < items.len()
        invariant
            i <= items.len(),
            list@.len() == i,
            forall|j: int| 0 <= j < i ==> (#[trigger] list@[j]).model() == items@[j].model(),
        decreases items.len() - i,
    {
        proof {
            assert(decreases_to!(*items => items@[i as int]));
        }
        let item = items[i].clone();
        list.push(item);
        i = i + 1;
    }
    assert(list_model(list@) =~= list_model(items@));
    list
}

/// A copy of a table of JSON values.
pub fn copy_members(object: &KeyedList<Json>) -> (r: KeyedList<Json>)
    ensures
        members(r) == members(*object),
    decreases object,
{
    let n: usize = object.len();
    let mut r: KeyedList<Json> = KeyedList::new();
    let mut i: usize = 0;
    assert(object.entries().take(0) =~= Seq::<(String, Json)>::empty());
    while i < n
        invariant
            i <= n,
            n == object.entries().len(),
            members(r) == members_model(object.entries().take(i as int)),
        decreases n - i,
    {
        let e = object.entry(i);
        proof {
            object.lemma_entries_decrease();
            lemma_members_take(object.entries(), i as int);
        }
        let value = e.1.clone();
        put(&mut r, e.0.clone(), value);
        i = i + 1;
    }
    assert(object.entries().take(n as int) =~= object.entries());
    r
}

impl Clone for Json {
    fn clone(&self) -> (r: Self)
        ensures
            r.model() == self.model(),
        decreases self,
    {
        match self {
            Json::Null => Json::Null,
            Json::Bool(b) => Json::Bool(*b),
            Json::Number(n) => Json::Number(*n),
            Json::Text(s) => Json::Text(s.clone()),
            Json::List(v) => Json::List(copy_list(v)),
            Json::Object(o) => Json::Object(copy_members(o)),
        }
    }
}

} // verus!
