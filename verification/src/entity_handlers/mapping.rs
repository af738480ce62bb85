//! Between PDT assets and entity JSON.
use crate::entity_config::{self, EntityConfig, FieldConfig, NamedField};
use crate::json::{self, empty_object, put, text, Json, JsonView, Members};
use crate::keyed::{self, KeyedList};
use crate::pdt::types::{PdtAsset, PdtRelation, PdtSearchResult};
use crate::tags::{self, TagPair};
use crate::text::{self, same, strip_prefix};
use vstd::prelude::*;
use vstd::string::*;

verus! {

/// Where a field's value is kept.
pub enum Place<'a> {
    /// The title, behind the kind's prefix.
    TitleSuffix,
    /// The content.
    Content,
    /// The tag of a category.
    Tag(&'a str),
    /// The metadata under a key.
    Metadata(&'a str),
    /// The time of creation.
    CreatedAt,
    /// The time of the last change.
    UpdatedAt,
    /// The tag that is named like the field.
    Unmapped,
}

/// Where a field's value is kept, as a value.
pub enum PlaceView {
    TitleSuffix,
    Content,
    Tag(Seq<char>),
    Metadata(Seq<char>),
    CreatedAt,
    UpdatedAt,
    Unmapped,
}

impl<'a> View for Place<'a> {
    type V = PlaceView;

    open spec fn view(&self) -> PlaceView {
        match *self {
            Place::TitleSuffix => PlaceView::TitleSuffix,
            Place::Content => PlaceView::Content,
            Place::Tag(c) => PlaceView::Tag(c@),
            Place::Metadata(k) => PlaceView::Metadata(k@),
            Place::CreatedAt => PlaceView::CreatedAt,
            Place::UpdatedAt => PlaceView::UpdatedAt,
            Place::Unmapped => PlaceView::Unmapped,
        }
    }
}

/// What a mapping hint says.
pub open spec fn place(hint: Option<Seq<char>>) -> PlaceView {
    match hint {
        None => PlaceView::Unmapped,
        Some(m) => if m == "title_suffix"@ {
            PlaceView::TitleSuffix
        } else if m == "content"@ {
            PlaceView::Content
        } else if text::has_prefix(m, "tag:"@) {
            PlaceView::Tag(text::without_prefix(m, "tag:"@)->0)
        } else if text::has_prefix(m, "metadata:"@) {
            PlaceView::Metadata(text::without_prefix(m, "metadata:"@)->0)
        } else if m == "created_at"@ {
            PlaceView::CreatedAt
        } else if m == "updated_at"@ {
            PlaceView::UpdatedAt
        } else {
            PlaceView::Unmapped
        },
    }
}

/// Reads a mapping hint.
pub fn place_of(hint: &Option<String>) -> (r: Place<'_>)
    ensures
        r@ == place(hint.deep_view()),
{
    match hint {
        None => Place::Unmapped,
        Some(m) => {
            let m = m.as_str();
            if same(m, "title_suffix") {
                return Place::TitleSuffix;
            }
            if same(m, "content") {
                return Place::Content;
            }
            if let Some(c) = strip_prefix(m, "tag:") {
                return Place::Tag(c);
            }
            if let Some(k) = strip_prefix(m, "metadata:") {
                return Place::Metadata(k);
            }
            if same(m, "created_at") {
                Place::CreatedAt
            } else if same(m, "updated_at") {
                Place::UpdatedAt
            } else {
                Place::Unmapped
            }
        },
    }
}

/// What is stored of an entity.
#[verifier::ext_equal]
pub struct Stored {
    pub id: Seq<char>,
    pub title: Seq<char>,
    pub content: Seq<char>,
    pub tags: Seq<TagPair>,
    pub metadata: Members,
    pub created_at: Seq<char>,
    pub updated_at: Seq<char>,
}

/// What an asset holds.
pub open spec fn stored(asset: PdtAsset) -> Stored {
    Stored {
        id: asset.id@,
        title: asset.title@,
        content: asset.content@,
        tags: tags::pairs(asset.tags@),
        metadata: json::members(asset.metadata),
        created_at: asset.created_at@,
        updated_at: asset.updated_at@,
    }
}

/// What a search result holds: neither content nor metadata, and one time only.
pub open spec fn stored_compact(result: PdtSearchResult) -> Stored {
    Stored {
        id: result.id@,
        title: result.title@,
        content: Seq::empty(),
        tags: tags::pairs(result.tags@),
        metadata: Map::empty(),
        created_at: result.updated_at@,
        updated_at: result.updated_at@,
    }
}

/// What follows the prefix in a title, or the whole title where it is missing.
pub open spec fn title_suffix(title: Seq<char>, prefix: Seq<char>) -> Seq<char> {
    match text::without_prefix(title, prefix) {
        Some(t) => t,
        None => title,
    }
}

/// A text as JSON, unless it is empty.
pub open spec fn unless_empty(t: Seq<char>) -> Option<JsonView> {
    if t.len() == 0 {
        None
    } else {
        Some(JsonView::Text(t))
    }
}

/// An optional text as JSON.
pub open spec fn as_json(t: Option<Seq<char>>) -> Option<JsonView> {
    match t {
        Some(s) => Some(JsonView::Text(s)),
        None => None,
    }
}

/// The value of a field, where there is one.
pub open spec fn field_value(
    s: Stored,
    name: Seq<char>,
    p: PlaceView,
    prefix: Seq<char>,
) -> Option<JsonView> {
    match p {
        PlaceView::TitleSuffix => unless_empty(title_suffix(s.title, prefix)),
        PlaceView::Content => unless_empty(s.content),
        PlaceView::Tag(category) => as_json(tags::first_value(s.tags, category)),
        PlaceView::Metadata(key) => json::member_of(s.metadata, key),
        PlaceView::CreatedAt => Some(JsonView::Text(s.created_at)),
        PlaceView::UpdatedAt => Some(JsonView::Text(s.updated_at)),
        PlaceView::Unmapped => as_json(tags::first_value(s.tags, name)),
    }
}

/// The value of a field among the given ones.
pub open spec fn shown(
    s: Stored,
    fields: Map<Seq<char>, FieldConfig>,
    prefix: Seq<char>,
    name: Seq<char>,
) -> Option<JsonView> {
    if fields.contains_key(name) {
        field_value(s, name, place(fields[name].map.deep_view()), prefix)
    } else {
        None
    }
}

/// The entity: each field that has a value, and the id under `id` unless a field
/// of that name has a value.
pub open spec fn entity(
    s: Stored,
    fields: Map<Seq<char>, FieldConfig>,
    prefix: Seq<char>,
) -> Members {
    Map::new(
        |k: Seq<char>| k == "id"@ || shown(s, fields, prefix, k) is Some,
        |k: Seq<char>|
            match shown(s, fields, prefix, k) {
                Some(v) => v,
                None => JsonView::Text(s.id),
            },
    )
}

/// The entity of an asset.
pub open spec fn entity_of(asset: PdtAsset, config: EntityConfig) -> Members {
    entity(stored(asset), config.fields@, config.title_prefix@)
}

/// The entity of a search result.
pub open spec fn compact_entity_of(result: PdtSearchResult, config: EntityConfig) -> Members {
    entity(stored_compact(result), config.fields@, config.title_prefix@)
}

/// An optional JSON value as a value.
pub open spec fn opt_model(v: Option<Json>) -> Option<JsonView> {
    match v {
        Some(j) => Some(j.model()),
        None => None,
    }
}

fn text_unless_empty(t: &str) -> (r: Option<Json>)
    ensures
        opt_model(r) == unless_empty(t@),
{
    if t.unicode_len() == 0 {
        None
    } else {
        Some(text(t))
    }
}

fn text_value(t: Option<&str>) -> (r: Option<Json>)
    ensures
        opt_model(r) == as_json(t.deep_view()),
{
    match t {
        Some(s) => Some(text(s)),
        None => None,
    }
}

fn suffix_of<'a>(title: &'a str, prefix: &str) -> (r: &'a str)
    ensures
        r@ == title_suffix(title@, prefix@),
{
    match strip_prefix(title, prefix) {
        Some(t) => t,
        None => title,
    }
}

/// The value of a field of an asset.
pub fn extract_field_value(
    asset: &PdtAsset,
    field_name: &str,
    field_map: &Option<String>,
    config: &EntityConfig,
) -> (r: Option<Json>)
    ensures
        opt_model(r) == field_value(
            stored(*asset),
            field_name@,
            place(field_map.deep_view()),
            config.title_prefix@,
        ),
{
    match place_of(field_map) {
        Place::TitleSuffix => text_unless_empty(
            suffix_of(asset.title.as_str(), config.title_prefix.as_str()),
        ),
        Place::Content => text_unless_empty(asset.content.as_str()),
        Place::Tag(category) => text_value(asset.get_tag(category)),
        Place::Metadata(key) => match json::member(&asset.metadata, key) {
            Some(v) => Some(v.clone()),
            None => None,
        },
        Place::CreatedAt => Some(text(asset.created_at.as_str())),
        Place::UpdatedAt => Some(text(asset.updated_at.as_str())),
        Place::Unmapped => text_value(asset.get_tag(field_name)),
    }
}

/// The value of a field of a search result, which has no content and no metadata.
pub fn extract_field_value_compact(
    result: &PdtSearchResult,
    field_name: &str,
    field_map: &Option<String>,
    config: &EntityConfig,
) -> (r: Option<Json>)
    ensures
        opt_model(r) == field_value(
            stored_compact(*result),
            field_name@,
            place(field_map.deep_view()),
            config.title_prefix@,
        ),
{
    match place_of(field_map) {
        Place::TitleSuffix => text_unless_empty(
            suffix_of(result.title.as_str(), config.title_prefix.as_str()),
        ),
        Place::Content => None,
        Place::Tag(category) => text_value(result.get_tag(category)),
        Place::Metadata(_) => None,
        Place::CreatedAt | Place::UpdatedAt => Some(text(result.updated_at.as_str())),
        Place::Unmapped => text_value(result.get_tag(field_name)),
    }
}

/// One more field adds its value, where it has one.
pub proof fn lemma_entity_step(
    s: Stored,
    fields: Map<Seq<char>, FieldConfig>,
    prefix: Seq<char>,
    name: Seq<char>,
    field: FieldConfig,
)
    requires
        !fields.contains_key(name),
    ensures
        entity(s, fields.insert(name, field), prefix) == (match field_value(
            s,
            name,
            place(field.map.deep_view()),
            prefix,
        ) {
            Some(v) => entity(s, fields, prefix).insert(name, v),
            None => entity(s, fields, prefix),
        }),
{
    let after = entity(s, fields.insert(name, field), prefix);
    match field_value(s, name, place(field.map.deep_view()), prefix) {
        Some(v) => {
            assert(after =~= entity(s, fields, prefix).insert(name, v));
        },
        None => {
            assert(after =~= entity(s, fields, prefix));
        },
    }
}

/// The entity of an asset, as a table.
pub fn entity_table(asset: &PdtAsset, config: &EntityConfig) -> (r: KeyedList<Json>)
    ensures
        json::members(r) == entity_of(*asset, *config),
{
    let n: usize = config.fields.len();
    let ghost entries = config.fields.entries();
    let ghost s = stored(*asset);
    let ghost prefix = config.title_prefix@;
    let mut table = empty_object();
    put(&mut table, "id".to_owned(), text(asset.id.as_str()));
    assert(json::members(table) =~= entity(s, keyed::map_of(entries.take(0)), prefix));
    let mut i: usize = 0;
    while i < n
        invariant
            i <= n,
            n == entries.len(),
            entries == config.fields.entries(),
            keyed::distinct_keys(entries),
            s == stored(*asset),
            prefix == config.title_prefix@,
            json::members(table) == entity(s, keyed::map_of(entries.take(i as int)), prefix),
        decreases n - i,
    {
        let e = config.fields.entry(i);
        proof {
            keyed::lemma_fresh_key(entries, i as int);
            lemma_entity_step(s, keyed::map_of(entries.take(i as int)), prefix, e.0@, e.1);
        }
        if let Some(v) = extract_field_value(asset, e.0.as_str(), &e.1.map, config) {
            put(&mut table, e.0.clone(), v);
        }
        i = i + 1;
    }
    assert(entries.take(n as int) =~= entries);
    table
}

/// The entity of a search result, as a table.
pub fn compact_entity_table(result: &PdtSearchResult, config: &EntityConfig) -> (r: KeyedList<Json>)
    ensures
        json::members(r) == compact_entity_of(*result, *config),
{
    let n: usize = config.fields.len();
    let ghost entries = config.fields.entries();
    let ghost s = stored_compact(*result);
    let ghost prefix = config.title_prefix@;
    let mut table = empty_object();
    put(&mut table, "id".to_owned(), text(result.id.as_str()));
    assert(json::members(table) =~= entity(s, keyed::map_of(entries.take(0)), prefix));
    let mut i: usize = 0;
    while i < n
        invariant
            i <= n,
            n == entries.len(),
            entries == config.fields.entries(),
            keyed::distinct_keys(entries),
            s == stored_compact(*result),
            prefix == config.title_prefix@,
            json::members(table) == entity(s, keyed::map_of(entries.take(i as int)), prefix),
        decreases n - i,
    {
        let e = config.fields.entry(i);
        proof {
            keyed::lemma_fresh_key(entries, i as int);
            lemma_entity_step(s, keyed::map_of(entries.take(i as int)), prefix, e.0@, e.1);
        }
        if let Some(v) = extract_field_value_compact(result, e.0.as_str(), &e.1.map, config) {
            put(&mut table, e.0.clone(), v);
        }
        i = i + 1;
    }
    assert(entries.take(n as int) =~= entries);
    table
}

/// The entity of an asset.
pub fn map_asset_to_entity(asset: &PdtAsset, config: &EntityConfig) -> (r: Json)
    ensures
        r.model() == JsonView::Object(entity_of(*asset, *config)),
{
    Json::Object(entity_table(asset, config))
}

/// The entity of a search result.
pub fn map_compact_to_entity(result: &PdtSearchResult, config: &EntityConfig) -> (r: Json)
    ensures
        r.model() == JsonView::Object(compact_entity_of(*result, *config)),
{
    Json::Object(compact_entity_table(result, config))
}

/// The PDT relation type of a relation field.
pub open spec fn relation_type(field: FieldConfig) -> Seq<char> {
    match field.relation_type {
        Some(t) => t@,
        None => "related_to"@,
    }
}

/// The PDT relation type of a relation field; `related_to` where it names none.
pub fn relation_type_of(field: &FieldConfig) -> (r: &str)
    ensures
        r@ == relation_type(*field),
{
    match &field.relation_type {
        Some(t) => t.as_str(),
        None => "related_to",
    }
}

/// Where the first relation of a type leads that goes out from an asset.
pub open spec fn related(
    relations: Seq<PdtRelation>,
    asset_id: Seq<char>,
    relation_type: Seq<char>,
) -> Option<Seq<char>>
    decreases relations.len(),
{
    if relations.len() == 0 {
        None
    } else if relations[0].from_asset_id@ == asset_id && relations[0].relation_type@
        == relation_type {
        Some(relations[0].to_asset_id@)
    } else {
        related(relations.drop_first(), asset_id, relation_type)
    }
}

/// Where the first relation of a type leads that goes out from an asset.
pub fn find_related<'a>(
    relations: &'a Vec<PdtRelation>,
    asset_id: &str,
    relation_type: &str,
) -> (r: Option<&'a str>)
    ensures
        r.deep_view() == related(relations@, asset_id@, relation_type@),
{
    let mut i: usize = 0;
    assert(relations@.skip(0) =~= relations@);
    while i < relations.len()
        invariant
            i <= relations.len(),
            related(relations@, asset_id@, relation_type@) == related(
                relations@.skip(i as int),
                asset_id@,
                relation_type@,
            ),
        decreases relations.len() - i,
    {
        assert(relations@.skip(i as int).drop_first() =~= relations@.skip(i + 1));
        assert(relations@.skip(i as int)[0] == relations@[i as int]);
        let rel = &relations[i];
        if same(rel.from_asset_id.as_str(), asset_id) && same(
            rel.relation_type.as_str(),
            relation_type,
        ) {
            return Some(rel.to_asset_id.as_str());
        }
        i = i + 1;
    }
    None
}

/// The relations that came back for a field: none where nothing came back.
pub open spec fn reply(replies: Seq<Option<Vec<PdtRelation>>>, i: int) -> Option<Seq<PdtRelation>> {
    if 0 <= i < replies.len() {
        match replies[i] {
            Some(relations) => Some(relations@),
            None => None,
        }
    } else {
        None
    }
}

/// The relations at a position, where they came back.
pub fn reply_at(replies: &Vec<Option<Vec<PdtRelation>>>, i: usize) -> (r: Option<&Vec<PdtRelation>>)
    ensures
        r is Some == reply(replies@, i as int) is Some,
        r matches Some(v) ==> v@ == reply(replies@, i as int)->0,
{
    if i < replies.len() {
        replies[i].as_ref()
    } else {
        None
    }
}

/// The entity with its relation fields, in order, each where a relation of its
/// type goes out from the asset.
pub open spec fn with_relations(
    m: Members,
    fields: Seq<NamedField>,
    replies: Seq<Option<Vec<PdtRelation>>>,
    asset_id: Seq<char>,
) -> Members
    decreases fields.len(),
{
    if fields.len() == 0 {
        m
    } else {
        let init = with_relations(m, fields.drop_last(), replies, asset_id);
        match reply(replies, fields.len() - 1) {
            Some(relations) => match related(relations, asset_id, relation_type(fields.last().1)) {
                Some(id) => init.insert(fields.last().0@, JsonView::Text(id)),
                None => init,
            },
            None => init,
        }
    }
}

/// Adds the relation fields to an entity.
///
/// `replies` holds, for each relation field in order, the relations of the asset
/// as they were read for it, or nothing where they could not be read.
pub fn resolve_relations(
    asset_id: &str,
    config: &EntityConfig,
    entity: &mut KeyedList<Json>,
    replies: &Vec<Option<Vec<PdtRelation>>>,
)
    ensures
        json::members(*final(entity)) == with_relations(
            json::members(*old(entity)),
            config.relations(),
            replies@,
            asset_id@,
        ),
{
    let fields = config.relation_fields();
    let ghost all = config.relations();
    let ghost start = json::members(*entity);
    let mut i: usize = 0;
    while i < fields.len()
        invariant
            i <= fields.len(),
            all == entity_config::named_fields(fields@),
            json::members(*entity) == with_relations(
                start,
                all.take(i as int),
                replies@,
                asset_id@,
            ),
        decreases fields.len() - i,
    {
        let (field_name, field_config) = fields[i];
        proof {
            assert(all.take(i + 1).drop_last() =~= all.take(i as int));
            assert(all[i as int] == (*field_name, *field_config));
        }
        if let Some(relations) = reply_at(replies, i) {
            if let Some(id) = find_related(relations, asset_id, relation_type_of(field_config)) {
                put(entity, field_name.clone(), text(id));
            }
        }
        i = i + 1;
    }
    assert(all.take(all.len() as int) =~= all);
}

/// The entity of an asset with its relation fields.
pub open spec fn related_entity(
    asset: PdtAsset,
    config: EntityConfig,
    replies: Seq<Option<Vec<PdtRelation>>>,
) -> Members {
    with_relations(entity_of(asset, config), config.relations(), replies, asset.id@)
}

/// The entity of an asset with its relation fields, as a table.
pub fn related_entity_table(
    asset: &PdtAsset,
    config: &EntityConfig,
    replies: &Vec<Option<Vec<PdtRelation>>>,
) -> (r: KeyedList<Json>)
    ensures
        json::members(r) == related_entity(*asset, *config, replies@),
{
    let mut table = entity_table(asset, config);
    resolve_relations(asset.id.as_str(), config, &mut table, replies);
    table
}

/// The entity of an asset with its relation fields.
pub fn map_asset_to_entity_with_relations(
    asset: &PdtAsset,
    config: &EntityConfig,
    replies: &Vec<Option<Vec<PdtRelation>>>,
) -> (r: Json)
    ensures
        r.model() == JsonView::Object(related_entity(*asset, *config, replies@)),
{
    Json::Object(related_entity_table(asset, config, replies))
}

} // verus!
