//! What every field of an entity shows, in terms of what PDT stores.
use crate::entity_config::{EntityConfig, FieldConfig, FieldType, NamedField};
use crate::entity_handlers::filter_laws;
use crate::entity_handlers::mapping::{self, PlaceView};
use crate::json::{self, Json, JsonView, Members};
use crate::keyed::{self, KeyedList};
use crate::pdt::types::{PdtAsset, PdtRelation, PdtSearchResult, PdtTag, PdtTagSummary};
use crate::tags;
use crate::tags_laws;
use crate::text_laws;
use vstd::prelude::*;

verus! {

/// The first tag of a category on an asset has the value.
pub open spec fn stored_first(tags: Seq<PdtTag>, c: Seq<char>, v: Seq<char>) -> bool {
    exists|i: int| #![trigger tags[i]]
        0 <= i < tags.len() && tags[i].category@ == c && tags[i].value@ == v && forall|j: int|
            0 <= j < i ==> (#[trigger] tags[j]).category@ != c
}

/// No tag on an asset is of the category.
pub open spec fn stored_without(tags: Seq<PdtTag>, c: Seq<char>) -> bool {
    forall|i: int| 0 <= i < tags.len() ==> (#[trigger] tags[i]).category@ != c
}

/// No tag of a search result is of the category.
pub open spec fn found_without(tags: Seq<PdtTagSummary>, c: Seq<char>) -> bool {
    forall|i: int| 0 <= i < tags.len() ==> (#[trigger] tags[i]).category@ != c
}

proof fn lemma_stored_first(tags: Seq<PdtTag>, c: Seq<char>, v: Seq<char>)
    ensures
        tags::first_value(tags::pairs(tags), c) == Some(v) <==> stored_first(tags, c, v),
        tags::first_value(tags::pairs(tags), c) is None <==> stored_without(tags, c),
{
    let p = tags::pairs(tags);
    assert forall|i: int| 0 <= i < tags.len() implies #[trigger] p[i] == (
        tags[i].category@,
        tags[i].value@,
    ) by {}
    tags_laws::law_first_tag_counts(p, c, v);
    if tags::first_value(p, c) == Some(v) {
        let i = choose|i: int| #[trigger] tags_laws::is_first(p, i, c, v);
        assert forall|j: int| 0 <= j < i implies (#[trigger] tags[j]).category@ != c by {
            assert(p[j].0 == tags[j].category@);
        }
        assert(tags[i].category@ == c);
    }
    if stored_first(tags, c, v) {
        let i = choose|i: int| #![trigger tags[i]]
            0 <= i < tags.len() && tags[i].category@ == c && tags[i].value@ == v && forall|j: int|
                0 <= j < i ==> (#[trigger] tags[j]).category@ != c;
        assert(tags_laws::is_first(p, i, c, v));
    }
    if tags::first_value(p, c) is None {
        assert forall|i: int| 0 <= i < tags.len() implies (#[trigger] tags[i]).category@ != c by {
            assert(p[i].0 == tags[i].category@);
        }
    }
}

proof fn lemma_found_first(tags: Seq<PdtTagSummary>, c: Seq<char>, v: Seq<char>)
    ensures
        tags::first_value(tags::pairs(tags), c) == Some(v) <==> filter_laws::found_first(
            tags,
            c,
            v,
        ),
        tags::first_value(tags::pairs(tags), c) is None <==> found_without(tags, c),
{
    let p = tags::pairs(tags);
    assert forall|i: int| 0 <= i < tags.len() implies #[trigger] p[i] == (
        tags[i].category@,
        tags[i].value@,
    ) by {}
    tags_laws::law_first_tag_counts(p, c, v);
    if tags::first_value(p, c) == Some(v) {
        let i = choose|i: int| #[trigger] tags_laws::is_first(p, i, c, v);
        assert forall|j: int| 0 <= j < i implies (#[trigger] tags[j]).category@ != c by {
            assert(p[j].0 == tags[j].category@);
        }
        assert(tags[i].category@ == c);
    }
    if filter_laws::found_first(tags, c, v) {
        let i = choose|i: int| #![trigger tags[i]]
            0 <= i < tags.len() && tags[i].category@ == c && tags[i].value@ == v && forall|j: int|
                0 <= j < i ==> (#[trigger] tags[j]).category@ != c;
        assert(tags_laws::is_first(p, i, c, v));
    }
    if tags::first_value(p, c) is None {
        assert forall|i: int| 0 <= i < tags.len() implies (#[trigger] tags[i]).category@ != c by {
            assert(p[i].0 == tags[i].category@);
        }
    }
}

/// A hint that says nothing of where a field is kept.
pub open spec fn says_nothing(hint: Option<Seq<char>>) -> bool {
    hint matches Some(h) ==> {
        &&& h != "title_suffix"@
        &&& h != "content"@
        &&& h != "created_at"@
        &&& h != "updated_at"@
        &&& forall|c: Seq<char>| #[trigger] ("tag:"@ + c) != h
        &&& forall|k: Seq<char>| #[trigger] ("metadata:"@ + k) != h
    }
}

/// A mapping hint says where a field is kept: in the title, in the content, in the
/// tag or under the metadata key that follows `tag:` or `metadata:`, or in one of
/// the times.  Any other hint says nothing.
pub proof fn law_hint_says_where(rest: Seq<char>, hint: Option<Seq<char>>)
    ensures
        mapping::place(Some("title_suffix"@)) == PlaceView::TitleSuffix,
        mapping::place(Some("content"@)) == PlaceView::Content,
        mapping::place(Some("tag:"@ + rest)) == PlaceView::Tag(rest),
        mapping::place(Some("metadata:"@ + rest)) == PlaceView::Metadata(rest),
        mapping::place(Some("created_at"@)) == PlaceView::CreatedAt,
        mapping::place(Some("updated_at"@)) == PlaceView::UpdatedAt,
        says_nothing(hint) <==> mapping::place(hint) == PlaceView::Unmapped,
{
    reveal_strlit("title_suffix");
    reveal_strlit("content");
    reveal_strlit("tag:");
    reveal_strlit("metadata:");
    reveal_strlit("created_at");
    reveal_strlit("updated_at");
    let t = "tag:"@ + rest;
    let m = "metadata:"@ + rest;
    assert(t[0] == 't' && t[1] == 'a' && m[0] == 'm');
    assert("title_suffix"@[0] == 't' && "title_suffix"@[1] == 'i');
    assert("content"@[0] == 'c' && "content"@.len() == 7 && "created_at"@[0] == 'c'
        && "created_at"@.len() == 10 && "updated_at"@[0] == 'u');
    text_laws::law_prefix_and_rest("tag:"@, rest, t);
    text_laws::law_prefix_and_rest("metadata:"@, rest, m);
    text_laws::law_prefix_and_rest("tag:"@, rest, m);
    text_laws::law_prefix_and_rest("tag:"@, rest, "title_suffix"@);
    assert("tag:"@[0] == 't' && "metadata:"@[0] == 'm');
    assert(!crate::text::has_prefix(m, "tag:"@)) by {
        if crate::text::has_prefix(m, "tag:"@) {
            assert(m.subrange(0, 4)[0] == m[0]);
        }
    }
    assert(!crate::text::has_prefix("created_at"@, "tag:"@)) by {
        if crate::text::has_prefix("created_at"@, "tag:"@) {
            assert("created_at"@.subrange(0, 4)[0] == 'c');
        }
    }
    assert(!crate::text::has_prefix("created_at"@, "metadata:"@)) by {
        if crate::text::has_prefix("created_at"@, "metadata:"@) {
            assert("created_at"@.subrange(0, 9)[0] == 'c');
        }
    }
    assert(!crate::text::has_prefix("updated_at"@, "tag:"@)) by {
        if crate::text::has_prefix("updated_at"@, "tag:"@) {
            assert("updated_at"@.subrange(0, 4)[0] == 'u');
        }
    }
    assert(!crate::text::has_prefix("updated_at"@, "metadata:"@)) by {
        if crate::text::has_prefix("updated_at"@, "metadata:"@) {
            assert("updated_at"@.subrange(0, 9)[0] == 'u');
        }
    }
    if let Some(h) = hint {
        text_laws::law_prefix_and_rest("tag:"@, rest, h);
        text_laws::law_prefix_and_rest("metadata:"@, rest, h);
        if crate::text::has_prefix(h, "tag:"@) {
            assert("tag:"@ + crate::text::without_prefix(h, "tag:"@)->0 == h);
        }
        if crate::text::has_prefix(h, "metadata:"@) {
            assert("metadata:"@ + crate::text::without_prefix(h, "metadata:"@)->0 == h);
        }
    }
}

/// An entity shows a field with a value, or does not show it.
pub open spec fn shows(e: Members, name: Seq<char>, value: Option<JsonView>) -> bool {
    match value {
        Some(v) => e.contains_key(name) && e[name] == v,
        None => !e.contains_key(name),
    }
}

/// A text, unless it is empty.
pub open spec fn unless_empty(t: Seq<char>) -> Option<JsonView> {
    if t.len() > 0 {
        Some(JsonView::Text(t))
    } else {
        None
    }
}

/// What an entity shows of a field is what the asset holds where the field's hint
/// says.
pub proof fn law_entity_shows_what_is_stored(
    asset: PdtAsset,
    config: EntityConfig,
    name: Seq<char>,
    rest: Seq<char>,
    v: Seq<char>,
)
    requires
        config.fields@.contains_key(name),
        name != "id"@,
    ensures
        ({
            let e = mapping::entity_of(asset, config);
            let hint = config.fields@[name].map.deep_view();
            let metadata = json::members(asset.metadata);
            &&& hint == Some("content"@) ==> shows(e, name, unless_empty(asset.content@))
            &&& hint == Some("title_suffix"@) && asset.title@ == config.title_prefix@ + rest
                ==> shows(e, name, unless_empty(rest))
            &&& hint == Some("title_suffix"@) && (forall|t: Seq<char>|
                #[trigger] (config.title_prefix@ + t) != asset.title@) ==> shows(
                e,
                name,
                unless_empty(asset.title@),
            )
            &&& hint == Some("tag:"@ + rest) && stored_first(asset.tags@, rest, v) ==> shows(
                e,
                name,
                Some(JsonView::Text(v)),
            )
            &&& hint == Some("tag:"@ + rest) && stored_without(asset.tags@, rest) ==> shows(
                e,
                name,
                None,
            )
            &&& hint == Some("metadata:"@ + rest) && metadata.contains_key(rest) ==> shows(
                e,
                name,
                Some(metadata[rest]),
            )
            &&& hint == Some("metadata:"@ + rest) && !metadata.contains_key(rest) ==> shows(
                e,
                name,
                None,
            )
            &&& hint == Some("created_at"@) ==> shows(
                e,
                name,
                Some(JsonView::Text(asset.created_at@)),
            )
            &&& hint == Some("updated_at"@) ==> shows(
                e,
                name,
                Some(JsonView::Text(asset.updated_at@)),
            )
            &&& says_nothing(hint) && stored_first(asset.tags@, name, v) ==> shows(
                e,
                name,
                Some(JsonView::Text(v)),
            )
            &&& says_nothing(hint) && stored_without(asset.tags@, name) ==> shows(e, name, None)
        }),
{
    let hint = config.fields@[name].map.deep_view();
    law_hint_says_where(rest, hint);
    lemma_stored_first(asset.tags@, rest, v);
    lemma_stored_first(asset.tags@, name, v);
    text_laws::law_prefix_and_rest(config.title_prefix@, rest, asset.title@);
}

/// What an entity of a search result shows of a field is what the search result
/// holds where the field's hint says; it holds no content and no metadata, and one
/// time.
pub proof fn law_listed_entity_shows_what_was_found(
    result: PdtSearchResult,
    config: EntityConfig,
    name: Seq<char>,
    rest: Seq<char>,
    v: Seq<char>,
)
    requires
        config.fields@.contains_key(name),
        name != "id"@,
    ensures
        ({
            let e = mapping::compact_entity_of(result, config);
            let hint = config.fields@[name].map.deep_view();
            &&& hint == Some("content"@) ==> shows(e, name, None)
            &&& hint == Some("title_suffix"@) && result.title@ == config.title_prefix@ + rest
                ==> shows(e, name, unless_empty(rest))
            &&& hint == Some("title_suffix"@) && (forall|t: Seq<char>|
                #[trigger] (config.title_prefix@ + t) != result.title@) ==> shows(
                e,
                name,
                unless_empty(result.title@),
            )
            &&& hint == Some("tag:"@ + rest) && filter_laws::found_first(result.tags@, rest, v)
                ==> shows(e, name, Some(JsonView::Text(v)))
            &&& hint == Some("tag:"@ + rest) && found_without(result.tags@, rest) ==> shows(
                e,
                name,
                None,
            )
            &&& hint == Some("metadata:"@ + rest) ==> shows(e, name, None)
            &&& hint == Some("created_at"@) ==> shows(
                e,
                name,
                Some(JsonView::Text(result.updated_at@)),
            )
            &&& hint == Some("updated_at"@) ==> shows(
                e,
                name,
                Some(JsonView::Text(result.updated_at@)),
            )
            &&& says_nothing(hint) && filter_laws::found_first(result.tags@, name, v) ==> shows(
                e,
                name,
                Some(JsonView::Text(v)),
            )
            &&& says_nothing(hint) && found_without(result.tags@, name) ==> shows(e, name, None)
        }),
{
    let hint = config.fields@[name].map.deep_view();
    law_hint_says_where(rest, hint);
    lemma_found_first(result.tags@, rest, v);
    lemma_found_first(result.tags@, name, v);
    text_laws::law_prefix_and_rest(config.title_prefix@, rest, result.title@);
}

/// Every entity shows its own id, unless a field of that name has a value, and
/// nothing that is not a field of its kind.
pub proof fn law_entity_is_its_id_and_its_fields(
    asset: PdtAsset,
    result: PdtSearchResult,
    config: EntityConfig,
    name: Seq<char>,
)
    ensures
        !config.fields@.contains_key("id"@) ==> shows(
            mapping::entity_of(asset, config),
            "id"@,
            Some(JsonView::Text(asset.id@)),
        ) && shows(
            mapping::compact_entity_of(result, config),
            "id"@,
            Some(JsonView::Text(result.id@)),
        ),
        mapping::entity_of(asset, config).contains_key("id"@),
        mapping::compact_entity_of(result, config).contains_key("id"@),
        name != "id"@ && !config.fields@.contains_key(name) ==> shows(
            mapping::entity_of(asset, config),
            name,
            None,
        ) && shows(mapping::compact_entity_of(result, config), name, None),
{
}

/// The mapped entity of an asset and of a search result, as they are made.
pub proof fn law_mapped_entity(
    asset: &PdtAsset,
    result: &PdtSearchResult,
    config: &EntityConfig,
    a: Json,
    b: Json,
)
    requires
        call_ensures(mapping::map_asset_to_entity, (asset, config), a),
        call_ensures(mapping::map_compact_to_entity, (result, config), b),
    ensures
        a.model() == JsonView::Object(mapping::entity_of(*asset, *config)),
        b.model() == JsonView::Object(mapping::compact_entity_of(*result, *config)),
{
}

/// The relation at a position is the first that goes out from the asset with the
/// type.
pub open spec fn leads_first(
    relations: Seq<PdtRelation>,
    j: int,
    asset_id: Seq<char>,
    t: Seq<char>,
) -> bool {
    &&& 0 <= j < relations.len()
    &&& relations[j].from_asset_id@ == asset_id
    &&& relations[j].relation_type@ == t
    &&& forall|k: int| #![trigger relations[k]]
        0 <= k < j ==> !(relations[k].from_asset_id@ == asset_id && relations[k].relation_type@
            == t)
}

/// No relation goes out from the asset with the type.
pub open spec fn leads_nowhere(
    relations: Seq<PdtRelation>,
    asset_id: Seq<char>,
    t: Seq<char>,
) -> bool {
    forall|k: int| #![trigger relations[k]]
        0 <= k < relations.len() ==> !(relations[k].from_asset_id@ == asset_id
            && relations[k].relation_type@ == t)
}

proof fn lemma_related(relations: Seq<PdtRelation>, j: int, asset_id: Seq<char>, t: Seq<char>)
    ensures
        leads_first(relations, j, asset_id, t) ==> mapping::related(relations, asset_id, t) == Some(
            relations[j].to_asset_id@,
        ),
        leads_nowhere(relations, asset_id, t) ==> mapping::related(relations, asset_id, t) is None,
    decreases relations.len(),
{
    if relations.len() > 0 {
        let rest = relations.drop_first();
        lemma_related(rest, j - 1, asset_id, t);
        assert forall|k: int| 0 <= k < rest.len() implies rest[k] == #[trigger] relations[k
            + 1] by {}
        if leads_first(relations, j, asset_id, t) && j > 0 {
            assert(rest[j - 1] == relations[j]);
            assert(!(relations[0].from_asset_id@ == asset_id && relations[0].relation_type@ == t));
            assert forall|k: int| #![trigger rest[k]] 0 <= k < j - 1 implies !(
            rest[k].from_asset_id@ == asset_id && rest[k].relation_type@ == t) by {
                assert(rest[k] == relations[k + 1]);
            }
        }
        if leads_nowhere(relations, asset_id, t) {
            assert(!(relations[0].from_asset_id@ == asset_id && relations[0].relation_type@ == t));
            assert forall|k: int| #![trigger rest[k]] 0 <= k < rest.len() implies !(
            rest[k].from_asset_id@ == asset_id && rest[k].relation_type@ == t) by {
                assert(rest[k] == relations[k + 1]);
            }
        }
    }
}

/// The relation type that a relation field stands for: its own, or `related_to`.
pub open spec fn stands_for(field: FieldConfig, t: Seq<char>) -> bool {
    match field.relation_type {
        Some(own) => t == own@,
        None => t == "related_to"@,
    }
}

proof fn lemma_filter_distinct(s: Seq<NamedField>, pred: spec_fn(NamedField) -> bool)
    requires
        keyed::distinct_keys(s),
    ensures
        keyed::distinct_keys(s.filter(pred)),
    decreases s.len(),
{
    reveal(Seq::filter);
    if s.len() > 0 {
        let init = s.drop_last();
        assert forall|i: int, j: int| 0 <= i < j < init.len() implies (#[trigger] init[i]).0@ != (
        #[trigger] init[j]).0@ by {
            assert(init[i] == s[i] && init[j] == s[j]);
        }
        lemma_filter_distinct(init, pred);
        let kept = init.filter(pred);
        let all = s.filter(pred);
        if pred(s.last()) {
            assert(all == kept.push(s.last()));
            assert forall|i: int, j: int| 0 <= i < j < all.len() implies (#[trigger] all[i]).0@
                != (#[trigger] all[j]).0@ by {
                if j == kept.len() {
                    init.lemma_filter_pred(pred, i);
                    assert(kept.contains(kept[i]));
                    init.lemma_filter_contains_rev(pred, kept[i]);
                    let k = choose|k: int| 0 <= k < init.len() && init[k] == kept[i];
                    assert(s[k] == kept[i]);
                    assert(s[k].0@ != s[s.len() - 1].0@);
                } else {
                    assert(all[i] == kept[i] && all[j] == kept[j]);
                }
            }
        } else {
            assert(all == kept);
        }
    }
}

proof fn lemma_with_relations(
    m: Members,
    fields: Seq<NamedField>,
    replies: Seq<Option<Vec<PdtRelation>>>,
    asset_id: Seq<char>,
    i: int,
    name: Seq<char>,
)
    requires
        keyed::distinct_keys(fields),
    ensures
        0 <= i < fields.len() ==> shows(
            mapping::with_relations(m, fields, replies, asset_id),
            fields[i].0@,
            (match mapping::reply(replies, i) {
                Some(rs) => match mapping::related(
                    rs,
                    asset_id,
                    mapping::relation_type(fields[i].1),
                ) {
                    Some(id) => Some(JsonView::Text(id)),
                    None => json::member_of(m, fields[i].0@),
                },
                None => json::member_of(m, fields[i].0@),
            }),
        ),
        (forall|k: int| 0 <= k < fields.len() ==> (#[trigger] fields[k]).0@ != name) ==> shows(
            mapping::with_relations(m, fields, replies, asset_id),
            name,
            json::member_of(m, name),
        ),
    decreases fields.len(),
{
    if fields.len() > 0 {
        let init = fields.drop_last();
        let n = fields.len() - 1;
        assert forall|a: int, b: int| 0 <= a < b < init.len() implies (#[trigger] init[a]).0@ != (
        #[trigger] init[b]).0@ by {
            assert(init[a] == fields[a] && init[b] == fields[b]);
        }
        lemma_with_relations(m, init, replies, asset_id, i, name);
        assert(fields[n] == fields.last());
        if 0 <= i < n {
            assert(init[i] == fields[i]);
            assert(fields[i].0@ != fields[n].0@);
        }
        if i == n {
            assert forall|k: int| 0 <= k < init.len() implies (#[trigger] init[k]).0@
                != fields[n].0@ by {
                assert(init[k] == fields[k]);
            }
            lemma_with_relations(m, init, replies, asset_id, 0, fields[n].0@);
        }
        if forall|k: int| 0 <= k < fields.len() ==> (#[trigger] fields[k]).0@ != name {
            assert forall|k: int| 0 <= k < init.len() implies (#[trigger] init[k]).0@ != name by {
                assert(init[k] == fields[k]);
            }
            assert(fields[n].0@ != name);
        }
    }
}

/// A relation field of an entity that is read shows where the first relation of its
/// type leads that goes out from the asset.  Where no such relation was read it
/// shows what the asset itself holds, and so does every other field.
pub proof fn law_relation_field_shows_its_target(
    asset: PdtAsset,
    config: EntityConfig,
    replies: Seq<Option<Vec<PdtRelation>>>,
    i: int,
    j: int,
    t: Seq<char>,
    name: Seq<char>,
)
    requires
        keyed::distinct_keys(config.fields.entries()),
        0 <= i < config.relations().len(),
        stands_for(config.relations()[i].1, t),
    ensures
        ({
            let e = mapping::entity_of(asset, config);
            let full = mapping::related_entity(asset, config, replies);
            let field = config.relations()[i].0@;
            let read = filter_laws::read_for(replies, i);
            &&& read is Some && leads_first(read->0, j, asset.id@, t) ==> shows(
                full,
                field,
                Some(JsonView::Text(read->0[j].to_asset_id@)),
            )
            &&& read is Some && leads_nowhere(read->0, asset.id@, t) ==> shows(
                full,
                field,
                json::member_of(e, field),
            )
            &&& read is None ==> shows(full, field, json::member_of(e, field))
            &&& (forall|k: int|
                0 <= k < config.relations().len() ==> (#[trigger] config.relations()[k]).0@
                    != name) ==> shows(full, name, json::member_of(e, name))
        }),
{
    let fields = config.relations();
    let e = mapping::entity_of(asset, config);
    lemma_filter_distinct(
        config.fields.entries(),
        |f: NamedField| f.1.field_type == FieldType::Relation,
    );
    lemma_with_relations(e, fields, replies, asset.id@, i, name);
    assert(mapping::reply(replies, i) == filter_laws::read_for(replies, i));
    if let Some(rs) = mapping::reply(replies, i) {
        lemma_related(rs, j, asset.id@, t);
    }
}

/// An optional JSON value is a value, or is absent.
pub open spec fn is_value(r: Option<Json>, value: Option<JsonView>) -> bool {
    r is Some == value is Some && (value is Some ==> r->0.model() == value->0)
}

/// The value of a field of an asset is what the asset holds where the hint says.
pub proof fn law_value_is_where_the_hint_says(
    asset: &PdtAsset,
    name: &str,
    hint: &Option<String>,
    config: &EntityConfig,
    r: Option<Json>,
    rest: Seq<char>,
    v: Seq<char>,
)
    requires
        call_ensures(mapping::extract_field_value, (asset, name, hint, config), r),
    ensures
        ({
            let h = hint.deep_view();
            let metadata = json::members(asset.metadata);
            &&& h == Some("content"@) ==> is_value(r, unless_empty(asset.content@))
            &&& h == Some("title_suffix"@) && asset.title@ == config.title_prefix@ + rest
                ==> is_value(r, unless_empty(rest))
            &&& h == Some("title_suffix"@) && (forall|t: Seq<char>|
                #[trigger] (config.title_prefix@ + t) != asset.title@) ==> is_value(
                r,
                unless_empty(asset.title@),
            )
            &&& h == Some("tag:"@ + rest) && stored_first(asset.tags@, rest, v) ==> is_value(
                r,
                Some(JsonView::Text(v)),
            )
            &&& h == Some("tag:"@ + rest) && stored_without(asset.tags@, rest) ==> is_value(r, None)
            &&& h == Some("metadata:"@ + rest) && metadata.contains_key(rest) ==> is_value(
                r,
                Some(metadata[rest]),
            )
            &&& h == Some("metadata:"@ + rest) && !metadata.contains_key(rest) ==> is_value(r, None)
            &&& h == Some("created_at"@) ==> is_value(r, Some(JsonView::Text(asset.created_at@)))
            &&& h == Some("updated_at"@) ==> is_value(r, Some(JsonView::Text(asset.updated_at@)))
            &&& says_nothing(h) && stored_first(asset.tags@, name@, v) ==> is_value(
                r,
                Some(JsonView::Text(v)),
            )
            &&& says_nothing(h) && stored_without(asset.tags@, name@) ==> is_value(r, None)
        }),
{
    let h = hint.deep_view();
    law_hint_says_where(rest, h);
    lemma_stored_first(asset.tags@, rest, v);
    lemma_stored_first(asset.tags@, name@, v);
    text_laws::law_prefix_and_rest(config.title_prefix@, rest, asset.title@);
}

/// The value of a field of a search result is what the result holds where the hint
/// says; it holds no content and no metadata, and one time.
pub proof fn law_found_value_is_where_the_hint_says(
    result: &PdtSearchResult,
    name: &str,
    hint: &Option<String>,
    config: &EntityConfig,
    r: Option<Json>,
    rest: Seq<char>,
    v: Seq<char>,
)
    requires
        call_ensures(mapping::extract_field_value_compact, (result, name, hint, config), r),
    ensures
        ({
            let h = hint.deep_view();
            &&& h == Some("content"@) || h == Some("metadata:"@ + rest) ==> r is None
            &&& h == Some("title_suffix"@) && result.title@ == config.title_prefix@ + rest
                ==> is_value(r, unless_empty(rest))
            &&& h == Some("title_suffix"@) && (forall|t: Seq<char>|
                #[trigger] (config.title_prefix@ + t) != result.title@) ==> is_value(
                r,
                unless_empty(result.title@),
            )
            &&& h == Some("tag:"@ + rest) && filter_laws::found_first(result.tags@, rest, v)
                ==> is_value(r, Some(JsonView::Text(v)))
            &&& h == Some("tag:"@ + rest) && found_without(result.tags@, rest) ==> r is None
            &&& h == Some("created_at"@) || h == Some("updated_at"@) ==> is_value(
                r,
                Some(JsonView::Text(result.updated_at@)),
            )
            &&& says_nothing(h) && filter_laws::found_first(result.tags@, name@, v) ==> is_value(
                r,
                Some(JsonView::Text(v)),
            )
            &&& says_nothing(h) && found_without(result.tags@, name@) ==> r is None
        }),
{
    let h = hint.deep_view();
    law_hint_says_where(rest, h);
    lemma_found_first(result.tags@, rest, v);
    lemma_found_first(result.tags@, name@, v);
    text_laws::law_prefix_and_rest(config.title_prefix@, rest, result.title@);
}

/// The first relation of a type that goes out from an asset is the one that is
/// found, and there is none where no relation is such.
pub proof fn law_first_relation_out_is_found(
    relations: &Vec<PdtRelation>,
    asset_id: &str,
    t: &str,
    r: Option<&str>,
    j: int,
)
    requires
        call_ensures(mapping::find_related, (relations, asset_id, t), r),
    ensures
        leads_first(relations@, j, asset_id@, t@) ==> r is Some && r->0@
            == relations@[j].to_asset_id@,
        leads_nowhere(relations@, asset_id@, t@) ==> r is None,
{
    lemma_related(relations@, j, asset_id@, t@);
}

/// The entity of an asset and of a search result, and the entity with its relations,
/// are the same as tables and as values; the type of a relation field is its own, or
/// `related_to`.
pub proof fn law_tables_are_entities(
    asset: &PdtAsset,
    result: &PdtSearchResult,
    config: &EntityConfig,
    replies: &Vec<Option<Vec<PdtRelation>>>,
    a: Json,
    at: KeyedList<Json>,
    b: Json,
    bt: KeyedList<Json>,
    c: Json,
    ct: KeyedList<Json>,
    field: &FieldConfig,
    t: &str,
)
    requires
        call_ensures(mapping::map_asset_to_entity, (asset, config), a),
        call_ensures(mapping::entity_table, (asset, config), at),
        call_ensures(mapping::map_compact_to_entity, (result, config), b),
        call_ensures(mapping::compact_entity_table, (result, config), bt),
        call_ensures(mapping::map_asset_to_entity_with_relations, (asset, config, replies), c),
        call_ensures(mapping::related_entity_table, (asset, config, replies), ct),
        call_ensures(mapping::relation_type_of, (field,), t),
    ensures
        a.model() == JsonView::Object(json::members(at)),
        b.model() == JsonView::Object(json::members(bt)),
        c.model() == JsonView::Object(json::members(ct)),
        c.model() == JsonView::Object(mapping::related_entity(*asset, *config, replies@)),
        stands_for(*field, t@),
{
}

} // verus!
