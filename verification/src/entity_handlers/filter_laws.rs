//! What every listing shows, asks for and reads, in terms of what PDT gave.
use crate::api::{ApiError, ApiErrorView};
use crate::entity_config::{self, EntityConfig, FieldType, NamedField};
use crate::entity_handlers::listing::{self, ListEntitiesQuery};
use crate::entity_handlers::listing_laws;
use crate::entity_handlers::mapping;
use crate::json::{Json, JsonNumber, JsonView, Members};
use crate::json_laws;
use crate::pdt::client::{Method, PdtClient, PdtRequest, ReplyForm};
use crate::pdt::types::{PdtAsset, PdtRelation, PdtSearchResult, PdtTag, PdtTagSummary};
use crate::tags;
use crate::tags_laws;
use vstd::prelude::*;

verus! {

/// A tag of a search result has the category and the value.
pub open spec fn found_with(tags: Seq<PdtTagSummary>, c: Seq<char>, v: Seq<char>) -> bool {
    exists|i: int|
        0 <= i < tags.len() && (#[trigger] tags[i]).category@ == c && tags[i].value@ == v
}

/// The first tag of a category in a search result has the value.
pub open spec fn found_first(tags: Seq<PdtTagSummary>, c: Seq<char>, v: Seq<char>) -> bool {
    exists|i: int| #![trigger tags[i]]
        0 <= i < tags.len() && tags[i].category@ == c && tags[i].value@ == v && forall|j: int|
            0 <= j < i ==> (#[trigger] tags[j]).category@ != c
}

/// A tag of an asset has the category and the value.
pub open spec fn stored_with(tags: Seq<PdtTag>, c: Seq<char>, v: Seq<char>) -> bool {
    exists|i: int|
        0 <= i < tags.len() && (#[trigger] tags[i]).category@ == c && tags[i].value@ == v
}

/// A relation field of the kind has the type.
pub open spec fn names_relation(fields: Seq<NamedField>, t: Seq<char>) -> bool {
    exists|i: int| #![trigger fields[i]]
        0 <= i < fields.len() && fields[i].1.field_type == FieldType::Relation
            && fields[i].1.relation_type is Some && fields[i].1.relation_type->0@ == t
}

/// The kind has a relation field.
pub open spec fn has_relation_field(fields: Seq<NamedField>) -> bool {
    exists|i: int|
        0 <= i < fields.len() && (#[trigger] fields[i]).1.field_type == FieldType::Relation
}

proof fn lemma_found(tags: Seq<PdtTagSummary>, c: Seq<char>, v: Seq<char>)
    ensures
        tags::pairs(tags).contains((c, v)) <==> found_with(tags, c, v),
        tags::first_value(tags::pairs(tags), c) == Some(v) <==> found_first(tags, c, v),
{
    let p = tags::pairs(tags);
    assert forall|i: int| 0 <= i < tags.len() implies #[trigger] p[i] == (
        tags[i].category@,
        tags[i].value@,
    ) by {}
    if p.contains((c, v)) {
        let i = choose|i: int| 0 <= i < p.len() && p[i] == (c, v);
        assert(tags[i].category@ == c);
    }
    if found_with(tags, c, v) {
        let i = choose|i: int|
            0 <= i < tags.len() && (#[trigger] tags[i]).category@ == c && tags[i].value@ == v;
        assert(p[i] == (c, v));
    }
    tags_laws::law_first_tag_counts(p, c, v);
    if tags::first_value(p, c) == Some(v) {
        let i = choose|i: int| #[trigger] tags_laws::is_first(p, i, c, v);
        assert forall|j: int| 0 <= j < i implies (#[trigger] tags[j]).category@ != c by {
            assert(p[j].0 == tags[j].category@);
        }
        assert(tags[i].category@ == c);
    }
    if found_first(tags, c, v) {
        let i = choose|i: int| #![trigger tags[i]]
            0 <= i < tags.len() && tags[i].category@ == c && tags[i].value@ == v && forall|j: int|
                0 <= j < i ==> (#[trigger] tags[j]).category@ != c;
        assert(tags_laws::is_first(p, i, c, v));
    }
}

proof fn lemma_stored(tags: Seq<PdtTag>, c: Seq<char>, v: Seq<char>)
    ensures
        tags::pairs(tags).contains((c, v)) <==> stored_with(tags, c, v),
{
    let p = tags::pairs(tags);
    assert forall|i: int| 0 <= i < tags.len() implies #[trigger] p[i] == (
        tags[i].category@,
        tags[i].value@,
    ) by {}
    if p.contains((c, v)) {
        let i = choose|i: int| 0 <= i < p.len() && p[i] == (c, v);
        assert(tags[i].category@ == c);
    }
    if stored_with(tags, c, v) {
        let i = choose|i: int|
            0 <= i < tags.len() && (#[trigger] tags[i]).category@ == c && tags[i].value@ == v;
        assert(p[i] == (c, v));
    }
}

/// The relation fields of a kind are its fields of the type `Relation`, in order.
pub proof fn law_relation_fields(config: EntityConfig, t: Seq<char>)
    ensures
        config.relations() == config.fields.entries().filter(
            |e: NamedField| e.1.field_type == FieldType::Relation,
        ),
        config.relations().len() > 0 <==> has_relation_field(config.fields.entries()),
        listing::is_relation_type(config.relations(), t) <==> names_relation(
            config.fields.entries(),
            t,
        ),
{
    let fields = config.fields.entries();
    let wanted = |e: NamedField| e.1.field_type == FieldType::Relation;
    let kept = config.relations();
    assert(kept == fields.filter(wanted));
    if kept.len() > 0 {
        fields.lemma_filter_pred(wanted, 0);
        assert(kept.contains(kept[0]));
        fields.lemma_filter_contains_rev(wanted, kept[0]);
        let i = choose|i: int| 0 <= i < fields.len() && fields[i] == kept[0];
        assert(fields[i].1.field_type == FieldType::Relation);
    }
    if has_relation_field(fields) {
        let i = choose|i: int|
            0 <= i < fields.len() && (#[trigger] fields[i]).1.field_type == FieldType::Relation;
        fields.lemma_filter_contains(wanted, i);
    }
    if listing::is_relation_type(kept, t) {
        let k = choose|k: int|
            0 <= k < kept.len() && (#[trigger] kept[k]).1.relation_type.deep_view() == Some(t);
        fields.lemma_filter_pred(wanted, k);
        assert(kept.contains(kept[k]));
        fields.lemma_filter_contains_rev(wanted, kept[k]);
        let i = choose|i: int| 0 <= i < fields.len() && fields[i] == kept[k];
        assert(fields[i].1.relation_type->0@ == t);
    }
    if names_relation(fields, t) {
        let i = choose|i: int| #![trigger fields[i]]
            0 <= i < fields.len() && fields[i].1.field_type == FieldType::Relation
                && fields[i].1.relation_type is Some && fields[i].1.relation_type->0@ == t;
        fields.lemma_filter_contains(wanted, i);
        let k = choose|k: int| 0 <= k < kept.len() && kept[k] == fields[i];
        assert(kept[k].1.relation_type.deep_view() == Some(t));
    }
}

/// What a listing asks of a search result: its own instance's agent, every default
/// tag, every tag that is asked for, the status and the relation that are asked
/// for, and, of a kind with relation fields, some relation.
pub open spec fn passes(
    config: EntityConfig,
    instance: Option<Seq<char>>,
    query: ListEntitiesQuery,
    result: PdtSearchResult,
    relations: Option<Seq<PdtRelation>>,
) -> bool {
    &&& instance matches Some(agent) ==> found_first(result.tags@, "agent"@, agent)
    &&& forall|c: Seq<char>| #[trigger]
        config.default_tags@.contains_key(c) ==> found_with(
            result.tags@,
            c,
            config.default_tags@[c]@,
        )
    &&& forall|i: int| #![trigger query.tags@[i]]
        0 <= i < query.tags@.len() ==> found_with(
            result.tags@,
            query.tags@[i].0@,
            query.tags@[i].1@,
        )
    &&& query.status matches Some(s) ==> json_laws::has(
        JsonView::Object(mapping::compact_entity_of(result, config)),
        "status"@,
        JsonView::Text(s@),
    )
    &&& query.attached_to matches Some(target) ==> relations is Some && exists|i: int|
        #![trigger relations->0[i]]
        0 <= i < relations->0.len() && relations->0[i].from_asset_id@ == result.id@
            && relations->0[i].to_asset_id@ == target@ && names_relation(
            config.fields.entries(),
            relations->0[i].relation_type@,
        )
    &&& query.attached_to is None && has_relation_field(config.fields.entries())
        ==> relations is Some && exists|i: int| #![trigger relations->0[i]]
        0 <= i < relations->0.len() && relations->0[i].from_asset_id@ == result.id@
}

/// A search result is listed exactly where it passes: nothing else keeps it out or
/// lets it in.
pub proof fn law_listed_is_what_passes(
    config: EntityConfig,
    instance: Option<Seq<char>>,
    query: ListEntitiesQuery,
    result: PdtSearchResult,
    relations: Option<Seq<PdtRelation>>,
)
    ensures
        listing::is_listed(config, instance, query, result, relations) <==> passes(
            config,
            instance,
            query,
            result,
            relations,
        ),
{
    let tags = result.tags@;
    if let Some(agent) = instance {
        lemma_found(tags, "agent"@, agent);
    }
    assert forall|c: Seq<char>| #[trigger] config.default_tags@.contains_key(c) implies (tags::pairs(
        tags,
    ).contains((c, config.default_tags@[c]@)) <==> found_with(
        tags,
        c,
        config.default_tags@[c]@,
    )) by {
        lemma_found(tags, c, config.default_tags@[c]@);
    }
    assert forall|i: int| #![trigger query.tags@[i]] 0 <= i < query.tags@.len() implies (
    tags::pairs(tags).contains((query.tags@[i].0@, query.tags@[i].1@)) <==> found_with(
        tags,
        query.tags@[i].0@,
        query.tags@[i].1@,
    )) by {
        lemma_found(tags, query.tags@[i].0@, query.tags@[i].1@);
    }
    assert(entity_config::tags_match(config.default_tags@, tags::pairs(tags)) <==> forall|
        c: Seq<char>,
    | #[trigger]
        config.default_tags@.contains_key(c) ==> found_with(tags, c, config.default_tags@[c]@));
    assert(listing::has_tags(query.tags@, tags::pairs(tags)) <==> forall|i: int|
        #![trigger query.tags@[i]]
        0 <= i < query.tags@.len() ==> found_with(
            tags,
            query.tags@[i].0@,
            query.tags@[i].1@,
        ));
    law_relation_fields(config, Seq::empty());
    assert forall|t: Seq<char>| #[trigger]
        listing::is_relation_type(config.relations(), t) == names_relation(
            config.fields.entries(),
            t,
        ) by {
        law_relation_fields(config, t);
    }
    if let Some(rs) = relations {
        if let Some(target) = query.attached_to {
            if listing::is_attached(rs, result.id@, target@, config.relations()) {
                let i = choose|i: int| #![trigger rs[i]]
                    0 <= i < rs.len() && rs[i].from_asset_id@ == result.id@ && rs[i].to_asset_id@
                        == target@ && listing::is_relation_type(
                        config.relations(),
                        rs[i].relation_type@,
                    );
                assert(relations->0[i].from_asset_id@ == result.id@);
            }
        }
    }
}

/// One text comes before another in character order: at the first place where they
/// differ it has the smaller character, or it ends there.
pub open spec fn differs_at(a: Seq<char>, b: Seq<char>, k: int) -> bool {
    &&& 0 <= k <= a.len()
    &&& k < b.len()
    &&& forall|i: int| 0 <= i < k ==> #[trigger] a[i] == b[i]
    &&& k < a.len() ==> (a[k] as int) < (b[k] as int)
}

/// One text comes before another in character order.
pub open spec fn precedes(a: Seq<char>, b: Seq<char>) -> bool {
    exists|k: int| #[trigger] differs_at(a, b, k)
}

/// The order of texts is that of their characters.
pub proof fn law_order_is_by_characters(a: Seq<char>, b: Seq<char>)
    ensures
        listing::before(a, b) <==> precedes(a, b),
    decreases a.len(),
{
    let ra = a.drop_first();
    let rb = b.drop_first();
    if a.len() > 0 && b.len() > 0 {
        law_order_is_by_characters(ra, rb);
    }
    if listing::before(a, b) {
        if a.len() == 0 || a[0] != b[0] {
            assert(differs_at(a, b, 0));
        } else {
            let k = choose|k: int| #[trigger] differs_at(ra, rb, k);
            assert forall|i: int| 0 <= i < k + 1 implies #[trigger] a[i] == b[i] by {
                if i > 0 {
                    assert(ra[i - 1] == rb[i - 1]);
                }
            }
            assert(differs_at(a, b, k + 1));
        }
    }
    if precedes(a, b) {
        let k = choose|k: int| #[trigger] differs_at(a, b, k);
        if k > 0 {
            assert(a[0] == b[0]);
            assert forall|i: int| 0 <= i < k - 1 implies #[trigger] ra[i] == rb[i] by {
                assert(a[i + 1] == b[i + 1]);
            }
            assert(differs_at(ra, rb, k - 1));
        }
    }
}

/// An entity has a text under `updated_at`.
pub open spec fn updated(m: Members, t: Seq<char>) -> bool {
    m.contains_key("updated_at"@) && m["updated_at"@] == JsonView::Text(t)
}

/// In a listing no entity comes before one that was updated later, by the whole of
/// the texts under `updated_at`.  An entity without such a text comes behind every
/// entity with one that is not empty.
pub proof fn law_later_update_comes_first(
    s: Seq<Members>,
    i: int,
    j: int,
    a: Seq<char>,
    b: Seq<char>,
)
    requires
        0 <= i < j < s.len(),
        updated(listing::newest_first(s)[j], b),
    ensures
        updated(listing::newest_first(s)[i], a) ==> !precedes(a, b),
        (forall|t: Seq<char>| !updated(listing::newest_first(s)[i], t)) ==> b.len() == 0,
{
    let all = listing::newest_first(s);
    listing_laws::law_newest_first_is_sorted(s);
    listing_laws::law_newest_first_keeps_entities(s);
    assert(!listing::before(listing::time_of(all[i]), listing::time_of(all[j])));
    law_order_is_by_characters(a, b);
    if forall|t: Seq<char>| !updated(all[i], t) {
        if all[i].contains_key("updated_at"@) && all[i]["updated_at"@] is Text {
            assert(updated(all[i], all[i]["updated_at"@]->Text_0));
        }
        law_order_is_by_characters(Seq::empty(), b);
        if b.len() > 0 {
            assert(differs_at(Seq::empty(), b, 0));
        }
    }
}

/// Entities that were updated at the same time keep the order of the search.
pub proof fn law_same_update_keeps_order(s: Seq<Members>, t: Seq<char>)
    requires
        t.len() > 0,
    ensures
        listing::newest_first(s).filter(|m: Members| updated(m, t)) == s.filter(
            |m: Members| updated(m, t),
        ),
{
    let p = |m: Members| updated(m, t);
    let q = |m: Members| listing::time_of(m) == t;
    listing_laws::law_newest_first_keeps_order(s, t);
    lemma_same_filter(s, p, q);
    lemma_same_filter(listing::newest_first(s), p, q);
}

proof fn lemma_same_filter(
    s: Seq<Members>,
    p: spec_fn(Members) -> bool,
    q: spec_fn(Members) -> bool,
)
    requires
        forall|m: Members| #[trigger] p(m) == q(m),
    ensures
        s.filter(p) == s.filter(q),
    decreases s.len(),
{
    reveal(Seq::filter);
    if s.len() > 0 {
        lemma_same_filter(s.drop_last(), p, q);
        assert(p(s.last()) == q(s.last()));
    }
}

/// The relations that were read for a search result.
pub open spec fn read_for(replies: Seq<Option<Vec<PdtRelation>>>, i: int) -> Option<
    Seq<PdtRelation>,
> {
    if 0 <= i < replies.len() && replies[i] is Some {
        Some(replies[i]->0@)
    } else {
        None
    }
}

/// The definition at a position is the first whose slug is the given one, alone or
/// with an `s` behind it.
pub open spec fn is_definition(configs: Seq<EntityConfig>, slug: Seq<char>, k: int) -> bool {
    &&& 0 <= k < configs.len()
    &&& configs[k].slug@ == slug || configs[k].slug@ == slug.push('s')
    &&& forall|j: int|
        0 <= j < k ==> (#[trigger] configs[j]).slug@ != slug && configs[j].slug@ != slug.push('s')
}

/// A slug names the first definition with that slug, or with its plural.
pub proof fn law_slug_names_the_first_definition(
    configs: Seq<EntityConfig>,
    slug: Seq<char>,
    k: int,
)
    ensures
        is_definition(configs, slug, k) ==> listing::config_for(configs, slug) == Some(configs[k]),
        listing::config_for(configs, slug) is None <==> forall|j: int|
            0 <= j < configs.len() ==> (#[trigger] configs[j]).slug@ != slug && configs[j].slug@
                != slug.push('s'),
    decreases configs.len(),
{
    reveal_strlit("s");
    assert(slug + "s"@ =~= slug.push('s'));
    if configs.len() > 0 {
        let rest = configs.drop_first();
        assert forall|j: int| 0 <= j < rest.len() implies rest[j] == #[trigger] configs[j + 1] by {}
        law_slug_names_the_first_definition(rest, slug, k - 1);
        let here = configs[0].slug@ == slug || configs[0].slug@ == slug.push('s');
        if is_definition(configs, slug, k) && k > 0 {
            assert(!here);
            assert forall|j: int| 0 <= j < k - 1 implies (#[trigger] rest[j]).slug@ != slug
                && rest[j].slug@ != slug.push('s') by {
                assert(rest[j] == configs[j + 1]);
            }
            assert(rest[k - 1] == configs[k]);
        }
        if !here && listing::config_for(configs, slug) is None {
            assert forall|j: int| 0 <= j < configs.len() implies (#[trigger] configs[j]).slug@
                != slug && configs[j].slug@ != slug.push('s') by {
                if j > 0 {
                    assert(rest[j - 1] == configs[j]);
                }
            }
        }
        if forall|j: int|
            0 <= j < configs.len() ==> (#[trigger] configs[j]).slug@ != slug && configs[j].slug@
                != slug.push('s') {
            assert(!here);
            assert forall|j: int| 0 <= j < rest.len() implies (#[trigger] rest[j]).slug@ != slug
                && rest[j].slug@ != slug.push('s') by {
                assert(rest[j] == configs[j + 1]);
            }
        }
    }
}

/// A refusal with a status and a message.
pub open spec fn is_refused(e: ApiErrorView, status: u16, message: Seq<char>) -> bool {
    e.status == status && json_laws::has(e.body, "error"@, JsonView::Text(message))
}

/// The number of search results that are listed is the number of those that pass.
pub proof fn law_listing_counts_what_passes(
    config: EntityConfig,
    instance: Option<Seq<char>>,
    query: ListEntitiesQuery,
    results: Seq<PdtSearchResult>,
    replies: Seq<Option<Vec<PdtRelation>>>,
)
    ensures
        Set::new(
            |i: int|
                0 <= i < results.len() && passes(
                    config,
                    instance,
                    query,
                    results[i],
                    read_for(replies, i),
                ),
        ).finite(),
        listing::listed(config, instance, query, results, replies).len() == Set::new(
            |i: int|
                0 <= i < results.len() && passes(
                    config,
                    instance,
                    query,
                    results[i],
                    read_for(replies, i),
                ),
        ).len(),
    decreases results.len(),
{
    let all = Set::new(
        |i: int|
            0 <= i < results.len() && passes(
                config,
                instance,
                query,
                results[i],
                read_for(replies, i),
            ),
    );
    if results.len() == 0 {
        assert(all =~= Set::empty());
    } else {
        let init = results.drop_last();
        let n = results.len() - 1;
        law_listing_counts_what_passes(config, instance, query, init, replies);
        law_listed_is_what_passes(config, instance, query, results[n], read_for(replies, n));
        let before = Set::new(
            |i: int|
                0 <= i < init.len() && passes(
                    config,
                    instance,
                    query,
                    init[i],
                    read_for(replies, i),
                ),
        );
        assert(mapping::reply(replies, n) == read_for(replies, n));
        if passes(config, instance, query, results[n], read_for(replies, n)) {
            assert(all =~= before.insert(n));
        } else {
            assert(all =~= before);
        }
    }
}

/// The items of the list that an object has under a name.
pub open spec fn items_under(v: JsonView, key: Seq<char>) -> Seq<JsonView> {
    v->Object_0[key]->List_0
}

/// A value is the entity of a search result that passes.
pub open spec fn is_of_a_result(
    v: JsonView,
    config: EntityConfig,
    instance: Option<Seq<char>>,
    query: ListEntitiesQuery,
    results: Seq<PdtSearchResult>,
    replies: Seq<Option<Vec<PdtRelation>>>,
) -> bool {
    exists|i: int| #![trigger results[i]]
        0 <= i < results.len() && passes(
            config,
            instance,
            query,
            results[i],
            read_for(replies, i),
        ) && v == JsonView::Object(mapping::compact_entity_of(results[i], config))
}

/// The answer to a listing: the entities of the search results that pass, each
/// once, the latest update first, and their number.
pub proof fn law_listing_is_answered(
    configs: &Vec<EntityConfig>,
    instance: Option<&str>,
    slug: &str,
    query: &ListEntitiesQuery,
    results: Vec<PdtSearchResult>,
    replies: &Vec<Option<Vec<PdtRelation>>>,
    k: int,
    r: Result<Json, ApiError>,
)
    requires
        call_ensures(
            listing::list_entities,
            (configs, instance, slug, query, Some(results), replies),
            r,
        ),
        is_definition(configs@, slug@, k),
    ensures
        r is Ok,
        json_laws::has(
            r->Ok_0.model(),
            "entities"@,
            JsonView::List(items_under(r->Ok_0.model(), "entities"@)),
        ),
        json_laws::has(
            r->Ok_0.model(),
            "total"@,
            JsonView::Number(
                JsonNumber::Unsigned(items_under(r->Ok_0.model(), "entities"@).len() as u64),
            ),
        ),
        items_under(r->Ok_0.model(), "entities"@).len() == Set::new(
            |i: int|
                0 <= i < results@.len() && passes(
                    configs@[k],
                    instance.deep_view(),
                    *query,
                    results@[i],
                    read_for(replies@, i),
                ),
        ).len(),
        forall|i: int| #![trigger results@[i]]
            0 <= i < results@.len() && passes(
                configs@[k],
                instance.deep_view(),
                *query,
                results@[i],
                read_for(replies@, i),
            ) ==> items_under(r->Ok_0.model(), "entities"@).contains(
                JsonView::Object(mapping::compact_entity_of(results@[i], configs@[k])),
            ),
        forall|p: int| #![trigger items_under(r->Ok_0.model(), "entities"@)[p]]
            0 <= p < items_under(r->Ok_0.model(), "entities"@).len() ==> is_of_a_result(
                items_under(r->Ok_0.model(), "entities"@)[p],
                configs@[k],
                instance.deep_view(),
                *query,
                results@,
                replies@,
            ),
        forall|p: int, q: int, a: Seq<char>, b: Seq<char>|
            #![trigger items_under(r->Ok_0.model(), "entities"@)[p], items_under(r->Ok_0.model(), "entities"@)[q], precedes(a, b)]
            0 <= p < q < items_under(r->Ok_0.model(), "entities"@).len() && json_laws::has(
                items_under(r->Ok_0.model(), "entities"@)[p],
                "updated_at"@,
                JsonView::Text(a),
            ) && json_laws::has(
                items_under(r->Ok_0.model(), "entities"@)[q],
                "updated_at"@,
                JsonView::Text(b),
            ) ==> !precedes(a, b),
{
    law_slug_names_the_first_definition(configs@, slug@, k);
    let config = configs@[k];
    let inst = instance.deep_view();
    let list = listing::listed(config, inst, *query, results@, replies@);
    let sorted = listing::newest_first(list);
    listing_laws::law_newest_first_keeps_entities(list);
    law_listing_counts_what_passes(config, inst, *query, results@, replies@);
    reveal_strlit("entities");
    reveal_strlit("total");
    assert("entities"@.len() == 8 && "total"@.len() == 5);
    let es = sorted.map_values(|m: Members| JsonView::Object(m));
    assert(r->Ok_0.model() == listing::listing(sorted));
    assert(items_under(r->Ok_0.model(), "entities"@) == es);
    assert forall|i: int| #![trigger results@[i]]
        0 <= i < results@.len() && passes(
            config,
            inst,
            *query,
            results@[i],
            read_for(replies@, i),
        ) implies es.contains(JsonView::Object(mapping::compact_entity_of(results@[i], config))) by {
        let m = mapping::compact_entity_of(results@[i], config);
        law_listed_is_what_passes(config, inst, *query, results@[i], read_for(replies@, i));
        assert(mapping::reply(replies@, i) == read_for(replies@, i));
        listing_laws::law_listing_is_exact(config, inst, *query, results@, replies@, m);
        lemma_same_members(list, sorted, m);
        let p = choose|p: int| 0 <= p < sorted.len() && sorted[p] == m;
        assert(es[p] == JsonView::Object(m));
    }
    assert forall|p: int| #![trigger es[p]] 0 <= p < es.len() implies is_of_a_result(
        es[p],
        config,
        inst,
        *query,
        results@,
        replies@,
    ) by {
        let m = sorted[p];
        assert(sorted.contains(m));
        lemma_same_members(list, sorted, m);
        listing_laws::law_listing_is_exact(config, inst, *query, results@, replies@, m);
        let i = choose|i: int| #![trigger results@[i]]
            0 <= i < results@.len() && listing::is_listed(
                config,
                inst,
                *query,
                results@[i],
                mapping::reply(replies@, i),
            ) && m == mapping::compact_entity_of(results@[i], config);
        assert(mapping::reply(replies@, i) == read_for(replies@, i));
        law_listed_is_what_passes(config, inst, *query, results@[i], read_for(replies@, i));
        assert(es[p] == JsonView::Object(m));
    }
    assert forall|p: int, q: int, a: Seq<char>, b: Seq<char>|
        #![trigger es[p], es[q], precedes(a, b)]
        0 <= p < q < es.len() && json_laws::has(es[p], "updated_at"@, JsonView::Text(a))
            && json_laws::has(es[q], "updated_at"@, JsonView::Text(b)) implies !precedes(a, b) by {
        assert(updated(sorted[q], b) && updated(sorted[p], a));
        law_later_update_comes_first(list, p, q, a, b);
    }
}

proof fn lemma_same_members(a: Seq<Members>, b: Seq<Members>, m: Members)
    requires
        a.to_multiset() == b.to_multiset(),
    ensures
        a.contains(m) <==> b.contains(m),
{
    a.to_multiset_ensures();
    b.to_multiset_ensures();
    assert(a.contains(m) <==> a.to_multiset().count(m) > 0);
    assert(b.contains(m) <==> b.to_multiset().count(m) > 0);
}

/// A search that failed lists nothing, and an unknown slug is not found.
pub proof fn law_nothing_to_list(
    configs: &Vec<EntityConfig>,
    instance: Option<&str>,
    slug: &str,
    query: &ListEntitiesQuery,
    results: Option<Vec<PdtSearchResult>>,
    replies: &Vec<Option<Vec<PdtRelation>>>,
    k: int,
    r: Result<Json, ApiError>,
)
    requires
        call_ensures(listing::list_entities, (configs, instance, slug, query, results, replies), r),
    ensures
        results is None && is_definition(configs@, slug@, k) ==> r is Ok && json_laws::has(
            r->Ok_0.model(),
            "entities"@,
            JsonView::List(Seq::empty()),
        ) && json_laws::has(
            r->Ok_0.model(),
            "total"@,
            JsonView::Number(JsonNumber::Unsigned(0)),
        ),
        (forall|j: int|
            0 <= j < configs@.len() ==> (#[trigger] configs@[j]).slug@ != slug@ && configs@[j].slug@
                != slug@.push('s')) ==> r is Err && is_refused(
            r->Err_0.deep_view(),
            404,
            "Unknown entity type: "@ + slug@,
        ),
{
    law_slug_names_the_first_definition(configs@, slug@, k);
    reveal_strlit("entities");
    reveal_strlit("total");
    assert("entities"@.len() == 8 && "total"@.len() == 5);
    assert(Seq::<Members>::empty().map_values(|m: Members| JsonView::Object(m)) =~= Seq::<
        JsonView,
    >::empty());
}

/// A request reads a URL, on behalf of a token, in an instance.
pub open spec fn reads(
    q: PdtRequest,
    url: Seq<char>,
    token: Option<&str>,
    instance: Option<&str>,
) -> bool {
    &&& q.method == Method::Get
    &&& q.url@ == url
    &&& q.bearer.deep_view() == token.deep_view()
    &&& q.instance_id.deep_view() == instance.deep_view()
    &&& q.body is None
}

/// A listing begins with a search for the kind's `type` tag, or for its slug where
/// it has no such tag, in the request's own instance.
pub proof fn law_listing_searches_for_the_kind(
    configs: &Vec<EntityConfig>,
    pdt: &PdtClient,
    instance: Option<&str>,
    slug: &str,
    token: Option<&str>,
    k: int,
    value: Seq<char>,
    r: Result<PdtRequest, ApiError>,
)
    requires
        call_ensures(listing::list_entities_start, (configs, pdt, instance, slug, token), r),
        is_definition(configs@, slug@, k),
        configs@[k].default_tags@.contains_key("type"@) ==> value
            == configs@[k].default_tags@["type"@]@,
        !configs@[k].default_tags@.contains_key("type"@) ==> value == configs@[k].slug@,
    ensures
        r is Ok,
        reads(
            r->Ok_0,
            pdt.base() + "/api/search?tag=type:"@ + value + "&limit=100"@,
            token,
            instance,
        ),
        r->Ok_0.reported_as is Some,
        r->Ok_0.reply == ReplyForm::SearchResults,
{
    law_slug_names_the_first_definition(configs@, slug@, k);
    reveal_strlit("/api/search?tag=type:");
    reveal_strlit("/api/search?tag=");
    reveal_strlit("type");
    reveal_strlit(":");
    assert("/api/search?tag=type:"@ =~= "/api/search?tag="@ + "type"@ + ":"@);
    assert(r->Ok_0.url@ =~= pdt.base() + "/api/search?tag=type:"@ + value + "&limit=100"@);
}

/// The relations of a search result are read exactly where it is of the kind and of
/// the instance, and a relation is asked for or the kind has relation fields.
pub proof fn law_listing_reads_the_relations_it_needs(
    config: &EntityConfig,
    pdt: &PdtClient,
    instance: Option<&str>,
    query: &ListEntitiesQuery,
    results: &Vec<PdtSearchResult>,
    token: Option<&str>,
    r: Vec<Option<PdtRequest>>,
    i: int,
)
    requires
        call_ensures(
            listing::list_relation_requests,
            (config, pdt, instance, query, results, token),
            r,
        ),
        0 <= i < results@.len(),
    ensures
        r@.len() == results@.len(),
        r@[i] is Some <==> (query.attached_to is Some || has_relation_field(
            config.fields.entries(),
        )) && (instance matches Some(agent) ==> found_first(results@[i].tags@, "agent"@, agent@))
            && (forall|c: Seq<char>| #[trigger]
            config.default_tags@.contains_key(c) ==> found_with(
                results@[i].tags@,
                c,
                config.default_tags@[c]@,
            )),
        r@[i] matches Some(q) ==> reads(
            q,
            pdt.base() + "/api/assets/"@ + results@[i].id@ + "/relations"@,
            token,
            instance,
        ),
{
    let tags = results@[i].tags@;
    assert(r@[i] == r@[i]);
    if let Some(agent) = instance {
        lemma_found(tags, "agent"@, agent@);
    }
    assert forall|c: Seq<char>| #[trigger] config.default_tags@.contains_key(c) implies (tags::pairs(
        tags,
    ).contains((c, config.default_tags@[c]@)) <==> found_with(
        tags,
        c,
        config.default_tags@[c]@,
    )) by {
        lemma_found(tags, c, config.default_tags@[c]@);
    }
    assert(entity_config::tags_match(config.default_tags@, tags::pairs(tags)) <==> forall|
        c: Seq<char>,
    | #[trigger]
        config.default_tags@.contains_key(c) ==> found_with(tags, c, config.default_tags@[c]@));
    law_relation_fields(*config, Seq::empty());
}

/// Reading an entity begins with reading the asset of its id, in the request's own
/// instance.
pub proof fn law_reading_asks_for_the_asset(
    configs: &Vec<EntityConfig>,
    pdt: &PdtClient,
    instance: Option<&str>,
    slug: &str,
    id: &str,
    token: Option<&str>,
    k: int,
    r: Result<PdtRequest, ApiError>,
)
    requires
        call_ensures(listing::get_entity_start, (configs, pdt, instance, slug, id, token), r),
        is_definition(configs@, slug@, k),
    ensures
        r is Ok,
        reads(r->Ok_0, pdt.base() + "/api/assets/"@ + id@, token, instance),
        r->Ok_0.reported_as is Some,
        r->Ok_0.reply == ReplyForm::Asset,
{
    law_slug_names_the_first_definition(configs@, slug@, k);
}

/// Every default tag of a kind is among the tags of an asset.
pub open spec fn has_every_default_tag(config: EntityConfig, asset: PdtAsset) -> bool {
    forall|c: Seq<char>| #[trigger]
        config.default_tags@.contains_key(c) ==> stored_with(
            asset.tags@,
            c,
            config.default_tags@[c]@,
        )
}

proof fn lemma_kind(config: EntityConfig, asset: PdtAsset)
    ensures
        entity_config::tags_match(config.default_tags@, tags::pairs(asset.tags@))
            <==> has_every_default_tag(config, asset),
{
    let tags = asset.tags@;
    assert forall|c: Seq<char>| #[trigger] config.default_tags@.contains_key(c) implies (tags::pairs(
        tags,
    ).contains((c, config.default_tags@[c]@)) <==> stored_with(
        tags,
        c,
        config.default_tags@[c]@,
    )) by {
        lemma_stored(tags, c, config.default_tags@[c]@);
    }
}

/// An asset that was read is refused exactly where it lacks a default tag of the
/// kind: nothing else of it is looked at.
pub proof fn law_reading_is_refused_for_the_tags_alone(
    config: EntityConfig,
    id: Seq<char>,
    fetched: Result<PdtAsset, String>,
)
    ensures
        listing::read_refusal(config, id, fetched) is None <==> fetched is Ok
            && has_every_default_tag(config, fetched->Ok_0),
        fetched matches Err(e) ==> is_refused(
            listing::read_refusal(config, id, fetched)->0,
            404,
            e@,
        ),
        fetched is Ok && !has_every_default_tag(config, fetched->Ok_0) ==> is_refused(
            listing::read_refusal(config, id, fetched)->0,
            404,
            "Asset "@ + id + " is not a "@ + config.name@,
        ),
{
    if let Ok(asset) = fetched {
        lemma_kind(config, asset);
    }
}

/// An asset that was read is taken as it is where it has every default tag of the
/// kind, and is not found otherwise.
pub proof fn law_asset_of_the_kind_is_taken(
    configs: &Vec<EntityConfig>,
    slug: &str,
    id: &str,
    fetched: Result<PdtAsset, String>,
    k: int,
    r: Result<PdtAsset, ApiError>,
)
    requires
        call_ensures(listing::get_entity_checked, (configs, slug, id, fetched), r),
        is_definition(configs@, slug@, k),
    ensures
        r is Ok <==> fetched is Ok && has_every_default_tag(configs@[k], fetched->Ok_0),
        r is Ok ==> r->Ok_0 == fetched->Ok_0,
        r is Err ==> r->Err_0.deep_view().status == 404,
{
    law_slug_names_the_first_definition(configs@, slug@, k);
    law_reading_is_refused_for_the_tags_alone(configs@[k], id@, fetched);
}

/// Reading answers the entity of the asset, with its relations, exactly where the
/// asset was read and has every default tag of the kind.
pub proof fn law_entity_of_the_kind_is_read(
    configs: &Vec<EntityConfig>,
    slug: &str,
    id: &str,
    fetched: Result<PdtAsset, String>,
    replies: &Vec<Option<Vec<PdtRelation>>>,
    k: int,
    r: Result<Json, ApiError>,
)
    requires
        call_ensures(listing::get_entity, (configs, slug, id, fetched, replies), r),
        is_definition(configs@, slug@, k),
    ensures
        r is Ok <==> fetched is Ok && has_every_default_tag(configs@[k], fetched->Ok_0),
        r is Ok ==> r->Ok_0.model() == JsonView::Object(
            mapping::related_entity(fetched->Ok_0, configs@[k], replies@),
        ),
        r is Err ==> r->Err_0.deep_view().status == 404,
{
    law_slug_names_the_first_definition(configs@, slug@, k);
    law_reading_is_refused_for_the_tags_alone(configs@[k], id@, fetched);
}

/// A key that a query gives a meaning of its own.
pub open spec fn is_filter_key(key: Seq<char>) -> bool {
    key == "status"@ || key == "attached_to"@
}

/// A known key is given at two positions.
pub open spec fn given_twice(pairs: Seq<(String, String)>, i: int, j: int) -> bool {
    0 <= i < j < pairs.len() && is_filter_key(pairs[j].0@) && pairs[i].0@ == pairs[j].0@
}

proof fn lemma_values(pairs: Seq<(String, String)>, key: Seq<char>)
    ensures
        listing::values_of(pairs, key).len() > 0 <==> exists|i: int|
            0 <= i < pairs.len() && (#[trigger] pairs[i]).0@ == key,
        forall|i: int| #![trigger pairs[i]]
            0 <= i < pairs.len() && pairs[i].0@ == key ==> listing::values_of(
                pairs,
                key,
            ).contains(pairs[i].1@),
        forall|v: Seq<char>|
            listing::values_of(pairs, key).contains(v) ==> exists|i: int|
                0 <= i < pairs.len() && (#[trigger] pairs[i]).0@ == key && pairs[i].1@ == v,
        (forall|i: int, j: int|
            0 <= i < j < pairs.len() && (#[trigger] pairs[i]).0@ == key ==> (
            #[trigger] pairs[j]).0@ != key) ==> listing::values_of(pairs, key).len() <= 1,
    decreases pairs.len(),
{
    if pairs.len() > 0 {
        let init = pairs.drop_last();
        let n = pairs.len() - 1;
        lemma_values(init, key);
        let before = listing::values_of(init, key);
        let all = listing::values_of(pairs, key);
        assert forall|i: int| 0 <= i < init.len() implies init[i] == #[trigger] pairs[i] by {}
        assert(pairs[n] == pairs.last());
        if pairs.last().0@ == key {
            assert(all[before.len() as int] == pairs[n].1@);
            assert forall|v: Seq<char>| before.contains(v) implies all.contains(v) by {
                let q = choose|q: int| 0 <= q < before.len() && before[q] == v;
                assert(all[q] == v);
            }
        }
        assert forall|i: int| #![trigger pairs[i]]
            0 <= i < pairs.len() && pairs[i].0@ == key implies all.contains(pairs[i].1@) by {
            if i < n {
                assert(init[i] == pairs[i]);
                assert(before.contains(pairs[i].1@));
            }
        }
        assert forall|v: Seq<char>| all.contains(v) implies exists|i: int|
            0 <= i < pairs.len() && (#[trigger] pairs[i]).0@ == key && pairs[i].1@ == v by {
            let q = choose|q: int| 0 <= q < all.len() && all[q] == v;
            if q < before.len() {
                assert(before[q] == v);
                assert(before.contains(v));
                let i = choose|i: int|
                    0 <= i < init.len() && (#[trigger] init[i]).0@ == key && init[i].1@ == v;
                assert(pairs[i].0@ == key);
            } else {
                assert(pairs[n].0@ == key);
            }
        }
        if all.len() > 0 {
            assert(all.contains(all[0]));
        }
        if exists|i: int| 0 <= i < pairs.len() && (#[trigger] pairs[i]).0@ == key {
            let i = choose|i: int| 0 <= i < pairs.len() && (#[trigger] pairs[i]).0@ == key;
            assert(all.contains(pairs[i].1@));
        }
        if forall|i: int, j: int|
            0 <= i < j < pairs.len() && (#[trigger] pairs[i]).0@ == key ==> (
            #[trigger] pairs[j]).0@ != key {
            assert forall|i: int, j: int|
                0 <= i < j < init.len() && (#[trigger] init[i]).0@ == key implies (
            #[trigger] init[j]).0@ != key by {
                assert(init[i] == pairs[i] && init[j] == pairs[j]);
            }
            if pairs.last().0@ == key && before.len() > 0 {
                let i = choose|i: int| 0 <= i < init.len() && (#[trigger] init[i]).0@ == key;
                assert(pairs[i].0@ == key);
                assert(pairs[n].0@ != key);
            }
        }
    }
}

proof fn lemma_repeated(pairs: Seq<(String, String)>)
    ensures
        listing::first_repeated(pairs) is None <==> forall|i: int, j: int|
            !#[trigger] given_twice(pairs, i, j),
        listing::first_repeated(pairs) matches Some(key) ==> exists|i: int, j: int| #[trigger]
            given_twice(pairs, i, j) && pairs[j].0@ == key && forall|a: int, b: int| #[trigger]
                given_twice(pairs, a, b) ==> j <= b,
    decreases pairs.len(),
{
    if pairs.len() > 0 {
        let init = pairs.drop_last();
        let n = pairs.len() - 1;
        let key = pairs.last().0@;
        lemma_repeated(init);
        lemma_values(init, key);
        assert forall|i: int| 0 <= i < init.len() implies init[i] == #[trigger] pairs[i] by {}
        assert forall|i: int, j: int| j < n implies given_twice(init, i, j) == #[trigger]
            given_twice(pairs, i, j) by {}
        if listing::first_repeated(init) is Some {
            let (i, j) = choose|i: int, j: int| #[trigger]
                given_twice(init, i, j) && init[j].0@ == listing::first_repeated(init)->0
                    && forall|a: int, b: int| #[trigger] given_twice(init, a, b) ==> j <= b;
            assert(given_twice(pairs, i, j));
            assert forall|a: int, b: int| #[trigger] given_twice(pairs, a, b) implies j <= b by {
                if b < n {
                    assert(given_twice(init, a, b));
                }
            }
        } else {
            assert forall|a: int, b: int| #[trigger] given_twice(pairs, a, b) implies b == n by {
                if b < n {
                    assert(given_twice(init, a, b));
                }
            }
            if is_filter_key(key) && listing::values_of(init, key).len() > 0 {
                let i = choose|i: int| 0 <= i < init.len() && (#[trigger] init[i]).0@ == key;
                assert(pairs[i].0@ == key);
                assert(given_twice(pairs, i, n));
            } else {
                assert forall|a: int, b: int| !#[trigger] given_twice(pairs, a, b) by {
                    if given_twice(pairs, a, b) {
                        assert(init[a] == pairs[a]);
                        assert(init[a].0@ == key);
                    }
                }
            }
        }
    }
}

proof fn lemma_tag_filters(pairs: Seq<(String, String)>)
    ensures
        listing::tag_filters(pairs) == listing::pair_views(pairs).filter(
            |p: (Seq<char>, Seq<char>)| !is_filter_key(p.0),
        ),
    decreases pairs.len(),
{
    reveal(Seq::filter);
    let wanted = |p: (Seq<char>, Seq<char>)| !is_filter_key(p.0);
    if pairs.len() == 0 {
        assert(listing::tag_filters(pairs) =~= listing::pair_views(pairs).filter(wanted));
    } else {
        let init = pairs.drop_last();
        lemma_tag_filters(init);
        assert(listing::pair_views(pairs).drop_last() =~= listing::pair_views(init));
        assert(listing::pair_views(pairs).last() == (pairs.last().0@, pairs.last().1@));
    }
}

/// Every pair of a query counts: those with a known key for that key, and all
/// others, in order, as tags.  A query is refused exactly where it gives a known
/// key twice, and for the key that is met again first.
pub proof fn law_every_pair_of_a_query_counts(
    pairs: Vec<(String, String)>,
    i: int,
    r: Result<ListEntitiesQuery, String>,
)
    requires
        call_ensures(listing::read_query, (pairs,), r),
    ensures
        r is Ok <==> forall|a: int, b: int| !#[trigger] given_twice(pairs@, a, b),
        r matches Err(key) ==> exists|a: int, b: int| #[trigger]
            given_twice(pairs@, a, b) && pairs@[b].0@ == key@ && forall|c: int, d: int| #[trigger]
                given_twice(pairs@, c, d) ==> b <= d,
        r is Ok && 0 <= i < pairs@.len() && pairs@[i].0@ == "status"@ ==> r->Ok_0.status is Some
            && r->Ok_0.status->0@ == pairs@[i].1@,
        r is Ok && 0 <= i < pairs@.len() && pairs@[i].0@ == "attached_to"@
            ==> r->Ok_0.attached_to is Some && r->Ok_0.attached_to->0@ == pairs@[i].1@,
        r is Ok && (forall|j: int| 0 <= j < pairs@.len() ==> (#[trigger] pairs@[j]).0@ != "status"@)
            ==> r->Ok_0.status is None,
        r is Ok && (forall|j: int|
            0 <= j < pairs@.len() ==> (#[trigger] pairs@[j]).0@ != "attached_to"@)
            ==> r->Ok_0.attached_to is None,
        r is Ok ==> r->Ok_0.tags@.map_values(|p: (String, String)| (p.0@, p.1@))
            == pairs@.map_values(|p: (String, String)| (p.0@, p.1@)).filter(
            |p: (Seq<char>, Seq<char>)| !is_filter_key(p.0),
        ),
{
    lemma_repeated(pairs@);
    lemma_tag_filters(pairs@);
    lemma_values(pairs@, "status"@);
    lemma_values(pairs@, "attached_to"@);
    if r is Ok {
        assert forall|a: int, b: int|
            0 <= a < b < pairs@.len() && (#[trigger] pairs@[a]).0@ == "status"@ implies (
        #[trigger] pairs@[b]).0@ != "status"@ by {
            assert(!given_twice(pairs@, a, b));
        }
        assert forall|a: int, b: int|
            0 <= a < b < pairs@.len() && (#[trigger] pairs@[a]).0@ == "attached_to"@ implies (
        #[trigger] pairs@[b]).0@ != "attached_to"@ by {
            assert(!given_twice(pairs@, a, b));
        }
        if 0 <= i < pairs@.len() && pairs@[i].0@ == "status"@ {
            let vs = listing::values_of(pairs@, "status"@);
            assert(vs.contains(pairs@[i].1@));
        }
        if 0 <= i < pairs@.len() && pairs@[i].0@ == "attached_to"@ {
            let vs = listing::values_of(pairs@, "attached_to"@);
            assert(vs.contains(pairs@[i].1@));
        }
    }
}

/// The definition that a slug names is the first with the slug or its plural, and a
/// slug that names none is answered with 404.
pub proof fn law_definition_is_found(
    configs: &Vec<EntityConfig>,
    slug: &str,
    r: Option<&EntityConfig>,
    f: Result<&EntityConfig, ApiError>,
    k: int,
)
    requires
        call_ensures(listing::get_entity_config, (configs, slug), r),
        call_ensures(listing::find_config, (configs, slug), f),
    ensures
        is_definition(configs@, slug@, k) ==> r is Some && *r->0 == configs@[k] && f is Ok
            && *f->Ok_0 == configs@[k],
        (forall|j: int|
            0 <= j < configs@.len() ==> (#[trigger] configs@[j]).slug@ != slug@
                && configs@[j].slug@ != slug@.push('s')) ==> r is None && f is Err && is_refused(
            f->Err_0.deep_view(),
            404,
            "Unknown entity type: "@ + slug@,
        ),
{
    law_slug_names_the_first_definition(configs@, slug@, k);
}

/// One text is before another exactly where it comes first in character order.
pub proof fn law_texts_are_told_apart_by_characters(a: &str, b: &str, r: bool)
    requires
        call_ensures(listing::text_before, (a, b), r),
    ensures
        r <==> precedes(a@, b@),
{
    law_order_is_by_characters(a@, b@);
}

/// The relations of an asset are read once for each relation field, all from the
/// asset itself, in the request's own instance.
pub proof fn law_relations_are_read_for_each_field(
    config: &EntityConfig,
    pdt: &PdtClient,
    instance: Option<&str>,
    asset_id: &str,
    token: Option<&str>,
    rs: Vec<PdtRequest>,
    i: int,
)
    requires
        call_ensures(listing::relation_requests, (config, pdt, instance, asset_id, token), rs),
    ensures
        rs@.len() == config.fields.entries().filter(
            |f: NamedField| f.1.field_type is Relation,
        ).len(),
        0 <= i < rs@.len() ==> reads(
            rs@[i],
            pdt.base() + "/api/assets/"@ + asset_id@ + "/relations"@,
            token,
            instance,
        ) && rs@[i].reply == ReplyForm::Relations && rs@[i].reported_as is Some,
{
    let a = |e: NamedField| e.1.field_type == FieldType::Relation;
    let b = |e: NamedField| e.1.field_type is Relation;
    assert(a =~= b);
    let wanted = listing::relation_reads(
        config.relations().len(),
        pdt.base(),
        instance.deep_view(),
        asset_id@,
        token.deep_view(),
    );
    assert(rs.deep_view() == wanted);
    assert(rs@.len() == wanted.len());
    if 0 <= i < rs@.len() {
        assert(rs.deep_view()[i] == rs@[i].deep_view());
        assert(rs@[i].deep_view() == wanted[i]);
        assert(rs@[i].url@ == rs@[i].deep_view().url);
    }
}

/// A search result counts exactly where every default tag of the kind is among its
/// tags and, in an instance, its first `agent` tag names the instance.
pub proof fn law_candidates_are_of_the_kind_and_the_instance(
    config: &EntityConfig,
    instance: Option<&str>,
    result: &PdtSearchResult,
    r: bool,
)
    requires
        call_ensures(listing::candidate, (config, instance, result), r),
    ensures
        r <==> (instance is Some ==> found_first(result.tags@, "agent"@, instance->0@)) && (forall|
            c: Seq<char>,
        | #[trigger]
            config.default_tags@.contains_key(c) ==> found_with(
                result.tags@,
                c,
                config.default_tags@[c]@,
            )),
{
    let p = tags::pairs(result.tags@);
    assert forall|i: int| 0 <= i < p.len() implies #[trigger] p[i] == (
        result.tags@[i].category@,
        result.tags@[i].value@,
    ) by {}
    assert forall|c: Seq<char>, v: Seq<char>| #[trigger] found_with(result.tags@, c, v)
        <==> p.contains((c, v)) by {
        if found_with(result.tags@, c, v) {
            let i = choose|i: int|
                0 <= i < result.tags@.len() && (#[trigger] result.tags@[i]).category@ == c
                    && result.tags@[i].value@ == v;
            assert(p[i] == (c, v));
        }
        if p.contains((c, v)) {
            let i = choose|i: int| 0 <= i < p.len() && p[i] == (c, v);
            assert(result.tags@[i].category@ == c);
        }
    }
    let all = forall|c: Seq<char>| #[trigger]
        config.default_tags@.contains_key(c) ==> found_with(
            result.tags@,
            c,
            config.default_tags@[c]@,
        );
    assert(entity_config::tags_match(config.default_tags@, p) <==> all) by {
        if all {
            assert forall|c: Seq<char>| #[trigger] config.default_tags@.contains_key(c) implies
                p.contains((c, config.default_tags@[c]@)) by {
                assert(found_with(result.tags@, c, config.default_tags@[c]@));
            }
        }
        if entity_config::tags_match(config.default_tags@, p) {
            assert forall|c: Seq<char>| #[trigger] config.default_tags@.contains_key(c) implies
                found_with(result.tags@, c, config.default_tags@[c]@) by {
                assert(p.contains((c, config.default_tags@[c]@)));
            }
        }
    }
    if let Some(agent) = instance {
        tags_laws::law_first_tag_counts(p, "agent"@, agent@);
        if found_first(result.tags@, "agent"@, agent@) {
            let i = choose|i: int| #![trigger result.tags@[i]]
                0 <= i < result.tags@.len() && result.tags@[i].category@ == "agent"@
                    && result.tags@[i].value@ == agent@ && forall|j: int|
                    0 <= j < i ==> (#[trigger] result.tags@[j]).category@ != "agent"@;
            assert(tags_laws::is_first(p, i, "agent"@, agent@));
        }
        if tags::first_value(p, "agent"@) == Some(agent@) {
            let i = choose|i: int| #[trigger] tags_laws::is_first(p, i, "agent"@, agent@);
            assert forall|j: int| 0 <= j < i implies (#[trigger] result.tags@[j]).category@
                != "agent"@ by {
                assert(p[j].0 == result.tags@[j].category@);
            }
            assert(result.tags@[i].category@ == "agent"@);
        }
    }
}

} // verus!
