//! Listing and reading entities.
use crate::api::{self, refuse, ApiError, NOT_FOUND};
use crate::entity_config::{self, EntityConfig, NamedField};
use crate::entity_handlers::mapping::{
    self, compact_entity_table, map_asset_to_entity_with_relations, reply_at,
};
use crate::json::{self, empty_object, text_member, with, Json, JsonNumber, JsonView, Members};
use crate::keyed::KeyedList;
use crate::pdt::client::{self, PdtClient, PdtRequest, ReplyForm, RequestView};
use crate::pdt::types::{PdtAsset, PdtRelation, PdtSearchResult};
use crate::tags::{self, has_tag};
use crate::text::{join2, join3, same, same_opt};
use vstd::prelude::*;
use vstd::string::*;

verus! {

/// What a listing is narrowed to.  Everything that is given narrows it.
pub struct ListEntitiesQuery {
    /// The status of the entities.
    pub status: Option<String>,
    /// What the entities are related to.
    pub attached_to: Option<String>,
    /// Tags of the entities, each a category and a value.
    pub tags: Vec<(String, String)>,
}

/// Query pairs as values.
pub open spec fn pair_views(s: Seq<(String, String)>) -> Seq<(Seq<char>, Seq<char>)> {
    s.map_values(|p: (String, String)| (p.0@, p.1@))
}

/// The values that a query gives for a key, in order.
pub open spec fn values_of(pairs: Seq<(String, String)>, key: Seq<char>) -> Seq<Seq<char>>
    decreases pairs.len(),
{
    if pairs.len() == 0 {
        Seq::empty()
    } else if pairs.last().0@ == key {
        values_of(pairs.drop_last(), key).push(pairs.last().1@)
    } else {
        values_of(pairs.drop_last(), key)
    }
}

/// The pairs of a query with keys that have no meaning of their own, in order.
pub open spec fn tag_filters(pairs: Seq<(String, String)>) -> Seq<(Seq<char>, Seq<char>)>
    decreases pairs.len(),
{
    if pairs.len() == 0 {
        Seq::empty()
    } else {
        let init = tag_filters(pairs.drop_last());
        if is_known_key(pairs.last().0@) {
            init
        } else {
            init.push((pairs.last().0@, pairs.last().1@))
        }
    }
}

/// A query gives a key a meaning of its own.
pub open spec fn is_known_key(key: Seq<char>) -> bool {
    key == "status"@ || key == "attached_to"@
}

/// The known key whose second occurrence comes first in a query.
pub open spec fn first_repeated(pairs: Seq<(String, String)>) -> Option<Seq<char>>
    decreases pairs.len(),
{
    if pairs.len() == 0 {
        None
    } else {
        let init = pairs.drop_last();
        let key = pairs.last().0@;
        if first_repeated(init) is Some {
            first_repeated(init)
        } else if is_known_key(key) && values_of(init, key).len() > 0 {
            Some(key)
        } else {
            None
        }
    }
}

/// The value among at most one.
pub open spec fn only_value(values: Seq<Seq<char>>) -> Option<Seq<char>> {
    if values.len() == 0 {
        None
    } else {
        Some(values[0])
    }
}

/// Reads the query of a listing from its pairs of a key and a value.
///
/// Known keys are taken out; every other pair is a filter by a tag.  A known key
/// that is given twice is an error, which names the first one met again.
pub fn read_query(pairs: Vec<(String, String)>) -> (r: Result<ListEntitiesQuery, String>)
    ensures
        match first_repeated(pairs@) {
            Some(key) => r is Err && r->Err_0@ == key,
            None => {
                &&& r is Ok
                &&& r->Ok_0.status.deep_view() == only_value(values_of(pairs@, "status"@))
                &&& r->Ok_0.attached_to.deep_view() == only_value(
                    values_of(pairs@, "attached_to"@),
                )
                &&& pair_views(r->Ok_0.tags@) == tag_filters(pairs@)
            },
        },
{
    let ghost all = pairs@;
    let mut query = ListEntitiesQuery { status: None, attached_to: None, tags: Vec::new() };
    let mut i: usize = 0;
    proof {
        reveal_strlit("status");
        reveal_strlit("attached_to");
        assert("status"@ != "attached_to"@) by {
            assert("status"@[0] == 's' && "attached_to"@[0] == 'a');
        }
        assert(pair_views(query.tags@) =~= tag_filters(all.take(0)));
    }
    while i < pairs.len()
        invariant
            i <= pairs.len(),
            all == pairs@,
            "status"@ != "attached_to"@,
            first_repeated(all.take(i as int)) is None,
            query.status.deep_view() == only_value(values_of(all.take(i as int), "status"@)),
            query.attached_to.deep_view() == only_value(
                values_of(all.take(i as int), "attached_to"@),
            ),
            pair_views(query.tags@) == tag_filters(all.take(i as int)),
        decreases pairs.len() - i,
    {
        let pair = &pairs[i];
        let ghost tags = query.tags@;
        proof {
            assert(all.take(i + 1).drop_last() =~= all.take(i as int));
            assert(all.take(i + 1).last() == *pair);
        }
        if same(pair.0.as_str(), "status") {
            if query.status.is_some() {
                proof {
                    lemma_first_repeated_stays(all, i + 1);
                }
                return Err("status".to_owned());
            }
            query.status = Some(pair.1.clone());
        } else if same(pair.0.as_str(), "attached_to") {
            if query.attached_to.is_some() {
                proof {
                    lemma_first_repeated_stays(all, i + 1);
                }
                return Err("attached_to".to_owned());
            }
            query.attached_to = Some(pair.1.clone());
        } else {
            query.tags.push((pair.0.clone(), pair.1.clone()));
            assert(pair_views(query.tags@) =~= pair_views(tags).push((pair.0@, pair.1@)));
        }
        i = i + 1;
    }
    assert(all.take(all.len() as int) =~= all);
    Ok(query)
}

/// What comes behind the first key met again makes no difference.
proof fn lemma_first_repeated_stays(pairs: Seq<(String, String)>, n: int)
    requires
        0 <= n <= pairs.len(),
        first_repeated(pairs.take(n)) is Some,
    ensures
        first_repeated(pairs) == first_repeated(pairs.take(n)),
    decreases pairs.len(),
{
    if n < pairs.len() {
        assert(pairs.drop_last().take(n) =~= pairs.take(n));
        lemma_first_repeated_stays(pairs.drop_last(), n);
    } else {
        assert(pairs.take(n) =~= pairs);
    }
}

/// The definition that a slug names: its own, or the one of its plural.
pub open spec fn config_for(configs: Seq<EntityConfig>, slug: Seq<char>) -> Option<EntityConfig>
    decreases configs.len(),
{
    if configs.len() == 0 {
        None
    } else if configs[0].slug@ == slug || configs[0].slug@ == slug + "s"@ {
        Some(configs[0])
    } else {
        config_for(configs.drop_first(), slug)
    }
}

/// The refusal of a slug that names no definition.
pub open spec fn unknown_entity(slug: Seq<char>) -> api::ApiErrorView {
    api::refusal(NOT_FOUND, "Unknown entity type: "@ + slug)
}

/// The definition that a slug names.
pub fn get_entity_config<'a>(configs: &'a Vec<EntityConfig>, slug: &str) -> (r: Option<
    &'a EntityConfig,
>)
    ensures
        r is Some == config_for(configs@, slug@) is Some,
        r matches Some(c) ==> *c == config_for(configs@, slug@)->0,
{
    let plural = join2(slug, "s");
    let mut i: usize = 0;
    assert(configs@.skip(0) =~= configs@);
    while i < configs.len()
        invariant
            i <= configs.len(),
            plural@ == slug@ + "s"@,
            config_for(configs@, slug@) == config_for(configs@.skip(i as int), slug@),
        decreases configs.len() - i,
    {
        assert(configs@.skip(i as int).drop_first() =~= configs@.skip(i + 1));
        assert(configs@.skip(i as int)[0] == configs@[i as int]);
        let c = &configs[i];
        if same(c.slug.as_str(), slug) || same(c.slug.as_str(), plural.as_str()) {
            return Some(c);
        }
        i = i + 1;
    }
    None
}

/// The definition that a slug names, or the refusal.
pub fn find_config<'a>(configs: &'a Vec<EntityConfig>, slug: &str) -> (r: Result<
    &'a EntityConfig,
    ApiError,
>)
    ensures
        r is Ok == config_for(configs@, slug@) is Some,
        r matches Ok(c) ==> *c == config_for(configs@, slug@)->0,
        r matches Err(e) ==> e.deep_view() == unknown_entity(slug@),
{
    match get_entity_config(configs, slug) {
        Some(c) => Ok(c),
        None => Err(refuse(NOT_FOUND, join2("Unknown entity type: ", slug).as_str())),
    }
}

/// A search result of this kind, and of the instance where one is given.
pub open spec fn is_candidate(
    config: EntityConfig,
    instance: Option<Seq<char>>,
    result: PdtSearchResult,
) -> bool {
    &&& instance is Some ==> tags::first_value(tags::pairs(result.tags@), "agent"@) == instance
    &&& entity_config::tags_match(config.default_tags@, tags::pairs(result.tags@))
}

/// Whether a search result is of this kind, and of the instance where one is given.
pub fn candidate(config: &EntityConfig, instance: Option<&str>, result: &PdtSearchResult) -> (r:
    bool)
    ensures
        r == is_candidate(*config, instance.deep_view(), *result),
{
    if let Some(agent) = instance {
        if !same_opt(result.get_tag("agent"), agent) {
            return false;
        }
    }
    config.tags_match(result.tags.as_slice())
}

/// A relation field has this type.
pub open spec fn is_relation_type(fields: Seq<NamedField>, t: Seq<char>) -> bool {
    exists|i: int|
        0 <= i < fields.len() && (#[trigger] fields[i]).1.relation_type.deep_view() == Some(t)
}

/// A relation goes out from the asset to the target, of the type of a relation
/// field.
pub open spec fn is_attached(
    relations: Seq<PdtRelation>,
    asset_id: Seq<char>,
    target: Seq<char>,
    fields: Seq<NamedField>,
) -> bool {
    exists|i: int| #![trigger relations[i]]
        0 <= i < relations.len() && relations[i].from_asset_id@ == asset_id
            && relations[i].to_asset_id@ == target && is_relation_type(
            fields,
            relations[i].relation_type@,
        )
}

/// A relation goes out from the asset.
pub open spec fn has_outgoing(relations: Seq<PdtRelation>, asset_id: Seq<char>) -> bool {
    exists|i: int|
        0 <= i < relations.len() && (#[trigger] relations[i]).from_asset_id@ == asset_id
}

fn relation_type_matches(config: &EntityConfig, t: &str) -> (r: bool)
    ensures
        r == is_relation_type(config.relations(), t@),
{
    let fields = config.relation_fields();
    let ghost all = config.relations();
    let mut i: usize = 0;
    while i < fields.len()
        invariant
            i <= fields.len(),
            all == config.relations(),
            all == entity_config::named_fields(fields@),
            forall|j: int|
                0 <= j < i ==> (#[trigger] all[j]).1.relation_type.deep_view() != Some(t@),
        decreases fields.len() - i,
    {
        let field = fields[i].1;
        assert(all[i as int].1 == *field);
        if same_opt(entity_config::as_text(&field.relation_type), t) {
            return true;
        }
        i = i + 1;
    }
    false
}

fn attached(relations: &Vec<PdtRelation>, asset_id: &str, target: &str, config: &EntityConfig) -> (r:
    bool)
    ensures
        r == is_attached(relations@, asset_id@, target@, config.relations()),
{
    let mut i: usize = 0;
    while i < relations.len()
        invariant
            i <= relations.len(),
            forall|j: int| #![trigger relations@[j]]
                0 <= j < i ==> !(relations@[j].from_asset_id@ == asset_id@
                    && relations@[j].to_asset_id@ == target@ && is_relation_type(
                    config.relations(),
                    relations@[j].relation_type@,
                )),
        decreases relations.len() - i,
    {
        let rel = &relations[i];
        if same(rel.from_asset_id.as_str(), asset_id) && same(rel.to_asset_id.as_str(), target)
            && relation_type_matches(config, rel.relation_type.as_str()) {
            return true;
        }
        i = i + 1;
    }
    false
}

fn outgoing(relations: &Vec<PdtRelation>, asset_id: &str) -> (r: bool)
    ensures
        r == has_outgoing(relations@, asset_id@),
{
    let mut i: usize = 0;
    while i < relations.len()
        invariant
            i <= relations.len(),
            forall|j: int|
                0 <= j < i ==> (#[trigger] relations@[j]).from_asset_id@ != asset_id@,
        decreases relations.len() - i,
    {
        if same(relations[i].from_asset_id.as_str(), asset_id) {
            return true;
        }
        i = i + 1;
    }
    false
}

/// Whether a listing looks at the relations of its candidates: where it is
/// narrowed by a relation, and where the kind has relation fields, since an entity
/// of such a kind that is related to nothing is left out.
pub open spec fn looks_at_relations(config: EntityConfig, query: ListEntitiesQuery) -> bool {
    query.attached_to is Some || config.relations().len() > 0
}

/// Every tag that is asked for is among the tags.
pub open spec fn has_tags(wanted: Seq<(String, String)>, tags: Seq<tags::TagPair>) -> bool {
    forall|i: int| #![trigger wanted[i]]
        0 <= i < wanted.len() ==> tags.contains((wanted[i].0@, wanted[i].1@))
}

fn carries(result: &PdtSearchResult, wanted: &Vec<(String, String)>) -> (r: bool)
    ensures
        r == has_tags(wanted@, tags::pairs(result.tags@)),
{
    let mut i: usize = 0;
    while i < wanted.len()
        invariant
            i <= wanted.len(),
            forall|j: int| #![trigger wanted@[j]]
                0 <= j < i ==> tags::pairs(result.tags@).contains(
                    (wanted@[j].0@, wanted@[j].1@),
                ),
        decreases wanted.len() - i,
    {
        let w = &wanted[i];
        if !has_tag(result.tags.as_slice(), w.0.as_str(), w.1.as_str()) {
            assert(*w == wanted@[i as int]);
            return false;
        }
        i = i + 1;
    }
    true
}

/// A search result is listed: it is of the kind and the instance, and passes every
/// filter.
pub open spec fn is_listed(
    config: EntityConfig,
    instance: Option<Seq<char>>,
    query: ListEntitiesQuery,
    result: PdtSearchResult,
    relations: Option<Seq<PdtRelation>>,
) -> bool {
    &&& is_candidate(config, instance, result)
    &&& match query.attached_to {
        Some(target) => relations is Some && is_attached(
            relations->0,
            result.id@,
            target@,
            config.relations(),
        ),
        None => config.relations().len() > 0 ==> relations is Some && has_outgoing(
            relations->0,
            result.id@,
        ),
    }
    &&& query.status matches Some(status) ==> json::text_member_of(
        mapping::compact_entity_of(result, config),
        "status"@,
    ) == Some(status@)
    &&& has_tags(query.tags@, tags::pairs(result.tags@))
}

/// The listed entities, in the order of the search results.
pub open spec fn listed(
    config: EntityConfig,
    instance: Option<Seq<char>>,
    query: ListEntitiesQuery,
    results: Seq<PdtSearchResult>,
    replies: Seq<Option<Vec<PdtRelation>>>,
) -> Seq<Members>
    decreases results.len(),
{
    if results.len() == 0 {
        Seq::empty()
    } else {
        let init = listed(config, instance, query, results.drop_last(), replies);
        let last = results.last();
        if is_listed(config, instance, query, last, mapping::reply(replies, results.len() - 1)) {
            init.push(mapping::compact_entity_of(last, config))
        } else {
            init
        }
    }
}

/// The time by which entities are sorted: the text under `updated_at`, or the
/// empty text.
pub open spec fn time_of(m: Members) -> Seq<char> {
    match json::text_member_of(m, "updated_at"@) {
        Some(t) => t,
        None => Seq::empty(),
    }
}

/// The order of texts: by the first character in which they differ, and a text
/// before every longer one that it begins.
pub open spec fn before(a: Seq<char>, b: Seq<char>) -> bool
    decreases a.len(),
{
    if b.len() == 0 {
        false
    } else if a.len() == 0 {
        true
    } else if a[0] != b[0] {
        (a[0] as int) < (b[0] as int)
    } else {
        before(a.drop_first(), b.drop_first())
    }
}

/// Where an entity of the given time goes among entities that are sorted: behind
/// every one that is not older.
pub open spec fn slot(sorted: Seq<Members>, time: Seq<char>) -> int
    decreases sorted.len(),
{
    if sorted.len() > 0 && before(time_of(sorted.last()), time) {
        slot(sorted.drop_last(), time)
    } else {
        sorted.len() as int
    }
}

/// The entities sorted by their time, the latest first, those of one time in the
/// order in which they came.
pub open spec fn newest_first(s: Seq<Members>) -> Seq<Members>
    decreases s.len(),
{
    if s.len() == 0 {
        s
    } else {
        let init = newest_first(s.drop_last());
        init.insert(slot(init, time_of(s.last())), s.last())
    }
}

/// The tables as values.
pub open spec fn tables(s: Seq<KeyedList<Json>>) -> Seq<Members> {
    s.map_values(|t: KeyedList<Json>| json::members(t))
}

/// The answer to a listing.
pub open spec fn listing(entities: Seq<Members>) -> JsonView {
    JsonView::Object(
        Map::empty().insert(
            "entities"@,
            JsonView::List(entities.map_values(|m: Members| JsonView::Object(m))),
        ).insert("total"@, JsonView::Number(JsonNumber::Unsigned(entities.len() as u64))),
    )
}

/// Whether one text is before another.
pub fn text_before(a: &str, b: &str) -> (r: bool)
    ensures
        r == before(a@, b@),
{
    let na: usize = a.unicode_len();
    let nb: usize = b.unicode_len();
    let mut i: usize = 0;
    assert(a@.skip(0) =~= a@);
    assert(b@.skip(0) =~= b@);
    while i < na && i < nb
        invariant
            i <= na,
            i <= nb,
            na == a@.len(),
            nb == b@.len(),
            before(a@, b@) == before(a@.skip(i as int), b@.skip(i as int)),
        decreases na - i,
    {
        let x = a.get_char(i);
        let y = b.get_char(i);
        proof {
            assert(a@.skip(i as int)[0] == x);
            assert(b@.skip(i as int)[0] == y);
            assert(a@.skip(i as int).drop_first() =~= a@.skip(i + 1));
            assert(b@.skip(i as int).drop_first() =~= b@.skip(i + 1));
        }
        if x != y {
            return (x as u32) < (y as u32);
        }
        i = i + 1;
    }
    i < nb
}

/// The time by which an entity is sorted.
fn table_time(t: &KeyedList<Json>) -> (r: &str)
    ensures
        r@ == time_of(json::members(*t)),
{
    match text_member(t, "updated_at") {
        Some(s) => s,
        None => {
            proof {
                reveal_strlit("");
                assert(""@ =~= Seq::<char>::empty());
            }
            ""
        },
    }
}

/// Puts an entity where it belongs among sorted ones.
fn insert_newest_first(sorted: &mut Vec<KeyedList<Json>>, table: KeyedList<Json>)
    ensures
        tables(final(sorted)@) == tables(old(sorted)@).insert(
            slot(tables(old(sorted)@), time_of(json::members(table))),
            json::members(table),
        ),
{
    let ghost all = tables(sorted@);
    let ghost time = time_of(json::members(table));
    let mut p: usize = sorted.len();
    assert(all.take(all.len() as int) =~= all);
    while p > 0 && text_before(table_time(&sorted[p - 1]), table_time(&table))
        invariant
            p <= sorted.len(),
            all == tables(sorted@),
            time == time_of(json::members(table)),
            slot(all, time) == slot(all.take(p as int), time),
        decreases p,
    {
        proof {
            assert(all.take(p as int).drop_last() =~= all.take(p - 1));
            assert(all.take(p as int).last() == all[p - 1]);
        }
        p = p - 1;
    }
    proof {
        if p > 0 {
            assert(all.take(p as int).last() == all[p - 1]);
        }
    }
    let ghost value = json::members(table);
    sorted.insert(p, table);
    assert(tables(sorted@) =~= all.insert(p as int, value));
}

fn listed_now(
    config: &EntityConfig,
    instance: Option<&str>,
    query: &ListEntitiesQuery,
    result: &PdtSearchResult,
    relations: Option<&Vec<PdtRelation>>,
    table: &KeyedList<Json>,
) -> (r: bool)
    requires
        json::members(*table) == mapping::compact_entity_of(*result, *config),
    ensures
        r == is_listed(
            *config,
            instance.deep_view(),
            *query,
            *result,
            (match relations {
                Some(v) => Some(v@),
                None => None,
            }),
        ),
{
    if !candidate(config, instance, result) || !carries(result, &query.tags) {
        return false;
    }
    if let Some(status) = &query.status {
        if !same_opt(text_member(table, "status"), status.as_str()) {
            return false;
        }
    }
    match &query.attached_to {
        Some(target) => match relations {
            Some(v) => attached(v, result.id.as_str(), target.as_str(), config),
            None => false,
        },
        None => {
            let fields = config.relation_fields();
            assert(config.relations().len() == fields@.len());
            if fields.len() > 0 {
                match relations {
                    Some(v) => outgoing(v, result.id.as_str()),
                    None => false,
                }
            } else {
                true
            }
        },
    }
}

/// The search that a listing begins with.
pub fn list_entities_start(
    configs: &Vec<EntityConfig>,
    pdt: &PdtClient,
    instance: Option<&str>,
    slug: &str,
    token: Option<&str>,
) -> (r: Result<PdtRequest, ApiError>)
    ensures
        match config_for(configs@, slug@) {
            Some(config) => r is Ok && r->Ok_0.deep_view() == client::checked_get(
                client::search_url(pdt.base(), "type"@, config.search_value()),
                token.deep_view(),
                instance.deep_view(),
                "search"@,
                ReplyForm::SearchResults,
            ),
            None => r is Err && r->Err_0.deep_view() == unknown_entity(slug@),
        },
{
    let config = match find_config(configs, slug) {
        Ok(c) => c,
        Err(e) => {
            return Err(e);
        },
    };
    let value = match config.type_tag() {
        Some(t) => t,
        None => config.slug.as_str(),
    };
    Ok(pdt.for_instance(instance).search_by_tag("type", value, token))
}

/// The requests for relations that a listing needs, one place for each search
/// result: a request where the result is a candidate and relations are looked at.
pub fn list_relation_requests(
    config: &EntityConfig,
    pdt: &PdtClient,
    instance: Option<&str>,
    query: &ListEntitiesQuery,
    results: &Vec<PdtSearchResult>,
    token: Option<&str>,
) -> (r: Vec<Option<PdtRequest>>)
    ensures
        r@.len() == results@.len(),
        forall|i: int| #![trigger r@[i]]
            0 <= i < results@.len() ==> {
                let wanted = looks_at_relations(*config, *query) && is_candidate(
                    *config,
                    instance.deep_view(),
                    results@[i],
                );
                &&& r@[i] is Some == wanted
                &&& wanted ==> r@[i]->0.deep_view() == client::checked_get(
                    client::asset_url(pdt.base(), results@[i].id@) + "/relations"@,
                    token.deep_view(),
                    instance.deep_view(),
                    "get_relations"@,
                    ReplyForm::Relations,
                )
            },
{
    let fields = config.relation_fields();
    assert(config.relations().len() == fields@.len());
    let client = pdt.for_instance(instance);
    let looked_at = query.attached_to.is_some() || fields.len() > 0;
    let mut r: Vec<Option<PdtRequest>> = Vec::new();
    let mut i: usize = 0;
    while i < results.len()
        invariant
            i <= results.len(),
            r@.len() == i,
            client.base() == pdt.base(),
            client.instance() == instance.deep_view(),
            looked_at == looks_at_relations(*config, *query),
            forall|j: int| #![trigger r@[j]]
                0 <= j < i ==> {
                    let wanted = looks_at_relations(*config, *query) && is_candidate(
                        *config,
                        instance.deep_view(),
                        results@[j],
                    );
                    &&& r@[j] is Some == wanted
                    &&& wanted ==> r@[j]->0.deep_view() == client::checked_get(
                        client::asset_url(pdt.base(), results@[j].id@) + "/relations"@,
                        token.deep_view(),
                        instance.deep_view(),
                        "get_relations"@,
                        ReplyForm::Relations,
                    )
                },
        decreases results.len() - i,
    {
        let result = &results[i];
        if looked_at && candidate(config, instance, result) {
            r.push(Some(client.get_relations(result.id.as_str(), None, token)));
        } else {
            r.push(None);
        }
        i = i + 1;
    }
    r
}

/// The search results that came back: none where the search failed.
pub open spec fn found(results: Option<Vec<PdtSearchResult>>) -> Seq<PdtSearchResult> {
    match results {
        Some(v) => v@,
        None => Seq::empty(),
    }
}

/// Lists entities.
///
/// `results` are the search results, where the search succeeded; `replies` holds
/// for each the relations that were read for it.  The entities come sorted by the
/// time of their last change, the latest first.
pub fn list_entities(
    configs: &Vec<EntityConfig>,
    instance: Option<&str>,
    slug: &str,
    query: &ListEntitiesQuery,
    results: Option<Vec<PdtSearchResult>>,
    replies: &Vec<Option<Vec<PdtRelation>>>,
) -> (r: Result<Json, ApiError>)
    ensures
        match config_for(configs@, slug@) {
            Some(config) => r is Ok && r->Ok_0.model() == listing(
                newest_first(
                    listed(config, instance.deep_view(), *query, found(results), replies@),
                ),
            ),
            None => r is Err && r->Err_0.deep_view() == unknown_entity(slug@),
        },
{
    let config = match find_config(configs, slug) {
        Ok(c) => c,
        Err(e) => {
            return Err(e);
        },
    };
    let ghost all = found(results);
    let results = match results {
        Some(v) => v,
        None => Vec::new(),
    };
    let mut sorted: Vec<KeyedList<Json>> = Vec::new();
    let mut i: usize = 0;
    assert(tables(sorted@) =~= newest_first(
        listed(*config, instance.deep_view(), *query, all.take(0), replies@),
    ));
    while i < results.len()
        invariant
            i <= results.len(),
            all == results@,
            tables(sorted@) == newest_first(
                listed(*config, instance.deep_view(), *query, all.take(i as int), replies@),
            ),
        decreases results.len() - i,
    {
        let result = &results[i];
        let table = compact_entity_table(result, config);
        let ghost before_this = listed(
            *config,
            instance.deep_view(),
            *query,
            all.take(i as int),
            replies@,
        );
        proof {
            assert(all.take(i + 1).drop_last() =~= all.take(i as int));
            assert(all.take(i + 1).last() == *result);
            let m = json::members(table);
            assert(before_this.push(m).drop_last() =~= before_this);
        }
        if listed_now(config, instance, query, result, reply_at(replies, i), &table) {
            insert_newest_first(&mut sorted, table);
        }
        i = i + 1;
    }
    assert(all.take(all.len() as int) =~= all);
    let total: u64 = sorted.len() as u64;
    let list = object_list(sorted);
    let o = with(empty_object(), "entities", list);
    let o = with(o, "total", Json::Number(JsonNumber::Unsigned(total)));
    Ok(Json::Object(o))
}

/// Tables as a JSON list.
pub fn object_list(s: Vec<KeyedList<Json>>) -> (r: Json)
    ensures
        r.model() == JsonView::List(tables(s@).map_values(|m: Members| JsonView::Object(m))),
{
    let ghost all = s@;
    let mut list: Vec<Json> = Vec::new();
    for t in it: s.into_iter()
        invariant
            it.seq() == all,
            list@.len() == it.index(),
            forall|j: int|
                0 <= j < it.index() ==> (#[trigger] list@[j]).model() == JsonView::Object(
                    json::members(all[j]),
                ),
    {
        list.push(Json::Object(t));
    }
    let r = Json::List(list);
    assert(r.model()->List_0 =~= tables(all).map_values(|m: Members| JsonView::Object(m)));
    r
}

/// The request that reading an entity begins with.
pub fn get_entity_start(
    configs: &Vec<EntityConfig>,
    pdt: &PdtClient,
    instance: Option<&str>,
    slug: &str,
    id: &str,
    token: Option<&str>,
) -> (r: Result<PdtRequest, ApiError>)
    ensures
        match config_for(configs@, slug@) {
            Some(_) => r is Ok && r->Ok_0.deep_view() == client::checked_get(
                client::asset_url(pdt.base(), id@),
                token.deep_view(),
                instance.deep_view(),
                "get_asset"@,
                ReplyForm::Asset,
            ),
            None => r is Err && r->Err_0.deep_view() == unknown_entity(slug@),
        },
{
    match find_config(configs, slug) {
        Ok(_) => Ok(pdt.for_instance(instance).get_asset(id, token)),
        Err(e) => Err(e),
    }
}

/// The requests for the relations of an asset, one for each relation field.
pub open spec fn relation_reads(
    n: nat,
    base: Seq<char>,
    instance: Option<Seq<char>>,
    asset_id: Seq<char>,
    token: Option<Seq<char>>,
) -> Seq<RequestView> {
    Seq::new(
        n,
        |i: int|
            client::checked_get(
                client::asset_url(base, asset_id) + "/relations"@,
                token,
                instance,
                "get_relations"@,
                ReplyForm::Relations,
            ),
    )
}

/// The requests for the relations of an asset, one for each relation field.
pub fn relation_requests(
    config: &EntityConfig,
    pdt: &PdtClient,
    instance: Option<&str>,
    asset_id: &str,
    token: Option<&str>,
) -> (r: Vec<PdtRequest>)
    ensures
        r.deep_view() == relation_reads(
            config.relations().len(),
            pdt.base(),
            instance.deep_view(),
            asset_id@,
            token.deep_view(),
        ),
{
    let fields = config.relation_fields();
    assert(config.relations().len() == fields@.len());
    let ghost wanted = relation_reads(
        config.relations().len(),
        pdt.base(),
        instance.deep_view(),
        asset_id@,
        token.deep_view(),
    );
    let client = pdt.for_instance(instance);
    let mut r: Vec<PdtRequest> = Vec::new();
    let mut i: usize = 0;
    while i < fields.len()
        invariant
            i <= fields.len(),
            client.base() == pdt.base(),
            client.instance() == instance.deep_view(),
            r@.len() == i,
            wanted.len() == fields.len(),
            wanted == relation_reads(
                config.relations().len(),
                pdt.base(),
                instance.deep_view(),
                asset_id@,
                token.deep_view(),
            ),
            forall|j: int| 0 <= j < i ==> (#[trigger] r@[j]).deep_view() == wanted[j],
        decreases fields.len() - i,
    {
        r.push(client.get_relations(asset_id, None, token));
        i = i + 1;
    }
    assert(r.deep_view() =~= wanted);
    r
}

/// What an asset that was read comes to, before its relations are read: a refusal
/// where it could not be read or is of another kind.
pub open spec fn read_refusal(
    config: EntityConfig,
    id: Seq<char>,
    fetched: Result<PdtAsset, String>,
) -> Option<api::ApiErrorView> {
    match fetched {
        Err(e) => Some(api::refusal(NOT_FOUND, e@)),
        Ok(asset) => if entity_config::tags_match(
            config.default_tags@,
            tags::pairs(asset.tags@),
        ) {
            None
        } else {
            Some(
                api::refusal(
                    NOT_FOUND,
                    "Asset "@ + id + " is not a "@ + config.name@,
                ),
            )
        },
    }
}

/// Takes an asset that was read as an entity of a kind.
///
/// An asset of another kind is not found: what is asked for as a semantic memory
/// must be one.
pub fn get_entity_checked(
    configs: &Vec<EntityConfig>,
    slug: &str,
    id: &str,
    fetched: Result<PdtAsset, String>,
) -> (r: Result<PdtAsset, ApiError>)
    ensures
        match config_for(configs@, slug@) {
            Some(config) => match read_refusal(config, id@, fetched) {
                Some(e) => r is Err && r->Err_0.deep_view() == e,
                None => r is Ok && r->Ok_0 == fetched->Ok_0,
            },
            None => r is Err && r->Err_0.deep_view() == unknown_entity(slug@),
        },
{
    let config = match find_config(configs, slug) {
        Ok(c) => c,
        Err(e) => {
            return Err(e);
        },
    };
    match fetched {
        Err(e) => Err(refuse(NOT_FOUND, e.as_str())),
        Ok(asset) => {
            if config.tags_match(asset.tags.as_slice()) {
                Ok(asset)
            } else {
                Err(
                    refuse(
                        NOT_FOUND,
                        join3("Asset ", id, " is not a ").concat(config.name.as_str()).as_str(),
                    ),
                )
            }
        },
    }
}

/// Reads an entity.
///
/// `fetched` is the asset as it was read, `replies` the relations that were read
/// for each relation field.
pub fn get_entity(
    configs: &Vec<EntityConfig>,
    slug: &str,
    id: &str,
    fetched: Result<PdtAsset, String>,
    replies: &Vec<Option<Vec<PdtRelation>>>,
) -> (r: Result<Json, ApiError>)
    ensures
        match config_for(configs@, slug@) {
            Some(config) => match read_refusal(config, id@, fetched) {
                Some(e) => r is Err && r->Err_0.deep_view() == e,
                None => r is Ok && r->Ok_0.model() == JsonView::Object(
                    mapping::related_entity(fetched->Ok_0, config, replies@),
                ),
            },
            None => r is Err && r->Err_0.deep_view() == unknown_entity(slug@),
        },
{
    match get_entity_checked(configs, slug, id, fetched) {
        Err(e) => Err(e),
        Ok(asset) => match find_config(configs, slug) {
            Ok(config) => Ok(map_asset_to_entity_with_relations(&asset, config, replies)),
            Err(e) => Err(e),
        },
    }
}

} // verus!
