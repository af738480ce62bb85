//! What holds of every entity that is made from an asset.
use crate::entity_config::{EntityConfig, FieldConfig, NamedField};
use crate::entity_handlers::create;
use crate::entity_handlers::listing;
use crate::entity_handlers::mapping::{self, PlaceView, Stored};
use crate::entity_handlers::routes;
use crate::json::{self, JsonView, Members};
use crate::pdt::types::{PdtAsset, PdtRelation, PdtSearchResult};
use crate::tags;
use vstd::prelude::*;

verus! {

/// Every entity has an `id`: its own, unless a field of that name has a value.
pub proof fn law_entity_has_an_id(
    s: Stored,
    fields: Map<Seq<char>, FieldConfig>,
    prefix: Seq<char>,
)
    ensures
        mapping::entity(s, fields, prefix).contains_key("id"@),
        !fields.contains_key("id"@) ==> mapping::entity(s, fields, prefix)["id"@]
            == JsonView::Text(s.id),
{
}

/// An entity shows nothing but its id and the fields of its kind.
pub proof fn law_entity_shows_only_its_fields(
    s: Stored,
    fields: Map<Seq<char>, FieldConfig>,
    prefix: Seq<char>,
    name: Seq<char>,
)
    requires
        mapping::entity(s, fields, prefix).contains_key(name),
    ensures
        name == "id"@ || fields.contains_key(name),
{
}

/// A search result shows of a field what the asset shows, for every field that is
/// kept neither in the content, nor in the metadata, nor in the time of creation.
pub proof fn law_search_results_agree_with_assets(
    asset: PdtAsset,
    result: PdtSearchResult,
    name: Seq<char>,
    p: PlaceView,
    prefix: Seq<char>,
)
    requires
        asset.title@ == result.title@,
        asset.updated_at@ == result.updated_at@,
        tags::pairs(asset.tags@) == tags::pairs(result.tags@),
        p !is Content,
        p !is Metadata,
        p !is CreatedAt,
    ensures
        mapping::field_value(mapping::stored(asset), name, p, prefix) == mapping::field_value(
            mapping::stored_compact(result),
            name,
            p,
            prefix,
        ),
{
}

/// A relation field shows where a relation of its type leads that goes out from
/// the asset; it shows nothing exactly where there is no such relation.
pub proof fn law_related_goes_out(
    relations: Seq<PdtRelation>,
    asset_id: Seq<char>,
    relation_type: Seq<char>,
)
    ensures
        mapping::related(relations, asset_id, relation_type) matches Some(id) ==> exists|i: int|
            #![trigger relations[i]]
            0 <= i < relations.len() && relations[i].from_asset_id@ == asset_id
                && relations[i].relation_type@ == relation_type && relations[i].to_asset_id@ == id,
        mapping::related(relations, asset_id, relation_type) is None <==> forall|i: int|
            #![trigger relations[i]]
            0 <= i < relations.len() ==> !(relations[i].from_asset_id@ == asset_id
                && relations[i].relation_type@ == relation_type),
    decreases relations.len(),
{
    if relations.len() > 0 {
        let rest = relations.drop_first();
        law_related_goes_out(rest, asset_id, relation_type);
        assert forall|i: int| 0 <= i < rest.len() implies rest[i] == #[trigger] relations[i
            + 1] by {}
        if relations[0].from_asset_id@ == asset_id && relations[0].relation_type@
            == relation_type {
        } else {
            if let Some(id) = mapping::related(rest, asset_id, relation_type) {
                let i = choose|i: int|
                    #![trigger rest[i]]
                    0 <= i < rest.len() && rest[i].from_asset_id@ == asset_id
                        && rest[i].relation_type@ == relation_type && rest[i].to_asset_id@ == id;
                assert(relations[i + 1] == rest[i]);
            } else {
                assert forall|i: int|
                    #![trigger relations[i]]
                    0 <= i < relations.len() implies !(relations[i].from_asset_id@ == asset_id
                    && relations[i].relation_type@ == relation_type) by {
                    if i > 0 {
                        assert(rest[i - 1] == relations[i]);
                    }
                }
            }
        }
    }
}

/// Where a relation field leads, by what was read for it.
pub open spec fn leads_to(
    field: NamedField,
    relations: Option<Seq<PdtRelation>>,
    asset_id: Seq<char>,
) -> Option<Seq<char>> {
    match relations {
        Some(r) => mapping::related(r, asset_id, mapping::relation_type(field.1)),
        None => None,
    }
}

/// Where every relation field leads to what the creation gave for it, the entity
/// that is read is the entity that the creation answered with.
pub proof fn law_create_answers_what_is_read(
    m: Members,
    fields: Seq<NamedField>,
    body: Members,
    replies: Seq<Option<Vec<PdtRelation>>>,
    asset_id: Seq<char>,
)
    requires
        forall|i: int|
            0 <= i < fields.len() ==> leads_to(
                #[trigger] fields[i],
                mapping::reply(replies, i),
                asset_id,
            ) == json::text_member_of(body, fields[i].0@),
    ensures
        mapping::with_relations(m, fields, replies, asset_id) == create::with_targets(
            m,
            create::new_targets(fields, body),
        ),
    decreases fields.len(),
{
    if fields.len() > 0 {
        let init = fields.drop_last();
        assert forall|i: int| 0 <= i < init.len() implies leads_to(
            #[trigger] init[i],
            mapping::reply(replies, i),
            asset_id,
        ) == json::text_member_of(body, init[i].0@) by {
            assert(init[i] == fields[i]);
        }
        law_create_answers_what_is_read(m, init, body, replies, asset_id);
        let n = fields.len() - 1;
        assert(fields[n] == fields.last());
        assert(leads_to(fields[n], mapping::reply(replies, n), asset_id)
            == json::text_member_of(body, fields[n].0@));
        if let Some(id) = json::text_member_of(body, fields.last().0@) {
            let before = create::new_targets(init, body);
            let t = create::TargetView {
                field: fields.last().0@,
                id,
                relation_type: mapping::relation_type(fields.last().1),
            };
            assert(before.push(t).drop_last() =~= before);
        }
    }
}

proof fn lemma_config_for(configs: Seq<EntityConfig>, i: int)
    requires
        0 <= i < configs.len(),
    ensures
        listing::config_for(configs, configs[i].slug@) is Some,
    decreases configs.len(),
{
    if i > 0 {
        assert(configs.drop_first()[i - 1] == configs[i]);
        lemma_config_for(configs.drop_first(), i - 1);
    }
}

proof fn lemma_route_slug(configs: Seq<EntityConfig>, i: int) -> (k: int)
    requires
        0 <= i < routes::routes(configs).len(),
    ensures
        0 <= k < configs.len(),
        routes::routes(configs)[i].slug == configs[k].slug@,
        configs[k].handler@ == "generic"@,
    decreases configs.len(),
{
    let init = configs.drop_last();
    let before = routes::routes(init);
    if i < before.len() {
        let k = lemma_route_slug(init, i);
        assert(routes::routes(configs)[i] == before[i]);
        assert(init[k] == configs[k]);
        k
    } else {
        let n = configs.len() - 1;
        assert(routes::routes(configs)[i] == routes::generic_routes(configs.last().slug@)[i
            - before.len()]);
        n
    }
}

/// No request on a route of the server is for an unknown kind of entity.
pub proof fn law_routes_lead_to_known_kinds(configs: Seq<EntityConfig>, i: int)
    requires
        0 <= i < routes::routes(configs).len(),
    ensures
        listing::config_for(configs, routes::routes(configs)[i].slug) is Some,
{
    let k = lemma_route_slug(configs, i);
    lemma_config_for(configs, k);
}

} // verus!
