//! What is created is read again, by way of what is sent to be stored.
use crate::auth::extractor::AuthenticatedUser;
use crate::entity_config::EntityConfig;
use crate::entity_handlers::create::{self, CreatePlan};
use crate::entity_handlers::create_laws;
use crate::entity_handlers::field_laws;
use crate::entity_handlers::filter_laws;
use crate::entity_handlers::mapping::{self, PlaceView};
use crate::entity_handlers::store_laws;
use crate::json::{self, Json, JsonView, Members};
use crate::json_laws;
use crate::keyed;
use crate::pdt::client::{PdtClient, PdtRequest};
use crate::pdt::types::{AuthContext, PdtAsset};
use crate::tags;
use vstd::prelude::*;

verus! {

/// An asset holds what a request asked to store: the title, the content, which is
/// empty where none was sent, and the tags, in order.
pub open spec fn holds_what_was_sent(asset: PdtAsset, q: PdtRequest) -> bool {
    let b = q.body->0.model();
    let sent = filter_laws::items_under(b, "tags"@);
    &&& json_laws::has(b, "title"@, JsonView::Text(asset.title@))
    &&& json_laws::has(b, "content"@, JsonView::Text(asset.content@)) || (json_laws::lacks(
        b,
        "content"@,
    ) && asset.content@.len() == 0)
    &&& asset.tags@.len() == sent.len()
    &&& forall|i: int|
        0 <= i < sent.len() ==> #[trigger] store_laws::is_tag(
            sent[i],
            asset.tags@[i].category@,
            asset.tags@[i].value@,
        )
}

proof fn lemma_tags_as_planned(
    plan: &CreatePlan,
    pdt: &PdtClient,
    instance: Option<&str>,
    user: &AuthenticatedUser,
    answers: &Vec<Option<AuthContext>>,
    token: Option<&str>,
    q: PdtRequest,
    asset: PdtAsset,
)
    requires
        call_ensures(create::create_entity_store, (plan, pdt, instance, user, answers, token), q),
        holds_what_was_sent(asset, q),
    ensures
        tags::pairs(asset.tags@) == tags::pairs(plan.tags@),
        asset.title@ == plan.title@,
        plan.content is Some ==> asset.content@ == plan.content->0@,
        plan.content is None ==> asset.content@.len() == 0,
{
    reveal_strlit("category");
    reveal_strlit("value");
    assert("category"@.len() == 8 && "value"@.len() == 5);
    let sent = filter_laws::items_under(q.body->0.model(), "tags"@);
    store_laws::law_what_is_planned_is_stored(plan, pdt, instance, user, answers, token, q, 0);
    let a = tags::pairs(asset.tags@);
    let p = tags::pairs(plan.tags@);
    assert forall|i: int| 0 <= i < p.len() implies a[i] == #[trigger] p[i] by {
        store_laws::law_what_is_planned_is_stored(plan, pdt, instance, user, answers, token, q, i);
        assert(store_laws::is_tag(sent[i], plan.tags@[i].category@, plan.tags@[i].value@));
        assert(store_laws::is_tag(sent[i], asset.tags@[i].category@, asset.tags@[i].value@));
        assert(sent[i]->Object_0["category"@] == JsonView::Text(asset.tags@[i].category@));
        assert(sent[i]->Object_0["category"@] == JsonView::Text(plan.tags@[i].category@));
        assert(sent[i]->Object_0["value"@] == JsonView::Text(asset.tags@[i].value@));
        assert(sent[i]->Object_0["value"@] == JsonView::Text(plan.tags@[i].value@));
        assert(a[i] == (asset.tags@[i].category@, asset.tags@[i].value@));
        assert(p[i] == (plan.tags@[i].category@, plan.tags@[i].value@));
    }
    assert(a =~= p);
}

/// What a permitted creation gives for a field that is kept in the content or the
/// title is shown again, unless it is empty, once an asset that holds what was sent
/// is read.
pub proof fn law_given_texts_are_read_back(
    config: &EntityConfig,
    body: &Json,
    instance: Option<&str>,
    admin_group: Option<&str>,
    plan: &CreatePlan,
    pdt: &PdtClient,
    user: &AuthenticatedUser,
    answers: &Vec<Option<AuthContext>>,
    token: Option<&str>,
    q: PdtRequest,
    asset: &PdtAsset,
    r: Json,
    m: Members,
    i: int,
    t: Seq<char>,
)
    requires
        keyed::distinct_keys(config.fields.entries()),
        call_ensures(create::plan_entity, (config, body, instance, admin_group, Ok(())), Ok(*plan)),
        call_ensures(create::create_entity_store, (plan, pdt, instance, user, answers, token), q),
        holds_what_was_sent(*asset, q),
        call_ensures(mapping::map_asset_to_entity, (asset, config), r),
        body.model() == JsonView::Object(m),
        store_laws::is_first_hinted(config.fields.entries(), i, "content"@)
            || store_laws::is_first_hinted(config.fields.entries(), i, "title_suffix"@),
        config.fields.entries()[i].0@ != "id"@,
        store_laws::gives(m, config.fields.entries()[i].0@, t),
        t.len() > 0,
    ensures
        json_laws::has(r.model(), config.fields.entries()[i].0@, JsonView::Text(t)),
{
    let name = config.fields.entries()[i].0@;
    keyed::lemma_map_of(config.fields.entries());
    store_laws::law_plan_keeps_title_and_content(
        config,
        body,
        instance,
        admin_group,
        *plan,
        m,
        i,
        t,
    );
    lemma_tags_as_planned(plan, pdt, instance, user, answers, token, q, *asset);
    field_laws::law_entity_shows_what_is_stored(*asset, *config, name, t, t);
}

/// What a permitted creation gives for a field that is kept in a tag, or the field's
/// default, is shown again, unless the kind, the agent or an earlier field gives a
/// tag of that category.
pub proof fn law_given_tags_are_read_back(
    config: &EntityConfig,
    body: &Json,
    instance: Option<&str>,
    admin_group: Option<&str>,
    plan: &CreatePlan,
    pdt: &PdtClient,
    user: &AuthenticatedUser,
    answers: &Vec<Option<AuthContext>>,
    token: Option<&str>,
    q: PdtRequest,
    asset: &PdtAsset,
    r: Json,
    m: Members,
    i: int,
    c: Seq<char>,
    v: Seq<char>,
)
    requires
        keyed::distinct_keys(config.fields.entries()),
        keyed::distinct_keys(config.default_tags.entries()),
        call_ensures(create::plan_entity, (config, body, instance, admin_group, Ok(())), Ok(*plan)),
        call_ensures(create::create_entity_store, (plan, pdt, instance, user, answers, token), q),
        holds_what_was_sent(*asset, q),
        call_ensures(mapping::map_asset_to_entity, (asset, config), r),
        body.model() == JsonView::Object(m),
        0 <= i < config.fields.entries().len(),
        config.fields.entries()[i].0@ != "id"@,
        config.fields.entries()[i].1.map.deep_view() == Some("tag:"@ + c),
        store_laws::gives(m, config.fields.entries()[i].0@, v) || (store_laws::gives_no_text(
            m,
            config.fields.entries()[i].0@,
        ) && config.fields.entries()[i].1.default.deep_view() == Some(v)),
        !config.default_tags@.contains_key(c),
        instance is Some ==> c != "agent"@,
        forall|j: int|
            0 <= j < i ==> (#[trigger] config.fields.entries()[j]).1.map.deep_view() != Some(
                "tag:"@ + c,
            ),
    ensures
        json_laws::has(r.model(), config.fields.entries()[i].0@, JsonView::Text(v)),
{
    let fields = config.fields.entries();
    let name = fields[i].0@;
    keyed::lemma_map_of(fields);
    lemma_tags_as_planned(plan, pdt, instance, user, answers, token, q, *asset);
    let p = create::plan(*config, m, instance.deep_view(), admin_group.deep_view());
    assert(plan.deep_view() == p);
    assert(plan.deep_view().tags == tags::pairs(plan.tags@));
    field_laws::law_hint_says_where(c, fields[i].1.map.deep_view());
    assert forall|j: int| 0 <= j < i implies mapping::place(
        (#[trigger] fields[j]).1.map.deep_view(),
    ) != PlaceView::Tag(c) by {
        let h = fields[j].1.map.deep_view();
        if mapping::place(h) == PlaceView::Tag(c) {
            crate::text_laws::law_prefix_and_rest("tag:"@, c, h->0);
            assert(h->0 == "tag:"@ + c);
        }
    }
    create_laws::law_tag_is_read_back(
        *config,
        m,
        instance.deep_view(),
        i,
        c,
        v,
        mapping::stored(*asset),
    );
    assert(config.fields@[name] == fields[i].1);
}

/// An asset that holds what a permitted creation sent is of the kind, so that it is
/// read as an entity of it.
pub proof fn law_created_entity_is_read_as_of_its_kind(
    config: &EntityConfig,
    body: &Json,
    instance: Option<&str>,
    admin_group: Option<&str>,
    plan: &CreatePlan,
    pdt: &PdtClient,
    user: &AuthenticatedUser,
    answers: &Vec<Option<AuthContext>>,
    token: Option<&str>,
    q: PdtRequest,
    asset: PdtAsset,
    m: Members,
)
    requires
        keyed::distinct_keys(config.default_tags.entries()),
        call_ensures(create::plan_entity, (config, body, instance, admin_group, Ok(())), Ok(*plan)),
        call_ensures(create::create_entity_store, (plan, pdt, instance, user, answers, token), q),
        holds_what_was_sent(asset, q),
        body.model() == JsonView::Object(m),
    ensures
        filter_laws::has_every_default_tag(*config, asset),
{
    lemma_tags_as_planned(plan, pdt, instance, user, answers, token, q, asset);
    let p = create::plan(*config, m, instance.deep_view(), admin_group.deep_view());
    assert(plan.deep_view() == p);
    assert(plan.deep_view().tags == tags::pairs(plan.tags@));
    create_laws::law_created_entity_is_of_its_kind(*config, m, instance.deep_view());
    let ps = tags::pairs(asset.tags@);
    assert forall|i: int| 0 <= i < ps.len() implies #[trigger] ps[i] == (
        asset.tags@[i].category@,
        asset.tags@[i].value@,
    ) by {}
    assert forall|c: Seq<char>| #[trigger] config.default_tags@.contains_key(c) implies
        filter_laws::stored_with(asset.tags@, c, config.default_tags@[c]@) by {
        assert(ps.contains((c, config.default_tags@[c]@)));
        let i = choose|i: int| 0 <= i < ps.len() && ps[i] == (c, config.default_tags@[c]@);
        assert(asset.tags@[i].category@ == c);
    }
}

/// What a permitted creation gives for a field that is kept in the metadata is shown
/// again, as it was given, once an asset with the metadata that were sent is read,
/// unless a later field or the admin group is kept under the same key.
pub proof fn law_given_metadata_are_read_back(
    config: &EntityConfig,
    body: &Json,
    instance: Option<&str>,
    admin_group: Option<&str>,
    plan: &CreatePlan,
    pdt: &PdtClient,
    asset_id: &str,
    token: Option<&str>,
    rs: Vec<PdtRequest>,
    asset: &PdtAsset,
    r: Json,
    m: Members,
    i: int,
    key: Seq<char>,
)
    requires
        keyed::distinct_keys(config.fields.entries()),
        call_ensures(create::plan_entity, (config, body, instance, admin_group, Ok(())), Ok(*plan)),
        call_ensures(create::create_entity_followups, (plan, pdt, instance, asset_id, token), rs),
        rs@.len() > 0 && json_laws::has(
            rs@[0].body->0.model(),
            "metadata"@,
            JsonView::Object(json::members(asset.metadata)),
        ),
        call_ensures(mapping::map_asset_to_entity, (asset, config), r),
        body.model() == JsonView::Object(m),
        0 <= i < config.fields.entries().len(),
        config.fields.entries()[i].0@ != "id"@,
        store_laws::gives_metadata(config.fields.entries()[i], m, key),
        forall|j: int|
            i < j < config.fields.entries().len() ==> (
            #[trigger] config.fields.entries()[j]).1.map.deep_view() != Some("metadata:"@ + key),
        admin_group is Some ==> key != "admin_group"@,
    ensures
        json_laws::has(
            r.model(),
            config.fields.entries()[i].0@,
            m[config.fields.entries()[i].0@],
        ),
{
    let fields = config.fields.entries();
    let name = fields[i].0@;
    keyed::lemma_map_of(fields);
    let p = create::plan(*config, m, instance.deep_view(), admin_group.deep_view());
    assert(plan.deep_view() == p);
    assert(plan.deep_view().metadata == json::members(plan.metadata));
    assert forall|j: int| 0 <= j < fields.len() implies (mapping::place(
        (#[trigger] fields[j]).1.map.deep_view(),
    ) == PlaceView::Metadata(key) <==> fields[j].1.map.deep_view() == Some(
        "metadata:"@ + key,
    )) by {
        let h = fields[j].1.map.deep_view();
        field_laws::law_hint_says_where(key, h);
        if mapping::place(h) == PlaceView::Metadata(key) {
            crate::text_laws::law_prefix_and_rest("metadata:"@, key, h->0);
        }
    }
    assert(mapping::place(fields[i].1.map.deep_view()) == PlaceView::Metadata(key));
    let s = mapping::Stored {
        metadata: json::members(plan.metadata),
        ..mapping::stored(*asset)
    };
    create_laws::law_metadata_is_read_back(
        *config,
        m,
        admin_group.deep_view(),
        i,
        key,
        m[name],
        s,
    );
    assert(json::members(plan.metadata).contains_key(key));
    store_laws::law_metadata_and_relations_follow(plan, pdt, instance, asset_id, token, rs, 0);
    assert(json::members(plan.metadata) != Map::<Seq<char>, JsonView>::empty()) by {
        assert(!Map::<Seq<char>, JsonView>::empty().contains_key(key));
    }
    assert(json::members(asset.metadata) == json::members(plan.metadata));
    field_laws::law_entity_shows_what_is_stored(*asset, *config, name, key, Seq::empty());
}

} // verus!
