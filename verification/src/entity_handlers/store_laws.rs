//! What every creation stores, in terms of what the request gives.
use crate::api::ApiError;
use crate::auth::extractor::AuthenticatedUser;
use crate::entity_config::{EntityConfig, NamedField};
use crate::entity_handlers::create::{self, CreatePlan, Target};
use crate::entity_handlers::field_laws;
use crate::entity_handlers::filter_laws;
use crate::entity_handlers::mapping::{self, PlaceView};
use crate::json::{self, Json, JsonView, Members};
use crate::json_laws;
use crate::pdt::client::{Method, PdtClient, PdtRequest, ReplyForm};
use crate::pdt::types::{AuthContext, CreateAssetRequest, CreateTagRequest, PdtAsset};
use crate::tags;
use crate::text_laws;
use vstd::prelude::*;

verus! {

/// The body gives a text for a name.
pub open spec fn gives(m: Members, name: Seq<char>, t: Seq<char>) -> bool {
    m.contains_key(name) && m[name] == JsonView::Text(t)
}

/// The body gives no text for a name.
pub open spec fn gives_no_text(m: Members, name: Seq<char>) -> bool {
    !m.contains_key(name) || m[name] !is Text
}

/// The field at a position is the first with the hint.
pub open spec fn is_first_hinted(fields: Seq<NamedField>, i: int, hint: Seq<char>) -> bool {
    &&& 0 <= i < fields.len()
    &&& fields[i].1.map.deep_view() == Some(hint)
    &&& forall|j: int| 0 <= j < i ==> (#[trigger] fields[j]).1.map.deep_view() != Some(hint)
}

/// No field has the hint.
pub open spec fn none_hinted(fields: Seq<NamedField>, hint: Seq<char>) -> bool {
    forall|j: int|
        0 <= j < fields.len() ==> (#[trigger] fields[j]).1.map.deep_view() != Some(hint)
}

proof fn lemma_text_for(
    fields: Seq<NamedField>,
    p: PlaceView,
    hint: Seq<char>,
    m: Members,
    i: int,
)
    requires
        forall|h: Option<Seq<char>>| #[trigger] mapping::place(h) == p <==> h == Some(hint),
    ensures
        is_first_hinted(fields, i, hint) ==> create::text_for(fields, p, m) == (if m.contains_key(
            fields[i].0@,
        ) && m[fields[i].0@] is Text {
            Some(m[fields[i].0@]->Text_0)
        } else {
            None
        }),
        none_hinted(fields, hint) ==> create::text_for(fields, p, m) is None,
    decreases fields.len(),
{
    if fields.len() > 0 {
        let rest = fields.drop_first();
        lemma_text_for(rest, p, hint, m, i - 1);
        assert forall|j: int| 0 <= j < rest.len() implies rest[j] == #[trigger] fields[j + 1] by {}
        let h0 = fields[0].1.map.deep_view();
        assert(mapping::place(h0) == p <==> h0 == Some(hint));
        if is_first_hinted(fields, i, hint) && i > 0 {
            assert(h0 != Some(hint));
            assert(rest[i - 1] == fields[i]);
            assert forall|j: int| 0 <= j < i - 1 implies (
            #[trigger] rest[j]).1.map.deep_view() != Some(hint) by {
                assert(rest[j] == fields[j + 1]);
            }
        }
        if none_hinted(fields, hint) {
            assert forall|j: int| 0 <= j < rest.len() implies (
            #[trigger] rest[j]).1.map.deep_view() != Some(hint) by {
                assert(rest[j] == fields[j + 1]);
            }
        }
    }
}

proof fn lemma_places()
    ensures
        forall|h: Option<Seq<char>>|
            #[trigger] mapping::place(h) == PlaceView::Content <==> h == Some("content"@),
        forall|h: Option<Seq<char>>|
            #[trigger] mapping::place(h) == PlaceView::TitleSuffix <==> h == Some(
                "title_suffix"@,
            ),
{
    field_laws::law_hint_says_where(Seq::empty(), None);
}

/// The tag that a field gives a new entity: the category behind `tag:` in its hint,
/// with the text that the body gives, or the field's default.
pub open spec fn gives_tag(f: NamedField, m: Members) -> bool {
    &&& f.1.map is Some
    &&& f.1.map->0@.len() >= 4
    &&& f.1.map->0@.take(4) == "tag:"@
    &&& (m.contains_key(f.0@) && m[f.0@] is Text) || f.1.default is Some
}

/// The tag of a field that gives one.
pub open spec fn given_tag(f: NamedField, m: Members) -> (Seq<char>, Seq<char>) {
    (
        f.1.map->0@.skip(4),
        if m.contains_key(f.0@) && m[f.0@] is Text {
            m[f.0@]->Text_0
        } else {
            f.1.default->0@
        },
    )
}

proof fn lemma_field_tag(f: NamedField, m: Members)
    ensures
        create::field_tag(f, m) is Some <==> gives_tag(f, m),
        gives_tag(f, m) ==> create::field_tag(f, m) == Some(given_tag(f, m)),
{
    reveal_strlit("tag:");
    if let Some(h) = f.1.map {
        let rest = h@.skip(4);
        field_laws::law_hint_says_where(rest, Some(h@));
        if h@.len() >= 4 && h@.take(4) == "tag:"@ {
            assert(h@ =~= "tag:"@ + rest);
        } else {
            if let PlaceView::Tag(c) = mapping::place(Some(h@)) {
                text_laws::law_prefix_and_rest("tag:"@, c, h@);
                assert(h@ == "tag:"@ + c);
                assert(h@.take(4) =~= "tag:"@);
            }
        }
    }
}

proof fn lemma_field_tags(fields: Seq<NamedField>, m: Members)
    ensures
        create::field_tags(fields, m) == fields.filter(|f: NamedField| gives_tag(f, m)).map_values(
            |f: NamedField| given_tag(f, m),
        ),
    decreases fields.len(),
{
    reveal(Seq::filter);
    let p = |f: NamedField| gives_tag(f, m);
    let v = |f: NamedField| given_tag(f, m);
    if fields.len() == 0 {
        assert(create::field_tags(fields, m) =~= fields.filter(p).map_values(v));
    } else {
        let init = fields.drop_last();
        lemma_field_tags(init, m);
        lemma_field_tag(fields.last(), m);
        if gives_tag(fields.last(), m) {
            assert(init.filter(p).push(fields.last()).map_values(v) =~= init.filter(p).map_values(
                v,
            ).push(given_tag(fields.last(), m)));
        }
    }
}

/// A value is a tag on the wire.
pub open spec fn is_tag(v: JsonView, category: Seq<char>, value: Seq<char>) -> bool {
    v == JsonView::Object(
        Map::empty().insert("category"@, JsonView::Text(category)).insert(
            "value"@,
            JsonView::Text(value),
        ),
    )
}

/// A permitted creation of an object that gives every required field is planned.
/// Its title is the kind's prefix with the given title, or with `Untitled`; its
/// content is the given one.
pub proof fn law_plan_keeps_title_and_content(
    config: &EntityConfig,
    body: &Json,
    instance: Option<&str>,
    admin_group: Option<&str>,
    plan: CreatePlan,
    m: Members,
    i: int,
    t: Seq<char>,
)
    requires
        call_ensures(create::plan_entity, (config, body, instance, admin_group, Ok(())), Ok(plan)),
        body.model() == JsonView::Object(m),
    ensures
        is_first_hinted(config.fields.entries(), i, "title_suffix"@) && gives(
            m,
            config.fields.entries()[i].0@,
            t,
        ) ==> plan.title@ == config.title_prefix@ + t,
        is_first_hinted(config.fields.entries(), i, "title_suffix"@) && gives_no_text(
            m,
            config.fields.entries()[i].0@,
        ) ==> plan.title@ == config.title_prefix@ + "Untitled"@,
        none_hinted(config.fields.entries(), "title_suffix"@) ==> plan.title@
            == config.title_prefix@ + "Untitled"@,
        is_first_hinted(config.fields.entries(), i, "content"@) && gives(
            m,
            config.fields.entries()[i].0@,
            t,
        ) ==> plan.content is Some && plan.content->0@ == t,
        is_first_hinted(config.fields.entries(), i, "content"@) && gives_no_text(
            m,
            config.fields.entries()[i].0@,
        ) ==> plan.content is None,
        none_hinted(config.fields.entries(), "content"@) ==> plan.content is None,
{
    lemma_places();
    lemma_text_for(config.fields.entries(), PlaceView::TitleSuffix, "title_suffix"@, m, i);
    lemma_text_for(config.fields.entries(), PlaceView::Content, "content"@, m, i);
    assert(plan.deep_view() == create::plan(
        *config,
        m,
        instance.deep_view(),
        admin_group.deep_view(),
    ));
}

/// The tags of a planned entity are the kind's default tags, the agent's, and then
/// one for each field that gives a tag, all in order, and no other.
pub proof fn law_plan_keeps_tags(
    config: &EntityConfig,
    body: &Json,
    instance: Option<&str>,
    admin_group: Option<&str>,
    plan: CreatePlan,
    m: Members,
)
    requires
        call_ensures(create::plan_entity, (config, body, instance, admin_group, Ok(())), Ok(plan)),
        body.model() == JsonView::Object(m),
    ensures
        plan.tags@.map_values(|t: CreateTagRequest| (t.category@, t.value@))
            == config.default_tags.entries().map_values(|e: (String, String)| (e.0@, e.1@)) + (
        match instance {
            Some(agent) => seq![("agent"@, agent@)],
            None => Seq::empty(),
        }) + config.fields.entries().filter(|f: NamedField| gives_tag(f, m)).map_values(
            |f: NamedField| given_tag(f, m),
        ),
{
    lemma_field_tags(config.fields.entries(), m);
    assert(plan.deep_view() == create::plan(
        *config,
        m,
        instance.deep_view(),
        admin_group.deep_view(),
    ));
    assert(plan.tags@.map_values(|t: CreateTagRequest| (t.category@, t.value@)) =~= tags::pairs(
        plan.tags@,
    ));
}

/// A field is kept in the metadata under the key, and the body gives it.
pub open spec fn gives_metadata(f: NamedField, m: Members, key: Seq<char>) -> bool {
    f.1.map.deep_view() == Some("metadata:"@ + key) && m.contains_key(f.0@)
}

proof fn lemma_metadata_place(hint: Option<Seq<char>>, key: Seq<char>)
    ensures
        mapping::place(hint) == PlaceView::Metadata(key) <==> hint == Some("metadata:"@ + key),
{
    field_laws::law_hint_says_where(key, None);
    if let Some(h) = hint {
        if let PlaceView::Metadata(k) = mapping::place(hint) {
            text_laws::law_prefix_and_rest("metadata:"@, k, h);
        }
    }
}

proof fn lemma_metadata_step(fields: Seq<NamedField>, m: Members, key: Seq<char>)
    requires
        fields.len() > 0,
    ensures
        ({
            let before = create::field_metadata(fields.drop_last(), m);
            let md = create::field_metadata(fields, m);
            if gives_metadata(fields.last(), m, key) {
                md.contains_key(key) && md[key] == m[fields.last().0@]
            } else {
                md.contains_key(key) == before.contains_key(key) && md[key] == before[key]
            }
        }),
{
    lemma_metadata_place(fields.last().1.map.deep_view(), key);
}

proof fn lemma_field_metadata(fields: Seq<NamedField>, m: Members, key: Seq<char>, i: int)
    ensures
        create::field_metadata(fields, m).contains_key(key) <==> exists|j: int|
            0 <= j < fields.len() && gives_metadata(#[trigger] fields[j], m, key),
        0 <= i < fields.len() && gives_metadata(fields[i], m, key) && (forall|j: int|
            i < j < fields.len() ==> !gives_metadata(#[trigger] fields[j], m, key))
            ==> create::field_metadata(fields, m)[key] == m[fields[i].0@],
    decreases fields.len(),
{
    if fields.len() > 0 {
        let init = fields.drop_last();
        let n = fields.len() - 1;
        lemma_field_metadata(init, m, key, i);
        lemma_metadata_step(fields, m, key);
        assert(fields[n] == fields.last());
        if exists|j: int| 0 <= j < init.len() && gives_metadata(#[trigger] init[j], m, key) {
            let j = choose|j: int|
                0 <= j < init.len() && gives_metadata(#[trigger] init[j], m, key);
            assert(init[j] == fields[j]);
        }
        if exists|j: int| 0 <= j < fields.len() && gives_metadata(#[trigger] fields[j], m, key) {
            let j = choose|j: int|
                0 <= j < fields.len() && gives_metadata(#[trigger] fields[j], m, key);
            if j < n {
                assert(init[j] == fields[j]);
            }
        }
        if 0 <= i < n && gives_metadata(fields[i], m, key) && (forall|j: int|
            i < j < fields.len() ==> !gives_metadata(#[trigger] fields[j], m, key)) {
            assert(init[i] == fields[i]);
            assert(!gives_metadata(fields[n], m, key));
            assert forall|j: int| i < j < init.len() implies !gives_metadata(
                #[trigger] init[j],
                m,
                key,
            ) by {
                assert(init[j] == fields[j]);
            }
        }
    }
}

/// The metadata of a planned entity are what the body gives for the fields that are
/// kept there, each as it was given and the last where two share a key, and the
/// admin group where there is one; and nothing else.
pub proof fn law_plan_keeps_metadata(
    config: &EntityConfig,
    body: &Json,
    instance: Option<&str>,
    admin_group: Option<&str>,
    plan: CreatePlan,
    m: Members,
    key: Seq<char>,
    i: int,
)
    requires
        call_ensures(create::plan_entity, (config, body, instance, admin_group, Ok(())), Ok(plan)),
        body.model() == JsonView::Object(m),
    ensures
        admin_group matches Some(g) ==> json::members(plan.metadata).contains_key("admin_group"@)
            && json::members(plan.metadata)["admin_group"@] == JsonView::Text(g@),
        (admin_group is None || key != "admin_group"@) && 0 <= i < config.fields.entries().len()
            && gives_metadata(config.fields.entries()[i], m, key) && (forall|j: int|
            i < j < config.fields.entries().len() ==> !gives_metadata(
                #[trigger] config.fields.entries()[j],
                m,
                key,
            )) ==> json::members(plan.metadata).contains_key(key) && json::members(
            plan.metadata,
        )[key] == m[config.fields.entries()[i].0@],
        (admin_group is None || key != "admin_group"@) && json::members(
            plan.metadata,
        ).contains_key(key) ==> exists|j: int|
            0 <= j < config.fields.entries().len() && gives_metadata(
                #[trigger] config.fields.entries()[j],
                m,
                key,
            ),
{
    lemma_field_metadata(config.fields.entries(), m, key, i);
    assert(plan.deep_view() == create::plan(
        *config,
        m,
        instance.deep_view(),
        admin_group.deep_view(),
    ));
    if 0 <= i < config.fields.entries().len() && gives_metadata(
        config.fields.entries()[i],
        m,
        key,
    ) {
        assert(create::field_metadata(config.fields.entries(), m).contains_key(key));
    }
}

/// What a target asks for: a field, what it leads to, and with what type.
pub open spec fn target_parts(t: Target) -> (Seq<char>, Seq<char>, Seq<char>) {
    (t.field@, t.id@, t.relation_type@)
}

/// What a relation field asks for, by the text that the body gives.
pub open spec fn asked_for(f: NamedField, m: Members) -> (Seq<char>, Seq<char>, Seq<char>) {
    (
        f.0@,
        m[f.0@]->Text_0,
        match f.1.relation_type {
            Some(t) => t@,
            None => "related_to"@,
        },
    )
}

proof fn lemma_targets(fields: Seq<NamedField>, m: Members)
    ensures
        create::new_targets(fields, m).map_values(
            |t: create::TargetView| (t.field, t.id, t.relation_type),
        ) == fields.filter(|f: NamedField| m.contains_key(f.0@) && m[f.0@] is Text).map_values(
            |f: NamedField| asked_for(f, m),
        ),
    decreases fields.len(),
{
    reveal(Seq::filter);
    let p = |f: NamedField| m.contains_key(f.0@) && m[f.0@] is Text;
    let v = |f: NamedField| asked_for(f, m);
    let w = |t: create::TargetView| (t.field, t.id, t.relation_type);
    if fields.len() == 0 {
        assert(create::new_targets(fields, m).map_values(w) =~= fields.filter(p).map_values(v));
    } else {
        let init = fields.drop_last();
        let last = fields.last();
        lemma_targets(init, m);
        if p(last) {
            assert(init.filter(p).push(last).map_values(v) =~= init.filter(p).map_values(v).push(
                asked_for(last, m),
            ));
            let t = create::TargetView {
                field: last.0@,
                id: m[last.0@]->Text_0,
                relation_type: mapping::relation_type(last.1),
            };
            assert(create::new_targets(fields, m) == create::new_targets(init, m).push(t));
            assert(create::new_targets(init, m).push(t).map_values(w) =~= create::new_targets(
                init,
                m,
            ).map_values(w).push((t.field, t.id, t.relation_type)));
        }
    }
}

/// A planned entity is related to what the body gives as texts for its relation
/// fields, in order, each with the field's own relation type, and to nothing else.
pub proof fn law_plan_keeps_relations(
    config: &EntityConfig,
    body: &Json,
    instance: Option<&str>,
    admin_group: Option<&str>,
    plan: CreatePlan,
    m: Members,
)
    requires
        call_ensures(create::plan_entity, (config, body, instance, admin_group, Ok(())), Ok(plan)),
        body.model() == JsonView::Object(m),
    ensures
        plan.targets@.map_values(|t: Target| target_parts(t)) == config.relations().filter(
            |f: NamedField| m.contains_key(f.0@) && m[f.0@] is Text,
        ).map_values(|f: NamedField| asked_for(f, m)),
        plan.admin_group.deep_view() == admin_group.deep_view(),
{
    lemma_targets(config.relations(), m);
    assert(plan.deep_view() == create::plan(
        *config,
        m,
        instance.deep_view(),
        admin_group.deep_view(),
    ));
    let w = |t: create::TargetView| (t.field, t.id, t.relation_type);
    assert(plan.targets@.map_values(|t: Target| target_parts(t)) =~= plan.targets@.map_values(
        |t: Target| t@,
    ).map_values(w));
}

/// A request stores something at a URL, on behalf of a token, in an instance.
pub open spec fn sends(
    q: PdtRequest,
    method: Method,
    url: Seq<char>,
    token: Option<&str>,
    instance: Option<&str>,
) -> bool {
    &&& q.method == method
    &&& q.url@ == url
    &&& q.bearer.deep_view() == token.deep_view()
    &&& q.instance_id.deep_view() == instance.deep_view()
    &&& q.body is Some
}

/// The request that stores a planned entity holds its title, its content where it
/// has one, and its tags, in order, each as it was planned.
pub proof fn law_what_is_planned_is_stored(
    plan: &CreatePlan,
    pdt: &PdtClient,
    instance: Option<&str>,
    user: &AuthenticatedUser,
    answers: &Vec<Option<AuthContext>>,
    token: Option<&str>,
    q: PdtRequest,
    i: int,
)
    requires
        call_ensures(create::create_entity_store, (plan, pdt, instance, user, answers, token), q),
    ensures
        sends(q, Method::Post, pdt.base() + "/api/assets"@, token, instance),
        q.reply == ReplyForm::AssetOrData,
        json_laws::has(q.body->0.model(), "title"@, JsonView::Text(plan.title@)),
        plan.content matches Some(c) ==> json_laws::has(
            q.body->0.model(),
            "content"@,
            JsonView::Text(c@),
        ),
        plan.content is None ==> json_laws::lacks(q.body->0.model(), "content"@),
        json_laws::has(
            q.body->0.model(),
            "tags"@,
            JsonView::List(filter_laws::items_under(q.body->0.model(), "tags"@)),
        ),
        filter_laws::items_under(q.body->0.model(), "tags"@).len() == plan.tags@.len(),
        0 <= i < plan.tags@.len() ==> is_tag(
            filter_laws::items_under(q.body->0.model(), "tags"@)[i],
            plan.tags@[i].category@,
            plan.tags@[i].value@,
        ),
{
    reveal_strlit("title");
    reveal_strlit("content");
    reveal_strlit("tags");
    reveal_strlit("auth_context");
    assert("title"@.len() == 5 && "content"@.len() == 7 && "tags"@.len() == 4
        && "auth_context"@.len() == 12);
    let a = create::asset_to_store(plan.deep_view(), user.deep_view(), answers@);
    assert(q.deep_view().body == Some(a.json()));
    assert(q.body->0.model() == a.json());
    if 0 <= i < plan.tags@.len() {
        assert(tags::pairs(plan.tags@)[i] == (plan.tags@[i].category@, plan.tags@[i].value@));
    }
}

/// The content and the title that a creation gives are sent to be stored exactly as
/// they were given: what a permitted creation with a content field gives for it is
/// the `content` of the asset that is stored.
pub proof fn law_given_content_is_sent(
    config: &EntityConfig,
    body: &Json,
    instance: Option<&str>,
    admin_group: Option<&str>,
    plan: &CreatePlan,
    pdt: &PdtClient,
    user: &AuthenticatedUser,
    answers: &Vec<Option<AuthContext>>,
    token: Option<&str>,
    q: PdtRequest,
    m: Members,
    i: int,
    t: Seq<char>,
)
    requires
        call_ensures(create::plan_entity, (config, body, instance, admin_group, Ok(())), Ok(*plan)),
        call_ensures(create::create_entity_store, (plan, pdt, instance, user, answers, token), q),
        body.model() == JsonView::Object(m),
        0 <= i < config.fields.entries().len(),
        gives(m, config.fields.entries()[i].0@, t),
    ensures
        is_first_hinted(config.fields.entries(), i, "content"@) ==> json_laws::has(
            q.body->0.model(),
            "content"@,
            JsonView::Text(t),
        ),
        is_first_hinted(config.fields.entries(), i, "title_suffix"@) ==> json_laws::has(
            q.body->0.model(),
            "title"@,
            JsonView::Text(config.title_prefix@ + t),
        ),
{
    law_plan_keeps_title_and_content(config, body, instance, admin_group, *plan, m, i, t);
    law_what_is_planned_is_stored(plan, pdt, instance, user, answers, token, q, 0);
}

/// The field at a position is the first that is required and not given.
pub open spec fn is_first_missing(fields: Seq<NamedField>, m: Members, i: int) -> bool {
    &&& 0 <= i < fields.len()
    &&& fields[i].1.required && !m.contains_key(fields[i].0@)
    &&& forall|j: int|
        0 <= j < i ==> ((#[trigger] fields[j]).1.required ==> m.contains_key(fields[j].0@))
}

/// Every required field is given.
pub open spec fn nothing_missing(fields: Seq<NamedField>, m: Members) -> bool {
    forall|j: int|
        0 <= j < fields.len() ==> ((#[trigger] fields[j]).1.required ==> m.contains_key(
            fields[j].0@,
        ))
}

proof fn lemma_missing(fields: Seq<NamedField>, m: Members, i: int)
    ensures
        is_first_missing(fields, m, i) ==> create::missing_field(fields, m) == Some(fields[i].0@),
        nothing_missing(fields, m) ==> create::missing_field(fields, m) is None,
    decreases fields.len(),
{
    if fields.len() > 0 {
        let rest = fields.drop_first();
        lemma_missing(rest, m, i - 1);
        assert forall|j: int| 0 <= j < rest.len() implies rest[j] == #[trigger] fields[j + 1] by {}
        if is_first_missing(fields, m, i) && i > 0 {
            assert(fields[0].1.required ==> m.contains_key(fields[0].0@));
            assert(rest[i - 1] == fields[i]);
            assert forall|j: int| 0 <= j < i - 1 && (#[trigger] rest[j]).1.required implies m.contains_key(
                rest[j].0@,
            ) by {
                assert(rest[j] == fields[j + 1]);
            }
        }
        if nothing_missing(fields, m) {
            assert(fields[0].1.required ==> m.contains_key(fields[0].0@));
            assert forall|j: int|
                0 <= j < rest.len() && (#[trigger] rest[j]).1.required implies m.contains_key(
                rest[j].0@,
            ) by {
                assert(rest[j] == fields[j + 1]);
            }
        }
    }
}

/// A creation is refused where it is not permitted, with the status of that; where
/// its body is no object; and where a required field is missing, for the first that
/// is.  Otherwise it is planned.
pub proof fn law_creation_is_refused_for_what_is_wrong(
    config: &EntityConfig,
    body: &Json,
    instance: Option<&str>,
    admin_group: Option<&str>,
    permission: Result<(), u16>,
    r: Result<CreatePlan, ApiError>,
    m: Members,
    i: int,
)
    requires
        call_ensures(create::plan_entity, (config, body, instance, admin_group, permission), r),
    ensures
        permission matches Err(status) ==> r is Err && filter_laws::is_refused(
            r->Err_0.deep_view(),
            status,
            "Access denied"@,
        ),
        permission is Ok && body.model() !is Object ==> r is Err && filter_laws::is_refused(
            r->Err_0.deep_view(),
            400,
            "Request body must be a JSON object"@,
        ),
        permission is Ok && body.model() == JsonView::Object(m) && is_first_missing(
            config.fields.entries(),
            m,
            i,
        ) ==> r is Err && filter_laws::is_refused(
            r->Err_0.deep_view(),
            400,
            "Validation failed"@,
        ) && json_laws::has(
            r->Err_0.deep_view().body,
            "details"@,
            JsonView::Text("Missing required field: "@ + config.fields.entries()[i].0@),
        ),
        permission is Ok && body.model() == JsonView::Object(m) && nothing_missing(
            config.fields.entries(),
            m,
        ) ==> r is Ok,
{
    lemma_missing(config.fields.entries(), m, i);
    reveal_strlit("error");
    reveal_strlit("details");
    assert("error"@.len() == 5 && "details"@.len() == 7);
}

/// The answer at a position is the first authorization context.
pub open spec fn is_first_context(answers: Seq<Option<AuthContext>>, k: int) -> bool {
    &&& 0 <= k < answers.len()
    &&& answers[k] is Some
    &&& forall|j: int| 0 <= j < k ==> (#[trigger] answers[j]) is None
}

/// No answer is an authorization context.
pub open spec fn no_context(answers: Seq<Option<AuthContext>>) -> bool {
    forall|j: int| 0 <= j < answers.len() ==> (#[trigger] answers[j]) is None
}

proof fn lemma_first_context(answers: Seq<Option<AuthContext>>, k: int)
    ensures
        is_first_context(answers, k) ==> create::first_context(answers) == Some(
            answers[k]->0.deep_view(),
        ),
        no_context(answers) ==> create::first_context(answers) is None,
    decreases answers.len(),
{
    if answers.len() > 0 {
        let rest = answers.drop_first();
        lemma_first_context(rest, k - 1);
        assert forall|j: int| 0 <= j < rest.len() implies rest[j] == #[trigger] answers[j + 1] by {}
        if is_first_context(answers, k) && k > 0 {
            assert(answers[0] is None);
            assert(rest[k - 1] == answers[k]);
            assert forall|j: int| 0 <= j < k - 1 implies (#[trigger] rest[j]) is None by {
                assert(rest[j] == answers[j + 1]);
            }
        }
        if no_context(answers) {
            assert(answers[0] is None);
            assert forall|j: int| 0 <= j < rest.len() implies (#[trigger] rest[j]) is None by {
                assert(rest[j] == answers[j + 1]);
            }
        }
    }
}

/// A value is an authorization context on the wire.
pub open spec fn is_context(
    v: JsonView,
    visibility: Seq<char>,
    groups: Seq<Seq<char>>,
    confidentiality: Seq<char>,
) -> bool {
    &&& json_laws::has(v, "visibility"@, JsonView::Text(visibility))
    &&& json_laws::has(
        v,
        "owner_groups"@,
        JsonView::List(groups.map_values(|g: Seq<char>| JsonView::Text(g))),
    )
    &&& json_laws::has(v, "confidentiality"@, JsonView::Text(confidentiality))
}

/// A group is an agent's memory group: it begins with `mem-`.
pub open spec fn is_memory(g: Seq<char>) -> bool {
    g.len() >= 4 && g.take(4) == seq!['m', 'e', 'm', '-']
}

/// A group is a workspace's admin group: up to an `@` it begins with `ws-` and ends
/// with `-admins`.
pub open spec fn is_admins(g: Seq<char>) -> bool {
    exists|n: int| #[trigger]
        is_bare(g, n) && n >= 7 && g.take(3) == seq!['w', 's', '-'] && g.subrange(n - 7, n) == seq![
            '-',
            'a',
            'd',
            'm',
            'i',
            'n',
            's',
        ]
}

/// The first characters of a group, up to its first `@` or to its end.
pub open spec fn is_bare(g: Seq<char>, n: int) -> bool {
    &&& 0 <= n <= g.len()
    &&& n < g.len() ==> g[n] == '@'
    &&& forall|i: int| 0 <= i < n ==> #[trigger] g[i] != '@'
}

proof fn lemma_bare(g: Seq<char>) -> (n: int)
    ensures
        is_bare(g, n),
        crate::text::before(g, '@') == g.take(n),
    decreases g.len(),
{
    if g.len() == 0 || g[0] == '@' {
        assert(g.take(0) =~= Seq::empty());
        0
    } else {
        let rest = g.drop_first();
        let n = lemma_bare(rest) + 1;
        assert forall|i: int| 0 <= i < n implies #[trigger] g[i] != '@' by {
            if i > 0 {
                assert(rest[i - 1] == g[i]);
            }
        }
        if n < g.len() {
            assert(rest[n - 1] == g[n]);
        }
        assert(seq![g[0]] + rest.take(n - 1) =~= g.take(n));
        n
    }
}

/// Which groups own: an agent's memory group and a workspace's admin group, each in
/// the form in which the claim has it.
pub proof fn law_owning_groups(g: Seq<char>)
    ensures
        create::is_memory_group(g) <==> is_memory(g),
        create::is_workspace_admins(g) <==> is_admins(g),
{
    let n = lemma_bare(g);
    let bare = g.take(n);
    reveal_strlit("mem-");
    reveal_strlit("ws-");
    reveal_strlit("-admins");
    assert("mem-"@ =~= seq!['m', 'e', 'm', '-']);
    assert("ws-"@ =~= seq!['w', 's', '-']);
    assert("-admins"@ =~= seq!['-', 'a', 'd', 'm', 'i', 'n', 's']);
    assert forall|k: int| is_bare(g, k) implies k == n by {
        if k < n {
            assert(g[k] == '@');
        }
        if n < k {
            assert(g[n] == '@');
        }
    }
    if is_memory(g) {
        assert(g.take(4)[0] == g[0] && g.take(4)[1] == g[1] && g.take(4)[2] == g[2]
            && g.take(4)[3] == g[3]);
        assert(n >= 4) by {
            if n < 4 {
                assert(g[n] == '@');
            }
        }
        assert(bare.subrange(0, 4) =~= g.take(4));
    }
    if create::is_memory_group(g) {
        assert(bare.subrange(0, 4) =~= g.take(4));
    }
    if create::is_workspace_admins(g) {
        assert(bare.subrange(0, 3) =~= g.take(3));
        assert(bare.subrange(n - 7, n) =~= g.subrange(n - 7, n));
        assert(is_bare(g, n));
    }
    if is_admins(g) {
        assert(bare.subrange(0, 3) =~= g.take(3));
        assert(bare.subrange(n - 7, n) =~= g.subrange(n - 7, n));
    }
}

/// The group at a position is the first of its sort.
pub open spec fn owns(groups: Seq<Seq<char>>, k: int) -> bool {
    &&& 0 <= k < groups.len()
    &&& {
        ||| is_memory(groups[k]) && forall|j: int| 0 <= j < k ==> !is_memory(#[trigger] groups[j])
        ||| is_admins(groups[k]) && (forall|j: int|
            0 <= j < groups.len() ==> !is_memory(#[trigger] groups[j])) && forall|j: int|
            0 <= j < k ==> !is_admins(#[trigger] groups[j])
    }
}

/// No group owns.
pub open spec fn none_owns(groups: Seq<Seq<char>>) -> bool {
    forall|j: int|
        0 <= j < groups.len() ==> !is_memory(#[trigger] groups[j]) && !is_admins(groups[j])
}

proof fn lemma_first_such(groups: Seq<Seq<char>>, p: spec_fn(Seq<char>) -> bool, k: int)
    ensures
        0 <= k < groups.len() && p(groups[k]) && (forall|j: int|
            0 <= j < k ==> !p(#[trigger] groups[j])) ==> create::first_such(groups, p) == Some(
            groups[k],
        ),
        (forall|j: int| 0 <= j < groups.len() ==> !p(#[trigger] groups[j])) ==> create::first_such(
            groups,
            p,
        ) is None,
    decreases groups.len(),
{
    if groups.len() > 0 {
        let rest = groups.drop_first();
        lemma_first_such(rest, p, k - 1);
        assert forall|j: int| 0 <= j < rest.len() implies rest[j] == #[trigger] groups[j + 1] by {}
        if 0 < k < groups.len() && p(groups[k]) && (forall|j: int|
            0 <= j < k ==> !p(#[trigger] groups[j])) {
            assert(!p(groups[0]));
            assert(rest[k - 1] == groups[k]);
            assert forall|j: int| 0 <= j < k - 1 implies !p(#[trigger] rest[j]) by {
                assert(rest[j] == groups[j + 1]);
            }
        }
        if forall|j: int| 0 <= j < groups.len() ==> !p(#[trigger] groups[j]) {
            assert(!p(groups[0]));
            assert forall|j: int| 0 <= j < rest.len() implies !p(#[trigger] rest[j]) by {
                assert(rest[j] == groups[j + 1]);
            }
        }
    }
}

/// What a member of groups creates is owned by the first memory group, else by the
/// first admin group of a workspace, else by none.
pub proof fn law_first_group_of_its_sort_owns(groups: Seq<Seq<char>>, k: int)
    ensures
        owns(groups, k) ==> create::owner_group(groups) == Some(groups[k]),
        none_owns(groups) ==> create::owner_group(groups) is None,
{
    let memory = |g: Seq<char>| create::is_memory_group(g);
    let admins = |g: Seq<char>| create::is_workspace_admins(g);
    assert forall|g: Seq<char>| memory(g) == is_memory(g) && admins(g) == is_admins(g) by {
        law_owning_groups(g);
    }
    lemma_first_such(groups, memory, k);
    lemma_first_such(groups, admins, k);
}

/// The group that owns what is created, as it is picked.
pub proof fn law_owner_is_picked(groups: &[String], k: int, r: Option<String>)
    requires
        call_ensures(create::pick_owner_group, (groups,), r),
    ensures
        owns(groups@.map_values(|g: String| g@), k) ==> r is Some && r->0@ == groups@[k]@,
        none_owns(groups@.map_values(|g: String| g@)) ==> r is None,
{
    law_first_group_of_its_sort_owns(groups@.map_values(|g: String| g@), k);
}

/// A new entity is stored with the first authorization context among what it is
/// related to; else, an agent identity with a team context of the group that
/// administers it, and anything else with one of the group that owns what the user
/// creates; else with none.
pub proof fn law_context_that_is_stored(
    plan: &CreatePlan,
    pdt: &PdtClient,
    instance: Option<&str>,
    user: &AuthenticatedUser,
    answers: &Vec<Option<AuthContext>>,
    token: Option<&str>,
    q: PdtRequest,
    k: int,
)
    requires
        call_ensures(create::create_entity_store, (plan, pdt, instance, user, answers, token), q),
    ensures
        ({
            let b = q.body->0.model();
            let context = b->Object_0["auth_context"@];
            let groups = user.deep_view().groups();
            &&& is_first_context(answers@, k) ==> json_laws::has(b, "auth_context"@, context)
                && is_context(
                context,
                answers@[k]->0.visibility@,
                answers@[k]->0.owner_groups@.map_values(|g: String| g@),
                answers@[k]->0.confidentiality@,
            )
            &&& no_context(answers@) && plan.admin_group is Some ==> json_laws::has(
                b,
                "auth_context"@,
                context,
            ) && is_context(context, "team"@, seq![plan.admin_group->0@], Seq::empty())
            &&& no_context(answers@) && plan.admin_group is None && owns(groups, k)
                ==> json_laws::has(b, "auth_context"@, context) && is_context(
                context,
                "team"@,
                seq![groups[k]],
                Seq::empty(),
            )
            &&& no_context(answers@) && plan.admin_group is None && none_owns(groups)
                ==> json_laws::lacks(b, "auth_context"@)
        }),
{
    reveal_strlit("title");
    reveal_strlit("content");
    reveal_strlit("tags");
    reveal_strlit("auth_context");
    reveal_strlit("visibility");
    reveal_strlit("owner_groups");
    reveal_strlit("confidentiality");
    reveal_strlit("");
    assert("title"@.len() == 5 && "content"@.len() == 7 && "tags"@.len() == 4
        && "auth_context"@.len() == 12 && "visibility"@.len() == 10 && "owner_groups"@.len() == 12
        && "confidentiality"@.len() == 15);
    assert(""@ =~= Seq::<char>::empty());
    let a = create::asset_to_store(plan.deep_view(), user.deep_view(), answers@);
    assert(q.deep_view().body == Some(a.json()));
    assert(q.body->0.model() == a.json());
    lemma_first_context(answers@, k);
    law_first_group_of_its_sort_owns(user.deep_view().groups(), k);
    if is_first_context(answers@, k) {
        let c = answers@[k]->0;
        assert(c.owner_groups.deep_view() =~= c.owner_groups@.map_values(|g: String| g@));
    }
}

/// What a new entity is related to is looked up in order, until something has an
/// authorization context.
pub proof fn law_parents_are_looked_up(
    plan: &CreatePlan,
    pdt: &PdtClient,
    instance: Option<&str>,
    answers: &Vec<Option<AuthContext>>,
    token: Option<&str>,
    k: int,
    r: Option<PdtRequest>,
)
    requires
        call_ensures(create::next_parent_lookup, (plan, pdt, instance, answers, token), r),
    ensures
        is_first_context(answers@, k) ==> r is None,
        answers@.len() >= plan.targets@.len() ==> r is None,
        no_context(answers@) && answers@.len() < plan.targets@.len() ==> r is Some
            && filter_laws::reads(
            r->0,
            pdt.base() + "/api/assets/"@ + plan.targets@[answers@.len() as int].id@,
            token,
            instance,
        ),
{
    lemma_first_context(answers@, k);
}

/// A request relates a new asset to a target.
pub open spec fn relates(q: PdtRequest, asset_id: Seq<char>, t: Target) -> bool {
    q.body is Some && q.body->0.model() == JsonView::Object(
        Map::empty().insert("from_asset_id"@, JsonView::Text(asset_id)).insert(
            "to_asset_id"@,
            JsonView::Text(t.id@),
        ).insert("relation_type"@, JsonView::Text(t.relation_type@)),
    )
}

/// Behind a new asset go its metadata, whole, where it has any, and then each of
/// its relations, in order, and nothing else.
pub proof fn law_metadata_and_relations_follow(
    plan: &CreatePlan,
    pdt: &PdtClient,
    instance: Option<&str>,
    asset_id: &str,
    token: Option<&str>,
    rs: Vec<PdtRequest>,
    i: int,
)
    requires
        call_ensures(create::create_entity_followups, (plan, pdt, instance, asset_id, token), rs),
    ensures
        ({
            let md = json::members(plan.metadata);
            let first: int = if md == Map::<Seq<char>, JsonView>::empty() {
                0
            } else {
                1
            };
            &&& rs@.len() == first + plan.targets@.len()
            &&& first == 1 ==> rs@[0].method == Method::Put && rs@[0].url@ == pdt.base()
                + "/api/assets/"@ + asset_id@ && rs@[0].instance_id.deep_view()
                == instance.deep_view() && (token is Some ==> rs@[0].bearer.deep_view()
                == token.deep_view()) && rs@[0].body is Some && json_laws::has(
                rs@[0].body->0.model(),
                "metadata"@,
                JsonView::Object(md),
            )
            &&& 0 <= i < plan.targets@.len() ==> sends(
                rs@[first + i],
                Method::Post,
                pdt.base() + "/api/relations"@,
                token,
                instance,
            ) && relates(rs@[first + i], asset_id@, plan.targets@[i])
        }),
{
    let p = plan.deep_view();
    let wanted = create::followups(
        p,
        pdt.base(),
        instance.deep_view(),
        asset_id@,
        token.deep_view(),
    );
    assert(rs.deep_view() == wanted);
    assert(rs@.len() == wanted.len());
    assert forall|j: int| 0 <= j < rs@.len() implies (#[trigger] rs@[j]).deep_view()
        == wanted[j] by {
        assert(rs.deep_view()[j] == rs@[j].deep_view());
    }
    let md = json::members(plan.metadata);
    let first: int = if md == Map::<Seq<char>, JsonView>::empty() {
        0
    } else {
        1
    };
    if first == 1 {
        assert(rs@[0].deep_view() == wanted[0]);
    }
    if 0 <= i < plan.targets@.len() {
        assert(p.targets[i] == plan.targets@[i]@);
        assert(rs@[first + i].deep_view() == wanted[first + i]);
    }
}

/// A creation is answered with 201 and the entity of the stored asset, in which
/// every relation that was asked for is shown as it was given; a failure to store is
/// answered with 500 and its reason.
pub proof fn law_creation_is_answered(
    config: &EntityConfig,
    plan: &CreatePlan,
    created: Result<PdtAsset, String>,
    r: Result<(u16, Json), ApiError>,
    i: int,
    name: Seq<char>,
)
    requires
        call_ensures(create::create_entity_finish, (config, plan, created), r),
    ensures
        created matches Err(e) ==> r is Err && filter_laws::is_refused(
            r->Err_0.deep_view(),
            500,
            e@,
        ),
        created is Ok ==> r is Ok && r->Ok_0.0 == 201 && r->Ok_0.1.model() is Object,
        created is Ok && 0 <= i < plan.targets@.len() && (forall|j: int|
            i < j < plan.targets@.len() ==> (#[trigger] plan.targets@[j]).field@
                != plan.targets@[i].field@) ==> json_laws::has(
            r->Ok_0.1.model(),
            plan.targets@[i].field@,
            JsonView::Text(plan.targets@[i].id@),
        ),
        created is Ok && (forall|j: int|
            0 <= j < plan.targets@.len() ==> (#[trigger] plan.targets@[j]).field@ != name)
            ==> field_laws::shows(
            r->Ok_0.1.model()->Object_0,
            name,
            json::member_of(mapping::entity_of(created->Ok_0, *config), name),
        ),
{
    if let Ok(asset) = created {
        let m = mapping::entity_of(asset, *config);
        let targets = plan.deep_view().targets;
        assert forall|j: int| 0 <= j < targets.len() implies #[trigger] targets[j]
            == plan.targets@[j]@ by {}
        if 0 <= i < targets.len() && (forall|j: int|
            i < j < plan.targets@.len() ==> (#[trigger] plan.targets@[j]).field@
                != plan.targets@[i].field@) {
            assert forall|j: int| i < j < targets.len() implies (#[trigger] targets[j]).field
                != targets[i].field by {
                assert(plan.targets@[j].field@ != plan.targets@[i].field@);
            }
        }
        lemma_with_targets(m, targets, i, name);
        if forall|j: int|
            0 <= j < plan.targets@.len() ==> (#[trigger] plan.targets@[j]).field@ != name {
            assert forall|j: int| 0 <= j < targets.len() implies (#[trigger] targets[j]).field
                != name by {
                assert(plan.targets@[j].field@ != name);
            }
        }
    }
}

proof fn lemma_with_targets(
    m: Members,
    targets: Seq<create::TargetView>,
    i: int,
    name: Seq<char>,
)
    ensures
        0 <= i < targets.len() && (forall|j: int|
            i < j < targets.len() ==> (#[trigger] targets[j]).field != targets[i].field)
            ==> field_laws::shows(
            create::with_targets(m, targets),
            targets[i].field,
            Some(JsonView::Text(targets[i].id)),
        ),
        (forall|j: int| 0 <= j < targets.len() ==> (#[trigger] targets[j]).field != name)
            ==> field_laws::shows(
            create::with_targets(m, targets),
            name,
            json::member_of(m, name),
        ),
    decreases targets.len(),
{
    if targets.len() > 0 {
        let init = targets.drop_last();
        let n = targets.len() - 1;
        lemma_with_targets(m, init, i, name);
        assert(targets[n] == targets.last());
        if 0 <= i < n && (forall|j: int|
            i < j < targets.len() ==> (#[trigger] targets[j]).field != targets[i].field) {
            assert(targets[n].field != targets[i].field);
            assert(init[i] == targets[i]);
            assert forall|j: int| i < j < init.len() implies (#[trigger] init[j]).field
                != init[i].field by {
                assert(init[j] == targets[j]);
            }
        }
        if forall|j: int| 0 <= j < targets.len() ==> (#[trigger] targets[j]).field != name {
            assert(targets[n].field != name);
            assert forall|j: int| 0 <= j < init.len() implies (#[trigger] init[j]).field
                != name by {
                assert(init[j] == targets[j]);
            }
        }
    }
}

/// The request that stores a new entity carries the new asset as it is on the wire.
pub proof fn law_new_asset_is_what_is_stored(
    plan: &CreatePlan,
    pdt: &PdtClient,
    instance: Option<&str>,
    user: &AuthenticatedUser,
    answers: &Vec<Option<AuthContext>>,
    token: Option<&str>,
    q: PdtRequest,
    asset: CreateAssetRequest,
    wire: Json,
)
    requires
        call_ensures(create::create_entity_store, (plan, pdt, instance, user, answers, token), q),
        call_ensures(create::new_asset, (plan, user, answers), asset),
        call_ensures(CreateAssetRequest::to_json, (&asset,), wire),
    ensures
        q.body is Some && q.body->0.model() == wire.model(),
        asset.title@ == plan.title@,
        asset.content.deep_view() == plan.content.deep_view(),
{
    assert(q.deep_view().body is Some);
    assert(asset.deep_view().title == asset.title@);
    assert(asset.deep_view().content == asset.content.deep_view());
}

} // verus!
