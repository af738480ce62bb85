//! What holds of every creation.
use crate::entity_config::{self, EntityConfig, NamedField};
use crate::entity_handlers::create;
use crate::entity_handlers::listing;
use crate::entity_handlers::mapping::{self, PlaceView, Stored};
use crate::cedar::enforcement::ADMIN_GROUP_METADATA_KEY;
use crate::json::{self, JsonView, Members};
use crate::keyed;
use crate::pdt::types::{AuthContextView, PdtSearchResult};
use crate::tags::{self, TagPair};
use vstd::prelude::*;

verus! {

proof fn lemma_first_such(groups: Seq<Seq<char>>, p: spec_fn(Seq<char>) -> bool)
    ensures
        create::first_such(groups, p) matches Some(g) ==> groups.contains(g) && p(g),
        create::first_such(groups, p) is None <==> forall|i: int|
            0 <= i < groups.len() ==> !p(#[trigger] groups[i]),
    decreases groups.len(),
{
    if groups.len() > 0 {
        let rest = groups.drop_first();
        lemma_first_such(rest, p);
        if p(groups[0]) {
            assert(groups.contains(groups[0]));
        } else {
            if let Some(g) = create::first_such(rest, p) {
                let i = choose|i: int| 0 <= i < rest.len() && rest[i] == g;
                assert(groups[i + 1] == g);
            }
            assert forall|i: int| 0 <= i < rest.len() implies rest[i] == #[trigger] groups[i
                + 1] by {}
            if forall|i: int| 0 <= i < groups.len() ==> !p(#[trigger] groups[i]) {
                assert forall|i: int| 0 <= i < rest.len() implies !p(#[trigger] rest[i]) by {
                    assert(rest[i] == groups[i + 1]);
                }
            }
            if forall|i: int| 0 <= i < rest.len() ==> !p(#[trigger] rest[i]) {
                assert forall|i: int| 0 <= i < groups.len() implies !p(#[trigger] groups[i]) by {
                    if i > 0 {
                        assert(rest[i - 1] == groups[i]);
                    }
                }
            }
        }
    }
}

/// What a member of some groups creates is owned by one of these groups: by a
/// memory group, or by a workspace admin group where there is no memory group.
/// Nothing owns it exactly where there is neither.
pub proof fn law_owner_group(groups: Seq<Seq<char>>)
    ensures
        create::owner_group(groups) matches Some(g) ==> groups.contains(g) && (
        create::is_memory_group(g) || (create::is_workspace_admins(g) && forall|i: int|
            0 <= i < groups.len() ==> !create::is_memory_group(#[trigger] groups[i]))),
        create::owner_group(groups) is None <==> forall|i: int|
            0 <= i < groups.len() ==> !create::is_memory_group(#[trigger] groups[i])
                && !create::is_workspace_admins(groups[i]),
{
    let memory = |g: Seq<char>| create::is_memory_group(g);
    let admins = |g: Seq<char>| create::is_workspace_admins(g);
    lemma_first_such(groups, memory);
    lemma_first_such(groups, admins);
    assert forall|i: int| 0 <= i < groups.len() implies memory(#[trigger] groups[i])
        == create::is_memory_group(groups[i]) && admins(groups[i]) == create::is_workspace_admins(
        groups[i],
    ) by {}
}

/// The authorization context of what a new entity is related to wins.  Without
/// one, an agent identity belongs to the group that administers it, and anything
/// else to the creator's owner group.  Only a creator without such a group leaves
/// an entity without an authorization context.
pub proof fn law_born_with_a_context(
    inherited: Option<AuthContextView>,
    admin_group: Option<Seq<char>>,
    groups: Seq<Seq<char>>,
)
    ensures
        inherited is Some ==> create::new_context(inherited, admin_group, groups) == inherited,
        inherited is None && admin_group is Some ==> create::new_context(
            inherited,
            admin_group,
            groups,
        ) == Some(create::team_context(admin_group->0)),
        create::new_context(inherited, admin_group, groups) is None <==> inherited is None
            && admin_group is None && create::owner_group(groups) is None,
        inherited is None && admin_group is None && create::owner_group(groups) is Some ==> (
        create::new_context(inherited, admin_group, groups) matches Some(c)
            && c.owner_groups.contains(create::owner_group(groups)->0)),
{
    if let Some(g) = create::owner_group(groups) {
        assert(create::team_context(g).owner_groups[0] == g);
    }
}

/// A new entity carries every default tag of its kind, so that it is found again
/// as an entity of the kind.
pub proof fn law_created_entity_is_of_its_kind(
    config: EntityConfig,
    body: Members,
    instance: Option<Seq<char>>,
)
    requires
        keyed::distinct_keys(config.default_tags.entries()),
    ensures
        entity_config::tags_match(
            config.default_tags@,
            create::new_tags(config, body, instance),
        ),
{
    let entries = config.default_tags.entries();
    let all = create::new_tags(config, body, instance);
    keyed::lemma_map_of(entries);
    assert forall|category: Seq<char>| #[trigger]
        config.default_tags@.contains_key(category) implies all.contains(
        (category, config.default_tags@[category]@),
    ) by {
        let j = choose|j: int| 0 <= j < entries.len() && (#[trigger] entries[j]).0@ == category;
        assert(all[j] == create::default_pairs(entries)[j]);
        assert(all[j] == (category, config.default_tags@[category]@));
    }
}

proof fn lemma_first_value_behind(front: Seq<TagPair>, back: Seq<TagPair>, category: Seq<char>)
    requires
        forall|i: int| 0 <= i < front.len() ==> (#[trigger] front[i]).0 != category,
    ensures
        tags::first_value(front + back, category) == tags::first_value(back, category),
    decreases front.len(),
{
    if front.len() == 0 {
        assert(front + back =~= back);
    } else {
        let all = front + back;
        assert(all[0] == front[0]);
        assert(all.drop_first() =~= front.drop_first() + back);
        assert forall|i: int| 0 <= i < front.drop_first().len() implies (
        #[trigger] front.drop_first()[i]).0 != category by {
            assert(front.drop_first()[i] == front[i + 1]);
        }
        lemma_first_value_behind(front.drop_first(), back, category);
    }
}

proof fn lemma_first_value_push(s: Seq<TagPair>, t: TagPair, category: Seq<char>)
    ensures
        tags::first_value(s.push(t), category) == (match tags::first_value(s, category) {
            Some(v) => Some(v),
            None => if t.0 == category {
                Some(t.1)
            } else {
                None
            },
        }),
    decreases s.len(),
{
    if s.len() == 0 {
        let one = s.push(t);
        assert(one.drop_first() =~= Seq::empty());
        assert(one[0] == t);
        assert(tags::first_value(one.drop_first(), category) is None);
    } else {
        assert(s.push(t)[0] == s[0]);
        assert(s.push(t).drop_first() =~= s.drop_first().push(t));
        lemma_first_value_push(s.drop_first(), t, category);
    }
}

/// No default tag is of the category.
spec fn not_default(config: EntityConfig, category: Seq<char>) -> bool {
    forall|j: int|
        0 <= j < config.default_tags.entries().len() ==> (
        #[trigger] config.default_tags.entries()[j]).0@ != category
}

proof fn lemma_not_default(config: EntityConfig, category: Seq<char>)
    requires
        keyed::distinct_keys(config.default_tags.entries()),
        !config.default_tags@.contains_key(category),
    ensures
        not_default(config, category),
{
    keyed::lemma_map_of(config.default_tags.entries());
}

/// A new entity of an instance carries the instance as its agent, unless the kind
/// has an `agent` tag of its own.
pub proof fn law_created_entity_is_the_agents(
    config: EntityConfig,
    body: Members,
    agent: Seq<char>,
)
    requires
        keyed::distinct_keys(config.default_tags.entries()),
        !config.default_tags@.contains_key("agent"@),
    ensures
        tags::first_value(create::new_tags(config, body, Some(agent)), "agent"@) == Some(agent),
{
    let defaults = create::default_pairs(config.default_tags.entries());
    let back = create::agent_tag(Some(agent)) + create::field_tags(config.fields.entries(), body);
    lemma_not_default(config, "agent"@);
    assert(create::new_tags(config, body, Some(agent)) =~= defaults + back);
    assert forall|i: int| 0 <= i < defaults.len() implies (#[trigger] defaults[i]).0
        != "agent"@ by {
        assert(defaults[i].0 == config.default_tags.entries()[i].0@);
    }
    lemma_first_value_behind(defaults, back, "agent"@);
    assert(back[0] == ("agent"@, agent));
}

/// What an agent creates it finds again: a search result with the tags that the
/// new entity was given counts as of the same kind and of the same instance.
pub proof fn law_created_entity_is_found_again(
    config: EntityConfig,
    body: Members,
    instance: Option<Seq<char>>,
    result: PdtSearchResult,
)
    requires
        keyed::distinct_keys(config.default_tags.entries()),
        instance is Some ==> !config.default_tags@.contains_key("agent"@),
        tags::pairs(result.tags@) == create::new_tags(config, body, instance),
    ensures
        listing::is_candidate(config, instance, result),
{
    law_created_entity_is_of_its_kind(config, body, instance);
    if let Some(agent) = instance {
        law_created_entity_is_the_agents(config, body, agent);
    }
}

/// The title that a creation gives is read back, unless it is empty.
pub proof fn law_title_is_read_back(
    config: EntityConfig,
    body: Members,
    given: Seq<char>,
    s: Stored,
    name: Seq<char>,
)
    requires
        create::text_for(config.fields.entries(), PlaceView::TitleSuffix, body) == Some(given),
        given.len() > 0,
        s.title == create::new_title(config, body),
    ensures
        mapping::field_value(s, name, PlaceView::TitleSuffix, config.title_prefix@) == Some(
            JsonView::Text(given),
        ),
{
    let prefix = config.title_prefix@;
    assert(s.title == prefix + given);
    assert(s.title.subrange(0, prefix.len() as int) =~= prefix);
    assert(s.title.subrange(prefix.len() as int, s.title.len() as int) =~= given);
}

/// The content that a creation gives is read back, unless it is empty.
pub proof fn law_content_is_read_back(
    config: EntityConfig,
    body: Members,
    given: Seq<char>,
    s: Stored,
    name: Seq<char>,
)
    requires
        create::text_for(config.fields.entries(), PlaceView::Content, body) == Some(given),
        given.len() > 0,
        Some(s.content) == create::plan(config, body, None, None).content,
    ensures
        mapping::field_value(s, name, PlaceView::Content, config.title_prefix@) == Some(
            JsonView::Text(given),
        ),
{
}

proof fn lemma_field_tags_without(fields: Seq<NamedField>, body: Members, category: Seq<char>)
    requires
        forall|j: int|
            0 <= j < fields.len() ==> (create::field_tag(#[trigger] fields[j], body) matches Some(t)
                ==> t.0 != category),
    ensures
        tags::first_value(create::field_tags(fields, body), category) is None,
    decreases fields.len(),
{
    if fields.len() > 0 {
        let init = fields.drop_last();
        assert forall|j: int| 0 <= j < init.len() implies (create::field_tag(
            #[trigger] init[j],
            body,
        ) matches Some(t) ==> t.0 != category) by {
            assert(init[j] == fields[j]);
        }
        lemma_field_tags_without(init, body, category);
        assert(fields[fields.len() - 1] == fields.last());
        if let Some(t) = create::field_tag(fields.last(), body) {
            lemma_first_value_push(create::field_tags(init, body), t, category);
        }
    }
}

proof fn lemma_field_tag_first(
    fields: Seq<NamedField>,
    i: int,
    body: Members,
    category: Seq<char>,
    value: Seq<char>,
)
    requires
        0 <= i < fields.len(),
        create::field_tag(fields[i], body) == Some((category, value)),
        forall|j: int|
            0 <= j < i ==> (create::field_tag(#[trigger] fields[j], body) matches Some(t) ==> t.0
                != category),
    ensures
        tags::first_value(create::field_tags(fields, body), category) == Some(value),
    decreases fields.len(),
{
    let init = fields.drop_last();
    if i == fields.len() - 1 {
        assert forall|j: int| 0 <= j < init.len() implies (create::field_tag(
            #[trigger] init[j],
            body,
        ) matches Some(t) ==> t.0 != category) by {
            assert(init[j] == fields[j]);
        }
        lemma_field_tags_without(init, body, category);
        lemma_first_value_push(create::field_tags(init, body), (category, value), category);
    } else {
        assert(init[i] == fields[i]);
        assert forall|j: int| 0 <= j < i implies (create::field_tag(
            #[trigger] init[j],
            body,
        ) matches Some(t) ==> t.0 != category) by {
            assert(init[j] == fields[j]);
        }
        lemma_field_tag_first(init, i, body, category, value);
        if let Some(t) = create::field_tag(fields.last(), body) {
            lemma_first_value_push(create::field_tags(init, body), t, category);
        }
    }
}

/// The value that a creation gives a field kept in a tag, or the field's default,
/// is read back, unless something else gives the entity a tag of that category
/// first: the kind itself, the agent, or an earlier field.
pub proof fn law_tag_is_read_back(
    config: EntityConfig,
    body: Members,
    instance: Option<Seq<char>>,
    i: int,
    category: Seq<char>,
    value: Seq<char>,
    s: Stored,
)
    requires
        keyed::distinct_keys(config.default_tags.entries()),
        0 <= i < config.fields.entries().len(),
        mapping::place(config.fields.entries()[i].1.map.deep_view()) == PlaceView::Tag(category),
        create::text_or_default(config.fields.entries()[i], body) == Some(value),
        !config.default_tags@.contains_key(category),
        instance is Some ==> category != "agent"@,
        forall|j: int|
            0 <= j < i ==> mapping::place(
                (#[trigger] config.fields.entries()[j]).1.map.deep_view(),
            ) != PlaceView::Tag(category),
        s.tags == create::new_tags(config, body, instance),
    ensures
        mapping::field_value(
            s,
            config.fields.entries()[i].0@,
            PlaceView::Tag(category),
            config.title_prefix@,
        ) == Some(JsonView::Text(value)),
{
    let fields = config.fields.entries();
    let front = create::default_pairs(config.default_tags.entries()) + create::agent_tag(instance);
    let back = create::field_tags(fields, body);
    lemma_not_default(config, category);
    assert forall|k: int| 0 <= k < front.len() implies (#[trigger] front[k]).0 != category by {
        let n = config.default_tags.entries().len();
        if k < n {
            assert(front[k].0 == config.default_tags.entries()[k].0@);
        } else {
            assert(front[k] == ("agent"@, instance->0));
        }
    }
    lemma_first_value_behind(front, back, category);
    assert(create::field_tag(fields[i], body) == Some((category, value)));
    lemma_field_tag_first(fields, i, body, category, value);
}

proof fn lemma_field_metadata(
    fields: Seq<NamedField>,
    i: int,
    body: Members,
    key: Seq<char>,
    value: JsonView,
)
    requires
        0 <= i < fields.len(),
        mapping::place(fields[i].1.map.deep_view()) == PlaceView::Metadata(key),
        json::member_of(body, fields[i].0@) == Some(value),
        forall|j: int|
            i < j < fields.len() ==> mapping::place((#[trigger] fields[j]).1.map.deep_view())
                != PlaceView::Metadata(key),
    ensures
        json::member_of(create::field_metadata(fields, body), key) == Some(value),
    decreases fields.len(),
{
    let init = fields.drop_last();
    if i < fields.len() - 1 {
        assert(init[i] == fields[i]);
        assert forall|j: int| i < j < init.len() implies mapping::place(
            (#[trigger] init[j]).1.map.deep_view(),
        ) != PlaceView::Metadata(key) by {
            assert(init[j] == fields[j]);
        }
        lemma_field_metadata(init, i, body, key, value);
        assert(fields[fields.len() - 1] == fields.last());
    }
}

/// The value that a creation gives a field kept in the metadata is read back,
/// unless a later field, or the admin group, is kept under the same key.
pub proof fn law_metadata_is_read_back(
    config: EntityConfig,
    body: Members,
    admin_group: Option<Seq<char>>,
    i: int,
    key: Seq<char>,
    value: JsonView,
    s: Stored,
)
    requires
        0 <= i < config.fields.entries().len(),
        mapping::place(config.fields.entries()[i].1.map.deep_view()) == PlaceView::Metadata(key),
        json::member_of(body, config.fields.entries()[i].0@) == Some(value),
        forall|j: int|
            i < j < config.fields.entries().len() ==> mapping::place(
                (#[trigger] config.fields.entries()[j]).1.map.deep_view(),
            ) != PlaceView::Metadata(key),
        admin_group is Some ==> key != ADMIN_GROUP_METADATA_KEY@,
        s.metadata == create::new_metadata(config, body, admin_group),
    ensures
        mapping::field_value(
            s,
            config.fields.entries()[i].0@,
            PlaceView::Metadata(key),
            config.title_prefix@,
        ) == Some(value),
{
    lemma_field_metadata(config.fields.entries(), i, body, key, value);
}

/// The group that a creation declares for an agent identity is the group that a
/// later change of it is authorized against.
pub proof fn law_admin_group_is_anchored(
    config: EntityConfig,
    body: Members,
    group: Seq<char>,
    metadata: Members,
)
    requires
        metadata == create::new_metadata(config, body, Some(group)),
    ensures
        json::text_member_of(metadata, ADMIN_GROUP_METADATA_KEY@) == Some(group),
{
}

/// Where authorization is not in force, or the kind is another, what a request
/// declares as its admin group counts for nothing.
pub proof fn law_only_identities_declare_a_group(
    in_force: bool,
    config: EntityConfig,
    slug: Seq<char>,
    admins: Option<Seq<char>>,
)
    requires
        !in_force || slug != "agent-identity"@,
    ensures
        create::declared_group(in_force, config, slug, admins) is None,
{
}

proof fn lemma_no_missing_field(fields: Seq<NamedField>, body: Members)
    ensures
        create::missing_field(fields, body) is None <==> forall|i: int|
            0 <= i < fields.len() ==> ((#[trigger] fields[i]).1.required ==> body.contains_key(
                fields[i].0@,
            )),
    decreases fields.len(),
{
    if fields.len() > 0 {
        let rest = fields.drop_first();
        lemma_no_missing_field(rest, body);
        assert forall|i: int| 0 <= i < rest.len() implies rest[i] == #[trigger] fields[i + 1] by {}
        if forall|i: int|
            0 <= i < fields.len() ==> ((#[trigger] fields[i]).1.required ==> body.contains_key(
                fields[i].0@,
            )) {
            assert forall|i: int|
                0 <= i < rest.len() && (#[trigger] rest[i]).1.required implies body.contains_key(
                rest[i].0@,
            ) by {
                assert(rest[i] == fields[i + 1]);
            }
        }
        if forall|i: int|
            0 <= i < rest.len() ==> ((#[trigger] rest[i]).1.required ==> body.contains_key(
                rest[i].0@,
            )) {
            if !(fields[0].1.required && !body.contains_key(fields[0].0@)) {
                assert forall|i: int|
                    0 <= i < fields.len() && (
                    #[trigger] fields[i]).1.required implies body.contains_key(fields[i].0@) by {
                    if i > 0 {
                        assert(rest[i - 1] == fields[i]);
                    }
                }
            }
        }
    }
}

/// A permitted creation is planned exactly where its body is an object that gives
/// every required field.
pub proof fn law_creation_needs_required_fields(
    config: EntityConfig,
    body: JsonView,
    instance: Option<Seq<char>>,
    admin_group: Option<Seq<char>>,
)
    ensures
        create::plan_or_refusal(config, body, instance, admin_group, Ok(())) is Ok <==> (
        body matches JsonView::Object(m) && forall|i: int|
            0 <= i < config.fields.entries().len() ==> ((
            #[trigger] config.fields.entries()[i]).1.required ==> m.contains_key(
                config.fields.entries()[i].0@,
            ))),
{
    if let JsonView::Object(m) = body {
        lemma_no_missing_field(config.fields.entries(), m);
    }
}

} // verus!
