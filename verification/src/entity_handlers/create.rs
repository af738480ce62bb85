//! Creating entities.
//!
//! A creation goes through steps.  First the request is checked and the asset is
//! planned; then the authorization context of what the entity is related to is
//! looked up; then the asset is stored, and what could not go with it is sent
//! after it.
use crate::api::{self, refuse, ApiError, BAD_REQUEST, CREATED, INTERNAL_SERVER_ERROR};
use crate::auth::extractor::{user_groups, AuthenticatedUser, UserView, WorkspaceAdmins};
use crate::cedar::enforcement::{
    self, check_permission_scoped, ADMIN_GROUP_METADATA_KEY,
};
use crate::entity_config::{
    self, as_text, slug_to_cedar_type, EntityConfig, FieldConfig, NamedField,
};
use crate::entity_handlers::listing::{self, find_config};
use crate::entity_handlers::mapping::{
    self, place_of, relation_type_of, Place, PlaceView,
};
use crate::json::{self, empty_object, member, put, text, text_member, with, Json, JsonView, Members};
use crate::keyed::KeyedList;
use crate::pdt::client::{self, PdtClient, PdtRequest, ReplyForm, RequestView};
use crate::pdt::types::{
    AuthContext, AuthContextView, CreateAssetRequest, CreateAssetView, CreateRelationRequest,
    CreateRelationView, CreateTagRequest, PdtAsset,
};
use crate::tags::{self, TagPair};
use crate::text::{self, before_char, ends_with, join2, owned, same, starts_with};
use vstd::prelude::*;
use vstd::string::*;

verus! {

/// The memory group of an agent: `mem-` and more, whatever follows an `@`.
pub open spec fn is_memory_group(g: Seq<char>) -> bool {
    text::has_prefix(text::before(g, '@'), "mem-"@)
}

/// The admin group of a workspace: `ws-`, more and `-admins`, whatever follows an
/// `@`.
pub open spec fn is_workspace_admins(g: Seq<char>) -> bool {
    let bare = text::before(g, '@');
    text::has_prefix(bare, "ws-"@) && text::has_suffix(bare, "-admins"@)
}

/// The first of the groups for which something holds.
pub open spec fn first_such(groups: Seq<Seq<char>>, p: spec_fn(Seq<char>) -> bool) -> Option<
    Seq<char>,
>
    decreases groups.len(),
{
    if groups.len() == 0 {
        None
    } else if p(groups[0]) {
        Some(groups[0])
    } else {
        first_such(groups.drop_first(), p)
    }
}

/// The group that owns what a member of the groups creates: the first memory
/// group, else the first workspace admin group.
pub open spec fn owner_group(groups: Seq<Seq<char>>) -> Option<Seq<char>> {
    match first_such(groups, |g: Seq<char>| is_memory_group(g)) {
        Some(g) => Some(g),
        None => first_such(groups, |g: Seq<char>| is_workspace_admins(g)),
    }
}

fn memory_group(g: &str) -> (r: bool)
    ensures
        r == is_memory_group(g@),
{
    starts_with(before_char(g, '@'), "mem-")
}

fn workspace_admins_group(g: &str) -> (r: bool)
    ensures
        r == is_workspace_admins(g@),
{
    let bare = before_char(g, '@');
    starts_with(bare, "ws-") && ends_with(bare, "-admins")
}

/// The group that owns what a member of the groups creates, in the form in which
/// the claim has it.
///
/// An agent's own memory group wins over the admin group of a workspace.  Other
/// groups never own anything.
pub fn pick_owner_group(groups: &[String]) -> (r: Option<String>)
    ensures
        r.deep_view() == owner_group(text::views(groups@)),
{
    let ghost all = text::views(groups@);
    let ghost memory = |g: Seq<char>| is_memory_group(g);
    let ghost admins = |g: Seq<char>| is_workspace_admins(g);
    assert(all.skip(0) =~= all);
    let mut i: usize = 0;
    while i < groups.len()
        invariant
            i <= groups.len(),
            all == text::views(groups@),
            memory == (|g: Seq<char>| is_memory_group(g)),
            first_such(all, memory) == first_such(all.skip(i as int), memory),
        decreases groups.len() - i,
    {
        proof {
            assert(all.skip(i as int).drop_first() =~= all.skip(i + 1));
            assert(all.skip(i as int)[0] == groups@[i as int]@);
        }
        if memory_group(groups[i].as_str()) {
            return Some(groups[i].clone());
        }
        i = i + 1;
    }
    let mut i: usize = 0;
    while i < groups.len()
        invariant
            i <= groups.len(),
            all == text::views(groups@),
            memory == (|g: Seq<char>| is_memory_group(g)),
            first_such(all, memory) is None,
            admins == (|g: Seq<char>| is_workspace_admins(g)),
            first_such(all, admins) == first_such(all.skip(i as int), admins),
        decreases groups.len() - i,
    {
        proof {
            assert(all.skip(i as int).drop_first() =~= all.skip(i + 1));
            assert(all.skip(i as int)[0] == groups@[i as int]@);
        }
        if workspace_admins_group(groups[i].as_str()) {
            return Some(groups[i].clone());
        }
        i = i + 1;
    }
    None
}

/// A relation that a new entity is given.
pub struct Target {
    /// The relation field.
    pub field: String,
    /// What the entity is related to.
    pub id: String,
    /// The PDT relation type.
    pub relation_type: String,
}

/// A relation that a new entity is given, as a value.
pub struct TargetView {
    pub field: Seq<char>,
    pub id: Seq<char>,
    pub relation_type: Seq<char>,
}

impl View for Target {
    type V = TargetView;

    open spec fn view(&self) -> TargetView {
        TargetView { field: self.field@, id: self.id@, relation_type: self.relation_type@ }
    }
}

/// What a creation is going to store.
pub struct CreatePlan {
    pub title: String,
    pub content: Option<String>,
    pub tags: Vec<CreateTagRequest>,
    pub metadata: KeyedList<Json>,
    pub targets: Vec<Target>,
    /// The group that administers the entity, where it is an agent identity.
    pub admin_group: Option<String>,
}

/// What a creation is going to store, as a value.
#[verifier::ext_equal]
pub struct PlanView {
    pub title: Seq<char>,
    pub content: Option<Seq<char>>,
    pub tags: Seq<TagPair>,
    pub metadata: Members,
    pub targets: Seq<TargetView>,
    pub admin_group: Option<Seq<char>>,
}

impl DeepView for CreatePlan {
    type V = PlanView;

    open spec fn deep_view(&self) -> PlanView {
        PlanView {
            title: self.title@,
            content: self.content.deep_view(),
            tags: tags::pairs(self.tags@),
            metadata: json::members(self.metadata),
            targets: self.targets@.map_values(|t: Target| t@),
            admin_group: self.admin_group.deep_view(),
        }
    }
}

/// The first field that is required and not given.
pub open spec fn missing_field(fields: Seq<NamedField>, body: Members) -> Option<Seq<char>>
    decreases fields.len(),
{
    if fields.len() == 0 {
        None
    } else if fields[0].1.required && !body.contains_key(fields[0].0@) {
        Some(fields[0].0@)
    } else {
        missing_field(fields.drop_first(), body)
    }
}

/// The text given for the first field that is kept at a place.
pub open spec fn text_for(fields: Seq<NamedField>, p: PlaceView, body: Members) -> Option<Seq<char>>
    decreases fields.len(),
{
    if fields.len() == 0 {
        None
    } else if mapping::place(fields[0].1.map.deep_view()) == p {
        json::text_member_of(body, fields[0].0@)
    } else {
        text_for(fields.drop_first(), p, body)
    }
}

/// The title of a new entity: the kind's prefix and the given title.
pub open spec fn new_title(config: EntityConfig, body: Members) -> Seq<char> {
    config.title_prefix@ + (match text_for(
        config.fields.entries(),
        PlaceView::TitleSuffix,
        body,
    ) {
        Some(t) => t,
        None => "Untitled"@,
    })
}

/// The default tags, in order.
pub open spec fn default_pairs(entries: Seq<(String, String)>) -> Seq<TagPair> {
    entries.map_values(|e: (String, String)| (e.0@, e.1@))
}

/// The text given for a field, or its default.
pub open spec fn text_or_default(field: NamedField, body: Members) -> Option<Seq<char>> {
    match json::text_member_of(body, field.0@) {
        Some(t) => Some(t),
        None => field.1.default.deep_view(),
    }
}

/// The tag that a field gives a new entity.
pub open spec fn field_tag(field: NamedField, body: Members) -> Option<TagPair> {
    match mapping::place(field.1.map.deep_view()) {
        PlaceView::Tag(category) => match text_or_default(field, body) {
            Some(v) => Some((category, v)),
            None => None,
        },
        _ => None,
    }
}

/// The tags that the fields give a new entity, in order.
pub open spec fn field_tags(fields: Seq<NamedField>, body: Members) -> Seq<TagPair>
    decreases fields.len(),
{
    if fields.len() == 0 {
        Seq::empty()
    } else {
        let init = field_tags(fields.drop_last(), body);
        match field_tag(fields.last(), body) {
            Some(t) => init.push(t),
            None => init,
        }
    }
}

/// The tag that names the agent of an instance.
pub open spec fn agent_tag(instance: Option<Seq<char>>) -> Seq<TagPair> {
    match instance {
        Some(agent) => seq![("agent"@, agent)],
        None => Seq::empty(),
    }
}

/// The tags of a new entity: the kind's own, the agent's, the fields'.
pub open spec fn new_tags(
    config: EntityConfig,
    body: Members,
    instance: Option<Seq<char>>,
) -> Seq<TagPair> {
    default_pairs(config.default_tags.entries()) + agent_tag(instance) + field_tags(
        config.fields.entries(),
        body,
    )
}

/// The metadata that the fields give a new entity.
pub open spec fn field_metadata(fields: Seq<NamedField>, body: Members) -> Members
    decreases fields.len(),
{
    if fields.len() == 0 {
        Map::empty()
    } else {
        let init = field_metadata(fields.drop_last(), body);
        let (name, field) = fields.last();
        match mapping::place(field.map.deep_view()) {
            PlaceView::Metadata(key) => match json::member_of(body, name@) {
                Some(v) => init.insert(key, v),
                None => init,
            },
            _ => init,
        }
    }
}

/// The metadata of a new entity: the fields', and the admin group where there is
/// one.
pub open spec fn new_metadata(
    config: EntityConfig,
    body: Members,
    admin_group: Option<Seq<char>>,
) -> Members {
    let m = field_metadata(config.fields.entries(), body);
    match admin_group {
        Some(g) => m.insert(ADMIN_GROUP_METADATA_KEY@, JsonView::Text(g)),
        None => m,
    }
}

/// The relations that a new entity is given, in order.
pub open spec fn new_targets(fields: Seq<NamedField>, body: Members) -> Seq<TargetView>
    decreases fields.len(),
{
    if fields.len() == 0 {
        Seq::empty()
    } else {
        let init = new_targets(fields.drop_last(), body);
        let (name, field) = fields.last();
        match json::text_member_of(body, name@) {
            Some(id) => init.push(
                TargetView { field: name@, id, relation_type: mapping::relation_type(field) },
            ),
            None => init,
        }
    }
}

/// What a creation is going to store.
pub open spec fn plan(
    config: EntityConfig,
    body: Members,
    instance: Option<Seq<char>>,
    admin_group: Option<Seq<char>>,
) -> PlanView {
    PlanView {
        title: new_title(config, body),
        content: text_for(config.fields.entries(), PlaceView::Content, body),
        tags: new_tags(config, body, instance),
        metadata: new_metadata(config, body, admin_group),
        targets: new_targets(config.relations(), body),
        admin_group,
    }
}

/// The refusal of a creation without a required field.
pub open spec fn missing_refusal(name: Seq<char>) -> api::ApiErrorView {
    api::ApiErrorView {
        status: BAD_REQUEST,
        body: JsonView::Object(
            Map::empty().insert("error"@, JsonView::Text("Validation failed"@)).insert(
                "details"@,
                JsonView::Text("Missing required field: "@ + name),
            ),
        ),
    }
}

/// What a creation comes to, given whether it is permitted: a refusal, or a plan.
pub open spec fn plan_or_refusal(
    config: EntityConfig,
    body: JsonView,
    instance: Option<Seq<char>>,
    admin_group: Option<Seq<char>>,
    permission: Result<(), u16>,
) -> Result<PlanView, api::ApiErrorView> {
    match permission {
        Err(status) => Err(api::refusal(status, "Access denied"@)),
        Ok(_) => match body {
            JsonView::Object(m) => match missing_field(config.fields.entries(), m) {
                Some(name) => Err(missing_refusal(name)),
                None => Ok(plan(config, m, instance, admin_group)),
            },
            _ => Err(api::refusal(BAD_REQUEST, "Request body must be a JSON object"@)),
        },
    }
}

/// A result as a value.
pub open spec fn planned(r: Result<CreatePlan, ApiError>) -> Result<PlanView, api::ApiErrorView> {
    match r {
        Ok(p) => Ok(p.deep_view()),
        Err(e) => Err(e.deep_view()),
    }
}

fn find_missing_field<'a>(fields: &'a KeyedList<FieldConfig>, body: &KeyedList<Json>) -> (r: Option<
    &'a str,
>)
    ensures
        r.deep_view() == missing_field(fields.entries(), json::members(*body)),
{
    let n: usize = fields.len();
    let ghost all = fields.entries();
    let ghost m = json::members(*body);
    let mut i: usize = 0;
    assert(all.skip(0) =~= all);
    while i < n
        invariant
            i <= n,
            n == all.len(),
            all == fields.entries(),
            m == json::members(*body),
            missing_field(all, m) == missing_field(all.skip(i as int), m),
        decreases n - i,
    {
        let e = fields.entry(i);
        proof {
            assert(all.skip(i as int).drop_first() =~= all.skip(i + 1));
            assert(all.skip(i as int)[0] == *e);
        }
        if e.1.required && member(body, e.0.as_str()).is_none() {
            return Some(e.0.as_str());
        }
        i = i + 1;
    }
    None
}

/// Whether a place is the title's or the content's.
#[derive(Clone, Copy, PartialEq, Eq, Structural, Debug)]
enum TextPlace {
    TitleSuffix,
    Content,
}

spec fn text_place(p: TextPlace) -> PlaceView {
    match p {
        TextPlace::TitleSuffix => PlaceView::TitleSuffix,
        TextPlace::Content => PlaceView::Content,
    }
}

fn is_at(place: &Place<'_>, p: TextPlace) -> (r: bool)
    ensures
        r == (place@ == text_place(p)),
{
    match (place, p) {
        (Place::TitleSuffix, TextPlace::TitleSuffix) => true,
        (Place::Content, TextPlace::Content) => true,
        _ => false,
    }
}

fn find_text_for<'a>(
    fields: &KeyedList<FieldConfig>,
    p: TextPlace,
    body: &'a KeyedList<Json>,
) -> (r: Option<&'a str>)
    ensures
        r.deep_view() == text_for(fields.entries(), text_place(p), json::members(*body)),
{
    let n: usize = fields.len();
    let ghost all = fields.entries();
    let ghost m = json::members(*body);
    let ghost at = text_place(p);
    let mut i: usize = 0;
    assert(all.skip(0) =~= all);
    while i < n
        invariant
            i <= n,
            n == all.len(),
            all == fields.entries(),
            m == json::members(*body),
            at == text_place(p),
            text_for(all, at, m) == text_for(all.skip(i as int), at, m),
        decreases n - i,
    {
        let e = fields.entry(i);
        proof {
            assert(all.skip(i as int).drop_first() =~= all.skip(i + 1));
            assert(all.skip(i as int)[0] == *e);
        }
        if is_at(&place_of(&e.1.map), p) {
            return text_member(body, e.0.as_str());
        }
        i = i + 1;
    }
    None
}

fn push_tag(list: &mut Vec<CreateTagRequest>, category: &str, value: &str)
    ensures
        tags::pairs(final(list)@) == tags::pairs(old(list)@).push((category@, value@)),
{
    let ghost before = list@;
    list.push(CreateTagRequest { category: category.to_owned(), value: value.to_owned() });
    assert(tags::pairs(list@) =~= tags::pairs(before).push((category@, value@)));
}

fn build_tags(config: &EntityConfig, body: &KeyedList<Json>, instance: Option<&str>) -> (r: Vec<
    CreateTagRequest,
>)
    ensures
        tags::pairs(r@) == new_tags(*config, json::members(*body), instance.deep_view()),
{
    let mut list: Vec<CreateTagRequest> = Vec::new();
    let ghost m = json::members(*body);
    let n: usize = config.default_tags.len();
    let ghost defaults = config.default_tags.entries();
    let mut i: usize = 0;
    assert(tags::pairs(list@) =~= default_pairs(defaults.take(0)));
    while i < n
        invariant
            i <= n,
            n == defaults.len(),
            defaults == config.default_tags.entries(),
            tags::pairs(list@) == default_pairs(defaults.take(i as int)),
        decreases n - i,
    {
        let e = config.default_tags.entry(i);
        push_tag(&mut list, e.0.as_str(), e.1.as_str());
        assert(default_pairs(defaults.take(i + 1)) =~= default_pairs(defaults.take(i as int)).push(
            (e.0@, e.1@),
        ));
        i = i + 1;
    }
    assert(defaults.take(n as int) =~= defaults);
    if let Some(agent) = instance {
        push_tag(&mut list, "agent", agent);
    }
    let ghost front = default_pairs(defaults) + agent_tag(instance.deep_view());
    assert(tags::pairs(list@) =~= front);
    let n: usize = config.fields.len();
    let ghost fields = config.fields.entries();
    let mut i: usize = 0;
    assert(front + field_tags(fields.take(0), m) =~= front);
    while i < n
        invariant
            i <= n,
            n == fields.len(),
            fields == config.fields.entries(),
            m == json::members(*body),
            tags::pairs(list@) == front + field_tags(fields.take(i as int), m),
        decreases n - i,
    {
        let e = config.fields.entry(i);
        let ghost before = field_tags(fields.take(i as int), m);
        proof {
            assert(fields.take(i + 1).drop_last() =~= fields.take(i as int));
            assert(fields.take(i + 1).last() == *e);
        }
        if let Place::Tag(category) = place_of(&e.1.map) {
            let value = match text_member(body, e.0.as_str()) {
                Some(v) => Some(v),
                None => as_text(&e.1.default),
            };
            if let Some(v) = value {
                push_tag(&mut list, category, v);
                assert(front + before.push((category@, v@)) =~= (front + before).push(
                    (category@, v@),
                ));
            }
        }
        i = i + 1;
    }
    assert(fields.take(n as int) =~= fields);
    list
}

fn build_metadata(config: &EntityConfig, body: &KeyedList<Json>, admin_group: Option<&str>) -> (r:
    KeyedList<Json>)
    ensures
        json::members(r) == new_metadata(
            *config,
            json::members(*body),
            admin_group.deep_view(),
        ),
{
    let mut list = empty_object();
    let ghost m = json::members(*body);
    let n: usize = config.fields.len();
    let ghost fields = config.fields.entries();
    let mut i: usize = 0;
    while i < n
        invariant
            i <= n,
            n == fields.len(),
            fields == config.fields.entries(),
            m == json::members(*body),
            json::members(list) == field_metadata(fields.take(i as int), m),
        decreases n - i,
    {
        let e = config.fields.entry(i);
        proof {
            assert(fields.take(i + 1).drop_last() =~= fields.take(i as int));
            assert(fields.take(i + 1).last() == *e);
        }
        if let Place::Metadata(key) = place_of(&e.1.map) {
            if let Some(v) = member(body, e.0.as_str()) {
                put(&mut list, key.to_owned(), v.clone());
            }
        }
        i = i + 1;
    }
    assert(fields.take(n as int) =~= fields);
    if let Some(g) = admin_group {
        put(&mut list, ADMIN_GROUP_METADATA_KEY.to_owned(), text(g));
    }
    list
}

/// The targets as values.
pub open spec fn target_views(s: Seq<Target>) -> Seq<TargetView> {
    s.map_values(|t: Target| t@)
}

fn build_targets(config: &EntityConfig, body: &KeyedList<Json>) -> (r: Vec<Target>)
    ensures
        target_views(r@) == new_targets(config.relations(), json::members(*body)),
{
    let fields = config.relation_fields();
    let ghost all = config.relations();
    let ghost m = json::members(*body);
    let mut list: Vec<Target> = Vec::new();
    let mut i: usize = 0;
    assert(target_views(list@) =~= new_targets(all.take(0), m));
    while i < fields.len()
        invariant
            i <= fields.len(),
            m == json::members(*body),
            all == entity_config::named_fields(fields@),
            target_views(list@) == new_targets(all.take(i as int), m),
        decreases fields.len() - i,
    {
        let (name, field) = fields[i];
        let ghost before = list@;
        proof {
            assert(all.take(i + 1).drop_last() =~= all.take(i as int));
            assert(all.take(i + 1).last() == (*name, *field));
        }
        if let Some(id) = text_member(body, name.as_str()) {
            let t = Target {
                field: name.clone(),
                id: id.to_owned(),
                relation_type: relation_type_of(field).to_owned(),
            };
            list.push(t);
            assert(target_views(list@) =~= target_views(before).push(t@));
        }
        i = i + 1;
    }
    assert(all.take(all.len() as int) =~= all);
    list
}

/// Checks a creation and plans it, given whether it is permitted.
pub fn plan_entity(
    config: &EntityConfig,
    body: &Json,
    instance: Option<&str>,
    admin_group: Option<&str>,
    permission: Result<(), u16>,
) -> (r: Result<CreatePlan, ApiError>)
    ensures
        planned(r) == plan_or_refusal(
            *config,
            body.model(),
            instance.deep_view(),
            admin_group.deep_view(),
            permission,
        ),
{
    if let Err(status) = permission {
        return Err(refuse(status, "Access denied"));
    }
    let object = match body.as_object() {
        Some(o) => o,
        None => {
            return Err(refuse(BAD_REQUEST, "Request body must be a JSON object"));
        },
    };
    if let Some(name) = find_missing_field(&config.fields, object) {
        let o = with(empty_object(), "error", text("Validation failed"));
        let o = with(o, "details", text(join2("Missing required field: ", name).as_str()));
        return Err(ApiError { status: BAD_REQUEST, body: Json::Object(o) });
    }
    let title_value = match find_text_for(&config.fields, TextPlace::TitleSuffix, object) {
        Some(t) => t,
        None => "Untitled",
    };
    let plan = CreatePlan {
        title: join2(config.title_prefix.as_str(), title_value),
        content: owned(find_text_for(&config.fields, TextPlace::Content, object)),
        tags: build_tags(config, object, instance),
        metadata: build_metadata(config, object, admin_group),
        targets: build_targets(config, object),
        admin_group: owned(admin_group),
    };
    Ok(plan)
}

/// The admin group that a creation declares: only for an agent identity, and only
/// where authorization is in force.
pub open spec fn declared_group(
    in_force: bool,
    config: EntityConfig,
    slug: Seq<char>,
    admins: Option<Seq<char>>,
) -> Option<Seq<char>> {
    if in_force && config.cedar.action_create is Some && slug == "agent-identity"@ {
        admins
    } else {
        None
    }
}

/// The attributes of a resource that a group administers.
pub open spec fn group_attrs(attrs: Seq<(String, String)>, group: Option<Seq<char>>) -> bool {
    match group {
        Some(g) => attrs.len() == 1 && attrs[0].0@ == ADMIN_GROUP_METADATA_KEY@ && attrs[0].1@ == g,
        None => attrs.len() == 0,
    }
}

/// A possible answer to whether the user may perform an action on an entity of
/// the kind: permission where authorization is not in force or the kind names no
/// such action, else what the policies say.
pub open spec fn possible_answer(
    authorizer: Option<&pep::cedar::CedarAuthorizer>,
    user: UserView,
    action: Option<Seq<char>>,
    slug: Seq<char>,
    id: Seq<char>,
    group: Option<Seq<char>>,
    answer: Result<(), u16>,
) -> bool {
    if authorizer is None || action is None {
        answer is Ok
    } else {
        exists|attrs: Seq<(String, String)>| #[trigger]
            group_attrs(attrs, group) && enforcement::sound(
                answer,
                enforcement::permitted(
                    *authorizer->0,
                    user.cedar_claims(),
                    action->0,
                    (entity_config::cedar_type(slug), id),
                    attrs,
                ),
            ) && enforcement::answered(
                answer,
                *authorizer->0,
                user.cedar_claims(),
                action->0,
                (entity_config::cedar_type(slug), id),
                attrs,
            )
    }
}

/// Whether the user may perform an action on an entity of a kind, which a group
/// may administer.
pub fn authorize(
    authorizer: Option<&pep::cedar::CedarAuthorizer>,
    user: &AuthenticatedUser,
    action: &Option<String>,
    slug: &str,
    id: &str,
    group: Option<&str>,
) -> (r: Result<(), u16>)
    ensures
        possible_answer(
            authorizer,
            user.deep_view(),
            action.deep_view(),
            slug@,
            id@,
            group.deep_view(),
            r,
        ),
{
    match (authorizer, action) {
        (Some(a), Some(action)) => {
            let claims = user.to_cedar_claims();
            let mut attrs: Vec<(String, String)> = Vec::new();
            if let Some(g) = group {
                attrs.push((ADMIN_GROUP_METADATA_KEY.to_owned(), g.to_owned()));
            }
            assert(group_attrs(attrs@, group.deep_view()));
            check_permission_scoped(
                a,
                &claims,
                action.as_str(),
                slug_to_cedar_type(slug).as_str(),
                id,
                &attrs,
            )
        },
        _ => Ok(()),
    }
}

/// Checks a creation and plans it.
///
/// The checks come in this order: the kind must be known, the user must be
/// permitted to create, the body must be an object, every required field must be
/// given.
pub fn create_entity_start(
    configs: &Vec<EntityConfig>,
    authorizer: Option<&pep::cedar::CedarAuthorizer>,
    user: &AuthenticatedUser,
    instance: Option<&str>,
    slug: &str,
    body: &Json,
    admins: &WorkspaceAdmins,
) -> (r: Result<CreatePlan, ApiError>)
    ensures
        match listing::config_for(configs@, slug@) {
            None => planned(r) == Err::<PlanView, api::ApiErrorView>(
                listing::unknown_entity(slug@),
            ),
            Some(config) => {
                let group = declared_group(
                    authorizer is Some,
                    config,
                    slug@,
                    admins.0.deep_view(),
                );
                exists|permission: Result<(), u16>| #[trigger]
                    possible_answer(
                        authorizer,
                        user.deep_view(),
                        config.cedar.action_create.deep_view(),
                        config.slug@,
                        "<_>"@,
                        group,
                        permission,
                    ) && planned(r) == plan_or_refusal(
                        config,
                        body.model(),
                        instance.deep_view(),
                        group,
                        permission,
                    )
            },
        },
{
    let config = match find_config(configs, slug) {
        Ok(c) => c,
        Err(e) => {
            return Err(e);
        },
    };
    let group = if authorizer.is_some() && config.cedar.action_create.is_some() && same(
        slug,
        "agent-identity",
    ) {
        as_text(&admins.0)
    } else {
        None
    };
    let permission = authorize(
        authorizer,
        user,
        &config.cedar.action_create,
        config.slug.as_str(),
        "<_>",
        group,
    );
    plan_entity(config, body, instance, group, permission)
}

/// The first authorization context among the answers.
pub open spec fn first_context(answers: Seq<Option<AuthContext>>) -> Option<AuthContextView>
    decreases answers.len(),
{
    if answers.len() == 0 {
        None
    } else if answers[0] is Some {
        answers[0].deep_view()
    } else {
        first_context(answers.drop_first())
    }
}

fn find_context<'a>(answers: &'a Vec<Option<AuthContext>>) -> (r: Option<&'a AuthContext>)
    ensures
        (match r {
            Some(c) => Some(c.deep_view()),
            None => None,
        }) == first_context(answers@),
{
    let mut i: usize = 0;
    assert(answers@.skip(0) =~= answers@);
    while i < answers.len()
        invariant
            i <= answers.len(),
            first_context(answers@) == first_context(answers@.skip(i as int)),
        decreases answers.len() - i,
    {
        proof {
            assert(answers@.skip(i as int).drop_first() =~= answers@.skip(i + 1));
            assert(answers@.skip(i as int)[0] == answers@[i as int]);
        }
        if let Some(c) = &answers[i] {
            return Some(c);
        }
        i = i + 1;
    }
    None
}

/// The next lookup of an authorization context that can be inherited.
///
/// What the entity is related to is looked up in order, until something has an
/// authorization context.  `answers` holds what came back so far.
pub fn next_parent_lookup(
    plan: &CreatePlan,
    pdt: &PdtClient,
    instance: Option<&str>,
    answers: &Vec<Option<AuthContext>>,
    token: Option<&str>,
) -> (r: Option<PdtRequest>)
    ensures
        r is Some == (first_context(answers@) is None && answers@.len() < plan.targets@.len()),
        r matches Some(q) ==> q.deep_view() == client::checked_get(
            client::asset_url(pdt.base(), plan.targets@[answers@.len() as int].id@),
            token.deep_view(),
            instance.deep_view(),
            "get_asset"@,
            ReplyForm::Asset,
        ),
{
    if find_context(answers).is_some() || answers.len() >= plan.targets.len() {
        None
    } else {
        Some(pdt.for_instance(instance).get_auth_context(plan.targets[answers.len()].id.as_str(), token))
    }
}

/// The authorization context in which a team's group owns something.
pub open spec fn team_context(group: Seq<char>) -> AuthContextView {
    AuthContextView { visibility: "team"@, owner_groups: seq![group], confidentiality: ""@ }
}

/// The authorization context of a new entity: the inherited one; else that of the
/// group that administers it, where it is an agent identity with one; else that
/// of the creator's owner group.
pub open spec fn new_context(
    inherited: Option<AuthContextView>,
    admin_group: Option<Seq<char>>,
    groups: Seq<Seq<char>>,
) -> Option<AuthContextView> {
    if inherited is Some {
        inherited
    } else {
        match admin_group {
            Some(g) => Some(team_context(g)),
            None => match owner_group(groups) {
                Some(g) => Some(team_context(g)),
                None => None,
            },
        }
    }
}

fn copy_context(c: &AuthContext) -> (r: AuthContext)
    ensures
        r.deep_view() == c.deep_view(),
{
    let mut groups: Vec<String> = Vec::new();
    let mut i: usize = 0;
    while i < c.owner_groups.len()
        invariant
            i <= c.owner_groups.len(),
            groups@.len() == i,
            forall|j: int| 0 <= j < i ==> (#[trigger] groups@[j])@ == c.owner_groups@[j]@,
        decreases c.owner_groups.len() - i,
    {
        groups.push(c.owner_groups[i].clone());
        i = i + 1;
    }
    assert(groups.deep_view() =~= c.owner_groups.deep_view());
    AuthContext {
        visibility: c.visibility.clone(),
        owner_groups: groups,
        confidentiality: c.confidentiality.clone(),
    }
}

fn owned_by(group: String) -> (r: AuthContext)
    ensures
        r.deep_view() == team_context(group@),
{
    let mut groups: Vec<String> = Vec::new();
    groups.push(group);
    assert(groups.deep_view() =~= seq![group@]);
    AuthContext { visibility: "team".to_owned(), owner_groups: groups, confidentiality: "".to_owned() }
}

/// What is stored of a new entity.
pub open spec fn asset_to_store(
    p: PlanView,
    user: UserView,
    answers: Seq<Option<AuthContext>>,
) -> CreateAssetView {
    CreateAssetView {
        title: p.title,
        content: p.content,
        tags: Some(p.tags),
        auth_context: new_context(first_context(answers), p.admin_group, user.groups()),
    }
}

/// The asset of a new entity.
///
/// It is born with an authorization context, so that its owners can read it: the
/// one of what it is related to, else one of its own.
pub fn new_asset(
    plan: &CreatePlan,
    user: &AuthenticatedUser,
    answers: &Vec<Option<AuthContext>>,
) -> (r: CreateAssetRequest)
    ensures
        r.deep_view() == asset_to_store(plan.deep_view(), user.deep_view(), answers@),
{
    let auth_context = match find_context(answers) {
        Some(c) => Some(copy_context(c)),
        None => match &plan.admin_group {
            Some(g) => Some(owned_by(g.clone())),
            None => match pick_owner_group(user_groups(user).as_slice()) {
                Some(g) => Some(owned_by(g)),
                None => None,
            },
        },
    };
    let mut list: Vec<CreateTagRequest> = Vec::new();
    let mut i: usize = 0;
    while i < plan.tags.len()
        invariant
            i <= plan.tags.len(),
            list@.len() == i,
            forall|j: int| 0 <= j < i ==> tags::pair(#[trigger] list@[j]) == tags::pair(plan.tags@[j]),
        decreases plan.tags.len() - i,
    {
        list.push(
            CreateTagRequest {
                category: plan.tags[i].category.clone(),
                value: plan.tags[i].value.clone(),
            },
        );
        i = i + 1;
    }
    assert(tags::pairs(list@) =~= tags::pairs(plan.tags@));
    CreateAssetRequest {
        title: plan.title.clone(),
        content: owned(as_text(&plan.content)),
        tags: Some(list),
        auth_context,
    }
}

/// The request that stores a new entity.
pub fn create_entity_store(
    plan: &CreatePlan,
    pdt: &PdtClient,
    instance: Option<&str>,
    user: &AuthenticatedUser,
    answers: &Vec<Option<AuthContext>>,
    token: Option<&str>,
) -> (r: PdtRequest)
    ensures
        r.deep_view() == client::request(
            client::Method::Post,
            client::assets_url(pdt.base()),
            token.deep_view(),
            instance.deep_view(),
            Some(asset_to_store(plan.deep_view(), user.deep_view(), answers@).json()),
            ReplyForm::AssetOrData,
        ),
{
    pdt.for_instance(instance).create_asset(new_asset(plan, user, answers), token)
}

/// The relation that a target asks for.
pub open spec fn target_relation(asset_id: Seq<char>, t: TargetView) -> CreateRelationView {
    CreateRelationView {
        from_asset_id: asset_id,
        to_asset_id: t.id,
        relation_type: t.relation_type,
        metadata: None,
    }
}

/// What is sent after a new asset: its metadata, where there is any, and its
/// relations.
pub open spec fn followups(
    p: PlanView,
    base: Seq<char>,
    instance: Option<Seq<char>>,
    asset_id: Seq<char>,
    token: Option<Seq<char>>,
) -> Seq<RequestView> {
    let metadata = if p.metadata =~= Map::empty() {
        Seq::empty()
    } else {
        seq![
            client::request(
                client::Method::Put,
                client::asset_url(base, asset_id),
                Some(
                    match token {
                        Some(t) => t,
                        None => ""@,
                    },
                ),
                instance,
                Some(
                    JsonView::Object(
                        Map::empty().insert("metadata"@, JsonView::Object(p.metadata)),
                    ),
                ),
                ReplyForm::Nothing,
            ),
        ]
    };
    metadata + p.targets.map_values(
        |t: TargetView|
            client::request(
                client::Method::Post,
                client::relations_url(base),
                token,
                instance,
                Some(target_relation(asset_id, t).json()),
                ReplyForm::Relation,
            ),
    )
}

/// What is sent after a new asset.  What comes back is not looked at.
pub fn create_entity_followups(
    plan: &CreatePlan,
    pdt: &PdtClient,
    instance: Option<&str>,
    asset_id: &str,
    token: Option<&str>,
) -> (r: Vec<PdtRequest>)
    ensures
        r.deep_view() == followups(
            plan.deep_view(),
            pdt.base(),
            instance.deep_view(),
            asset_id@,
            token.deep_view(),
        ),
{
    let client = pdt.for_instance(instance);
    let mut r: Vec<PdtRequest> = Vec::new();
    let ghost p = plan.deep_view();
    let ghost wanted = followups(
        p,
        pdt.base(),
        instance.deep_view(),
        asset_id@,
        token.deep_view(),
    );
    proof {
        json::lemma_empty(plan.metadata);
    }
    if plan.metadata.len() > 0 {
        r.push(
            client.update_asset_metadata(
                asset_id,
                Json::Object(json::copy_members(&plan.metadata)),
                token,
            ),
        );
    }
    let ghost k = r@.len() as int;
    let mut i: usize = 0;
    while i < plan.targets.len()
        invariant
            i <= plan.targets.len(),
            r@.len() == k + i,
            client.base() == pdt.base(),
            client.instance() == instance.deep_view(),
            p == plan.deep_view(),
            wanted == followups(
                p,
                pdt.base(),
                instance.deep_view(),
                asset_id@,
                token.deep_view(),
            ),
            wanted.len() == k + plan.targets@.len(),
            forall|j: int|
                0 <= j < plan.targets@.len() ==> #[trigger] wanted[k + j] == client::request(
                    client::Method::Post,
                    client::relations_url(pdt.base()),
                    token.deep_view(),
                    instance.deep_view(),
                    Some(target_relation(asset_id@, plan.targets@[j]@).json()),
                    ReplyForm::Relation,
                ),
            forall|j: int| 0 <= j < k + i ==> (#[trigger] r@[j]).deep_view() == wanted[j],
        decreases plan.targets.len() - i,
    {
        let t = &plan.targets[i];
        let relation = CreateRelationRequest {
            from_asset_id: asset_id.to_owned(),
            to_asset_id: t.id.clone(),
            relation_type: t.relation_type.clone(),
            metadata: None,
        };
        assert(relation.deep_view() == target_relation(asset_id@, t@));
        r.push(client.create_relation(relation, token));
        assert(wanted[k + i] == r@[k + i].deep_view());
        i = i + 1;
    }
    assert(r.deep_view() =~= wanted);
    r
}

/// The relation fields of a new entity.
pub open spec fn with_targets(m: Members, targets: Seq<TargetView>) -> Members
    decreases targets.len(),
{
    if targets.len() == 0 {
        m
    } else {
        with_targets(m, targets.drop_last()).insert(
            targets.last().field,
            JsonView::Text(targets.last().id),
        )
    }
}

/// The answer to a creation.
///
/// `created` is the asset as it was stored.  The entity is the asset's, with the
/// relation fields as they were given.
pub fn create_entity_finish(
    config: &EntityConfig,
    plan: &CreatePlan,
    created: Result<PdtAsset, String>,
) -> (r: Result<(u16, Json), ApiError>)
    ensures
        match created {
            Ok(asset) => r is Ok && r->Ok_0.0 == CREATED && r->Ok_0.1.model() == JsonView::Object(
                with_targets(
                    mapping::entity_of(asset, *config),
                    plan.deep_view().targets,
                ),
            ),
            Err(e) => r is Err && r->Err_0.deep_view() == api::refusal(
                INTERNAL_SERVER_ERROR,
                e@,
            ),
        },
{
    let asset = match created {
        Ok(a) => a,
        Err(e) => {
            return Err(refuse(INTERNAL_SERVER_ERROR, e.as_str()));
        },
    };
    let mut table = mapping::entity_table(&asset, config);
    let ghost start = json::members(table);
    let ghost all = plan.deep_view().targets;
    let mut i: usize = 0;
    while i < plan.targets.len()
        invariant
            i <= plan.targets.len(),
            all == target_views(plan.targets@),
            json::members(table) == with_targets(start, all.take(i as int)),
        decreases plan.targets.len() - i,
    {
        let t = &plan.targets[i];
        proof {
            assert(all.take(i + 1).drop_last() =~= all.take(i as int));
            assert(all.take(i + 1).last() == t@);
        }
        put(&mut table, t.field.clone(), text(t.id.as_str()));
        i = i + 1;
    }
    assert(all.take(all.len() as int) =~= all);
    Ok((CREATED, Json::Object(table)))
}

} // verus!
