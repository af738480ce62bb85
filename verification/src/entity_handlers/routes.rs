//! What is served where, and the discovery of the kinds of entities.
use crate::entity_config::{EntityConfig, FieldConfig, FieldType, NamedField, ViewConfig};
use crate::json::{self, opt_text, text, texts, Json, JsonNumber, JsonView};
use crate::objects::{self, make_obj2, make_obj5, make_obj7};
use crate::text::{self, join3, same};
use vstd::prelude::*;
use vstd::string::*;

verus! {

/// The method of a route.
#[derive(Clone, Copy, PartialEq, Eq, Structural, Debug)]
pub enum RouteMethod {
    Get,
    Post,
    Patch,
}

/// What a route does.
#[derive(Clone, Copy, PartialEq, Eq, Structural, Debug)]
pub enum Operation {
    List,
    Create,
    Read,
    UpdateContent,
    UpdateStatus,
}

/// A route.
pub struct Route {
    pub method: RouteMethod,
    pub path: String,
    pub operation: Operation,
    /// The kind of entity that is served.
    pub slug: String,
}

/// A route, as a value.
pub struct RouteView {
    pub method: RouteMethod,
    pub path: Seq<char>,
    pub operation: Operation,
    pub slug: Seq<char>,
}

impl View for Route {
    type V = RouteView;

    open spec fn view(&self) -> RouteView {
        RouteView {
            method: self.method,
            path: self.path@,
            operation: self.operation,
            slug: self.slug@,
        }
    }
}

/// A route of a kind.
pub open spec fn route(
    method: RouteMethod,
    slug: Seq<char>,
    rest: Seq<char>,
    operation: Operation,
) -> RouteView {
    RouteView { method, path: "/api/v1/"@ + slug + "s"@ + rest, operation, slug }
}

/// The routes of a kind that the generic handler serves.
pub open spec fn generic_routes(slug: Seq<char>) -> Seq<RouteView> {
    let front = seq![
        route(RouteMethod::Get, slug, ""@, Operation::List),
        route(RouteMethod::Post, slug, ""@, Operation::Create),
        route(RouteMethod::Get, slug, "/{id}"@, Operation::Read),
    ];
    let content = if slug == "agent-identity"@ {
        seq![route(RouteMethod::Patch, slug, "/{id}/content"@, Operation::UpdateContent)]
    } else {
        Seq::empty()
    };
    (front + content).push(
        route(RouteMethod::Patch, slug, "/{id}/status"@, Operation::UpdateStatus),
    )
}

/// The routes of all kinds that the generic handler serves, in order.
pub open spec fn routes(configs: Seq<EntityConfig>) -> Seq<RouteView>
    decreases configs.len(),
{
    if configs.len() == 0 {
        Seq::empty()
    } else if configs.last().handler@ == "generic"@ {
        routes(configs.drop_last()) + generic_routes(configs.last().slug@)
    } else {
        routes(configs.drop_last())
    }
}

/// The routes as values.
pub open spec fn route_views(s: Seq<Route>) -> Seq<RouteView> {
    s.map_values(|r: Route| r@)
}

fn push_route(
    list: &mut Vec<Route>,
    method: RouteMethod,
    slug: &str,
    rest: &str,
    operation: Operation,
)
    ensures
        route_views(final(list)@) == route_views(old(list)@).push(
            route(method, slug@, rest@, operation),
        ),
{
    let ghost before = list@;
    list.push(
        Route {
            method,
            path: join3("/api/v1/", slug, "s").concat(rest),
            operation,
            slug: slug.to_owned(),
        },
    );
    assert(route_views(list@) =~= route_views(before).push(route(method, slug@, rest@, operation)));
}

/// The routes of all kinds that the generic handler serves.
///
/// Each is listed, created, read and given a status; the content of an agent
/// identity can be changed as well.
pub fn register_entity_routes(configs: &Vec<EntityConfig>) -> (r: Vec<Route>)
    ensures
        route_views(r@) == routes(configs@),
{
    let ghost all = configs@;
    let mut list: Vec<Route> = Vec::new();
    let mut i: usize = 0;
    assert(route_views(list@) =~= routes(all.take(0)));
    while i < configs.len()
        invariant
            i <= configs.len(),
            all == configs@,
            route_views(list@) == routes(all.take(i as int)),
        decreases configs.len() - i,
    {
        let config = &configs[i];
        let ghost before = route_views(list@);
        proof {
            assert(all.take(i + 1).drop_last() =~= all.take(i as int));
            assert(all.take(i + 1).last() == *config);
        }
        if same(config.handler.as_str(), "generic") {
            let slug = config.slug.as_str();
            push_route(&mut list, RouteMethod::Get, slug, "", Operation::List);
            push_route(&mut list, RouteMethod::Post, slug, "", Operation::Create);
            push_route(&mut list, RouteMethod::Get, slug, "/{id}", Operation::Read);
            if same(slug, "agent-identity") {
                push_route(
                    &mut list,
                    RouteMethod::Patch,
                    slug,
                    "/{id}/content",
                    Operation::UpdateContent,
                );
            }
            push_route(
                &mut list,
                RouteMethod::Patch,
                slug,
                "/{id}/status",
                Operation::UpdateStatus,
            );
            assert(route_views(list@) =~= before + generic_routes(slug@));
        }
        i = i + 1;
    }
    assert(all.take(all.len() as int) =~= all);
    list
}

/// The name of a field type, in small letters.
pub open spec fn type_text(t: FieldType) -> Seq<char> {
    match t {
        FieldType::Text => "text"@,
        FieldType::Markdown => "markdown"@,
        FieldType::Enum => "enum"@,
        FieldType::Date => "date"@,
        FieldType::TagArray => "tagarray"@,
        FieldType::Relation => "relation"@,
        FieldType::Metadata => "metadata"@,
    }
}

fn field_type_name(t: FieldType) -> (r: &'static str)
    ensures
        r@ == type_text(t),
{
    match t {
        FieldType::Text => "text",
        FieldType::Markdown => "markdown",
        FieldType::Enum => "enum",
        FieldType::Date => "date",
        FieldType::TagArray => "tagarray",
        FieldType::Relation => "relation",
        FieldType::Metadata => "metadata",
    }
}

/// A field, as discovery shows it.
pub open spec fn field_json(f: NamedField) -> JsonView {
    objects::obj7(
        "name"@,
        JsonView::Text(f.0@),
        "type"@,
        JsonView::Text(type_text(f.1.field_type)),
        "required"@,
        JsonView::Bool(f.1.required),
        "label"@,
        json::text_or_null(f.1.label.deep_view()),
        "values"@,
        match f.1.values {
            Some(v) => json::text_list(text::views(v@)),
            None => JsonView::Null,
        },
        "badge"@,
        JsonView::Bool(f.1.badge),
        "in_views"@,
        json::text_list(text::views(f.1.in_views@)),
    )
}

fn write_field(named: &NamedField) -> (r: Json)
    ensures
        r.model() == field_json(*named),
{
    let f: &FieldConfig = &named.1;
    proof {
        text::lemma_views(f.in_views);
    }
    let label = match &f.label {
        Some(l) => Some(l.as_str()),
        None => None,
    };
    let values = match &f.values {
        Some(v) => {
            proof {
                text::lemma_views(*v);
            }
            texts(v)
        },
        None => Json::Null,
    };
    make_obj7(
        "name",
        text(named.0.as_str()),
        "type",
        text(field_type_name(f.field_type)),
        "required",
        Json::Bool(f.required),
        "label",
        opt_text(label),
        "values",
        values,
        "badge",
        Json::Bool(f.badge),
        "in_views",
        texts(&f.in_views),
    )
}

/// A view, as discovery shows it.
pub open spec fn view_json(v: ViewConfig) -> JsonView {
    objects::obj2(
        "layout"@,
        JsonView::Text(v.layout@),
        "fields"@,
        json::text_list(text::views(v.fields@)),
    )
}

fn write_view(v: &ViewConfig) -> (r: Json)
    ensures
        r.model() == view_json(*v),
{
    proof {
        text::lemma_views(v.fields);
    }
    make_obj2("layout", text(v.layout.as_str()), "fields", texts(&v.fields))
}

/// A kind of entity, as discovery shows it.
pub open spec fn config_json(c: EntityConfig) -> JsonView {
    objects::obj5(
        "name"@,
        JsonView::Text(c.name@),
        "slug"@,
        JsonView::Text(c.slug@),
        "title_prefix"@,
        JsonView::Text(c.title_prefix@),
        "fields"@,
        JsonView::List(c.fields.entries().map_values(|f: NamedField| field_json(f))),
        "views"@,
        JsonView::List(
            c.views.entries().map_values(|v: (String, ViewConfig)| view_json(v.1)),
        ),
    )
}

fn write_fields(c: &EntityConfig) -> (r: Json)
    ensures
        r.model() == JsonView::List(c.fields.entries().map_values(|f: NamedField| field_json(f))),
{
    let n: usize = c.fields.len();
    let mut list: Vec<Json> = Vec::new();
    let mut i: usize = 0;
    while i < n
        invariant
            i <= n,
            n == c.fields.entries().len(),
            list@.len() == i,
            forall|j: int|
                0 <= j < i ==> (#[trigger] list@[j]).model() == field_json(c.fields.entries()[j]),
        decreases n - i,
    {
        list.push(write_field(c.fields.entry(i)));
        i = i + 1;
    }
    let r = Json::List(list);
    assert(r.model()->List_0 =~= c.fields.entries().map_values(|f: NamedField| field_json(f)));
    r
}

fn write_views(c: &EntityConfig) -> (r: Json)
    ensures
        r.model() == JsonView::List(
            c.views.entries().map_values(|v: (String, ViewConfig)| view_json(v.1)),
        ),
{
    let n: usize = c.views.len();
    let mut list: Vec<Json> = Vec::new();
    let mut i: usize = 0;
    while i < n
        invariant
            i <= n,
            n == c.views.entries().len(),
            list@.len() == i,
            forall|j: int|
                0 <= j < i ==> (#[trigger] list@[j]).model() == view_json(c.views.entries()[j].1),
        decreases n - i,
    {
        list.push(write_view(&c.views.entry(i).1));
        i = i + 1;
    }
    let r = Json::List(list);
    assert(r.model()->List_0 =~= c.views.entries().map_values(
        |v: (String, ViewConfig)| view_json(v.1),
    ));
    r
}

fn write_config(c: &EntityConfig) -> (r: Json)
    ensures
        r.model() == config_json(*c),
{
    make_obj5(
        "name",
        text(c.name.as_str()),
        "slug",
        text(c.slug.as_str()),
        "title_prefix",
        text(c.title_prefix.as_str()),
        "fields",
        write_fields(c),
        "views",
        write_views(c),
    )
}

/// What discovery answers.
pub open spec fn discovery(configs: Seq<EntityConfig>) -> JsonView {
    objects::obj2(
        "entities"@,
        JsonView::List(configs.map_values(|c: EntityConfig| config_json(c))),
        "total"@,
        JsonView::Number(JsonNumber::Unsigned(configs.len() as u64)),
    )
}

/// Shows the kinds of entities, so that clients can discover them.
pub fn list_entity_configs(configs: &Vec<EntityConfig>) -> (r: Json)
    ensures
        r.model() == discovery(configs@),
{
    let mut list: Vec<Json> = Vec::new();
    let mut i: usize = 0;
    while i < configs.len()
        invariant
            i <= configs.len(),
            list@.len() == i,
            forall|j: int| 0 <= j < i ==> (#[trigger] list@[j]).model() == config_json(configs@[j]),
        decreases configs.len() - i,
    {
        list.push(write_config(&configs[i]));
        i = i + 1;
    }
    let total: u64 = configs.len() as u64;
    let entities = Json::List(list);
    assert(entities.model()->List_0 =~= configs@.map_values(|c: EntityConfig| config_json(c)));
    make_obj2("entities", entities, "total", Json::Number(JsonNumber::Unsigned(total)))
}

} // verus!
