//! What is served where, and what discovery shows, in terms of the definitions.
use crate::entity_config::{EntityConfig, FieldConfig, FieldType, ViewConfig};
use crate::entity_handlers::routes::{self, Operation, Route, RouteMethod};
use crate::json::{Json, JsonNumber, JsonView};
use crate::json_laws;
use crate::text;
use vstd::prelude::*;

verus! {

/// A route of a kind: what it does, by which method, and what stands behind the
/// kind's own path.
pub open spec fn serves(
    r: Route,
    slug: Seq<char>,
    method: RouteMethod,
    rest: Seq<char>,
    operation: Operation,
) -> bool {
    &&& r.method == method
    &&& r.operation == operation
    &&& r.slug@ == slug
    &&& r.path@ == "/api/v1/"@ + slug + "s"@ + rest
}

/// One kind that the generic handler serves is listed, created, read and given a
/// status, in that order, and an agent identity is given a content before the
/// status; a kind with a handler of its own is not served.
pub proof fn law_routes_of_one_kind(configs: &Vec<EntityConfig>, r: Vec<Route>)
    requires
        call_ensures(routes::register_entity_routes, (configs,), r),
        configs@.len() == 1,
    ensures
        ({
            let slug = configs@[0].slug@;
            let n = r@.len() as int;
            &&& configs@[0].handler@ != "generic"@ ==> n == 0
            &&& configs@[0].handler@ == "generic"@ ==> {
                &&& n == (if slug == "agent-identity"@ {
                    5int
                } else {
                    4int
                })
                &&& serves(r@[0], slug, RouteMethod::Get, Seq::empty(), Operation::List)
                &&& serves(r@[1], slug, RouteMethod::Post, Seq::empty(), Operation::Create)
                &&& serves(r@[2], slug, RouteMethod::Get, "/{id}"@, Operation::Read)
                &&& n == 5 ==> serves(
                    r@[3],
                    slug,
                    RouteMethod::Patch,
                    "/{id}/content"@,
                    Operation::UpdateContent,
                )
                &&& serves(
                    r@[n - 1],
                    slug,
                    RouteMethod::Patch,
                    "/{id}/status"@,
                    Operation::UpdateStatus,
                )
            }
        }),
{
    let config = configs@[0];
    let slug = config.slug@;
    let all = routes::routes(configs@);
    let rs = routes::route_views(r@);
    assert(rs == all);
    assert(rs.len() == r@.len());
    assert(configs@.last() == config);
    assert(configs@.drop_last() =~= Seq::empty());
    assert(routes::routes(configs@.drop_last()) =~= Seq::empty());
    reveal_strlit("");
    assert(""@ =~= Seq::<char>::empty());
    if config.handler@ == "generic"@ {
        let own = routes::generic_routes(slug);
        assert(all =~= own);
        let n = r@.len() as int;
        assert(rs[0] == r@[0]@ && rs[1] == r@[1]@ && rs[2] == r@[2]@ && rs[n - 1] == r@[n - 1]@);
        assert(rs[0] == own[0] && rs[1] == own[1] && rs[2] == own[2] && rs[n - 1] == own[n - 1]);
        if slug == "agent-identity"@ {
            assert(rs[3] == r@[3]@ && rs[3] == own[3]);
        }
    }
}

/// The routes of several kinds are those of each, in order: the routes of two lists
/// of kinds, one behind the other, are those of the first and those of the second.
pub proof fn law_routes_of_all_kinds(
    a: &Vec<EntityConfig>,
    b: &Vec<EntityConfig>,
    both: &Vec<EntityConfig>,
    of_a: Vec<Route>,
    of_b: Vec<Route>,
    of_both: Vec<Route>,
    i: int,
)
    requires
        both@ == a@ + b@,
        call_ensures(routes::register_entity_routes, (a,), of_a),
        call_ensures(routes::register_entity_routes, (b,), of_b),
        call_ensures(routes::register_entity_routes, (both,), of_both),
    ensures
        of_both@.len() == of_a@.len() + of_b@.len(),
        0 <= i < of_a@.len() ==> of_both@[i]@ == of_a@[i]@,
        of_a@.len() <= i < of_both@.len() ==> of_both@[i]@ == of_b@[i - of_a@.len()]@,
        a@.len() == 0 ==> of_a@.len() == 0,
{
    lemma_routes_of_both(a@, b@);
    let x = routes::route_views(of_a@);
    let y = routes::route_views(of_b@);
    let z = routes::route_views(of_both@);
    assert(z == x + y);
    assert(x.len() == of_a@.len() && y.len() == of_b@.len() && z.len() == of_both@.len());
    if 0 <= i < of_a@.len() {
        assert(z[i] == x[i]);
    }
    if of_a@.len() <= i < of_both@.len() {
        assert(z[i] == y[i - of_a@.len()]);
    }
}

proof fn lemma_routes_of_both(a: Seq<EntityConfig>, b: Seq<EntityConfig>)
    ensures
        routes::routes(a + b) == routes::routes(a) + routes::routes(b),
    decreases b.len(),
{
    if b.len() == 0 {
        assert(a + b =~= a);
        assert(routes::routes(a) + routes::routes(b) =~= routes::routes(a));
    } else {
        lemma_routes_of_both(a, b.drop_last());
        assert((a + b).drop_last() =~= a + b.drop_last());
        assert((a + b).last() == b.last());
        assert(routes::routes(a + b) =~= routes::routes(a) + routes::routes(b));
    }
}

/// A route says what it holds.
pub proof fn law_routes_are_what_they_hold(a: Route, b: Route)
    ensures
        a@ == b@ <==> a.method == b.method && a.path@ == b.path@ && a.operation == b.operation
            && a.slug@ == b.slug@,
{
}

/// The name of a field's type.
pub open spec fn is_type_name(t: FieldType, name: Seq<char>) -> bool {
    &&& t is Text ==> name == "text"@
    &&& t is Markdown ==> name == "markdown"@
    &&& t is Enum ==> name == "enum"@
    &&& t is Date ==> name == "date"@
    &&& t is TagArray ==> name == "tagarray"@
    &&& t is Relation ==> name == "relation"@
    &&& t is Metadata ==> name == "metadata"@
}

/// A list of texts.
pub open spec fn text_items(items: Seq<String>) -> JsonView {
    JsonView::List(items.map_values(|s: String| JsonView::Text(s@)))
}

/// A field as it is shown: its name, its type, whether it is required, its label,
/// its values, whether it is a badge, and its views.
pub open spec fn shows_field(v: JsonView, name: Seq<char>, f: FieldConfig) -> bool {
    &&& json_laws::has(v, "name"@, JsonView::Text(name))
    &&& v->Object_0["type"@] is Text && is_type_name(f.field_type, v->Object_0["type"@]->Text_0)
    &&& v->Object_0.contains_key("type"@)
    &&& json_laws::has(v, "required"@, JsonView::Bool(f.required))
    &&& f.label is Some ==> json_laws::has(v, "label"@, JsonView::Text(f.label->0@))
    &&& f.label is None ==> json_laws::has(v, "label"@, JsonView::Null)
    &&& f.values is Some ==> json_laws::has(v, "values"@, text_items(f.values->0@))
    &&& f.values is None ==> json_laws::has(v, "values"@, JsonView::Null)
    &&& json_laws::has(v, "badge"@, JsonView::Bool(f.badge))
    &&& json_laws::has(v, "in_views"@, text_items(f.in_views@))
}

/// A view as it is shown: its layout and its fields.
pub open spec fn shows_view(v: JsonView, view: ViewConfig) -> bool {
    &&& json_laws::has(v, "layout"@, JsonView::Text(view.layout@))
    &&& json_laws::has(v, "fields"@, text_items(view.fields@))
}

proof fn lemma_field_shown(name: String, f: FieldConfig)
    ensures
        shows_field(routes::field_json((name, f)), name@, f),
{
    reveal_strlit("name");
    reveal_strlit("type");
    reveal_strlit("required");
    reveal_strlit("label");
    reveal_strlit("values");
    reveal_strlit("badge");
    reveal_strlit("in_views");
    assert("name"@.len() == 4 && "name"@[0] == 'n' && "type"@.len() == 4 && "type"@[0] == 't'
        && "required"@.len() == 8 && "required"@[0] == 'r' && "label"@.len() == 5 && "label"@[0]
        == 'l' && "values"@.len() == 6 && "badge"@.len() == 5 && "badge"@[0] == 'b'
        && "in_views"@.len() == 8 && "in_views"@[0] == 'i');
    if let Some(v) = f.values {
        assert(crate::json::text_list(text::views(v@))->List_0 =~= text_items(v@)->List_0);
    }
    assert(crate::json::text_list(text::views(f.in_views@))->List_0 =~= text_items(
        f.in_views@,
    )->List_0);
}

proof fn lemma_view_shown(view: ViewConfig)
    ensures
        shows_view(routes::view_json(view), view),
{
    reveal_strlit("layout");
    reveal_strlit("fields");
    assert("layout"@[0] == 'l' && "fields"@[0] == 'f');
    assert(crate::json::text_list(text::views(view.fields@))->List_0 =~= text_items(
        view.fields@,
    )->List_0);
}

/// Discovery shows every kind of entity, in order, with its name, its slug and the
/// prefix of its titles, and with all its fields and views, in order; and how many
/// kinds there are.
pub proof fn law_discovery_shows_every_definition(
    configs: &Vec<EntityConfig>,
    r: Json,
    k: int,
    i: int,
)
    requires
        call_ensures(routes::list_entity_configs, (configs,), r),
    ensures
        ({
            let list = r.model()->Object_0["entities"@];
            let shown = list->List_0[k];
            let c = configs@[k];
            let fields = shown->Object_0["fields"@];
            let views = shown->Object_0["views"@];
            &&& json_laws::has(
                r.model(),
                "total"@,
                JsonView::Number(JsonNumber::Unsigned(configs@.len() as u64)),
            )
            &&& json_laws::has(r.model(), "entities"@, list)
            &&& list is List && list->List_0.len() == configs@.len()
            &&& 0 <= k < configs@.len() ==> {
                &&& json_laws::has(shown, "name"@, JsonView::Text(c.name@))
                &&& json_laws::has(shown, "slug"@, JsonView::Text(c.slug@))
                &&& json_laws::has(shown, "title_prefix"@, JsonView::Text(c.title_prefix@))
                &&& json_laws::has(shown, "fields"@, fields)
                &&& json_laws::has(shown, "views"@, views)
                &&& fields is List && fields->List_0.len() == c.fields.entries().len()
                &&& views is List && views->List_0.len() == c.views.entries().len()
                &&& 0 <= i < c.fields.entries().len() ==> shows_field(
                    fields->List_0[i],
                    c.fields.entries()[i].0@,
                    c.fields.entries()[i].1,
                )
                &&& 0 <= i < c.views.entries().len() ==> shows_view(
                    views->List_0[i],
                    c.views.entries()[i].1,
                )
            }
        }),
{
    reveal_strlit("entities");
    reveal_strlit("total");
    reveal_strlit("name");
    reveal_strlit("slug");
    reveal_strlit("title_prefix");
    reveal_strlit("fields");
    reveal_strlit("views");
    assert("entities"@.len() == 8 && "total"@.len() == 5);
    assert("name"@.len() == 4 && "name"@[0] == 'n' && "slug"@.len() == 4 && "slug"@[0] == 's'
        && "title_prefix"@.len() == 12 && "fields"@.len() == 6 && "views"@.len() == 5);
    if 0 <= k < configs@.len() {
        let c = configs@[k];
        let shown = r.model()->Object_0["entities"@]->List_0[k];
        assert(shown == routes::config_json(c));
        if 0 <= i < c.fields.entries().len() {
            lemma_field_shown(c.fields.entries()[i].0, c.fields.entries()[i].1);
            assert(shown->Object_0["fields"@]->List_0[i] == routes::field_json(
                c.fields.entries()[i],
            ));
        }
        if 0 <= i < c.views.entries().len() {
            lemma_view_shown(c.views.entries()[i].1);
            assert(shown->Object_0["views"@]->List_0[i] == routes::view_json(
                c.views.entries()[i].1,
            ));
        }
    }
}

} // verus!
