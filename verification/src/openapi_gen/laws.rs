//! What holds between the routes and the API description.
use crate::entity_config::EntityConfig;
use crate::entity_handlers::routes::{self, RouteMethod, RouteView};
use crate::json::{JsonView, Members};
use crate::openapi_gen::paths;
use crate::openapi_gen::required;
use vstd::prelude::*;

verus! {

/// The name of a method in an API description.
pub open spec fn method_name(m: RouteMethod) -> Seq<char> {
    match m {
        RouteMethod::Get => "get"@,
        RouteMethod::Post => "post"@,
        RouteMethod::Patch => "patch"@,
    }
}

/// A route of a kind is described under its path and its method.
pub open spec fn is_described(m: Members, r: RouteView) -> bool {
    m.contains_key(r.path) && m[r.path].member(method_name(r.method)) is Some
}

/// Every route of a kind is described where the kind is.
pub proof fn law_routes_of_a_kind_are_described(m: Members, config: EntityConfig, i: int)
    requires
        0 <= i < routes::generic_routes(config.slug@).len(),
    ensures
        is_described(paths::with_paths(m, config), routes::generic_routes(config.slug@)[i]),
{
    let slug = config.slug@;
    let base = paths::base_path(slug);
    let done = paths::with_paths(m, config);
    let r = routes::generic_routes(slug)[i];
    reveal_strlit("");
    reveal_strlit("/{id}");
    reveal_strlit("/{id}/content");
    reveal_strlit("/{id}/status");
    reveal_strlit("get");
    reveal_strlit("post");
    assert(base + ""@ =~= base);
    assert("get"@.len() != "post"@.len());
    assert((base + "/{id}"@).len() == base.len() + 5);
    assert((base + "/{id}/content"@).len() == base.len() + 13);
    assert((base + "/{id}/status"@).len() == base.len() + 12);
    assert(r.path == base || r.path == base + "/{id}"@ || r.path == base + "/{id}/content"@
        || r.path == base + "/{id}/status"@);
}

proof fn lemma_routes_have_paths(m: Members, configs: Seq<EntityConfig>, i: int)
    requires
        0 <= i < routes::routes(configs).len(),
    ensures
        paths::all_paths(m, configs).contains_key(routes::routes(configs)[i].path),
    decreases configs.len(),
{
    let init = configs.drop_last();
    let before = routes::routes(init);
    if i < before.len() {
        lemma_routes_have_paths(m, init, i);
        assert(routes::routes(configs)[i] == before[i]);
    } else {
        let last = configs.last();
        law_routes_of_a_kind_are_described(
            paths::all_paths(m, init),
            last,
            i - before.len(),
        );
        assert(routes::routes(configs)[i] == routes::generic_routes(last.slug@)[i - before.len()]);
    }
}

/// Every route of the server has its path in the API description.
pub proof fn law_every_route_has_its_path(base: Members, configs: Seq<EntityConfig>, i: int)
    requires
        0 <= i < routes::routes(configs).len(),
    ensures
        required::completed(JsonView::Object(paths::merged(base, configs))).member("paths"@) matches Some(
            p,
        ) && p.member(routes::routes(configs)[i].path) is Some,
{
    let key = routes::routes(configs)[i].path;
    let merged = paths::merged(base, configs);
    lemma_routes_have_paths(paths::object_member(base, "paths"@), configs, i);
    reveal_strlit("paths");
    reveal_strlit("components");
    reveal_strlit("required");
    assert("paths"@.len() == 5 && "components"@.len() == 10 && "required"@.len() == 8);
    assert(merged["paths"@] == JsonView::Object(
        paths::all_paths(paths::object_member(base, "paths"@), configs),
    ));
    required::law_completing_keeps_members(merged, "paths"@);
    required::law_completing_keeps_members(
        paths::all_paths(paths::object_member(base, "paths"@), configs),
        key,
    );
}

/// What the base description says of a path is kept, unless a kind of entity is
/// served there.
pub proof fn law_base_paths_are_kept(m: Members, configs: Seq<EntityConfig>, key: Seq<char>)
    requires
        m.contains_key(key),
        forall|i: int|
            0 <= i < routes::routes(configs).len() ==> (#[trigger] routes::routes(configs)[i]).path
                != key,
    ensures
        paths::all_paths(m, configs).contains_key(key),
        paths::all_paths(m, configs)[key] == m[key],
    decreases configs.len(),
{
    if configs.len() > 0 {
        let init = configs.drop_last();
        let last = configs.last();
        let before = routes::routes(init);
        assert forall|i: int| 0 <= i < before.len() implies (#[trigger] before[i]).path != key by {
            assert(routes::routes(configs)[i] == before[i]);
        }
        law_base_paths_are_kept(m, init, key);
        if last.handler@ == "generic"@ {
            let slug = last.slug@;
            let own = routes::generic_routes(slug);
            let base = paths::base_path(slug);
            reveal_strlit("");
            assert(base + ""@ =~= base);
            assert forall|i: int| 0 <= i < own.len() implies (#[trigger] own[i]).path != key by {
                assert(routes::routes(configs)[before.len() + i] == own[i]);
            }
            assert(own[0].path == base);
            assert(own[2].path == base + "/{id}"@);
            assert(own[own.len() - 1].path == base + "/{id}/status"@);
            if slug == "agent-identity"@ {
                assert(own[3].path == base + "/{id}/content"@);
            }
        }
    }
}

/// A kind that has a handler of its own has no route and nothing in the API
/// description.
pub proof fn law_other_handlers_are_left_alone(
    m: Members,
    configs: Seq<EntityConfig>,
    config: EntityConfig,
)
    requires
        config.handler@ != "generic"@,
    ensures
        routes::routes(configs.push(config)) == routes::routes(configs),
        paths::all_paths(m, configs.push(config)) == paths::all_paths(m, configs),
        paths::all_schemas(m, configs.push(config)) == paths::all_schemas(m, configs),
{
    assert(configs.push(config).drop_last() =~= configs);
}

/// The content of an entity can be changed only where the kind is the agent
/// identity.
pub proof fn law_only_identities_have_a_content_route(slug: Seq<char>, i: int)
    requires
        0 <= i < routes::generic_routes(slug).len(),
        routes::generic_routes(slug)[i].operation == routes::Operation::UpdateContent,
    ensures
        slug == "agent-identity"@,
{
}

} // verus!
