//! What every request to PDT says, in terms of what it is made for.
use crate::json::{self, Json, JsonView};
use crate::json_laws;
use crate::pdt::client::{self, InstancePdtClient, Method, PdtClient, PdtRequest, ReplyForm};
use crate::pdt::types::{
    AuthContext, CreateAssetRequest, CreateRelationRequest, CreateTagRequest, PdtAsset,
    PdtSearchResult, PdtTag,
};
use crate::tags_laws;
use crate::text;
use crate::text_laws;
use vstd::prelude::*;

verus! {

/// An object has a member exactly where there is a value for it.
pub open spec fn holds(v: JsonView, key: Seq<char>, value: Option<JsonView>) -> bool {
    match value {
        Some(x) => json_laws::has(v, key, x),
        None => json_laws::lacks(v, key),
    }
}

/// An optional text on the wire.
pub open spec fn opt_text(t: Option<Seq<char>>) -> Option<JsonView> {
    match t {
        Some(s) => Some(JsonView::Text(s)),
        None => None,
    }
}

/// The texts of a list on the wire.
pub open spec fn wire_texts(items: Seq<String>) -> JsonView {
    JsonView::List(items.map_values(|s: String| JsonView::Text(s@)))
}

/// A tag on the wire is its category and its value.
pub proof fn law_tag_on_the_wire(tag: &CreateTagRequest, r: Json, other: Seq<char>)
    requires
        call_ensures(CreateTagRequest::to_json, (tag,), r),
        other != "category"@ && other != "value"@,
    ensures
        json_laws::has(r.model(), "category"@, JsonView::Text(tag.category@)),
        json_laws::has(r.model(), "value"@, JsonView::Text(tag.value@)),
        json_laws::lacks(r.model(), other),
{
    reveal_strlit("category");
    reveal_strlit("value");
    assert("category"@.len() == 8 && "value"@.len() == 5);
}

/// An authorization context on the wire is its visibility, its groups and its
/// confidentiality.
pub proof fn law_context_on_the_wire(c: &AuthContext, r: Json, other: Seq<char>)
    requires
        call_ensures(AuthContext::to_json, (c,), r),
        other != "visibility"@ && other != "owner_groups"@ && other != "confidentiality"@,
    ensures
        json_laws::has(r.model(), "visibility"@, JsonView::Text(c.visibility@)),
        json_laws::has(r.model(), "owner_groups"@, wire_texts(c.owner_groups@)),
        json_laws::has(r.model(), "confidentiality"@, JsonView::Text(c.confidentiality@)),
        json_laws::lacks(r.model(), other),
{
    reveal_strlit("visibility");
    reveal_strlit("owner_groups");
    reveal_strlit("confidentiality");
    assert("visibility"@.len() == 10 && "owner_groups"@.len() == 12 && "confidentiality"@.len()
        == 15);
    assert(json::text_list(c.owner_groups.deep_view())->List_0
        =~= wire_texts(c.owner_groups@)->List_0);
}

/// An asset on the wire is its title, and its content, its tags and its
/// authorization context where it has them, each as it is.
pub proof fn law_asset_on_the_wire(
    req: &CreateAssetRequest,
    r: Json,
    i: int,
    tag: Json,
    context: Json,
    other: Seq<char>,
)
    requires
        call_ensures(CreateAssetRequest::to_json, (req,), r),
        req.tags is Some && 0 <= i < req.tags->0@.len() ==> call_ensures(
            CreateTagRequest::to_json,
            (&req.tags->0@[i],),
            tag,
        ),
        req.auth_context is Some ==> call_ensures(
            AuthContext::to_json,
            (&req.auth_context->0,),
            context,
        ),
        other != "title"@ && other != "content"@ && other != "tags"@ && other != "auth_context"@,
    ensures
        json_laws::has(r.model(), "title"@, JsonView::Text(req.title@)),
        holds(r.model(), "content"@, opt_text(req.content.deep_view())),
        req.tags is None ==> json_laws::lacks(r.model(), "tags"@),
        req.tags is Some ==> {
            let list = r.model()->Object_0["tags"@];
            &&& json_laws::has(r.model(), "tags"@, list)
            &&& list is List
            &&& list->List_0.len() == req.tags->0@.len()
            &&& 0 <= i < req.tags->0@.len() ==> list->List_0[i] == tag.model()
        },
        holds(
            r.model(),
            "auth_context"@,
            match req.auth_context {
                Some(_) => Some(context.model()),
                None => None,
            },
        ),
        json_laws::lacks(r.model(), other),
{
    reveal_strlit("title");
    reveal_strlit("content");
    reveal_strlit("tags");
    reveal_strlit("auth_context");
    assert("title"@.len() == 5 && "content"@.len() == 7 && "tags"@.len() == 4
        && "auth_context"@.len() == 12);
}

/// A relation on the wire is its two ends, its type, and its metadata where it has
/// any.
pub proof fn law_relation_on_the_wire(req: &CreateRelationRequest, r: Json, other: Seq<char>)
    requires
        call_ensures(CreateRelationRequest::to_json, (req,), r),
        other != "from_asset_id"@ && other != "to_asset_id"@ && other != "relation_type"@ && other
            != "metadata"@,
    ensures
        json_laws::has(r.model(), "from_asset_id"@, JsonView::Text(req.from_asset_id@)),
        json_laws::has(r.model(), "to_asset_id"@, JsonView::Text(req.to_asset_id@)),
        json_laws::has(r.model(), "relation_type"@, JsonView::Text(req.relation_type@)),
        holds(
            r.model(),
            "metadata"@,
            match req.metadata {
                Some(m) => Some(JsonView::Object(json::members(m))),
                None => None,
            },
        ),
        json_laws::lacks(r.model(), other),
{
    reveal_strlit("from_asset_id");
    reveal_strlit("to_asset_id");
    reveal_strlit("relation_type");
    reveal_strlit("metadata");
    assert("from_asset_id"@[0] == 'f' && "to_asset_id"@[0] == 't' && "relation_type"@[0] == 'r'
        && "metadata"@[0] == 'm');
}

/// An asset's value for a category is that of its first tag of the category, and so
/// it is of a search result.
pub proof fn law_first_tag_is_read(
    asset: &PdtAsset,
    found: &PdtSearchResult,
    category: &str,
    of_asset: Option<&str>,
    of_result: Option<&str>,
    i: int,
)
    requires
        call_ensures(PdtAsset::get_tag, (asset, category), of_asset),
        call_ensures(PdtSearchResult::get_tag, (found, category), of_result),
    ensures
        0 <= i < asset.tags@.len() && asset.tags@[i].category@ == category@ && (forall|j: int|
            0 <= j < i ==> (#[trigger] asset.tags@[j]).category@ != category@) ==> of_asset
            is Some && of_asset->0@ == asset.tags@[i].value@,
        (forall|j: int|
            0 <= j < asset.tags@.len() ==> (#[trigger] asset.tags@[j]).category@ != category@)
            ==> of_asset is None,
        0 <= i < found.tags@.len() && found.tags@[i].category@ == category@ && (forall|j: int|
            0 <= j < i ==> (#[trigger] found.tags@[j]).category@ != category@) ==> of_result
            is Some && of_result->0@ == found.tags@[i].value@,
        (forall|j: int|
            0 <= j < found.tags@.len() ==> (#[trigger] found.tags@[j]).category@ != category@)
            ==> of_result is None,
{
    let a = crate::tags::pairs(asset.tags@);
    let b = crate::tags::pairs(found.tags@);
    assert forall|j: int| 0 <= j < a.len() implies #[trigger] a[j] == (
        asset.tags@[j].category@,
        asset.tags@[j].value@,
    ) by {}
    assert forall|j: int| 0 <= j < b.len() implies #[trigger] b[j] == (
        found.tags@[j].category@,
        found.tags@[j].value@,
    ) by {}
    let x = a[i].1;
    let y = b[i].1;
    tags_laws::law_first_tag_counts(a, category@, x);
    tags_laws::law_first_tag_counts(b, category@, y);
    if 0 <= i < a.len() && asset.tags@[i].category@ == category@ && (forall|j: int|
        0 <= j < i ==> (#[trigger] asset.tags@[j]).category@ != category@) {
        assert(tags_laws::is_first(a, i, category@, x));
    }
    if 0 <= i < b.len() && found.tags@[i].category@ == category@ && (forall|j: int|
        0 <= j < i ==> (#[trigger] found.tags@[j]).category@ != category@) {
        assert(tags_laws::is_first(b, i, category@, y));
    }
}

/// What a request asks for, of whom, and how the reply is taken.
pub open spec fn asks(
    q: PdtRequest,
    method: Method,
    url: Seq<char>,
    token: Option<&str>,
    instance: Option<Seq<char>>,
    reply: ReplyForm,
) -> bool {
    &&& q.method == method
    &&& q.url@ == url
    &&& q.bearer is Some == token is Some
    &&& token is Some ==> q.bearer->0@ == token->0@
    &&& q.instance_id is Some == instance is Some
    &&& instance is Some ==> q.instance_id->0@ == instance->0
    &&& q.reply == reply
}

/// A request carries a body.
pub open spec fn carries(q: PdtRequest, body: JsonView) -> bool {
    q.body is Some && q.body->0.model() == body
}

/// A request looks at the status of the reply, and reports a refusal under a name.
pub open spec fn reports(q: PdtRequest, name: Seq<char>) -> bool {
    q.reported_as is Some && q.reported_as->0@ == name
}

/// A client keeps the address that it was made for, without the slashes at its end,
/// and a client for an instance has the same address, and the instance.
pub proof fn law_client_keeps_its_address(
    url: &str,
    c: PdtClient,
    b: &str,
    instance: Option<&str>,
    ic: InstancePdtClient,
    ib: &str,
    i: int,
)
    requires
        call_ensures(PdtClient::new, (url,), c),
        call_ensures(PdtClient::base_url, (&c,), b),
        call_ensures(PdtClient::for_instance, (&c, instance), ic),
        call_ensures(InstancePdtClient::base_url, (&ic,), ib),
    ensures
        b@.len() <= url@.len(),
        0 <= i < b@.len() ==> b@[i] == url@[i],
        b@.len() <= i < url@.len() ==> url@[i] == '/',
        b@.len() > 0 ==> b@.last() != '/',
        ib@ == b@,
        c.base() == b@,
        ic.base() == b@,
        ic.instance() == instance.deep_view(),
{
    text_laws::law_without_trailing(url@, '/');
    if 0 <= i < b@.len() {
        assert(url@.take(b@.len() as int)[i] == url@[i]);
    }
}

/// Assets with a tag are searched for by its category and value.
pub proof fn law_search_names_the_tag(
    c: &PdtClient,
    ic: &InstancePdtClient,
    category: &str,
    value: &str,
    token: Option<&str>,
    instance: Option<&str>,
    a: PdtRequest,
    b: PdtRequest,
    d: PdtRequest,
)
    requires
        call_ensures(PdtClient::search_by_tag, (c, category, value, token), a),
        call_ensures(
            PdtClient::search_by_tag_instance,
            (c, category, value, token, instance),
            b,
        ),
        call_ensures(InstancePdtClient::search_by_tag, (ic, category, value, token), d),
    ensures
        ({
            let path = "/api/search?tag="@ + category@ + ":"@ + value@ + "&limit=100"@;
            &&& asks(a, Method::Get, c.base() + path, token, None, ReplyForm::SearchResults)
            &&& asks(
                b,
                Method::Get,
                c.base() + path,
                token,
                instance.deep_view(),
                ReplyForm::SearchResults,
            )
            &&& asks(
                d,
                Method::Get,
                ic.base() + path,
                token,
                ic.instance(),
                ReplyForm::SearchResults,
            )
            &&& a.body is None && b.body is None && d.body is None
            &&& reports(a, "search"@) && reports(b, "search"@) && reports(d, "search"@)
        }),
{
    let path = "/api/search?tag="@ + category@ + ":"@ + value@ + "&limit=100"@;
    assert(client::search_url(c.base(), category@, value@) =~= c.base() + path);
    assert(client::search_url(ic.base(), category@, value@) =~= ic.base() + path);
    assert(a.url@ == a.deep_view().url && b.url@ == b.deep_view().url && d.url@
        == d.deep_view().url);
}

/// Skills are searched for by a query and a limit: the query is escaped, or has its
/// spaces made pluses in an instance.
pub proof fn law_skills_are_searched_for(
    c: &PdtClient,
    ic: &InstancePdtClient,
    query: &str,
    limit: i64,
    token: Option<&str>,
    escaped: String,
    a: PdtRequest,
    b: PdtRequest,
    plus: Seq<char>,
    n: Seq<char>,
)
    requires
        call_ensures(PdtClient::search_skills, (c, query, limit, token), a),
        call_ensures(InstancePdtClient::search_skills, (ic, query, limit, token), b),
        call_ensures(client::encode_query, (query,), escaped),
        plus.len() == query@.len(),
        forall|i: int|
            0 <= i < plus.len() ==> #[trigger] plus[i] == (if query@[i] == ' ' {
                '+'
            } else {
                query@[i]
            }),
        n == text::decimal(limit as int),
    ensures
        asks(
            a,
            Method::Get,
            c.base() + "/api/search?q="@ + escaped@ + "&tag=type:skill&limit="@ + n,
            token,
            None,
            ReplyForm::SearchResults,
        ),
        asks(
            b,
            Method::Get,
            ic.base() + "/api/search?q="@ + plus + "&tag=type:skill&limit="@ + n,
            token,
            ic.instance(),
            ReplyForm::SearchResults,
        ),
        a.body is None && b.body is None,
        a.reported_as is None && b.reported_as is None,
        limit >= 0 ==> text_laws::number_of(n) == limit,
        limit < 0 ==> n[0] == '-' && text_laws::number_of(n.skip(1)) == -limit,
{
    text_laws::law_decimal(limit as int);
    assert forall|i: int| 0 <= i < plus.len() implies #[trigger] plus[i] == text::replaced(
        query@,
        ' ',
        '+',
    )[i] by {
        text_laws::law_replaced(query@, ' ', '+', i);
    }
    text_laws::law_replaced(query@, ' ', '+', 0);
    assert(plus =~= text::replaced(query@, ' ', '+'));
    assert(client::skills_url(c.base(), escaped@, limit as int) =~= c.base() + "/api/search?q="@
        + escaped@ + "&tag=type:skill&limit="@ + n);
    assert(client::skills_url(ic.base(), plus, limit as int) =~= ic.base() + "/api/search?q="@
        + plus + "&tag=type:skill&limit="@ + n);
    assert(a.url@ == a.deep_view().url && b.url@ == b.deep_view().url);
}

/// The value of a hexadecimal digit, small or capital.
pub open spec fn digit_value(c: char) -> int {
    if '0' <= c && c <= '9' {
        c as int - '0' as int
    } else {
        c as int - 'A' as int + 10
    }
}

/// A character of a query stays if it is alphanumeric, `-` or `_`; any other becomes
/// `%` and two hexadecimal digits, which stand for its low byte.
pub proof fn law_query_characters(c: char, alphanumeric: bool, r: String)
    requires
        call_ensures(client::encode_char, (c, alphanumeric), r),
    ensures
        alphanumeric || c == '-' || c == '_' ==> r@ == seq![c],
        !alphanumeric && c != '-' && c != '_' ==> {
            &&& r@.len() == 3
            &&& r@[0] == '%'
            &&& 16 * digit_value(r@[1]) + digit_value(r@[2]) == c as int % 256
            &&& ('0' <= r@[1] && r@[1] <= '9') || ('A' <= r@[1] && r@[1] <= 'F')
            &&& ('0' <= r@[2] && r@[2] <= '9') || ('A' <= r@[2] && r@[2] <= 'F')
        },
{
}

/// A query is escaped character by character.
pub proof fn law_query_is_escaped_in_turn(
    a: &str,
    c: char,
    b: &str,
    of_a: String,
    of_c: String,
    of_b: String,
)
    requires
        b@ == a@.push(c),
        call_ensures(client::encode_query, (a,), of_a),
        call_ensures(client::encode_char, (c, client::is_alphanumeric(c)), of_c),
        call_ensures(client::encode_query, (b,), of_b),
    ensures
        of_b@ == of_a@ + of_c@,
        a@.len() == 0 ==> of_a@.len() == 0,
{
    assert(b@.drop_last() =~= a@);
}

/// An asset is read under its id, and so is its authorization context.
pub proof fn law_asset_is_read_under_its_id(
    c: &PdtClient,
    ic: &InstancePdtClient,
    id: &str,
    token: Option<&str>,
    instance: Option<&str>,
    a: PdtRequest,
    b: PdtRequest,
    d: PdtRequest,
    ca: PdtRequest,
    cd: PdtRequest,
)
    requires
        call_ensures(PdtClient::get_asset, (c, id, token), a),
        call_ensures(PdtClient::get_asset_instance, (c, id, token, instance), b),
        call_ensures(InstancePdtClient::get_asset, (ic, id, token), d),
        call_ensures(PdtClient::get_auth_context, (c, id, token), ca),
        call_ensures(InstancePdtClient::get_auth_context, (ic, id, token), cd),
    ensures
        ({
            let path = "/api/assets/"@ + id@;
            &&& asks(a, Method::Get, c.base() + path, token, None, ReplyForm::Asset)
            &&& asks(
                b,
                Method::Get,
                c.base() + path,
                token,
                instance.deep_view(),
                ReplyForm::Asset,
            )
            &&& asks(d, Method::Get, ic.base() + path, token, ic.instance(), ReplyForm::Asset)
            &&& asks(ca, Method::Get, c.base() + path, token, None, ReplyForm::Asset)
            &&& asks(cd, Method::Get, ic.base() + path, token, ic.instance(), ReplyForm::Asset)
            &&& a.body is None && b.body is None && d.body is None && ca.body is None && cd.body
                is None
            &&& reports(a, "get_asset"@) && reports(b, "get_asset"@) && reports(d, "get_asset"@)
                && reports(ca, "get_asset"@) && reports(cd, "get_asset"@)
        }),
{
    let path = "/api/assets/"@ + id@;
    assert(client::asset_url(c.base(), id@) =~= c.base() + path);
    assert(client::asset_url(ic.base(), id@) =~= ic.base() + path);
    assert(a.url@ == a.deep_view().url && b.url@ == b.deep_view().url && d.url@
        == d.deep_view().url && ca.url@ == ca.deep_view().url && cd.url@ == cd.deep_view().url);
}

/// An asset is stored as it is on the wire.
pub proof fn law_asset_is_stored_as_it_is(
    c: &PdtClient,
    ic: &InstancePdtClient,
    req: CreateAssetRequest,
    wire: Json,
    token: Option<&str>,
    instance: Option<&str>,
    a: PdtRequest,
    b: PdtRequest,
    d: PdtRequest,
)
    requires
        call_ensures(CreateAssetRequest::to_json, (&req,), wire),
        call_ensures(PdtClient::create_asset, (c, req, token), a),
        call_ensures(PdtClient::create_asset_instance, (c, req, token, instance), b),
        call_ensures(InstancePdtClient::create_asset, (ic, req, token), d),
    ensures
        ({
            let path = "/api/assets"@;
            &&& asks(a, Method::Post, c.base() + path, token, None, ReplyForm::AssetOrData)
            &&& asks(
                b,
                Method::Post,
                c.base() + path,
                token,
                instance.deep_view(),
                ReplyForm::AssetOrData,
            )
            &&& asks(
                d,
                Method::Post,
                ic.base() + path,
                token,
                ic.instance(),
                ReplyForm::AssetOrData,
            )
            &&& carries(a, wire.model()) && carries(b, wire.model()) && carries(d, wire.model())
            &&& a.reported_as is None && b.reported_as is None && d.reported_as is None
        }),
{
    assert(a.url@ == a.deep_view().url && b.url@ == b.deep_view().url && d.url@
        == d.deep_view().url);
}

/// The title of an asset is replaced by the given one, and its content by the given
/// one; nothing else is.
pub proof fn law_title_and_content_are_replaced(
    c: &PdtClient,
    ic: &InstancePdtClient,
    id: &str,
    t: &str,
    token: Option<&str>,
    title: PdtRequest,
    content: PdtRequest,
    ititle: PdtRequest,
    icontent: PdtRequest,
)
    requires
        call_ensures(PdtClient::update_asset_title, (c, id, t, token), title),
        call_ensures(PdtClient::update_asset_content, (c, id, t, token), content),
        call_ensures(InstancePdtClient::update_asset_title, (ic, id, t, token), ititle),
        call_ensures(InstancePdtClient::update_asset_content, (ic, id, t, token), icontent),
    ensures
        ({
            let url = c.base() + "/api/assets/"@ + id@;
            let iurl = ic.base() + "/api/assets/"@ + id@;
            let set_title = JsonView::Object(Map::empty().insert("title"@, JsonView::Text(t@)));
            let set_content = JsonView::Object(Map::empty().insert("content"@, JsonView::Text(t@)));
            &&& asks(title, Method::Put, url, token, None, ReplyForm::AssetOrData)
            &&& asks(content, Method::Put, url, token, None, ReplyForm::AssetOrData)
            &&& asks(ititle, Method::Put, iurl, token, ic.instance(), ReplyForm::AssetOrData)
            &&& asks(icontent, Method::Put, iurl, token, ic.instance(), ReplyForm::AssetOrData)
            &&& carries(title, set_title) && carries(ititle, set_title)
            &&& carries(content, set_content) && carries(icontent, set_content)
            &&& title.reported_as is None && content.reported_as is None && ititle.reported_as
                is None && icontent.reported_as is None
        }),
{
    assert(title.url@ == title.deep_view().url && content.url@ == content.deep_view().url);
    assert(ititle.url@ == ititle.deep_view().url && icontent.url@ == icontent.deep_view().url);
}

/// A relation is stored as it is on the wire, read with the others of its asset, and
/// removed under its id.
pub proof fn law_relations_are_stored_read_and_removed(
    c: &PdtClient,
    ic: &InstancePdtClient,
    req: CreateRelationRequest,
    wire: Json,
    id: &str,
    direction: Option<&str>,
    token: Option<&str>,
    stored: PdtRequest,
    read: PdtRequest,
    removed: PdtRequest,
    istored: PdtRequest,
    iread: PdtRequest,
    iremoved: PdtRequest,
)
    requires
        call_ensures(CreateRelationRequest::to_json, (&req,), wire),
        call_ensures(PdtClient::create_relation, (c, req, token), stored),
        call_ensures(PdtClient::get_relations, (c, id, direction, token), read),
        call_ensures(PdtClient::delete_relation, (c, id, token), removed),
        call_ensures(InstancePdtClient::create_relation, (ic, req, token), istored),
        call_ensures(InstancePdtClient::get_relations, (ic, id, direction, token), iread),
        call_ensures(InstancePdtClient::delete_relation, (ic, id, token), iremoved),
    ensures
        asks(stored, Method::Post, c.base() + "/api/relations"@, token, None, ReplyForm::Relation),
        asks(
            istored,
            Method::Post,
            ic.base() + "/api/relations"@,
            token,
            ic.instance(),
            ReplyForm::Relation,
        ),
        carries(stored, wire.model()) && carries(istored, wire.model()),
        asks(
            read,
            Method::Get,
            c.base() + "/api/assets/"@ + id@ + "/relations"@,
            token,
            None,
            ReplyForm::Relations,
        ),
        asks(
            iread,
            Method::Get,
            ic.base() + "/api/assets/"@ + id@ + "/relations"@,
            token,
            ic.instance(),
            ReplyForm::Relations,
        ),
        read.reported_as is None && reports(iread, "get_relations"@),
        asks(
            removed,
            Method::Delete,
            c.base() + "/api/relations/"@ + id@,
            token,
            None,
            ReplyForm::Nothing,
        ),
        asks(
            iremoved,
            Method::Delete,
            ic.base() + "/api/relations/"@ + id@,
            token,
            ic.instance(),
            ReplyForm::Nothing,
        ),
        read.body is None && iread.body is None && removed.body is None && iremoved.body is None,
{
    assert(stored.url@ == stored.deep_view().url && istored.url@ == istored.deep_view().url);
    assert(read.url@ == read.deep_view().url && iread.url@ == iread.deep_view().url);
    assert(removed.url@ == removed.deep_view().url && iremoved.url@ == iremoved.deep_view().url);
}

/// The tag at a position is the first of a category.
pub open spec fn is_first_of(tags: Seq<PdtTag>, category: Seq<char>, i: int) -> bool {
    &&& 0 <= i < tags.len()
    &&& tags[i].category@ == category
    &&& forall|j: int| 0 <= j < i ==> (#[trigger] tags[j]).category@ != category
}

/// No tag is of a category.
pub open spec fn none_of(tags: Seq<PdtTag>, category: Seq<char>) -> bool {
    forall|j: int| 0 <= j < tags.len() ==> (#[trigger] tags[j]).category@ != category
}

proof fn lemma_first_tag_id(tags: Seq<PdtTag>, category: Seq<char>, i: int)
    ensures
        is_first_of(tags, category, i) ==> client::first_tag_id(tags, category) == Some(
            tags[i].id@,
        ),
        none_of(tags, category) ==> client::first_tag_id(tags, category) is None,
    decreases tags.len(),
{
    if tags.len() > 0 {
        let rest = tags.drop_first();
        lemma_first_tag_id(rest, category, i - 1);
        assert forall|j: int| 0 <= j < rest.len() implies rest[j] == #[trigger] tags[j + 1] by {}
        if is_first_of(tags, category, i) && i > 0 {
            assert(tags[0].category@ != category);
            assert(rest[i - 1] == tags[i]);
            assert forall|j: int| 0 <= j < i - 1 implies (#[trigger] rest[j]).category@
                != category by {
                assert(rest[j] == tags[j + 1]);
            }
        }
        if none_of(tags, category) {
            assert(tags[0].category@ != category);
            assert forall|j: int| 0 <= j < rest.len() implies (#[trigger] rest[j]).category@
                != category by {
                assert(rest[j] == tags[j + 1]);
            }
        }
    }
}

/// A request adds a tag to an asset.
pub open spec fn adds_tag(
    q: PdtRequest,
    url: Seq<char>,
    token: Option<&str>,
    instance: Option<Seq<char>>,
    category: Seq<char>,
    value: Seq<char>,
) -> bool {
    &&& asks(q, Method::Post, url + "/tags"@, token, instance, ReplyForm::Nothing)
    &&& q.body is Some
    &&& json_laws::has(q.body->0.model(), "category"@, JsonView::Text(category))
    &&& json_laws::has(q.body->0.model(), "value"@, JsonView::Text(value))
    &&& q.reported_as is None
}

/// The tag of a category is replaced: the first one that the asset has goes, where
/// it has one; the new one is added; the asset is read.  In an instance the new one
/// is added and the asset is read.
pub proof fn law_tag_is_replaced(
    c: &PdtClient,
    ic: &InstancePdtClient,
    asset: &PdtAsset,
    id: &str,
    category: &str,
    value: &str,
    token: Option<&str>,
    rs: Vec<PdtRequest>,
    irs: Vec<PdtRequest>,
    i: int,
)
    requires
        call_ensures(PdtClient::update_asset_tag, (c, asset, id, category, value, token), rs),
        call_ensures(InstancePdtClient::update_asset_tag, (ic, id, category, value, token), irs),
    ensures
        ({
            let url = c.base() + "/api/assets/"@ + id@;
            let iurl = ic.base() + "/api/assets/"@ + id@;
            let n = rs@.len() as int;
            &&& is_first_of(asset.tags@, category@, i) ==> n == 3 && asks(
                rs@[0],
                Method::Delete,
                url + "/tags/"@ + asset.tags@[i].id@,
                token,
                None,
                ReplyForm::Nothing,
            ) && rs@[0].body is None
            &&& none_of(asset.tags@, category@) ==> n == 2
            &&& n >= 2
            &&& adds_tag(rs@[n - 2], url, token, None, category@, value@)
            &&& asks(rs@[n - 1], Method::Get, url, token, None, ReplyForm::Asset)
            &&& rs@[n - 1].body is None && reports(rs@[n - 1], "get_asset"@)
            &&& irs@.len() == 2
            &&& adds_tag(irs@[0], iurl, token, ic.instance(), category@, value@)
            &&& asks(irs@[1], Method::Get, iurl, token, ic.instance(), ReplyForm::Asset)
            &&& irs@[1].body is None && irs@[1].reported_as is None
        }),
{
    lemma_first_tag_id(asset.tags@, category@, i);
    reveal_strlit("category");
    reveal_strlit("value");
    assert("category"@.len() == 8 && "value"@.len() == 5);
    let sent = client::tag_replacement(
        c.base(),
        id@,
        client::first_tag_id(asset.tags@, category@),
        (category@, value@),
        token.deep_view(),
    );
    assert(rs.deep_view() == sent);
    assert(rs@.len() == sent.len());
    assert forall|j: int| 0 <= j < rs@.len() implies (#[trigger] rs@[j]).deep_view() == sent[j] by {
        assert(rs.deep_view()[j] == rs@[j].deep_view());
    }
    let isent = irs.deep_view();
    assert(irs@.len() == isent.len());
    assert(isent[0] == irs@[0].deep_view() && isent[1] == irs@[1].deep_view());
    let n = rs@.len() as int;
    assert(rs@[n - 2].deep_view() == sent[n - 2]);
    assert(rs@[n - 1].deep_view() == sent[n - 1]);
    assert(rs@[0].deep_view() == sent[0]);
    assert(rs@[0].url@ == rs@[0].deep_view().url);
    assert(rs@[n - 2].url@ == rs@[n - 2].deep_view().url);
    assert(rs@[n - 1].url@ == rs@[n - 1].deep_view().url);
    assert(irs@[0].url@ == irs@[0].deep_view().url);
    assert(irs@[1].url@ == irs@[1].deep_view().url);
}

/// A change of an authorization context holds what is given of it, and whether it
/// cascades.
pub proof fn law_context_is_changed_as_given(
    c: &PdtClient,
    ic: &InstancePdtClient,
    id: &str,
    visibility: Option<&str>,
    groups: Option<&Vec<String>>,
    confidentiality: Option<&str>,
    cascade: bool,
    token: Option<&str>,
    a: PdtRequest,
    b: PdtRequest,
)
    requires
        call_ensures(
            PdtClient::update_auth_context,
            (c, id, visibility, groups, confidentiality, cascade, token),
            a,
        ),
        call_ensures(
            InstancePdtClient::update_auth_context,
            (ic, id, visibility, groups, confidentiality, cascade, token),
            b,
        ),
    ensures
        asks(
            a,
            Method::Put,
            c.base() + "/api/assets/"@ + id@ + "/auth-context"@,
            token,
            None,
            ReplyForm::AssetOrData,
        ),
        asks(
            b,
            Method::Put,
            ic.base() + "/api/assets/"@ + id@ + "/auth-context"@,
            token,
            ic.instance(),
            ReplyForm::AssetOrData,
        ),
        a.body is Some && b.body is Some,
        a.body->0.model() == b.body->0.model(),
        holds(a.body->0.model(), "visibility"@, opt_text(visibility.deep_view())),
        holds(
            a.body->0.model(),
            "owner_groups"@,
            match groups {
                Some(g) => Some(wire_texts(g@)),
                None => None,
            },
        ),
        holds(a.body->0.model(), "confidentiality"@, opt_text(confidentiality.deep_view())),
        json_laws::has(a.body->0.model(), "cascade"@, JsonView::Bool(cascade)),
{
    reveal_strlit("visibility");
    reveal_strlit("owner_groups");
    reveal_strlit("confidentiality");
    reveal_strlit("cascade");
    assert("visibility"@.len() == 10 && "owner_groups"@.len() == 12 && "confidentiality"@.len()
        == 15 && "cascade"@.len() == 7);
    if let Some(g) = groups {
        assert(json::text_list(client::groups_of(groups)->0)->List_0 =~= wire_texts(g@)->List_0);
    }
    assert(a.url@ == a.deep_view().url && b.url@ == b.deep_view().url);
    assert(a.deep_view().body is Some && b.deep_view().body is Some);
}

/// Metadata are merged into an asset as they are; a missing token is sent as an
/// empty one.
pub proof fn law_metadata_are_sent_as_they_are(
    ic: &InstancePdtClient,
    id: &str,
    metadata: Json,
    token: Option<&str>,
    q: PdtRequest,
)
    requires
        call_ensures(InstancePdtClient::update_asset_metadata, (ic, id, metadata, token), q),
    ensures
        asks(
            q,
            Method::Put,
            ic.base() + "/api/assets/"@ + id@,
            Some((match token {
                Some(t) => t,
                None => "",
            })),
            ic.instance(),
            ReplyForm::Nothing,
        ),
        carries(q, JsonView::Object(Map::empty().insert("metadata"@, metadata.model()))),
        q.reported_as is None,
{
    assert(q.url@ == q.deep_view().url);
    assert(q.bearer.deep_view() == q.deep_view().bearer);
}

/// A reply counts as refused exactly where its status is looked at and is none of
/// those from 200 to 299; the report names the request, the status and the body.
pub proof fn law_refused_replies_are_reported(
    q: &PdtRequest,
    status: u16,
    status_text: &str,
    body: &str,
    r: Result<(), String>,
)
    requires
        call_ensures(PdtRequest::check_status, (q, status, status_text, body), r),
    ensures
        r is Ok <==> q.reported_as is None || (200 <= status && status <= 299),
        r matches Err(e) ==> e@ == "PDT "@ + q.reported_as->0@ + " failed ("@ + status_text@
            + "): "@ + body@,
{
}

/// A reply that holds a value directly gives that value, else the one under `data`,
/// else the reason why it could not be read.
pub proof fn law_direct_value_wins(
    direct: Result<PdtAsset, String>,
    wrapped: Option<PdtAsset>,
    body: &str,
    r: Result<PdtAsset, String>,
)
    requires
        call_ensures(client::parse_pdt_response::<PdtAsset>, (direct, wrapped, body), r),
    ensures
        direct matches Ok(v) ==> r == Ok::<PdtAsset, String>(v),
        direct is Err && wrapped is Some ==> r == Ok::<PdtAsset, String>(wrapped->0),
        direct is Err && wrapped is None ==> r is Err && r->Err_0@
            == "Failed to parse PDT response: "@ + direct->Err_0@ + " | body: "@ + body@,
{
}

} // verus!
