//! The requests that PDT is sent, and how its replies are taken.
//!
//! A client turns each operation into a [`PdtRequest`]: the method, the URL, the
//! headers and the body, together with the form that the reply takes.  Sending
//! it is the caller's part.
use crate::json::{empty_object, text, texts, with, Json, JsonView};
use crate::pdt::types::{
    self, CreateAssetRequest, CreateRelationRequest, CreateTagRequest, PdtAsset, PdtTag,
};
use crate::tags::AsTagPair;
use crate::text::{
    self, decimal_text, join2, join3, owned, percent_byte, replace_char, same, trim_end_char,
};
use vstd::prelude::*;
use vstd::string::*;

verus! {

/// An HTTP method.
#[derive(Clone, Copy, PartialEq, Eq, Structural, Debug)]
pub enum Method {
    Get,
    Post,
    Put,
    Delete,
}

/// The form that a reply takes.
#[derive(Clone, Copy, PartialEq, Eq, Structural, Debug)]
pub enum ReplyForm {
    /// Search results under `data`.
    SearchResults,
    /// An asset.
    Asset,
    /// An asset, or an asset under `data`.
    AssetOrData,
    /// A relation.
    Relation,
    /// A list of relations.
    Relations,
    /// Nothing that is looked at.
    Nothing,
}

/// A request to PDT.
pub struct PdtRequest {
    pub method: Method,
    pub url: String,
    /// The bearer token, where there is one.
    pub bearer: Option<String>,
    /// The value of the `X-Instance-Id` header, where it is sent.
    pub instance_id: Option<String>,
    /// The JSON body, where there is one.
    pub body: Option<Json>,
    /// The name under which a refusal is reported, where the status is looked at.
    pub reported_as: Option<String>,
    pub reply: ReplyForm,
}

/// What a [`PdtRequest`] says.
#[verifier::ext_equal]
pub struct RequestView {
    pub method: Method,
    pub url: Seq<char>,
    pub bearer: Option<Seq<char>>,
    pub instance_id: Option<Seq<char>>,
    pub body: Option<JsonView>,
    pub reported_as: Option<Seq<char>>,
    pub reply: ReplyForm,
}

impl DeepView for PdtRequest {
    type V = RequestView;

    open spec fn deep_view(&self) -> RequestView {
        RequestView {
            method: self.method,
            url: self.url@,
            bearer: self.bearer.deep_view(),
            instance_id: self.instance_id.deep_view(),
            body: match self.body {
                Some(b) => Some(b.model()),
                None => None,
            },
            reported_as: self.reported_as.deep_view(),
            reply: self.reply,
        }
    }
}

/// The URL of the assets.
pub open spec fn assets_url(base: Seq<char>) -> Seq<char> {
    base + "/api/assets"@
}

/// The URL of an asset.
pub open spec fn asset_url(base: Seq<char>, id: Seq<char>) -> Seq<char> {
    base + "/api/assets/"@ + id
}

/// The URL of the relations.
pub open spec fn relations_url(base: Seq<char>) -> Seq<char> {
    base + "/api/relations"@
}

/// The URL of a relation.
pub open spec fn relation_url(base: Seq<char>, id: Seq<char>) -> Seq<char> {
    base + "/api/relations/"@ + id
}

/// The URL of a search for a tag.
pub open spec fn search_url(base: Seq<char>, category: Seq<char>, value: Seq<char>) -> Seq<char> {
    base + "/api/search?tag="@ + category + (":"@ + value + "&limit=100"@)
}

/// The URL of a search for skills.
pub open spec fn skills_url(base: Seq<char>, query: Seq<char>, limit: int) -> Seq<char> {
    base + "/api/search?q="@ + query + ("&tag=type:skill&limit="@ + text::decimal(limit))
}

/// A request without a body whose status is looked at.
pub open spec fn checked_get(
    url: Seq<char>,
    bearer: Option<Seq<char>>,
    instance_id: Option<Seq<char>>,
    operation: Seq<char>,
    reply: ReplyForm,
) -> RequestView {
    RequestView {
        method: Method::Get,
        url,
        bearer,
        instance_id,
        body: None,
        reported_as: Some(operation),
        reply,
    }
}

/// A request whose status is not looked at.
pub open spec fn request(
    method: Method,
    url: Seq<char>,
    bearer: Option<Seq<char>>,
    instance_id: Option<Seq<char>>,
    body: Option<JsonView>,
    reply: ReplyForm,
) -> RequestView {
    RequestView { method, url, bearer, instance_id, body, reported_as: None, reply }
}

/// The body that sets one text of an asset.
pub open spec fn text_body(key: Seq<char>, value: Seq<char>) -> JsonView {
    JsonView::Object(Map::empty().insert(key, JsonView::Text(value)))
}

/// The body that changes an authorization context: what is absent is left out.
pub open spec fn auth_context_body(
    visibility: Option<Seq<char>>,
    owner_groups: Option<Seq<Seq<char>>>,
    confidentiality: Option<Seq<char>>,
    cascade: bool,
) -> JsonView {
    let m = types::with_opt(
        Map::empty(),
        "visibility"@,
        match visibility {
            Some(v) => Some(JsonView::Text(v)),
            None => None,
        },
    );
    let m = types::with_opt(
        m,
        "owner_groups"@,
        match owner_groups {
            Some(g) => Some(crate::json::text_list(g)),
            None => None,
        },
    );
    let m = types::with_opt(
        m,
        "confidentiality"@,
        match confidentiality {
            Some(c) => Some(JsonView::Text(c)),
            None => None,
        },
    );
    JsonView::Object(m.insert("cascade"@, JsonView::Bool(cascade)))
}

/// The id of the first tag of a category.
pub open spec fn first_tag_id(tags: Seq<PdtTag>, category: Seq<char>) -> Option<Seq<char>>
    decreases tags.len(),
{
    if tags.len() == 0 {
        None
    } else if tags[0].category@ == category {
        Some(tags[0].id@)
    } else {
        first_tag_id(tags.drop_first(), category)
    }
}

/// Whether a status code says that the request succeeded.
pub open spec fn is_success(status: u16) -> bool {
    200 <= status < 300
}

/// The report of a refused request.
pub open spec fn refusal(
    operation: Seq<char>,
    status_text: Seq<char>,
    body: Seq<char>,
) -> Seq<char> {
    "PDT "@ + operation + " failed ("@ + status_text + "): "@ + body
}

impl PdtRequest {
    /// Looks at the status of the reply, where the request asks for that.
    pub fn check_status(&self, status: u16, status_text: &str, body: &str) -> (r: Result<
        (),
        String,
    >)
        ensures
            r is Err == (self.reported_as is Some && !is_success(status)),
            r matches Err(e) ==> e@ == refusal(self.reported_as->0@, status_text@, body@),
    {
        match &self.reported_as {
            Some(operation) => {
                if 200 <= status && status < 300 {
                    Ok(())
                } else {
                    Err(
                        join3("PDT ", operation.as_str(), " failed (").concat(status_text).concat(
                            "): ",
                        ).concat(body),
                    )
                }
            },
            None => Ok(()),
        }
    }
}

/// Takes a reply that holds a value directly or under `data`.
///
/// `direct` is the value read from the whole reply, or why it could not be read;
/// `wrapped` is the value read from under `data`.  The direct value wins.
pub fn parse_pdt_response<T>(direct: Result<T, String>, wrapped: Option<T>, body: &str) -> (r:
    Result<T, String>)
    ensures
        direct matches Ok(v) ==> r == Ok::<T, String>(v),
        direct is Err && wrapped is Some ==> r == Ok::<T, String>(wrapped->0),
        direct is Err && wrapped is None ==> (r matches Err(m) && m@
            == "Failed to parse PDT response: "@ + direct->Err_0@ + " | body: "@ + body@),
{
    match direct {
        Ok(v) => Ok(v),
        Err(e) => match wrapped {
            Some(v) => Ok(v),
            None => Err(
                join3("Failed to parse PDT response: ", e.as_str(), " | body: ").concat(body),
            ),
        },
    }
}

/// `char::is_alphanumeric`: whether a character is a letter or a number.
pub uninterp spec fn is_alphanumeric(c: char) -> bool;

/// `char::is_alphanumeric`, whose answer depends on the character alone.
pub assume_specification[ char::is_alphanumeric ](c: char) -> (r: bool)
    ensures
        r == is_alphanumeric(c),
;

/// A character of a query: kept if it is alphanumeric, `-` or `_`, else its low
/// byte behind `%`.
pub open spec fn query_char(c: char, alphanumeric: bool) -> Seq<char> {
    if alphanumeric || c == '-' || c == '_' {
        seq![c]
    } else {
        let b = (c as u32 % 256) as u8;
        seq!['%', text::hex_digit_upper(b / 16), text::hex_digit_upper(b % 16)]
    }
}

/// The characters of a query, each in its turn.
pub open spec fn query_text(query: Seq<char>) -> Seq<char>
    decreases query.len(),
{
    if query.len() == 0 {
        Seq::empty()
    } else {
        query_text(query.drop_last()) + query_char(query.last(), is_alphanumeric(query.last()))
    }
}

/// Writes a character of a query, given whether it is alphanumeric.
pub fn encode_char(c: char, alphanumeric: bool) -> (r: String)
    ensures
        r@ == query_char(c, alphanumeric),
{
    if alphanumeric || c == '-' || c == '_' {
        let mut r = String::new();
        r.push(c);
        assert(r@ =~= seq![c]);
        r
    } else {
        percent_byte((c as u32 % 256) as u8)
    }
}

/// Writes a query for a URL.
pub fn encode_query(query: &str) -> (r: String)
    ensures
        r@ == query_text(query@),
{
    let n: usize = query.unicode_len();
    let mut r = String::new();
    let mut i: usize = 0;
    while i < n
        invariant
            i <= n,
            n == query@.len(),
            r@ == query_text(query@.take(i as int)),
        decreases n - i,
    {
        let c = query.get_char(i);
        assert(query@.take(i + 1).drop_last() =~= query@.take(i as int));
        r = r.concat(encode_char(c, c.is_alphanumeric()).as_str());
        i = i + 1;
    }
    assert(query@.take(n as int) =~= query@);
    r
}

/// A client of a PDT server.
pub struct PdtClient {
    base_url: String,
}

impl PdtClient {
    /// The base URL.
    pub closed spec fn base(&self) -> Seq<char> {
        self.base_url@
    }

    #[verifier::type_invariant]
    spec fn trimmed(&self) -> bool {
        self.base_url@.len() > 0 ==> self.base_url@.last() != '/'
    }

    /// A client of the server at the given URL; slashes at its end are dropped.
    pub fn new(base_url: &str) -> (r: Self)
        ensures
            r.base() == text::without_trailing(base_url@, '/'),
    {
        proof {
            text::lemma_without_trailing(base_url@, '/');
        }
        PdtClient { base_url: trim_end_char(base_url, '/') }
    }

    /// The base URL.  It does not end in a slash.
    pub fn base_url(&self) -> (r: &str)
        ensures
            r@ == self.base(),
            r@.len() > 0 ==> r@.last() != '/',
    {
        proof {
            use_type_invariant(self);
        }
        self.base_url.as_str()
    }

    /// A request without an instance.
    fn req(
        &self,
        method: Method,
        url: String,
        token: Option<&str>,
        body: Option<Json>,
        reply: ReplyForm,
    ) -> (r: PdtRequest)
        ensures
            r.deep_view() == request(
                method,
                url@,
                token.deep_view(),
                None,
                (match body {
                    Some(b) => Some(b.model()),
                    None => None,
                }),
                reply,
            ),
    {
        self.req_with_instance(method, url, token, None, body, reply)
    }

    /// A request, routed to an instance where one is given.
    fn req_with_instance(
        &self,
        method: Method,
        url: String,
        token: Option<&str>,
        instance_id: Option<&str>,
        body: Option<Json>,
        reply: ReplyForm,
    ) -> (r: PdtRequest)
        ensures
            r.deep_view() == request(
                method,
                url@,
                token.deep_view(),
                instance_id.deep_view(),
                (match body {
                    Some(b) => Some(b.model()),
                    None => None,
                }),
                reply,
            ),
    {
        PdtRequest {
            method,
            url,
            bearer: owned(token),
            instance_id: owned(instance_id),
            body,
            reported_as: None,
            reply,
        }
    }

    /// A request for something, whose status is looked at.
    fn checked(
        &self,
        url: String,
        token: Option<&str>,
        instance_id: Option<&str>,
        operation: &str,
        reply: ReplyForm,
    ) -> (r: PdtRequest)
        ensures
            r.deep_view() == checked_get(
                url@,
                token.deep_view(),
                instance_id.deep_view(),
                operation@,
                reply,
            ),
    {
        let mut r = self.req_with_instance(Method::Get, url, token, instance_id, None, reply);
        r.reported_as = Some(operation.to_owned());
        r
    }

    /// The URL of an asset, with more behind it.
    fn asset_path(&self, id: &str, more: &str) -> (r: String)
        ensures
            r@ == asset_url(self.base(), id@) + more@,
    {
        join3(self.base_url.as_str(), "/api/assets/", id).concat(more)
    }

    /// The URL of an asset.
    fn asset_path_of(&self, id: &str) -> (r: String)
        ensures
            r@ == asset_url(self.base(), id@),
    {
        join3(self.base_url.as_str(), "/api/assets/", id)
    }

    /// The same client for one instance: the instance goes with every request.
    pub fn for_instance(&self, instance_id: Option<&str>) -> (r: InstancePdtClient<'_>)
        ensures
            r.base() == self.base(),
            r.instance() == instance_id.deep_view(),
    {
        InstancePdtClient { client: self, instance_id: owned(instance_id) }
    }

    /// Searches for assets with a tag.
    pub fn search_by_tag(&self, category: &str, value: &str, token: Option<&str>) -> (r: PdtRequest)
        ensures
            r.deep_view() == checked_get(
                search_url(self.base(), category@, value@),
                token.deep_view(),
                None,
                "search"@,
                ReplyForm::SearchResults,
            ),
    {
        self.search_by_tag_instance(category, value, token, None)
    }

    /// Searches for assets with a tag, in an instance.
    pub fn search_by_tag_instance(
        &self,
        category: &str,
        value: &str,
        token: Option<&str>,
        instance_id: Option<&str>,
    ) -> (r: PdtRequest)
        ensures
            r.deep_view() == checked_get(
                search_url(self.base(), category@, value@),
                token.deep_view(),
                instance_id.deep_view(),
                "search"@,
                ReplyForm::SearchResults,
            ),
    {
        let url = join3(self.base_url.as_str(), "/api/search?tag=", category).concat(
            join3(":", value, "&limit=100").as_str(),
        );
        self.checked(url, token, instance_id, "search", ReplyForm::SearchResults)
    }

    /// Searches for skills.
    pub fn search_skills(&self, query: &str, limit: i64, token: Option<&str>) -> (r: PdtRequest)
        ensures
            r.deep_view() == request(
                Method::Get,
                skills_url(self.base(), query_text(query@), limit as int),
                token.deep_view(),
                None,
                None,
                ReplyForm::SearchResults,
            ),
    {
        let encoded = encode_query(query);
        let url = join3(self.base_url.as_str(), "/api/search?q=", encoded.as_str()).concat(
            join2("&tag=type:skill&limit=", decimal_text(limit).as_str()).as_str(),
        );
        self.req(Method::Get, url, token, None, ReplyForm::SearchResults)
    }

    /// Reads an asset.
    pub fn get_asset(&self, id: &str, token: Option<&str>) -> (r: PdtRequest)
        ensures
            r.deep_view() == checked_get(
                asset_url(self.base(), id@),
                token.deep_view(),
                None,
                "get_asset"@,
                ReplyForm::Asset,
            ),
    {
        self.get_asset_instance(id, token, None)
    }

    /// Reads an asset of an instance.
    pub fn get_asset_instance(
        &self,
        id: &str,
        token: Option<&str>,
        instance_id: Option<&str>,
    ) -> (r: PdtRequest)
        ensures
            r.deep_view() == checked_get(
                asset_url(self.base(), id@),
                token.deep_view(),
                instance_id.deep_view(),
                "get_asset"@,
                ReplyForm::Asset,
            ),
    {
        self.checked(
            self.asset_path_of(id),
            token,
            instance_id,
            "get_asset",
            ReplyForm::Asset,
        )
    }

    /// Stores an asset.
    pub fn create_asset(&self, req: CreateAssetRequest, token: Option<&str>) -> (r: PdtRequest)
        ensures
            r.deep_view() == request(
                Method::Post,
                assets_url(self.base()),
                token.deep_view(),
                None,
                Some(req.deep_view().json()),
                ReplyForm::AssetOrData,
            ),
    {
        self.create_asset_instance(req, token, None)
    }

    /// Stores an asset in an instance.
    pub fn create_asset_instance(
        &self,
        req: CreateAssetRequest,
        token: Option<&str>,
        instance_id: Option<&str>,
    ) -> (r: PdtRequest)
        ensures
            r.deep_view() == request(
                Method::Post,
                assets_url(self.base()),
                token.deep_view(),
                instance_id.deep_view(),
                Some(req.deep_view().json()),
                ReplyForm::AssetOrData,
            ),
    {
        self.req_with_instance(
            Method::Post,
            join2(self.base_url.as_str(), "/api/assets"),
            token,
            instance_id,
            Some(req.to_json()),
            ReplyForm::AssetOrData,
        )
    }

    /// Replaces the content of an asset.
    pub fn update_asset_content(&self, id: &str, content: &str, token: Option<&str>) -> (r:
        PdtRequest)
        ensures
            r.deep_view() == request(
                Method::Put,
                asset_url(self.base(), id@),
                token.deep_view(),
                None,
                Some(text_body("content"@, content@)),
                ReplyForm::AssetOrData,
            ),
    {
        self.req(
            Method::Put,
            self.asset_path_of(id),
            token,
            Some(text_object("content", content)),
            ReplyForm::AssetOrData,
        )
    }

    /// Stores a relation between two assets.
    pub fn create_relation(&self, req: CreateRelationRequest, token: Option<&str>) -> (r:
        PdtRequest)
        ensures
            r.deep_view() == request(
                Method::Post,
                relations_url(self.base()),
                token.deep_view(),
                None,
                Some(req.deep_view().json()),
                ReplyForm::Relation,
            ),
    {
        self.req(
            Method::Post,
            join2(self.base_url.as_str(), "/api/relations"),
            token,
            Some(req.to_json()),
            ReplyForm::Relation,
        )
    }

    /// Reads the relations of an asset.  PDT answers with those of both
    /// directions, whatever direction is asked for.
    pub fn get_relations(&self, asset_id: &str, _direction: Option<&str>, token: Option<&str>) -> (r:
        PdtRequest)
        ensures
            r.deep_view() == request(
                Method::Get,
                asset_url(self.base(), asset_id@) + "/relations"@,
                token.deep_view(),
                None,
                None,
                ReplyForm::Relations,
            ),
    {
        self.req(
            Method::Get,
            self.asset_path(asset_id, "/relations"),
            token,
            None,
            ReplyForm::Relations,
        )
    }

    /// Removes a relation.
    pub fn delete_relation(&self, relation_id: &str, token: Option<&str>) -> (r: PdtRequest)
        ensures
            r.deep_view() == request(
                Method::Delete,
                relation_url(self.base(), relation_id@),
                token.deep_view(),
                None,
                None,
                ReplyForm::Nothing,
            ),
    {
        self.req(
            Method::Delete,
            join3(self.base_url.as_str(), "/api/relations/", relation_id),
            token,
            None,
            ReplyForm::Nothing,
        )
    }

    /// Replaces the title of an asset.
    pub fn update_asset_title(&self, id: &str, title: &str, token: Option<&str>) -> (r: PdtRequest)
        ensures
            r.deep_view() == request(
                Method::Put,
                asset_url(self.base(), id@),
                token.deep_view(),
                None,
                Some(text_body("title"@, title@)),
                ReplyForm::AssetOrData,
            ),
    {
        self.req(
            Method::Put,
            self.asset_path_of(id),
            token,
            Some(text_object("title", title)),
            ReplyForm::AssetOrData,
        )
    }

    /// Replaces the tag of a category.
    ///
    /// `asset` is the asset as it was read.  Its first tag of the category is
    /// removed, where it has one; then the new tag is added and the asset is read
    /// again.
    pub fn update_asset_tag(
        &self,
        asset: &PdtAsset,
        id: &str,
        category: &str,
        value: &str,
        token: Option<&str>,
    ) -> (r: Vec<PdtRequest>)
        ensures
            r.deep_view() == tag_replacement(
                self.base(),
                id@,
                first_tag_id(asset.tags@, category@),
                (category@, value@),
                token.deep_view(),
            ),
    {
        let mut r: Vec<PdtRequest> = Vec::new();
        let old_tag = find_tag_id(&asset.tags, category);
        if let Some(tag_id) = old_tag {
            r.push(
                self.req(
                    Method::Delete,
                    self.asset_path(id, "/tags/").concat(tag_id),
                    token,
                    None,
                    ReplyForm::Nothing,
                ),
            );
        }
        let tag = CreateTagRequest { category: category.to_owned(), value: value.to_owned() };
        r.push(
            self.req(
                Method::Post,
                self.asset_path(id, "/tags"),
                token,
                Some(tag.to_json()),
                ReplyForm::Nothing,
            ),
        );
        r.push(self.get_asset(id, token));
        assert(r.deep_view() =~= tag_replacement(
            self.base(),
            id@,
            first_tag_id(asset.tags@, category@),
            (category@, value@),
            token.deep_view(),
        ));
        r
    }

    /// Reads an asset for its authorization context.
    pub fn get_auth_context(&self, id: &str, token: Option<&str>) -> (r: PdtRequest)
        ensures
            r.deep_view() == checked_get(
                asset_url(self.base(), id@),
                token.deep_view(),
                None,
                "get_asset"@,
                ReplyForm::Asset,
            ),
    {
        self.get_asset(id, token)
    }

    /// Changes the authorization context of an asset, and of its descendants
    /// where `cascade` is set.
    pub fn update_auth_context(
        &self,
        id: &str,
        visibility: Option<&str>,
        owner_groups: Option<&Vec<String>>,
        confidentiality: Option<&str>,
        cascade: bool,
        token: Option<&str>,
    ) -> (r: PdtRequest)
        ensures
            r.deep_view() == request(
                Method::Put,
                asset_url(self.base(), id@) + "/auth-context"@,
                token.deep_view(),
                None,
                Some(
                    auth_context_body(
                        visibility.deep_view(),
                        groups_of(owner_groups),
                        confidentiality.deep_view(),
                        cascade,
                    ),
                ),
                ReplyForm::AssetOrData,
            ),
    {
        self.req(
            Method::Put,
            self.asset_path(id, "/auth-context"),
            token,
            Some(auth_context_json(visibility, owner_groups, confidentiality, cascade)),
            ReplyForm::AssetOrData,
        )
    }
}

/// Groups as values, where they are given.
pub open spec fn groups_of(groups: Option<&Vec<String>>) -> Option<Seq<Seq<char>>> {
    match groups {
        Some(g) => Some(text::views(g@)),
        None => None,
    }
}

/// The requests that replace a tag without an instance.
pub open spec fn tag_replacement(
    base: Seq<char>,
    id: Seq<char>,
    old_tag: Option<Seq<char>>,
    tag: (Seq<char>, Seq<char>),
    token: Option<Seq<char>>,
) -> Seq<RequestView> {
    let removal = match old_tag {
        Some(t) => seq![
            request(
                Method::Delete,
                asset_url(base, id) + "/tags/"@ + t,
                token,
                None,
                None,
                ReplyForm::Nothing,
            ),
        ],
        None => Seq::empty(),
    };
    removal.push(
        request(
            Method::Post,
            asset_url(base, id) + "/tags"@,
            token,
            None,
            Some(types::tag_json(tag)),
            ReplyForm::Nothing,
        ),
    ).push(checked_get(asset_url(base, id), token, None, "get_asset"@, ReplyForm::Asset))
}

/// The id of the first tag of a category.
fn find_tag_id<'a>(tags: &'a Vec<PdtTag>, category: &str) -> (r: Option<&'a str>)
    ensures
        r.deep_view() == first_tag_id(tags@, category@),
{
    let mut i: usize = 0;
    assert(tags@.skip(0) =~= tags@);
    while i < tags.len() && !same(tags[i].category(), category)
        invariant
            i <= tags.len(),
            first_tag_id(tags@, category@) == first_tag_id(tags@.skip(i as int), category@),
        decreases tags.len() - i,
    {
        assert(tags@.skip(i as int).drop_first() =~= tags@.skip(i + 1));
        assert(tags@.skip(i as int)[0] == tags@[i as int]);
        i = i + 1;
    }
    if i < tags.len() {
        assert(tags@.skip(i as int)[0] == tags@[i as int]);
        Some(tags[i].id.as_str())
    } else {
        None
    }
}

/// The body that sets one text of an asset.
fn text_object(key: &str, value: &str) -> (r: Json)
    ensures
        r.model() == text_body(key@, value@),
{
    Json::Object(with(empty_object(), key, text(value)))
}

/// The body that changes an authorization context.
fn auth_context_json(
    visibility: Option<&str>,
    owner_groups: Option<&Vec<String>>,
    confidentiality: Option<&str>,
    cascade: bool,
) -> (r: Json)
    ensures
        r.model() == auth_context_body(
            visibility.deep_view(),
            groups_of(owner_groups),
            confidentiality.deep_view(),
            cascade,
        ),
{
    let mut o = empty_object();
    if let Some(v) = visibility {
        o = with(o, "visibility", text(v));
    }
    if let Some(g) = owner_groups {
        proof {
            text::lemma_views(*g);
        }
        o = with(o, "owner_groups", texts(g));
    }
    if let Some(c) = confidentiality {
        o = with(o, "confidentiality", text(c));
    }
    Json::Object(with(o, "cascade", Json::Bool(cascade)))
}

/// A client of a PDT server for one instance, or for none.
///
/// The instance goes with every request, in the `X-Instance-Id` header.
pub struct InstancePdtClient<'a> {
    client: &'a PdtClient,
    instance_id: Option<String>,
}

impl<'a> InstancePdtClient<'a> {
    /// The base URL.
    pub closed spec fn base(&self) -> Seq<char> {
        self.client.base()
    }

    /// The instance.
    pub closed spec fn instance(&self) -> Option<Seq<char>> {
        self.instance_id.deep_view()
    }

    /// The instance, as a reference.
    fn instance_ref(&self) -> (r: Option<&str>)
        ensures
            r.deep_view() == self.instance(),
    {
        crate::entity_config::as_text(&self.instance_id)
    }

    /// A request for the instance.
    fn req(
        &self,
        method: Method,
        url: String,
        token: Option<&str>,
        body: Option<Json>,
        reply: ReplyForm,
    ) -> (r: PdtRequest)
        ensures
            r.deep_view() == request(
                method,
                url@,
                token.deep_view(),
                self.instance(),
                (match body {
                    Some(b) => Some(b.model()),
                    None => None,
                }),
                reply,
            ),
    {
        self.client.req_with_instance(method, url, token, self.instance_ref(), body, reply)
    }

    /// Searches for assets with a tag.
    pub fn search_by_tag(&self, category: &str, value: &str, token: Option<&str>) -> (r: PdtRequest)
        ensures
            r.deep_view() == checked_get(
                search_url(self.base(), category@, value@),
                token.deep_view(),
                self.instance(),
                "search"@,
                ReplyForm::SearchResults,
            ),
    {
        self.client.search_by_tag_instance(category, value, token, self.instance_ref())
    }

    /// Searches for skills.  Spaces of the query become `+`.
    pub fn search_skills(&self, query: &str, limit: i64, token: Option<&str>) -> (r: PdtRequest)
        ensures
            r.deep_view() == request(
                Method::Get,
                skills_url(self.base(), text::replaced(query@, ' ', '+'), limit as int),
                token.deep_view(),
                self.instance(),
                None,
                ReplyForm::SearchResults,
            ),
    {
        let encoded = replace_char(query, ' ', '+');
        let url = join3(self.client.base_url.as_str(), "/api/search?q=", encoded.as_str()).concat(
            join2("&tag=type:skill&limit=", decimal_text(limit).as_str()).as_str(),
        );
        self.req(Method::Get, url, token, None, ReplyForm::SearchResults)
    }

    /// Reads an asset.
    pub fn get_asset(&self, id: &str, token: Option<&str>) -> (r: PdtRequest)
        ensures
            r.deep_view() == checked_get(
                asset_url(self.base(), id@),
                token.deep_view(),
                self.instance(),
                "get_asset"@,
                ReplyForm::Asset,
            ),
    {
        self.client.get_asset_instance(id, token, self.instance_ref())
    }

    /// Stores an asset.
    pub fn create_asset(&self, req: CreateAssetRequest, token: Option<&str>) -> (r: PdtRequest)
        ensures
            r.deep_view() == request(
                Method::Post,
                assets_url(self.base()),
                token.deep_view(),
                self.instance(),
                Some(req.deep_view().json()),
                ReplyForm::AssetOrData,
            ),
    {
        self.client.create_asset_instance(req, token, self.instance_ref())
    }

    /// Replaces the content of an asset.
    pub fn update_asset_content(&self, id: &str, content: &str, token: Option<&str>) -> (r:
        PdtRequest)
        ensures
            r.deep_view() == request(
                Method::Put,
                asset_url(self.base(), id@),
                token.deep_view(),
                self.instance(),
                Some(text_body("content"@, content@)),
                ReplyForm::AssetOrData,
            ),
    {
        self.req(
            Method::Put,
            self.client.asset_path_of(id),
            token,
            Some(text_object("content", content)),
            ReplyForm::AssetOrData,
        )
    }

    /// Replaces the title of an asset.
    pub fn update_asset_title(&self, id: &str, title: &str, token: Option<&str>) -> (r: PdtRequest)
        ensures
            r.deep_view() == request(
                Method::Put,
                asset_url(self.base(), id@),
                token.deep_view(),
                self.instance(),
                Some(text_body("title"@, title@)),
                ReplyForm::AssetOrData,
            ),
    {
        self.req(
            Method::Put,
            self.client.asset_path_of(id),
            token,
            Some(text_object("title", title)),
            ReplyForm::AssetOrData,
        )
    }

    /// Adds a tag, then reads the asset again.
    pub fn update_asset_tag(&self, id: &str, category: &str, value: &str, token: Option<&str>) -> (r:
        Vec<PdtRequest>)
        ensures
            r.deep_view() == seq![
                request(
                    Method::Post,
                    asset_url(self.base(), id@) + "/tags"@,
                    token.deep_view(),
                    self.instance(),
                    Some(types::tag_json((category@, value@))),
                    ReplyForm::Nothing,
                ),
                request(
                    Method::Get,
                    asset_url(self.base(), id@),
                    token.deep_view(),
                    self.instance(),
                    None,
                    ReplyForm::Asset,
                ),
            ],
    {
        let tag = CreateTagRequest { category: category.to_owned(), value: value.to_owned() };
        let added = self.req(
            Method::Post,
            self.client.asset_path(id, "/tags"),
            token,
            Some(tag.to_json()),
            ReplyForm::Nothing,
        );
        let read = self.req(
            Method::Get,
            self.client.asset_path_of(id),
            token,
            None,
            ReplyForm::Asset,
        );
        let mut r: Vec<PdtRequest> = Vec::new();
        r.push(added);
        r.push(read);
        assert(r.deep_view() =~= seq![added.deep_view(), read.deep_view()]);
        r
    }

    /// Stores a relation between two assets.
    pub fn create_relation(&self, req: CreateRelationRequest, token: Option<&str>) -> (r:
        PdtRequest)
        ensures
            r.deep_view() == request(
                Method::Post,
                relations_url(self.base()),
                token.deep_view(),
                self.instance(),
                Some(req.deep_view().json()),
                ReplyForm::Relation,
            ),
    {
        self.req(
            Method::Post,
            join2(self.client.base_url.as_str(), "/api/relations"),
            token,
            Some(req.to_json()),
            ReplyForm::Relation,
        )
    }

    /// Reads the relations of an asset, those of both directions.
    pub fn get_relations(&self, asset_id: &str, _direction: Option<&str>, token: Option<&str>) -> (r:
        PdtRequest)
        ensures
            r.deep_view() == checked_get(
                asset_url(self.base(), asset_id@) + "/relations"@,
                token.deep_view(),
                self.instance(),
                "get_relations"@,
                ReplyForm::Relations,
            ),
    {
        self.client.checked(
            self.client.asset_path(asset_id, "/relations"),
            token,
            self.instance_ref(),
            "get_relations",
            ReplyForm::Relations,
        )
    }

    /// Removes a relation.
    pub fn delete_relation(&self, relation_id: &str, token: Option<&str>) -> (r: PdtRequest)
        ensures
            r.deep_view() == request(
                Method::Delete,
                relation_url(self.base(), relation_id@),
                token.deep_view(),
                self.instance(),
                None,
                ReplyForm::Nothing,
            ),
    {
        self.req(
            Method::Delete,
            join3(self.client.base_url.as_str(), "/api/relations/", relation_id),
            token,
            None,
            ReplyForm::Nothing,
        )
    }

    /// Reads an asset for its authorization context.
    pub fn get_auth_context(&self, id: &str, token: Option<&str>) -> (r: PdtRequest)
        ensures
            r.deep_view() == checked_get(
                asset_url(self.base(), id@),
                token.deep_view(),
                self.instance(),
                "get_asset"@,
                ReplyForm::Asset,
            ),
    {
        self.get_asset(id, token)
    }

    /// Changes the authorization context of an asset, and of its descendants
    /// where `cascade` is set.
    pub fn update_auth_context(
        &self,
        id: &str,
        visibility: Option<&str>,
        owner_groups: Option<&Vec<String>>,
        confidentiality: Option<&str>,
        cascade: bool,
        token: Option<&str>,
    ) -> (r: PdtRequest)
        ensures
            r.deep_view() == request(
                Method::Put,
                asset_url(self.base(), id@) + "/auth-context"@,
                token.deep_view(),
                self.instance(),
                Some(
                    auth_context_body(
                        visibility.deep_view(),
                        groups_of(owner_groups),
                        confidentiality.deep_view(),
                        cascade,
                    ),
                ),
                ReplyForm::AssetOrData,
            ),
    {
        self.req(
            Method::Put,
            self.client.asset_path(id, "/auth-context"),
            token,
            Some(auth_context_json(visibility, owner_groups, confidentiality, cascade)),
            ReplyForm::AssetOrData,
        )
    }

    /// Merges metadata into an asset.  The token is sent even where there is
    /// none: as an empty one.
    pub fn update_asset_metadata(&self, id: &str, metadata: Json, token: Option<&str>) -> (r:
        PdtRequest)
        ensures
            r.deep_view() == request(
                Method::Put,
                asset_url(self.base(), id@),
                Some((match token {
                    Some(t) => t@,
                    None => ""@,
                })),
                self.instance(),
                Some(JsonView::Object(Map::empty().insert("metadata"@, metadata.model()))),
                ReplyForm::Nothing,
            ),
    {
        let bearer = match token {
            Some(t) => t,
            None => "",
        };
        self.req(
            Method::Put,
            self.client.asset_path_of(id),
            Some(bearer),
            Some(Json::Object(with(empty_object(), "metadata", metadata))),
            ReplyForm::Nothing,
        )
    }

    /// The base URL.  It does not end in a slash.
    pub fn base_url(&self) -> (r: &str)
        ensures
            r@ == self.base(),
            r@.len() > 0 ==> r@.last() != '/',
    {
        self.client.base_url()
    }
}

} // verus!
