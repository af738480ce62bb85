//! What PDT holds and what it is sent.
use crate::json::{self, empty_object, text, texts, with, Json, JsonView, Members};
use crate::keyed::KeyedList;
use crate::tags::{self, first_tag, AsTagPair, TagPair};
use vstd::prelude::*;

verus! {

/// A tag on a stored asset.
pub struct PdtTag {
    pub id: String,
    pub category: String,
    pub value: String,
    /// Who added the tag.
    pub added_by: String,
    /// When the tag was added.
    pub added_at: String,
}

/// A tag in a search result.
pub struct PdtTagSummary {
    pub category: String,
    pub value: String,
}

impl AsTagPair for PdtTag {
    open spec fn category_text(&self) -> Seq<char> {
        self.category@
    }

    open spec fn value_text(&self) -> Seq<char> {
        self.value@
    }

    fn category(&self) -> &str {
        self.category.as_str()
    }

    fn value(&self) -> &str {
        self.value.as_str()
    }
}

impl AsTagPair for PdtTagSummary {
    open spec fn category_text(&self) -> Seq<char> {
        self.category@
    }

    open spec fn value_text(&self) -> Seq<char> {
        self.value@
    }

    fn category(&self) -> &str {
        self.category.as_str()
    }

    fn value(&self) -> &str {
        self.value.as_str()
    }
}

/// Who may see an asset.
pub struct AuthContext {
    pub visibility: String,
    pub owner_groups: Vec<String>,
    pub confidentiality: String,
}

/// What an [`AuthContext`] says.
#[verifier::ext_equal]
pub struct AuthContextView {
    pub visibility: Seq<char>,
    pub owner_groups: Seq<Seq<char>>,
    pub confidentiality: Seq<char>,
}

impl DeepView for AuthContext {
    type V = AuthContextView;

    open spec fn deep_view(&self) -> AuthContextView {
        AuthContextView {
            visibility: self.visibility@,
            owner_groups: self.owner_groups.deep_view(),
            confidentiality: self.confidentiality@,
        }
    }
}

impl AuthContextView {
    /// The context on the wire.
    pub open spec fn json(self) -> JsonView {
        JsonView::Object(
            Map::empty().insert("visibility"@, JsonView::Text(self.visibility)).insert(
                "owner_groups"@,
                json::text_list(self.owner_groups),
            ).insert("confidentiality"@, JsonView::Text(self.confidentiality)),
        )
    }
}

impl AuthContext {
    /// The context on the wire.
    pub fn to_json(&self) -> (r: Json)
        ensures
            r.model() == self.deep_view().json(),
    {
        Json::Object(
            with(
                with(
                    with(empty_object(), "visibility", text(self.visibility.as_str())),
                    "owner_groups",
                    texts(&self.owner_groups),
                ),
                "confidentiality",
                text(self.confidentiality.as_str()),
            ),
        )
    }
}

/// A stored asset.
pub struct PdtAsset {
    pub id: String,
    pub title: String,
    pub content: String,
    pub tags: Vec<PdtTag>,
    pub metadata: KeyedList<Json>,
    pub created_at: String,
    pub updated_at: String,
    /// Who created the asset.
    pub created_by: String,
    /// Who updated the asset last.
    pub updated_by: String,
    /// When the asset was deleted, if it was.
    pub deleted_at: Option<String>,
    /// Who may see the asset.
    pub auth_context: Option<AuthContext>,
}

/// A search result: an asset without its content and metadata.
pub struct PdtSearchResult {
    pub id: String,
    pub title: String,
    pub snippet: Option<String>,
    pub tags: Vec<PdtTagSummary>,
    pub updated_at: String,
}

impl PdtAsset {
    /// The value of the first tag of a category.
    pub fn get_tag(&self, category: &str) -> (r: Option<&str>)
        ensures
            r.deep_view() == tags::first_value(tags::pairs(self.tags@), category@),
    {
        first_tag(self.tags.as_slice(), category)
    }
}

impl PdtSearchResult {
    /// The value of the first tag of a category.
    pub fn get_tag(&self, category: &str) -> (r: Option<&str>)
        ensures
            r.deep_view() == tags::first_value(tags::pairs(self.tags@), category@),
    {
        first_tag(self.tags.as_slice(), category)
    }
}

/// A tag to be stored.
pub struct CreateTagRequest {
    pub category: String,
    pub value: String,
}

impl AsTagPair for CreateTagRequest {
    open spec fn category_text(&self) -> Seq<char> {
        self.category@
    }

    open spec fn value_text(&self) -> Seq<char> {
        self.value@
    }

    fn category(&self) -> &str {
        self.category.as_str()
    }

    fn value(&self) -> &str {
        self.value.as_str()
    }
}

/// A tag to be stored, on the wire.
pub open spec fn tag_json(tag: TagPair) -> JsonView {
    JsonView::Object(
        Map::empty().insert("category"@, JsonView::Text(tag.0)).insert(
            "value"@,
            JsonView::Text(tag.1),
        ),
    )
}

impl CreateTagRequest {
    /// The tag on the wire.
    pub fn to_json(&self) -> (r: Json)
        ensures
            r.model() == tag_json(tags::pair(*self)),
    {
        Json::Object(
            with(
                with(empty_object(), "category", text(self.category.as_str())),
                "value",
                text(self.value.as_str()),
            ),
        )
    }
}

/// An asset to be stored.
pub struct CreateAssetRequest {
    pub title: String,
    pub content: Option<String>,
    pub tags: Option<Vec<CreateTagRequest>>,
    /// Who may see the asset.
    pub auth_context: Option<AuthContext>,
}

/// What a [`CreateAssetRequest`] says.
#[verifier::ext_equal]
pub struct CreateAssetView {
    pub title: Seq<char>,
    pub content: Option<Seq<char>>,
    pub tags: Option<Seq<TagPair>>,
    pub auth_context: Option<AuthContextView>,
}

impl DeepView for CreateAssetRequest {
    type V = CreateAssetView;

    open spec fn deep_view(&self) -> CreateAssetView {
        CreateAssetView {
            title: self.title@,
            content: self.content.deep_view(),
            tags: match self.tags {
                Some(t) => Some(tags::pairs(t@)),
                None => None,
            },
            auth_context: self.auth_context.deep_view(),
        }
    }
}

/// The members of an object, with one more where there is a value for it.
pub open spec fn with_opt(m: Members, key: Seq<char>, value: Option<JsonView>) -> Members {
    match value {
        Some(v) => m.insert(key, v),
        None => m,
    }
}

impl CreateAssetView {
    /// The asset on the wire: what is absent is left out.
    pub open spec fn json(self) -> JsonView {
        let m0 = Map::empty().insert("title"@, JsonView::Text(self.title));
        let m1 = with_opt(
            m0,
            "content"@,
            match self.content {
                Some(c) => Some(JsonView::Text(c)),
                None => None,
            },
        );
        let m2 = with_opt(
            m1,
            "tags"@,
            match self.tags {
                Some(t) => Some(JsonView::List(t.map_values(|p: TagPair| tag_json(p)))),
                None => None,
            },
        );
        let m3 = with_opt(
            m2,
            "auth_context"@,
            match self.auth_context {
                Some(c) => Some(c.json()),
                None => None,
            },
        );
        JsonView::Object(m3)
    }
}

/// Tags to be stored, on the wire.
fn tags_json(tags: &Vec<CreateTagRequest>) -> (r: Json)
    ensures
        r.model() == JsonView::List(tags::pairs(tags@).map_values(|p: TagPair| tag_json(p))),
{
    let mut list: Vec<Json> = Vec::new();
    let mut i: usize = 0;
    while i < tags.len()
        invariant
            i <= tags.len(),
            list@.len() == i,
            forall|j: int| 0 <= j < i ==> (#[trigger] list@[j]).model() == tag_json(tags::pair(tags@[j])),
        decreases tags.len() - i,
    {
        list.push(tags[i].to_json());
        i = i + 1;
    }
    let r = Json::List(list);
    assert(r.model()->List_0 =~= tags::pairs(tags@).map_values(|p: TagPair| tag_json(p)));
    r
}

impl CreateAssetRequest {
    /// The asset on the wire: what is absent is left out.
    pub fn to_json(&self) -> (r: Json)
        ensures
            r.model() == self.deep_view().json(),
    {
        let mut o = with(empty_object(), "title", text(self.title.as_str()));
        if let Some(c) = &self.content {
            o = with(o, "content", text(c.as_str()));
        }
        if let Some(t) = &self.tags {
            o = with(o, "tags", tags_json(t));
        }
        if let Some(c) = &self.auth_context {
            o = with(o, "auth_context", c.to_json());
        }
        Json::Object(o)
    }
}

/// A relation to be stored.
pub struct CreateRelationRequest {
    pub from_asset_id: String,
    pub to_asset_id: String,
    pub relation_type: String,
    pub metadata: Option<KeyedList<Json>>,
}

/// What a [`CreateRelationRequest`] says.
#[verifier::ext_equal]
pub struct CreateRelationView {
    pub from_asset_id: Seq<char>,
    pub to_asset_id: Seq<char>,
    pub relation_type: Seq<char>,
    pub metadata: Option<Members>,
}

impl DeepView for CreateRelationRequest {
    type V = CreateRelationView;

    open spec fn deep_view(&self) -> CreateRelationView {
        CreateRelationView {
            from_asset_id: self.from_asset_id@,
            to_asset_id: self.to_asset_id@,
            relation_type: self.relation_type@,
            metadata: match self.metadata {
                Some(m) => Some(crate::json::members(m)),
                None => None,
            },
        }
    }
}

impl CreateRelationView {
    /// The relation on the wire: absent metadata is left out.
    pub open spec fn json(self) -> JsonView {
        let m = Map::empty().insert("from_asset_id"@, JsonView::Text(self.from_asset_id)).insert(
            "to_asset_id"@,
            JsonView::Text(self.to_asset_id),
        ).insert("relation_type"@, JsonView::Text(self.relation_type));
        JsonView::Object(
            with_opt(
                m,
                "metadata"@,
                match self.metadata {
                    Some(d) => Some(JsonView::Object(d)),
                    None => None,
                },
            ),
        )
    }
}

impl CreateRelationRequest {
    /// The relation on the wire: absent metadata is left out.
    pub fn to_json(&self) -> (r: Json)
        ensures
            r.model() == self.deep_view().json(),
    {
        let mut o = with(empty_object(), "from_asset_id", text(self.from_asset_id.as_str()));
        o = with(o, "to_asset_id", text(self.to_asset_id.as_str()));
        o = with(o, "relation_type", text(self.relation_type.as_str()));
        if let Some(d) = &self.metadata {
            o = with(o, "metadata", Json::Object(crate::json::copy_members(d)));
        }
        Json::Object(o)
    }
}

/// A stored relation.
pub struct PdtRelation {
    pub id: String,
    pub from_asset_id: String,
    pub to_asset_id: String,
    pub relation_type: String,
    pub metadata: Option<KeyedList<Json>>,
    pub created_at: String,
}

} // verus!
