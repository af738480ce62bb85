use fame::json::{text, Json, JsonNumber};
use fame::keyed::KeyedList;
use fame::pdt::client::{
    encode_char, encode_query, parse_pdt_response, Method, PdtClient, PdtRequest, ReplyForm,
};
use fame::pdt::types::{
    AuthContext, CreateAssetRequest, CreateRelationRequest, CreateTagRequest, PdtAsset, PdtTag,
};
use serde_json::Value;

fn value(j: &Json) -> Value {
    match j {
        Json::Null => Value::Null,
        Json::Bool(b) => Value::Bool(*b),
        Json::Number(JsonNumber::Unsigned(n)) => Value::from(*n),
        Json::Number(JsonNumber::Signed(n)) => Value::from(*n),
        Json::Number(JsonNumber::FloatBits(b)) => Value::from(f64::from_bits(*b)),
        Json::Text(s) => Value::String(s.clone()),
        Json::List(v) => Value::Array(v.iter().map(value).collect()),
        Json::Object(o) => {
            let mut m = serde_json::Map::new();
            for i in 0..o.len() {
                m.insert(o.entry(i).0.clone(), value(&o.entry(i).1));
            }
            Value::Object(m)
        }
    }
}

fn body(q: &PdtRequest) -> Value {
    value(q.body.as_ref().expect("a body"))
}

fn parsed(source: &str) -> Value {
    serde_json::from_str(source).expect("JSON")
}

#[test]
fn base_url_is_trimmed() {
    assert_eq!(PdtClient::new("http://pdt///").base_url(), "http://pdt");
    assert_eq!(PdtClient::new("http://pdt").base_url(), "http://pdt");
    assert_eq!(PdtClient::new("").base_url(), "");
    let pdt = PdtClient::new("http://pdt/");
    assert_eq!(pdt.for_instance(None).base_url(), "http://pdt");
}

#[test]
fn instance_goes_with_every_request() {
    let pdt = PdtClient::new("http://pdt");
    let c = pdt.for_instance(Some("i"));
    let relation = || CreateRelationRequest {
        from_asset_id: "a".to_string(),
        to_asset_id: "b".to_string(),
        relation_type: "r".to_string(),
        metadata: None,
    };
    let new = || CreateAssetRequest {
        title: "t".to_string(),
        content: None,
        tags: None,
        auth_context: None,
    };
    let mut all = vec![
        c.search_by_tag("a", "b", None),
        c.search_skills("q", 1, None),
        c.get_asset("x", None),
        c.create_asset(new(), None),
        c.update_asset_content("x", "c", None),
        c.update_asset_title("x", "t", None),
        c.create_relation(relation(), None),
        c.get_relations("x", None, None),
        c.delete_relation("x", None),
        c.get_auth_context("x", None),
        c.update_auth_context("x", None, None, None, true, None),
        c.update_asset_metadata("x", Json::Null, None),
    ];
    all.extend(c.update_asset_tag("x", "c", "v", None));
    for q in &all {
        assert_eq!(q.instance_id.as_deref(), Some("i"), "{}", q.url);
    }
    assert_eq!(pdt.get_asset("x", None).instance_id, None);
    assert_eq!(pdt.for_instance(None).get_asset("x", None).instance_id, None);
}

#[test]
fn searches() {
    let pdt = PdtClient::new("http://pdt");
    let q = pdt.search_by_tag("type", "skill", Some("t"));
    assert_eq!(q.method, Method::Get);
    assert_eq!(q.url, "http://pdt/api/search?tag=type:skill&limit=100");
    assert_eq!(q.bearer.as_deref(), Some("t"));
    assert_eq!(q.reported_as.as_deref(), Some("search"));
    assert_eq!(q.reply, ReplyForm::SearchResults);
    let q = pdt.search_by_tag_instance("a", "b", None, Some("i"));
    assert_eq!(q.instance_id.as_deref(), Some("i"));
    let q = pdt.search_skills("a b&c-d_é", -5, None);
    assert_eq!(
        q.url,
        "http://pdt/api/search?q=a%20b%26c-d_é&tag=type:skill&limit=-5"
    );
    assert_eq!(q.reported_as, None);
    let q = pdt.for_instance(Some("i")).search_skills("a b c", 20, None);
    assert_eq!(
        q.url,
        "http://pdt/api/search?q=a+b+c&tag=type:skill&limit=20"
    );
}

#[test]
fn query_characters() {
    assert_eq!(encode_char('a', true), "a");
    assert_eq!(encode_char('-', false), "-");
    assert_eq!(encode_char('_', false), "_");
    assert_eq!(encode_char('/', false), "%2F");
    assert_eq!(encode_char('\n', false), "%0A");
    // Of a character beyond a byte, the low byte is written.
    assert_eq!(encode_char('\u{2014}', false), "%14");
    assert_eq!(encode_query("x\u{2014}9 é"), "x%149%20é");
    assert_eq!(encode_query(""), "");
}

#[test]
fn assets() {
    let pdt = PdtClient::new("http://pdt");
    let q = pdt.get_asset_instance("a1", Some("t"), Some("i"));
    assert_eq!(q.url, "http://pdt/api/assets/a1");
    assert_eq!(q.reported_as.as_deref(), Some("get_asset"));
    let q = pdt.create_asset(
        CreateAssetRequest {
            title: "T".to_string(),
            content: Some("C".to_string()),
            tags: Some(vec![CreateTagRequest {
                category: "a".to_string(),
                value: "b".to_string(),
            }]),
            auth_context: Some(AuthContext {
                visibility: "team".to_string(),
                owner_groups: vec!["g".to_string()],
                confidentiality: String::new(),
            }),
        },
        None,
    );
    assert_eq!(q.method, Method::Post);
    assert_eq!(q.reply, ReplyForm::AssetOrData);
    assert_eq!(
        body(&q),
        parsed(
            r#"{"title": "T", "content": "C", "tags": [{"category": "a", "value": "b"}],
                "auth_context": {"visibility": "team", "owner_groups": ["g"], "confidentiality": ""}}"#
        )
    );
    let q = pdt.update_asset_content("a1", "new", None);
    assert_eq!(q.method, Method::Put);
    assert_eq!(body(&q), parsed(r#"{"content": "new"}"#));
    let q = pdt.update_asset_title("a1", "new", None);
    assert_eq!(body(&q), parsed(r#"{"title": "new"}"#));
}

#[test]
fn relations() {
    let pdt = PdtClient::new("http://pdt");
    let mut metadata = KeyedList::new();
    metadata.insert("k".to_string(), text("v"));
    let q = pdt.create_relation(
        CreateRelationRequest {
            from_asset_id: "a".to_string(),
            to_asset_id: "b".to_string(),
            relation_type: "contains".to_string(),
            metadata: Some(metadata),
        },
        None,
    );
    assert_eq!(q.url, "http://pdt/api/relations");
    assert_eq!(
        body(&q),
        parsed(
            r#"{"from_asset_id": "a", "to_asset_id": "b", "relation_type": "contains", "metadata": {"k": "v"}}"#
        )
    );
    let q = pdt.get_relations("a", Some("out"), None);
    assert_eq!(q.url, "http://pdt/api/assets/a/relations");
    assert_eq!(q.reported_as, None);
    let q = pdt.for_instance(None).get_relations("a", None, None);
    assert_eq!(q.reported_as.as_deref(), Some("get_relations"));
    let q = pdt.delete_relation("r1", None);
    assert_eq!(q.method, Method::Delete);
    assert_eq!(q.url, "http://pdt/api/relations/r1");
}

#[test]
fn tags_are_replaced() {
    let pdt = PdtClient::new("http://pdt");
    let tag = |id: &str, category: &str| PdtTag {
        id: id.to_string(),
        category: category.to_string(),
        value: "v".to_string(),
        added_by: String::new(),
        added_at: String::new(),
    };
    let mut asset = PdtAsset {
        id: "a".to_string(),
        title: String::new(),
        content: String::new(),
        tags: vec![tag("t1", "type"), tag("t2", "status"), tag("t3", "status")],
        metadata: KeyedList::new(),
        created_at: String::new(),
        updated_at: String::new(),
        created_by: String::new(),
        updated_by: String::new(),
        deleted_at: None,
        auth_context: None,
    };
    let sent = pdt.update_asset_tag(&asset, "a", "status", "open", None);
    let lines: Vec<(Method, &str)> = sent.iter().map(|q| (q.method, q.url.as_str())).collect();
    assert_eq!(
        lines,
        vec![
            (Method::Delete, "http://pdt/api/assets/a/tags/t2"),
            (Method::Post, "http://pdt/api/assets/a/tags"),
            (Method::Get, "http://pdt/api/assets/a"),
        ]
    );
    assert_eq!(body(&sent[1]), parsed(r#"{"category": "status", "value": "open"}"#));
    asset.tags = vec![];
    assert_eq!(pdt.update_asset_tag(&asset, "a", "status", "open", None).len(), 2);
    let sent = pdt.for_instance(Some("i")).update_asset_tag("a", "status", "open", None);
    assert_eq!(sent.len(), 2);
    assert_eq!(sent[1].reported_as, None);
    assert_eq!(asset.get_tag("status"), None);
}

#[test]
fn auth_contexts() {
    let pdt = PdtClient::new("http://pdt");
    let groups = vec!["g".to_string()];
    let q = pdt.update_auth_context("a", Some("team"), Some(&groups), Some("low"), true, None);
    assert_eq!(q.url, "http://pdt/api/assets/a/auth-context");
    assert_eq!(
        body(&q),
        parsed(
            r#"{"visibility": "team", "owner_groups": ["g"], "confidentiality": "low", "cascade": true}"#
        )
    );
    let q = pdt
        .for_instance(Some("i"))
        .update_auth_context("a", None, None, None, false, None);
    assert_eq!(body(&q), parsed(r#"{"cascade": false}"#));
    assert_eq!(pdt.get_auth_context("a", None).url, "http://pdt/api/assets/a");
}

#[test]
fn statuses_are_looked_at() {
    let pdt = PdtClient::new("http://pdt");
    let q = pdt.get_asset("a", None);
    assert!(q.check_status(200, "200 OK", "").is_ok());
    assert!(q.check_status(299, "299", "").is_ok());
    assert_eq!(
        q.check_status(404, "404 Not Found", "gone"),
        Err("PDT get_asset failed (404 Not Found): gone".to_string())
    );
    assert!(q.check_status(199, "199", "").is_err());
    assert!(q.check_status(300, "300", "").is_err());
    assert!(pdt.delete_relation("r", None).check_status(500, "500", "").is_ok());
}

#[test]
fn replies() {
    let direct: Result<u32, String> = parse_pdt_response(Ok(1), Some(2), "b");
    assert_eq!(direct, Ok(1));
    let wrapped: Result<u32, String> = parse_pdt_response(Err("no".to_string()), Some(2), "b");
    assert_eq!(wrapped, Ok(2));
    let neither: Result<u32, String> = parse_pdt_response(Err("no".to_string()), None, "b");
    assert_eq!(
        neither,
        Err("Failed to parse PDT response: no | body: b".to_string())
    );
}
