use spider_client::client::HttpMethod;
use spider_client::client::Spider;
use spider_client::client::resolve_api_key;
use spider_client::json::JsonValue;
use spider_client::request::DataParam;
use spider_client::request::QueryRequest;
use spider_client::request::RequestParams;
use spider_client::request::SearchRequestParams;

fn client() -> Spider {
    Spider::new(Some("test-key".to_string()), None).unwrap()
}

fn body_keys(body: &[(String, JsonValue)]) -> Vec<&str> {
    body.iter().map(|p| p.0.as_str()).collect()
}

fn body_str<'a>(body: &'a [(String, JsonValue)], key: &str) -> &'a str {
    match body.iter().find(|p| p.0 == key) {
        Some((_, JsonValue::Str(s))) => s.as_str(),
        _ => panic!("no string under key {key}"),
    }
}

#[test]
fn construction_fails_without_credentials() {
    let r = Spider::new(None, None);
    assert_eq!(r.unwrap_err(), "No API key provided");
}

#[test]
fn construction_uses_environment_key_when_no_argument() {
    let s = Spider::new(None, Some("env-key".to_string())).unwrap();
    assert_eq!(s.api_key, "env-key");
    let s = Spider::new(Some("arg-key".to_string()), Some("env-key".to_string())).unwrap();
    assert_eq!(s.api_key, "arg-key");
}

#[test]
fn credential_resolution_order() {
    assert_eq!(resolve_api_key(None, None, None).unwrap_err(), "No API key provided");
    assert_eq!(
        resolve_api_key(None, None, Some("store".to_string())).unwrap(),
        "store"
    );
    assert_eq!(
        resolve_api_key(None, Some("env".to_string()), Some("store".to_string())).unwrap(),
        "env"
    );
    assert_eq!(
        resolve_api_key(Some("arg".to_string()), Some("env".to_string()), Some("store".to_string()))
            .unwrap(),
        "arg"
    );
}

#[test]
fn scrape_plan_with_empty_params_has_no_extraneous_keys() {
    let s = client();
    let plan = s.scrape_url("https://example.com", Some(RequestParams::default()), "application/json");
    assert_eq!(plan.method, HttpMethod::Post);
    assert_eq!(plan.url, "https://api.spider.cloud/crawl");
    let body = plan.body.unwrap();
    assert_eq!(body_keys(&body), vec!["limit", "url"]);
    assert!(matches!(body[0].1, JsonValue::UInt(1)));
    assert_eq!(body_str(&body, "url"), "https://example.com");
    assert!(plan.query.is_none());
}

#[test]
fn scrape_plan_keeps_caller_limit() {
    let s = client();
    let mut params = RequestParams::default();
    params.limit = Some(7);
    let plan = s.scrape_url("https://example.com", Some(params), "application/json");
    let body = plan.body.unwrap();
    assert_eq!(body_keys(&body), vec!["limit", "url"]);
    assert!(matches!(body[0].1, JsonValue::UInt(7)));
}

#[test]
fn crawl_plan_injects_no_limit() {
    let s = client();
    let plan = s.crawl_url("https://example.com", None, "application/json");
    assert_eq!(plan.url, "https://api.spider.cloud/crawl");
    let body = plan.body.unwrap();
    assert_eq!(body_keys(&body), vec!["url"]);
    assert_eq!(body_str(&body, "url"), "https://example.com");
}

#[test]
fn subject_url_overwrites_params_url() {
    let s = client();
    let mut params = RequestParams::default();
    params.url = Some("https://stale.example".to_string());
    let plan = s.crawl_url("https://fresh.example", Some(params), "application/json");
    let body = plan.body.unwrap();
    assert_eq!(body_keys(&body), vec!["url"]);
    assert_eq!(body_str(&body, "url"), "https://fresh.example");
}

#[test]
fn required_headers_are_sent() {
    let s = client();
    let plan = s.links("https://example.com", None, "text/csv");
    assert_eq!(plan.url, "https://api.spider.cloud/links");
    let h = plan.headers;
    assert_eq!(h[0].0, "User-Agent");
    assert_eq!(h[0].1, "Spider-Client/0.1.0");
    assert_eq!(h[1].0, "Content-Type");
    assert_eq!(h[1].1, "text/csv");
    assert_eq!(h[2].0, "Authorization");
    assert_eq!(h[2].1, "Bearer test-key");
}

#[test]
fn screenshot_plan_routes_to_its_endpoint() {
    let s = client();
    let mut params = RequestParams::default();
    params.limit = Some(1);
    let plan = s.screenshot("https://example.com", Some(params), "application/json");
    assert_eq!(plan.method, HttpMethod::Post);
    assert_eq!(plan.url, "https://api.spider.cloud/screenshot");
    let body = plan.body.unwrap();
    assert_eq!(body_keys(&body), vec!["limit", "url"]);
}

#[test]
fn search_query_overwrites_preset_query() {
    let s = client();
    let mut params = SearchRequestParams::default();
    params.search = "stale query".to_string();
    params.num = Some(3);
    let plan = s.search("fresh query", Some(params), "application/json");
    assert_eq!(plan.url, "https://api.spider.cloud/search");
    let body = plan.body.unwrap();
    assert_eq!(body_keys(&body), vec!["search", "num"]);
    assert_eq!(body_str(&body, "search"), "fresh query");
}

#[test]
fn search_without_params_sends_only_the_query() {
    let s = client();
    let plan = s.search("a sports website", None, "application/json");
    let body = plan.body.unwrap();
    assert_eq!(body_keys(&body), vec!["search"]);
    assert_eq!(body_str(&body, "search"), "a sports website");
}

#[test]
fn transform_data_overwrites_params_data() {
    let s = client();
    let data = vec![DataParam {
        html: "<html><body><h1>Transformation</h1></body></html>".to_string(),
        url: None,
    }];
    let plan = s.transform(data, None, "application/json");
    assert_eq!(plan.url, "https://api.spider.cloud/transform");
    let body = plan.body.unwrap();
    assert_eq!(body_keys(&body), vec!["data"]);
    match &body[0].1 {
        JsonValue::Arr(items) => {
            assert_eq!(items.len(), 1);
            match &items[0] {
                JsonValue::Obj(fields) => {
                    assert_eq!(fields.len(), 1);
                    assert_eq!(fields[0].0, "html");
                },
                other => panic!("expected an object, got {other:?}"),
            }
        },
        other => panic!("expected an array, got {other:?}"),
    }
}

#[test]
fn pipeline_plans_route_to_their_endpoints() {
    let s = client();
    let plan = s.extract_contacts("https://example.com", None, "application/json");
    assert_eq!(plan.url, "https://api.spider.cloud/pipeline/extract-contacts");
    let body = plan.body.unwrap();
    assert_eq!(body_keys(&body), vec!["url"]);

    let plan = s.label("https://example.com", None, "application/json");
    assert_eq!(plan.url, "https://api.spider.cloud/pipeline/label");
}

#[test]
fn crawl_state_plan_echoes_content_type() {
    let s = client();
    let plan = s.get_crawl_state("https://example.com", None, "application/json");
    assert_eq!(plan.url, "https://api.spider.cloud/data/crawl_state");
    let body = plan.body.unwrap();
    assert_eq!(body_keys(&body), vec!["contentType", "url"]);
    assert_eq!(body_str(&body, "contentType"), "application/json");
    assert_eq!(body_str(&body, "url"), "https://example.com");
}

#[test]
fn credits_plan_is_a_bare_get() {
    let s = client();
    let plan = s.get_credits();
    assert_eq!(plan.method, HttpMethod::Get);
    assert_eq!(plan.url, "https://api.spider.cloud/data/credits");
    assert!(plan.body.is_none());
    assert!(plan.query.is_none());
}

#[test]
fn query_plan_carries_set_fields_only() {
    let s = client();
    let mut q = QueryRequest::default();
    q.domain = Some("spider.cloud".to_string());
    let plan = s.query(&q);
    assert_eq!(plan.method, HttpMethod::Get);
    assert_eq!(plan.url, "https://api.spider.cloud/data/query");
    let query = plan.query.unwrap();
    assert_eq!(query.len(), 1);
    assert_eq!(query[0].0, "domain");
    assert!(matches!(&query[0].1, JsonValue::Str(s) if s == "spider.cloud"));
}

#[test]
fn data_plans_route_to_their_tables() {
    let s = client();
    let plan = s.data_post("websites", None);
    assert_eq!(plan.method, HttpMethod::Post);
    assert_eq!(plan.url, "https://api.spider.cloud/data/websites");
    assert_eq!(plan.body.unwrap().len(), 0);

    let plan = s.data_get("websites", None);
    assert_eq!(plan.method, HttpMethod::Get);
    assert_eq!(plan.url, "https://api.spider.cloud/data/websites");
    assert!(plan.body.is_none());

    let plan = s.data_delete("websites", None);
    assert_eq!(plan.method, HttpMethod::Delete);
    assert_eq!(plan.url, "https://api.spider.cloud/v1/data/websites");
    assert_eq!(plan.body.unwrap().len(), 0);
}

#[test]
fn download_plan_sends_subject_and_options_as_query() {
    let s = client();
    let plan = s.download(Some("example.com"), Some(vec![("page".to_string(), 2)]));
    assert_eq!(plan.method, HttpMethod::Get);
    assert_eq!(plan.url, "https://api.spider.cloud/v1/data/download");
    assert_eq!(plan.headers[1].1, "application/octet-stream");
    let q = plan.query.unwrap();
    assert_eq!(q.len(), 2);
    assert_eq!(q[0].0, "url");
    assert_eq!(q[1].0, "page");
    assert!(matches!(q[1].1, JsonValue::Int(2)));
}

#[test]
fn signed_url_plan_lets_subject_overwrite_options() {
    let s = client();
    let plan = s.create_signed_url(
        Some("example.com"),
        Some(vec![("url".to_string(), 1), ("limit".to_string(), 3)]),
    );
    assert_eq!(plan.url, "https://api.spider.cloud/v1/data/sign-url");
    // No content type on this call: client identifier and authorization only.
    assert_eq!(plan.headers.len(), 2);
    let q = plan.query.unwrap();
    let keys: Vec<&str> = q.iter().map(|p| p.0.as_str()).collect();
    assert_eq!(keys, vec!["limit", "url"]);
    assert!(matches!(&q[1].1, JsonValue::Str(s) if s == "example.com"));
}

#[test]
fn base_url_override_is_used() {
    let mut s = client();
    s.set_base_url("http://localhost:8080".to_string());
    let plan = s.get_credits();
    assert_eq!(plan.url, "http://localhost:8080/data/credits");
}
