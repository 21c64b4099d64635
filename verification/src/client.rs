//! The client: credential resolution and, for every operation, the full
//! plan of the HTTP request it sends — method, resolved URL, required
//! headers, JSON body or query parameters. Sending the plan, retrying it,
//! and reading the response are the transport's business; everything the
//! library decides about a request is pinned down here.

use vstd::prelude::*;

use crate::encode::build_payload;
use crate::encode::data_list_data;
use crate::encode::data_list_to_json;
use crate::encode::fields_model;
use crate::encode::opt_str_field;
use crate::encode::params_fields;
use crate::encode::params_fields_opt;
use crate::encode::payload_model;
use crate::encode::push_opt_str;
use crate::encode::push_pair;
use crate::encode::remove_key;
use crate::encode::search_fields;
use crate::encode::set_key;
use crate::encode::transform_fields;
use crate::json::{JsonData, JsonValue};
use crate::request::DataParam;
use crate::request::QueryRequest;
use crate::request::RequestParams;
use crate::request::SearchRequestParams;
use crate::request::TransformParams;

verus! {

/// The HTTP method of a plan.
#[derive(Debug, Clone, Copy, PartialEq, Eq, Structural)]
pub enum HttpMethod {
    Post,
    Get,
    Delete,
}

/// Everything the library decides about one HTTP request: the transport
/// performs exactly this plan.
#[derive(Debug)]
pub struct RequestPlan {
    /// The HTTP method.
    pub method: HttpMethod,
    /// The fully resolved URL.
    pub url: String,
    /// The headers, in order.
    pub headers: Vec<(String, String)>,
    /// The JSON object body, for POST and DELETE.
    pub body: Option<Vec<(String, JsonValue)>>,
    /// The query parameters, for GET.
    pub query: Option<Vec<(String, JsonValue)>>,
}

/// The model of a header list.
pub open spec fn headers_model(h: Vec<(String, String)>) -> Seq<(Seq<char>, Seq<char>)> {
    Seq::new(h@.len(), |i: int| (h@[i].0@, h@[i].1@))
}

/// The versioned client identifier sent as `User-Agent`.
pub open spec fn user_agent_value() -> Seq<char> {
    "Spider-Client/0.1.0"@
}

/// The production API host used when no override is configured.
pub open spec fn default_base_url() -> Seq<char> {
    "https://api.spider.cloud"@
}

/// The headers of a body-carrying call: the client identifier, the chosen
/// content type, and the bearer authorization.
pub open spec fn std_headers(api_key: Seq<char>, content_type: Seq<char>) -> Seq<
    (Seq<char>, Seq<char>),
> {
    seq![
        ("User-Agent"@, user_agent_value()),
        ("Content-Type"@, content_type),
        ("Authorization"@, "Bearer "@ + api_key),
    ]
}

/// The headers of the one call that fixes no content type.
pub open spec fn bare_headers(api_key: Seq<char>) -> Seq<(Seq<char>, Seq<char>)> {
    seq![("User-Agent"@, user_agent_value()), ("Authorization"@, "Bearer "@ + api_key)]
}

/// Resolve the API key: an explicit value wins, else the environment value,
/// else the stored secret; with none of the three the client cannot be
/// built and no request is ever sent.
pub fn resolve_api_key(explicit: Option<String>, env: Option<String>, store: Option<String>) -> (r:
    Result<String, &'static str>)
    ensures
        r is Ok <==> (explicit is Some || env is Some || store is Some),
        explicit matches Some(k) ==> (r matches Ok(v) && v@ == k@),
        explicit is None ==> (env matches Some(k) ==> (r matches Ok(v) && v@ == k@)),
        explicit is None && env is None ==> (store matches Some(k) ==> (r matches Ok(v) && v@ == k@)),
        r matches Err(m) ==> m@ == "No API key provided"@,
{
    match explicit {
        Some(k) => Ok(k),
        None => match env {
            Some(k) => Ok(k),
            None => match store {
                Some(k) => Ok(k),
                None => Err("No API key provided"),
            },
        },
    }
}

/// The authenticated client: the API key and the resolved API host.
#[derive(Debug)]
pub struct Spider {
    /// The Spider API key.
    pub api_key: String,
    /// The API host every endpoint is resolved against.
    pub base_url: String,
}

impl Spider {
    /// Creates a new client from an explicit API key or the value of the
    /// key environment variable; with neither, construction fails before
    /// any network activity.
    pub fn new(api_key: Option<String>, env_key: Option<String>) -> (r: Result<Spider, &'static str>)
        ensures
            r is Ok <==> (api_key is Some || env_key is Some),
            api_key matches Some(k) ==> (r matches Ok(s) && s.api_key@ == k@),
            api_key is None ==> (env_key matches Some(k) ==> (r matches Ok(s) && s.api_key@ == k@)),
            r matches Ok(s) ==> s.base_url@ == default_base_url(),
            r matches Err(m) ==> m@ == "No API key provided"@,
    {
        let key = resolve_api_key(api_key, env_key, None)?;
        Ok(Spider { api_key: key, base_url: "https://api.spider.cloud".to_owned() })
    }

    /// Override the API host, as resolved once from the environment.
    pub fn set_base_url(&mut self, url: String)
        ensures
            final(self).base_url == url,
            final(self).api_key == old(self).api_key,
    {
        self.base_url = url;
    }

    /// The headers of a body-carrying call.
    fn build_headers(&self, content_type: &str) -> (r: Vec<(String, String)>)
        ensures
            headers_model(r) == std_headers(self.api_key@, content_type@),
    {
        let mut h: Vec<(String, String)> = Vec::new();
        h.push(("User-Agent".to_owned(), "Spider-Client/0.1.0".to_owned()));
        h.push(("Content-Type".to_owned(), content_type.to_owned()));
        let auth = String::from_str("Bearer ").concat(self.api_key.as_str());
        h.push(("Authorization".to_owned(), auth));
        proof {
            assert(headers_model(h) =~= std_headers(self.api_key@, content_type@));
        }
        h
    }

    /// The headers of the one call that fixes no content type.
    fn build_bare_headers(&self) -> (r: Vec<(String, String)>)
        ensures
            headers_model(r) == bare_headers(self.api_key@),
    {
        let mut h: Vec<(String, String)> = Vec::new();
        h.push(("User-Agent".to_owned(), "Spider-Client/0.1.0".to_owned()));
        let auth = String::from_str("Bearer ").concat(self.api_key.as_str());
        h.push(("Authorization".to_owned(), auth));
        proof {
            assert(headers_model(h) =~= bare_headers(self.api_key@));
        }
        h
    }

    /// The URL of an endpoint directly under the host.
    fn join_url(&self, endpoint: &str) -> (r: String)
        ensures
            r@ == self.base_url@ + "/"@ + endpoint@,
    {
        self.base_url.clone().concat("/").concat(endpoint)
    }

    /// The plan of a POST carrying a JSON object body.
    fn post_plan(&self, endpoint: &str, body: Vec<(String, JsonValue)>, content_type: &str) -> (r:
        RequestPlan)
        ensures
            r.method == HttpMethod::Post,
            r.url@ == self.base_url@ + "/"@ + endpoint@,
            headers_model(r.headers) == std_headers(self.api_key@, content_type@),
            r.body == Some(body),
            r.query is None,
    {
        RequestPlan {
            method: HttpMethod::Post,
            url: self.join_url(endpoint),
            headers: self.build_headers(content_type),
            body: Some(body),
            query: None,
        }
    }

    /// The plan of a GET with optional query parameters; every GET fixes
    /// the JSON content type.
    fn get_plan(&self, endpoint: &str, query: Option<Vec<(String, JsonValue)>>) -> (r: RequestPlan)
        ensures
            r.method == HttpMethod::Get,
            r.url@ == self.base_url@ + "/"@ + endpoint@,
            headers_model(r.headers) == std_headers(self.api_key@, "application/json"@),
            r.body is None,
            r.query == query,
    {
        RequestPlan {
            method: HttpMethod::Get,
            url: self.join_url(endpoint),
            headers: self.build_headers("application/json"),
            body: None,
            query,
        }
    }

    /// The plan of a DELETE; those endpoints live under the `v1` prefix.
    fn delete_plan(&self, endpoint: &str, body: Option<Vec<(String, JsonValue)>>) -> (r:
        RequestPlan)
        ensures
            r.method == HttpMethod::Delete,
            r.url@ == self.base_url@ + "/v1/"@ + endpoint@,
            headers_model(r.headers) == std_headers(self.api_key@, "application/json"@),
            r.body == body,
            r.query is None,
    {
        RequestPlan {
            method: HttpMethod::Delete,
            url: self.base_url.clone().concat("/v1/").concat(endpoint),
            headers: self.build_headers("application/json"),
            body,
            query: None,
        }
    }

    /// Scrape a single URL: a crawl of exactly one resource, so a `limit`
    /// of 1 is injected unless the settings set their own.
    pub fn scrape_url(&self, url: &str, params: Option<RequestParams>, content_type: &str) -> (r:
        RequestPlan)
        ensures
            r.method == HttpMethod::Post,
            r.url@ == self.base_url@ + "/"@ + "crawl"@,
            headers_model(r.headers) == std_headers(self.api_key@, content_type@),
            r.body matches Some(b) && fields_model(b) == payload_model(
                params,
                "url"@,
                JsonData::Str(url@),
                true,
            ),
            r.query is None,
    {
        let body = build_payload(&params, "url", JsonValue::Str(url.to_owned()), true);
        self.post_plan("crawl", body, content_type)
    }

    /// Crawl a website starting from a URL.
    pub fn crawl_url(&self, url: &str, params: Option<RequestParams>, content_type: &str) -> (r:
        RequestPlan)
        ensures
            r.method == HttpMethod::Post,
            r.url@ == self.base_url@ + "/"@ + "crawl"@,
            headers_model(r.headers) == std_headers(self.api_key@, content_type@),
            r.body matches Some(b) && fields_model(b) == payload_model(
                params,
                "url"@,
                JsonData::Str(url@),
                false,
            ),
            r.query is None,
    {
        let body = build_payload(&params, "url", JsonValue::Str(url.to_owned()), false);
        self.post_plan("crawl", body, content_type)
    }

    /// Fetch the links found at a URL.
    pub fn links(&self, url: &str, params: Option<RequestParams>, content_type: &str) -> (r:
        RequestPlan)
        ensures
            r.method == HttpMethod::Post,
            r.url@ == self.base_url@ + "/"@ + "links"@,
            headers_model(r.headers) == std_headers(self.api_key@, content_type@),
            r.body matches Some(b) && fields_model(b) == payload_model(
                params,
                "url"@,
                JsonData::Str(url@),
                false,
            ),
            r.query is None,
    {
        let body = build_payload(&params, "url", JsonValue::Str(url.to_owned()), false);
        self.post_plan("links", body, content_type)
    }

    /// Take a screenshot of a URL.
    pub fn screenshot(&self, url: &str, params: Option<RequestParams>, content_type: &str) -> (r:
        RequestPlan)
        ensures
            r.method == HttpMethod::Post,
            r.url@ == self.base_url@ + "/"@ + "screenshot"@,
            headers_model(r.headers) == std_headers(self.api_key@, content_type@),
            r.body matches Some(b) && fields_model(b) == payload_model(
                params,
                "url"@,
                JsonData::Str(url@),
                false,
            ),
            r.query is None,
    {
        let body = build_payload(&params, "url", JsonValue::Str(url.to_owned()), false);
        self.post_plan("screenshot", body, content_type)
    }

    /// Search for a query: the explicit query always overwrites whatever
    /// the settings carried.
    pub fn search(&self, q: &str, params: Option<SearchRequestParams>, content_type: &str) -> (r:
        RequestPlan)
        ensures
            r.method == HttpMethod::Post,
            r.url@ == self.base_url@ + "/"@ + "search"@,
            headers_model(r.headers) == std_headers(self.api_key@, content_type@),
            r.query is None,
            params matches Some(p) ==> (r.body matches Some(b) && fields_model(b)
                == search_fields(p, q@)),
            params is None ==> (r.body matches Some(b) && fields_model(b) == seq![
                ("search"@, JsonData::Str(q@)),
            ]),
    {
        let body = match params {
            Some(mut p) => {
                p.search = q.to_owned();
                let b = p.to_fields();
                proof {
                    assert(fields_model(b) == search_fields(p, q@));
                }
                b
            },
            None => {
                let p = SearchRequestParams::default();
                let mut p = p;
                p.search = q.to_owned();
                let b = p.to_fields();
                proof {
                    crate::encode::lemma_unset_params_no_fields(p.base);
                    assert(fields_model(b) =~= seq![("search"@, JsonData::Str(q@))]);
                }
                b
            },
        };
        self.post_plan("search", body, content_type)
    }

    /// Transform the given `{html, url}` pairs: the explicit data always
    /// overwrites whatever the settings carried.
    pub fn transform(&self, data: Vec<DataParam>, params: Option<TransformParams>, content_type:
        &str) -> (r: RequestPlan)
        ensures
            r.method == HttpMethod::Post,
            r.url@ == self.base_url@ + "/"@ + "transform"@,
            headers_model(r.headers) == std_headers(self.api_key@, content_type@),
            r.query is None,
            params matches Some(p) ==> (r.body matches Some(b) && fields_model(b) == remove_key(
                transform_fields(p),
                "data"@,
            ) + seq![("data"@, data_list_data(data@))]),
            params is None ==> (r.body matches Some(b) && fields_model(b) == seq![
                ("data"@, data_list_data(data@)),
            ]),
    {
        let d = data_list_to_json(&data);
        let body = match params {
            Some(p) => {
                let fields = p.to_fields();
                set_key(fields, "data", d)
            },
            None => {
                let fields: Vec<(String, JsonValue)> = Vec::new();
                let b = set_key(fields, "data", d);
                proof {
                    assert(fields_model(b) =~= seq![("data"@, data_list_data(data@))]);
                }
                b
            },
        };
        self.post_plan("transform", body, content_type)
    }

    /// Extract contacts from a URL.
    pub fn extract_contacts(&self, url: &str, params: Option<RequestParams>, content_type: &str)
        -> (r: RequestPlan)
        ensures
            r.method == HttpMethod::Post,
            r.url@ == self.base_url@ + "/"@ + "pipeline/extract-contacts"@,
            headers_model(r.headers) == std_headers(self.api_key@, content_type@),
            r.body matches Some(b) && fields_model(b) == payload_model(
                params,
                "url"@,
                JsonData::Str(url@),
                false,
            ),
            r.query is None,
    {
        let body = build_payload(&params, "url", JsonValue::Str(url.to_owned()), false);
        self.post_plan("pipeline/extract-contacts", body, content_type)
    }

    /// Label the data found at a URL.
    pub fn label(&self, url: &str, params: Option<RequestParams>, content_type: &str) -> (r:
        RequestPlan)
        ensures
            r.method == HttpMethod::Post,
            r.url@ == self.base_url@ + "/"@ + "pipeline/label"@,
            headers_model(r.headers) == std_headers(self.api_key@, content_type@),
            r.body matches Some(b) && fields_model(b) == payload_model(
                params,
                "url"@,
                JsonData::Str(url@),
                false,
            ),
            r.query is None,
    {
        let body = build_payload(&params, "url", JsonValue::Str(url.to_owned()), false);
        self.post_plan("pipeline/label", body, content_type)
    }

    /// Get the crawl state of a URL: the content type is echoed into the
    /// payload, and the subject key overwrites any conflicting entry.
    pub fn get_crawl_state(&self, url: &str, params: Option<RequestParams>, content_type: &str)
        -> (r: RequestPlan)
        ensures
            r.method == HttpMethod::Post,
            r.url@ == self.base_url@ + "/"@ + "data/crawl_state"@,
            headers_model(r.headers) == std_headers(self.api_key@, content_type@),
            r.body matches Some(b) && fields_model(b) == remove_key(
                seq![("contentType"@, JsonData::Str(content_type@))] + params_fields_opt(params),
                "url"@,
            ) + seq![("url"@, JsonData::Str(url@))],
            r.query is None,
    {
        let mut fields: Vec<(String, JsonValue)> = Vec::new();
        push_pair(&mut fields, "contentType", JsonValue::Str(content_type.to_owned()));
        match &params {
            Some(p) => {
                let ghost before = fields_model(fields);
                let mut own = p.to_fields();
                fields.append(&mut own);
                proof {
                    assert(fields_model(fields) =~= before + params_fields(*p));
                }
            },
            None => {},
        }
        proof {
            assert(fields_model(fields) =~= seq![("contentType"@, JsonData::Str(content_type@))]
                + params_fields_opt(params));
        }
        let body = set_key(fields, "url", JsonValue::Str(url.to_owned()));
        self.post_plan("data/crawl_state", body, content_type)
    }

    /// Get the account credits left.
    pub fn get_credits(&self) -> (r: RequestPlan)
        ensures
            r.method == HttpMethod::Get,
            r.url@ == self.base_url@ + "/"@ + "data/credits"@,
            headers_model(r.headers) == std_headers(self.api_key@, "application/json"@),
            r.body is None,
            r.query is None,
    {
        self.get_plan("data/credits", None)
    }

    /// Send a data record to a table.
    pub fn data_post(&self, table: &str, data: Option<RequestParams>) -> (r: RequestPlan)
        ensures
            r.method == HttpMethod::Post,
            r.url@ == self.base_url@ + "/data/"@ + table@,
            headers_model(r.headers) == std_headers(self.api_key@, "application/json"@),
            r.body matches Some(b) && fields_model(b) == params_fields_opt(data),
            r.query is None,
    {
        let body = match &data {
            Some(p) => p.to_fields(),
            None => Vec::new(),
        };
        proof {
            assert(data is None ==> fields_model(body) =~= params_fields_opt(data));
        }
        RequestPlan {
            method: HttpMethod::Post,
            url: self.base_url.clone().concat("/data/").concat(table),
            headers: self.build_headers("application/json"),
            body: Some(body),
            query: None,
        }
    }

    /// Query a record from the global database.
    pub fn query(&self, params: &QueryRequest) -> (r: RequestPlan)
        ensures
            r.method == HttpMethod::Get,
            r.url@ == self.base_url@ + "/"@ + "data/query"@,
            headers_model(r.headers) == std_headers(self.api_key@, "application/json"@),
            r.body is None,
            r.query matches Some(q) && fields_model(q) == opt_str_field("url"@, params.url)
                + opt_str_field("domain"@, params.domain) + opt_str_field(
                "pathname"@,
                params.pathname,
            ),
    {
        let mut q: Vec<(String, JsonValue)> = Vec::new();
        push_opt_str(&mut q, "url", &params.url);
        push_opt_str(&mut q, "domain", &params.domain);
        push_opt_str(&mut q, "pathname", &params.pathname);
        proof {
            assert(fields_model(q) =~= opt_str_field("url"@, params.url) + opt_str_field(
                "domain"@,
                params.domain,
            ) + opt_str_field("pathname"@, params.pathname));
        }
        self.get_plan("data/query", Some(q))
    }

    /// Get the records of a table. The settings argument is accepted for
    /// interface compatibility; the stored-data read sends none of it.
    pub fn data_get(&self, table: &str, params: Option<RequestParams>) -> (r: RequestPlan)
        ensures
            r.method == HttpMethod::Get,
            r.url@ == self.base_url@ + "/data/"@ + table@,
            headers_model(r.headers) == std_headers(self.api_key@, "application/json"@),
            r.body is None,
            r.query is None,
    {
        let _ = params;
        RequestPlan {
            method: HttpMethod::Get,
            url: self.base_url.clone().concat("/data/").concat(table),
            headers: self.build_headers("application/json"),
            body: None,
            query: None,
        }
    }

    /// Delete the records of a table.
    pub fn data_delete(&self, table: &str, params: Option<RequestParams>) -> (r: RequestPlan)
        ensures
            r.method == HttpMethod::Delete,
            r.url@ == self.base_url@ + "/v1/data/"@ + table@,
            headers_model(r.headers) == std_headers(self.api_key@, "application/json"@),
            r.body matches Some(b) && fields_model(b) == params_fields_opt(params),
            r.query is None,
    {
        let body = match &params {
            Some(p) => p.to_fields(),
            None => Vec::new(),
        };
        proof {
            assert(params is None ==> fields_model(body) =~= params_fields_opt(params));
        }
        RequestPlan {
            method: HttpMethod::Delete,
            url: self.base_url.clone().concat("/v1/data/").concat(table),
            headers: self.build_headers("application/json"),
            body: Some(body),
            query: None,
        }
    }

    /// Download a record from storage: the subject and the numeric options
    /// travel as query parameters, and the body stays untouched for
    /// streaming.
    pub fn download(&self, url: Option<&str>, options: Option<Vec<(String, i32)>>) -> (r:
        RequestPlan)
        ensures
            r.method == HttpMethod::Get,
            r.url@ == self.base_url@ + "/v1/"@ + "data/download"@,
            headers_model(r.headers) == std_headers(
                self.api_key@,
                "application/octet-stream"@,
            ),
            r.body is None,
            r.query matches Some(q) && fields_model(q) == (match url {
                Some(u) => seq![("url"@, JsonData::Str(u@))],
                None => Seq::empty(),
            }) + int_options_fields(options),
    {
        let mut q: Vec<(String, JsonValue)> = Vec::new();
        match url {
            Some(u) => push_pair(&mut q, "url", JsonValue::Str(u.to_owned())),
            None => {},
        }
        push_int_options(&mut q, &options);
        proof {
            assert(fields_model(q) =~= (match url {
                Some(u) => seq![("url"@, JsonData::Str(u@))],
                None => Seq::<(Seq<char>, JsonData)>::empty(),
            }) + int_options_fields(options));
        }
        RequestPlan {
            method: HttpMethod::Get,
            url: self.base_url.clone().concat("/v1/").concat("data/download"),
            headers: self.build_headers("application/octet-stream"),
            body: None,
            query: Some(q),
        }
    }

    /// Create a signed URL of a file from storage: the options travel
    /// first, and an explicit subject overwrites any `url` among them.
    pub fn create_signed_url(&self, url: Option<&str>, options: Option<Vec<(String, i32)>>) -> (r:
        RequestPlan)
        ensures
            r.method == HttpMethod::Get,
            r.url@ == self.base_url@ + "/v1/"@ + "data/sign-url"@,
            headers_model(r.headers) == bare_headers(self.api_key@),
            r.body is None,
            url matches Some(u) ==> (r.query matches Some(q) && fields_model(q) == remove_key(
                int_options_fields(options),
                "url"@,
            ) + seq![("url"@, JsonData::Str(u@))]),
            url is None ==> (r.query matches Some(q) && fields_model(q) == int_options_fields(
                options,
            )),
    {
        let mut q: Vec<(String, JsonValue)> = Vec::new();
        push_int_options(&mut q, &options);
        let q = match url {
            Some(u) => set_key(q, "url", JsonValue::Str(u.to_owned())),
            None => q,
        };
        RequestPlan {
            method: HttpMethod::Get,
            url: self.base_url.clone().concat("/v1/").concat("data/sign-url"),
            headers: self.build_bare_headers(),
            body: None,
            query: Some(q),
        }
    }
}

/// The query entries of the optional numeric options.
pub open spec fn int_options_fields(options: Option<Vec<(String, i32)>>) -> Seq<
    (Seq<char>, JsonData),
> {
    match options {
        Some(m) => Seq::new(m@.len(), |i: int| (m@[i].0@, JsonData::Int(m@[i].1 as i64))),
        None => Seq::empty(),
    }
}

/// Append the optional numeric options to a query.
fn push_int_options(q: &mut Vec<(String, JsonValue)>, options: &Option<Vec<(String, i32)>>)
    ensures
        fields_model(*final(q)) == fields_model(*old(q)) + int_options_fields(*options),
{
    match options {
        Some(m) => {
            let n = m.len();
            let mut i: usize = 0;
            while i < n
                invariant
                    n == m@.len(),
                    0 <= i <= n,
                    fields_model(*q) == fields_model(*old(q)) + Seq::new(
                        i as nat,
                        |j: int| (m@[j].0@, JsonData::Int(m@[j].1 as i64)),
                    ),
                decreases n - i,
            {
                let ghost before = fields_model(*q);
                q.push((m[i].0.clone(), JsonValue::Int(m[i].1 as i64)));
                proof {
                    assert(fields_model(*q) =~= before.push((m@[i as int].0@, JsonData::Int(
                        m@[i as int].1 as i64,
                    ))));
                    assert(fields_model(*q) =~= fields_model(*old(q)) + Seq::new(
                        (i + 1) as nat,
                        |j: int| (m@[j].0@, JsonData::Int(m@[j].1 as i64)),
                    ));
                }
                i += 1;
            }
            proof {
                assert(fields_model(*q) =~= fields_model(*old(q)) + int_options_fields(*options));
            }
        },
        None => {
            proof {
                assert(fields_model(*q) =~= fields_model(*q) + int_options_fields(*options));
            }
        },
    }
}

} // verus!
