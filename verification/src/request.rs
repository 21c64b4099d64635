//! The typed request parameters: the option-bag of crawl settings, the
//! search and transform variants, and the small configuration enums with
//! their fixed wire strings.

use vstd::prelude::*;

verus! {

/// A duration: whole seconds plus nanoseconds.
#[derive(Debug, Clone)]
pub struct Timeout {
    /// The seconds up to 60.
    pub secs: u64,
    /// The nanoseconds.
    pub nanos: u32,
}

/// Wait until the network has been idle for the nested timeout.
#[derive(Debug, Clone)]
pub struct IdleNetwork {
    pub timeout: Timeout,
}

/// Wait until a selector exists, up to a timeout.
#[derive(Debug, Clone)]
pub struct Selector {
    pub timeout: Timeout,
    pub selector: String,
}

/// Wait a hard delay.
#[derive(Debug, Clone)]
pub struct Delay {
    pub timeout: Timeout,
}

/// The wait-for conditions of a browser-rendered request.
#[derive(Debug, Clone)]
pub struct WaitFor {
    /// Wait until the network is idle.
    pub idle_network: Option<IdleNetwork>,
    /// Wait until a selector exists.
    pub selector: Option<Selector>,
    /// Wait for the DOM to update.
    pub dom: Option<Selector>,
    /// Wait a hard delay.
    pub delay: Option<Delay>,
    /// Wait for page navigations. Defaults to true.
    pub page_navigations: Option<bool>,
}

/// The default the wire format gives `WaitFor::page_navigations`.
pub fn default_some_true() -> (r: Option<bool>)
    ensures
        r == Some(true),
{
    Some(true)
}

/// Query request to get a stored document.
#[derive(Debug, Clone)]
pub struct QueryRequest {
    /// The exact website url.
    pub url: Option<String>,
    /// The website domain.
    pub domain: Option<String>,
    /// The path of the resource.
    pub pathname: Option<String>,
}

impl Default for QueryRequest {
    fn default() -> (r: Self)
        ensures
            r.url is None && r.domain is None && r.pathname is None,
    {
        QueryRequest { url: None, domain: None, pathname: None }
    }
}

/// The chunking algorithms the server offers.
#[derive(Debug, Clone, Copy, PartialEq, Eq, Structural)]
pub enum ChunkingType {
    ByWords,
    ByLines,
    ByCharacterLength,
    BySentence,
}

/// The wire name of a chunking algorithm.
pub open spec fn chunking_type_name(t: ChunkingType) -> Seq<char> {
    match t {
        ChunkingType::ByWords => "bywords"@,
        ChunkingType::ByLines => "bylines"@,
        ChunkingType::ByCharacterLength => "bycharacterlength"@,
        ChunkingType::BySentence => "bysentence"@,
    }
}

impl ChunkingType {
    /// The fixed string this variant is sent as.
    pub fn wire_str(&self) -> (r: &'static str)
        ensures
            r@ == chunking_type_name(*self),
    {
        match self {
            ChunkingType::ByWords => "bywords",
            ChunkingType::ByLines => "bylines",
            ChunkingType::ByCharacterLength => "bycharacterlength",
            ChunkingType::BySentence => "bysentence",
        }
    }
}

/// The chunking algorithm and the amount to chunk by.
#[derive(Debug, Clone)]
pub struct ChunkingAlgDict {
    /// The chunking algorithm, sent under the key `type`.
    pub kind: ChunkingType,
    /// The amount to chunk by.
    pub value: i32,
}

/// The viewport of a browser-rendered request.
#[derive(Debug, Clone)]
pub struct Viewport {
    /// Device screen width.
    pub width: u32,
    /// Device screen height.
    pub height: u32,
    /// Device scale factor, in whole steps.
    pub device_scale_factor: Option<u64>,
    /// Emulate a mobile device.
    pub emulating_mobile: bool,
    /// Landscape instead of portrait.
    pub is_landscape: bool,
    /// Touch screen device.
    pub has_touch: bool,
}

/// A named group of CSS selectors.
#[derive(Debug, Clone)]
pub struct CSSSelector {
    /// The name of the selector group.
    pub name: String,
    /// The CSS selectors of the group.
    pub selectors: Vec<String>,
}

/// The settings of a webhook configuration.
#[derive(Debug, Clone)]
pub struct WebhookSettings {
    /// The destination the webhook information is sent to.
    pub destination: String,
    /// Trigger when all credits are depleted.
    pub on_credits_depleted: bool,
    /// Trigger when half of the credits are depleted.
    pub on_credits_half_depleted: bool,
    /// Trigger on a website status update event.
    pub on_website_status: bool,
    /// Send information about a newly found page.
    pub on_find: bool,
    /// Handle the metadata of a found page.
    pub on_find_metadata: bool,
}

/// One automated browser task.
#[derive(Debug, Clone)]
pub enum WebAutomation {
    Evaluate { code: String },
    Click { selector: String },
    Wait { duration: u64 },
    WaitForNavigation,
    WaitFor { selector: String },
    WaitForAndClick { selector: String },
    ScrollX { pixels: i32 },
    ScrollY { pixels: i32 },
    Fill { selector: String, value: String },
    InfiniteScroll { times: u32 },
}

/// The redirect policy of an HTTP request.
#[derive(Debug, Clone, Copy, PartialEq, Eq, Structural)]
pub enum RedirectPolicy {
    Loose,
    Strict,
}

impl Default for RedirectPolicy {
    fn default() -> (r: Self)
        ensures
            r == RedirectPolicy::Strict,
    {
        RedirectPolicy::Strict
    }
}

/// The wire name of a redirect policy, sent under the key `type`.
pub open spec fn redirect_policy_name(p: RedirectPolicy) -> Seq<char> {
    match p {
        RedirectPolicy::Loose => "Loose"@,
        RedirectPolicy::Strict => "Strict"@,
    }
}

impl RedirectPolicy {
    /// The fixed string this variant is sent as.
    pub fn wire_str(&self) -> (r: &'static str)
        ensures
            r@ == redirect_policy_name(*self),
    {
        match self {
            RedirectPolicy::Loose => "Loose",
            RedirectPolicy::Strict => "Strict",
        }
    }
}

/// Whether requests and responses are tracked.
#[derive(Debug, Clone)]
pub struct EventTracker {
    /// Track the responses received.
    pub responses: Option<bool>,
    /// Track the requests sent.
    pub requests: Option<bool>,
}

/// The kind of request the crawler performs.
#[derive(Debug, Clone, Copy, PartialEq, Eq, Structural)]
pub enum RequestType {
    /// Plain HTTP request.
    Http,
    /// Chrome browser rendering.
    Chrome,
    /// HTTP first, Chrome when needed.
    SmartMode,
}

impl Default for RequestType {
    fn default() -> (r: Self)
        ensures
            r == RequestType::SmartMode,
    {
        RequestType::SmartMode
    }
}

/// The wire name of a request type.
pub open spec fn request_type_name(t: RequestType) -> Seq<char> {
    match t {
        RequestType::Http => "http"@,
        RequestType::Chrome => "chrome"@,
        RequestType::SmartMode => "smartmode"@,
    }
}

impl RequestType {
    /// The fixed string this variant is sent as.
    pub fn wire_str(&self) -> (r: &'static str)
        ensures
            r@ == request_type_name(*self),
    {
        match self {
            RequestType::Http => "http",
            RequestType::Chrome => "chrome",
            RequestType::SmartMode => "smartmode",
        }
    }
}

/// The shape page content is returned in.
#[derive(Debug, Clone, Copy, PartialEq, Eq, Structural)]
pub enum ReturnFormat {
    /// The resource as it came.
    Raw,
    /// Markdown.
    Markdown,
    /// Commonmark.
    Commonmark,
    /// Html2text.
    Html2text,
    /// Plain text.
    Text,
    /// A screenshot, base64-encoded.
    Screenshot,
    /// XML.
    Xml,
    /// Raw bytes.
    Bytes,
}

impl Default for ReturnFormat {
    fn default() -> (r: Self)
        ensures
            r == ReturnFormat::Raw,
    {
        ReturnFormat::Raw
    }
}

/// The wire name of a return format.
pub open spec fn return_format_name(f: ReturnFormat) -> Seq<char> {
    match f {
        ReturnFormat::Raw => "raw"@,
        ReturnFormat::Markdown => "markdown"@,
        ReturnFormat::Commonmark => "commonmark"@,
        ReturnFormat::Html2text => "html2text"@,
        ReturnFormat::Text => "text"@,
        ReturnFormat::Screenshot => "screenshot"@,
        ReturnFormat::Xml => "xml"@,
        ReturnFormat::Bytes => "bytes"@,
    }
}

impl ReturnFormat {
    /// The fixed string this variant is sent as.
    pub fn wire_str(&self) -> (r: &'static str)
        ensures
            r@ == return_format_name(*self),
    {
        match self {
            ReturnFormat::Raw => "raw",
            ReturnFormat::Markdown => "markdown",
            ReturnFormat::Commonmark => "commonmark",
            ReturnFormat::Html2text => "html2text",
            ReturnFormat::Text => "text",
            ReturnFormat::Screenshot => "screenshot",
            ReturnFormat::Xml => "xml",
            ReturnFormat::Bytes => "bytes",
        }
    }
}

/// One return format, or several at once.
#[derive(Debug, Clone)]
pub enum ReturnFormatHandling {
    /// A single return format.
    Single(ReturnFormat),
    /// Multiple return formats, kept in the order given.
    Multi(Vec<ReturnFormat>),
}

impl Default for ReturnFormatHandling {
    fn default() -> (r: Self)
        ensures
            r == ReturnFormatHandling::Single(ReturnFormat::Raw),
    {
        ReturnFormatHandling::Single(ReturnFormat::Raw)
    }
}

/// Proxy pool selection for outbound request routing.
#[derive(Debug, Clone, Copy, PartialEq, Eq, Structural)]
pub enum ProxyType {
    /// Cost-effective entry-level residential pool.
    Residential,
    /// Higher-throughput residential pool.
    ResidentialFast,
    /// Static residential IPs, rotated daily.
    ResidentialStatic,
    /// 4G / 5G mobile proxies.
    Mobile,
    /// ISP-grade residential routing (decoded also from the alias
    /// `datacenter`).
    Isp,
    /// Premium low-latency residential pool.
    ResidentialPremium,
    /// Core residential plan balancing cost and quality.
    ResidentialCore,
    /// Extended core residential pool.
    ResidentialPlus,
}

impl Default for ProxyType {
    fn default() -> (r: Self)
        ensures
            r == ProxyType::Isp,
    {
        ProxyType::Isp
    }
}

/// The canonical string of a proxy pool.
pub open spec fn proxy_name(p: ProxyType) -> Seq<char> {
    match p {
        ProxyType::Residential => "residential"@,
        ProxyType::ResidentialFast => "residential_fast"@,
        ProxyType::ResidentialStatic => "residential_static"@,
        ProxyType::Mobile => "mobile"@,
        ProxyType::Isp => "isp"@,
        ProxyType::ResidentialPremium => "residential_premium"@,
        ProxyType::ResidentialCore => "residential_core"@,
        ProxyType::ResidentialPlus => "residential_plus"@,
    }
}

/// The proxy pool a string decodes to: each canonical string decodes to its
/// variant, and the alias `datacenter` decodes to `Isp`.
pub open spec fn proxy_parse_spec(s: Seq<char>) -> Option<ProxyType> {
    if s == "residential"@ {
        Some(ProxyType::Residential)
    } else if s == "residential_fast"@ {
        Some(ProxyType::ResidentialFast)
    } else if s == "residential_static"@ {
        Some(ProxyType::ResidentialStatic)
    } else if s == "mobile"@ {
        Some(ProxyType::Mobile)
    } else if s == "isp"@ || s == "datacenter"@ {
        Some(ProxyType::Isp)
    } else if s == "residential_premium"@ {
        Some(ProxyType::ResidentialPremium)
    } else if s == "residential_core"@ {
        Some(ProxyType::ResidentialCore)
    } else if s == "residential_plus"@ {
        Some(ProxyType::ResidentialPlus)
    } else {
        None
    }
}

impl ProxyType {
    /// Get the canonical string representation of the proxy type.
    pub fn as_str(&self) -> (r: &'static str)
        ensures
            r@ == proxy_name(*self),
    {
        match self {
            ProxyType::Residential => "residential",
            ProxyType::ResidentialFast => "residential_fast",
            ProxyType::ResidentialStatic => "residential_static",
            ProxyType::Mobile => "mobile",
            ProxyType::Isp => "isp",
            ProxyType::ResidentialPremium => "residential_premium",
            ProxyType::ResidentialCore => "residential_core",
            ProxyType::ResidentialPlus => "residential_plus",
        }
    }

    /// Decode a proxy pool from its canonical string or the `datacenter`
    /// alias.
    pub fn parse(s: &str) -> (r: Option<ProxyType>)
        ensures
            r == proxy_parse_spec(s@),
    {
        if crate::text::str_eq(s, "residential") {
            Some(ProxyType::Residential)
        } else if crate::text::str_eq(s, "residential_fast") {
            Some(ProxyType::ResidentialFast)
        } else if crate::text::str_eq(s, "residential_static") {
            Some(ProxyType::ResidentialStatic)
        } else if crate::text::str_eq(s, "mobile") {
            Some(ProxyType::Mobile)
        } else if crate::text::str_eq(s, "isp") || crate::text::str_eq(s, "datacenter") {
            Some(ProxyType::Isp)
        } else if crate::text::str_eq(s, "residential_premium") {
            Some(ProxyType::ResidentialPremium)
        } else if crate::text::str_eq(s, "residential_core") {
            Some(ProxyType::ResidentialCore)
        } else if crate::text::str_eq(s, "residential_plus") {
            Some(ProxyType::ResidentialPlus)
        } else {
            None
        }
    }
}

/// Encoding a proxy pool to its canonical string and decoding that string
/// yields the same pool again.
pub proof fn lemma_proxy_round_trip(p: ProxyType)
    ensures
        proxy_parse_spec(proxy_name(p)) == Some(p),
{
    lemma_proxy_literals();
}

/// The lengths of the canonical proxy strings, and the characters telling
/// the equal-length ones apart.
proof fn lemma_proxy_literals()
    ensures
        "residential"@.len() == 11,
        "residential_fast"@.len() == 16,
        "residential_static"@.len() == 18,
        "mobile"@.len() == 6,
        "isp"@.len() == 3,
        "datacenter"@.len() == 10,
        "residential_premium"@.len() == 19,
        "residential_core"@.len() == 16,
        "residential_plus"@.len() == 16,
        "residential_fast"@ != "residential_core"@,
        "residential_fast"@ != "residential_plus"@,
        "residential_core"@ != "residential_plus"@,
{
    reveal_strlit("residential");
    reveal_strlit("residential_fast");
    reveal_strlit("residential_static");
    reveal_strlit("mobile");
    reveal_strlit("isp");
    reveal_strlit("datacenter");
    reveal_strlit("residential_premium");
    reveal_strlit("residential_core");
    reveal_strlit("residential_plus");
    assert("residential_fast"@[12] == 'f');
    assert("residential_core"@[12] == 'c');
    assert("residential_plus"@[12] == 'p');
}

/// The alias `datacenter` decodes to the `Isp` pool.
pub proof fn lemma_proxy_alias_datacenter()
    ensures
        proxy_parse_spec("datacenter"@) == Some(ProxyType::Isp),
{
    lemma_proxy_literals();
}

/// One `{html, url}` pair handed to the transform operation.
#[derive(Debug, Clone)]
pub struct DataParam {
    /// The HTML resource.
    pub html: String,
    /// The website url.
    pub url: Option<String>,
}

/// The optional-field bag of crawl settings. Every field is optional; a
/// field left `None` is omitted from the encoded payload altogether, so the
/// server applies its own default.
#[derive(Debug, Clone)]
pub struct RequestParams {
    /// The URL to be crawled.
    pub url: Option<String>,
    /// The type of request to be made.
    pub request: Option<RequestType>,
    /// The maximum number of pages the crawler should visit.
    pub limit: Option<u32>,
    /// The format in which the result should be returned.
    pub return_format: Option<ReturnFormatHandling>,
    /// The country code for the request.
    pub country_code: Option<String>,
    /// Only visit the top-level domain.
    pub tld: Option<bool>,
    /// The depth of the crawl.
    pub depth: Option<u32>,
    /// Cache the request.
    pub cache: Option<bool>,
    /// Perform an infinite scroll on the page, this many times.
    pub scroll: Option<u32>,
    /// The budget for various resources, keyed by resource name.
    pub budget: Option<Vec<(String, u32)>>,
    /// Routes to ignore; each entry may be a regex pattern.
    pub blacklist: Option<Vec<String>>,
    /// Routes to crawl exclusively; each entry may be a regex pattern.
    pub whitelist: Option<Vec<String>>,
    /// The locale to be used during the crawl.
    pub locale: Option<String>,
    /// The cookies for the request, formatted as a single string.
    pub cookies: Option<String>,
    /// Use stealth techniques to avoid detection.
    pub stealth: Option<bool>,
    /// The headers for the request, as name/value pairs.
    pub headers: Option<Vec<(String, String)>>,
    /// Use anti-bot measures.
    pub anti_bot: Option<bool>,
    /// Send data via webhooks.
    pub webhooks: Option<WebhookSettings>,
    /// Include metadata in the response.
    pub metadata: Option<bool>,
    /// The dimensions of the viewport.
    pub viewport: Option<Viewport>,
    /// The encoding for the request.
    pub encoding: Option<String>,
    /// Include subdomains in the crawl.
    pub subdomains: Option<bool>,
    /// The user agent string for the request.
    pub user_agent: Option<String>,
    /// Store the response data.
    pub store_data: Option<bool>,
    /// GPT configuration settings, as name/value pairs.
    pub gpt_config: Option<Vec<(String, String)>>,
    /// Use fingerprinting protection.
    pub fingerprint: Option<bool>,
    /// Perform the request without using storage.
    pub storageless: Option<bool>,
    /// Apply readability optimizations.
    pub readability: Option<bool>,
    /// Use a proxy for the request.
    pub proxy_enabled: Option<bool>,
    /// Respect the site's robots.txt file.
    pub respect_robots: Option<bool>,
    /// CSS selector used to filter the content.
    pub root_selector: Option<String>,
    /// Load all resources of the crawl target.
    pub full_resources: Option<bool>,
    /// The text string to extract data from.
    pub text: Option<String>,
    /// Use the sitemap links.
    pub sitemap: Option<bool>,
    /// External domains to include in the crawl.
    pub external_domains: Option<Vec<String>>,
    /// Return the OpenAI embeddings for the title and description.
    pub return_embeddings: Option<bool>,
    /// Return the HTTP response headers.
    pub return_headers: Option<bool>,
    /// Return the links found on the page that match the crawler query.
    pub return_page_links: Option<bool>,
    /// Return the HTTP response cookies.
    pub return_cookies: Option<bool>,
    /// The timeout for the request, in seconds.
    pub request_timeout: Option<u8>,
    /// Run the request in the background.
    pub run_in_background: Option<bool>,
    /// Skip configuration checks.
    pub skip_config_checks: Option<bool>,
    /// CSS extraction groups per path or page.
    pub css_extraction_map: Option<Vec<(String, Vec<CSSSelector>)>>,
    /// The chunking algorithm to use.
    pub chunking_alg: Option<ChunkingAlgDict>,
    /// Disable request interception in browser-rendered requests.
    pub disable_intercept: Option<bool>,
    /// The events to wait for on the page.
    pub wait_for: Option<WaitFor>,
    /// Custom JavaScript tasks per url or url path.
    pub execution_scripts: Option<Vec<(String, String)>>,
    /// Automated web tasks per url or url path.
    pub automation_scripts: Option<Vec<(String, Vec<WebAutomation>)>>,
    /// The redirect policy for the request.
    pub redirect_policy: Option<RedirectPolicy>,
    /// Track the requests sent and responses received.
    pub event_tracker: Option<EventTracker>,
    /// The timeout that stops the whole crawl.
    pub crawl_timeout: Option<Timeout>,
    /// A script evaluated in every frame upon creation.
    pub evaluate_on_new_document: Option<String>,
    /// Run the request in lite mode, trading quality for cost.
    pub lite_mode: Option<bool>,
    /// The proxy pool to use for the request.
    pub proxy: Option<ProxyType>,
    /// A user-supplied static IP proxy endpoint for file downloads.
    pub remote_proxy: Option<String>,
    /// The maximum number of whole credits to spend per page.
    pub max_credits_per_page: Option<u64>,
}

impl RequestParams {
    /// No field is set: the encoded payload of such a bag is empty.
    pub open spec fn is_unset(self) -> bool {
        &&& self.url is None
        &&& self.request is None
        &&& self.limit is None
        &&& self.return_format is None
        &&& self.country_code is None
        &&& self.tld is None
        &&& self.depth is None
        &&& self.cache is None
        &&& self.scroll is None
        &&& self.budget is None
        &&& self.blacklist is None
        &&& self.whitelist is None
        &&& self.locale is None
        &&& self.cookies is None
        &&& self.stealth is None
        &&& self.headers is None
        &&& self.anti_bot is None
        &&& self.webhooks is None
        &&& self.metadata is None
        &&& self.viewport is None
        &&& self.encoding is None
        &&& self.subdomains is None
        &&& self.user_agent is None
        &&& self.store_data is None
        &&& self.gpt_config is None
        &&& self.fingerprint is None
        &&& self.storageless is None
        &&& self.readability is None
        &&& self.proxy_enabled is None
        &&& self.respect_robots is None
        &&& self.root_selector is None
        &&& self.full_resources is None
        &&& self.text is None
        &&& self.sitemap is None
        &&& self.external_domains is None
        &&& self.return_embeddings is None
        &&& self.return_headers is None
        &&& self.return_page_links is None
        &&& self.return_cookies is None
        &&& self.request_timeout is None
        &&& self.run_in_background is None
        &&& self.skip_config_checks is None
        &&& self.css_extraction_map is None
        &&& self.chunking_alg is None
        &&& self.disable_intercept is None
        &&& self.wait_for is None
        &&& self.execution_scripts is None
        &&& self.automation_scripts is None
        &&& self.redirect_policy is None
        &&& self.event_tracker is None
        &&& self.crawl_timeout is None
        &&& self.evaluate_on_new_document is None
        &&& self.lite_mode is None
        &&& self.proxy is None
        &&& self.remote_proxy is None
        &&& self.max_credits_per_page is None
    }
}

impl Default for RequestParams {
    fn default() -> (r: Self)
        ensures
            r.is_unset(),
    {
        RequestParams {
            url: None,
            request: None,
            limit: None,
            return_format: None,
            country_code: None,
            tld: None,
            depth: None,
            cache: None,
            scroll: None,
            budget: None,
            blacklist: None,
            whitelist: None,
            locale: None,
            cookies: None,
            stealth: None,
            headers: None,
            anti_bot: None,
            webhooks: None,
            metadata: None,
            viewport: None,
            encoding: None,
            subdomains: None,
            user_agent: None,
            store_data: None,
            gpt_config: None,
            fingerprint: None,
            storageless: None,
            readability: None,
            proxy_enabled: None,
            respect_robots: None,
            root_selector: None,
            full_resources: None,
            text: None,
            sitemap: None,
            external_domains: None,
            return_embeddings: None,
            return_headers: None,
            return_page_links: None,
            return_cookies: None,
            request_timeout: None,
            run_in_background: None,
            skip_config_checks: None,
            css_extraction_map: None,
            chunking_alg: None,
            disable_intercept: None,
            wait_for: None,
            execution_scripts: None,
            automation_scripts: None,
            redirect_policy: None,
            event_tracker: None,
            crawl_timeout: None,
            evaluate_on_new_document: None,
            lite_mode: None,
            proxy: None,
            remote_proxy: None,
            max_credits_per_page: None,
        }
    }
}

/// The search parameters: the crawl settings plus the query fields. The
/// `search` string is always overwritten with the explicit argument of the
/// search call.
#[derive(Debug, Clone)]
pub struct SearchRequestParams {
    /// The base crawl settings, flattened into the same payload.
    pub base: RequestParams,
    /// The search query.
    pub search: String,
    /// The search limit.
    pub search_limit: Option<u32>,
    /// Fetch the page content of each result.
    pub fetch_page_content: Option<bool>,
    /// The search location of the request.
    pub location: Option<String>,
    /// The country code of the request.
    pub country: Option<String>,
    /// The language code of the request.
    pub language: Option<String>,
    /// The number of search results.
    pub num: Option<u32>,
    /// The page of the search results.
    pub page: Option<u32>,
    /// The websites limit if a list is sent.
    pub website_limit: Option<u32>,
    /// Prioritize speed over output quantity.
    pub quick_search: Option<bool>,
}

impl SearchRequestParams {
    /// No field besides the mandatory query is set.
    pub open spec fn is_unset_besides_search(self) -> bool {
        &&& self.base.is_unset()
        &&& self.search_limit is None
        &&& self.fetch_page_content is None
        &&& self.location is None
        &&& self.country is None
        &&& self.language is None
        &&& self.num is None
        &&& self.page is None
        &&& self.website_limit is None
        &&& self.quick_search is None
    }
}

impl Default for SearchRequestParams {
    fn default() -> (r: Self)
        ensures
            r.is_unset_besides_search(),
            r.search@ == Seq::<char>::empty(),
    {
        SearchRequestParams {
            base: RequestParams::default(),
            search: String::new(),
            search_limit: None,
            fetch_page_content: None,
            location: None,
            country: None,
            language: None,
            num: None,
            page: None,
            website_limit: None,
            quick_search: None,
        }
    }
}

/// The parameters of the transform operation; independent of the crawl
/// settings.
#[derive(Debug, Clone)]
pub struct TransformParams {
    /// The format in which the result should be returned.
    pub return_format: Option<ReturnFormat>,
    /// Apply readability optimizations.
    pub readability: Option<bool>,
    /// Clean the markdown or text for AI.
    pub clean: Option<bool>,
    /// Clean the markdown or text fully, removing navigation and footers.
    pub clean_full: Option<bool>,
    /// The `{html, url}` pairs being transformed.
    pub data: Vec<DataParam>,
}

impl TransformParams {
    /// No option field is set and no data pair is given.
    pub open spec fn is_unset(self) -> bool {
        &&& self.return_format is None
        &&& self.readability is None
        &&& self.clean is None
        &&& self.clean_full is None
        &&& self.data@.len() == 0
    }
}

impl Default for TransformParams {
    fn default() -> (r: Self)
        ensures
            r.is_unset(),
    {
        TransformParams {
            return_format: None,
            readability: None,
            clean: None,
            clean_full: None,
            data: Vec::new(),
        }
    }
}

} // verus!
