//! The response shapes: the content of a page in one of its forms, the
//! annotated response record, and the search result shapes.

use vstd::prelude::*;

use crate::json::utf8_lossy;
use crate::json::utf8_lossy_of;
use crate::text::is_blank;
use crate::text::str_is_blank;

verus! {

/// The content of a page: a raw string, raw bytes, or a structured object
/// carrying any subset of the requested formats. At most one form is
/// populated per value.
#[derive(Debug)]
pub enum Content {
    /// A raw string (plain text or HTML).
    Text(String),
    /// Raw binary bytes.
    Bytes(Vec<u8>),
    /// A structured object with optional formats.
    Object {
        raw: Option<String>,
        bytes: Option<Vec<u8>>,
        text: Option<String>,
        markdown: Option<String>,
        html2text: Option<String>,
        screenshot: Option<Vec<u8>>,
    },
}

/// The best-guess string of a content value: the raw string itself, or
/// the first populated textual format of an object, preferring plain
/// text, then raw, then html2text, then markdown.
pub open spec fn content_str_spec(c: Content) -> Option<Seq<char>> {
    match c {
        Content::Text(s) => Some(s@),
        Content::Object { raw, text, markdown, html2text, .. } => if text is Some {
            Some(text.unwrap()@)
        } else if raw is Some {
            Some(raw.unwrap()@)
        } else if html2text is Some {
            Some(html2text.unwrap()@)
        } else if markdown is Some {
            Some(markdown.unwrap()@)
        } else {
            None
        },
        Content::Bytes(_) => None,
    }
}

/// The bytes of a content value: the raw bytes themselves, or the bytes
/// of an object, preferring the bytes field over the screenshot.
pub open spec fn content_bytes_spec(c: Content) -> Option<Seq<u8>> {
    match c {
        Content::Bytes(b) => Some(b@),
        Content::Object { bytes, screenshot, .. } => if bytes is Some {
            Some(bytes.unwrap()@)
        } else if screenshot is Some {
            Some(screenshot.unwrap()@)
        } else {
            None
        },
        Content::Text(_) => None,
    }
}

/// The text of a content value with a byte fallback: textual forms first,
/// preferring plain text, then raw, then markdown, then html2text; bytes
/// are decoded as UTF-8, invalid sequences replaced.
pub open spec fn content_lossy_spec(c: Content) -> Option<Seq<char>> {
    match c {
        Content::Text(s) => Some(s@),
        Content::Bytes(b) => Some(utf8_lossy_of(b@)),
        Content::Object { raw, bytes, text, markdown, html2text, screenshot } => if text
            is Some {
            Some(text.unwrap()@)
        } else if raw is Some {
            Some(raw.unwrap()@)
        } else if markdown is Some {
            Some(markdown.unwrap()@)
        } else if html2text is Some {
            Some(html2text.unwrap()@)
        } else if bytes is Some {
            Some(utf8_lossy_of(bytes.unwrap()@))
        } else {
            None
        },
    }
}

/// A content value is empty when every populated form is empty or blank:
/// strings count as empty when trimming would leave nothing, bytes when
/// none are present.
pub open spec fn content_empty_spec(c: Content) -> bool {
    match c {
        Content::Text(s) => is_blank(s@),
        Content::Bytes(b) => b@.len() == 0,
        Content::Object { raw, bytes, text, markdown, html2text, screenshot } => {
            &&& (raw matches Some(s) ==> is_blank(s@))
            &&& (text matches Some(s) ==> is_blank(s@))
            &&& (markdown matches Some(s) ==> is_blank(s@))
            &&& (html2text matches Some(s) ==> is_blank(s@))
            &&& (bytes matches Some(b) ==> b@.len() == 0)
            &&& (screenshot matches Some(b) ==> b@.len() == 0)
        },
    }
}

/// The names of the populated forms of a content value.
pub open spec fn content_keys_spec(c: Content) -> Seq<Seq<char>> {
    match c {
        Content::Text(_) => seq!["string"@],
        Content::Bytes(_) => seq!["bytes"@],
        Content::Object { raw, bytes, text, markdown, html2text, screenshot } => (if raw
            is Some {
            seq!["raw"@]
        } else {
            Seq::empty()
        }) + (if bytes is Some {
            seq!["bytes"@]
        } else {
            Seq::empty()
        }) + (if text is Some {
            seq!["text"@]
        } else {
            Seq::empty()
        }) + (if markdown is Some {
            seq!["markdown"@]
        } else {
            Seq::empty()
        }) + (if html2text is Some {
            seq!["html2text"@]
        } else {
            Seq::empty()
        }) + (if screenshot is Some {
            seq!["screenshot"@]
        } else {
            Seq::empty()
        }),
    }
}

impl Content {
    /// Return the best-guess string representation of the content.
    pub fn as_str(&self) -> (r: Option<&str>)
        ensures
            r matches Some(s) ==> content_str_spec(*self) == Some(s@),
            r is None <==> content_str_spec(*self) is None,
    {
        match self {
            Content::Text(s) => Some(s.as_str()),
            Content::Object { raw, text, markdown, html2text, .. } => match text {
                Some(t) => Some(t.as_str()),
                None => match raw {
                    Some(t) => Some(t.as_str()),
                    None => match html2text {
                        Some(t) => Some(t.as_str()),
                        None => match markdown {
                            Some(t) => Some(t.as_str()),
                            None => None,
                        },
                    },
                },
            },
            Content::Bytes(_) => None,
        }
    }

    /// Return the raw bytes if any are available.
    pub fn as_bytes(&self) -> (r: Option<&Vec<u8>>)
        ensures
            r matches Some(b) ==> content_bytes_spec(*self) == Some(b@),
            r is None <==> content_bytes_spec(*self) is None,
    {
        match self {
            Content::Bytes(b) => Some(b),
            Content::Object { bytes, screenshot, .. } => match bytes {
                Some(b) => Some(b),
                None => match screenshot {
                    Some(b) => Some(b),
                    None => None,
                },
            },
            Content::Text(_) => None,
        }
    }

    /// Return text content, falling back to a lossy UTF-8 view of bytes.
    pub fn as_utf8_lossy(&self) -> (r: Option<String>)
        ensures
            r matches Some(s) ==> content_lossy_spec(*self) == Some(s@),
            r is None <==> content_lossy_spec(*self) is None,
    {
        match self {
            Content::Text(s) => Some(s.clone()),
            Content::Bytes(b) => Some(utf8_lossy(b.as_slice())),
            Content::Object { raw, bytes, text, markdown, html2text, .. } => match text {
                Some(t) => Some(t.clone()),
                None => match raw {
                    Some(t) => Some(t.clone()),
                    None => match markdown {
                        Some(t) => Some(t.clone()),
                        None => match html2text {
                            Some(t) => Some(t.clone()),
                            None => match bytes {
                                Some(b) => Some(utf8_lossy(b.as_slice())),
                                None => None,
                            },
                        },
                    },
                },
            },
        }
    }

    /// Return the whole value when the content is the structured object.
    pub fn as_object(&self) -> (r: Option<&Content>)
        ensures
            r is Some <==> self is Object,
            r matches Some(o) ==> o == self,
    {
        match self {
            Content::Object { .. } => Some(self),
            _ => None,
        }
    }

    /// Whether the content carries a screenshot.
    pub fn has_screenshot(&self) -> (r: bool)
        ensures
            r == (self matches Content::Object { screenshot: Some(_), .. }),
    {
        match self {
            Content::Object { screenshot: Some(_), .. } => true,
            _ => false,
        }
    }

    /// Whether the content is empty: every populated form blank or
    /// without bytes.
    pub fn is_empty(&self) -> (r: bool)
        ensures
            r == content_empty_spec(*self),
    {
        match self {
            Content::Text(s) => str_is_blank(s.as_str()),
            Content::Bytes(b) => b.len() == 0,
            Content::Object { raw, bytes, text, markdown, html2text, screenshot } => {
                let raw_ok = match raw {
                    Some(s) => str_is_blank(s.as_str()),
                    None => true,
                };
                let text_ok = match text {
                    Some(s) => str_is_blank(s.as_str()),
                    None => true,
                };
                let markdown_ok = match markdown {
                    Some(s) => str_is_blank(s.as_str()),
                    None => true,
                };
                let html2text_ok = match html2text {
                    Some(s) => str_is_blank(s.as_str()),
                    None => true,
                };
                let bytes_ok = match bytes {
                    Some(b) => b.len() == 0,
                    None => true,
                };
                let screenshot_ok = match screenshot {
                    Some(b) => b.len() == 0,
                    None => true,
                };
                raw_ok && text_ok && markdown_ok && html2text_ok && bytes_ok && screenshot_ok
            },
        }
    }

    /// Try to extract a plain string: the best-guess string, else the
    /// lossy byte fallback.
    pub fn extract_plaintext(&self) -> (r: Option<String>)
        ensures
            content_str_spec(*self) matches Some(s) ==> (r matches Some(v) && v@ == s),
            content_str_spec(*self) is None ==> (match content_lossy_spec(*self) {
                Some(s) => r matches Some(v) && v@ == s,
                None => r is None,
            }),
    {
        match self.as_str() {
            Some(s) => Some(s.to_owned()),
            None => self.as_utf8_lossy(),
        }
    }

    /// The names of the populated forms.
    pub fn available_keys(&self) -> (r: Vec<&'static str>)
        ensures
            Seq::new(r@.len(), |i: int| r@[i]@) == content_keys_spec(*self),
    {
        let mut keys: Vec<&'static str> = Vec::new();
        match self {
            Content::Text(_) => {
                keys.push("string");
            },
            Content::Bytes(_) => {
                keys.push("bytes");
            },
            Content::Object { raw, bytes, text, markdown, html2text, screenshot } => {
                if raw.is_some() {
                    keys.push("raw");
                }
                if bytes.is_some() {
                    keys.push("bytes");
                }
                if text.is_some() {
                    keys.push("text");
                }
                if markdown.is_some() {
                    keys.push("markdown");
                }
                if html2text.is_some() {
                    keys.push("html2text");
                }
                if screenshot.is_some() {
                    keys.push("screenshot");
                }
            },
        }
        proof {
            assert(Seq::new(keys@.len(), |i: int| keys@[i]@) =~= content_keys_spec(*self));
        }
        keys
    }
}

/// The per-request cost breakdown, in the service's smallest accounting
/// unit. The total is the server's own sum over the components; the
/// client reports it as received and does not enforce the reconciliation.
#[derive(Debug, Clone, Copy, PartialEq, Eq, Structural)]
pub struct Costs {
    /// The cost of the AI work.
    pub ai_cost: u64,
    /// The cost of the bytes transferred.
    pub bytes_transferred_cost: u64,
    /// The cost of the compute.
    pub compute_cost: u64,
    /// The cost of the file handling.
    pub file_cost: u64,
    /// The total cost of the request.
    pub total_cost: u64,
    /// The cost of the transform.
    pub transform_cost: u64,
}

/// The metadata the server attaches to a page.
#[derive(Debug)]
pub struct Metadata {
    /// SEO title of the page.
    pub title: String,
    /// Meta description of the page.
    pub description: String,
    /// Final resolved URL if available.
    pub url: Option<String>,
    /// Social preview image.
    pub image: Option<String>,
    /// Keywords extracted from content.
    pub keywords: Option<Vec<String>>,
    /// Raw video transcript string.
    pub yt_transcript: Option<String>,
    /// Domain of the source page.
    pub domain: Option<String>,
    /// Path of the source page.
    pub pathname: Option<String>,
    /// The URL originally requested.
    pub original_url: Option<String>,
    /// The owning user.
    pub user_id: Option<String>,
    /// File-type classification if detected.
    pub resource_type: Option<String>,
    /// File size in bytes if known.
    pub file_size: Option<u64>,
    /// Structured extraction result, shape chosen by the server.
    pub extracted_data: Option<serde_json::Value>,
    /// Automation result, shape chosen by the server.
    pub automation_data: Option<serde_json::Value>,
}

/// One annotated response record.
#[derive(Debug)]
pub struct ApiResponse {
    /// Textual or binary content of the page.
    pub content: Vec<u8>,
    /// Status code returned from the source.
    pub status: u16,
    /// Final URL requested.
    pub url: String,
    /// All links found on the page.
    pub links: Option<Vec<String>>,
    /// Request timing values, in microseconds, keyed by phase.
    pub request_map: Option<Vec<(String, u64)>>,
    /// Metadata associated with the page.
    pub metadata: Option<Metadata>,
    /// Request cost breakdown.
    pub costs: Option<Costs>,
    /// Error message, if the server reported one.
    pub error: Option<String>,
}

/// The list shape of a search response.
#[derive(Debug)]
pub struct SearchList {
    /// The main content list.
    pub content: Vec<SearchEntry>,
}

/// One search result.
#[derive(Debug)]
pub struct SearchEntry {
    /// The search description.
    pub description: Option<String>,
    /// The search title.
    pub title: Option<String>,
    /// The search url.
    pub url: String,
}

} // verus!
