//! The request encoder: flattens a typed parameter bag into an ordered
//! key/value payload. A field left `None` contributes nothing; a set field
//! contributes exactly one key. The payload is a sequence of distinct keys,
//! sent as one JSON object.

use vstd::prelude::*;

use crate::json::{JsonData, JsonValue};
use crate::request::CSSSelector;
use crate::request::ChunkingAlgDict;
use crate::request::ChunkingType;
use crate::request::DataParam;
use crate::request::Delay;
use crate::request::EventTracker;
use crate::request::IdleNetwork;
use crate::request::ProxyType;
use crate::request::RedirectPolicy;
use crate::request::RequestType;
use crate::request::RequestParams;
use crate::request::SearchRequestParams;
use crate::request::TransformParams;
use crate::request::ReturnFormat;
use crate::request::ReturnFormatHandling;
use crate::request::Selector;
use crate::request::Timeout;
use crate::request::Viewport;
use crate::request::WaitFor;
use crate::request::WebAutomation;
use crate::request::WebhookSettings;
use crate::request::chunking_type_name;
use crate::request::proxy_name;
use crate::request::redirect_policy_name;
use crate::request::request_type_name;
use crate::request::return_format_name;

verus! {

/// The model of a payload: each entry a key (as characters) with the model
/// of its value.
pub open spec fn fields_model(v: Vec<(String, JsonValue)>) -> Seq<(Seq<char>, JsonData)> {
    Seq::new(v@.len(), |i: int| (v@[i].0@, v@[i].1.model()))
}

/// The model of an object value built from a payload vector.
pub proof fn lemma_obj_model(f: Vec<(String, JsonValue)>)
    ensures
        JsonValue::Obj(f).model() == JsonData::Obj(fields_model(f)),
{
    let m = JsonValue::Obj(f).model();
    assert(m matches JsonData::Obj(inner) && inner =~= fields_model(f));
}

/// The models of the elements of a value vector.
pub open spec fn items_model(v: Vec<JsonValue>) -> Seq<JsonData> {
    Seq::new(v@.len(), |i: int| v@[i].model())
}

/// The model of an array value built from a value vector.
pub proof fn lemma_arr_model(v: Vec<JsonValue>)
    ensures
        JsonValue::Arr(v).model() == JsonData::Arr(items_model(v)),
{
    let m = JsonValue::Arr(v).model();
    assert(m matches JsonData::Arr(inner) && inner =~= items_model(v));
}

/// Append one key/value pair to a payload.
pub fn push_pair(fields: &mut Vec<(String, JsonValue)>, key: &str, value: JsonValue)
    ensures
        fields_model(*final(fields)) == fields_model(*old(fields)) + seq![
            (key@, value.model()),
        ],
{
    let k = key.to_owned();
    fields.push((k, value));
    proof {
        assert(fields_model(*fields) =~= fields_model(*old(fields)) + seq![
            (key@, value.model()),
        ]);
    }
}

/// The payload entry of an optional boolean field.
pub open spec fn opt_bool_field(k: Seq<char>, v: Option<bool>) -> Seq<(Seq<char>, JsonData)> {
    match v {
        Some(b) => seq![(k, JsonData::Bool(b))],
        None => seq![],
    }
}

/// Append an optional boolean field.
pub fn push_opt_bool(fields: &mut Vec<(String, JsonValue)>, key: &str, v: &Option<bool>)
    ensures
        fields_model(*final(fields)) == fields_model(*old(fields)) + opt_bool_field(key@, *v),
{
    match v {
        Some(b) => push_pair(fields, key, JsonValue::Bool(*b)),
        None => {
            proof {
                assert(fields_model(*fields) =~= fields_model(*fields) + opt_bool_field(
                    key@,
                    *v,
                ));
            }
        },
    }
}

/// The payload entry of an optional unsigned field.
pub open spec fn opt_uint_field(k: Seq<char>, v: Option<u64>) -> Seq<(Seq<char>, JsonData)> {
    match v {
        Some(n) => seq![(k, JsonData::UInt(n))],
        None => seq![],
    }
}

/// Append an optional `u64` field.
pub fn push_opt_u64(fields: &mut Vec<(String, JsonValue)>, key: &str, v: &Option<u64>)
    ensures
        fields_model(*final(fields)) == fields_model(*old(fields)) + opt_uint_field(key@, *v),
{
    match v {
        Some(n) => push_pair(fields, key, JsonValue::UInt(*n)),
        None => {
            proof {
                assert(fields_model(*fields) =~= fields_model(*fields) + opt_uint_field(
                    key@,
                    *v,
                ));
            }
        },
    }
}

/// The payload entry of an optional `u32` field, widened on the wire.
pub open spec fn opt_u32_field(k: Seq<char>, v: Option<u32>) -> Seq<(Seq<char>, JsonData)> {
    match v {
        Some(n) => seq![(k, JsonData::UInt(n as u64))],
        None => seq![],
    }
}

/// Append an optional `u32` field.
pub fn push_opt_u32(fields: &mut Vec<(String, JsonValue)>, key: &str, v: &Option<u32>)
    ensures
        fields_model(*final(fields)) == fields_model(*old(fields)) + opt_u32_field(key@, *v),
{
    match v {
        Some(n) => push_pair(fields, key, JsonValue::UInt(*n as u64)),
        None => {
            proof {
                assert(fields_model(*fields) =~= fields_model(*fields) + opt_u32_field(
                    key@,
                    *v,
                ));
            }
        },
    }
}

/// The payload entry of an optional `u8` field, widened on the wire.
pub open spec fn opt_u8_field(k: Seq<char>, v: Option<u8>) -> Seq<(Seq<char>, JsonData)> {
    match v {
        Some(n) => seq![(k, JsonData::UInt(n as u64))],
        None => seq![],
    }
}

/// Append an optional `u8` field.
pub fn push_opt_u8(fields: &mut Vec<(String, JsonValue)>, key: &str, v: &Option<u8>)
    ensures
        fields_model(*final(fields)) == fields_model(*old(fields)) + opt_u8_field(key@, *v),
{
    match v {
        Some(n) => push_pair(fields, key, JsonValue::UInt(*n as u64)),
        None => {
            proof {
                assert(fields_model(*fields) =~= fields_model(*fields) + opt_u8_field(
                    key@,
                    *v,
                ));
            }
        },
    }
}

/// The payload entry of an optional string field.
pub open spec fn opt_str_field(k: Seq<char>, v: Option<String>) -> Seq<(Seq<char>, JsonData)> {
    match v {
        Some(s) => seq![(k, JsonData::Str(s@))],
        None => seq![],
    }
}

/// Append an optional string field.
pub fn push_opt_str(fields: &mut Vec<(String, JsonValue)>, key: &str, v: &Option<String>)
    ensures
        fields_model(*final(fields)) == fields_model(*old(fields)) + opt_str_field(key@, *v),
{
    match v {
        Some(s) => push_pair(fields, key, JsonValue::Str(s.clone())),
        None => {
            proof {
                assert(fields_model(*fields) =~= fields_model(*fields) + opt_str_field(
                    key@,
                    *v,
                ));
            }
        },
    }
}

/// The model of a list of strings as a JSON array.
pub open spec fn str_list_data(v: Seq<String>) -> JsonData {
    JsonData::Arr(Seq::new(v.len(), |i: int| JsonData::Str(v[i]@)))
}

/// Encode a list of strings as a JSON array.
pub fn string_list_to_json(v: &Vec<String>) -> (r: JsonValue)
    ensures
        r.model() == str_list_data(v@),
{
    let n = v.len();
    let mut items: Vec<JsonValue> = Vec::new();
    let mut i: usize = 0;
    while i < n
        invariant
            n == v@.len(),
            0 <= i <= n,
            items@.len() == i,
            forall|j: int| 0 <= j < i ==> items@[j].model() == JsonData::Str(v@[j]@),
        decreases n - i,
    {
        items.push(JsonValue::Str(v[i].clone()));
        i += 1;
    }
    proof {
        lemma_arr_model(items);
        assert(items_model(items) =~= Seq::new(v@.len(), |i: int| JsonData::Str(v@[i]@)));
    }
    JsonValue::Arr(items)
}

/// The payload entry of an optional string-list field.
pub open spec fn opt_str_list_field(k: Seq<char>, v: Option<Vec<String>>) -> Seq<
    (Seq<char>, JsonData),
> {
    match v {
        Some(xs) => seq![(k, str_list_data(xs@))],
        None => seq![],
    }
}

/// Append an optional string-list field.
pub fn push_opt_str_list(fields: &mut Vec<(String, JsonValue)>, key: &str, v: &Option<Vec<String>>)
    ensures
        fields_model(*final(fields)) == fields_model(*old(fields)) + opt_str_list_field(key@, *v),
{
    match v {
        Some(xs) => {
            let j = string_list_to_json(xs);
            push_pair(fields, key, j);
        },
        None => {
            proof {
                assert(fields_model(*fields) =~= fields_model(*fields) + opt_str_list_field(
                    key@,
                    *v,
                ));
            }
        },
    }
}

/// The model of a string-to-string map as a JSON object.
pub open spec fn str_map_data(v: Seq<(String, String)>) -> JsonData {
    JsonData::Obj(Seq::new(v.len(), |i: int| (v[i].0@, JsonData::Str(v[i].1@))))
}

/// Encode a string-to-string map as a JSON object.
pub fn string_map_to_json(v: &Vec<(String, String)>) -> (r: JsonValue)
    ensures
        r.model() == str_map_data(v@),
{
    let n = v.len();
    let mut fields: Vec<(String, JsonValue)> = Vec::new();
    let mut i: usize = 0;
    while i < n
        invariant
            n == v@.len(),
            0 <= i <= n,
            fields@.len() == i,
            forall|j: int| 0 <= j < i ==> fields@[j].0@ == v@[j].0@ && fields@[j].1.model()
                == JsonData::Str(v@[j].1@),
        decreases n - i,
    {
        fields.push((v[i].0.clone(), JsonValue::Str(v[i].1.clone())));
        i += 1;
    }
    proof {
        lemma_obj_model(fields);
        assert(fields_model(fields) =~= Seq::new(
            v@.len(),
            |i: int| (v@[i].0@, JsonData::Str(v@[i].1@)),
        ));
    }
    JsonValue::Obj(fields)
}

/// The payload entry of an optional string-map field.
pub open spec fn opt_str_map_field(k: Seq<char>, v: Option<Vec<(String, String)>>) -> Seq<
    (Seq<char>, JsonData),
> {
    match v {
        Some(m) => seq![(k, str_map_data(m@))],
        None => seq![],
    }
}

/// Append an optional string-map field.
pub fn push_opt_str_map(
    fields: &mut Vec<(String, JsonValue)>,
    key: &str,
    v: &Option<Vec<(String, String)>>,
)
    ensures
        fields_model(*final(fields)) == fields_model(*old(fields)) + opt_str_map_field(key@, *v),
{
    match v {
        Some(m) => {
            let j = string_map_to_json(m);
            push_pair(fields, key, j);
        },
        None => {
            proof {
                assert(fields_model(*fields) =~= fields_model(*fields) + opt_str_map_field(
                    key@,
                    *v,
                ));
            }
        },
    }
}

/// The model of a string-to-number map as a JSON object.
pub open spec fn u32_map_data(v: Seq<(String, u32)>) -> JsonData {
    JsonData::Obj(Seq::new(v.len(), |i: int| (v[i].0@, JsonData::UInt(v[i].1 as u64))))
}

/// Encode a string-to-number map as a JSON object.
pub fn u32_map_to_json(v: &Vec<(String, u32)>) -> (r: JsonValue)
    ensures
        r.model() == u32_map_data(v@),
{
    let n = v.len();
    let mut fields: Vec<(String, JsonValue)> = Vec::new();
    let mut i: usize = 0;
    while i < n
        invariant
            n == v@.len(),
            0 <= i <= n,
            fields@.len() == i,
            forall|j: int| 0 <= j < i ==> fields@[j].0@ == v@[j].0@ && fields@[j].1.model()
                == JsonData::UInt(v@[j].1 as u64),
        decreases n - i,
    {
        fields.push((v[i].0.clone(), JsonValue::UInt(v[i].1 as u64)));
        i += 1;
    }
    proof {
        lemma_obj_model(fields);
        assert(fields_model(fields) =~= Seq::new(
            v@.len(),
            |i: int| (v@[i].0@, JsonData::UInt(v@[i].1 as u64)),
        ));
    }
    JsonValue::Obj(fields)
}

/// The payload entry of an optional number-map field.
pub open spec fn opt_u32_map_field(k: Seq<char>, v: Option<Vec<(String, u32)>>) -> Seq<
    (Seq<char>, JsonData),
> {
    match v {
        Some(m) => seq![(k, u32_map_data(m@))],
        None => seq![],
    }
}

/// Append an optional number-map field.
pub fn push_opt_u32_map(
    fields: &mut Vec<(String, JsonValue)>,
    key: &str,
    v: &Option<Vec<(String, u32)>>,
)
    ensures
        fields_model(*final(fields)) == fields_model(*old(fields)) + opt_u32_map_field(key@, *v),
{
    match v {
        Some(m) => {
            let j = u32_map_to_json(m);
            push_pair(fields, key, j);
        },
        None => {
            proof {
                assert(fields_model(*fields) =~= fields_model(*fields) + opt_u32_map_field(
                    key@,
                    *v,
                ));
            }
        },
    }
}

/// The wire object of a nested timeout.
pub open spec fn timeout_data(t: Timeout) -> JsonData {
    JsonData::Obj(
        seq![
            ("secs"@, JsonData::UInt(t.secs)),
            ("nanos"@, JsonData::UInt(t.nanos as u64)),
        ],
    )
}

/// Encode a nested timeout.
pub fn timeout_to_json(t: &Timeout) -> (r: JsonValue)
    ensures
        r.model() == timeout_data(*t),
{
    let mut f: Vec<(String, JsonValue)> = Vec::new();
    push_pair(&mut f, "secs", JsonValue::UInt(t.secs));
    push_pair(&mut f, "nanos", JsonValue::UInt(t.nanos as u64));
    proof {
        lemma_obj_model(f);
        assert(fields_model(f) =~= seq![
            ("secs"@, JsonData::UInt(t.secs)),
            ("nanos"@, JsonData::UInt(t.nanos as u64)),
        ]);
    }
    JsonValue::Obj(f)
}

/// The wire object of an idle-network wait.
pub open spec fn idle_network_data(v: IdleNetwork) -> JsonData {
    JsonData::Obj(seq![("timeout"@, timeout_data(v.timeout))])
}

/// Encode an idle-network wait.
pub fn idle_network_to_json(v: &IdleNetwork) -> (r: JsonValue)
    ensures
        r.model() == idle_network_data(*v),
{
    let mut f: Vec<(String, JsonValue)> = Vec::new();
    let t = timeout_to_json(&v.timeout);
    push_pair(&mut f, "timeout", t);
    proof {
        lemma_obj_model(f);
        assert(fields_model(f) =~= seq![("timeout"@, timeout_data(v.timeout))]);
    }
    JsonValue::Obj(f)
}

/// The wire object of a selector wait.
pub open spec fn selector_data(v: Selector) -> JsonData {
    JsonData::Obj(
        seq![
            ("timeout"@, timeout_data(v.timeout)),
            ("selector"@, JsonData::Str(v.selector@)),
        ],
    )
}

/// Encode a selector wait.
pub fn selector_to_json(v: &Selector) -> (r: JsonValue)
    ensures
        r.model() == selector_data(*v),
{
    let mut f: Vec<(String, JsonValue)> = Vec::new();
    let t = timeout_to_json(&v.timeout);
    push_pair(&mut f, "timeout", t);
    push_pair(&mut f, "selector", JsonValue::Str(v.selector.clone()));
    proof {
        lemma_obj_model(f);
        assert(fields_model(f) =~= seq![
            ("timeout"@, timeout_data(v.timeout)),
            ("selector"@, JsonData::Str(v.selector@)),
        ]);
    }
    JsonValue::Obj(f)
}

/// The wire object of a hard delay.
pub open spec fn delay_data(v: Delay) -> JsonData {
    JsonData::Obj(seq![("timeout"@, timeout_data(v.timeout))])
}

/// Encode a hard delay.
pub fn delay_to_json(v: &Delay) -> (r: JsonValue)
    ensures
        r.model() == delay_data(*v),
{
    let mut f: Vec<(String, JsonValue)> = Vec::new();
    let t = timeout_to_json(&v.timeout);
    push_pair(&mut f, "timeout", t);
    proof {
        lemma_obj_model(f);
        assert(fields_model(f) =~= seq![("timeout"@, timeout_data(v.timeout))]);
    }
    JsonValue::Obj(f)
}

/// The payload entry of an optional selector field.
pub open spec fn opt_selector_field(k: Seq<char>, v: Option<Selector>) -> Seq<
    (Seq<char>, JsonData),
> {
    match v {
        Some(s) => seq![(k, selector_data(s))],
        None => seq![],
    }
}

/// Append an optional selector field.
pub fn push_opt_selector(fields: &mut Vec<(String, JsonValue)>, key: &str, v: &Option<Selector>)
    ensures
        fields_model(*final(fields)) == fields_model(*old(fields)) + opt_selector_field(key@, *v),
{
    match v {
        Some(s) => {
            let j = selector_to_json(s);
            push_pair(fields, key, j);
        },
        None => {
            proof {
                assert(fields_model(*fields) =~= fields_model(*fields) + opt_selector_field(
                    key@,
                    *v,
                ));
            }
        },
    }
}

/// The fields of the wait-for conditions, unset conditions omitted.
pub open spec fn wait_for_fields(w: WaitFor) -> Seq<(Seq<char>, JsonData)> {
    (match w.idle_network {
        Some(v) => seq![("idle_network"@, idle_network_data(v))],
        None => seq![],
    }) + opt_selector_field("selector"@, w.selector) + opt_selector_field("dom"@, w.dom) + (
    match w.delay {
        Some(v) => seq![("delay"@, delay_data(v))],
        None => seq![],
    }) + opt_bool_field("page_navigations"@, w.page_navigations)
}

/// The wire object of the wait-for conditions.
pub open spec fn wait_for_data(w: WaitFor) -> JsonData {
    JsonData::Obj(wait_for_fields(w))
}

/// Encode the wait-for conditions.
pub fn wait_for_to_json(w: &WaitFor) -> (r: JsonValue)
    ensures
        r.model() == wait_for_data(*w),
{
    let mut f: Vec<(String, JsonValue)> = Vec::new();
    match &w.idle_network {
        Some(v) => {
            let j = idle_network_to_json(v);
            push_pair(&mut f, "idle_network", j);
        },
        None => {},
    }
    push_opt_selector(&mut f, "selector", &w.selector);
    push_opt_selector(&mut f, "dom", &w.dom);
    match &w.delay {
        Some(v) => {
            let j = delay_to_json(v);
            push_pair(&mut f, "delay", j);
        },
        None => {},
    }
    push_opt_bool(&mut f, "page_navigations", &w.page_navigations);
    proof {
        lemma_obj_model(f);
        assert(fields_model(f) =~= wait_for_fields(*w));
    }
    JsonValue::Obj(f)
}

/// The payload entry of the optional wait-for field.
pub open spec fn opt_wait_for_field(k: Seq<char>, v: Option<WaitFor>) -> Seq<
    (Seq<char>, JsonData),
> {
    match v {
        Some(w) => seq![(k, wait_for_data(w))],
        None => seq![],
    }
}

/// Append the optional wait-for field.
pub fn push_opt_wait_for(fields: &mut Vec<(String, JsonValue)>, key: &str, v: &Option<WaitFor>)
    ensures
        fields_model(*final(fields)) == fields_model(*old(fields)) + opt_wait_for_field(key@, *v),
{
    match v {
        Some(w) => {
            let j = wait_for_to_json(w);
            push_pair(fields, key, j);
        },
        None => {
            proof {
                assert(fields_model(*fields) =~= fields_model(*fields) + opt_wait_for_field(
                    key@,
                    *v,
                ));
            }
        },
    }
}

/// The payload entry of the optional crawl-timeout field.
pub open spec fn opt_timeout_field(k: Seq<char>, v: Option<Timeout>) -> Seq<
    (Seq<char>, JsonData),
> {
    match v {
        Some(t) => seq![(k, timeout_data(t))],
        None => seq![],
    }
}

/// Append the optional crawl-timeout field.
pub fn push_opt_timeout(fields: &mut Vec<(String, JsonValue)>, key: &str, v: &Option<Timeout>)
    ensures
        fields_model(*final(fields)) == fields_model(*old(fields)) + opt_timeout_field(key@, *v),
{
    match v {
        Some(t) => {
            let j = timeout_to_json(t);
            push_pair(fields, key, j);
        },
        None => {
            proof {
                assert(fields_model(*fields) =~= fields_model(*fields) + opt_timeout_field(
                    key@,
                    *v,
                ));
            }
        },
    }
}

/// The wire object of the viewport, the unset scale factor omitted.
pub open spec fn viewport_data(v: Viewport) -> JsonData {
    JsonData::Obj(
        seq![
            ("width"@, JsonData::UInt(v.width as u64)),
            ("height"@, JsonData::UInt(v.height as u64)),
        ] + opt_uint_field("device_scale_factor"@, v.device_scale_factor) + seq![
            ("emulating_mobile"@, JsonData::Bool(v.emulating_mobile)),
            ("is_landscape"@, JsonData::Bool(v.is_landscape)),
            ("has_touch"@, JsonData::Bool(v.has_touch)),
        ],
    )
}

/// Encode the viewport.
pub fn viewport_to_json(v: &Viewport) -> (r: JsonValue)
    ensures
        r.model() == viewport_data(*v),
{
    let mut f: Vec<(String, JsonValue)> = Vec::new();
    push_pair(&mut f, "width", JsonValue::UInt(v.width as u64));
    push_pair(&mut f, "height", JsonValue::UInt(v.height as u64));
    push_opt_u64(&mut f, "device_scale_factor", &v.device_scale_factor);
    push_pair(&mut f, "emulating_mobile", JsonValue::Bool(v.emulating_mobile));
    push_pair(&mut f, "is_landscape", JsonValue::Bool(v.is_landscape));
    push_pair(&mut f, "has_touch", JsonValue::Bool(v.has_touch));
    proof {
        lemma_obj_model(f);
        assert(fields_model(f) =~= seq![
            ("width"@, JsonData::UInt(v.width as u64)),
            ("height"@, JsonData::UInt(v.height as u64)),
        ] + opt_uint_field("device_scale_factor"@, v.device_scale_factor) + seq![
            ("emulating_mobile"@, JsonData::Bool(v.emulating_mobile)),
            ("is_landscape"@, JsonData::Bool(v.is_landscape)),
            ("has_touch"@, JsonData::Bool(v.has_touch)),
        ]);
    }
    JsonValue::Obj(f)
}

/// The payload entry of the optional viewport field.
pub open spec fn opt_viewport_field(k: Seq<char>, v: Option<Viewport>) -> Seq<
    (Seq<char>, JsonData),
> {
    match v {
        Some(w) => seq![(k, viewport_data(w))],
        None => seq![],
    }
}

/// Append the optional viewport field.
pub fn push_opt_viewport(fields: &mut Vec<(String, JsonValue)>, key: &str, v: &Option<Viewport>)
    ensures
        fields_model(*final(fields)) == fields_model(*old(fields)) + opt_viewport_field(key@, *v),
{
    match v {
        Some(w) => {
            let j = viewport_to_json(w);
            push_pair(fields, key, j);
        },
        None => {
            proof {
                assert(fields_model(*fields) =~= fields_model(*fields) + opt_viewport_field(
                    key@,
                    *v,
                ));
            }
        },
    }
}

/// The wire object of the webhook settings.
pub open spec fn webhooks_data(v: WebhookSettings) -> JsonData {
    JsonData::Obj(
        seq![
            ("destination"@, JsonData::Str(v.destination@)),
            ("on_credits_depleted"@, JsonData::Bool(v.on_credits_depleted)),
            ("on_credits_half_depleted"@, JsonData::Bool(v.on_credits_half_depleted)),
            ("on_website_status"@, JsonData::Bool(v.on_website_status)),
            ("on_find"@, JsonData::Bool(v.on_find)),
            ("on_find_metadata"@, JsonData::Bool(v.on_find_metadata)),
        ],
    )
}

/// Encode the webhook settings.
pub fn webhooks_to_json(v: &WebhookSettings) -> (r: JsonValue)
    ensures
        r.model() == webhooks_data(*v),
{
    let mut f: Vec<(String, JsonValue)> = Vec::new();
    push_pair(&mut f, "destination", JsonValue::Str(v.destination.clone()));
    push_pair(&mut f, "on_credits_depleted", JsonValue::Bool(v.on_credits_depleted));
    push_pair(&mut f, "on_credits_half_depleted", JsonValue::Bool(v.on_credits_half_depleted));
    push_pair(&mut f, "on_website_status", JsonValue::Bool(v.on_website_status));
    push_pair(&mut f, "on_find", JsonValue::Bool(v.on_find));
    push_pair(&mut f, "on_find_metadata", JsonValue::Bool(v.on_find_metadata));
    proof {
        lemma_obj_model(f);
        assert(fields_model(f) =~= seq![
            ("destination"@, JsonData::Str(v.destination@)),
            ("on_credits_depleted"@, JsonData::Bool(v.on_credits_depleted)),
            ("on_credits_half_depleted"@, JsonData::Bool(v.on_credits_half_depleted)),
            ("on_website_status"@, JsonData::Bool(v.on_website_status)),
            ("on_find"@, JsonData::Bool(v.on_find)),
            ("on_find_metadata"@, JsonData::Bool(v.on_find_metadata)),
        ]);
    }
    JsonValue::Obj(f)
}

/// The payload entry of the optional webhooks field.
pub open spec fn opt_webhooks_field(k: Seq<char>, v: Option<WebhookSettings>) -> Seq<
    (Seq<char>, JsonData),
> {
    match v {
        Some(w) => seq![(k, webhooks_data(w))],
        None => seq![],
    }
}

/// Append the optional webhooks field.
pub fn push_opt_webhooks(
    fields: &mut Vec<(String, JsonValue)>,
    key: &str,
    v: &Option<WebhookSettings>,
)
    ensures
        fields_model(*final(fields)) == fields_model(*old(fields)) + opt_webhooks_field(key@, *v),
{
    match v {
        Some(w) => {
            let j = webhooks_to_json(w);
            push_pair(fields, key, j);
        },
        None => {
            proof {
                assert(fields_model(*fields) =~= fields_model(*fields) + opt_webhooks_field(
                    key@,
                    *v,
                ));
            }
        },
    }
}

/// The wire object of the chunking algorithm: its name under the key
/// `type`, and the amount to chunk by.
pub open spec fn chunking_data(v: ChunkingAlgDict) -> JsonData {
    JsonData::Obj(
        seq![
            ("type"@, JsonData::Str(chunking_type_name(v.kind))),
            ("value"@, JsonData::Int(v.value as i64)),
        ],
    )
}

/// Encode the chunking algorithm.
pub fn chunking_to_json(v: &ChunkingAlgDict) -> (r: JsonValue)
    ensures
        r.model() == chunking_data(*v),
{
    let mut f: Vec<(String, JsonValue)> = Vec::new();
    let name = v.kind.wire_str();
    push_pair(&mut f, "type", JsonValue::Str(name.to_owned()));
    push_pair(&mut f, "value", JsonValue::Int(v.value as i64));
    proof {
        lemma_obj_model(f);
        assert(fields_model(f) =~= seq![
            ("type"@, JsonData::Str(chunking_type_name(v.kind))),
            ("value"@, JsonData::Int(v.value as i64)),
        ]);
    }
    JsonValue::Obj(f)
}

/// The payload entry of the optional chunking field.
pub open spec fn opt_chunking_field(k: Seq<char>, v: Option<ChunkingAlgDict>) -> Seq<
    (Seq<char>, JsonData),
> {
    match v {
        Some(c) => seq![(k, chunking_data(c))],
        None => seq![],
    }
}

/// Append the optional chunking field.
pub fn push_opt_chunking(
    fields: &mut Vec<(String, JsonValue)>,
    key: &str,
    v: &Option<ChunkingAlgDict>,
)
    ensures
        fields_model(*final(fields)) == fields_model(*old(fields)) + opt_chunking_field(key@, *v),
{
    match v {
        Some(c) => {
            let j = chunking_to_json(c);
            push_pair(fields, key, j);
        },
        None => {
            proof {
                assert(fields_model(*fields) =~= fields_model(*fields) + opt_chunking_field(
                    key@,
                    *v,
                ));
            }
        },
    }
}

/// The wire object of the event tracker, unset flags omitted.
pub open spec fn event_tracker_data(v: EventTracker) -> JsonData {
    JsonData::Obj(
        opt_bool_field("responses"@, v.responses) + opt_bool_field("requests"@, v.requests),
    )
}

/// Encode the event tracker.
pub fn event_tracker_to_json(v: &EventTracker) -> (r: JsonValue)
    ensures
        r.model() == event_tracker_data(*v),
{
    let mut f: Vec<(String, JsonValue)> = Vec::new();
    push_opt_bool(&mut f, "responses", &v.responses);
    push_opt_bool(&mut f, "requests", &v.requests);
    proof {
        lemma_obj_model(f);
        assert(fields_model(f) =~= opt_bool_field("responses"@, v.responses) + opt_bool_field(
            "requests"@,
            v.requests,
        ));
    }
    JsonValue::Obj(f)
}

/// The payload entry of the optional event-tracker field.
pub open spec fn opt_event_tracker_field(k: Seq<char>, v: Option<EventTracker>) -> Seq<
    (Seq<char>, JsonData),
> {
    match v {
        Some(t) => seq![(k, event_tracker_data(t))],
        None => seq![],
    }
}

/// Append the optional event-tracker field.
pub fn push_opt_event_tracker(
    fields: &mut Vec<(String, JsonValue)>,
    key: &str,
    v: &Option<EventTracker>,
)
    ensures
        fields_model(*final(fields)) == fields_model(*old(fields)) + opt_event_tracker_field(
            key@,
            *v,
        ),
{
    match v {
        Some(t) => {
            let j = event_tracker_to_json(t);
            push_pair(fields, key, j);
        },
        None => {
            proof {
                assert(fields_model(*fields) =~= fields_model(*fields) + opt_event_tracker_field(
                    key@,
                    *v,
                ));
            }
        },
    }
}

/// The wire object of the redirect policy: its name under the key `type`.
pub open spec fn redirect_policy_data(v: RedirectPolicy) -> JsonData {
    JsonData::Obj(seq![("type"@, JsonData::Str(redirect_policy_name(v)))])
}

/// The payload entry of the optional redirect-policy field.
pub open spec fn opt_redirect_field(k: Seq<char>, v: Option<RedirectPolicy>) -> Seq<
    (Seq<char>, JsonData),
> {
    match v {
        Some(p) => seq![(k, redirect_policy_data(p))],
        None => seq![],
    }
}

/// Append the optional redirect-policy field.
pub fn push_opt_redirect(
    fields: &mut Vec<(String, JsonValue)>,
    key: &str,
    v: &Option<RedirectPolicy>,
)
    ensures
        fields_model(*final(fields)) == fields_model(*old(fields)) + opt_redirect_field(key@, *v),
{
    match v {
        Some(p) => {
            let mut f: Vec<(String, JsonValue)> = Vec::new();
            let name = p.wire_str();
            push_pair(&mut f, "type", JsonValue::Str(name.to_owned()));
            proof {
                lemma_obj_model(f);
                assert(fields_model(f) =~= seq![
                    ("type"@, JsonData::Str(redirect_policy_name(*p))),
                ]);
            }
            push_pair(fields, key, JsonValue::Obj(f));
        },
        None => {
            proof {
                assert(fields_model(*fields) =~= fields_model(*fields) + opt_redirect_field(
                    key@,
                    *v,
                ));
            }
        },
    }
}

/// The payload entry of the optional request-type field: its wire name.
pub open spec fn opt_request_type_field(k: Seq<char>, v: Option<RequestType>) -> Seq<
    (Seq<char>, JsonData),
> {
    match v {
        Some(t) => seq![(k, JsonData::Str(request_type_name(t)))],
        None => seq![],
    }
}

/// Append the optional request-type field.
pub fn push_opt_request_type(
    fields: &mut Vec<(String, JsonValue)>,
    key: &str,
    v: &Option<RequestType>,
)
    ensures
        fields_model(*final(fields)) == fields_model(*old(fields)) + opt_request_type_field(
            key@,
            *v,
        ),
{
    match v {
        Some(t) => {
            let name = t.wire_str();
            push_pair(fields, key, JsonValue::Str(name.to_owned()));
        },
        None => {
            proof {
                assert(fields_model(*fields) =~= fields_model(*fields) + opt_request_type_field(
                    key@,
                    *v,
                ));
            }
        },
    }
}

/// The payload entry of the optional proxy field: its canonical string.
pub open spec fn opt_proxy_field(k: Seq<char>, v: Option<ProxyType>) -> Seq<
    (Seq<char>, JsonData),
> {
    match v {
        Some(p) => seq![(k, JsonData::Str(proxy_name(p)))],
        None => seq![],
    }
}

/// Append the optional proxy field.
pub fn push_opt_proxy(fields: &mut Vec<(String, JsonValue)>, key: &str, v: &Option<ProxyType>)
    ensures
        fields_model(*final(fields)) == fields_model(*old(fields)) + opt_proxy_field(key@, *v),
{
    match v {
        Some(p) => {
            let name = p.as_str();
            push_pair(fields, key, JsonValue::Str(name.to_owned()));
        },
        None => {
            proof {
                assert(fields_model(*fields) =~= fields_model(*fields) + opt_proxy_field(
                    key@,
                    *v,
                ));
            }
        },
    }
}

/// The wire value of a return-format choice: a single name, or the array
/// of names in the order given.
pub open spec fn return_format_handling_data(v: ReturnFormatHandling) -> JsonData {
    match v {
        ReturnFormatHandling::Single(f) => JsonData::Str(return_format_name(f)),
        ReturnFormatHandling::Multi(fs) => JsonData::Arr(
            Seq::new(fs@.len(), |i: int| JsonData::Str(return_format_name(fs@[i]))),
        ),
    }
}

/// Encode a return-format choice.
pub fn return_format_handling_to_json(v: &ReturnFormatHandling) -> (r: JsonValue)
    ensures
        r.model() == return_format_handling_data(*v),
{
    match v {
        ReturnFormatHandling::Single(f) => {
            let name = f.wire_str();
            JsonValue::Str(name.to_owned())
        },
        ReturnFormatHandling::Multi(fs) => {
            let n = fs.len();
            let mut items: Vec<JsonValue> = Vec::new();
            let mut i: usize = 0;
            while i < n
                invariant
                    n == fs@.len(),
                    0 <= i <= n,
                    items@.len() == i,
                    forall|j: int|
                        0 <= j < i ==> items@[j].model() == JsonData::Str(
                            return_format_name(fs@[j]),
                        ),
                decreases n - i,
            {
                let name = fs[i].wire_str();
                items.push(JsonValue::Str(name.to_owned()));
                i += 1;
            }
            proof {
                lemma_arr_model(items);
                assert(items_model(items) =~= Seq::new(
                    fs@.len(),
                    |i: int| JsonData::Str(return_format_name(fs@[i])),
                ));
            }
            JsonValue::Arr(items)
        },
    }
}

/// The payload entry of the optional return-format field.
pub open spec fn opt_return_format_field(k: Seq<char>, v: Option<ReturnFormatHandling>) -> Seq<
    (Seq<char>, JsonData),
> {
    match v {
        Some(h) => seq![(k, return_format_handling_data(h))],
        None => seq![],
    }
}

/// Append the optional return-format field.
pub fn push_opt_return_format(
    fields: &mut Vec<(String, JsonValue)>,
    key: &str,
    v: &Option<ReturnFormatHandling>,
)
    ensures
        fields_model(*final(fields)) == fields_model(*old(fields)) + opt_return_format_field(
            key@,
            *v,
        ),
{
    match v {
        Some(h) => {
            let j = return_format_handling_to_json(h);
            push_pair(fields, key, j);
        },
        None => {
            proof {
                assert(fields_model(*fields) =~= fields_model(*fields) + opt_return_format_field(
                    key@,
                    *v,
                ));
            }
        },
    }
}

/// The wire object of one CSS selector group.
pub open spec fn css_selector_data(c: CSSSelector) -> JsonData {
    JsonData::Obj(
        seq![
            ("name"@, JsonData::Str(c.name@)),
            ("selectors"@, str_list_data(c.selectors@)),
        ],
    )
}

/// Encode one CSS selector group.
pub fn css_selector_to_json(c: &CSSSelector) -> (r: JsonValue)
    ensures
        r.model() == css_selector_data(*c),
{
    let mut f: Vec<(String, JsonValue)> = Vec::new();
    push_pair(&mut f, "name", JsonValue::Str(c.name.clone()));
    let sels = string_list_to_json(&c.selectors);
    push_pair(&mut f, "selectors", sels);
    proof {
        lemma_obj_model(f);
        assert(fields_model(f) =~= seq![
            ("name"@, JsonData::Str(c.name@)),
            ("selectors"@, str_list_data(c.selectors@)),
        ]);
    }
    JsonValue::Obj(f)
}

/// The wire array of a list of CSS selector groups.
pub open spec fn css_group_data(v: Seq<CSSSelector>) -> JsonData {
    JsonData::Arr(Seq::new(v.len(), |i: int| css_selector_data(v[i])))
}

/// Encode a list of CSS selector groups.
pub fn css_group_to_json(v: &Vec<CSSSelector>) -> (r: JsonValue)
    ensures
        r.model() == css_group_data(v@),
{
    let n = v.len();
    let mut items: Vec<JsonValue> = Vec::new();
    let mut i: usize = 0;
    while i < n
        invariant
            n == v@.len(),
            0 <= i <= n,
            items@.len() == i,
            forall|j: int| 0 <= j < i ==> items@[j].model() == css_selector_data(v@[j]),
        decreases n - i,
    {
        let j = css_selector_to_json(&v[i]);
        items.push(j);
        i += 1;
    }
    proof {
        lemma_arr_model(items);
        assert(items_model(items) =~= Seq::new(v@.len(), |i: int| css_selector_data(v@[i])));
    }
    JsonValue::Arr(items)
}

/// The wire object of the CSS extraction map.
pub open spec fn css_map_data(v: Seq<(String, Vec<CSSSelector>)>) -> JsonData {
    JsonData::Obj(Seq::new(v.len(), |i: int| (v[i].0@, css_group_data(v[i].1@))))
}

/// Encode the CSS extraction map.
pub fn css_map_to_json(v: &Vec<(String, Vec<CSSSelector>)>) -> (r: JsonValue)
    ensures
        r.model() == css_map_data(v@),
{
    let n = v.len();
    let mut fields: Vec<(String, JsonValue)> = Vec::new();
    let mut i: usize = 0;
    while i < n
        invariant
            n == v@.len(),
            0 <= i <= n,
            fields@.len() == i,
            forall|j: int| 0 <= j < i ==> fields@[j].0@ == v@[j].0@ && fields@[j].1.model()
                == css_group_data(v@[j].1@),
        decreases n - i,
    {
        let g = css_group_to_json(&v[i].1);
        fields.push((v[i].0.clone(), g));
        i += 1;
    }
    proof {
        lemma_obj_model(fields);
        assert(fields_model(fields) =~= Seq::new(
            v@.len(),
            |i: int| (v@[i].0@, css_group_data(v@[i].1@)),
        ));
    }
    JsonValue::Obj(fields)
}

/// The payload entry of the optional CSS extraction field.
pub open spec fn opt_css_map_field(k: Seq<char>, v: Option<Vec<(String, Vec<CSSSelector>)>>) -> Seq<
    (Seq<char>, JsonData),
> {
    match v {
        Some(m) => seq![(k, css_map_data(m@))],
        None => seq![],
    }
}

/// Append the optional CSS extraction field.
pub fn push_opt_css_map(
    fields: &mut Vec<(String, JsonValue)>,
    key: &str,
    v: &Option<Vec<(String, Vec<CSSSelector>)>>,
)
    ensures
        fields_model(*final(fields)) == fields_model(*old(fields)) + opt_css_map_field(key@, *v),
{
    match v {
        Some(m) => {
            let j = css_map_to_json(m);
            push_pair(fields, key, j);
        },
        None => {
            proof {
                assert(fields_model(*fields) =~= fields_model(*fields) + opt_css_map_field(
                    key@,
                    *v,
                ));
            }
        },
    }
}

/// The wire object of one automated browser task: its variant name under
/// the key `type`, then the fields of the variant.
pub open spec fn automation_data(a: WebAutomation) -> JsonData {
    match a {
        WebAutomation::Evaluate { code } => JsonData::Obj(
            seq![("type"@, JsonData::Str("Evaluate"@)), ("code"@, JsonData::Str(code@))],
        ),
        WebAutomation::Click { selector } => JsonData::Obj(
            seq![("type"@, JsonData::Str("Click"@)), ("selector"@, JsonData::Str(selector@))],
        ),
        WebAutomation::Wait { duration } => JsonData::Obj(
            seq![("type"@, JsonData::Str("Wait"@)), ("duration"@, JsonData::UInt(duration))],
        ),
        WebAutomation::WaitForNavigation => JsonData::Obj(
            seq![("type"@, JsonData::Str("WaitForNavigation"@))],
        ),
        WebAutomation::WaitFor { selector } => JsonData::Obj(
            seq![("type"@, JsonData::Str("WaitFor"@)), ("selector"@, JsonData::Str(selector@))],
        ),
        WebAutomation::WaitForAndClick { selector } => JsonData::Obj(
            seq![
                ("type"@, JsonData::Str("WaitForAndClick"@)),
                ("selector"@, JsonData::Str(selector@)),
            ],
        ),
        WebAutomation::ScrollX { pixels } => JsonData::Obj(
            seq![("type"@, JsonData::Str("ScrollX"@)), ("pixels"@, JsonData::Int(pixels as i64))],
        ),
        WebAutomation::ScrollY { pixels } => JsonData::Obj(
            seq![("type"@, JsonData::Str("ScrollY"@)), ("pixels"@, JsonData::Int(pixels as i64))],
        ),
        WebAutomation::Fill { selector, value } => JsonData::Obj(
            seq![
                ("type"@, JsonData::Str("Fill"@)),
                ("selector"@, JsonData::Str(selector@)),
                ("value"@, JsonData::Str(value@)),
            ],
        ),
        WebAutomation::InfiniteScroll { times } => JsonData::Obj(
            seq![("type"@, JsonData::Str("InfiniteScroll"@)), ("times"@, JsonData::UInt(times as u64))],
        ),
    }
}

/// Encode one automated browser task.
pub fn automation_to_json(a: &WebAutomation) -> (r: JsonValue)
    ensures
        r.model() == automation_data(*a),
{
    let mut f: Vec<(String, JsonValue)> = Vec::new();
    match a {
        WebAutomation::Evaluate { code } => {
            push_pair(&mut f, "type", JsonValue::Str("Evaluate".to_owned()));
            push_pair(&mut f, "code", JsonValue::Str(code.clone()));
        },
        WebAutomation::Click { selector } => {
            push_pair(&mut f, "type", JsonValue::Str("Click".to_owned()));
            push_pair(&mut f, "selector", JsonValue::Str(selector.clone()));
        },
        WebAutomation::Wait { duration } => {
            push_pair(&mut f, "type", JsonValue::Str("Wait".to_owned()));
            push_pair(&mut f, "duration", JsonValue::UInt(*duration));
        },
        WebAutomation::WaitForNavigation => {
            push_pair(&mut f, "type", JsonValue::Str("WaitForNavigation".to_owned()));
        },
        WebAutomation::WaitFor { selector } => {
            push_pair(&mut f, "type", JsonValue::Str("WaitFor".to_owned()));
            push_pair(&mut f, "selector", JsonValue::Str(selector.clone()));
        },
        WebAutomation::WaitForAndClick { selector } => {
            push_pair(&mut f, "type", JsonValue::Str("WaitForAndClick".to_owned()));
            push_pair(&mut f, "selector", JsonValue::Str(selector.clone()));
        },
        WebAutomation::ScrollX { pixels } => {
            push_pair(&mut f, "type", JsonValue::Str("ScrollX".to_owned()));
            push_pair(&mut f, "pixels", JsonValue::Int(*pixels as i64));
        },
        WebAutomation::ScrollY { pixels } => {
            push_pair(&mut f, "type", JsonValue::Str("ScrollY".to_owned()));
            push_pair(&mut f, "pixels", JsonValue::Int(*pixels as i64));
        },
        WebAutomation::Fill { selector, value } => {
            push_pair(&mut f, "type", JsonValue::Str("Fill".to_owned()));
            push_pair(&mut f, "selector", JsonValue::Str(selector.clone()));
            push_pair(&mut f, "value", JsonValue::Str(value.clone()));
        },
        WebAutomation::InfiniteScroll { times } => {
            push_pair(&mut f, "type", JsonValue::Str("InfiniteScroll".to_owned()));
            push_pair(&mut f, "times", JsonValue::UInt(*times as u64));
        },
    }
    proof {
        lemma_obj_model(f);
        assert(automation_data(*a) matches JsonData::Obj(inner) && fields_model(f) =~= inner);
    }
    JsonValue::Obj(f)
}

/// The wire array of a list of automated browser tasks.
pub open spec fn automation_list_data(v: Seq<WebAutomation>) -> JsonData {
    JsonData::Arr(Seq::new(v.len(), |i: int| automation_data(v[i])))
}

/// Encode a list of automated browser tasks.
pub fn automation_list_to_json(v: &Vec<WebAutomation>) -> (r: JsonValue)
    ensures
        r.model() == automation_list_data(v@),
{
    let n = v.len();
    let mut items: Vec<JsonValue> = Vec::new();
    let mut i: usize = 0;
    while i < n
        invariant
            n == v@.len(),
            0 <= i <= n,
            items@.len() == i,
            forall|j: int| 0 <= j < i ==> items@[j].model() == automation_data(v@[j]),
        decreases n - i,
    {
        let j = automation_to_json(&v[i]);
        items.push(j);
        i += 1;
    }
    proof {
        lemma_arr_model(items);
        assert(items_model(items) =~= Seq::new(v@.len(), |i: int| automation_data(v@[i])));
    }
    JsonValue::Arr(items)
}

/// The wire object of the automation map.
pub open spec fn automation_map_data(v: Seq<(String, Vec<WebAutomation>)>) -> JsonData {
    JsonData::Obj(Seq::new(v.len(), |i: int| (v[i].0@, automation_list_data(v[i].1@))))
}

/// Encode the automation map.
pub fn automation_map_to_json(v: &Vec<(String, Vec<WebAutomation>)>) -> (r: JsonValue)
    ensures
        r.model() == automation_map_data(v@),
{
    let n = v.len();
    let mut fields: Vec<(String, JsonValue)> = Vec::new();
    let mut i: usize = 0;
    while i < n
        invariant
            n == v@.len(),
            0 <= i <= n,
            fields@.len() == i,
            forall|j: int| 0 <= j < i ==> fields@[j].0@ == v@[j].0@ && fields@[j].1.model()
                == automation_list_data(v@[j].1@),
        decreases n - i,
    {
        let g = automation_list_to_json(&v[i].1);
        fields.push((v[i].0.clone(), g));
        i += 1;
    }
    proof {
        lemma_obj_model(fields);
        assert(fields_model(fields) =~= Seq::new(
            v@.len(),
            |i: int| (v@[i].0@, automation_list_data(v@[i].1@)),
        ));
    }
    JsonValue::Obj(fields)
}

/// The payload entry of the optional automation field.
pub open spec fn opt_automation_map_field(
    k: Seq<char>,
    v: Option<Vec<(String, Vec<WebAutomation>)>>,
) -> Seq<(Seq<char>, JsonData)> {
    match v {
        Some(m) => seq![(k, automation_map_data(m@))],
        None => seq![],
    }
}

/// Append the optional automation field.
pub fn push_opt_automation_map(
    fields: &mut Vec<(String, JsonValue)>,
    key: &str,
    v: &Option<Vec<(String, Vec<WebAutomation>)>>,
)
    ensures
        fields_model(*final(fields)) == fields_model(*old(fields)) + opt_automation_map_field(
            key@,
            *v,
        ),
{
    match v {
        Some(m) => {
            let j = automation_map_to_json(m);
            push_pair(fields, key, j);
        },
        None => {
            proof {
                assert(fields_model(*fields) =~= fields_model(*fields) + opt_automation_map_field(
                    key@,
                    *v,
                ));
            }
        },
    }
}

/// The wire object of one transform data pair, an unset url omitted.
pub open spec fn data_param_data(d: DataParam) -> JsonData {
    JsonData::Obj(seq![("html"@, JsonData::Str(d.html@))] + opt_str_field("url"@, d.url))
}

/// Encode one transform data pair.
pub fn data_param_to_json(d: &DataParam) -> (r: JsonValue)
    ensures
        r.model() == data_param_data(*d),
{
    let mut f: Vec<(String, JsonValue)> = Vec::new();
    push_pair(&mut f, "html", JsonValue::Str(d.html.clone()));
    push_opt_str(&mut f, "url", &d.url);
    proof {
        lemma_obj_model(f);
        assert(fields_model(f) =~= seq![("html"@, JsonData::Str(d.html@))] + opt_str_field(
            "url"@,
            d.url,
        ));
    }
    JsonValue::Obj(f)
}

/// The wire array of the transform data pairs.
pub open spec fn data_list_data(v: Seq<DataParam>) -> JsonData {
    JsonData::Arr(Seq::new(v.len(), |i: int| data_param_data(v[i])))
}

/// Encode the transform data pairs.
pub fn data_list_to_json(v: &Vec<DataParam>) -> (r: JsonValue)
    ensures
        r.model() == data_list_data(v@),
{
    let n = v.len();
    let mut items: Vec<JsonValue> = Vec::new();
    let mut i: usize = 0;
    while i < n
        invariant
            n == v@.len(),
            0 <= i <= n,
            items@.len() == i,
            forall|j: int| 0 <= j < i ==> items@[j].model() == data_param_data(v@[j]),
        decreases n - i,
    {
        let j = data_param_to_json(&v[i]);
        items.push(j);
        i += 1;
    }
    proof {
        lemma_arr_model(items);
        assert(items_model(items) =~= Seq::new(v@.len(), |i: int| data_param_data(v@[i])));
    }
    JsonValue::Arr(items)
}

/// The payload entry of the optional single return-format field of the
/// transform parameters.
pub open spec fn opt_format_field(k: Seq<char>, v: Option<ReturnFormat>) -> Seq<
    (Seq<char>, JsonData),
> {
    match v {
        Some(f) => seq![(k, JsonData::Str(return_format_name(f)))],
        None => seq![],
    }
}

/// Append the optional single return-format field.
pub fn push_opt_format(fields: &mut Vec<(String, JsonValue)>, key: &str, v: &Option<ReturnFormat>)
    ensures
        fields_model(*final(fields)) == fields_model(*old(fields)) + opt_format_field(key@, *v),
{
    match v {
        Some(f) => {
            let name = f.wire_str();
            push_pair(fields, key, JsonValue::Str(name.to_owned()));
        },
        None => {
            proof {
                assert(fields_model(*fields) =~= fields_model(*fields) + opt_format_field(
                    key@,
                    *v,
                ));
            }
        },
    }
}

/// The first group of crawl-setting fields.
pub open spec fn fields_group1(p: RequestParams) -> Seq<(Seq<char>, JsonData)> {
    opt_str_field("url"@, p.url) + opt_request_type_field("request"@, p.request) + opt_u32_field(
        "limit"@,
        p.limit,
    ) + opt_return_format_field("return_format"@, p.return_format) + opt_str_field(
        "country_code"@,
        p.country_code,
    ) + opt_bool_field("tld"@, p.tld) + opt_u32_field("depth"@, p.depth) + opt_bool_field(
        "cache"@,
        p.cache,
    )
}

/// The second group of crawl-setting fields.
pub open spec fn fields_group2(p: RequestParams) -> Seq<(Seq<char>, JsonData)> {
    opt_u32_field("scroll"@, p.scroll) + opt_u32_map_field("budget"@, p.budget)
        + opt_str_list_field("blacklist"@, p.blacklist) + opt_str_list_field(
        "whitelist"@,
        p.whitelist,
    ) + opt_str_field("locale"@, p.locale) + opt_str_field("cookies"@, p.cookies)
        + opt_bool_field("stealth"@, p.stealth) + opt_str_map_field("headers"@, p.headers)
}

/// The third group of crawl-setting fields.
pub open spec fn fields_group3(p: RequestParams) -> Seq<(Seq<char>, JsonData)> {
    opt_bool_field("anti_bot"@, p.anti_bot) + opt_webhooks_field("webhooks"@, p.webhooks)
        + opt_bool_field("metadata"@, p.metadata) + opt_viewport_field("viewport"@, p.viewport)
        + opt_str_field("encoding"@, p.encoding) + opt_bool_field("subdomains"@, p.subdomains)
        + opt_str_field("user_agent"@, p.user_agent) + opt_bool_field("store_data"@, p.store_data)
}

/// The fourth group of crawl-setting fields.
pub open spec fn fields_group4(p: RequestParams) -> Seq<(Seq<char>, JsonData)> {
    opt_str_map_field("gpt_config"@, p.gpt_config) + opt_bool_field("fingerprint"@, p.fingerprint)
        + opt_bool_field("storageless"@, p.storageless) + opt_bool_field(
        "readability"@,
        p.readability,
    ) + opt_bool_field("proxy_enabled"@, p.proxy_enabled) + opt_bool_field(
        "respect_robots"@,
        p.respect_robots,
    ) + opt_str_field("root_selector"@, p.root_selector) + opt_bool_field(
        "full_resources"@,
        p.full_resources,
    )
}

/// The fifth group of crawl-setting fields.
pub open spec fn fields_group5(p: RequestParams) -> Seq<(Seq<char>, JsonData)> {
    opt_str_field("text"@, p.text) + opt_bool_field("sitemap"@, p.sitemap) + opt_str_list_field(
        "external_domains"@,
        p.external_domains,
    ) + opt_bool_field("return_embeddings"@, p.return_embeddings) + opt_bool_field(
        "return_headers"@,
        p.return_headers,
    ) + opt_bool_field("return_page_links"@, p.return_page_links) + opt_bool_field(
        "return_cookies"@,
        p.return_cookies,
    ) + opt_u8_field("request_timeout"@, p.request_timeout)
}

/// The sixth group of crawl-setting fields.
pub open spec fn fields_group6(p: RequestParams) -> Seq<(Seq<char>, JsonData)> {
    opt_bool_field("run_in_background"@, p.run_in_background) + opt_bool_field(
        "skip_config_checks"@,
        p.skip_config_checks,
    ) + opt_css_map_field("css_extraction_map"@, p.css_extraction_map) + opt_chunking_field(
        "chunking_alg"@,
        p.chunking_alg,
    ) + opt_bool_field("disable_intercept"@, p.disable_intercept) + opt_wait_for_field(
        "wait_for"@,
        p.wait_for,
    ) + opt_str_map_field("execution_scripts"@, p.execution_scripts) + opt_automation_map_field(
        "automation_scripts"@,
        p.automation_scripts,
    )
}

/// The seventh group of crawl-setting fields.
pub open spec fn fields_group7(p: RequestParams) -> Seq<(Seq<char>, JsonData)> {
    opt_redirect_field("redirect_policy"@, p.redirect_policy) + opt_event_tracker_field(
        "event_tracker"@,
        p.event_tracker,
    ) + opt_timeout_field("crawl_timeout"@, p.crawl_timeout) + opt_str_field(
        "evaluate_on_new_document"@,
        p.evaluate_on_new_document,
    ) + opt_bool_field("lite_mode"@, p.lite_mode) + opt_proxy_field("proxy"@, p.proxy)
        + opt_str_field("remote_proxy"@, p.remote_proxy) + opt_uint_field(
        "max_credits_per_page"@,
        p.max_credits_per_page,
    )
}

/// Every field of the crawl settings, in declaration order; a field left
/// `None` contributes nothing.
pub open spec fn params_fields(p: RequestParams) -> Seq<(Seq<char>, JsonData)> {
    fields_group1(p) + fields_group2(p) + fields_group3(p) + fields_group4(p) + fields_group5(p)
        + fields_group6(p) + fields_group7(p)
}

impl RequestParams {
    fn push_group1(&self, fields: &mut Vec<(String, JsonValue)>)
        ensures
            fields_model(*final(fields)) == fields_model(*old(fields)) + fields_group1(*self),
    {
        push_opt_str(fields, "url", &self.url);
        push_opt_request_type(fields, "request", &self.request);
        push_opt_u32(fields, "limit", &self.limit);
        push_opt_return_format(fields, "return_format", &self.return_format);
        push_opt_str(fields, "country_code", &self.country_code);
        push_opt_bool(fields, "tld", &self.tld);
        push_opt_u32(fields, "depth", &self.depth);
        push_opt_bool(fields, "cache", &self.cache);
        proof {
            assert(fields_model(*fields) =~= fields_model(*old(fields)) + fields_group1(*self));
        }
    }

    fn push_group2(&self, fields: &mut Vec<(String, JsonValue)>)
        ensures
            fields_model(*final(fields)) == fields_model(*old(fields)) + fields_group2(*self),
    {
        push_opt_u32(fields, "scroll", &self.scroll);
        push_opt_u32_map(fields, "budget", &self.budget);
        push_opt_str_list(fields, "blacklist", &self.blacklist);
        push_opt_str_list(fields, "whitelist", &self.whitelist);
        push_opt_str(fields, "locale", &self.locale);
        push_opt_str(fields, "cookies", &self.cookies);
        push_opt_bool(fields, "stealth", &self.stealth);
        push_opt_str_map(fields, "headers", &self.headers);
        proof {
            assert(fields_model(*fields) =~= fields_model(*old(fields)) + fields_group2(*self));
        }
    }

    fn push_group3(&self, fields: &mut Vec<(String, JsonValue)>)
        ensures
            fields_model(*final(fields)) == fields_model(*old(fields)) + fields_group3(*self),
    {
        push_opt_bool(fields, "anti_bot", &self.anti_bot);
        push_opt_webhooks(fields, "webhooks", &self.webhooks);
        push_opt_bool(fields, "metadata", &self.metadata);
        push_opt_viewport(fields, "viewport", &self.viewport);
        push_opt_str(fields, "encoding", &self.encoding);
        push_opt_bool(fields, "subdomains", &self.subdomains);
        push_opt_str(fields, "user_agent", &self.user_agent);
        push_opt_bool(fields, "store_data", &self.store_data);
        proof {
            assert(fields_model(*fields) =~= fields_model(*old(fields)) + fields_group3(*self));
        }
    }

    fn push_group4(&self, fields: &mut Vec<(String, JsonValue)>)
        ensures
            fields_model(*final(fields)) == fields_model(*old(fields)) + fields_group4(*self),
    {
        push_opt_str_map(fields, "gpt_config", &self.gpt_config);
        push_opt_bool(fields, "fingerprint", &self.fingerprint);
        push_opt_bool(fields, "storageless", &self.storageless);
        push_opt_bool(fields, "readability", &self.readability);
        push_opt_bool(fields, "proxy_enabled", &self.proxy_enabled);
        push_opt_bool(fields, "respect_robots", &self.respect_robots);
        push_opt_str(fields, "root_selector", &self.root_selector);
        push_opt_bool(fields, "full_resources", &self.full_resources);
        proof {
            assert(fields_model(*fields) =~= fields_model(*old(fields)) + fields_group4(*self));
        }
    }

    fn push_group5(&self, fields: &mut Vec<(String, JsonValue)>)
        ensures
            fields_model(*final(fields)) == fields_model(*old(fields)) + fields_group5(*self),
    {
        push_opt_str(fields, "text", &self.text);
        push_opt_bool(fields, "sitemap", &self.sitemap);
        push_opt_str_list(fields, "external_domains", &self.external_domains);
        push_opt_bool(fields, "return_embeddings", &self.return_embeddings);
        push_opt_bool(fields, "return_headers", &self.return_headers);
        push_opt_bool(fields, "return_page_links", &self.return_page_links);
        push_opt_bool(fields, "return_cookies", &self.return_cookies);
        push_opt_u8(fields, "request_timeout", &self.request_timeout);
        proof {
            assert(fields_model(*fields) =~= fields_model(*old(fields)) + fields_group5(*self));
        }
    }

    fn push_group6(&self, fields: &mut Vec<(String, JsonValue)>)
        ensures
            fields_model(*final(fields)) == fields_model(*old(fields)) + fields_group6(*self),
    {
        push_opt_bool(fields, "run_in_background", &self.run_in_background);
        push_opt_bool(fields, "skip_config_checks", &self.skip_config_checks);
        push_opt_css_map(fields, "css_extraction_map", &self.css_extraction_map);
        push_opt_chunking(fields, "chunking_alg", &self.chunking_alg);
        push_opt_bool(fields, "disable_intercept", &self.disable_intercept);
        push_opt_wait_for(fields, "wait_for", &self.wait_for);
        push_opt_str_map(fields, "execution_scripts", &self.execution_scripts);
        push_opt_automation_map(fields, "automation_scripts", &self.automation_scripts);
        proof {
            assert(fields_model(*fields) =~= fields_model(*old(fields)) + fields_group6(*self));
        }
    }

    fn push_group7(&self, fields: &mut Vec<(String, JsonValue)>)
        ensures
            fields_model(*final(fields)) == fields_model(*old(fields)) + fields_group7(*self),
    {
        push_opt_redirect(fields, "redirect_policy", &self.redirect_policy);
        push_opt_event_tracker(fields, "event_tracker", &self.event_tracker);
        push_opt_timeout(fields, "crawl_timeout", &self.crawl_timeout);
        push_opt_str(fields, "evaluate_on_new_document", &self.evaluate_on_new_document);
        push_opt_bool(fields, "lite_mode", &self.lite_mode);
        push_opt_proxy(fields, "proxy", &self.proxy);
        push_opt_str(fields, "remote_proxy", &self.remote_proxy);
        push_opt_u64(fields, "max_credits_per_page", &self.max_credits_per_page);
        proof {
            assert(fields_model(*fields) =~= fields_model(*old(fields)) + fields_group7(*self));
        }
    }

    /// Flatten the crawl settings into their payload fields: one key per
    /// set field, in declaration order, nothing for a field left `None`.
    pub fn to_fields(&self) -> (r: Vec<(String, JsonValue)>)
        ensures
            fields_model(r) == params_fields(*self),
    {
        let mut fields: Vec<(String, JsonValue)> = Vec::new();
        self.push_group1(&mut fields);
        self.push_group2(&mut fields);
        self.push_group3(&mut fields);
        self.push_group4(&mut fields);
        self.push_group5(&mut fields);
        self.push_group6(&mut fields);
        self.push_group7(&mut fields);
        proof {
            assert(fields_model(fields) =~= params_fields(*self));
        }
        fields
    }
}

/// A parameter bag with no field set contributes no payload field at all.
pub proof fn lemma_unset_params_no_fields(p: RequestParams)
    requires
        p.is_unset(),
    ensures
        params_fields(p) == Seq::<(Seq<char>, JsonData)>::empty(),
{
    assert(params_fields(p) =~= Seq::<(Seq<char>, JsonData)>::empty());
}

/// The payload with every entry under key `k` removed.
pub open spec fn remove_key(s: Seq<(Seq<char>, JsonData)>, k: Seq<char>) -> Seq<
    (Seq<char>, JsonData),
>
    decreases s.len(),
{
    if s.len() == 0 {
        Seq::empty()
    } else {
        let rest = remove_key(s.drop_first(), k);
        if s[0].0 == k {
            rest
        } else {
            seq![s[0]] + rest
        }
    }
}

/// How `remove_key` grows with its input.
pub proof fn lemma_remove_key_push(s: Seq<(Seq<char>, JsonData)>, k: Seq<char>, x: (Seq<char>, JsonData))
    ensures
        remove_key(s.push(x), k) == remove_key(s, k) + (if x.0 == k {
            Seq::<(Seq<char>, JsonData)>::empty()
        } else {
            seq![x]
        }),
    decreases s.len(),
{
    let tail = if x.0 == k { Seq::<(Seq<char>, JsonData)>::empty() } else { seq![x] };
    if s.len() == 0 {
        assert(s =~= Seq::<(Seq<char>, JsonData)>::empty());
        assert(s.push(x).drop_first() =~= Seq::<(Seq<char>, JsonData)>::empty());
        assert(remove_key(Seq::<(Seq<char>, JsonData)>::empty(), k) == Seq::<
            (Seq<char>, JsonData),
        >::empty());
        assert(s.push(x)[0] == x);
        assert(remove_key(s.push(x), k) =~= remove_key(s, k) + tail);
    } else {
        assert(s.push(x).drop_first() =~= s.drop_first().push(x));
        lemma_remove_key_push(s.drop_first(), k, x);
        assert(s.push(x)[0] == s[0]);
        assert(remove_key(s.push(x).drop_first(), k) == remove_key(s.drop_first(), k) + tail);
        if s[0].0 == k {
            assert(remove_key(s.push(x), k) == remove_key(s.drop_first(), k) + tail);
            assert(remove_key(s, k) == remove_key(s.drop_first(), k));
        } else {
            assert(remove_key(s.push(x), k) == seq![s[0]] + (remove_key(s.drop_first(), k)
                + tail));
            assert(remove_key(s, k) == seq![s[0]] + remove_key(s.drop_first(), k));
            assert(seq![s[0]] + (remove_key(s.drop_first(), k) + tail) =~= (seq![s[0]]
                + remove_key(s.drop_first(), k)) + tail);
        }
        assert(remove_key(s.push(x), k) =~= remove_key(s, k) + tail);
    }
}

/// Removing a key that does not occur leaves the payload unchanged.
pub proof fn lemma_remove_key_absent(s: Seq<(Seq<char>, JsonData)>, k: Seq<char>)
    requires
        forall|i: int| 0 <= i < s.len() ==> s[i].0 != k,
    ensures
        remove_key(s, k) == s,
    decreases s.len(),
{
    if s.len() == 0 {
        assert(remove_key(s, k) =~= s);
    } else {
        lemma_remove_key_absent(s.drop_first(), k);
        assert(remove_key(s, k) =~= s);
    }
}

/// Set the subject key: every entry already under that key is dropped, and
/// the pair is appended, so the key always overwrites conflicting
/// auto-derived entries.
pub fn set_key(fields: Vec<(String, JsonValue)>, key: &str, value: JsonValue) -> (r: Vec<
    (String, JsonValue),
>)
    ensures
        fields_model(r) == remove_key(fields_model(fields), key@) + seq![(key@, value.model())],
{
    let ghost fm = fields_model(fields);
    let mut rest = fields;
    let mut out: Vec<(String, JsonValue)> = Vec::new();
    let ghost mut consumed: int = 0;
    while rest.len() > 0
        invariant
            0 <= consumed,
            consumed + rest@.len() == fm.len(),
            fields_model(rest) == fm.subrange(consumed, fm.len() as int),
            fields_model(out) == remove_key(fm.subrange(0, consumed), key@),
        decreases rest@.len(),
    {
        let ghost rest_before = fields_model(rest);
        let pair = rest.remove(0);
        proof {
            assert(rest_before[0] == fm[consumed]);
            assert(fields_model(rest) =~= rest_before.drop_first());
            assert(rest_before.drop_first() =~= fm.subrange(consumed + 1, fm.len() as int));
            assert(fm.subrange(0, consumed + 1) =~= fm.subrange(0, consumed).push(fm[consumed]));
            lemma_remove_key_push(fm.subrange(0, consumed), key@, fm[consumed]);
        }
        if !crate::text::str_eq(pair.0.as_str(), key) {
            let ghost out_before = fields_model(out);
            out.push(pair);
            proof {
                assert(fields_model(out) =~= out_before + seq![fm[consumed]]);
            }
        } else {
            proof {
                assert(fields_model(out) =~= fields_model(out)
                    + Seq::<(Seq<char>, JsonData)>::empty());
            }
        }
        proof {
            consumed = consumed + 1;
        }
    }
    proof {
        assert(fm.subrange(0, consumed) =~= fm);
    }
    push_pair(&mut out, key, value);
    out
}

/// The crawl settings of an optional bag: nothing when absent.
pub open spec fn params_fields_opt(p: Option<RequestParams>) -> Seq<(Seq<char>, JsonData)> {
    match p {
        Some(q) => params_fields(q),
        None => Seq::empty(),
    }
}

/// Whether an optional bag sets its own page limit.
pub open spec fn has_limit(p: Option<RequestParams>) -> bool {
    match p {
        Some(q) => q.limit is Some,
        None => false,
    }
}

/// The payload of one call: the flattened settings, a `limit` of 1
/// injected first for single-resource calls that set none themselves, and
/// the primary subject under its key, overwriting any conflicting entry.
pub open spec fn payload_model(
    p: Option<RequestParams>,
    subject_key: Seq<char>,
    subject: JsonData,
    single_resource: bool,
) -> Seq<(Seq<char>, JsonData)> {
    let base = (if single_resource && !has_limit(p) {
        seq![("limit"@, JsonData::UInt(1))]
    } else {
        Seq::empty()
    }) + params_fields_opt(p);
    remove_key(base, subject_key) + seq![(subject_key, subject)]
}

/// Build the payload of one call from the optional settings and the
/// primary subject.
#[verifier::rlimit(100)]
pub fn build_payload(
    params: &Option<RequestParams>,
    subject_key: &str,
    subject: JsonValue,
    single_resource: bool,
) -> (r: Vec<(String, JsonValue)>)
    ensures
        fields_model(r) == payload_model(*params, subject_key@, subject.model(), single_resource),
{
    let mut fields: Vec<(String, JsonValue)> = Vec::new();
    let inject = single_resource && match params {
        Some(p) => p.limit.is_none(),
        None => true,
    };
    if inject {
        push_pair(&mut fields, "limit", JsonValue::UInt(1));
    }
    match params {
        Some(p) => {
            let own = p.to_fields();
            let ghost before = fields_model(fields);
            let mut own = own;
            fields.append(&mut own);
            proof {
                assert(fields_model(fields) =~= before + params_fields(*p));
            }
        },
        None => {},
    }
    proof {
        assert(fields_model(fields) =~= (if single_resource && !has_limit(*params) {
            seq![("limit"@, JsonData::UInt(1))]
        } else {
            Seq::<(Seq<char>, JsonData)>::empty()
        }) + params_fields_opt(*params));
    }
    set_key(fields, subject_key, subject)
}

/// The query fields of the search parameters, after the base settings: the
/// query actually sent, then each set option.
pub open spec fn search_own_fields(p: SearchRequestParams, q: Seq<char>) -> Seq<
    (Seq<char>, JsonData),
> {
    seq![("search"@, JsonData::Str(q))] + opt_u32_field("search_limit"@, p.search_limit)
        + opt_bool_field("fetch_page_content"@, p.fetch_page_content) + opt_str_field(
        "location"@,
        p.location,
    ) + opt_str_field("country"@, p.country) + opt_str_field("language"@, p.language)
        + opt_u32_field("num"@, p.num) + opt_u32_field("page"@, p.page) + opt_u32_field(
        "website_limit"@,
        p.website_limit,
    ) + opt_bool_field("quick_search"@, p.quick_search)
}

/// Every field of the search parameters carrying the query `q`: the
/// flattened base settings, then the query fields.
pub open spec fn search_fields(p: SearchRequestParams, q: Seq<char>) -> Seq<(Seq<char>, JsonData)> {
    params_fields(p.base) + search_own_fields(p, q)
}

impl SearchRequestParams {
    /// Flatten the search parameters into their payload fields.
    #[verifier::rlimit(100)]
    pub fn to_fields(&self) -> (r: Vec<(String, JsonValue)>)
        ensures
            fields_model(r) == search_fields(*self, self.search@),
    {
        let mut fields = self.base.to_fields();
        push_pair(&mut fields, "search", JsonValue::Str(self.search.clone()));
        push_opt_u32(&mut fields, "search_limit", &self.search_limit);
        push_opt_bool(&mut fields, "fetch_page_content", &self.fetch_page_content);
        push_opt_str(&mut fields, "location", &self.location);
        push_opt_str(&mut fields, "country", &self.country);
        push_opt_str(&mut fields, "language", &self.language);
        push_opt_u32(&mut fields, "num", &self.num);
        push_opt_u32(&mut fields, "page", &self.page);
        push_opt_u32(&mut fields, "website_limit", &self.website_limit);
        push_opt_bool(&mut fields, "quick_search", &self.quick_search);
        proof {
            assert(fields_model(fields) =~= search_fields(*self, self.search@));
        }
        fields
    }
}

/// Every field of the transform parameters: each set option, then the data
/// pairs.
pub open spec fn transform_fields(p: TransformParams) -> Seq<(Seq<char>, JsonData)> {
    opt_format_field("return_format"@, p.return_format) + opt_bool_field(
        "readability"@,
        p.readability,
    ) + opt_bool_field("clean"@, p.clean) + opt_bool_field("clean_full"@, p.clean_full) + seq![
        ("data"@, data_list_data(p.data@)),
    ]
}

impl TransformParams {
    /// Flatten the transform parameters into their payload fields.
    pub fn to_fields(&self) -> (r: Vec<(String, JsonValue)>)
        ensures
            fields_model(r) == transform_fields(*self),
    {
        let mut fields: Vec<(String, JsonValue)> = Vec::new();
        push_opt_format(&mut fields, "return_format", &self.return_format);
        push_opt_bool(&mut fields, "readability", &self.readability);
        push_opt_bool(&mut fields, "clean", &self.clean);
        push_opt_bool(&mut fields, "clean_full", &self.clean_full);
        let d = data_list_to_json(&self.data);
        push_pair(&mut fields, "data", d);
        proof {
            assert(fields_model(fields) =~= transform_fields(*self));
        }
        fields
    }
}

/// For a parameter bag with no field set, the payload of a call holds
/// only the injected primary subject key, plus the injected single-page
/// limit where the call asks for one resource — no extraneous keys.
pub proof fn lemma_empty_params_payload(
    p: Option<RequestParams>,
    k: Seq<char>,
    v: JsonData,
    single_resource: bool,
)
    requires
        p matches Some(q) ==> q.is_unset(),
        k != "limit"@,
    ensures
        !single_resource ==> payload_model(p, k, v, single_resource) == seq![(k, v)],
        single_resource ==> payload_model(p, k, v, single_resource) == seq![
            ("limit"@, JsonData::UInt(1)),
            (k, v),
        ],
{
    match p {
        Some(q) => lemma_unset_params_no_fields(q),
        None => {},
    }
    let base = (if single_resource && !has_limit(p) {
        seq![("limit"@, JsonData::UInt(1))]
    } else {
        Seq::<(Seq<char>, JsonData)>::empty()
    }) + params_fields_opt(p);
    if single_resource {
        assert(base =~= seq![("limit"@, JsonData::UInt(1))]);
        lemma_remove_key_absent(base, k);
        assert(payload_model(p, k, v, single_resource) =~= seq![
            ("limit"@, JsonData::UInt(1)),
            (k, v),
        ]);
    } else {
        assert(base =~= Seq::<(Seq<char>, JsonData)>::empty());
        lemma_remove_key_absent(base, k);
        assert(payload_model(p, k, v, single_resource) =~= seq![(k, v)]);
    }
}

/// The same, at the subject key the crawl-family calls use: with no field
/// set, a single-resource scrape sends exactly the injected limit and the
/// URL, and a crawl sends exactly the URL.
pub proof fn lemma_empty_params_url_payload(p: Option<RequestParams>, u: Seq<char>)
    requires
        p matches Some(q) ==> q.is_unset(),
    ensures
        payload_model(p, "url"@, JsonData::Str(u), true) == seq![
            ("limit"@, JsonData::UInt(1)),
            ("url"@, JsonData::Str(u)),
        ],
        payload_model(p, "url"@, JsonData::Str(u), false) == seq![("url"@, JsonData::Str(u))],
{
    reveal_strlit("url");
    reveal_strlit("limit");
    assert("url"@.len() == 3);
    assert("limit"@.len() == 5);
    lemma_empty_params_payload(p, "url"@, JsonData::Str(u), true);
    lemma_empty_params_payload(p, "url"@, JsonData::Str(u), false);
}

} // verus!
