use spider_client::json::JsonValue;
use spider_client::request::ChunkingAlgDict;
use spider_client::request::ChunkingType;
use spider_client::request::ProxyType;
use spider_client::request::RedirectPolicy;
use spider_client::request::RequestParams;
use spider_client::request::RequestType;
use spider_client::request::ReturnFormat;
use spider_client::request::ReturnFormatHandling;
use spider_client::request::Timeout;
use spider_client::request::Viewport;
use spider_client::request::WaitFor;

fn keys(fields: &[(String, JsonValue)]) -> Vec<&str> {
    fields.iter().map(|p| p.0.as_str()).collect()
}

#[test]
fn unset_params_encode_to_nothing() {
    let fields = RequestParams::default().to_fields();
    assert_eq!(fields.len(), 0);
}

#[test]
fn set_fields_appear_in_declaration_order() {
    let mut p = RequestParams::default();
    p.depth = Some(2);
    p.limit = Some(10);
    p.stealth = Some(true);
    p.user_agent = Some("TestAgent".to_string());
    let fields = p.to_fields();
    assert_eq!(keys(&fields), vec!["limit", "depth", "stealth", "user_agent"]);
    assert!(matches!(fields[0].1, JsonValue::UInt(10)));
    assert!(matches!(fields[1].1, JsonValue::UInt(2)));
    assert!(matches!(fields[2].1, JsonValue::Bool(true)));
    assert!(matches!(&fields[3].1, JsonValue::Str(s) if s == "TestAgent"));
}

#[test]
fn enum_fields_use_their_wire_names() {
    let mut p = RequestParams::default();
    p.request = Some(RequestType::Chrome);
    p.proxy = Some(ProxyType::ResidentialFast);
    p.return_format = Some(ReturnFormatHandling::Single(ReturnFormat::Markdown));
    let fields = p.to_fields();
    assert_eq!(keys(&fields), vec!["request", "return_format", "proxy"]);
    assert!(matches!(&fields[0].1, JsonValue::Str(s) if s == "chrome"));
    assert!(matches!(&fields[1].1, JsonValue::Str(s) if s == "markdown"));
    assert!(matches!(&fields[2].1, JsonValue::Str(s) if s == "residential_fast"));
}

#[test]
fn multiple_return_formats_become_an_array() {
    let mut p = RequestParams::default();
    p.return_format = Some(ReturnFormatHandling::Multi(vec![
        ReturnFormat::Raw,
        ReturnFormat::Html2text,
        ReturnFormat::Bytes,
    ]));
    let fields = p.to_fields();
    match &fields[0].1 {
        JsonValue::Arr(items) => {
            assert_eq!(items.len(), 3);
            assert!(matches!(&items[0], JsonValue::Str(s) if s == "raw"));
            assert!(matches!(&items[1], JsonValue::Str(s) if s == "html2text"));
            assert!(matches!(&items[2], JsonValue::Str(s) if s == "bytes"));
        },
        other => panic!("expected an array, got {other:?}"),
    }
}

#[test]
fn budget_map_encodes_as_an_object() {
    let mut p = RequestParams::default();
    p.budget = Some(vec![("*".to_string(), 20), ("/docs".to_string(), 5)]);
    let fields = p.to_fields();
    assert_eq!(keys(&fields), vec!["budget"]);
    match &fields[0].1 {
        JsonValue::Obj(entries) => {
            assert_eq!(entries[0].0, "*");
            assert!(matches!(entries[0].1, JsonValue::UInt(20)));
            assert_eq!(entries[1].0, "/docs");
            assert!(matches!(entries[1].1, JsonValue::UInt(5)));
        },
        other => panic!("expected an object, got {other:?}"),
    }
}

#[test]
fn nested_structures_encode_their_set_fields_only() {
    let mut p = RequestParams::default();
    p.viewport = Some(Viewport {
        width: 800,
        height: 600,
        device_scale_factor: None,
        emulating_mobile: false,
        is_landscape: true,
        has_touch: false,
    });
    let mut w = WaitFor {
        idle_network: None,
        selector: None,
        dom: None,
        delay: None,
        page_navigations: Some(true),
    };
    w.delay = Some(spider_client::request::Delay { timeout: Timeout { secs: 2, nanos: 0 } });
    p.wait_for = Some(w);
    let fields = p.to_fields();
    assert_eq!(keys(&fields), vec!["viewport", "wait_for"]);
    match &fields[0].1 {
        JsonValue::Obj(vp) => {
            let vp_keys: Vec<&str> = vp.iter().map(|x| x.0.as_str()).collect();
            assert_eq!(
                vp_keys,
                vec!["width", "height", "emulating_mobile", "is_landscape", "has_touch"]
            );
        },
        other => panic!("expected an object, got {other:?}"),
    }
    match &fields[1].1 {
        JsonValue::Obj(wf) => {
            let wf_keys: Vec<&str> = wf.iter().map(|x| x.0.as_str()).collect();
            assert_eq!(wf_keys, vec!["delay", "page_navigations"]);
        },
        other => panic!("expected an object, got {other:?}"),
    }
}

#[test]
fn chunking_and_redirect_policy_encode_with_type_tags() {
    let mut p = RequestParams::default();
    p.chunking_alg = Some(ChunkingAlgDict { kind: ChunkingType::BySentence, value: 4 });
    p.redirect_policy = Some(RedirectPolicy::Loose);
    let fields = p.to_fields();
    assert_eq!(keys(&fields), vec!["chunking_alg", "redirect_policy"]);
    match &fields[0].1 {
        JsonValue::Obj(c) => {
            assert_eq!(c[0].0, "type");
            assert!(matches!(&c[0].1, JsonValue::Str(s) if s == "bysentence"));
            assert_eq!(c[1].0, "value");
            assert!(matches!(c[1].1, JsonValue::Int(4)));
        },
        other => panic!("expected an object, got {other:?}"),
    }
    match &fields[1].1 {
        JsonValue::Obj(r) => {
            assert_eq!(r[0].0, "type");
            assert!(matches!(&r[0].1, JsonValue::Str(s) if s == "Loose"));
        },
        other => panic!("expected an object, got {other:?}"),
    }
}

#[test]
fn string_lists_and_maps_encode_in_order() {
    let mut p = RequestParams::default();
    p.blacklist = Some(vec!["/private".to_string(), "/tmp".to_string()]);
    p.headers = Some(vec![("Accept".to_string(), "text/html".to_string())]);
    let fields = p.to_fields();
    assert_eq!(keys(&fields), vec!["blacklist", "headers"]);
    match &fields[0].1 {
        JsonValue::Arr(items) => {
            assert!(matches!(&items[0], JsonValue::Str(s) if s == "/private"));
            assert!(matches!(&items[1], JsonValue::Str(s) if s == "/tmp"));
        },
        other => panic!("expected an array, got {other:?}"),
    }
    match &fields[1].1 {
        JsonValue::Obj(entries) => {
            assert_eq!(entries[0].0, "Accept");
            assert!(matches!(&entries[0].1, JsonValue::Str(s) if s == "text/html"));
        },
        other => panic!("expected an object, got {other:?}"),
    }
}
