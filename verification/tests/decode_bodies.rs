use spider_client::decode::BodyKind;
use spider_client::decode::DecodeError;
use spider_client::decode::DecodedBody;
use spider_client::decode::classify_content_type;
use spider_client::decode::decode_body;
use spider_client::decode::parse_json_lines;
use spider_client::json::JsonValue;

fn json_value(s: &str) -> serde_json::Value {
    serde_json::from_str(s).unwrap()
}

#[test]
fn json_content_type_routes_to_json() {
    assert_eq!(
        classify_content_type(Some("application/json; charset=utf-8")),
        BodyKind::Json
    );
    assert_eq!(classify_content_type(Some("Application/JSON")), BodyKind::Json);
    assert_eq!(classify_content_type(Some("text/json")), BodyKind::Json);
}

#[test]
fn line_delimited_spellings_route_to_jsonl() {
    assert_eq!(classify_content_type(Some("application/jsonl")), BodyKind::JsonLines);
    assert_eq!(classify_content_type(Some("application/x-ndjson")), BodyKind::JsonLines);
    assert_eq!(
        classify_content_type(Some("application/JSONL; charset=utf-8")),
        BodyKind::JsonLines
    );
}

#[test]
fn other_content_types_route_to_their_parsers() {
    assert_eq!(classify_content_type(Some("text/csv")), BodyKind::Csv);
    assert_eq!(classify_content_type(Some("application/xml")), BodyKind::Xml);
    assert_eq!(classify_content_type(Some("text/plain")), BodyKind::Text);
    assert_eq!(classify_content_type(Some("application/octet-stream")), BodyKind::Text);
    assert_eq!(classify_content_type(None), BodyKind::Text);
}

#[test]
fn three_records_with_malformed_second() {
    let body = b"{\"a\":1}\nnot json\n{\"b\":2}";
    let records = parse_json_lines(body);
    assert_eq!(records.len(), 2);
    assert_eq!(records[0], json_value("{\"a\":1}"));
    assert_eq!(records[1], json_value("{\"b\":2}"));
}

#[test]
fn jsonl_decode_drops_malformed_lines() {
    let body = b"{\"a\":1}\nnot json\n{\"b\":2}\n";
    match decode_body(Some("application/jsonl"), body).unwrap() {
        DecodedBody::JsonLines(vs) => {
            assert_eq!(vs.len(), 2);
            assert_eq!(vs[0], json_value("{\"a\":1}"));
            assert_eq!(vs[1], json_value("{\"b\":2}"));
        },
        other => panic!("expected records, got {other:?}"),
    }
}

#[test]
fn strict_json_decodes_or_fails() {
    let ok = decode_body(Some("application/json"), b"{\"k\":[1,2]}").unwrap();
    match ok {
        DecodedBody::Json(v) => assert_eq!(v, json_value("{\"k\":[1,2]}")),
        other => panic!("expected a document, got {other:?}"),
    }
    let err = decode_body(Some("application/json"), b"{broken").unwrap_err();
    assert_eq!(err, DecodeError::InvalidJson);
}

#[test]
fn csv_maps_rows_to_objects() {
    let body = b"name,count\nalpha,1\nbeta,2\n";
    match decode_body(Some("text/csv"), body).unwrap() {
        DecodedBody::Structured(JsonValue::Arr(rows)) => {
            assert_eq!(rows.len(), 2);
            match &rows[0] {
                JsonValue::Obj(fields) => {
                    assert_eq!(fields[0].0, "name");
                    assert!(matches!(&fields[0].1, JsonValue::Str(s) if s == "alpha"));
                    assert_eq!(fields[1].0, "count");
                    assert!(matches!(&fields[1].1, JsonValue::Str(s) if s == "1"));
                },
                other => panic!("expected a row object, got {other:?}"),
            }
        },
        other => panic!("expected rows, got {other:?}"),
    }
}

#[test]
fn csv_falls_back_to_text_when_a_row_fails_to_map() {
    let body = b"name,count\nalpha,1,extra\n";
    match decode_body(Some("text/csv"), body).unwrap() {
        DecodedBody::Text(t) => assert_eq!(t, "name,count\nalpha,1,extra\n"),
        other => panic!("expected the body as text, got {other:?}"),
    }
}

#[test]
fn xml_decodes_a_single_element() {
    let body = b"<result>all good</result>";
    match decode_body(Some("application/xml"), body).unwrap() {
        DecodedBody::Structured(JsonValue::Obj(fields)) => {
            assert_eq!(fields.len(), 1);
            assert_eq!(fields[0].0, "result");
            assert!(matches!(&fields[0].1, JsonValue::Str(s) if s == "all good"));
        },
        other => panic!("expected an element, got {other:?}"),
    }
}

#[test]
fn xml_falls_back_to_text_when_it_does_not_map() {
    let body = b"<a><b>nested</b></a>";
    match decode_body(Some("application/xml"), body).unwrap() {
        DecodedBody::Text(t) => assert_eq!(t, "<a><b>nested</b></a>"),
        other => panic!("expected the body as text, got {other:?}"),
    }
}

#[test]
fn unknown_content_is_read_as_text() {
    match decode_body(None, b"hello there").unwrap() {
        DecodedBody::Text(t) => assert_eq!(t, "hello there"),
        other => panic!("expected text, got {other:?}"),
    }
    // Invalid UTF-8 is replaced, never an error.
    match decode_body(Some("text/plain"), &[0x68u8, 0xff, 0x69]).unwrap() {
        DecodedBody::Text(t) => assert_eq!(t, "h\u{fffd}i"),
        other => panic!("expected text, got {other:?}"),
    }
}

#[test]
fn empty_csv_body_falls_back_to_text() {
    match decode_body(Some("text/csv"), b"").unwrap() {
        DecodedBody::Text(t) => assert_eq!(t, ""),
        other => panic!("expected empty text, got {other:?}"),
    }
}

#[test]
fn header_only_csv_maps_to_an_empty_array() {
    match decode_body(Some("text/csv"), b"name,count\n").unwrap() {
        DecodedBody::Structured(JsonValue::Arr(rows)) => assert_eq!(rows.len(), 0),
        other => panic!("expected an empty array, got {other:?}"),
    }
}

#[test]
fn xml_with_attributes_falls_back_to_text() {
    let body = b"<a href=\"x\">text</a>";
    match decode_body(Some("application/xml"), body).unwrap() {
        DecodedBody::Text(t) => assert_eq!(t, "<a href=\"x\">text</a>"),
        other => panic!("expected text, got {other:?}"),
    }
}

#[test]
fn empty_jsonl_body_yields_no_records() {
    let records = parse_json_lines(b"");
    assert_eq!(records.len(), 0);
    let records = parse_json_lines(b"\n\n");
    assert_eq!(records.len(), 0);
}

#[test]
fn windows_line_endings_still_parse() {
    let records = parse_json_lines(b"{\"a\":1}\r\n{\"b\":2}\r\n");
    assert_eq!(records.len(), 2);
}
