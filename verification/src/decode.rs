//! The response decoder: the `Content-Type` header, lower-cased and
//! matched by substring, picks the parser. Strict JSON is the one format
//! that may fail the decode; every other format degrades to plain text
//! rather than lose the response.

use vstd::prelude::*;
use vstd::string::StringSliceAdditionalSpecFns;

use crate::encode::fields_model;
use crate::json::json_parse;
use crate::json::parse_json_bytes;
use crate::json::utf8_lossy;
use crate::json::utf8_lossy_of;
use crate::json::{JsonData, JsonValue};
use crate::lines::find_byte;
use crate::lines::first_sep;
use crate::lines::lines_model;
use crate::lines::split_sep;
use crate::lines::split_sep_bytes;
use crate::text::bytes_contains;
use crate::text::contains_seq;
use crate::text::lower_bytes;
use crate::text::lower_seq;

verus! {

/// The parser a response body is routed to.
#[derive(Debug, Clone, Copy, PartialEq, Eq, Structural)]
pub enum BodyKind {
    /// One JSON document.
    Json,
    /// Newline-delimited JSON records.
    JsonLines,
    /// Comma-separated rows.
    Csv,
    /// An XML document.
    Xml,
    /// Plain text.
    Text,
}

/// The bytes of `jsonl`.
pub open spec fn jsonl_token() -> Seq<u8> {
    seq![106u8, 115u8, 111u8, 110u8, 108u8]
}

/// The bytes of `ndjson`.
pub open spec fn ndjson_token() -> Seq<u8> {
    seq![110u8, 100u8, 106u8, 115u8, 111u8, 110u8]
}

/// The bytes of `json`.
pub open spec fn json_token() -> Seq<u8> {
    seq![106u8, 115u8, 111u8, 110u8]
}

/// The bytes of `csv`.
pub open spec fn csv_token() -> Seq<u8> {
    seq![99u8, 115u8, 118u8]
}

/// The bytes of `xml`.
pub open spec fn xml_token() -> Seq<u8> {
    seq![120u8, 109u8, 108u8]
}

/// Which parser a declared content type routes to: the header is
/// lower-cased and matched by substring, so parameters after the media
/// type and upper-case spellings change nothing. The line-delimited
/// spellings are tested before `json`, which both contain; an absent
/// header falls back to plain text.
pub open spec fn classify_spec(ct: Option<Seq<u8>>) -> BodyKind {
    match ct {
        None => BodyKind::Text,
        Some(raw) => {
            let lc = lower_seq(raw);
            if contains_seq(lc, jsonl_token()) || contains_seq(lc, ndjson_token()) {
                BodyKind::JsonLines
            } else if contains_seq(lc, json_token()) {
                BodyKind::Json
            } else if contains_seq(lc, csv_token()) {
                BodyKind::Csv
            } else if contains_seq(lc, xml_token()) {
                BodyKind::Xml
            } else {
                BodyKind::Text
            }
        },
    }
}

/// The view of an optional content-type header, as bytes.
pub open spec fn ct_view(ct: Option<&str>) -> Option<Seq<u8>> {
    match ct {
        Some(s) => Some(s.spec_bytes()),
        None => None,
    }
}

/// Route a declared content type to its parser.
pub fn classify_content_type(ct: Option<&str>) -> (r: BodyKind)
    ensures
        r == classify_spec(ct_view(ct)),
{
    match ct {
        None => BodyKind::Text,
        Some(s) => {
            let lc = lower_bytes(s.as_bytes());
            let jsonl: [u8; 5] = [106, 115, 111, 110, 108];
            let ndjson: [u8; 6] = [110, 100, 106, 115, 111, 110];
            let json: [u8; 4] = [106, 115, 111, 110];
            let csv: [u8; 3] = [99, 115, 118];
            let xml: [u8; 3] = [120, 109, 108];
            proof {
                assert(jsonl@ =~= jsonl_token());
                assert(ndjson@ =~= ndjson_token());
                assert(json@ =~= json_token());
                assert(csv@ =~= csv_token());
                assert(xml@ =~= xml_token());
            }
            if bytes_contains(&lc, jsonl.as_slice()) || bytes_contains(&lc, ndjson.as_slice()) {
                BodyKind::JsonLines
            } else if bytes_contains(&lc, json.as_slice()) {
                BodyKind::Json
            } else if bytes_contains(&lc, csv.as_slice()) {
                BodyKind::Csv
            } else if bytes_contains(&lc, xml.as_slice()) {
                BodyKind::Xml
            } else {
                BodyKind::Text
            }
        },
    }
}

/// The records a sequence of lines yields: each line that parses as JSON
/// contributes its value, in order; a line that does not parse is
/// dropped and is no error.
pub open spec fn parsed_records(lines: Seq<Seq<u8>>) -> Seq<serde_json::Value>
    decreases lines.len(),
{
    if lines.len() == 0 {
        Seq::empty()
    } else {
        (match json_parse(lines[0]) {
            Some(v) => seq![v],
            None => Seq::empty(),
        }) + parsed_records(lines.drop_first())
    }
}

/// Parse each given line as JSON, keeping the values of the lines that
/// parse, in order.
pub fn parse_lines(lines: &Vec<Vec<u8>>) -> (r: Vec<serde_json::Value>)
    ensures
        r@ == parsed_records(lines_model(*lines)),
{
    let ghost lm = lines_model(*lines);
    let n = lines.len();
    let mut out: Vec<serde_json::Value> = Vec::new();
    let mut i: usize = 0;
    proof {
        assert(lm.skip(0) =~= lm);
    }
    while i < n
        invariant
            n == lines@.len(),
            lm == lines_model(*lines),
            0 <= i <= n,
            parsed_records(lm) == out@ + parsed_records(lm.skip(i as int)),
        decreases n - i,
    {
        let ghost out_before = out@;
        proof {
            assert(lm.skip(i as int)[0] == lm[i as int]);
            assert(lm.skip(i as int).drop_first() =~= lm.skip(i as int + 1));
        }
        match parse_json_bytes(lines[i].as_slice()) {
            Some(v) => {
                out.push(v);
                proof {
                    assert(out@ =~= out_before + seq![v]);
                    assert(out@ + parsed_records(lm.skip(i as int + 1)) =~= parsed_records(lm));
                }
            },
            None => {
                proof {
                    assert(out@ + parsed_records(lm.skip(i as int + 1)) =~= parsed_records(lm));
                }
            },
        }
        i += 1;
    }
    proof {
        assert(lm.skip(n as int) =~= Seq::<Seq<u8>>::empty());
        assert(out@ =~= parsed_records(lm));
    }
    out
}

/// The records of a newline-delimited JSON body, in order; malformed
/// lines are dropped, never an error.
pub open spec fn jsonl_records(b: Seq<u8>) -> Seq<serde_json::Value> {
    parsed_records(split_sep(b, 10))
}

/// Parse a newline-delimited JSON body.
pub fn parse_json_lines(body: &[u8]) -> (r: Vec<serde_json::Value>)
    ensures
        r@ == jsonl_records(body@),
{
    let lines = split_sep_bytes(body, 10);
    parse_lines(&lines)
}

/// The rows of a CSV body: the newline-split pieces, with the empty piece
/// of a trailing newline dropped.
pub open spec fn csv_rows(b: Seq<u8>) -> Seq<Seq<u8>> {
    let rows = split_sep(b, 10);
    if rows.last().len() == 0 {
        rows.drop_last()
    } else {
        rows
    }
}

/// The cells of one CSV row.
pub open spec fn csv_cells(row: Seq<u8>) -> Seq<Seq<u8>> {
    split_sep(row, 44)
}

/// A CSV body maps cleanly: there is a header row, and every data row has
/// exactly as many cells.
pub open spec fn csv_shape_ok(b: Seq<u8>) -> bool {
    let rows = csv_rows(b);
    rows.len() >= 1 && forall|i: int|
        1 <= i < rows.len() ==> csv_cells(#[trigger] rows[i]).len() == csv_cells(rows[0]).len()
}

/// One data row as an object: the header cells give the keys, the row
/// cells the values, both decoded as text.
pub open spec fn csv_row_obj(header: Seq<Seq<u8>>, row: Seq<u8>) -> JsonData {
    JsonData::Obj(
        Seq::new(
            header.len(),
            |i: int| (utf8_lossy_of(header[i]), JsonData::Str(utf8_lossy_of(csv_cells(row)[i]))),
        ),
    )
}

/// The value of a CSV body that maps cleanly: one object per data row;
/// nothing when any row fails to map.
pub open spec fn csv_data_spec(b: Seq<u8>) -> Option<JsonData> {
    if csv_shape_ok(b) {
        let rows = csv_rows(b);
        let header = csv_cells(rows[0]);
        Some(
            JsonData::Arr(
                Seq::new((rows.len() - 1) as nat, |i: int| csv_row_obj(header, rows[i + 1])),
            ),
        )
    } else {
        None
    }
}

/// Parse a CSV body into one object per data row; a body that does not
/// map cleanly yields nothing, and the caller falls back to plain text.
pub fn parse_csv(body: &[u8]) -> (r: Option<JsonValue>)
    ensures
        csv_data_spec(body@) matches Some(d) ==> (r matches Some(v) && v.model() == d),
        csv_data_spec(body@) is None ==> r is None,
{
    let mut rows = split_sep_bytes(body, 10);
    let last_idx = rows.len() - 1;
    if rows[last_idx].len() == 0 {
        rows.pop();
    }
    proof {
        assert(lines_model(rows) =~= csv_rows(body@));
    }
    let ghost rs = csv_rows(body@);
    let rn = rows.len();
    if rn == 0 {
        return None;
    }
    let header_cells = split_sep_bytes(rows[0].as_slice(), 44);
    let ghost header = csv_cells(rs[0]);
    proof {
        assert(lines_model(header_cells) == header);
    }
    let hn = header_cells.len();
    let mut items: Vec<JsonValue> = Vec::new();
    let mut i: usize = 1;
    while i < rn
        invariant
            rn == rows@.len(),
            rs == csv_rows(body@),
            rs == lines_model(rows),
            rs.len() >= 1,
            header == csv_cells(rs[0]),
            hn == header.len(),
            hn == header_cells@.len(),
            lines_model(header_cells) == header,
            1 <= i <= rn,
            forall|j: int| 1 <= j < i ==> csv_cells(rs[j]).len() == hn,
            items@.len() == i - 1,
            forall|j: int| 0 <= j < i - 1 ==> items@[j].model() == csv_row_obj(header, rs[j + 1]),
        decreases rn - i,
    {
        let cells = split_sep_bytes(rows[i].as_slice(), 44);
        proof {
            assert(lines_model(cells) == csv_cells(rs[i as int]));
        }
        if cells.len() != hn {
            proof {
                assert(csv_cells(csv_rows(body@)[i as int]).len() != csv_cells(
                    csv_rows(body@)[0],
                ).len());
                assert(!csv_shape_ok(body@));
            }
            return None;
        }
        let mut fobj: Vec<(String, JsonValue)> = Vec::new();
        let mut j: usize = 0;
        while j < hn
            invariant
                hn == header_cells@.len(),
                hn == header.len(),
                lines_model(header_cells) == header,
                hn == cells@.len(),
                lines_model(cells) == csv_cells(rs[i as int]),
                rs == lines_model(rows),
                i < rows@.len(),
                0 <= j <= hn,
                fobj@.len() == j,
                forall|k: int| 0 <= k < j ==> fobj@[k].0@ == utf8_lossy_of(header[k])
                    && fobj@[k].1.model() == JsonData::Str(utf8_lossy_of(csv_cells(rs[i as int])[k])),
            decreases hn - j,
        {
            let key = utf8_lossy(header_cells[j].as_slice());
            let val = utf8_lossy(cells[j].as_slice());
            fobj.push((key, JsonValue::Str(val)));
            j += 1;
        }
        proof {
            crate::encode::lemma_obj_model(fobj);
            assert(fields_model(fobj) =~= Seq::new(
                header.len(),
                |k: int| (utf8_lossy_of(header[k]), JsonData::Str(
                    utf8_lossy_of(csv_cells(rs[i as int])[k]),
                )),
            ));
        }
        items.push(JsonValue::Obj(fobj));
        i += 1;
    }
    proof {
        assert(csv_shape_ok(body@));
        crate::encode::lemma_arr_model(items);
        assert(crate::encode::items_model(items) =~= Seq::new(
            (rs.len() - 1) as nat,
            |k: int| csv_row_obj(header, rs[k + 1]),
        ));
    }
    Some(JsonValue::Arr(items))
}

/// The value of an XML body of the one supported shape, a single element
/// holding text: the decoder is deliberately conservative, and any other
/// shape falls back to plain text.
pub open spec fn xml_data_spec(b: Seq<u8>) -> Option<JsonData> {
    let i = first_sep(b, 62) as int;
    let tag = b.subrange(1, i);
    let close_len = i + 2;
    let text = b.subrange(i + 1, b.len() - close_len);
    if b.len() >= 1 && b[0] == 60 && 1 < i && i < b.len() && (forall|k: int|
        0 <= k < tag.len() ==> tag[k] != 60) && b.len() >= i + 1 + close_len && b.subrange(
        b.len() - close_len,
        b.len() as int,
    ) == seq![60u8, 47u8] + tag + seq![62u8] && (forall|k: int|
        0 <= k < text.len() ==> text[k] != 60) {
        Some(JsonData::Obj(seq![(utf8_lossy_of(tag), JsonData::Str(utf8_lossy_of(text)))]))
    } else {
        None
    }
}

/// Parse an XML body of the one supported shape; anything else yields
/// nothing, and the caller falls back to plain text.
pub fn parse_xml(body: &[u8]) -> (r: Option<JsonValue>)
    ensures
        xml_data_spec(body@) matches Some(d) ==> (r matches Some(v) && v.model() == d),
        xml_data_spec(body@) is None ==> r is None,
{
    let n = body.len();
    if n == 0 {
        return None;
    }
    if body[0] != 60 {
        return None;
    }
    let i = find_byte(body, 62);
    if i <= 1 || i >= n {
        return None;
    }
    let tag = &body[1..i];
    if find_byte(tag, 60) != tag.len() {
        proof {
            crate::lines::lemma_first_sep(tag@, 60);
        }
        return None;
    }
    let rem = n - i - 1;
    if rem < 2 || rem - 2 < i {
        return None;
    }
    let close_len = i + 2;
    let mut closing: Vec<u8> = Vec::new();
    closing.push(60);
    closing.push(47);
    let mut k: usize = 0;
    let tn = tag.len();
    while k < tn
        invariant
            tn == tag@.len(),
            0 <= k <= tn,
            closing@ =~= seq![60u8, 47u8] + tag@.subrange(0, k as int),
        decreases tn - k,
    {
        closing.push(tag[k]);
        k += 1;
    }
    closing.push(62);
    proof {
        assert(tag@.subrange(0, tn as int) =~= tag@);
        assert(closing@ =~= seq![60u8, 47u8] + tag@ + seq![62u8]);
    }
    let suffix = &body[n - close_len..n];
    if !crate::text::bytes_eq(suffix, closing.as_slice()) {
        return None;
    }
    let text = &body[i + 1..n - close_len];
    if find_byte(text, 60) != text.len() {
        proof {
            crate::lines::lemma_first_sep(text@, 60);
        }
        return None;
    }
    proof {
        crate::lines::lemma_first_sep(text@, 60);
    }
    let tag_str = utf8_lossy(tag);
    let text_str = utf8_lossy(text);
    let mut fobj: Vec<(String, JsonValue)> = Vec::new();
    fobj.push((tag_str, JsonValue::Str(text_str)));
    proof {
        crate::encode::lemma_obj_model(fobj);
        assert(fields_model(fobj) =~= seq![
            (utf8_lossy_of(tag@), JsonData::Str(utf8_lossy_of(text@))),
        ]);
    }
    Some(JsonValue::Obj(fobj))
}

/// What the decoder yields.
#[derive(Debug)]
pub enum DecodedBody {
    /// The parsed document of a JSON body.
    Json(serde_json::Value),
    /// The parsed records of a line-delimited body, in order.
    JsonLines(Vec<serde_json::Value>),
    /// A body the library re-encoded itself, from CSV rows or an XML
    /// element.
    Structured(JsonValue),
    /// The body as text.
    Text(String),
}

/// The one way a decode fails: a body declared as strict JSON that does
/// not parse, since no fallback would preserve its structure.
#[derive(Debug, Clone, Copy, PartialEq, Eq, Structural)]
pub enum DecodeError {
    InvalidJson,
}

/// Decode a response body as its declared content type directs: strict
/// JSON fails on a malformed body; line-delimited JSON drops malformed
/// lines; CSV and XML fall back to plain text when they do not map; and
/// anything else is read as text, so no response is ever lost.
pub fn decode_body(content_type: Option<&str>, body: &[u8]) -> (r: Result<DecodedBody, DecodeError>)
    ensures
        classify_spec(ct_view(content_type)) == BodyKind::Json ==> (match json_parse(body@) {
            Some(v) => r == Ok::<DecodedBody, DecodeError>(DecodedBody::Json(v)),
            None => r == Err::<DecodedBody, DecodeError>(DecodeError::InvalidJson),
        }),
        classify_spec(ct_view(content_type)) == BodyKind::JsonLines ==> (r matches Ok(b)
            && b matches DecodedBody::JsonLines(vs) && vs@ == jsonl_records(body@)),
        classify_spec(ct_view(content_type)) == BodyKind::Csv ==> (match csv_data_spec(body@) {
            Some(d) => r matches Ok(b) && b matches DecodedBody::Structured(v) && v.model() == d,
            None => r matches Ok(b) && b matches DecodedBody::Text(t) && t@ == utf8_lossy_of(
                body@,
            ),
        }),
        classify_spec(ct_view(content_type)) == BodyKind::Xml ==> (match xml_data_spec(body@) {
            Some(d) => r matches Ok(b) && b matches DecodedBody::Structured(v) && v.model() == d,
            None => r matches Ok(b) && b matches DecodedBody::Text(t) && t@ == utf8_lossy_of(
                body@,
            ),
        }),
        classify_spec(ct_view(content_type)) == BodyKind::Text ==> (r matches Ok(b)
            && b matches DecodedBody::Text(t) && t@ == utf8_lossy_of(body@)),
{
    match classify_content_type(content_type) {
        BodyKind::Json => match parse_json_bytes(body) {
            Some(v) => Ok(DecodedBody::Json(v)),
            None => Err(DecodeError::InvalidJson),
        },
        BodyKind::JsonLines => Ok(DecodedBody::JsonLines(parse_json_lines(body))),
        BodyKind::Csv => match parse_csv(body) {
            Some(v) => Ok(DecodedBody::Structured(v)),
            None => Ok(DecodedBody::Text(utf8_lossy(body))),
        },
        BodyKind::Xml => match parse_xml(body) {
            Some(v) => Ok(DecodedBody::Structured(v)),
            None => Ok(DecodedBody::Text(utf8_lossy(body))),
        },
        BodyKind::Text => Ok(DecodedBody::Text(utf8_lossy(body))),
    }
}

/// The records of joined line sequences are the joined records.
pub proof fn lemma_parsed_records_append(a: Seq<Seq<u8>>, b: Seq<Seq<u8>>)
    ensures
        parsed_records(a + b) == parsed_records(a) + parsed_records(b),
    decreases a.len(),
{
    if a.len() == 0 {
        assert(a + b =~= b);
        assert(parsed_records(a) =~= Seq::<serde_json::Value>::empty());
        assert(parsed_records(a) + parsed_records(b) =~= parsed_records(b));
    } else {
        assert((a + b)[0] == a[0]);
        assert((a + b).len() > 0);
        assert((a + b).drop_first() =~= a.drop_first() + b);
        lemma_parsed_records_append(a.drop_first(), b);
        let head = (match json_parse(a[0]) {
            Some(v) => seq![v],
            None => Seq::<serde_json::Value>::empty(),
        });
        assert(parsed_records(a + b) == head + (parsed_records(a.drop_first())
            + parsed_records(b)));
        assert(parsed_records(a) == head + parsed_records(a.drop_first()));
        assert(head + (parsed_records(a.drop_first()) + parsed_records(b)) =~= (head
            + parsed_records(a.drop_first())) + parsed_records(b));
    }
}

/// The substring match is case-insensitive: a content-type header routes
/// exactly as its lower-case spelling does.
pub proof fn lemma_classify_case_insensitive(raw: Seq<u8>)
    ensures
        classify_spec(Some(raw)) == classify_spec(Some(lower_seq(raw))),
{
    crate::text::lemma_lower_seq_idempotent(raw);
}

} // verus!
