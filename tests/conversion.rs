use fiox::csv_rows::{csv_header_line, csv_record_line, table_record};
use fiox::escape::{escape, escape_bytes, write_quoted};
use fiox::field::{number_shaped, unquoted, write_field};
use fiox::shape::{
    check_shape, decoded_shape, format_from_extension, plan_conversion, required_shape,
    ConvertError, Endpoint, Format, Shape,
};
use fiox::table::{finish_json_table, start_json_table, CsvRecord, TableEncoder};
use fiox::toml_table::{finish_toml_table, start_toml_table, write_toml_record, write_toml_string};
use fiox::values::{
    blank_line, json_decoder, json_document, ndjson_decode_line, ndjson_value_line,
    to_json_value, toml_decoder, toml_document, toml_values_document, validate_json,
    validate_toml, DataTypes,
};

fn fields(row: &[&str]) -> Vec<Vec<u8>> {
    row.iter().map(|f| f.as_bytes().to_vec()).collect()
}

fn finite_flags(row: &[Vec<u8>]) -> Vec<bool> {
    row.iter()
        .map(|f| {
            std::str::from_utf8(f)
                .ok()
                .and_then(|s| s.parse::<f64>().ok())
                .is_some_and(|x| x.is_finite())
        })
        .collect()
}

fn ndjson_table(headers: &[&str], rows: &[&[&str]], parse_numbers: bool) -> String {
    let enc = TableEncoder::new(fields(headers), parse_numbers);
    let mut out = Vec::new();
    for row in rows {
        let rec = CsvRecord { fields: fields(row) };
        let finite = finite_flags(&rec.fields);
        enc.write_ndjson_record(&rec, &finite, &mut out);
    }
    String::from_utf8(out).unwrap()
}

#[test]
fn escape_special_bytes() {
    let cases: [(u8, &[u8]); 5] = [
        (b'\\', b"\\\\"),
        (b'"', b"\\\""),
        (b'\n', b"\\n"),
        (b'\r', b"\\r"),
        (b'\t', b"\\t"),
    ];
    for (b, expected) in cases {
        let mut out = Vec::new();
        escape(b, &mut out);
        assert_eq!(out, expected.to_vec());
    }
}

#[test]
fn escape_other_bytes_unchanged() {
    for b in 0u8..=255 {
        if matches!(b, b'\\' | b'"' | b'\n' | b'\r' | b'\t') {
            continue;
        }
        let mut out = vec![b'x'];
        escape(b, &mut out);
        assert_eq!(out, vec![b'x', b]);
    }
}

#[test]
fn escape_bytes_copies_runs() {
    let mut out = b"<".to_vec();
    escape_bytes(b"ab\"cd\\e\n\r\tf", &mut out);
    assert_eq!(out, b"<ab\\\"cd\\\\e\\n\\r\\tf".to_vec());
    let mut empty = Vec::new();
    escape_bytes(b"", &mut empty);
    assert!(empty.is_empty());
}

#[test]
fn quoted_field_s3() {
    let mut out = Vec::new();
    write_quoted(b"a\"b\nc", &mut out);
    assert_eq!(out, b"\"a\\\"b\\nc\"".to_vec());
    let line = ndjson_table(&["x"], &[&["a\"b\nc"]], false);
    assert!(line.contains("\"a\\\"b\\nc\""));
}

#[test]
fn csv_to_ndjson_with_numbers_s2() {
    let out = ndjson_table(&["name", "age"], &[&["Ada", "36"], &["Grace", " 85"]], true);
    assert_eq!(out, "{\"name\": \"Ada\", \"age\": 36}\n{\"name\": \"Grace\", \"age\": \" 85\"}\n");
}

#[test]
fn number_policy_cases() {
    let cases: [(&str, bool, bool, bool); 12] = [
        ("true", false, false, true),
        ("false", false, false, true),
        ("null", false, false, true),
        ("True", false, false, false),
        ("36", false, true, false),
        ("36", true, true, true),
        ("007", true, true, true),
        ("-1.5e3", true, true, true),
        ("+0", true, true, true),
        ("1.", true, true, false),
        ("", true, false, false),
        ("1e400", true, false, false),
    ];
    for (v, parse_numbers, finite, expected) in cases {
        assert_eq!(unquoted(v.as_bytes(), parse_numbers, finite), expected, "{v}");
    }
    assert!(number_shaped(b"-3"));
    assert!(!number_shaped(b"3a"));
    assert!(!number_shaped(b" 85"));
}

#[test]
fn write_field_exact_text() {
    let mut out = Vec::new();
    write_field(b"007", true, true, &mut out);
    write_field(b"x", true, false, &mut out);
    write_field(b"null", false, false, &mut out);
    assert_eq!(out, b"007\"x\"null".to_vec());
}

#[test]
fn csv_fields_survive_ndjson() {
    let row = ["plain", "q\"uote", "back\\slash", "tab\tnl\ncr\r", "", "true", "12"];
    let headers = ["a", "b", "c", "d", "e", "f", "g"];
    let line = ndjson_table(&headers, &[&row], false);
    let parsed: serde_json::Value = serde_json::from_str(line.trim_end()).unwrap();
    for (h, v) in headers.iter().zip(row.iter()) {
        let got = &parsed[*h];
        let text = match got {
            serde_json::Value::String(s) => s.clone(),
            other => other.to_string(),
        };
        assert_eq!(&text, v);
    }
}

#[test]
fn header_escaped_once() {
    let out = ndjson_table(&["we\"ird"], &[&["1"], &["2"]], true);
    assert_eq!(out, "{\"we\\\"ird\": 1}\n{\"we\\\"ird\": 2}\n");
}

#[test]
fn short_row_pairs_in_order() {
    let out = ndjson_table(&["a", "b", "c"], &[&["1", "2"]], false);
    assert_eq!(out, "{\"a\": \"1\", \"b\": \"2\"}\n");
}

#[test]
fn json_table_pretty() {
    let enc = TableEncoder::new(fields(&["n", "v"]), true);
    let mut out = Vec::new();
    start_json_table(&mut out);
    let rows = [["a", "1"], ["b", "x"]];
    for (i, row) in rows.iter().enumerate() {
        let rec = CsvRecord { fields: fields(row) };
        let finite = finite_flags(&rec.fields);
        enc.write_json_record(i == 0, &rec, &finite, &mut out);
    }
    finish_json_table(true, &mut out);
    let text = String::from_utf8(out).unwrap();
    assert_eq!(
        text,
        "[\n  {\n    \"n\": \"a\",\n    \"v\": 1\n  },\n  {\n    \"n\": \"b\",\n    \"v\": \"x\"\n  }\n]\n"
    );
    let parsed: serde_json::Value = serde_json::from_str(&text).unwrap();
    assert_eq!(parsed[1]["v"], serde_json::Value::String("x".to_string()));
}

#[test]
fn json_table_empty() {
    let mut out = Vec::new();
    start_json_table(&mut out);
    finish_json_table(false, &mut out);
    assert_eq!(out, b"[]\n".to_vec());
}

#[test]
fn json_array_to_ndjson_s1() {
    let values = json_decoder(br#"[{"a":1},{"a":2}]"#).unwrap();
    let mut out = Vec::new();
    for v in values {
        out.extend(ndjson_value_line(DataTypes::Json(v)).unwrap());
    }
    assert_eq!(out, b"{\"a\":1}\n{\"a\":2}\n".to_vec());
}

#[test]
fn json_scalar_root_is_one_record() {
    let values = json_decoder(b" {\"k\": [1, 2]} ").unwrap();
    assert_eq!(values.len(), 1);
    assert_eq!(values[0]["k"][1], serde_json::Value::from(2));
}

#[test]
fn json_round_trip() {
    let input = br#"{"b":[1,2.5,"x",null,true],"a":{"c":-3}}"#;
    let values = json_decoder(input).unwrap();
    let doc = json_document(&values, Shape::Values);
    let again: serde_json::Value = serde_json::from_slice(&doc).unwrap();
    let original: serde_json::Value = serde_json::from_slice(input).unwrap();
    assert_eq!(again, original);
    assert_eq!(*doc.last().unwrap(), b'\n');
}

#[test]
fn json_document_array_for_many_values() {
    let values = json_decoder(b"[1,2]").unwrap();
    let doc = json_document(&values, Shape::Values);
    assert_eq!(String::from_utf8(doc).unwrap(), "[\n  1,\n  2\n]\n");
    let one = vec![serde_json::Value::from(7)];
    let as_values = json_document(&one, Shape::Values);
    assert_eq!(as_values, b"7\n".to_vec());
    let as_lines = json_document(&one, Shape::Ndjson);
    assert_eq!(String::from_utf8(as_lines).unwrap(), "[\n  7\n]\n");
}

#[test]
fn ndjson_lines() {
    assert!(blank_line(b" \t\r"));
    assert!(!blank_line(b" x"));
    assert!(matches!(ndjson_decode_line(b"", 1), Ok(None)));
    assert!(matches!(ndjson_decode_line(b"\r", 2), Ok(None)));
    let v = ndjson_decode_line(b"{\"a\":1}", 3).unwrap().unwrap();
    assert_eq!(v["a"], serde_json::Value::from(1));
    match ndjson_decode_line(b"{oops", 4) {
        Err(ConvertError::Decode { line, .. }) => assert_eq!(line, Some(4)),
        other => panic!("unexpected {other:?}"),
    }
}

#[test]
fn toml_to_json_s6() {
    let doc = toml_decoder(b"title = \"x\"\n[owner]\nname=\"Ada\"".to_vec()).unwrap();
    let json = to_json_value(DataTypes::Toml(doc)).unwrap();
    let out = json_document(&vec![json], Shape::Values);
    let parsed: serde_json::Value = serde_json::from_slice(&out).unwrap();
    let expected: serde_json::Value =
        serde_json::from_str(r#"{"title":"x","owner":{"name":"Ada"}}"#).unwrap();
    assert_eq!(parsed, expected);
}

#[test]
fn toml_to_ndjson() {
    let doc = toml_decoder(b"n = 3".to_vec()).unwrap();
    let line = ndjson_value_line(DataTypes::Toml(doc)).unwrap();
    assert_eq!(line, b"{\"n\":3}\n".to_vec());
}

#[test]
fn toml_decode_error() {
    assert!(matches!(
        toml_decoder(b"= broken".to_vec()),
        Err(ConvertError::Decode { line: None, .. })
    ));
}

#[test]
fn toml_output() {
    let json = json_decoder(br#"{"title":"x"}"#).unwrap().pop().unwrap();
    let text = toml_document(&DataTypes::Json(json)).unwrap();
    assert_eq!(String::from_utf8(text).unwrap(), "title = \"x\"\n");
    let doc = toml_decoder(b"a = 1\n".to_vec()).unwrap();
    let again = toml_document(&DataTypes::Toml(doc)).unwrap();
    assert_eq!(String::from_utf8(again).unwrap(), "a = 1\n");
    let scalar = serde_json::Value::from(3);
    assert!(matches!(toml_document(&DataTypes::Json(scalar)), Err(ConvertError::NotATable)));
    let one = vec![DataTypes::Json(json_decoder(br#"{"a":1}"#).unwrap().pop().unwrap())];
    assert_eq!(toml_values_document(&one).unwrap(), b"a = 1\n".to_vec());
    let two = json_decoder(br#"[{"a":1},{"b":2}]"#).unwrap().into_iter().map(DataTypes::Json).collect();
    assert!(matches!(toml_values_document(&two), Err(ConvertError::DocumentCount { found: 2 })));
    assert!(matches!(toml_values_document(&Vec::new()), Err(ConvertError::DocumentCount { found: 0 })));
}

#[test]
fn validate_s5() {
    assert!(matches!(validate_json(b"{\"a\": }"), Err(ConvertError::Decode { .. })));
    assert!(validate_json(b"[1, 2]").is_ok());
    assert!(validate_toml(b"title = \"x\"\n[owner]\nname = \"Ada\"\n").is_ok());
    assert!(validate_toml(b"title = \n").is_err());
}

#[test]
fn shape_mismatch_s4() {
    let plan = plan_conversion(Some(b"ndjson".as_slice()), Some(b"csv".as_slice()));
    match plan {
        Err(ConvertError::ShapeMismatch { shape, format }) => {
            assert_eq!(shape, Shape::Ndjson);
            assert_eq!(format, Format::Csv);
        }
        other => panic!("unexpected {other:?}"),
    }
    assert_eq!(required_shape(Format::Csv), Some(Shape::Table));
}

#[test]
fn csv_needs_table() {
    for ext in ["json", "toml", "ndjson"] {
        let plan = plan_conversion(Some(ext.as_bytes()), Some(b"csv".as_slice()));
        assert!(matches!(plan, Err(ConvertError::ShapeMismatch { format: Format::Csv, .. })));
    }
    assert!(check_shape(Shape::Values, Format::Csv).is_err());
    assert!(check_shape(Shape::Table, Format::Csv).is_ok());
}

#[test]
fn shape_matrix() {
    let all = [Shape::Values, Shape::Table, Shape::Ndjson];
    let expected = [
        (Format::Json, [true, true, true]),
        (Format::Toml, [true, true, false]),
        (Format::Csv, [false, true, false]),
        (Format::Ndjson, [true, true, true]),
    ];
    for (format, oks) in expected {
        for (shape, ok) in all.iter().zip(oks) {
            assert_eq!(check_shape(*shape, format).is_ok(), ok, "{shape:?} -> {format:?}");
        }
    }
    assert_eq!(decoded_shape(Format::Csv), Shape::Table);
    assert_eq!(decoded_shape(Format::Toml), Shape::Values);
}

#[test]
fn plan_valid_and_extension_errors() {
    let plan = plan_conversion(Some(b"csv".as_slice()), Some(b"json".as_slice())).unwrap();
    assert_eq!(plan.input, Format::Csv);
    assert_eq!(plan.output, Format::Json);
    assert_eq!(plan.shape, Shape::Table);
    assert!(matches!(
        plan_conversion(None, Some(b"json".as_slice())),
        Err(ConvertError::MissingExtension { endpoint: Endpoint::Input })
    ));
    assert!(matches!(
        plan_conversion(Some(b"json".as_slice()), None),
        Err(ConvertError::MissingExtension { endpoint: Endpoint::Output })
    ));
    match plan_conversion(Some(b"yaml".as_slice()), Some(b"json".as_slice())) {
        Err(ConvertError::UnsupportedExtension { endpoint, ext }) => {
            assert_eq!(endpoint, Endpoint::Input);
            assert_eq!(ext, b"yaml".to_vec());
        }
        other => panic!("unexpected {other:?}"),
    }
    assert!(matches!(
        plan_conversion(Some(b"json".as_slice()), Some(b"JSON".as_slice())),
        Err(ConvertError::UnsupportedExtension { endpoint: Endpoint::Output, .. })
    ));
    assert_eq!(format_from_extension(b"toml"), Some(Format::Toml));
    assert_eq!(format_from_extension(b""), None);
}

#[test]
fn csv_output_lines() {
    let header = csv_header_line(&fields(&["name", "note"]));
    assert_eq!(header, b"name,note\n".to_vec());
    let rec = CsvRecord { fields: fields(&["Ada", "a,\"b\""]) };
    let (line, replaced) = csv_record_line(2, &rec);
    assert_eq!(line, b"Ada,\"a,\"\"b\"\"\"\n".to_vec());
    assert!(!replaced);
}

#[test]
fn csv_wrong_arity_written_empty() {
    let rec = CsvRecord { fields: fields(&["only"]) };
    let (line, replaced) = csv_record_line(3, &rec);
    assert_eq!(line, b",,\n".to_vec());
    assert!(replaced);
}

#[test]
fn table_record_arity() {
    let rec = table_record(1, 2, fields(&["a", "b"])).unwrap();
    assert_eq!(rec.fields.len(), 2);
    match table_record(5, 2, fields(&["a"])) {
        Err(ConvertError::FieldCount { line, expected, found }) => {
            assert_eq!((line, expected, found), (5, 2, 1));
        }
        other => panic!("unexpected {:?}", other.map(|r| r.fields)),
    }
}

#[test]
fn toml_string_escapes() {
    let mut out = Vec::new();
    write_toml_string(b"a\"b\\c\nd\te\x01\x7f", &mut out);
    assert_eq!(out, b"\"a\\\"b\\\\c\\nd\\te\\u0001\\u007F\"".to_vec());
}

#[test]
fn csv_table_to_toml() {
    let headers = fields(&["name", "note"]);
    let mut out = Vec::new();
    start_toml_table(Some(b"people".as_slice()), &mut out);
    for row in [["Ada", "x\"y"], ["Grace", "line\nbreak"]] {
        write_toml_record(&headers, &CsvRecord { fields: fields(&row) }, &mut out).unwrap();
    }
    finish_toml_table(&mut out);
    let text = String::from_utf8(out).unwrap();
    assert_eq!(
        text,
        "\"people\" = [\n  { \"name\" = \"Ada\", \"note\" = \"x\\\"y\" },\n  { \"name\" = \"Grace\", \"note\" = \"line\\nbreak\" },\n]\n"
    );
    let parsed: toml::Value = toml::from_str(&text).unwrap();
    assert_eq!(parsed["people"][1]["note"].as_str(), Some("line\nbreak"));
    assert_eq!(parsed["people"][0]["note"].as_str(), Some("x\"y"));
}

#[test]
fn toml_table_default_name() {
    let mut out = Vec::new();
    start_toml_table(None, &mut out);
    finish_toml_table(&mut out);
    assert_eq!(String::from_utf8(out).unwrap(), "\"data\" = [\n]\n");
}

#[test]
fn json_table_quotes_literals() {
    for parse_numbers in [false, true] {
        let enc = TableEncoder::new(fields(&["a", "b", "c"]), parse_numbers);
        let rec = CsvRecord { fields: fields(&["true", "null", "5"]) };
        let mut out = Vec::new();
        enc.write_json_record(true, &rec, &finite_flags(&rec.fields), &mut out);
        let five = if parse_numbers { "5" } else { "\"5\"" };
        assert_eq!(
            String::from_utf8(out).unwrap(),
            format!("\n  {{\n    \"a\": \"true\",\n    \"b\": \"null\",\n    \"c\": {five}\n  }}")
        );
    }
}

#[test]
fn toml_record_refuses_non_utf8() {
    let headers = fields(&["k"]);
    let mut out = b"x".to_vec();
    let rec = CsvRecord { fields: vec![vec![0xff, 0x41]] };
    assert!(matches!(write_toml_record(&headers, &rec, &mut out), Err(ConvertError::NotUtf8)));
    assert_eq!(out, b"x".to_vec());
}
