//! Determinism, the wire round trip, and the binary field codec.

use dot_crocotile::codec::decode_data_uri;
use dot_crocotile::codec::encode_data_uri;
use dot_crocotile::json::JsonData;
use dot_crocotile::load;
use dot_crocotile::ser::to_document;

/// Renders the library's JSON tree back to text through `serde_json`, the
/// way an exporting caller would.
fn json_to_value(d: &JsonData) -> serde_json::Value {
    match d {
        JsonData::Null => serde_json::Value::Null,
        JsonData::Bool(b) => serde_json::Value::Bool(*b),
        JsonData::Num(n) => match n.int {
            Some(i) => serde_json::Value::from(i),
            None => serde_json::Value::from(f32::from_bits(n.bits.unwrap()) as f64),
        },
        JsonData::Str(s) => serde_json::Value::String(String::from_utf8(s.clone()).unwrap()),
        JsonData::Arr(a) => serde_json::Value::Array(a.iter().map(json_to_value).collect()),
        JsonData::Obj(o) => serde_json::Value::Object(
            o.iter().map(|(k, v)| (k.clone(), json_to_value(v))).collect(),
        ),
    }
}

fn sample_document() -> Vec<u8> {
    let texture: Vec<u8> = (0..200u32).map(|i| (i % 256) as u8).collect();
    let skybox: Vec<u8> = b"a small skybox".to_vec();
    let object = ["{\"position\":{\"x\":-0.5,\"y\":0.5,\"z\":0.25},",
        "\"vertices\":[{\"x\":1.5,\"y\":-2.25,\"z\":0.125},{\"x\":0.0,\"y\":3.5,\"z\":-1.0}],",
        "\"faces\":[[0,1,0],[1,0,1]],",
        "\"uvs\":[[{\"x\":0.0,\"y\":0.9375},{\"x\":0.0625,\"y\":1.0},{\"x\":0.5,\"y\":0.5}]]}"]
        .join("");
    format!(
        "{{\"config\":{{\"tilesizeX\":16,\"tilesizeY\":32,\"skybox\":\"data:image/png;base64,{}\"}},\"model\":[{{\"texture\":\"data:image/png;base64,{}\",\"object\":[{}]}}]}}",
        base64::encode_config(&skybox, base64::MIME).replace("\r\n", "\\r\\n"),
        base64::encode_config(&texture, base64::MIME).replace("\r\n", "\\r\\n"),
        object
    )
    .into_bytes()
}

#[test]
fn loading_identical_bytes_twice_is_deterministic() {
    let doc = sample_document();
    let first = load(&doc).expect("should successfully load");
    let second = load(&doc).expect("should successfully load");
    assert_eq!(first, second);
}

#[test]
fn reserializing_and_reloading_yields_an_equal_structure() {
    let doc = sample_document();
    let first = load(&doc).expect("should successfully load");
    let tree = to_document(&first);
    let text = serde_json::to_string(&json_to_value(&tree)).unwrap();
    let second = load(text.as_bytes()).expect("re-serialized document should load");
    assert_eq!(first, second);
}

#[test]
fn encoded_data_uri_decodes_to_the_original_bytes() {
    let data: Vec<u8> = (0..100u32).map(|i| (i * 13 % 256) as u8).collect();
    let field = encode_data_uri(&data);
    assert_ne!(field, data, "the field must carry an encoding, not the raw bytes");
    assert!(field.len() >= 22);
    assert_eq!(Some(data), decode_data_uri(&field));
}

#[test]
fn decode_data_uri_skips_exactly_22_bytes() {
    let field = b"data:image/png;base64,aGVsbG8=";
    assert_eq!(Some(b"hello".to_vec()), decode_data_uri(field));
    let junk_header = b"XXXXXXXXXXXXXXXXXXXXXXaGVsbG8=";
    assert_eq!(Some(b"hello".to_vec()), decode_data_uri(junk_header));
}

#[test]
fn decode_data_uri_rejects_short_fields() {
    assert_eq!(None, decode_data_uri(b""));
    assert_eq!(None, decode_data_uri(b"data:image/png;base64"));
}

#[test]
fn mime_encoding_of_long_data_wraps_and_still_decodes() {
    let data: Vec<u8> = (0..500u32).map(|i| (i * 7 % 256) as u8).collect();
    let field = encode_data_uri(&data);
    assert_eq!(Some(data), decode_data_uri(&field));
}
