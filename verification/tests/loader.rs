//! Loading whole documents: fixture scenarios and error classification.

use dot_crocotile::load;
use dot_crocotile::LoadError;
use dot_crocotile::MapData;

/// A data-URI string for the given payload bytes, with the standard
/// 22-byte header in front of the MIME base64 encoding, escaped for
/// embedding in JSON text (MIME wrapping inserts CR LF pairs).
fn data_uri(payload: &[u8]) -> String {
    let encoded = base64::encode_config(payload, base64::MIME).replace("\r\n", "\\r\\n");
    format!("data:image/png;base64,{}", encoded)
}

/// The texture bytes every fixture embeds, standing in for an image.
fn reference_image() -> Vec<u8> {
    let mut v = Vec::new();
    for i in 0..64u32 {
        v.push((i * 7 % 251) as u8);
    }
    v
}

/// One simple cube-face object, used to pad fixture models.
fn filler_object() -> String {
    "{\"position\":{\"x\":1.5,\"y\":0.0,\"z\":-2.0},\"vertices\":[{\"x\":0.0,\"y\":0.0,\"z\":0.0}],\"faces\":[[0,0,0]],\"uvs\":[[{\"x\":0.0,\"y\":0.0},{\"x\":1.0,\"y\":0.0},{\"x\":1.0,\"y\":1.0}]]}"
        .to_string()
}

/// A small complete document: tilesize 16, one model of 27 objects whose
/// first object has 4 vertices, 2 faces and 2 uv triples.
fn small_document() -> Vec<u8> {
    let first_object = ["{\"position\":{\"x\":-0.5,\"y\":0.5,\"z\":0.0},",
        "\"vertices\":[",
        "{\"x\":-0.5,\"y\":-0.5,\"z\":0.0},",
        "{\"x\":0.5,\"y\":-0.5,\"z\":0.0},",
        "{\"x\":-0.5,\"y\":0.5,\"z\":0.0},",
        "{\"x\":0.5,\"y\":0.5,\"z\":0.0}],",
        "\"faces\":[[0,2,1],[1,2,3]],",
        "\"uvs\":[",
        "[{\"x\":0.0,\"y\":0.9375},{\"x\":0.0625,\"y\":1.0},{\"x\":0.0,\"y\":1.0}],",
        "[{\"x\":0.0625,\"y\":0.9375},{\"x\":0.0625,\"y\":1.0},{\"x\":0.0,\"y\":0.9375}]]}"]
        .join("");
    let mut objects = vec![first_object];
    for _ in 0..26 {
        objects.push(filler_object());
    }
    let doc = format!(
        "{{\"config\":{{\"tilesizeX\":16,\"tilesizeY\":16}},\"model\":[{{\"texture\":\"{}\",\"object\":[{}]}}]}}",
        data_uri(&reference_image()),
        objects.join(",")
    );
    doc.into_bytes()
}

#[test]
fn small_document_loads_with_exact_values() {
    let map: MapData = load(&small_document()).expect("should successfully load");
    assert_eq!(16, map.config.tilesize_x);
    assert_eq!(16, map.config.tilesize_y);
    assert_eq!(None, map.config.skybox);
    assert_eq!(1, map.model.len());

    let model = &map.model[0];
    assert_eq!(reference_image(), model.texture);
    assert_eq!(27, model.object.len());

    let object = &model.object[0];
    assert_eq!(-0.5, f32::from_bits(object.position.x));
    assert_eq!(0.5, f32::from_bits(object.position.y));
    assert_eq!(0.0, f32::from_bits(object.position.z));
    assert_eq!(4, object.vertices.len());
    assert_eq!(2, object.faces.len());
    assert_eq!(2, object.uvs.len());

    let vertice = &object.vertices[0];
    assert_eq!(-0.5, f32::from_bits(vertice.x));
    assert_eq!(-0.5, f32::from_bits(vertice.y));
    assert_eq!(0.0, f32::from_bits(vertice.z));

    let face = &object.faces[0];
    assert_eq!(0, face[0]);
    assert_eq!(2, face[1]);
    assert_eq!(1, face[2]);

    let uv = &object.uvs[0];
    assert_eq!(0.0, f32::from_bits(uv[0].x));
    assert_eq!(0.9375, f32::from_bits(uv[0].y));
    assert_eq!(0.0625, f32::from_bits(uv[1].x));
    assert_eq!(1.0, f32::from_bits(uv[1].y));
    assert_eq!(0.0, f32::from_bits(uv[2].x));
    assert_eq!(1.0, f32::from_bits(uv[2].y));
}

#[test]
fn large_document_keeps_full_float_precision() {
    let object = ["{\"position\":{\"x\":0.0,\"y\":0.0,\"z\":0.0},",
        "\"vertices\":[{\"x\":0.50000000249975,\"y\":-0.000049995000154012814,\"z\":0.875}],",
        "\"faces\":[[0,0,0]],",
        "\"uvs\":[[{\"x\":0.0,\"y\":0.0},{\"x\":0.0,\"y\":0.0},{\"x\":0.0,\"y\":0.0}]]}"]
        .join("");
    let mut objects = vec![object];
    for _ in 0..506 {
        objects.push(filler_object());
    }
    let doc = format!(
        "{{\"config\":{{\"tilesizeX\":16,\"tilesizeY\":16}},\"model\":[{{\"texture\":\"{}\",\"object\":[{}]}}]}}",
        data_uri(b"texture bytes"),
        objects.join(",")
    );
    let map = load(doc.as_bytes()).expect("should successfully load");
    assert_eq!(16, map.config.tilesize_x);
    assert_eq!(1, map.model.len());
    assert_eq!(507, map.model[0].object.len());

    let vertice = &map.model[0].object[0].vertices[0];
    assert_eq!((0.50000000249975f64 as f32).to_bits(), vertice.x);
    assert_eq!((-0.000049995000154012814f64 as f32).to_bits(), vertice.y);
    assert_eq!((0.875f64 as f32).to_bits(), vertice.z);
    assert_eq!(0.50000000249975f64 as f32, f32::from_bits(vertice.x));
}

#[test]
fn unparseable_document_is_a_syntax_error() {
    let err = load(b"{ this is not json").expect_err("should have a parse error here");
    match err {
        LoadError::StructuralError { syntax, .. } => assert!(syntax, "incorrect error flag"),
        _ => panic!("incorrect error type"),
    }
}

#[test]
fn truncated_document_is_a_syntax_error() {
    let err = load(b"{\"config\"").expect_err("should have a parse error here");
    match err {
        LoadError::StructuralError { syntax, .. } => assert!(syntax, "incorrect error flag"),
        _ => panic!("incorrect error type"),
    }
}

fn expect_shape_error(doc: &str) {
    let err = load(doc.as_bytes()).expect_err("should have a shape error here");
    match err {
        LoadError::StructuralError { syntax, .. } => {
            assert!(!syntax, "shape mismatches are not syntax errors")
        },
        _ => panic!("incorrect error type"),
    }
}

#[test]
fn missing_config_is_a_structural_error() {
    expect_shape_error("{}");
}

#[test]
fn missing_tilesize_is_a_structural_error() {
    expect_shape_error("{\"config\":{\"tilesizeX\":16},\"model\":[]}");
}

#[test]
fn missing_model_is_a_structural_error() {
    expect_shape_error("{\"config\":{\"tilesizeX\":16,\"tilesizeY\":16}}");
}

#[test]
fn model_must_be_an_array() {
    expect_shape_error("{\"config\":{\"tilesizeX\":16,\"tilesizeY\":16},\"model\":7}");
}

#[test]
fn tilesize_above_u16_range_is_a_structural_error() {
    expect_shape_error("{\"config\":{\"tilesizeX\":70000,\"tilesizeY\":16},\"model\":[]}");
}

#[test]
fn negative_tilesize_is_a_structural_error() {
    expect_shape_error("{\"config\":{\"tilesizeX\":-1,\"tilesizeY\":16},\"model\":[]}");
}

#[test]
fn fractional_tilesize_is_a_structural_error() {
    expect_shape_error("{\"config\":{\"tilesizeX\":16.5,\"tilesizeY\":16},\"model\":[]}");
}

#[test]
fn largest_tilesize_is_accepted() {
    let map = load(
        b"{\"config\":{\"tilesizeX\":65535,\"tilesizeY\":65535},\"model\":[]}",
    )
    .expect("should successfully load");
    assert_eq!(65535, map.config.tilesize_x);
    assert_eq!(0, map.model.len());
}

fn one_model_document(object_body: &str) -> Vec<u8> {
    format!(
        "{{\"config\":{{\"tilesizeX\":16,\"tilesizeY\":16}},\"model\":[{{\"texture\":\"{}\",\"object\":[{}]}}]}}",
        data_uri(b"tex"),
        object_body
    )
    .into_bytes()
}

fn object_with_faces_and_uvs(faces: &str, uvs: &str) -> String {
    format!(
        "{{\"position\":{{\"x\":0.0,\"y\":0.0,\"z\":0.0}},\"vertices\":[],\"faces\":{},\"uvs\":{}}}",
        faces, uvs
    )
}

#[test]
fn short_triangle_is_a_structural_error() {
    let body = object_with_faces_and_uvs("[[0,1]]", "[]");
    let err = load(&one_model_document(&body)).expect_err("should have a shape error");
    assert!(matches!(err, LoadError::StructuralError { syntax: false, .. }));
}

#[test]
fn long_triangle_is_a_structural_error() {
    let body = object_with_faces_and_uvs("[[0,1,2,3]]", "[]");
    let err = load(&one_model_document(&body)).expect_err("should have a shape error");
    assert!(matches!(err, LoadError::StructuralError { syntax: false, .. }));
}

#[test]
fn triangle_index_above_u8_range_is_a_structural_error() {
    let body = object_with_faces_and_uvs("[[0,1,256]]", "[]");
    let err = load(&one_model_document(&body)).expect_err("should have a shape error");
    assert!(matches!(err, LoadError::StructuralError { syntax: false, .. }));
}

#[test]
fn largest_triangle_index_is_accepted() {
    let body = object_with_faces_and_uvs("[[0,1,255]]", "[]");
    let map = load(&one_model_document(&body)).expect("should successfully load");
    assert_eq!([0, 1, 255], map.model[0].object[0].faces[0]);
}

#[test]
fn wrong_uv_arity_is_a_structural_error() {
    let body = object_with_faces_and_uvs(
        "[]",
        "[[{\"x\":0.0,\"y\":0.0},{\"x\":0.0,\"y\":0.0}]]",
    );
    let err = load(&one_model_document(&body)).expect_err("should have a shape error");
    assert!(matches!(err, LoadError::StructuralError { syntax: false, .. }));
}

#[test]
fn missing_vertex_member_is_a_structural_error() {
    let body = "{\"position\":{\"x\":0.0,\"y\":0.0},\"vertices\":[],\"faces\":[],\"uvs\":[]}";
    let err = load(&one_model_document(body)).expect_err("should have a shape error");
    assert!(matches!(err, LoadError::StructuralError { syntax: false, .. }));
}

#[test]
fn texture_must_be_a_string() {
    let doc = "{\"config\":{\"tilesizeX\":16,\"tilesizeY\":16},\"model\":[{\"texture\":5,\"object\":[]}]}";
    expect_shape_error(doc);
}

#[test]
fn missing_texture_is_a_structural_error() {
    let doc = "{\"config\":{\"tilesizeX\":16,\"tilesizeY\":16},\"model\":[{\"object\":[]}]}";
    expect_shape_error(doc);
}

#[test]
fn bad_texture_payload_is_a_decode_error() {
    let doc = "{\"config\":{\"tilesizeX\":16,\"tilesizeY\":16},\"model\":[{\"texture\":\"data:image/png;base64,!!!!\",\"object\":[]}]}";
    let err = load(doc.as_bytes()).expect_err("should have a decode error here");
    assert!(matches!(err, LoadError::DecodeError { .. }), "incorrect error type");
}

#[test]
fn texture_shorter_than_the_header_is_a_decode_error() {
    let doc = "{\"config\":{\"tilesizeX\":16,\"tilesizeY\":16},\"model\":[{\"texture\":\"short\",\"object\":[]}]}";
    let err = load(doc.as_bytes()).expect_err("should have a decode error here");
    assert!(matches!(err, LoadError::DecodeError { .. }), "incorrect error type");
}

#[test]
fn absent_skybox_loads_as_absent() {
    let map = load(b"{\"config\":{\"tilesizeX\":16,\"tilesizeY\":16},\"model\":[]}")
        .expect("should successfully load");
    assert_eq!(None, map.config.skybox);
}

#[test]
fn present_skybox_is_decoded() {
    let doc = format!(
        "{{\"config\":{{\"tilesizeX\":16,\"tilesizeY\":16,\"skybox\":\"{}\"}},\"model\":[]}}",
        data_uri(b"skybox bytes")
    );
    let map = load(doc.as_bytes()).expect("should successfully load");
    assert_eq!(Some(b"skybox bytes".to_vec()), map.config.skybox);
}

#[test]
fn bad_skybox_payload_is_an_error_not_absence() {
    let doc = "{\"config\":{\"tilesizeX\":16,\"tilesizeY\":16,\"skybox\":\"data:image/png;base64,%%%%\"},\"model\":[]}";
    let err = load(doc.as_bytes()).expect_err("should have a decode error here");
    assert!(matches!(err, LoadError::DecodeError { .. }), "incorrect error type");
}

#[test]
fn skybox_must_be_a_string_when_present() {
    expect_shape_error("{\"config\":{\"tilesizeX\":16,\"tilesizeY\":16,\"skybox\":3},\"model\":[]}");
}

#[test]
fn unknown_members_are_ignored() {
    let map = load(
        b"{\"config\":{\"tilesizeX\":16,\"tilesizeY\":16,\"editor\":\"x\"},\"model\":[],\"extra\":1}",
    )
    .expect("should successfully load");
    assert_eq!(16, map.config.tilesize_y);
}

#[test]
fn payload_with_embedded_line_breaks_decodes() {
    let doc = "{\"config\":{\"tilesizeX\":16,\"tilesizeY\":16,\"skybox\":\"data:image/png;base64,aGVs\\r\\nbG8=\"},\"model\":[]}";
    let map = load(doc.as_bytes()).expect("MIME decoding tolerates line breaks");
    assert_eq!(Some(b"hello".to_vec()), map.config.skybox);
}

#[test]
fn known_base64_payload_decodes_to_exact_bytes() {
    let doc = "{\"config\":{\"tilesizeX\":16,\"tilesizeY\":16,\"skybox\":\"data:image/png;base64,aGVsbG8=\"},\"model\":[]}";
    let map = load(doc.as_bytes()).expect("should successfully load");
    assert_eq!(Some(b"hello".to_vec()), map.config.skybox);
}

#[test]
fn non_object_document_is_a_structural_error() {
    expect_shape_error("3");
    expect_shape_error("[1,2,3]");
    expect_shape_error("\"just a string\"");
    expect_shape_error("null");
}

#[test]
fn deeply_nested_document_errors_instead_of_panicking() {
    let mut doc = String::new();
    for _ in 0..500 {
        doc.push('[');
    }
    for _ in 0..500 {
        doc.push(']');
    }
    let err = load(doc.as_bytes()).expect_err("the parser limits nesting depth");
    assert!(matches!(err, LoadError::StructuralError { .. }));
}
