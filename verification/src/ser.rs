//! Re-serialization to the wire document.
//!
//! Each builder here constructs the wire-shaped JSON tree for one entity,
//! and its contract states the round trip: mapping the built tree back
//! yields exactly the entity it was built from.  Binary fields are
//! re-encoded as data-URI strings through the binary field codec.

use vstd::prelude::*;

use crate::codec::encode_data_uri;
use crate::errors::MapFault;
use crate::json::entries_view;
use crate::json::JsonData;
use crate::json::JsonV;
use crate::json::NumData;
use crate::json::NumV;
use crate::json::jview;
use crate::json::views_of;
use crate::mapper::member;
use crate::mapper::spec_map_config;
use crate::mapper::spec_map_coord;
use crate::mapper::spec_map_document;
use crate::mapper::spec_map_faces;
use crate::mapper::spec_map_faces_from;
use crate::mapper::spec_map_model;
use crate::mapper::spec_map_models;
use crate::mapper::spec_map_models_from;
use crate::mapper::spec_map_object;
use crate::mapper::spec_map_objects;
use crate::mapper::spec_map_objects_from;
use crate::mapper::spec_map_triangle;
use crate::mapper::spec_map_uv;
use crate::mapper::spec_map_uvcoord;
use crate::mapper::spec_map_uvs;
use crate::mapper::spec_map_uvs_from;
use crate::mapper::spec_map_vertex;
use crate::mapper::spec_map_vertices;
use crate::mapper::spec_map_vertices_from;
use crate::map::models_view;
use crate::map::objects_view;
use crate::map::triangles_view;
use crate::map::uvs_view;
use crate::map::Config;
use crate::map::ConfigV;
use crate::map::MapData;
use crate::map::MapDataV;
use crate::map::Model;
use crate::map::ModelV;
use crate::map::Object;
use crate::map::ObjectV;
use crate::map::Triangle;
use crate::map::UVCoord;
use crate::map::Vertex;
use crate::map::UV;

verus! {

/// Builds the wire object for a vertex; mapping it back yields the vertex.
pub fn vertex_doc(v: &Vertex) -> (r: JsonData)
    ensures
        spec_map_vertex(r@) == Ok::<Vertex, MapFault>(*v),
{
    let mut es: Vec<(String, JsonData)> = Vec::new();
    es.push(("x".to_owned(), JsonData::Num(NumData { int: None, bits: Some(v.x) })));
    es.push(("y".to_owned(), JsonData::Num(NumData { int: None, bits: Some(v.y) })));
    es.push(("z".to_owned(), JsonData::Num(NumData { int: None, bits: Some(v.z) })));
    let ghost ges = es@;
    let r = JsonData::Obj(es);
    proof {
        reveal_strlit("x");
        reveal_strlit("y");
        reveal_strlit("z");
        assert(("x"@)[0] == 'x' && ("y"@)[0] == 'y' && ("z"@)[0] == 'z');
        let ev = entries_view(ges);
        assert(ev.len() == 3);
        assert(ev[0].0 == "x"@ && ev[1].0 == "y"@ && ev[2].0 == "z"@);
        assert(member(r@, "x"@) == Some(ev[0].1));
        assert(ev.drop_first()[0] == ev[1] && ev.drop_first().len() == 2);
        assert(crate::json::lookup_v(ev.drop_first(), "y"@) == Some(ev[1].1));
        assert(member(r@, "y"@) == Some(ev[1].1));
        assert(ev.drop_first().drop_first()[0] == ev[2] && ev.drop_first().drop_first().len()
            == 1);
        assert(crate::json::lookup_v(ev.drop_first().drop_first(), "z"@) == Some(ev[2].1));
        assert(crate::json::lookup_v(ev.drop_first(), "z"@) == Some(ev[2].1));
        assert(member(r@, "z"@) == Some(ev[2].1));
        assert(ev[0].1 == JsonV::Num(NumV { int: None, bits: Some(v.x) }));
    }
    r
}


/// Builds a wire number carrying an unsigned integer value.
pub fn num_int_doc(i: u64) -> (r: JsonData)
    ensures
        r@ == JsonV::Num(NumV { int: Some(i), bits: None }),
{
    JsonData::Num(NumData { int: Some(i), bits: None })
}

/// Builds a wire number carrying a float coordinate's bit pattern.
pub fn coord_doc(b: u32) -> (r: JsonData)
    ensures
        spec_map_coord(r@) == Ok::<u32, MapFault>(b),
{
    JsonData::Num(NumData { int: None, bits: Some(b) })
}

/// Builds the wire object for a texture coordinate; mapping it back yields
/// the coordinate.
pub fn uvcoord_doc(c: &UVCoord) -> (r: JsonData)
    ensures
        spec_map_uvcoord(r@) == Ok::<UVCoord, MapFault>(*c),
{
    let mut es: Vec<(String, JsonData)> = Vec::new();
    es.push(("x".to_owned(), JsonData::Num(NumData { int: None, bits: Some(c.x) })));
    es.push(("y".to_owned(), JsonData::Num(NumData { int: None, bits: Some(c.y) })));
    let ghost ges = es@;
    let r = JsonData::Obj(es);
    proof {
        reveal_strlit("x");
        reveal_strlit("y");
        assert(("x"@)[0] == 'x' && ("y"@)[0] == 'y');
        let ev = entries_view(ges);
        assert(ev.len() == 2);
        assert(ev[0].0 == "x"@ && ev[1].0 == "y"@);
        assert(member(r@, "x"@) == Some(ev[0].1));
        assert(ev.drop_first()[0] == ev[1] && ev.drop_first().len() == 1);
        assert(crate::json::lookup_v(ev.drop_first(), "y"@) == Some(ev[1].1));
        assert(member(r@, "y"@) == Some(ev[1].1));
    }
    r
}

/// Builds the wire array for a triangle; mapping it back yields the
/// triangle's indexes.
pub fn triangle_doc(t: &Triangle) -> (r: JsonData)
    ensures
        spec_map_triangle(r@) == Ok::<Seq<u8>, MapFault>(t@),
{
    let mut a: Vec<JsonData> = Vec::new();
    a.push(num_int_doc(t[0] as u64));
    a.push(num_int_doc(t[1] as u64));
    a.push(num_int_doc(t[2] as u64));
    let ghost ga = a@;
    let r = JsonData::Arr(a);
    proof {
        let vs = views_of(ga);
        assert(vs.len() == 3);
        assert(vs[0] == jview(ga[0]) && vs[1] == jview(ga[1]) && vs[2] == jview(ga[2]));
        assert(t@ =~= seq![t@[0], t@[1], t@[2]]);
        assert(spec_map_triangle(r@) == Ok::<Seq<u8>, MapFault>(t@));
    }
    r
}

/// Builds the wire array for a triangle's texture coordinates; mapping it
/// back yields them.
pub fn uv_doc(u: &UV) -> (r: JsonData)
    ensures
        spec_map_uv(r@) == Ok::<Seq<UVCoord>, MapFault>(u@),
{
    let mut a: Vec<JsonData> = Vec::new();
    a.push(uvcoord_doc(&u[0]));
    a.push(uvcoord_doc(&u[1]));
    a.push(uvcoord_doc(&u[2]));
    let ghost ga = a@;
    let r = JsonData::Arr(a);
    proof {
        let vs = views_of(ga);
        assert(vs.len() == 3);
        assert(vs[0] == jview(ga[0]) && vs[1] == jview(ga[1]) && vs[2] == jview(ga[2]));
        assert(u@ =~= seq![u@[0], u@[1], u@[2]]);
        assert(spec_map_uv(r@) == Ok::<Seq<UVCoord>, MapFault>(u@));
    }
    r
}

/// When every entry from `k` on maps to the matching element of `v`, the
/// suffix mapping succeeds with exactly that suffix of `v`.
pub proof fn lemma_map_vertices_all_ok(a: Seq<JsonV>, v: Seq<Vertex>, k: int)
    requires
        0 <= k <= a.len(),
        a.len() == v.len(),
        forall|i: int| k <= i < a.len() ==> spec_map_vertex(#[trigger] a[i]) == Ok::<Vertex, MapFault>(v[i]),
    ensures
        spec_map_vertices_from(a, k) == Ok::<Seq<Vertex>, MapFault>(v.skip(k)),
    decreases a.len() - k,
{
    if k >= a.len() {
        assert(v.skip(k) =~= Seq::<Vertex>::empty());
    } else {
        lemma_map_vertices_all_ok(a, v, k + 1);
        assert(v.skip(k) =~= seq![v[k]] + v.skip(k + 1));
    }
}

/// Builds the wire array for a list of vertices; mapping it back yields the
/// list, in order.
pub fn vertices_doc(vs: &Vec<Vertex>) -> (r: Vec<JsonData>)
    ensures
        spec_map_vertices(views_of(r@)) == Ok::<Seq<Vertex>, MapFault>(vs@),
{
    let mut out: Vec<JsonData> = Vec::new();
    let n = vs.len();
    for i in 0..n
        invariant
            n == vs@.len(),
            out@.len() == i,
            forall|k: int| 0 <= k < i ==> spec_map_vertex(#[trigger] views_of(out@)[k])
                == Ok::<Vertex, MapFault>(vs@[k]),
    {
        let d = vertex_doc(&vs[i]);
        let ghost prev = out@;
        out.push(d);
        proof {
            assert forall|k: int| 0 <= k < i + 1 implies spec_map_vertex(
                #[trigger] views_of(out@)[k],
            ) == Ok::<Vertex, MapFault>(vs@[k]) by {
                assert(views_of(out@)[k] == jview(out@[k]));
                if k < i {
                    assert(out@[k] == prev[k]);
                    assert(views_of(prev)[k] == jview(prev[k]));
                } else {
                    assert(out@[k] == d);
                    assert(jview(d) == d@);
                    assert(vs@[k] == vs@[k]);
                }
            }
        }
    }
    proof {
        lemma_map_vertices_all_ok(views_of(out@), vs@, 0);
        assert(vs@.skip(0) =~= vs@);
    }
    out
}

/// When every entry from `k` on maps to the matching element of `v`, the
/// suffix mapping succeeds with exactly that suffix of `v`.
pub proof fn lemma_map_faces_all_ok(a: Seq<JsonV>, v: Seq<Seq<u8>>, k: int)
    requires
        0 <= k <= a.len(),
        a.len() == v.len(),
        forall|i: int| k <= i < a.len() ==> spec_map_triangle(#[trigger] a[i]) == Ok::<Seq<u8>, MapFault>(v[i]),
    ensures
        spec_map_faces_from(a, k) == Ok::<Seq<Seq<u8>>, MapFault>(v.skip(k)),
    decreases a.len() - k,
{
    if k >= a.len() {
        assert(v.skip(k) =~= Seq::<Seq<u8>>::empty());
    } else {
        lemma_map_faces_all_ok(a, v, k + 1);
        assert(v.skip(k) =~= seq![v[k]] + v.skip(k + 1));
    }
}

/// Builds the wire array for a list of triangles; mapping it back yields the
/// list, in order.
pub fn faces_doc(vs: &Vec<Triangle>) -> (r: Vec<JsonData>)
    ensures
        spec_map_faces(views_of(r@)) == Ok::<Seq<Seq<u8>>, MapFault>(triangles_view(vs@)),
{
    let mut out: Vec<JsonData> = Vec::new();
    let n = vs.len();
    for i in 0..n
        invariant
            n == vs@.len(),
            out@.len() == i,
            forall|k: int| 0 <= k < i ==> spec_map_triangle(#[trigger] views_of(out@)[k])
                == Ok::<Seq<u8>, MapFault>(triangles_view(vs@)[k]),
    {
        let d = triangle_doc(&vs[i]);
        let ghost prev = out@;
        out.push(d);
        proof {
            assert forall|k: int| 0 <= k < i + 1 implies spec_map_triangle(
                #[trigger] views_of(out@)[k],
            ) == Ok::<Seq<u8>, MapFault>(triangles_view(vs@)[k]) by {
                assert(views_of(out@)[k] == jview(out@[k]));
                if k < i {
                    assert(out@[k] == prev[k]);
                    assert(views_of(prev)[k] == jview(prev[k]));
                } else {
                    assert(out@[k] == d);
                    assert(jview(d) == d@);
                    assert(triangles_view(vs@)[k] == vs@[k]@);
                }
            }
        }
    }
    proof {
        lemma_map_faces_all_ok(views_of(out@), triangles_view(vs@), 0);
        assert(triangles_view(vs@).skip(0) =~= triangles_view(vs@));
    }
    out
}

/// When every entry from `k` on maps to the matching element of `v`, the
/// suffix mapping succeeds with exactly that suffix of `v`.
pub proof fn lemma_map_uvs_all_ok(a: Seq<JsonV>, v: Seq<Seq<UVCoord>>, k: int)
    requires
        0 <= k <= a.len(),
        a.len() == v.len(),
        forall|i: int| k <= i < a.len() ==> spec_map_uv(#[trigger] a[i]) == Ok::<Seq<UVCoord>, MapFault>(v[i]),
    ensures
        spec_map_uvs_from(a, k) == Ok::<Seq<Seq<UVCoord>>, MapFault>(v.skip(k)),
    decreases a.len() - k,
{
    if k >= a.len() {
        assert(v.skip(k) =~= Seq::<Seq<UVCoord>>::empty());
    } else {
        lemma_map_uvs_all_ok(a, v, k + 1);
        assert(v.skip(k) =~= seq![v[k]] + v.skip(k + 1));
    }
}

/// Builds the wire array for a list of per-triangle texture coordinates; mapping it back yields the
/// list, in order.
pub fn uvs_doc(vs: &Vec<UV>) -> (r: Vec<JsonData>)
    ensures
        spec_map_uvs(views_of(r@)) == Ok::<Seq<Seq<UVCoord>>, MapFault>(uvs_view(vs@)),
{
    let mut out: Vec<JsonData> = Vec::new();
    let n = vs.len();
    for i in 0..n
        invariant
            n == vs@.len(),
            out@.len() == i,
            forall|k: int| 0 <= k < i ==> spec_map_uv(#[trigger] views_of(out@)[k])
                == Ok::<Seq<UVCoord>, MapFault>(uvs_view(vs@)[k]),
    {
        let d = uv_doc(&vs[i]);
        let ghost prev = out@;
        out.push(d);
        proof {
            assert forall|k: int| 0 <= k < i + 1 implies spec_map_uv(
                #[trigger] views_of(out@)[k],
            ) == Ok::<Seq<UVCoord>, MapFault>(uvs_view(vs@)[k]) by {
                assert(views_of(out@)[k] == jview(out@[k]));
                if k < i {
                    assert(out@[k] == prev[k]);
                    assert(views_of(prev)[k] == jview(prev[k]));
                } else {
                    assert(out@[k] == d);
                    assert(jview(d) == d@);
                    assert(uvs_view(vs@)[k] == vs@[k]@);
                }
            }
        }
    }
    proof {
        lemma_map_uvs_all_ok(views_of(out@), uvs_view(vs@), 0);
        assert(uvs_view(vs@).skip(0) =~= uvs_view(vs@));
    }
    out
}

/// When every entry from `k` on maps to the matching element of `v`, the
/// suffix mapping succeeds with exactly that suffix of `v`.
pub proof fn lemma_map_objects_all_ok(a: Seq<JsonV>, v: Seq<ObjectV>, k: int)
    requires
        0 <= k <= a.len(),
        a.len() == v.len(),
        forall|i: int| k <= i < a.len() ==> spec_map_object(#[trigger] a[i]) == Ok::<ObjectV, MapFault>(v[i]),
    ensures
        spec_map_objects_from(a, k) == Ok::<Seq<ObjectV>, MapFault>(v.skip(k)),
    decreases a.len() - k,
{
    if k >= a.len() {
        assert(v.skip(k) =~= Seq::<ObjectV>::empty());
    } else {
        lemma_map_objects_all_ok(a, v, k + 1);
        assert(v.skip(k) =~= seq![v[k]] + v.skip(k + 1));
    }
}

/// Builds the wire array for a list of objects; mapping it back yields the
/// list, in order.
pub fn objects_doc(vs: &Vec<Object>) -> (r: Vec<JsonData>)
    ensures
        spec_map_objects(views_of(r@)) == Ok::<Seq<ObjectV>, MapFault>(objects_view(vs@)),
{
    let mut out: Vec<JsonData> = Vec::new();
    let n = vs.len();
    for i in 0..n
        invariant
            n == vs@.len(),
            out@.len() == i,
            forall|k: int| 0 <= k < i ==> spec_map_object(#[trigger] views_of(out@)[k])
                == Ok::<ObjectV, MapFault>(objects_view(vs@)[k]),
    {
        let d = object_doc(&vs[i]);
        let ghost prev = out@;
        out.push(d);
        proof {
            assert forall|k: int| 0 <= k < i + 1 implies spec_map_object(
                #[trigger] views_of(out@)[k],
            ) == Ok::<ObjectV, MapFault>(objects_view(vs@)[k]) by {
                assert(views_of(out@)[k] == jview(out@[k]));
                if k < i {
                    assert(out@[k] == prev[k]);
                    assert(views_of(prev)[k] == jview(prev[k]));
                } else {
                    assert(out@[k] == d);
                    assert(jview(d) == d@);
                    assert(objects_view(vs@)[k] == vs@[k]@);
                }
            }
        }
    }
    proof {
        lemma_map_objects_all_ok(views_of(out@), objects_view(vs@), 0);
        assert(objects_view(vs@).skip(0) =~= objects_view(vs@));
    }
    out
}

/// When every entry from `k` on maps to the matching element of `v`, the
/// suffix mapping succeeds with exactly that suffix of `v`.
pub proof fn lemma_map_models_all_ok(a: Seq<JsonV>, v: Seq<ModelV>, k: int)
    requires
        0 <= k <= a.len(),
        a.len() == v.len(),
        forall|i: int| k <= i < a.len() ==> spec_map_model(#[trigger] a[i]) == Ok::<ModelV, MapFault>(v[i]),
    ensures
        spec_map_models_from(a, k) == Ok::<Seq<ModelV>, MapFault>(v.skip(k)),
    decreases a.len() - k,
{
    if k >= a.len() {
        assert(v.skip(k) =~= Seq::<ModelV>::empty());
    } else {
        lemma_map_models_all_ok(a, v, k + 1);
        assert(v.skip(k) =~= seq![v[k]] + v.skip(k + 1));
    }
}

/// Builds the wire array for a list of models; mapping it back yields the
/// list, in order.
pub fn models_doc(vs: &Vec<Model>) -> (r: Vec<JsonData>)
    ensures
        spec_map_models(views_of(r@)) == Ok::<Seq<ModelV>, MapFault>(models_view(vs@)),
{
    let mut out: Vec<JsonData> = Vec::new();
    let n = vs.len();
    for i in 0..n
        invariant
            n == vs@.len(),
            out@.len() == i,
            forall|k: int| 0 <= k < i ==> spec_map_model(#[trigger] views_of(out@)[k])
                == Ok::<ModelV, MapFault>(models_view(vs@)[k]),
    {
        let d = model_doc(&vs[i]);
        let ghost prev = out@;
        out.push(d);
        proof {
            assert forall|k: int| 0 <= k < i + 1 implies spec_map_model(
                #[trigger] views_of(out@)[k],
            ) == Ok::<ModelV, MapFault>(models_view(vs@)[k]) by {
                assert(views_of(out@)[k] == jview(out@[k]));
                if k < i {
                    assert(out@[k] == prev[k]);
                    assert(views_of(prev)[k] == jview(prev[k]));
                } else {
                    assert(out@[k] == d);
                    assert(jview(d) == d@);
                    assert(models_view(vs@)[k] == vs@[k]@);
                }
            }
        }
    }
    proof {
        lemma_map_models_all_ok(views_of(out@), models_view(vs@), 0);
        assert(models_view(vs@).skip(0) =~= models_view(vs@));
    }
    out
}

/// Builds the wire object for an object entry; mapping it back yields the
/// object.
pub fn object_doc(o: &Object) -> (r: JsonData)
    ensures
        spec_map_object(r@) == Ok::<ObjectV, MapFault>(o@),
{
    let mut es: Vec<(String, JsonData)> = Vec::new();
    es.push(("position".to_owned(), vertex_doc(&o.position)));
    es.push(("vertices".to_owned(), JsonData::Arr(vertices_doc(&o.vertices))));
    es.push(("faces".to_owned(), JsonData::Arr(faces_doc(&o.faces))));
    es.push(("uvs".to_owned(), JsonData::Arr(uvs_doc(&o.uvs))));
    let ghost ges = es@;
    let r = JsonData::Obj(es);
    proof {
        reveal_strlit("position");
        reveal_strlit("vertices");
        reveal_strlit("faces");
        reveal_strlit("uvs");
        assert(("position"@).len() == 8 && ("vertices"@).len() == 8 && ("faces"@).len() == 5
            && ("uvs"@).len() == 3);
        assert(("position"@)[0] == 'p' && ("vertices"@)[0] == 'v');
        let ev = entries_view(ges);
        assert(ev.len() == 4);
        assert(ev[0].0 == "position"@ && ev[1].0 == "vertices"@ && ev[2].0 == "faces"@
            && ev[3].0 == "uvs"@);
        let e1 = ev.drop_first();
        let e2 = e1.drop_first();
        let e3 = e2.drop_first();
        assert(e1[0] == ev[1] && e1[1] == ev[2] && e1[2] == ev[3] && e1.len() == 3);
        assert(e2[0] == ev[2] && e2[1] == ev[3] && e2.len() == 2);
        assert(e3[0] == ev[3] && e3.len() == 1);
        assert(member(r@, "position"@) == Some(ev[0].1));
        assert(crate::json::lookup_v(e1, "vertices"@) == Some(ev[1].1));
        assert(member(r@, "vertices"@) == Some(ev[1].1));
        assert(crate::json::lookup_v(e2, "faces"@) == Some(ev[2].1));
        assert(crate::json::lookup_v(e1, "faces"@) == Some(ev[2].1));
        assert(member(r@, "faces"@) == Some(ev[2].1));
        assert(crate::json::lookup_v(e3, "uvs"@) == Some(ev[3].1));
        assert(crate::json::lookup_v(e2, "uvs"@) == Some(ev[3].1));
        assert(crate::json::lookup_v(e1, "uvs"@) == Some(ev[3].1));
        assert(member(r@, "uvs"@) == Some(ev[3].1));
    }
    r
}

/// Builds the wire object for a model; mapping it back yields the model,
/// its texture re-encoded and decoded on the way.
pub fn model_doc(m: &Model) -> (r: JsonData)
    ensures
        spec_map_model(r@) == Ok::<ModelV, MapFault>(m@),
{
    let mut es: Vec<(String, JsonData)> = Vec::new();
    es.push(("texture".to_owned(), JsonData::Str(encode_data_uri(m.texture.as_slice()))));
    es.push(("object".to_owned(), JsonData::Arr(objects_doc(&m.object))));
    let ghost ges = es@;
    let r = JsonData::Obj(es);
    proof {
        reveal_strlit("texture");
        reveal_strlit("object");
        assert(("texture"@).len() == 7 && ("object"@).len() == 6);
        let ev = entries_view(ges);
        assert(ev.len() == 2);
        assert(ev[0].0 == "texture"@ && ev[1].0 == "object"@);
        assert(member(r@, "texture"@) == Some(ev[0].1));
        assert(ev.drop_first()[0] == ev[1] && ev.drop_first().len() == 1);
        assert(crate::json::lookup_v(ev.drop_first(), "object"@) == Some(ev[1].1));
        assert(member(r@, "object"@) == Some(ev[1].1));
    }
    r
}

/// Builds the wire object for the configuration; mapping it back yields
/// it, the skybox member present exactly when the skybox is.
pub fn config_doc(c: &Config) -> (r: JsonData)
    ensures
        spec_map_config(r@) == Ok::<ConfigV, MapFault>(c@),
{
    let mut es: Vec<(String, JsonData)> = Vec::new();
    es.push(("tilesizeX".to_owned(), num_int_doc(c.tilesize_x as u64)));
    es.push(("tilesizeY".to_owned(), num_int_doc(c.tilesize_y as u64)));
    match &c.skybox {
        Some(b) => {
            es.push(("skybox".to_owned(), JsonData::Str(encode_data_uri(b.as_slice()))));
        },
        None => {},
    }
    let ghost ges = es@;
    let r = JsonData::Obj(es);
    proof {
        reveal_strlit("tilesizeX");
        reveal_strlit("tilesizeY");
        reveal_strlit("skybox");
        assert(("tilesizeX"@).len() == 9 && ("tilesizeY"@).len() == 9 && ("skybox"@).len()
            == 6);
        assert(("tilesizeX"@)[8] == 'X' && ("tilesizeY"@)[8] == 'Y');
        let ev = entries_view(ges);
        let e1 = ev.drop_first();
        let e2 = e1.drop_first();
        assert(ev[0].0 == "tilesizeX"@ && ev[1].0 == "tilesizeY"@);
        assert(e1[0] == ev[1] && e1.len() == ev.len() - 1);
        assert(member(r@, "tilesizeX"@) == Some(ev[0].1));
        assert(crate::json::lookup_v(e1, "tilesizeY"@) == Some(ev[1].1));
        assert(member(r@, "tilesizeY"@) == Some(ev[1].1));
        match c.skybox {
            Some(_) => {
                assert(ev.len() == 3);
                assert(ev[2].0 == "skybox"@);
                assert(e2[0] == ev[2] && e2.len() == 1);
                assert(crate::json::lookup_v(e2, "skybox"@) == Some(ev[2].1));
                assert(crate::json::lookup_v(e1, "skybox"@) == Some(ev[2].1));
                assert(member(r@, "skybox"@) == Some(ev[2].1));
            },
            None => {
                assert(ev.len() == 2);
                assert(e2.len() == 0);
                assert(crate::json::lookup_v(e2, "skybox"@) is None);
                assert(crate::json::lookup_v(e1, "skybox"@) is None);
                assert(member(r@, "skybox"@) is None);
            },
        }
    }
    r
}

/// Builds the wire document for a whole map.
///
/// The round trip is this function's contract: mapping the built document
/// back yields a structure equal to the one it was built from, member
/// values, array order and arity preserved.
pub fn to_document(m: &MapData) -> (r: JsonData)
    ensures
        spec_map_document(r@) == Ok::<MapDataV, MapFault>(m@),
{
    let mut es: Vec<(String, JsonData)> = Vec::new();
    es.push(("config".to_owned(), config_doc(&m.config)));
    es.push(("model".to_owned(), JsonData::Arr(models_doc(&m.model))));
    let ghost ges = es@;
    let r = JsonData::Obj(es);
    proof {
        reveal_strlit("config");
        reveal_strlit("model");
        assert(("config"@).len() == 6 && ("model"@).len() == 5);
        let ev = entries_view(ges);
        assert(ev.len() == 2);
        assert(ev[0].0 == "config"@ && ev[1].0 == "model"@);
        assert(member(r@, "config"@) == Some(ev[0].1));
        assert(ev.drop_first()[0] == ev[1] && ev.drop_first().len() == 1);
        assert(crate::json::lookup_v(ev.drop_first(), "model"@) == Some(ev[1].1));
        assert(member(r@, "model"@) == Some(ev[1].1));
    }
    r
}

} // verus!
