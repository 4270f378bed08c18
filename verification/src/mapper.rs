//! The document mapper.
//!
//! Walks a parsed JSON tree and materializes the typed entity graph of
//! [`crate::map`], enforcing member presence, types and arity, and routing
//! data-URI fields through the binary field codec.  The mapping is
//! fail-fast: the first mismatch anywhere aborts the whole load.
//!
//! Each `spec_map_*` function states exactly what its executable
//! counterpart returns: the mapped value, or the kind of the first fault.

use vstd::prelude::*;

use crate::codec::decode_data_uri;
use crate::codec::mime_decoded;
use crate::codec::spec_decode_data_uri;
use crate::errors::decode_error;
use crate::errors::fault_matches;
use crate::errors::shape_error;
use crate::errors::LoadError;
use crate::errors::MapFault;
use crate::json::lookup;
use crate::json::lookup_v;
use crate::json::views_of;
use crate::wire::parse_fault_syntax;
use crate::wire::parse_value;
use crate::wire::parsed_doc;
use crate::wire::to_tree;
use crate::json::JsonData;
use crate::json::JsonV;
use crate::map::models_view;
use crate::map::objects_view;
use crate::map::triangles_view;
use crate::map::uvs_view;
use crate::map::Config;
use crate::map::ConfigV;
use crate::map::MapData;
use crate::map::MapDataV;
use crate::map::Model;
use crate::map::ModelV;
use crate::map::Object;
use crate::map::ObjectV;
use crate::map::Triangle;
use crate::map::UVCoord;
use crate::map::Vertex;
use crate::map::UV;

verus! {

/// The value of an object's member, if `j` is an object that has it.
pub open spec fn member(j: JsonV, key: Seq<char>) -> Option<JsonV> {
    match j {
        JsonV::Obj(es) => lookup_v(es, key),
        _ => None,
    }
}

/// What mapping a JSON value to an unsigned 16-bit integer yields.
pub open spec fn spec_map_u16(j: JsonV) -> Result<u16, MapFault> {
    match j {
        JsonV::Num(n) => match n.int {
            Some(i) => if i <= 0xffff {
                Ok(i as u16)
            } else {
                Err(MapFault::Shape)
            },
            None => Err(MapFault::Shape),
        },
        _ => Err(MapFault::Shape),
    }
}

/// What mapping a JSON value to an unsigned 8-bit integer yields.
pub open spec fn spec_map_u8(j: JsonV) -> Result<u8, MapFault> {
    match j {
        JsonV::Num(n) => match n.int {
            Some(i) => if i <= 0xff {
                Ok(i as u8)
            } else {
                Err(MapFault::Shape)
            },
            None => Err(MapFault::Shape),
        },
        _ => Err(MapFault::Shape),
    }
}

/// What mapping a JSON value to a 32-bit float coordinate yields: the
/// number's float bit pattern.
pub open spec fn spec_map_coord(j: JsonV) -> Result<u32, MapFault> {
    match j {
        JsonV::Num(n) => match n.bits {
            Some(b) => Ok(b),
            None => Err(MapFault::Shape),
        },
        _ => Err(MapFault::Shape),
    }
}

/// What mapping a data-URI member to its decoded bytes yields: a shape
/// fault for a non-string, a decode fault for a bad payload.
pub open spec fn spec_map_data_uri(j: JsonV) -> Result<Seq<u8>, MapFault> {
    match j {
        JsonV::Str(s) => match spec_decode_data_uri(s) {
            Some(b) => Ok(b),
            None => Err(MapFault::Decode),
        },
        _ => Err(MapFault::Shape),
    }
}

/// Maps a JSON value to an unsigned 16-bit integer, as [`spec_map_u16`]
/// describes.
pub fn map_u16(j: &JsonData) -> (r: Result<u16, LoadError>)
    ensures
        match spec_map_u16(j@) {
            Ok(v) => r matches Ok(rv) && rv == v,
            Err(f) => r matches Err(e) && fault_matches(e, f),
        },
{
    match j {
        JsonData::Num(n) => match n.int {
            Some(i) => if i <= 0xffff {
                Ok(i as u16)
            } else {
                Err(shape_error("number out of range for a 16-bit size"))
            },
            None => Err(shape_error("expected an unsigned integer")),
        },
        _ => Err(shape_error("expected a number")),
    }
}

/// Maps a JSON value to an unsigned 8-bit integer, as [`spec_map_u8`]
/// describes.
pub fn map_u8(j: &JsonData) -> (r: Result<u8, LoadError>)
    ensures
        match spec_map_u8(j@) {
            Ok(v) => r matches Ok(rv) && rv == v,
            Err(f) => r matches Err(e) && fault_matches(e, f),
        },
{
    match j {
        JsonData::Num(n) => match n.int {
            Some(i) => if i <= 0xff {
                Ok(i as u8)
            } else {
                Err(shape_error("number out of range for an 8-bit index"))
            },
            None => Err(shape_error("expected an unsigned integer")),
        },
        _ => Err(shape_error("expected a number")),
    }
}

/// Maps a JSON value to a float coordinate's bit pattern, as
/// [`spec_map_coord`] describes.
pub fn map_coord(j: &JsonData) -> (r: Result<u32, LoadError>)
    ensures
        match spec_map_coord(j@) {
            Ok(v) => r matches Ok(rv) && rv == v,
            Err(f) => r matches Err(e) && fault_matches(e, f),
        },
{
    match j {
        JsonData::Num(n) => match n.bits {
            Some(b) => Ok(b),
            None => Err(shape_error("expected a number with a float value")),
        },
        _ => Err(shape_error("expected a number")),
    }
}

/// Maps a data-URI member to its decoded bytes, as [`spec_map_data_uri`]
/// describes.
pub fn map_data_uri(j: &JsonData) -> (r: Result<Vec<u8>, LoadError>)
    ensures
        match spec_map_data_uri(j@) {
            Ok(v) => r matches Ok(rv) && rv@ == v,
            Err(f) => r matches Err(e) && fault_matches(e, f),
        },
{
    match j {
        JsonData::Str(s) => match decode_data_uri(s.as_slice()) {
            Some(b) => Ok(b),
            None => Err(decode_error("data-URI field failed to decode")),
        },
        _ => Err(shape_error("expected a data-URI string")),
    }
}

/// What mapping a JSON value to a [`Vertex`] yields: it must be an object
/// with numeric members `x`, `y` and `z`.
pub open spec fn spec_map_vertex(j: JsonV) -> Result<Vertex, MapFault> {
    match member(j, "x"@) {
        None => Err(MapFault::Shape),
        Some(jx) => match spec_map_coord(jx) {
            Err(f) => Err(f),
            Ok(x) => match member(j, "y"@) {
                None => Err(MapFault::Shape),
                Some(jy) => match spec_map_coord(jy) {
                    Err(f) => Err(f),
                    Ok(y) => match member(j, "z"@) {
                        None => Err(MapFault::Shape),
                        Some(jz) => match spec_map_coord(jz) {
                            Err(f) => Err(f),
                            Ok(z) => Ok(Vertex { x, y, z }),
                        },
                    },
                },
            },
        },
    }
}

/// Maps a JSON value to a [`Vertex`], as [`spec_map_vertex`] describes.
pub fn map_vertex(j: &JsonData) -> (r: Result<Vertex, LoadError>)
    ensures
        match spec_map_vertex(j@) {
            Ok(v) => r matches Ok(rv) && rv == v,
            Err(f) => r matches Err(e) && fault_matches(e, f),
        },
{
    let es = match j {
        JsonData::Obj(es) => es,
        _ => return Err(shape_error("expected an object for a vertex")),
    };
    let key_x = "x".to_owned();
    let key_y = "y".to_owned();
    let key_z = "z".to_owned();
    let jx = match lookup(es, &key_x) {
        Some(v) => v,
        None => return Err(shape_error("vertex is missing member x")),
    };
    let x = map_coord(jx)?;
    let jy = match lookup(es, &key_y) {
        Some(v) => v,
        None => return Err(shape_error("vertex is missing member y")),
    };
    let y = map_coord(jy)?;
    let jz = match lookup(es, &key_z) {
        Some(v) => v,
        None => return Err(shape_error("vertex is missing member z")),
    };
    let z = map_coord(jz)?;
    Ok(Vertex { x, y, z })
}

/// What mapping a JSON value to a [`UVCoord`] yields: it must be an object
/// with numeric members `x` and `y`.
pub open spec fn spec_map_uvcoord(j: JsonV) -> Result<UVCoord, MapFault> {
    match member(j, "x"@) {
        None => Err(MapFault::Shape),
        Some(jx) => match spec_map_coord(jx) {
            Err(f) => Err(f),
            Ok(x) => match member(j, "y"@) {
                None => Err(MapFault::Shape),
                Some(jy) => match spec_map_coord(jy) {
                    Err(f) => Err(f),
                    Ok(y) => Ok(UVCoord { x, y }),
                },
            },
        },
    }
}

/// Maps a JSON value to a [`UVCoord`], as [`spec_map_uvcoord`] describes.
pub fn map_uvcoord(j: &JsonData) -> (r: Result<UVCoord, LoadError>)
    ensures
        match spec_map_uvcoord(j@) {
            Ok(v) => r matches Ok(rv) && rv == v,
            Err(f) => r matches Err(e) && fault_matches(e, f),
        },
{
    let es = match j {
        JsonData::Obj(es) => es,
        _ => return Err(shape_error("expected an object for a texture coordinate")),
    };
    let key_x = "x".to_owned();
    let key_y = "y".to_owned();
    let jx = match lookup(es, &key_x) {
        Some(v) => v,
        None => return Err(shape_error("texture coordinate is missing member x")),
    };
    let x = map_coord(jx)?;
    let jy = match lookup(es, &key_y) {
        Some(v) => v,
        None => return Err(shape_error("texture coordinate is missing member y")),
    };
    let y = map_coord(jy)?;
    Ok(UVCoord { x, y })
}

/// What mapping a JSON value to a [`Triangle`] yields: it must be an array
/// of exactly three 8-bit vertex indexes.
pub open spec fn spec_map_triangle(j: JsonV) -> Result<Seq<u8>, MapFault> {
    match j {
        JsonV::Arr(a) => if a.len() != 3 {
            Err(MapFault::Shape)
        } else {
            match spec_map_u8(a[0]) {
                Err(f) => Err(f),
                Ok(i0) => match spec_map_u8(a[1]) {
                    Err(f) => Err(f),
                    Ok(i1) => match spec_map_u8(a[2]) {
                        Err(f) => Err(f),
                        Ok(i2) => Ok(seq![i0, i1, i2]),
                    },
                },
            }
        },
        _ => Err(MapFault::Shape),
    }
}

/// Maps a JSON value to a [`Triangle`], as [`spec_map_triangle`] describes.
pub fn map_triangle(j: &JsonData) -> (r: Result<Triangle, LoadError>)
    ensures
        match spec_map_triangle(j@) {
            Ok(s) => r matches Ok(t) && t@ == s,
            Err(f) => r matches Err(e) && fault_matches(e, f),
        },
{
    let a = match j {
        JsonData::Arr(a) => a,
        _ => return Err(shape_error("expected an array for a triangle")),
    };
    if a.len() != 3 {
        return Err(shape_error("a triangle must have exactly 3 indexes"));
    }
    let i0 = map_u8(&a[0])?;
    let i1 = map_u8(&a[1])?;
    let i2 = map_u8(&a[2])?;
    let t: Triangle = [i0, i1, i2];
    proof {
        assert(t@ =~= seq![i0, i1, i2]);
    }
    Ok(t)
}

/// What mapping a JSON value to a [`UV`] yields: it must be an array of
/// exactly three texture coordinates, one per triangle corner.
pub open spec fn spec_map_uv(j: JsonV) -> Result<Seq<UVCoord>, MapFault> {
    match j {
        JsonV::Arr(a) => if a.len() != 3 {
            Err(MapFault::Shape)
        } else {
            match spec_map_uvcoord(a[0]) {
                Err(f) => Err(f),
                Ok(c0) => match spec_map_uvcoord(a[1]) {
                    Err(f) => Err(f),
                    Ok(c1) => match spec_map_uvcoord(a[2]) {
                        Err(f) => Err(f),
                        Ok(c2) => Ok(seq![c0, c1, c2]),
                    },
                },
            }
        },
        _ => Err(MapFault::Shape),
    }
}

/// Maps a JSON value to a [`UV`], as [`spec_map_uv`] describes.
pub fn map_uv(j: &JsonData) -> (r: Result<UV, LoadError>)
    ensures
        match spec_map_uv(j@) {
            Ok(s) => r matches Ok(t) && t@ == s,
            Err(f) => r matches Err(e) && fault_matches(e, f),
        },
{
    let a = match j {
        JsonData::Arr(a) => a,
        _ => return Err(shape_error("expected an array for a triangle's texture coordinates")),
    };
    if a.len() != 3 {
        return Err(shape_error("texture coordinates must come exactly 3 to a triangle"));
    }
    let c0 = map_uvcoord(&a[0])?;
    let c1 = map_uvcoord(&a[1])?;
    let c2 = map_uvcoord(&a[2])?;
    let t: UV = [c0, c1, c2];
    proof {
        assert(t@ =~= seq![c0, c1, c2]);
    }
    Ok(t)
}

/// What mapping the entries of a JSON array from index `k` on to vertices
/// yields: the mapped suffix, or the kind of its first fault.
pub open spec fn spec_map_vertices_from(a: Seq<JsonV>, k: int) -> Result<Seq<Vertex>, MapFault>
    decreases a.len() - k,
{
    if k < 0 || k >= a.len() {
        Ok(Seq::empty())
    } else {
        match spec_map_vertex(a[k]) {
            Err(f) => Err(f),
            Ok(v) => match spec_map_vertices_from(a, k + 1) {
                Err(f) => Err(f),
                Ok(s) => Ok(seq![v] + s),
            },
        }
    }
}

/// What mapping a JSON array to a vertex list yields.
pub open spec fn spec_map_vertices(a: Seq<JsonV>) -> Result<Seq<Vertex>, MapFault> {
    spec_map_vertices_from(a, 0)
}

/// Maps a JSON array's entries to vertices, in order and fail-fast, as
/// [`spec_map_vertices`] describes.
pub fn map_vertices(a: &Vec<JsonData>) -> (r: Result<Vec<Vertex>, LoadError>)
    ensures
        match spec_map_vertices(views_of(a@)) {
            Ok(s) => r matches Ok(out) && out@ == s,
            Err(f) => r matches Err(e) && fault_matches(e, f),
        },
{
    let ghost va = views_of(a@);
    let mut out: Vec<Vertex> = Vec::new();
    let n = a.len();
    proof {
        match spec_map_vertices(va) {
            Ok(s) => {
                assert(Seq::<Vertex>::empty() + s =~= s);
            },
            Err(_) => {},
        }
    }
    for i in 0..n
        invariant
            n == a@.len(),
            va == views_of(a@),
            va.len() == n,
            out@.len() == i,
            spec_map_vertices(va) matches Ok(s) ==> spec_map_vertices_from(va, i as int)
                matches Ok(rest) && s == out@ + rest,
            spec_map_vertices(va) matches Err(f) ==> spec_map_vertices_from(va, i as int)
                is Err,
            spec_map_vertices(va) matches Err(f) ==> spec_map_vertices_from(va, i as int)
                matches Err(g) && f == g,
    {
        match map_vertex(&a[i]) {
            Ok(v) => {
                proof {
                    match spec_map_vertices(va) {
                        Ok(s) => {
                            let rest = spec_map_vertices_from(va, i as int)->Ok_0;
                            let rest2 = spec_map_vertices_from(va, i + 1)->Ok_0;
                            assert(out@ + rest =~= out@.push(v) + rest2);
                        },
                        Err(_) => {},
                    }
                }
                out.push(v);
            },
            Err(e) => {
                return Err(e);
            },
        }
    }
    proof {
        match spec_map_vertices(va) {
            Ok(s) => {
                assert(s =~= out@);
            },
            Err(_) => {},
        }
    }
    Ok(out)
}


/// What mapping the entries of a JSON array from index `k` on to triangles 
/// yields: the mapped suffix, or the kind of its first fault.
pub open spec fn spec_map_faces_from(a: Seq<JsonV>, k: int) -> Result<Seq<Seq<u8>>, MapFault>
    decreases a.len() - k,
{
    if k < 0 || k >= a.len() {
        Ok(Seq::empty())
    } else {
        match spec_map_triangle(a[k]) {
            Err(f) => Err(f),
            Ok(v) => match spec_map_faces_from(a, k + 1) {
                Err(f) => Err(f),
                Ok(s) => Ok(seq![v] + s),
            },
        }
    }
}

/// What mapping a JSON array to a list of triangles yields.
pub open spec fn spec_map_faces(a: Seq<JsonV>) -> Result<Seq<Seq<u8>>, MapFault> {
    spec_map_faces_from(a, 0)
}

/// Maps a JSON array's entries to triangles, in order and fail-fast, as
/// [`spec_map_faces`] describes.
pub fn map_faces(a: &Vec<JsonData>) -> (r: Result<Vec<Triangle>, LoadError>)
    ensures
        match spec_map_faces(views_of(a@)) {
            Ok(s) => r matches Ok(out) && triangles_view(out@) == s,
            Err(f) => r matches Err(e) && fault_matches(e, f),
        },
{
    let ghost va = views_of(a@);
    let mut out: Vec<Triangle> = Vec::new();
    let n = a.len();
    proof {
        match spec_map_faces(va) {
            Ok(s) => {
                assert(triangles_view(out@) + s =~= s);
            },
            Err(_) => {},
        }
    }
    for i in 0..n
        invariant
            n == a@.len(),
            va == views_of(a@),
            va.len() == n,
            out@.len() == i,
            spec_map_faces(va) matches Ok(s) ==> spec_map_faces_from(va, i as int)
                matches Ok(rest) && s == triangles_view(out@) + rest,
            spec_map_faces(va) matches Err(f) ==> spec_map_faces_from(va, i as int)
                matches Err(g) && f == g,
    {
        match map_triangle(&a[i]) {
            Ok(v) => {
                proof {
                    match spec_map_faces(va) {
                        Ok(s) => {
                            let rest = spec_map_faces_from(va, i as int)->Ok_0;
                            let rest2 = spec_map_faces_from(va, i + 1)->Ok_0;
                            assert(triangles_view(out@) + rest =~= triangles_view(out@.push(v)) + rest2);
                        },
                        Err(_) => {},
                    }
                }
                out.push(v);
            },
            Err(e) => {
                return Err(e);
            },
        }
    }
    proof {
        match spec_map_faces(va) {
            Ok(s) => {
                assert(s =~= triangles_view(out@));
            },
            Err(_) => {},
        }
    }
    Ok(out)
}

/// What mapping the entries of a JSON array from index `k` on to per-triangle texture coordinates 
/// yields: the mapped suffix, or the kind of its first fault.
pub open spec fn spec_map_uvs_from(a: Seq<JsonV>, k: int) -> Result<Seq<Seq<UVCoord>>, MapFault>
    decreases a.len() - k,
{
    if k < 0 || k >= a.len() {
        Ok(Seq::empty())
    } else {
        match spec_map_uv(a[k]) {
            Err(f) => Err(f),
            Ok(v) => match spec_map_uvs_from(a, k + 1) {
                Err(f) => Err(f),
                Ok(s) => Ok(seq![v] + s),
            },
        }
    }
}

/// What mapping a JSON array to a list of per-triangle texture coordinates yields.
pub open spec fn spec_map_uvs(a: Seq<JsonV>) -> Result<Seq<Seq<UVCoord>>, MapFault> {
    spec_map_uvs_from(a, 0)
}

/// Maps a JSON array's entries to per-triangle texture coordinates, in order and fail-fast, as
/// [`spec_map_uvs`] describes.
pub fn map_uvs(a: &Vec<JsonData>) -> (r: Result<Vec<UV>, LoadError>)
    ensures
        match spec_map_uvs(views_of(a@)) {
            Ok(s) => r matches Ok(out) && uvs_view(out@) == s,
            Err(f) => r matches Err(e) && fault_matches(e, f),
        },
{
    let ghost va = views_of(a@);
    let mut out: Vec<UV> = Vec::new();
    let n = a.len();
    proof {
        match spec_map_uvs(va) {
            Ok(s) => {
                assert(uvs_view(out@) + s =~= s);
            },
            Err(_) => {},
        }
    }
    for i in 0..n
        invariant
            n == a@.len(),
            va == views_of(a@),
            va.len() == n,
            out@.len() == i,
            spec_map_uvs(va) matches Ok(s) ==> spec_map_uvs_from(va, i as int)
                matches Ok(rest) && s == uvs_view(out@) + rest,
            spec_map_uvs(va) matches Err(f) ==> spec_map_uvs_from(va, i as int)
                matches Err(g) && f == g,
    {
        match map_uv(&a[i]) {
            Ok(v) => {
                proof {
                    match spec_map_uvs(va) {
                        Ok(s) => {
                            let rest = spec_map_uvs_from(va, i as int)->Ok_0;
                            let rest2 = spec_map_uvs_from(va, i + 1)->Ok_0;
                            assert(uvs_view(out@) + rest =~= uvs_view(out@.push(v)) + rest2);
                        },
                        Err(_) => {},
                    }
                }
                out.push(v);
            },
            Err(e) => {
                return Err(e);
            },
        }
    }
    proof {
        match spec_map_uvs(va) {
            Ok(s) => {
                assert(s =~= uvs_view(out@));
            },
            Err(_) => {},
        }
    }
    Ok(out)
}

/// What mapping the entries of a JSON array from index `k` on to objects 
/// yields: the mapped suffix, or the kind of its first fault.
pub open spec fn spec_map_objects_from(a: Seq<JsonV>, k: int) -> Result<Seq<ObjectV>, MapFault>
    decreases a.len() - k,
{
    if k < 0 || k >= a.len() {
        Ok(Seq::empty())
    } else {
        match spec_map_object(a[k]) {
            Err(f) => Err(f),
            Ok(v) => match spec_map_objects_from(a, k + 1) {
                Err(f) => Err(f),
                Ok(s) => Ok(seq![v] + s),
            },
        }
    }
}

/// What mapping a JSON array to a list of objects yields.
pub open spec fn spec_map_objects(a: Seq<JsonV>) -> Result<Seq<ObjectV>, MapFault> {
    spec_map_objects_from(a, 0)
}

/// Maps a JSON array's entries to objects, in order and fail-fast, as
/// [`spec_map_objects`] describes.
pub fn map_objects(a: &Vec<JsonData>) -> (r: Result<Vec<Object>, LoadError>)
    ensures
        match spec_map_objects(views_of(a@)) {
            Ok(s) => r matches Ok(out) && objects_view(out@) == s,
            Err(f) => r matches Err(e) && fault_matches(e, f),
        },
{
    let ghost va = views_of(a@);
    let mut out: Vec<Object> = Vec::new();
    let n = a.len();
    proof {
        match spec_map_objects(va) {
            Ok(s) => {
                assert(objects_view(out@) + s =~= s);
            },
            Err(_) => {},
        }
    }
    for i in 0..n
        invariant
            n == a@.len(),
            va == views_of(a@),
            va.len() == n,
            out@.len() == i,
            spec_map_objects(va) matches Ok(s) ==> spec_map_objects_from(va, i as int)
                matches Ok(rest) && s == objects_view(out@) + rest,
            spec_map_objects(va) matches Err(f) ==> spec_map_objects_from(va, i as int)
                matches Err(g) && f == g,
    {
        match map_object(&a[i]) {
            Ok(v) => {
                proof {
                    match spec_map_objects(va) {
                        Ok(s) => {
                            let rest = spec_map_objects_from(va, i as int)->Ok_0;
                            let rest2 = spec_map_objects_from(va, i + 1)->Ok_0;
                            assert(objects_view(out@) + rest =~= objects_view(out@.push(v)) + rest2);
                        },
                        Err(_) => {},
                    }
                }
                out.push(v);
            },
            Err(e) => {
                return Err(e);
            },
        }
    }
    proof {
        match spec_map_objects(va) {
            Ok(s) => {
                assert(s =~= objects_view(out@));
            },
            Err(_) => {},
        }
    }
    Ok(out)
}

/// What mapping the entries of a JSON array from index `k` on to models 
/// yields: the mapped suffix, or the kind of its first fault.
pub open spec fn spec_map_models_from(a: Seq<JsonV>, k: int) -> Result<Seq<ModelV>, MapFault>
    decreases a.len() - k,
{
    if k < 0 || k >= a.len() {
        Ok(Seq::empty())
    } else {
        match spec_map_model(a[k]) {
            Err(f) => Err(f),
            Ok(v) => match spec_map_models_from(a, k + 1) {
                Err(f) => Err(f),
                Ok(s) => Ok(seq![v] + s),
            },
        }
    }
}

/// What mapping a JSON array to a list of models yields.
pub open spec fn spec_map_models(a: Seq<JsonV>) -> Result<Seq<ModelV>, MapFault> {
    spec_map_models_from(a, 0)
}

/// Maps a JSON array's entries to models, in order and fail-fast, as
/// [`spec_map_models`] describes.
pub fn map_models(a: &Vec<JsonData>) -> (r: Result<Vec<Model>, LoadError>)
    ensures
        match spec_map_models(views_of(a@)) {
            Ok(s) => r matches Ok(out) && models_view(out@) == s,
            Err(f) => r matches Err(e) && fault_matches(e, f),
        },
{
    let ghost va = views_of(a@);
    let mut out: Vec<Model> = Vec::new();
    let n = a.len();
    proof {
        match spec_map_models(va) {
            Ok(s) => {
                assert(models_view(out@) + s =~= s);
            },
            Err(_) => {},
        }
    }
    for i in 0..n
        invariant
            n == a@.len(),
            va == views_of(a@),
            va.len() == n,
            out@.len() == i,
            spec_map_models(va) matches Ok(s) ==> spec_map_models_from(va, i as int)
                matches Ok(rest) && s == models_view(out@) + rest,
            spec_map_models(va) matches Err(f) ==> spec_map_models_from(va, i as int)
                matches Err(g) && f == g,
    {
        match map_model(&a[i]) {
            Ok(v) => {
                proof {
                    match spec_map_models(va) {
                        Ok(s) => {
                            let rest = spec_map_models_from(va, i as int)->Ok_0;
                            let rest2 = spec_map_models_from(va, i + 1)->Ok_0;
                            assert(models_view(out@) + rest =~= models_view(out@.push(v)) + rest2);
                        },
                        Err(_) => {},
                    }
                }
                out.push(v);
            },
            Err(e) => {
                return Err(e);
            },
        }
    }
    proof {
        match spec_map_models(va) {
            Ok(s) => {
                assert(s =~= models_view(out@));
            },
            Err(_) => {},
        }
    }
    Ok(out)
}

/// What mapping a JSON value to an [`Object`] yields: it must be an object
/// with members `position`, `vertices`, `faces` and `uvs`, the last three
/// arrays.
pub open spec fn spec_map_object(j: JsonV) -> Result<ObjectV, MapFault> {
    match member(j, "position"@) {
        None => Err(MapFault::Shape),
        Some(jp) => match spec_map_vertex(jp) {
            Err(f) => Err(f),
            Ok(position) => match member(j, "vertices"@) {
                None => Err(MapFault::Shape),
                Some(jv) => match jv {
                    JsonV::Arr(av) => match spec_map_vertices(av) {
                        Err(f) => Err(f),
                        Ok(vertices) => match member(j, "faces"@) {
                            None => Err(MapFault::Shape),
                            Some(jf) => match jf {
                                JsonV::Arr(af) => match spec_map_faces(af) {
                                    Err(f) => Err(f),
                                    Ok(faces) => match member(j, "uvs"@) {
                                        None => Err(MapFault::Shape),
                                        Some(ju) => match ju {
                                            JsonV::Arr(au) => match spec_map_uvs(au) {
                                                Err(f) => Err(f),
                                                Ok(uvs) => Ok(
                                                    ObjectV { position, vertices, faces, uvs },
                                                ),
                                            },
                                            _ => Err(MapFault::Shape),
                                        },
                                    },
                                },
                                _ => Err(MapFault::Shape),
                            },
                        },
                    },
                    _ => Err(MapFault::Shape),
                },
            },
        },
    }
}

/// Maps a JSON value to an [`Object`], as [`spec_map_object`] describes.
pub fn map_object(j: &JsonData) -> (r: Result<Object, LoadError>)
    ensures
        match spec_map_object(j@) {
            Ok(v) => r matches Ok(rv) && rv@ == v,
            Err(f) => r matches Err(e) && fault_matches(e, f),
        },
{
    let es = match j {
        JsonData::Obj(es) => es,
        _ => return Err(shape_error("expected an object for an object entry")),
    };
    let key_position = "position".to_owned();
    let key_vertices = "vertices".to_owned();
    let key_faces = "faces".to_owned();
    let key_uvs = "uvs".to_owned();
    let jp = match lookup(es, &key_position) {
        Some(v) => v,
        None => return Err(shape_error("object is missing member position")),
    };
    let position = map_vertex(jp)?;
    let jv = match lookup(es, &key_vertices) {
        Some(v) => v,
        None => return Err(shape_error("object is missing member vertices")),
    };
    let av = match jv {
        JsonData::Arr(av) => av,
        _ => return Err(shape_error("member vertices must be an array")),
    };
    let vertices = map_vertices(av)?;
    let jf = match lookup(es, &key_faces) {
        Some(v) => v,
        None => return Err(shape_error("object is missing member faces")),
    };
    let af = match jf {
        JsonData::Arr(af) => af,
        _ => return Err(shape_error("member faces must be an array")),
    };
    let faces = map_faces(af)?;
    let ju = match lookup(es, &key_uvs) {
        Some(v) => v,
        None => return Err(shape_error("object is missing member uvs")),
    };
    let au = match ju {
        JsonData::Arr(au) => au,
        _ => return Err(shape_error("member uvs must be an array")),
    };
    let uvs = map_uvs(au)?;
    Ok(Object { position, vertices, faces, uvs })
}

/// What mapping a JSON value to a [`Model`] yields: it must be an object
/// with a data-URI member `texture` and an array member `object`.
pub open spec fn spec_map_model(j: JsonV) -> Result<ModelV, MapFault> {
    match member(j, "texture"@) {
        None => Err(MapFault::Shape),
        Some(jt) => match spec_map_data_uri(jt) {
            Err(f) => Err(f),
            Ok(texture) => match member(j, "object"@) {
                None => Err(MapFault::Shape),
                Some(jo) => match jo {
                    JsonV::Arr(ao) => match spec_map_objects(ao) {
                        Err(f) => Err(f),
                        Ok(object) => Ok(ModelV { texture, object }),
                    },
                    _ => Err(MapFault::Shape),
                },
            },
        },
    }
}

/// Maps a JSON value to a [`Model`], as [`spec_map_model`] describes.
pub fn map_model(j: &JsonData) -> (r: Result<Model, LoadError>)
    ensures
        match spec_map_model(j@) {
            Ok(v) => r matches Ok(rv) && rv@ == v,
            Err(f) => r matches Err(e) && fault_matches(e, f),
        },
{
    let es = match j {
        JsonData::Obj(es) => es,
        _ => return Err(shape_error("expected an object for a model")),
    };
    let key_texture = "texture".to_owned();
    let key_object = "object".to_owned();
    let jt = match lookup(es, &key_texture) {
        Some(v) => v,
        None => return Err(shape_error("model is missing member texture")),
    };
    let texture = map_data_uri(jt)?;
    let jo = match lookup(es, &key_object) {
        Some(v) => v,
        None => return Err(shape_error("model is missing member object")),
    };
    let ao = match jo {
        JsonData::Arr(ao) => ao,
        _ => return Err(shape_error("member object must be an array")),
    };
    let object = map_objects(ao)?;
    Ok(Model { texture, object })
}

/// What mapping a JSON value to a [`Config`] yields: it must be an object
/// with numeric members `tilesizeX` and `tilesizeY`; `skybox` is optional,
/// but when present it must be a data-URI string that decodes.
pub open spec fn spec_map_config(j: JsonV) -> Result<ConfigV, MapFault> {
    match member(j, "tilesizeX"@) {
        None => Err(MapFault::Shape),
        Some(jx) => match spec_map_u16(jx) {
            Err(f) => Err(f),
            Ok(tilesize_x) => match member(j, "tilesizeY"@) {
                None => Err(MapFault::Shape),
                Some(jy) => match spec_map_u16(jy) {
                    Err(f) => Err(f),
                    Ok(tilesize_y) => match member(j, "skybox"@) {
                        None => Ok(ConfigV { tilesize_x, tilesize_y, skybox: None }),
                        Some(js) => match spec_map_data_uri(js) {
                            Err(f) => Err(f),
                            Ok(skybox) => Ok(
                                ConfigV { tilesize_x, tilesize_y, skybox: Some(skybox) },
                            ),
                        },
                    },
                },
            },
        },
    }
}

/// Maps a JSON value to a [`Config`], as [`spec_map_config`] describes.
pub fn map_config(j: &JsonData) -> (r: Result<Config, LoadError>)
    ensures
        match spec_map_config(j@) {
            Ok(v) => r matches Ok(rv) && rv@ == v,
            Err(f) => r matches Err(e) && fault_matches(e, f),
        },
{
    let es = match j {
        JsonData::Obj(es) => es,
        _ => return Err(shape_error("expected an object for the configuration")),
    };
    let key_x = "tilesizeX".to_owned();
    let key_y = "tilesizeY".to_owned();
    let key_skybox = "skybox".to_owned();
    let jx = match lookup(es, &key_x) {
        Some(v) => v,
        None => return Err(shape_error("configuration is missing member tilesizeX")),
    };
    let tilesize_x = map_u16(jx)?;
    let jy = match lookup(es, &key_y) {
        Some(v) => v,
        None => return Err(shape_error("configuration is missing member tilesizeY")),
    };
    let tilesize_y = map_u16(jy)?;
    let skybox = match lookup(es, &key_skybox) {
        None => None,
        Some(js) => Some(map_data_uri(js)?),
    };
    Ok(Config { tilesize_x, tilesize_y, skybox })
}

/// What mapping a whole document to a [`MapData`] yields: it must be an
/// object with a `config` member and an array member `model`.
pub open spec fn spec_map_document(j: JsonV) -> Result<MapDataV, MapFault> {
    match member(j, "config"@) {
        None => Err(MapFault::Shape),
        Some(jc) => match spec_map_config(jc) {
            Err(f) => Err(f),
            Ok(config) => match member(j, "model"@) {
                None => Err(MapFault::Shape),
                Some(jm) => match jm {
                    JsonV::Arr(am) => match spec_map_models(am) {
                        Err(f) => Err(f),
                        Ok(model) => Ok(MapDataV { config, model }),
                    },
                    _ => Err(MapFault::Shape),
                },
            },
        },
    }
}

/// Maps a whole document to a [`MapData`], as [`spec_map_document`]
/// describes.
pub fn map_document(j: &JsonData) -> (r: Result<MapData, LoadError>)
    ensures
        match spec_map_document(j@) {
            Ok(v) => r matches Ok(rv) && rv@ == v,
            Err(f) => r matches Err(e) && fault_matches(e, f),
        },
{
    let es = match j {
        JsonData::Obj(es) => es,
        _ => return Err(shape_error("expected an object at the top of the document")),
    };
    let key_config = "config".to_owned();
    let key_model = "model".to_owned();
    let jc = match lookup(es, &key_config) {
        Some(v) => v,
        None => return Err(shape_error("document is missing member config")),
    };
    let config = map_config(jc)?;
    let jm = match lookup(es, &key_model) {
        Some(v) => v,
        None => return Err(shape_error("document is missing member model")),
    };
    let am = match jm {
        JsonData::Arr(am) => am,
        _ => return Err(shape_error("member model must be an array")),
    };
    let model = map_models(am)?;
    Ok(MapData { config, model })
}

/// What any result of [`load`] satisfies on a given byte sequence.
pub open spec fn loads_to(bytes: Seq<u8>, r: Result<MapData, LoadError>) -> bool {
    match parsed_doc(bytes) {
        Some(j) => match spec_map_document(j) {
            Ok(m) => r matches Ok(d) && d@ == m,
            Err(f) => r matches Err(e) && fault_matches(e, f),
        },
        None => r matches Err(e) && e matches LoadError::StructuralError { syntax, .. }
            && syntax == parse_fault_syntax(bytes),
    }
}

/// Loads a `.crocotile` document from its bytes.
///
/// Parses the bytes as JSON and maps the document onto the typed
/// structures, decoding every data-URI field; the first structural or type
/// mismatch anywhere aborts the whole load with no partial result.  A
/// caller that reads the bytes from a file or stream reports a failure to
/// do so as [`LoadError::SourceUnavailable`]; the loader itself never
/// returns that variant.
pub fn load(source: &[u8]) -> (r: Result<MapData, LoadError>)
    ensures
        loads_to(source@, r),
{
    let v = match parse_value(source) {
        Ok(v) => v,
        Err(f) => return Err(
            LoadError::StructuralError { syntax: f.syntax, detail: f.detail },
        ),
    };
    let tree = to_tree(v);
    map_document(&tree)
}

/// Loading is deterministic: any two results that [`load`] may return of
/// the same bytes are structurally equal when they succeed.
pub proof fn lemma_load_deterministic(
    bytes: Seq<u8>,
    r1: Result<MapData, LoadError>,
    r2: Result<MapData, LoadError>,
)
    requires
        loads_to(bytes, r1),
        loads_to(bytes, r2),
    ensures
        r1 matches Ok(d1) ==> r2 matches Ok(d2) && d1@ == d2@,
{
}


/// A data-URI field whose payload is not valid base64 after the fixed
/// 22-byte skip — or which is shorter than the skip — maps to a decode
/// fault: never to a value, and never to absence.
pub proof fn lemma_bad_payload_is_decode_fault(s: Seq<u8>)
    requires
        s.len() < crate::DATA_URI_HEADER_LEN || mime_decoded(
            s.skip(crate::DATA_URI_HEADER_LEN as int),
        ) is None,
    ensures
        spec_map_data_uri(JsonV::Str(s)) == Err::<Seq<u8>, MapFault>(MapFault::Decode),
{
}

/// A configuration object without a `skybox` member maps to a
/// configuration whose skybox is absent — its absence is never an error.
pub proof fn lemma_absent_skybox(j: JsonV, c: ConfigV)
    requires
        spec_map_config(j) == Ok::<ConfigV, MapFault>(c),
        member(j, "skybox"@) is None,
    ensures
        c.skybox is None,
{
}

/// A triangle array, or a triangle's texture-coordinate array, of length
/// other than 3 maps to a shape fault.
pub proof fn lemma_wrong_arity_is_shape_fault(a: Seq<JsonV>)
    requires
        a.len() != 3,
    ensures
        spec_map_triangle(JsonV::Arr(a)) == Err::<Seq<u8>, MapFault>(MapFault::Shape),
        spec_map_uv(JsonV::Arr(a)) == Err::<Seq<UVCoord>, MapFault>(MapFault::Shape),
{
}

/// Bytes that do not parse as one JSON document load to a structural
/// error, never to a value or another error kind.
pub proof fn lemma_unparsed_is_structural(bytes: Seq<u8>, r: Result<MapData, LoadError>)
    requires
        loads_to(bytes, r),
        parsed_doc(bytes) is None,
    ensures
        r matches Err(e) && e matches LoadError::StructuralError { .. },
{
}

} // verus!
