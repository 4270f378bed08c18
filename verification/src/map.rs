//! The typed map structures and the document mapper.
//!
//! The entity graph mirrors the wire document: a [`MapData`] holds the map
//! configuration and its models; each model a decoded texture and its
//! objects; each object a position, vertices, triangulated faces and
//! per-triangle texture coordinates.  Coordinates travel as 32-bit IEEE 754
//! binary floats on the wire; the library carries each as its bit pattern,
//! so that no value is disturbed on the way through.

use vstd::prelude::*;

verus! {

/// A vertex: a point of an object.  Each coordinate is the bit pattern of
/// a 32-bit IEEE 754 binary float.
#[derive(Debug, PartialEq)]
pub struct Vertex {
    /// X coordinate, as float bits.
    pub x: u32,
    /// Y coordinate, as float bits.
    pub y: u32,
    /// Z coordinate, as float bits.
    pub z: u32,
}

/// Texture coordinates for one corner of a triangle.  Each coordinate is
/// the bit pattern of a 32-bit IEEE 754 binary float.
#[derive(Debug, PartialEq)]
pub struct UVCoord {
    /// X coordinate, as float bits.
    pub x: u32,
    /// Y coordinate, as float bits.
    pub y: u32,
}

/// The three indexes into the vertex list used to draw a triangle.
pub type Triangle = [u8; 3];

/// The texture coordinates to use for each vertex of a triangle.
pub type UV = [UVCoord; 3];

/// A distinct part of a model.
#[derive(Debug, PartialEq)]
pub struct Object {
    /// Object-level translation.
    pub position: Vertex,
    /// All vertices used to display this object, in document order.
    pub vertices: Vec<Vertex>,
    /// Indexes of vertices grouped by triangle, in document order.
    pub faces: Vec<Triangle>,
    /// Texture coordinates for each triangle, in document order.
    pub uvs: Vec<UV>,
}

/// A model: a texture map and the objects drawn with it.
#[derive(Debug, PartialEq)]
pub struct Model {
    /// The texture used on the model, decoded from its data-URI field.
    pub texture: Vec<u8>,
    /// The individual parts of the model, in document order.
    pub object: Vec<Object>,
}

/// Map-wide configuration.
#[derive(Debug, PartialEq)]
pub struct Config {
    /// The width of a tile from the texture map.
    pub tilesize_x: u16,
    /// The height of a tile from the texture map.
    pub tilesize_y: u16,
    /// Texture to use on the skybox, decoded from its data-URI field;
    /// absent when the wire document has no `skybox` member.
    pub skybox: Option<Vec<u8>>,
}

/// Container for crocotile map data.
#[derive(Debug, PartialEq)]
pub struct MapData {
    /// Configuration for the map.
    pub config: Config,
    /// All the models contained within the map, in document order.
    pub model: Vec<Model>,
}

/// Mathematical image of a [`Config`].
pub struct ConfigV {
    /// See [`Config::tilesize_x`].
    pub tilesize_x: u16,
    /// See [`Config::tilesize_y`].
    pub tilesize_y: u16,
    /// See [`Config::skybox`].
    pub skybox: Option<Seq<u8>>,
}

impl View for Config {
    type V = ConfigV;

    open spec fn view(&self) -> ConfigV {
        ConfigV {
            tilesize_x: self.tilesize_x,
            tilesize_y: self.tilesize_y,
            skybox: match self.skybox {
                Some(b) => Some(b@),
                None => None,
            },
        }
    }
}

/// Mathematical image of an [`Object`].
pub struct ObjectV {
    /// See [`Object::position`].
    pub position: Vertex,
    /// See [`Object::vertices`].
    pub vertices: Seq<Vertex>,
    /// Each face as its three indexes.
    pub faces: Seq<Seq<u8>>,
    /// Each triangle's texture coordinates, three per triangle.
    pub uvs: Seq<Seq<UVCoord>>,
}

/// Mathematical image of a [`Model`].
pub struct ModelV {
    /// See [`Model::texture`].
    pub texture: Seq<u8>,
    /// See [`Model::object`].
    pub object: Seq<ObjectV>,
}

/// Mathematical image of a [`MapData`].
pub struct MapDataV {
    /// See [`MapData::config`].
    pub config: ConfigV,
    /// See [`MapData::model`].
    pub model: Seq<ModelV>,
}

/// The images of a sequence of triangles.
pub open spec fn triangles_view(s: Seq<Triangle>) -> Seq<Seq<u8>> {
    Seq::new(s.len(), |i: int| s[i]@)
}

/// The images of a sequence of per-triangle texture coordinates.
pub open spec fn uvs_view(s: Seq<UV>) -> Seq<Seq<UVCoord>> {
    Seq::new(s.len(), |i: int| s[i]@)
}

/// The images of a sequence of objects.
pub open spec fn objects_view(s: Seq<Object>) -> Seq<ObjectV> {
    Seq::new(s.len(), |i: int| s[i]@)
}

/// The images of a sequence of models.
pub open spec fn models_view(s: Seq<Model>) -> Seq<ModelV> {
    Seq::new(s.len(), |i: int| s[i]@)
}

impl View for Object {
    type V = ObjectV;

    open spec fn view(&self) -> ObjectV {
        ObjectV {
            position: self.position,
            vertices: self.vertices@,
            faces: triangles_view(self.faces@),
            uvs: uvs_view(self.uvs@),
        }
    }
}

impl View for Model {
    type V = ModelV;

    open spec fn view(&self) -> ModelV {
        ModelV {
            texture: self.texture@,
            object: objects_view(self.object@),
        }
    }
}

impl View for MapData {
    type V = MapDataV;

    open spec fn view(&self) -> MapDataV {
        MapDataV {
            config: self.config@,
            model: models_view(self.model@),
        }
    }
}

} // verus!
