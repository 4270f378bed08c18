//! Loader for the `.crocotile` tile-editor export format.
//!
//! A `.crocotile` document is JSON text holding map configuration and a list
//! of models; each model carries a data-URI-encoded texture and a list of
//! geometric objects.  [`load`] parses such a document from bytes and maps it
//! onto the typed structures of [`map`], decoding the embedded binary fields
//! on the way.

use vstd::prelude::*;

pub mod codec;
pub mod errors;
pub mod json;
pub mod map;
pub mod mapper;
pub mod ser;
pub mod wire;

pub use errors::LoadError;
pub use map::Config;
pub use map::MapData;
pub use mapper::load;
pub use map::Model;
pub use map::Object;
pub use map::Triangle;
pub use map::UVCoord;
pub use map::Vertex;
pub use map::UV;

verus! {

/// The fixed number of bytes discarded from the front of every data-URI
/// field before base64 decoding.  The producing tool always emits a
/// `data:image/png;base64,` header, which is exactly this long; the format
/// relies on the fixed offset rather than scanning for the `,`.
pub const DATA_URI_HEADER_LEN: usize = 22;

} // verus!
