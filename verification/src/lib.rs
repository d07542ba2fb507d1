//! Loading triangulated Wavefront OBJ data into a flattened vertex-attribute
//! mesh, and rendering such a mesh as a literal Rust source fragment.
//!
//! The pipeline is: interchange text -> scene graph (external parser) ->
//! flattened mesh -> token sequence (IR) -> source text. Coordinates are
//! IEEE 754 single-precision values, carried everywhere as their bit
//! patterns (`u32`), so that the whole pipeline is ordinary integer data
//! flow; the `fp` module gives the bit patterns their numeric meaning.

pub mod codegen;
pub mod decimal;
pub mod flatten;
pub mod fp;
pub mod guard;
pub mod ir;
pub mod mesh;
pub mod parse;
pub mod scene;
pub mod synth;

pub use flatten::flatten;
pub use mesh::Normals;
pub use mesh::ObjMesh;
pub use mesh::Points;
pub use mesh::TextureCoordinates;
pub use mesh::Vertex2;
pub use mesh::Vertex3;
pub use parse::load;
pub use parse::load_from_memory;
pub use parse::load_opened;
pub use scene::Element;
pub use scene::LoadError;
pub use scene::SceneObject;
pub use scene::VtnRef;
pub use synth::to_rust_code;
