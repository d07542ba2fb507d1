//! The scene graph the flattener consumes: one parsed object's coordinate
//! tables and element list, and the resolution of a face corner's index
//! triple against those tables.
//!
//! Any conforming interchange-format parser can feed this shape; the `parse`
//! module fills it from the external Wavefront OBJ parser.

use vstd::prelude::*;
use crate::mesh::Vertex2;
use crate::mesh::Vertex3;

verus! {

/// A face corner's indices into the coordinate tables, zero-based: a
/// position index, and optional texture-coordinate and normal indices.
#[derive(Clone, Copy, Debug)]
pub struct VtnRef {
    pub v: usize,
    pub vt: Option<usize>,
    pub vn: Option<usize>,
}

/// One element of an object: a triangular face with its three corners in
/// source order, or an element of any other kind, which flattening skips.
#[derive(Clone, Copy, Debug)]
pub enum Element {
    Face(VtnRef, VtnRef, VtnRef),
    Other,
}

/// A parsed object: coordinate tables and its elements, in source order.
#[derive(Clone, Debug)]
pub struct SceneObject {
    pub vertices: Vec<Vertex3>,
    pub tex_vertices: Vec<Vertex2>,
    pub normals: Vec<Vertex3>,
    pub elements: Vec<Element>,
}

/// The mathematical value of a scene object: its coordinate tables and its
/// element list as sequences.
pub struct SceneView {
    pub vertices: Seq<Vertex3>,
    pub tex_vertices: Seq<Vertex2>,
    pub normals: Seq<Vertex3>,
    pub elements: Seq<Element>,
}

impl View for SceneObject {
    type V = SceneView;

    open spec fn view(&self) -> SceneView {
        SceneView {
            vertices: self.vertices@,
            tex_vertices: self.tex_vertices@,
            normals: self.normals@,
            elements: self.elements@,
        }
    }
}

/// How a load can fail.
#[derive(Clone, Copy, Debug, PartialEq, Eq, Structural)]
pub enum LoadError {
    /// The input path could not be opened.
    FileNotFound,
    /// The input was not text, or the parser rejected it.
    Parse,
    /// A face corner's index points outside the coordinate tables.
    UnresolvedIndex,
}

impl LoadError {
    /// A short description of the error.
    pub fn message(&self) -> (r: &'static str)
        ensures
            r@ == match self {
                LoadError::FileNotFound => "file not found"@,
                LoadError::Parse => "parse error"@,
                LoadError::UnresolvedIndex => "face index out of range"@,
            },
    {
        match self {
            LoadError::FileNotFound => "file not found",
            LoadError::Parse => "parse error",
            LoadError::UnresolvedIndex => "face index out of range",
        }
    }
}

/// Every index of the corner lies inside its table.
pub open spec fn ref_resolves(o: SceneView, r: VtnRef) -> bool {
    &&& r.v < o.vertices.len()
    &&& (r.vt is Some ==> r.vt.unwrap() < o.tex_vertices.len())
    &&& (r.vn is Some ==> r.vn.unwrap() < o.normals.len())
}

/// The position a resolved corner names.
pub open spec fn resolve_pos(o: SceneView, r: VtnRef) -> Vertex3 {
    o.vertices[r.v as int]
}

/// The texture coordinate of a resolved corner: the indexed table entry, or
/// zero when the corner has no texture index.
pub open spec fn resolve_tex(o: SceneView, r: VtnRef) -> Vertex2 {
    if r.vt is Some {
        o.tex_vertices[r.vt.unwrap() as int]
    } else {
        Vertex2 { u: 0, v: 0 }
    }
}

/// The normal of a resolved corner: the indexed table entry, or zero when
/// the corner has no normal index.
pub open spec fn resolve_norm(o: SceneView, r: VtnRef) -> Vertex3 {
    if r.vn is Some {
        o.normals[r.vn.unwrap() as int]
    } else {
        Vertex3 { x: 0, y: 0, z: 0 }
    }
}

/// Resolves one face corner against the tables: its position, its texture
/// coordinate or zero, and its normal or zero. An index outside its table is
/// fatal.
pub fn resolve_vtn(obj: &SceneObject, r: VtnRef) -> (res: Result<
    (Vertex3, Vertex2, Vertex3),
    LoadError,
>)
    ensures
        match res {
            Ok(t) => ref_resolves(obj@, r) && t.0 == resolve_pos(obj@, r) && t.1 == resolve_tex(
                obj@,
                r,
            ) && t.2 == resolve_norm(obj@, r),
            Err(e) => e == LoadError::UnresolvedIndex && !ref_resolves(obj@, r),
        },
{
    if r.v >= obj.vertices.len() {
        return Err(LoadError::UnresolvedIndex);
    }
    let pos = obj.vertices[r.v];
    let tex = match r.vt {
        Some(ti) => {
            if ti >= obj.tex_vertices.len() {
                return Err(LoadError::UnresolvedIndex);
            }
            obj.tex_vertices[ti]
        },
        None => crate::mesh::vertex2_zero(),
    };
    let norm = match r.vn {
        Some(ni) => {
            if ni >= obj.normals.len() {
                return Err(LoadError::UnresolvedIndex);
            }
            obj.normals[ni]
        },
        None => crate::mesh::vertex3_zero(),
    };
    Ok((pos, tex, norm))
}

} // verus!
