//! The flattened mesh: three parallel attribute arrays, one entry per
//! face-vertex occurrence, with no shared-vertex deduplication.
//!
//! Components are single-precision bit patterns (see the crate root); the
//! bit pattern `0` is the value `0.0`, used by the zero-fill policy.

use vstd::prelude::*;

verus! {

/// Three single-precision components: a position or a normal.
#[derive(Clone, Copy, Debug, PartialEq, Eq, Structural)]
pub struct Vertex3 {
    pub x: u32,
    pub y: u32,
    pub z: u32,
}

/// Two single-precision components: a texture coordinate.
#[derive(Clone, Copy, Debug, PartialEq, Eq, Structural)]
pub struct Vertex2 {
    pub u: u32,
    pub v: u32,
}

/// The zero position or normal, the zero-fill value for a missing normal.
pub fn vertex3_zero() -> (r: Vertex3)
    ensures
        r == (Vertex3 { x: 0, y: 0, z: 0 }),
{
    Vertex3 { x: 0, y: 0, z: 0 }
}

/// The zero texture coordinate, the zero-fill value for a missing one.
pub fn vertex2_zero() -> (r: Vertex2)
    ensures
        r == (Vertex2 { u: 0, v: 0 }),
{
    Vertex2 { u: 0, v: 0 }
}

fn vertex3_vec_eq(a: &Vec<Vertex3>, b: &Vec<Vertex3>) -> (r: bool)
    ensures
        r == (a@ == b@),
{
    if a.len() != b.len() {
        return false;
    }
    let mut i: usize = 0;
    while i < a.len()
        invariant
            i <= a@.len(),
            a@.len() == b@.len(),
            forall|j: int| 0 <= j < i ==> a@[j] == b@[j],
        decreases a@.len() - i,
    {
        if a[i].x != b[i].x || a[i].y != b[i].y || a[i].z != b[i].z {
            return false;
        }
        i = i + 1;
    }
    proof {
        assert(a@ =~= b@);
    }
    true
}

fn vertex2_vec_eq(a: &Vec<Vertex2>, b: &Vec<Vertex2>) -> (r: bool)
    ensures
        r == (a@ == b@),
{
    if a.len() != b.len() {
        return false;
    }
    let mut i: usize = 0;
    while i < a.len()
        invariant
            i <= a@.len(),
            a@.len() == b@.len(),
            forall|j: int| 0 <= j < i ==> a@[j] == b@[j],
        decreases a@.len() - i,
    {
        if a[i].u != b[i].u || a[i].v != b[i].v {
            return false;
        }
        i = i + 1;
    }
    proof {
        assert(a@ =~= b@);
    }
    true
}

/// The position array of a mesh.
#[derive(Clone, Debug)]
pub struct Points {
    pub inner: Vec<Vertex3>,
}

impl View for Points {
    type V = Seq<Vertex3>;

    open spec fn view(&self) -> Seq<Vertex3> {
        self.inner@
    }
}

impl PartialEq for Points {
    fn eq(&self, other: &Points) -> (r: bool) {
        vertex3_vec_eq(&self.inner, &other.inner)
    }
}

impl vstd::std_specs::cmp::PartialEqSpecImpl for Points {
    open spec fn obeys_eq_spec() -> bool {
        true
    }

    open spec fn eq_spec(&self, other: &Points) -> bool {
        self.inner@ == other.inner@
    }
}

impl Points {
    /// The number of position entries.
    pub fn len(&self) -> (r: usize)
        ensures
            r == self@.len(),
    {
        self.inner.len()
    }

    /// The size of the position buffer in bytes: each entry is three
    /// four-byte components.
    pub fn len_bytes(&self) -> (r: usize)
        requires
            12 * self@.len() <= usize::MAX,
        ensures
            r == 12 * self@.len(),
    {
        3 * 4 * self.inner.len()
    }
}

/// The texture-coordinate array of a mesh.
#[derive(Clone, Debug)]
pub struct TextureCoordinates {
    pub inner: Vec<Vertex2>,
}

impl View for TextureCoordinates {
    type V = Seq<Vertex2>;

    open spec fn view(&self) -> Seq<Vertex2> {
        self.inner@
    }
}

impl PartialEq for TextureCoordinates {
    fn eq(&self, other: &TextureCoordinates) -> (r: bool) {
        vertex2_vec_eq(&self.inner, &other.inner)
    }
}

impl vstd::std_specs::cmp::PartialEqSpecImpl for TextureCoordinates {
    open spec fn obeys_eq_spec() -> bool {
        true
    }

    open spec fn eq_spec(&self, other: &TextureCoordinates) -> bool {
        self.inner@ == other.inner@
    }
}

impl TextureCoordinates {
    /// The number of texture-coordinate entries.
    pub fn len(&self) -> (r: usize)
        ensures
            r == self@.len(),
    {
        self.inner.len()
    }

    /// The size of the texture-coordinate buffer in bytes: each entry is two
    /// four-byte components.
    pub fn len_bytes(&self) -> (r: usize)
        requires
            8 * self@.len() <= usize::MAX,
        ensures
            r == 8 * self@.len(),
    {
        2 * 4 * self.inner.len()
    }
}

/// The normal array of a mesh.
#[derive(Clone, Debug)]
pub struct Normals {
    pub inner: Vec<Vertex3>,
}

impl View for Normals {
    type V = Seq<Vertex3>;

    open spec fn view(&self) -> Seq<Vertex3> {
        self.inner@
    }
}

impl PartialEq for Normals {
    fn eq(&self, other: &Normals) -> (r: bool) {
        vertex3_vec_eq(&self.inner, &other.inner)
    }
}

impl vstd::std_specs::cmp::PartialEqSpecImpl for Normals {
    open spec fn obeys_eq_spec() -> bool {
        true
    }

    open spec fn eq_spec(&self, other: &Normals) -> bool {
        self.inner@ == other.inner@
    }
}

impl Normals {
    /// The number of normal entries.
    pub fn len(&self) -> (r: usize)
        ensures
            r == self@.len(),
    {
        self.inner.len()
    }

    /// The size of the normal buffer in bytes: each entry is three four-byte
    /// components.
    pub fn len_bytes(&self) -> (r: usize)
        requires
            12 * self@.len() <= usize::MAX,
        ensures
            r == 12 * self@.len(),
    {
        3 * 4 * self.inner.len()
    }
}

/// A flattened model-space mesh: parallel position, texture-coordinate and
/// normal arrays.
#[derive(Clone, Debug)]
pub struct ObjMesh {
    pub points: Points,
    pub tex_coords: TextureCoordinates,
    pub normals: Normals,
}

impl PartialEq for ObjMesh {
    fn eq(&self, other: &ObjMesh) -> (r: bool) {
        self.points == other.points && self.tex_coords == other.tex_coords
            && self.normals == other.normals
    }
}

impl vstd::std_specs::cmp::PartialEqSpecImpl for ObjMesh {
    open spec fn obeys_eq_spec() -> bool {
        true
    }

    open spec fn eq_spec(&self, other: &ObjMesh) -> bool {
        self.points@ == other.points@ && self.tex_coords@ == other.tex_coords@
            && self.normals@ == other.normals@
    }
}

impl ObjMesh {
    /// The three arrays run in parallel: one entry of each per face-vertex
    /// occurrence, three occurrences per face.
    pub open spec fn wf(&self) -> bool {
        self.points@.len() == self.tex_coords@.len()
            && self.points@.len() == self.normals@.len()
            && self.points@.len() % 3 == 0
    }

    /// Builds a mesh from its three attribute arrays.
    pub fn new(points: Vec<Vertex3>, tex_coords: Vec<Vertex2>, normals: Vec<Vertex3>) -> (r:
        ObjMesh)
        ensures
            r.points@ == points@,
            r.tex_coords@ == tex_coords@,
            r.normals@ == normals@,
    {
        ObjMesh {
            points: Points { inner: points },
            tex_coords: TextureCoordinates { inner: tex_coords },
            normals: Normals { inner: normals },
        }
    }

    /// The position array.
    pub fn points(&self) -> (r: &Vec<Vertex3>)
        ensures
            r@ == self.points@,
    {
        &self.points.inner
    }

    /// The texture-coordinate array.
    pub fn tex_coords(&self) -> (r: &Vec<Vertex2>)
        ensures
            r@ == self.tex_coords@,
    {
        &self.tex_coords.inner
    }

    /// The normal array.
    pub fn normals(&self) -> (r: &Vec<Vertex3>)
        ensures
            r@ == self.normals@,
    {
        &self.normals.inner
    }

    /// The number of vertices in the mesh.
    pub fn len(&self) -> (r: usize)
        ensures
            r == self.points@.len(),
    {
        self.points.len()
    }
}

} // verus!
