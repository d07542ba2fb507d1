//! The mesh flattener: walks an object's elements in source order and, for
//! each triangular face, appends the three resolved corners to the three
//! parallel attribute arrays. Elements of any other kind are skipped.

use vstd::prelude::*;
use crate::mesh::ObjMesh;
use crate::mesh::Vertex2;
use crate::mesh::Vertex3;
use crate::scene::Element;
use crate::scene::LoadError;
use crate::scene::SceneObject;
use crate::scene::SceneView;
use crate::scene::VtnRef;
use crate::scene::ref_resolves;
use crate::scene::resolve_norm;
use crate::scene::resolve_pos;
use crate::scene::resolve_tex;
use crate::scene::resolve_vtn;

verus! {

/// The corners a single element contributes, in source order: a face's
/// three, any other element's none.
pub open spec fn elem_refs(e: Element) -> Seq<VtnRef> {
    match e {
        Element::Face(a, b, c) => seq![a, b, c],
        Element::Other => Seq::empty(),
    }
}

/// All three indices of every corner of the element lie in the tables.
pub open spec fn elem_resolves(o: SceneView, e: Element) -> bool {
    forall|i: int| 0 <= i < elem_refs(e).len() ==> ref_resolves(o, elem_refs(e)[i])
}

/// Every face of the object resolves.
pub open spec fn all_resolve(o: SceneView) -> bool {
    forall|i: int| 0 <= i < o.elements.len() ==> elem_resolves(o, #[trigger] o.elements[i])
}

/// The face-vertex references of the first `n` elements, flattened, in
/// source order.
pub open spec fn refs_upto(o: SceneView, n: int) -> Seq<VtnRef>
    decreases n,
{
    if n <= 0 {
        Seq::empty()
    } else {
        refs_upto(o, n - 1) + elem_refs(o.elements[n - 1])
    }
}

/// Every face-vertex reference of the object, in source order.
pub open spec fn flat_refs(o: SceneView) -> Seq<VtnRef> {
    refs_upto(o, o.elements.len() as int)
}

/// The flattened position array: one entry per face-vertex reference.
pub open spec fn flat_positions(o: SceneView) -> Seq<Vertex3> {
    flat_refs(o).map_values(|r: VtnRef| resolve_pos(o, r))
}

/// The flattened texture-coordinate array, zero-filled where a reference
/// has no texture index.
pub open spec fn flat_tex_coords(o: SceneView) -> Seq<Vertex2> {
    flat_refs(o).map_values(|r: VtnRef| resolve_tex(o, r))
}

/// The flattened normal array, zero-filled where a reference has no normal
/// index.
pub open spec fn flat_normals(o: SceneView) -> Seq<Vertex3> {
    flat_refs(o).map_values(|r: VtnRef| resolve_norm(o, r))
}

proof fn lemma_refs_upto_zero(o: SceneView)
    ensures
        refs_upto(o, 0) == Seq::<VtnRef>::empty(),
{
    reveal_with_fuel(refs_upto, 1);
}

proof fn lemma_refs_upto_step(o: SceneView, n: int)
    requires
        0 <= n,
    ensures
        refs_upto(o, n + 1) == refs_upto(o, n) + elem_refs(o.elements[n]),
{
    reveal_with_fuel(refs_upto, 1);
}

proof fn lemma_refs_upto_len(o: SceneView, n: int)
    requires
        0 <= n <= o.elements.len(),
    ensures
        refs_upto(o, n).len() % 3 == 0,
    decreases n,
{
    if n == 0 {
        lemma_refs_upto_zero(o);
    } else {
        lemma_refs_upto_len(o, n - 1);
        lemma_refs_upto_step(o, n - 1);
        assert(elem_refs(o.elements[n - 1]).len() % 3 == 0);
    }
}

/// The three flattened arrays are parallel: equal lengths, one entry per
/// face-vertex reference, and the common length is a multiple of three.
pub proof fn lemma_flat_lengths(o: SceneView)
    ensures
        flat_positions(o).len() == flat_refs(o).len(),
        flat_tex_coords(o).len() == flat_refs(o).len(),
        flat_normals(o).len() == flat_refs(o).len(),
        flat_refs(o).len() % 3 == 0,
{
    lemma_refs_upto_len(o, o.elements.len() as int);
}

/// Flattening is order-preserving: the `k`-th entry of each flattened array
/// is the resolution of the `k`-th face-vertex reference encountered in
/// source face order.
pub proof fn lemma_flatten_order_preserving(o: SceneView, k: int)
    requires
        0 <= k < flat_refs(o).len(),
    ensures
        flat_positions(o)[k] == resolve_pos(o, flat_refs(o)[k]),
        flat_tex_coords(o)[k] == resolve_tex(o, flat_refs(o)[k]),
        flat_normals(o)[k] == resolve_norm(o, flat_refs(o)[k]),
{
}

/// The zero-fill policy: a face-vertex reference without a texture index
/// resolves to the zero texture coordinate, and one without a normal index
/// to the zero normal.
pub proof fn lemma_zero_fill(o: SceneView, r: VtnRef)
    ensures
        r.vt is None ==> resolve_tex(o, r) == (Vertex2 { u: 0, v: 0 }),
        r.vn is None ==> resolve_norm(o, r) == (Vertex3 { x: 0, y: 0, z: 0 }),
{
}

/// Flattens one object into a mesh: for each face, in source order, the
/// three corners' attributes are appended to the three parallel arrays.
/// The load fails exactly when some face corner's index lies outside its
/// table; an object without faces yields an empty mesh.
pub fn flatten(obj: &SceneObject) -> (r: Result<ObjMesh, LoadError>)
    ensures
        match r {
            Ok(mesh) => all_resolve(obj@) && mesh.points@ == flat_positions(obj@)
                && mesh.tex_coords@ == flat_tex_coords(obj@) && mesh.normals@ == flat_normals(obj@)
                && mesh.wf(),
            Err(e) => e == LoadError::UnresolvedIndex && !all_resolve(obj@),
        },
{
    let mut positions: Vec<Vertex3> = Vec::new();
    let mut tex_coords: Vec<Vertex2> = Vec::new();
    let mut normals: Vec<Vertex3> = Vec::new();
    let mut i: usize = 0;
    let n = obj.elements.len();
    proof {
        lemma_refs_upto_zero(obj@);
        assert(positions@ =~= refs_upto(obj@, 0).map_values(|r: VtnRef| resolve_pos(obj@, r)));
        assert(tex_coords@ =~= refs_upto(obj@, 0).map_values(|r: VtnRef| resolve_tex(obj@, r)));
        assert(normals@ =~= refs_upto(obj@, 0).map_values(|r: VtnRef| resolve_norm(obj@, r)));
    }
    while i < n
        invariant
            i <= n,
            n == obj.elements@.len(),
            positions@ == refs_upto(obj@, i as int).map_values(|r: VtnRef| resolve_pos(obj@, r)),
            tex_coords@ == refs_upto(obj@, i as int).map_values(|r: VtnRef| resolve_tex(obj@, r)),
            normals@ == refs_upto(obj@, i as int).map_values(|r: VtnRef| resolve_norm(obj@, r)),
            forall|j: int| 0 <= j < i ==> elem_resolves(obj@, #[trigger] obj.elements@[j]),
        decreases n - i,
    {
        let elem = obj.elements[i];
        match elem {
            Element::Face(a, b, c) => {
                let ta = match resolve_vtn(obj, a) {
                    Ok(t) => t,
                    Err(e) => {
                        proof {
                            assert(elem_refs(elem)[0] == a);
                            assert(!elem_resolves(obj@, obj.elements@[i as int]));
                        }
                        return Err(e);
                    },
                };
                let tb = match resolve_vtn(obj, b) {
                    Ok(t) => t,
                    Err(e) => {
                        proof {
                            assert(elem_refs(elem)[1] == b);
                            assert(!elem_resolves(obj@, obj.elements@[i as int]));
                        }
                        return Err(e);
                    },
                };
                let tc = match resolve_vtn(obj, c) {
                    Ok(t) => t,
                    Err(e) => {
                        proof {
                            assert(elem_refs(elem)[2] == c);
                            assert(!elem_resolves(obj@, obj.elements@[i as int]));
                        }
                        return Err(e);
                    },
                };
                positions.push(ta.0);
                positions.push(tb.0);
                positions.push(tc.0);
                tex_coords.push(ta.1);
                tex_coords.push(tb.1);
                tex_coords.push(tc.1);
                normals.push(ta.2);
                normals.push(tb.2);
                normals.push(tc.2);
                proof {
                    lemma_refs_upto_step(obj@, i as int);
                    assert forall|j: int| 0 <= j < elem_refs(elem).len() implies ref_resolves(
                        obj@,
                        elem_refs(elem)[j],
                    ) by {
                        assert(elem_refs(elem)[0] == a && elem_refs(elem)[1] == b && elem_refs(
                            elem,
                        )[2] == c);
                    }
                    assert(positions@ =~= refs_upto(obj@, i + 1).map_values(
                        |r: VtnRef| resolve_pos(obj@, r),
                    ));
                    assert(tex_coords@ =~= refs_upto(obj@, i + 1).map_values(
                        |r: VtnRef| resolve_tex(obj@, r),
                    ));
                    assert(normals@ =~= refs_upto(obj@, i + 1).map_values(
                        |r: VtnRef| resolve_norm(obj@, r),
                    ));
                }
            },
            Element::Other => {
                proof {
                    lemma_refs_upto_step(obj@, i as int);
                    assert(elem_refs(obj.elements@[i as int]).len() == 0);
                    assert(refs_upto(obj@, i + 1) =~= refs_upto(obj@, i as int));
                }
            },
        }
        i = i + 1;
    }
    proof {
        lemma_flat_lengths(obj@);
    }
    Ok(ObjMesh::new(positions, tex_coords, normals))
}

} // verus!
