//! The boundary to the external Wavefront OBJ parser.
//!
//! `wavefront_obj` turns interchange text into an `ObjSet`; everything the
//! library reads out of that value goes through the trusted accessors below,
//! whose contracts speak of uninterpreted names for the set's contents
//! (coordinates as double-precision bit patterns, and each geometry group's
//! shapes as optional index triples — `Some` for a triangle, `None` for a
//! point or line). The verified code in this module then builds the
//! library's own scene object and drives the flattener.

use vstd::prelude::*;
use wavefront_obj::obj::ObjSet;
use wavefront_obj::ParseError;
use crate::fp::demote_spec;
use crate::fp::demote_f64_bits;
use crate::flatten::all_resolve;
use crate::flatten::flat_normals;
use crate::flatten::flat_positions;
use crate::flatten::flat_tex_coords;
use crate::flatten::flatten;
use crate::mesh::ObjMesh;
use crate::mesh::Vertex2;
use crate::mesh::Vertex3;
use crate::scene::Element;
use crate::scene::LoadError;
use crate::scene::SceneObject;
use crate::scene::SceneView;
use crate::scene::VtnRef;
use crate::guard::has_overflowing_face_index;
use crate::guard::overflowing_face_index;
use vstd::utf8::encode_utf8;
use vstd::utf8::encode_utf8_decode_utf8;

verus! {

#[verifier::external_type_specification]
#[verifier::external_body]
pub struct ExObjSet(ObjSet);

#[verifier::external_type_specification]
#[verifier::external_body]
pub struct ExParseError(ParseError);

/// Whether the external parser accepts this text.
pub uninterp spec fn parse_accepts(text: Seq<char>) -> bool;

/// The number of objects in a parsed set.
pub uninterp spec fn num_objects(s: ObjSet) -> nat;

/// Object `i`'s position table: each entry the three coordinates' bit
/// patterns.
pub uninterp spec fn object_vertices(s: ObjSet, i: int) -> Seq<(u64, u64, u64)>;

/// Object `i`'s texture-coordinate table: each entry the two planar
/// coordinates' bit patterns (the third coordinate is not consumed).
pub uninterp spec fn object_tex_vertices(s: ObjSet, i: int) -> Seq<(u64, u64)>;

/// Object `i`'s normal table.
pub uninterp spec fn object_normals(s: ObjSet, i: int) -> Seq<(u64, u64, u64)>;

/// The number of geometry groups of object `i`.
pub uninterp spec fn num_geometries(s: ObjSet, i: int) -> nat;

/// The shapes of geometry group `g` of object `i`, in source order: a
/// triangle's three index triples as stored by the parser, or `None` for a
/// point or line. Each triple is (position index, texture index, normal
/// index), zero-based, the latter two optional.
pub uninterp spec fn geometry_shapes(s: ObjSet, i: int, g: int) -> Seq<
    Option<
        (
            (usize, Option<usize>, Option<usize>),
            (usize, Option<usize>, Option<usize>),
            (usize, Option<usize>, Option<usize>),
        ),
    >,
>;

/// The number of objects the parser finds in this text (meaningful where it
/// accepts the text).
pub uninterp spec fn parsed_num_objects(text: Seq<char>) -> nat;

/// The first parsed object's position table, as `object_vertices` reads it.
pub uninterp spec fn parsed_vertices(text: Seq<char>) -> Seq<(u64, u64, u64)>;

/// The first parsed object's texture table, as `object_tex_vertices` reads
/// it.
pub uninterp spec fn parsed_tex_vertices(text: Seq<char>) -> Seq<(u64, u64)>;

/// The first parsed object's normal table, as `object_normals` reads it.
pub uninterp spec fn parsed_normals(text: Seq<char>) -> Seq<(u64, u64, u64)>;

/// The first parsed object's shapes, flattened across its geometry groups in
/// source order, as `geometry_shapes` reads them.
pub uninterp spec fn parsed_shapes(text: Seq<char>) -> Seq<
    Option<
        (
            (usize, Option<usize>, Option<usize>),
            (usize, Option<usize>, Option<usize>),
            (usize, Option<usize>, Option<usize>),
        ),
    >,
>;

/// Relies on `wavefront_obj::obj::parse`: a pure function of the text, so
/// acceptance, and everything the accessors below read out of the returned
/// set's first object, are functions of the text alone. The caller must
/// screen out face and line statements holding a minus-prefixed index of
/// nineteen or more digits: on those the parser's relative-index adjustment
/// can overflow and abort instead of returning its parse error.
#[verifier::external_body]
fn parse_obj(text: &str) -> (r: Result<ObjSet, ParseError>)
    requires
        !overflowing_face_index(encode_utf8(text@)),
    ensures
        r is Ok <==> parse_accepts(text@),
        match r {
            Ok(set) => num_objects(set) == parsed_num_objects(text@) && (num_objects(set) > 0
                ==> object_vertices(set, 0) == parsed_vertices(text@) && object_tex_vertices(
                set,
                0,
            ) == parsed_tex_vertices(text@) && object_normals(set, 0) == parsed_normals(text@)
                && all_shapes(set, 0) == parsed_shapes(text@)),
            Err(_) => true,
        },
{
    wavefront_obj::obj::parse(text)
}

/// Relies on `ObjSet::objects` being the set's object list.
#[verifier::external_body]
fn object_count(set: &ObjSet) -> (r: usize)
    ensures
        r == num_objects(*set),
{
    set.objects.len()
}

/// Relies on `Object::vertices` being object `i`'s position table.
#[verifier::external_body]
fn vertex_count(set: &ObjSet, i: usize) -> (r: usize)
    requires
        i < num_objects(*set),
    ensures
        r == object_vertices(*set, i as int).len(),
{
    set.objects[i].vertices.len()
}

/// Relies on `Vertex`'s `x`, `y`, `z` fields and `f64::to_bits`.
#[verifier::external_body]
fn vertex_at(set: &ObjSet, i: usize, j: usize) -> (r: (u64, u64, u64))
    requires
        i < num_objects(*set),
        j < object_vertices(*set, i as int).len(),
    ensures
        r == object_vertices(*set, i as int)[j as int],
{
    let v = &set.objects[i].vertices[j];
    (v.x.to_bits(), v.y.to_bits(), v.z.to_bits())
}

/// Relies on `Object::tex_vertices` being object `i`'s texture table.
#[verifier::external_body]
fn tex_vertex_count(set: &ObjSet, i: usize) -> (r: usize)
    requires
        i < num_objects(*set),
    ensures
        r == object_tex_vertices(*set, i as int).len(),
{
    set.objects[i].tex_vertices.len()
}

/// Relies on `TVertex`'s `u`, `v` fields and `f64::to_bits`.
#[verifier::external_body]
fn tex_vertex_at(set: &ObjSet, i: usize, j: usize) -> (r: (u64, u64))
    requires
        i < num_objects(*set),
        j < object_tex_vertices(*set, i as int).len(),
    ensures
        r == object_tex_vertices(*set, i as int)[j as int],
{
    let t = &set.objects[i].tex_vertices[j];
    (t.u.to_bits(), t.v.to_bits())
}

/// Relies on `Object::normals` being object `i`'s normal table.
#[verifier::external_body]
fn normal_count(set: &ObjSet, i: usize) -> (r: usize)
    requires
        i < num_objects(*set),
    ensures
        r == object_normals(*set, i as int).len(),
{
    set.objects[i].normals.len()
}

/// Relies on `Vertex`'s fields and `f64::to_bits`.
#[verifier::external_body]
fn normal_at(set: &ObjSet, i: usize, j: usize) -> (r: (u64, u64, u64))
    requires
        i < num_objects(*set),
        j < object_normals(*set, i as int).len(),
    ensures
        r == object_normals(*set, i as int)[j as int],
{
    let v = &set.objects[i].normals[j];
    (v.x.to_bits(), v.y.to_bits(), v.z.to_bits())
}

/// Relies on `Object::geometry` being object `i`'s geometry-group list.
#[verifier::external_body]
fn geometry_count(set: &ObjSet, i: usize) -> (r: usize)
    requires
        i < num_objects(*set),
    ensures
        r == num_geometries(*set, i as int),
{
    set.objects[i].geometry.len()
}

/// Relies on `Geometry::shapes` being group `g`'s shape list.
#[verifier::external_body]
fn shape_count(set: &ObjSet, i: usize, g: usize) -> (r: usize)
    requires
        i < num_objects(*set),
        g < num_geometries(*set, i as int),
    ensures
        r == geometry_shapes(*set, i as int, g as int).len(),
{
    set.objects[i].geometry[g].shapes.len()
}

/// Relies on `Shape::primitive`: a `Primitive::Triangle` carries three
/// `VTNIndex` triples; a point or line is no face.
#[verifier::external_body]
fn shape_at(set: &ObjSet, i: usize, g: usize, k: usize) -> (r: Option<
    (
        (usize, Option<usize>, Option<usize>),
        (usize, Option<usize>, Option<usize>),
        (usize, Option<usize>, Option<usize>),
    ),
>)
    requires
        i < num_objects(*set),
        g < num_geometries(*set, i as int),
        k < geometry_shapes(*set, i as int, g as int).len(),
    ensures
        r == geometry_shapes(*set, i as int, g as int)[k as int],
{
    match set.objects[i].geometry[g].shapes[k].primitive {
        wavefront_obj::obj::Primitive::Triangle(a, b, c) => Some((a, b, c)),
        wavefront_obj::obj::Primitive::Point(_) => None,
        wavefront_obj::obj::Primitive::Line(_, _) => None,
    }
}

/// A position or normal table entry, demoted to single precision.
pub open spec fn demoted3(t: (u64, u64, u64)) -> Vertex3 {
    Vertex3 { x: demote_spec(t.0), y: demote_spec(t.1), z: demote_spec(t.2) }
}

/// A texture table entry, demoted to single precision.
pub open spec fn demoted2(t: (u64, u64)) -> Vertex2 {
    Vertex2 { u: demote_spec(t.0), v: demote_spec(t.1) }
}

/// The scene element of one parsed shape. The parser lists a triangle's
/// corners rotated — the last source corner first — so the source order is
/// restored here; a point or line becomes a skipped element.
pub open spec fn shape_element(
    s: Option<
        (
            (usize, Option<usize>, Option<usize>),
            (usize, Option<usize>, Option<usize>),
            (usize, Option<usize>, Option<usize>),
        ),
    >,
) -> Element {
    match s {
        Some((x, y, z)) => Element::Face(
            VtnRef { v: y.0, vt: y.1, vn: y.2 },
            VtnRef { v: z.0, vt: z.1, vn: z.2 },
            VtnRef { v: x.0, vt: x.1, vn: x.2 },
        ),
        None => Element::Other,
    }
}

/// The shapes of the first `g` geometry groups of object `i`, flattened in
/// source order.
pub open spec fn shapes_upto(s: ObjSet, i: int, g: int) -> Seq<
    Option<
        (
            (usize, Option<usize>, Option<usize>),
            (usize, Option<usize>, Option<usize>),
            (usize, Option<usize>, Option<usize>),
        ),
    >,
>
    decreases g,
{
    if g <= 0 {
        Seq::empty()
    } else {
        shapes_upto(s, i, g - 1) + geometry_shapes(s, i, g - 1)
    }
}

/// All shapes of object `i`, across its geometry groups, in source order.
pub open spec fn all_shapes(s: ObjSet, i: int) -> Seq<
    Option<
        (
            (usize, Option<usize>, Option<usize>),
            (usize, Option<usize>, Option<usize>),
            (usize, Option<usize>, Option<usize>),
        ),
    >,
> {
    shapes_upto(s, i, num_geometries(s, i) as int)
}

proof fn lemma_shapes_upto_zero(s: ObjSet, i: int)
    ensures
        shapes_upto(s, i, 0) == Seq::<
            Option<
                (
                    (usize, Option<usize>, Option<usize>),
                    (usize, Option<usize>, Option<usize>),
                    (usize, Option<usize>, Option<usize>),
                ),
            >,
        >::empty(),
{
    reveal_with_fuel(shapes_upto, 1);
}

proof fn lemma_shapes_upto_step(s: ObjSet, i: int, g: int)
    requires
        0 <= g,
    ensures
        shapes_upto(s, i, g + 1) == shapes_upto(s, i, g) + geometry_shapes(s, i, g),
{
    reveal_with_fuel(shapes_upto, 1);
}

/// Builds the library's scene object from the first object of a parsed set:
/// its three coordinate tables demoted to single precision, and its
/// elements, across all geometry groups in source order, with each
/// triangle's corners back in source order.
pub fn scene_from_objset(set: &ObjSet) -> (r: SceneObject)
    requires
        num_objects(*set) > 0,
    ensures
        r.vertices@ == object_vertices(*set, 0).map_values(|t: (u64, u64, u64)| demoted3(t)),
        r.tex_vertices@ == object_tex_vertices(*set, 0).map_values(|t: (u64, u64)| demoted2(t)),
        r.normals@ == object_normals(*set, 0).map_values(|t: (u64, u64, u64)| demoted3(t)),
        r.elements@ == all_shapes(*set, 0).map_values(
            |s: Option<
                (
                    (usize, Option<usize>, Option<usize>),
                    (usize, Option<usize>, Option<usize>),
                    (usize, Option<usize>, Option<usize>),
                ),
            >| shape_element(s),
        ),
{
    let mut vertices: Vec<Vertex3> = Vec::new();
    let nv = vertex_count(set, 0);
    let mut j: usize = 0;
    while j < nv
        invariant
            j <= nv,
            num_objects(*set) > 0,
            nv == object_vertices(*set, 0).len(),
            vertices@.len() == j,
            forall|t: int|
                0 <= t < j ==> vertices@[t] == demoted3(object_vertices(*set, 0)[t]),
        decreases nv - j,
    {
        let b = vertex_at(set, 0, j);
        vertices.push(
            Vertex3 {
                x: demote_f64_bits(b.0),
                y: demote_f64_bits(b.1),
                z: demote_f64_bits(b.2),
            },
        );
        j = j + 1;
    }
    let mut tex_vertices: Vec<Vertex2> = Vec::new();
    let nt = tex_vertex_count(set, 0);
    let mut j: usize = 0;
    while j < nt
        invariant
            j <= nt,
            num_objects(*set) > 0,
            nt == object_tex_vertices(*set, 0).len(),
            tex_vertices@.len() == j,
            forall|t: int|
                0 <= t < j ==> tex_vertices@[t] == demoted2(object_tex_vertices(*set, 0)[t]),
        decreases nt - j,
    {
        let b = tex_vertex_at(set, 0, j);
        tex_vertices.push(Vertex2 { u: demote_f64_bits(b.0), v: demote_f64_bits(b.1) });
        j = j + 1;
    }
    let mut normals: Vec<Vertex3> = Vec::new();
    let nn = normal_count(set, 0);
    let mut j: usize = 0;
    while j < nn
        invariant
            j <= nn,
            num_objects(*set) > 0,
            nn == object_normals(*set, 0).len(),
            normals@.len() == j,
            forall|t: int| 0 <= t < j ==> normals@[t] == demoted3(object_normals(*set, 0)[t]),
        decreases nn - j,
    {
        let b = normal_at(set, 0, j);
        normals.push(
            Vertex3 {
                x: demote_f64_bits(b.0),
                y: demote_f64_bits(b.1),
                z: demote_f64_bits(b.2),
            },
        );
        j = j + 1;
    }
    let mut elements: Vec<Element> = Vec::new();
    let ng = geometry_count(set, 0);
    let mut g: usize = 0;
    proof {
        lemma_shapes_upto_zero(*set, 0);
        assert(elements@ =~= shapes_upto(*set, 0, 0).map_values(
            |s: Option<
                (
                    (usize, Option<usize>, Option<usize>),
                    (usize, Option<usize>, Option<usize>),
                    (usize, Option<usize>, Option<usize>),
                ),
            >| shape_element(s),
        ));
    }
    while g < ng
        invariant
            g <= ng,
            num_objects(*set) > 0,
            ng == num_geometries(*set, 0),
            elements@ == shapes_upto(*set, 0, g as int).map_values(
                |s: Option<
                    (
                        (usize, Option<usize>, Option<usize>),
                        (usize, Option<usize>, Option<usize>),
                        (usize, Option<usize>, Option<usize>),
                    ),
                >| shape_element(s),
            ),
        decreases ng - g,
    {
        let ns = shape_count(set, 0, g);
        let mut k: usize = 0;
        proof {
            assert(geometry_shapes(*set, 0, g as int).take(0) =~= Seq::<
                Option<
                    (
                        (usize, Option<usize>, Option<usize>),
                        (usize, Option<usize>, Option<usize>),
                        (usize, Option<usize>, Option<usize>),
                    ),
                >,
            >::empty());
            assert(elements@ =~= (shapes_upto(*set, 0, g as int) + geometry_shapes(
                *set,
                0,
                g as int,
            ).take(0)).map_values(
                |s: Option<
                    (
                        (usize, Option<usize>, Option<usize>),
                        (usize, Option<usize>, Option<usize>),
                        (usize, Option<usize>, Option<usize>),
                    ),
                >| shape_element(s),
            ));
        }
        while k < ns
            invariant
                k <= ns,
                g < ng,
                num_objects(*set) > 0,
                ng == num_geometries(*set, 0),
                ns == geometry_shapes(*set, 0, g as int).len(),
                elements@ == (shapes_upto(*set, 0, g as int) + geometry_shapes(
                    *set,
                    0,
                    g as int,
                ).take(k as int)).map_values(
                    |s: Option<
                        (
                            (usize, Option<usize>, Option<usize>),
                            (usize, Option<usize>, Option<usize>),
                            (usize, Option<usize>, Option<usize>),
                        ),
                    >| shape_element(s),
                ),
            decreases ns - k,
        {
            let e: Element = match shape_at(set, 0, g, k) {
                Some((x, y, z)) => Element::Face(
                    VtnRef { v: y.0, vt: y.1, vn: y.2 },
                    VtnRef { v: z.0, vt: z.1, vn: z.2 },
                    VtnRef { v: x.0, vt: x.1, vn: x.2 },
                ),
                None => Element::Other,
            };
            elements.push(e);
            proof {
                assert(elements@ =~= (shapes_upto(*set, 0, g as int) + geometry_shapes(
                    *set,
                    0,
                    g as int,
                ).take(k + 1)).map_values(
                    |s: Option<
                        (
                            (usize, Option<usize>, Option<usize>),
                            (usize, Option<usize>, Option<usize>),
                            (usize, Option<usize>, Option<usize>),
                        ),
                    >| shape_element(s),
                ));
            }
            k = k + 1;
        }
        proof {
            lemma_shapes_upto_step(*set, 0, g as int);
            assert(geometry_shapes(*set, 0, g as int).take(ns as int) =~= geometry_shapes(
                *set,
                0,
                g as int,
            ));
            assert(elements@ =~= shapes_upto(*set, 0, g + 1).map_values(
                |s: Option<
                    (
                        (usize, Option<usize>, Option<usize>),
                        (usize, Option<usize>, Option<usize>),
                        (usize, Option<usize>, Option<usize>),
                    ),
                >| shape_element(s),
            ));
        }
        g = g + 1;
    }
    proof {
        assert(vertices@ =~= object_vertices(*set, 0).map_values(
            |t: (u64, u64, u64)| demoted3(t),
        ));
        assert(tex_vertices@ =~= object_tex_vertices(*set, 0).map_values(
            |t: (u64, u64)| demoted2(t),
        ));
        assert(normals@ =~= object_normals(*set, 0).map_values(|t: (u64, u64, u64)| demoted3(t)));
    }
    SceneObject { vertices, tex_vertices, normals, elements }
}

/// The scene the library reads out of this text's first parsed object: its
/// tables demoted to single precision, and its elements with each triangle's
/// corners back in source order.
pub open spec fn parsed_scene(text: Seq<char>) -> SceneView {
    SceneView {
        vertices: parsed_vertices(text).map_values(|t: (u64, u64, u64)| demoted3(t)),
        tex_vertices: parsed_tex_vertices(text).map_values(|t: (u64, u64)| demoted2(t)),
        normals: parsed_normals(text).map_values(|t: (u64, u64, u64)| demoted3(t)),
        elements: parsed_shapes(text).map_values(
            |s: Option<
                (
                    (usize, Option<usize>, Option<usize>),
                    (usize, Option<usize>, Option<usize>),
                    (usize, Option<usize>, Option<usize>),
                ),
            >| shape_element(s),
        ),
    }
}

/// What loading interchange text returns: the parse error where the text
/// holds a face index the parser cannot adjust without overflowing, where
/// the parser rejects the text, or where it finds no object; the
/// unresolved-index error where some face corner of the first object points
/// outside its table; and otherwise exactly the flattening of the parsed
/// scene.
pub open spec fn load_spec(text: Seq<char>, r: Result<ObjMesh, LoadError>) -> bool {
    if overflowing_face_index(encode_utf8(text)) || !parse_accepts(text) || parsed_num_objects(
        text,
    ) == 0 {
        r == Err::<ObjMesh, LoadError>(LoadError::Parse)
    } else if !all_resolve(parsed_scene(text)) {
        r == Err::<ObjMesh, LoadError>(LoadError::UnresolvedIndex)
    } else {
        match r {
            Ok(mesh) => mesh.points@ == flat_positions(parsed_scene(text)) && mesh.tex_coords@
                == flat_tex_coords(parsed_scene(text)) && mesh.normals@ == flat_normals(
                parsed_scene(text),
            ) && mesh.wf(),
            Err(_) => false,
        }
    }
}

/// Loads a mesh from interchange text: parse, take the first object, and
/// flatten it. Text the parser rejects, a parse with no object at all, and
/// text with a face index so negative that the parser could not adjust it
/// without overflowing, yield the parse error; a face index outside the
/// tables aborts the load; an object without faces yields an empty,
/// well-formed mesh.
pub fn load(text: &str) -> (r: Result<ObjMesh, LoadError>)
    ensures
        load_spec(text@, r),
{
    if has_overflowing_face_index(text) {
        return Err(LoadError::Parse);
    }
    let set = match parse_obj(text) {
        Ok(s) => s,
        Err(_) => {
            return Err(LoadError::Parse);
        },
    };
    if object_count(&set) == 0 {
        return Err(LoadError::Parse);
    }
    let scene = scene_from_objset(&set);
    proof {
        assert(scene@.vertices == parsed_scene(text@).vertices);
        assert(scene@.tex_vertices == parsed_scene(text@).tex_vertices);
        assert(scene@.normals == parsed_scene(text@).normals);
        assert(scene@.elements == parsed_scene(text@).elements);
        assert(scene@ == parsed_scene(text@));
    }
    flatten(&scene)
}

/// Relies on `str::from_utf8`: the returned slice's bytes are exactly the
/// input, and decoding fails exactly when no character sequence encodes to
/// these bytes.
#[verifier::external_body]
fn bytes_to_str(buffer: &[u8]) -> (r: Option<&str>)
    ensures
        match r {
            Some(s) => vstd::utf8::encode_utf8(s@) == buffer@,
            None => !(exists|text: Seq<char>| vstd::utf8::encode_utf8(text) == buffer@),
        },
{
    core::str::from_utf8(buffer).ok()
}

/// Loads a mesh from an in-memory buffer holding interchange text: exactly
/// the load of the buffer's decoded text. A buffer that is not text yields
/// the parse error.
pub fn load_from_memory(buffer: &[u8]) -> (r: Result<ObjMesh, LoadError>)
    ensures
        !(exists|text: Seq<char>| encode_utf8(text) == buffer@) ==> r == Err::<
            ObjMesh,
            LoadError,
        >(LoadError::Parse),
        forall|text: Seq<char>| #[trigger] encode_utf8(text) == buffer@ ==> load_spec(text, r),
{
    match bytes_to_str(buffer) {
        Some(text) => {
            let r = load(text);
            proof {
                assert forall|t: Seq<char>| #[trigger] encode_utf8(t) == buffer@ implies load_spec(
                    t,
                    r,
                ) by {
                    encode_utf8_decode_utf8(t);
                    encode_utf8_decode_utf8(text@);
                    assert(t == text@);
                }
            }
            r
        },
        None => Err(LoadError::Parse),
    }
}

/// The decision behind the path-loading entry point, after the input file
/// has been opened and read outside the library: a path that could not be
/// opened is the file-not-found error, never the parse error; otherwise the
/// contents load exactly as `load` does.
pub fn load_opened(contents: Option<&str>) -> (r: Result<ObjMesh, LoadError>)
    ensures
        contents is None <==> r == Err::<ObjMesh, LoadError>(LoadError::FileNotFound),
        contents is Some ==> load_spec(contents.unwrap()@, r),
{
    match contents {
        None => Err(LoadError::FileNotFound),
        Some(text) => load(text),
    }
}

} // verus!
