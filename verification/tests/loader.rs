use mini_obj::flatten;
use mini_obj::load;
use mini_obj::load_from_memory;
use mini_obj::load_opened;
use mini_obj::Element;
use mini_obj::LoadError;
use mini_obj::ObjMesh;
use mini_obj::SceneObject;
use mini_obj::Vertex2;
use mini_obj::Vertex3;
use mini_obj::VtnRef;

fn v3(x: f32, y: f32, z: f32) -> Vertex3 {
    Vertex3 { x: x.to_bits(), y: y.to_bits(), z: z.to_bits() }
}

fn v2(u: f32, v: f32) -> Vertex2 {
    Vertex2 { u: u.to_bits(), v: v.to_bits() }
}

fn cube_obj_text() -> String {
    String::from(
        "o object1\n\
         v  0.0  0.0  0.0\n\
         v  0.0  0.0  1.0\n\
         v  0.0  1.0  0.0\n\
         v  0.0  1.0  1.0\n\
         v  1.0  0.0  0.0\n\
         v  1.0  0.0  1.0\n\
         v  1.0  1.0  0.0\n\
         v  1.0  1.0  1.0\n\
         vn  0.0  0.0  1.0\n\
         vn  0.0  0.0 -1.0\n\
         vn  0.0  1.0  0.0\n\
         vn  0.0 -1.0  0.0\n\
         vn  1.0  0.0  0.0\n\
         vn -1.0  0.0  0.0\n\
         g cube\n\
         f  1//2  7//2  5//2\n\
         f  1//2  3//2  7//2\n\
         f  1//6  4//6  3//6\n\
         f  1//6  2//6  4//6\n\
         f  3//3  8//3  7//3\n\
         f  3//3  4//3  8//3\n\
         f  5//5  7//5  8//5\n\
         f  5//5  8//5  6//5\n\
         f  1//4  5//4  6//4\n\
         f  1//4  6//4  2//4\n\
         f  2//1  6//1  8//1\n\
         f  2//1  8//1  4//1\n",
    )
}

fn cube_obj_mesh() -> ObjMesh {
    let points = vec![
        v3(0.0, 0.0, 0.0), v3(1.0, 1.0, 0.0), v3(1.0, 0.0, 0.0),
        v3(0.0, 0.0, 0.0), v3(0.0, 1.0, 0.0), v3(1.0, 1.0, 0.0),
        v3(0.0, 0.0, 0.0), v3(0.0, 1.0, 1.0), v3(0.0, 1.0, 0.0),
        v3(0.0, 0.0, 0.0), v3(0.0, 0.0, 1.0), v3(0.0, 1.0, 1.0),
        v3(0.0, 1.0, 0.0), v3(1.0, 1.0, 1.0), v3(1.0, 1.0, 0.0),
        v3(0.0, 1.0, 0.0), v3(0.0, 1.0, 1.0), v3(1.0, 1.0, 1.0),
        v3(1.0, 0.0, 0.0), v3(1.0, 1.0, 0.0), v3(1.0, 1.0, 1.0),
        v3(1.0, 0.0, 0.0), v3(1.0, 1.0, 1.0), v3(1.0, 0.0, 1.0),
        v3(0.0, 0.0, 0.0), v3(1.0, 0.0, 0.0), v3(1.0, 0.0, 1.0),
        v3(0.0, 0.0, 0.0), v3(1.0, 0.0, 1.0), v3(0.0, 0.0, 1.0),
        v3(0.0, 0.0, 1.0), v3(1.0, 0.0, 1.0), v3(1.0, 1.0, 1.0),
        v3(0.0, 0.0, 1.0), v3(1.0, 1.0, 1.0), v3(0.0, 1.0, 1.0),
    ];
    let tex_coords = vec![
        v2(0.0, 0.0), v2(0.0, 0.0), v2(0.0, 0.0),
        v2(0.0, 0.0), v2(0.0, 0.0), v2(0.0, 0.0),
        v2(0.0, 0.0), v2(0.0, 0.0), v2(0.0, 0.0),
        v2(0.0, 0.0), v2(0.0, 0.0), v2(0.0, 0.0),
        v2(0.0, 0.0), v2(0.0, 0.0), v2(0.0, 0.0),
        v2(0.0, 0.0), v2(0.0, 0.0), v2(0.0, 0.0),
        v2(0.0, 0.0), v2(0.0, 0.0), v2(0.0, 0.0),
        v2(0.0, 0.0), v2(0.0, 0.0), v2(0.0, 0.0),
        v2(0.0, 0.0), v2(0.0, 0.0), v2(0.0, 0.0),
        v2(0.0, 0.0), v2(0.0, 0.0), v2(0.0, 0.0),
        v2(0.0, 0.0), v2(0.0, 0.0), v2(0.0, 0.0),
        v2(0.0, 0.0), v2(0.0, 0.0), v2(0.0, 0.0),
    ];
    let normals = vec![
        v3(0.0, 0.0, -1.0), v3(0.0, 0.0, -1.0), v3(0.0, 0.0, -1.0),
        v3(0.0, 0.0, -1.0), v3(0.0, 0.0, -1.0), v3(0.0, 0.0, -1.0),
        v3(-1.0, 0.0, 0.0), v3(-1.0, 0.0, 0.0), v3(-1.0, 0.0, 0.0),
        v3(-1.0, 0.0, 0.0), v3(-1.0, 0.0, 0.0), v3(-1.0, 0.0, 0.0),
        v3(0.0, 1.0, 0.0), v3(0.0, 1.0, 0.0), v3(0.0, 1.0, 0.0),
        v3(0.0, 1.0, 0.0), v3(0.0, 1.0, 0.0), v3(0.0, 1.0, 0.0),
        v3(1.0, 0.0, 0.0), v3(1.0, 0.0, 0.0), v3(1.0, 0.0, 0.0),
        v3(1.0, 0.0, 0.0), v3(1.0, 0.0, 0.0), v3(1.0, 0.0, 0.0),
        v3(0.0, -1.0, 0.0), v3(0.0, -1.0, 0.0), v3(0.0, -1.0, 0.0),
        v3(0.0, -1.0, 0.0), v3(0.0, -1.0, 0.0), v3(0.0, -1.0, 0.0),
        v3(0.0, 0.0, 1.0), v3(0.0, 0.0, 1.0), v3(0.0, 0.0, 1.0),
        v3(0.0, 0.0, 1.0), v3(0.0, 0.0, 1.0), v3(0.0, 0.0, 1.0),
    ];
    ObjMesh::new(points, tex_coords, normals)
}

#[test]
fn test_parse_obj_mesh_elementwise() {
    let text = cube_obj_text();
    let result = load(&text).unwrap();
    let expected = cube_obj_mesh();

    assert_eq!(result.points, expected.points);
    assert_eq!(result.tex_coords, expected.tex_coords);
    assert_eq!(result.normals, expected.normals);
}

#[test]
fn test_parse_obj_mesh() {
    let text = cube_obj_text();
    let result = load(&text).unwrap();
    let expected = cube_obj_mesh();

    assert_eq!(result, expected);
}

#[test]
fn lib_test_parse_obj_mesh() {
    let text = cube_obj_text();
    let result = load_from_memory(text.as_bytes()).unwrap();
    let expected = cube_obj_mesh();

    assert_eq!(result, expected);
}

#[test]
fn test_unit_cube_counts() {
    let text = cube_obj_text();
    let result = load(&text).unwrap();

    assert_eq!(result.len(), 36);
    assert_eq!(result.points.len(), 36);
    assert_eq!(result.tex_coords.len(), 36);
    assert_eq!(result.normals.len(), 36);
    // No texture coordinates in the input: every entry is zero-filled.
    assert!(result.tex_coords().iter().all(|t| *t == v2(0.0, 0.0)));
    // Each face's three corners share one normal.
    let ns = result.normals();
    for f in 0..12 {
        assert_eq!(ns[3 * f], ns[3 * f + 1]);
        assert_eq!(ns[3 * f], ns[3 * f + 2]);
    }
}

#[test]
fn test_missing_file_error_kind() {
    let result = load_opened(None);
    assert_eq!(result, Err(LoadError::FileNotFound));
    assert_ne!(result, Err(LoadError::Parse));
}

#[test]
fn test_load_opened_some_behaves_like_load() {
    let text = cube_obj_text();
    assert_eq!(load_opened(Some(&text)), load(&text));
}

#[test]
fn test_load_from_memory_agrees_with_load() {
    let text = cube_obj_text();
    assert_eq!(load_from_memory(text.as_bytes()), load(&text));
    assert_eq!(load_from_memory(b"garbage"), load("garbage"));
}

#[test]
fn test_parse_error_kind() {
    assert_eq!(load("not an obj file !!!"), Err(LoadError::Parse));
}

#[test]
fn test_input_without_objects_is_parse_error() {
    assert_eq!(load(""), Err(LoadError::Parse));
}

#[test]
fn test_non_text_buffer_is_parse_error() {
    assert_eq!(load_from_memory(&[0xff, 0xfe, 0x00]), Err(LoadError::Parse));
}

#[test]
fn test_huge_negative_face_index_is_parse_error() {
    // The parser's relative-index adjustment would overflow on these, so
    // the loader screens them out as parse errors before the parser runs.
    assert_eq!(
        load("o x\nv 0 0 0\nf -9223372036854775808\n"),
        Err(LoadError::Parse),
    );
    assert_eq!(
        load("o x\nv 0 0 0\nf 1 -9223372036854775807 1\n"),
        Err(LoadError::Parse),
    );
    assert_eq!(
        load("o x\nv 0 0 0\nf 1/-1234567890123456789 1 1\n"),
        Err(LoadError::Parse),
    );
    assert_eq!(
        load("o x\nv 0 0 0\nl -9223372036854775808 1\n"),
        Err(LoadError::Parse),
    );
}

#[test]
fn test_negative_face_index_is_parse_error() {
    // This parser version maps a negative index above its tables, so the
    // reference never resolves; an eighteen-digit one passes the loader's
    // screen and the parser itself rejects it without overflowing.
    assert_eq!(
        load("o x\nv 0 0 0\nv 0 0 1\nv 0 1 0\nf -1 -2 -3\n"),
        Err(LoadError::Parse),
    );
    assert_eq!(
        load("o x\nv 0 0 0\nf -999999999999999999 1 1\n"),
        Err(LoadError::Parse),
    );
}

#[test]
fn test_large_tokens_outside_face_statements_load_fine() {
    // Comments and coordinates may hold huge negative integers; only face
    // and line statements are screened.
    let text = "o x\n\
                # offset table built from -9223372036854775808\n\
                v -9223372036854775808 0 0\n\
                v 0 1 0\n\
                v 1 0 0\n\
                f 1 2 3\n";
    let mesh = load(text).unwrap();
    assert_eq!(mesh.len(), 3);
    assert_eq!(mesh.points()[0], v3(-9223372036854775808.0, 0.0, 0.0));
}

#[test]
fn test_face_index_out_of_range_is_parse_error() {
    // The external parser validates indices itself, so the bad index
    // surfaces as its parse failure.
    assert_eq!(load("o thing\nv 0.0 0.0 0.0\nf 1 2 3\n"), Err(LoadError::Parse));
}

#[test]
fn test_empty_object_yields_empty_mesh() {
    let result = load("o object1\nv 0.0 0.0 0.0\n").unwrap();
    assert_eq!(result.len(), 0);
    assert_eq!(result.points.len(), 0);
    assert_eq!(result.tex_coords.len(), 0);
    assert_eq!(result.normals.len(), 0);
}

#[test]
fn test_flatten_empty_scene() {
    let scene = SceneObject {
        vertices: vec![],
        tex_vertices: vec![],
        normals: vec![],
        elements: vec![],
    };
    let mesh = flatten(&scene).unwrap();
    assert_eq!(mesh.len(), 0);
}

#[test]
fn test_flatten_skips_non_face_elements() {
    let scene = SceneObject {
        vertices: vec![v3(1.0, 2.0, 3.0)],
        tex_vertices: vec![],
        normals: vec![],
        elements: vec![
            Element::Other,
            Element::Face(
                VtnRef { v: 0, vt: None, vn: None },
                VtnRef { v: 0, vt: None, vn: None },
                VtnRef { v: 0, vt: None, vn: None },
            ),
            Element::Other,
        ],
    };
    let mesh = flatten(&scene).unwrap();
    assert_eq!(mesh.len(), 3);
    assert_eq!(mesh.points()[0], v3(1.0, 2.0, 3.0));
    // Zero-fill: no texture or normal index, so both attributes are zero.
    assert_eq!(mesh.tex_coords()[0], v2(0.0, 0.0));
    assert_eq!(mesh.normals()[0], v3(0.0, 0.0, 0.0));
}

#[test]
fn test_flatten_unresolved_index() {
    let scene = SceneObject {
        vertices: vec![v3(0.0, 0.0, 0.0)],
        tex_vertices: vec![],
        normals: vec![],
        elements: vec![
            Element::Face(
                VtnRef { v: 0, vt: None, vn: None },
                VtnRef { v: 7, vt: None, vn: None },
                VtnRef { v: 0, vt: None, vn: None },
            ),
        ],
    };
    assert_eq!(flatten(&scene), Err(LoadError::UnresolvedIndex));
}

#[test]
fn test_flatten_unresolved_texture_index() {
    let scene = SceneObject {
        vertices: vec![v3(0.0, 0.0, 0.0)],
        tex_vertices: vec![],
        normals: vec![],
        elements: vec![
            Element::Face(
                VtnRef { v: 0, vt: Some(0), vn: None },
                VtnRef { v: 0, vt: None, vn: None },
                VtnRef { v: 0, vt: None, vn: None },
            ),
        ],
    };
    assert_eq!(flatten(&scene), Err(LoadError::UnresolvedIndex));
}

#[test]
fn test_load_texture_coordinates() {
    // One textured triangle: texture coordinates land in face order.
    let text = "o tri\n\
                v 0.0 0.0 0.0\n\
                v 1.0 0.0 0.0\n\
                v 0.0 1.0 0.0\n\
                vt 0.25 0.5\n\
                vt 1.0 0.0\n\
                vt 0.0 1.0\n\
                f 1/1 2/2 3/3\n";
    let mesh = load(text).unwrap();
    assert_eq!(mesh.len(), 3);
    assert_eq!(mesh.tex_coords()[0], v2(0.25, 0.5));
    assert_eq!(mesh.tex_coords()[1], v2(1.0, 0.0));
    assert_eq!(mesh.tex_coords()[2], v2(0.0, 1.0));
    assert_eq!(mesh.points()[0], v3(0.0, 0.0, 0.0));
    assert_eq!(mesh.points()[1], v3(1.0, 0.0, 0.0));
    assert_eq!(mesh.points()[2], v3(0.0, 1.0, 0.0));
    // No normal index anywhere: all normals zero-filled.
    assert!(mesh.normals().iter().all(|n| *n == v3(0.0, 0.0, 0.0)));
}

#[test]
fn test_len_bytes() {
    let text = cube_obj_text();
    let result = load(&text).unwrap();
    assert_eq!(result.points.len_bytes(), 36 * 12);
    assert_eq!(result.tex_coords.len_bytes(), 36 * 8);
    assert_eq!(result.normals.len_bytes(), 36 * 12);
}
