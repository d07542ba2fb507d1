use mini_obj::codegen::generate_code;
use mini_obj::ir::ObjMeshIR;
use mini_obj::ir::Token;
use mini_obj::ir::Token::{
    ArrayLength, Colon, Comma, DoubleColon, Equals, Float32, GreaterThan, LBracket, LCurlyBrace,
    LParen, LessThan, Newline, RBracket, RCurlyBrace, RParen, Semicolon, SymConstructor, SymLet,
    SymMacroVec, SymNormals, SymPoints, SymTexCoords, SymTypeFloat32, SymTypeObjMesh, SymTypeVec,
    Whitespace,
};
use mini_obj::to_rust_code;
use mini_obj::ObjMesh;
use mini_obj::Vertex2;
use mini_obj::Vertex3;

fn v3(x: f32, y: f32, z: f32) -> Vertex3 {
    Vertex3 { x: x.to_bits(), y: y.to_bits(), z: z.to_bits() }
}

fn v2(u: f32, v: f32) -> Vertex2 {
    Vertex2 { u: u.to_bits(), v: v.to_bits() }
}

fn gen_cube_mesh() -> ObjMesh {
    let points = vec![
        v3(0.0, 0.0, 0.0), v3(1.0, 1.0, 0.0), v3(1.0, 0.0, 0.0),
        v3(0.0, 0.0, 0.0), v3(0.0, 1.0, 0.0), v3(1.0, 1.0, 0.0),
        v3(0.0, 0.0, 0.0), v3(0.0, 1.0, 1.0), v3(0.0, 1.0, 0.0),
        v3(0.0, 0.0, 0.0), v3(0.0, 0.0, 1.0), v3(0.0, 1.0, 1.0),
        v3(0.0, 1.0, 0.0), v3(1.0, 1.0, 1.0), v3(1.0, 1.0, 0.0),
        v3(0.0, 1.0, 0.0), v3(0.0, 1.0, 1.0), v3(1.0, 1.0, 1.0),
        v3(1.0, 0.0, 0.0), v3(1.0, 1.0, 0.0), v3(1.0, 1.0, 1.0),
        v3(1.0, 0.0, 0.0), v3(1.0, 1.0, 1.0), v3(1.0, 0.0, 1.0),
        v3(0.0, 0.0, 0.0), v3(1.0, 0.0, 0.0), v3(1.0, 0.0, 1.0),
        v3(0.0, 0.0, 0.0), v3(1.0, 0.0, 1.0), v3(0.0, 0.0, 1.0),
        v3(0.0, 0.0, 1.0), v3(1.0, 0.0, 1.0), v3(1.0, 1.0, 1.0),
        v3(0.0, 0.0, 1.0), v3(1.0, 1.0, 1.0), v3(0.0, 1.0, 1.0),
    ];
    let tex_coords = vec![v2(0.0, 0.0); 36];
    let normals = vec![
        v3(0.0, 0.0, -1.0), v3(0.0, 0.0, -1.0), v3(0.0, 0.0, -1.0),
        v3(0.0, 0.0, -1.0), v3(0.0, 0.0, -1.0), v3(0.0, 0.0, -1.0),
        v3(-1.0, 0.0, 0.0), v3(-1.0, 0.0, 0.0), v3(-1.0, 0.0, 0.0),
        v3(-1.0, 0.0, 0.0), v3(-1.0, 0.0, 0.0), v3(-1.0, 0.0, 0.0),
        v3(0.0, 1.0, 0.0), v3(0.0, 1.0, 0.0), v3(0.0, 1.0, 0.0),
        v3(0.0, 1.0, 0.0), v3(0.0, 1.0, 0.0), v3(0.0, 1.0, 0.0),
        v3(1.0, 0.0, 0.0), v3(1.0, 0.0, 0.0), v3(1.0, 0.0, 0.0),
        v3(1.0, 0.0, 0.0), v3(1.0, 0.0, 0.0), v3(1.0, 0.0, 0.0),
        v3(0.0, -1.0, 0.0), v3(0.0, -1.0, 0.0), v3(0.0, -1.0, 0.0),
        v3(0.0, -1.0, 0.0), v3(0.0, -1.0, 0.0), v3(0.0, -1.0, 0.0),
        v3(0.0, 0.0, 1.0), v3(0.0, 0.0, 1.0), v3(0.0, 0.0, 1.0),
        v3(0.0, 0.0, 1.0), v3(0.0, 0.0, 1.0), v3(0.0, 0.0, 1.0),
    ];
    ObjMesh::new(points, tex_coords, normals)
}

fn push_section_header(data: &mut Vec<Token>, name: Token, arity: usize) {
    data.extend_from_slice(&[
        Whitespace(4), SymLet, Whitespace(1), name, Colon, Whitespace(1), SymTypeVec, LessThan,
        LBracket, SymTypeFloat32, Semicolon, Whitespace(1), ArrayLength(arity), RBracket,
        GreaterThan, Whitespace(1), Equals, Whitespace(1), SymMacroVec, LBracket,
        Newline, Whitespace(4), Whitespace(4),
    ]);
}

fn push_section_footer(data: &mut Vec<Token>) {
    data.extend_from_slice(&[Newline, Whitespace(4), RBracket, Semicolon]);
}

fn push_row3(data: &mut Vec<Token>, p: &Vertex3) {
    data.extend_from_slice(&[
        LBracket, Float32(p.x), Comma, Whitespace(1), Float32(p.y), Comma, Whitespace(1),
        Float32(p.z), RBracket, Comma, Whitespace(1),
    ]);
}

fn push_row2(data: &mut Vec<Token>, t: &Vertex2) {
    data.extend_from_slice(&[
        LBracket, Float32(t.u), Comma, Whitespace(1), Float32(t.v), RBracket, Comma, Whitespace(1),
    ]);
}

fn expected_ir(mesh: &ObjMesh) -> ObjMeshIR {
    let mut data: Vec<Token> = vec![LCurlyBrace, Newline];
    push_section_header(&mut data, SymPoints, 3);
    for p in mesh.points() {
        push_row3(&mut data, p);
    }
    push_section_footer(&mut data);
    data.push(Newline);
    push_section_header(&mut data, SymTexCoords, 2);
    for t in mesh.tex_coords() {
        push_row2(&mut data, t);
    }
    push_section_footer(&mut data);
    data.push(Newline);
    push_section_header(&mut data, SymNormals, 3);
    for n in mesh.normals() {
        push_row3(&mut data, n);
    }
    push_section_footer(&mut data);
    data.extend_from_slice(&[
        Newline, Newline,
        Whitespace(4), SymTypeObjMesh, DoubleColon, SymConstructor, LParen,
        SymPoints, Comma, Whitespace(1), SymTexCoords, Comma, Whitespace(1), SymNormals,
        RParen, Newline,
        RCurlyBrace,
    ]);
    ObjMeshIR::new(data)
}

#[test]
fn test_compile_obj_mesh() {
    let mesh = gen_cube_mesh();
    let result = generate_code(&mesh);
    let expected = expected_ir(&mesh);

    assert_eq!(result, expected);
}

#[test]
fn test_compile_obj_mesh_ir_length() {
    let mesh = gen_cube_mesh();
    let result = generate_code(&mesh);
    let expected = expected_ir(&mesh);

    assert_eq!(result.len(), expected.len());
}

#[test]
fn test_compile_obj_mesh_elementwise() {
    let mesh = gen_cube_mesh();
    let result = generate_code(&mesh);
    let expected = expected_ir(&mesh);

    for (i, (result_token, expected_token)) in
        result.data.iter().zip(expected.data.iter()).enumerate()
    {
        assert_eq!(
            result_token, expected_token,
            "Token {} did not match what was expected.",
            i,
        );
    }
}

#[test]
fn test_to_rust_code_fragment() {
    let mesh = ObjMesh::new(
        vec![v3(0.0, 1.0, -1.0)],
        vec![v2(0.25, 0.5)],
        vec![v3(0.0, 0.0, 1.0)],
    );
    let mut expected = String::new();
    expected.push_str("{\n");
    expected.push_str("    let points: Vec<[f32; 3]> = vec![\n");
    expected.push_str("        [0.00000000, 1.00000000, -1.00000000], \n");
    expected.push_str("    ];\n");
    expected.push_str("    let tex_coords: Vec<[f32; 2]> = vec![\n");
    expected.push_str("        [0.25000000, 0.50000000], \n");
    expected.push_str("    ];\n");
    expected.push_str("    let normals: Vec<[f32; 3]> = vec![\n");
    expected.push_str("        [0.00000000, 0.00000000, 1.00000000], \n");
    expected.push_str("    ];\n");
    expected.push_str("\n");
    expected.push_str("    ObjMesh::new(points, tex_coords, normals)\n");
    expected.push_str("}");
    assert_eq!(to_rust_code(&mesh), expected);
}

#[test]
fn test_to_rust_code_empty_mesh() {
    let mesh = ObjMesh::new(vec![], vec![], vec![]);
    let mut expected = String::new();
    expected.push_str("{\n");
    expected.push_str("    let points: Vec<[f32; 3]> = vec![\n");
    expected.push_str("        \n");
    expected.push_str("    ];\n");
    expected.push_str("    let tex_coords: Vec<[f32; 2]> = vec![\n");
    expected.push_str("        \n");
    expected.push_str("    ];\n");
    expected.push_str("    let normals: Vec<[f32; 3]> = vec![\n");
    expected.push_str("        \n");
    expected.push_str("    ];\n");
    expected.push_str("\n");
    expected.push_str("    ObjMesh::new(points, tex_coords, normals)\n");
    expected.push_str("}");
    assert_eq!(to_rust_code(&mesh), expected);
}

#[test]
fn test_round_trip_determinism() {
    let mesh = gen_cube_mesh();
    let first = to_rust_code(&mesh);
    let second = to_rust_code(&mesh);
    assert_eq!(first, second);
    assert_eq!(first.as_bytes(), second.as_bytes());

    let ir_first = generate_code(&mesh);
    let ir_second = generate_code(&mesh);
    assert_eq!(ir_first, ir_second);
}
