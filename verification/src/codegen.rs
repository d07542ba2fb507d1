//! The IR token emitter: walks a flattened mesh and appends the token
//! sequence of one self-contained expression block that rebuilds the mesh,
//! with layout tokens for a four-column indent step.
//!
//! The block binds the three attribute arrays to the names `points`,
//! `tex_coords` and `normals`, in that order, and ends with one constructor
//! call passing the three names in the same order; the element order of each
//! array is exactly the mesh's array order.

use vstd::prelude::*;
use crate::ir::ObjMeshIR;
use crate::ir::Token;
use crate::mesh::ObjMesh;
use crate::mesh::Vertex2;
use crate::mesh::Vertex3;

verus! {

/// The tokens of one three-component tuple row, trailing separator
/// included.
pub open spec fn float3_tokens(p: Vertex3) -> Seq<Token> {
    seq![
        Token::LBracket,
        Token::Float32(p.x),
        Token::Comma,
        Token::Whitespace(1),
        Token::Float32(p.y),
        Token::Comma,
        Token::Whitespace(1),
        Token::Float32(p.z),
        Token::RBracket,
        Token::Comma,
        Token::Whitespace(1),
    ]
}

/// The tokens of one two-component tuple row, trailing separator included.
pub open spec fn float2_tokens(t: Vertex2) -> Seq<Token> {
    seq![
        Token::LBracket,
        Token::Float32(t.u),
        Token::Comma,
        Token::Whitespace(1),
        Token::Float32(t.v),
        Token::RBracket,
        Token::Comma,
        Token::Whitespace(1),
    ]
}

/// The opening of one attribute binding: the binding keyword, the bound
/// name, the element type of the given arity, the assignment symbol, the
/// array-literal opening, and the layout tokens before the first row.
pub open spec fn section_header(indent: usize, name: Token, arity: usize) -> Seq<Token> {
    seq![
        Token::Whitespace(indent),
        Token::SymLet,
        Token::Whitespace(1),
        name,
        Token::Colon,
        Token::Whitespace(1),
        Token::SymTypeVec,
        Token::LessThan,
        Token::LBracket,
        Token::SymTypeFloat32,
        Token::Semicolon,
        Token::Whitespace(1),
        Token::ArrayLength(arity),
        Token::RBracket,
        Token::GreaterThan,
        Token::Whitespace(1),
        Token::Equals,
        Token::Whitespace(1),
        Token::SymMacroVec,
        Token::LBracket,
        Token::Newline,
        Token::Whitespace(indent),
        Token::Whitespace(indent),
    ]
}

/// The close of one attribute binding: the array-literal closing and the
/// statement terminator, with their layout tokens.
pub open spec fn section_footer(indent: usize) -> Seq<Token> {
    seq![Token::Newline, Token::Whitespace(indent), Token::RBracket, Token::Semicolon]
}

/// The rows of the first `n` position entries.
pub open spec fn rows3_upto(ps: Seq<Vertex3>, n: int) -> Seq<Token>
    decreases n,
{
    if n <= 0 {
        Seq::empty()
    } else {
        rows3_upto(ps, n - 1) + float3_tokens(ps[n - 1])
    }
}

/// The rows of the first `n` texture-coordinate entries.
pub open spec fn rows2_upto(ts: Seq<Vertex2>, n: int) -> Seq<Token>
    decreases n,
{
    if n <= 0 {
        Seq::empty()
    } else {
        rows2_upto(ts, n - 1) + float2_tokens(ts[n - 1])
    }
}

proof fn lemma_rows3_zero(ps: Seq<Vertex3>)
    ensures
        rows3_upto(ps, 0) == Seq::<Token>::empty(),
{
    reveal_with_fuel(rows3_upto, 1);
}

proof fn lemma_rows3_step(ps: Seq<Vertex3>, n: int)
    requires
        0 <= n,
    ensures
        rows3_upto(ps, n + 1) == rows3_upto(ps, n) + float3_tokens(ps[n]),
{
    reveal_with_fuel(rows3_upto, 1);
}

proof fn lemma_rows2_zero(ts: Seq<Vertex2>)
    ensures
        rows2_upto(ts, 0) == Seq::<Token>::empty(),
{
    reveal_with_fuel(rows2_upto, 1);
}

proof fn lemma_rows2_step(ts: Seq<Vertex2>, n: int)
    requires
        0 <= n,
    ensures
        rows2_upto(ts, n + 1) == rows2_upto(ts, n) + float2_tokens(ts[n]),
{
    reveal_with_fuel(rows2_upto, 1);
}

/// The whole binding of the position array.
pub open spec fn points_tokens(ps: Seq<Vertex3>, indent: usize) -> Seq<Token> {
    section_header(indent, Token::SymPoints, 3) + rows3_upto(ps, ps.len() as int)
        + section_footer(indent)
}

/// The whole binding of the texture-coordinate array.
pub open spec fn tex_coords_tokens(ts: Seq<Vertex2>, indent: usize) -> Seq<Token> {
    section_header(indent, Token::SymTexCoords, 2) + rows2_upto(ts, ts.len() as int)
        + section_footer(indent)
}

/// The whole binding of the normal array.
pub open spec fn normals_tokens(ns: Seq<Vertex3>, indent: usize) -> Seq<Token> {
    section_header(indent, Token::SymNormals, 3) + rows3_upto(ns, ns.len() as int)
        + section_footer(indent)
}

/// The constructor call: the mesh type, the constructor name, and the three
/// bound names in their fixed order.
pub open spec fn constructor_tokens(indent: usize) -> Seq<Token> {
    seq![
        Token::Whitespace(indent),
        Token::SymTypeObjMesh,
        Token::DoubleColon,
        Token::SymConstructor,
        Token::LParen,
        Token::SymPoints,
        Token::Comma,
        Token::Whitespace(1),
        Token::SymTexCoords,
        Token::Comma,
        Token::Whitespace(1),
        Token::SymNormals,
        Token::RParen,
    ]
}

/// The complete token sequence for a mesh: the three bindings and the
/// constructor call, wrapped in one block delimiter pair.
pub open spec fn code_tokens(mesh: ObjMesh) -> Seq<Token> {
    seq![Token::LCurlyBrace, Token::Newline] + points_tokens(mesh.points@, 4)
        + seq![Token::Newline] + tex_coords_tokens(mesh.tex_coords@, 4) + seq![Token::Newline]
        + normals_tokens(mesh.normals@, 4) + seq![Token::Newline, Token::Newline]
        + constructor_tokens(4) + seq![Token::Newline] + seq![Token::RCurlyBrace]
}

/// Emits the binding of the position array.
pub fn generate_points_code(ir: &mut ObjMeshIR, mesh: &ObjMesh, indent: usize)
    ensures
        final(ir)@ == old(ir)@ + points_tokens(mesh.points@, indent),
{
    let ghost base = ir@;
    ir.push(Token::Whitespace(indent));
    ir.push(Token::SymLet);
    ir.push(Token::Whitespace(1));
    ir.push(Token::SymPoints);
    ir.push(Token::Colon);
    ir.push(Token::Whitespace(1));
    ir.push(Token::SymTypeVec);
    ir.push(Token::LessThan);
    ir.push(Token::LBracket);
    ir.push(Token::SymTypeFloat32);
    ir.push(Token::Semicolon);
    ir.push(Token::Whitespace(1));
    ir.push(Token::ArrayLength(3));
    ir.push(Token::RBracket);
    ir.push(Token::GreaterThan);
    ir.push(Token::Whitespace(1));
    ir.push(Token::Equals);
    ir.push(Token::Whitespace(1));
    ir.push(Token::SymMacroVec);
    ir.push(Token::LBracket);
    ir.push(Token::Newline);
    ir.push(Token::Whitespace(indent));
    ir.push(Token::Whitespace(indent));
    let ghost ps = mesh.points@;
    proof {
        lemma_rows3_zero(ps);
        assert(ir@ =~= base + section_header(indent, Token::SymPoints, 3) + rows3_upto(ps, 0));
    }
    let pts = mesh.points();
    let n = pts.len();
    let mut i: usize = 0;
    while i < n
        invariant
            i <= n,
            n == ps.len(),
            pts@ == ps,
            ir@ == base + section_header(indent, Token::SymPoints, 3) + rows3_upto(ps, i as int),
        decreases n - i,
    {
        let p = pts[i];
        ir.push(Token::LBracket);
        ir.push(Token::Float32(p.x));
        ir.push(Token::Comma);
        ir.push(Token::Whitespace(1));
        ir.push(Token::Float32(p.y));
        ir.push(Token::Comma);
        ir.push(Token::Whitespace(1));
        ir.push(Token::Float32(p.z));
        ir.push(Token::RBracket);
        ir.push(Token::Comma);
        ir.push(Token::Whitespace(1));
        proof {
            lemma_rows3_step(ps, i as int);
            assert(ir@ =~= base + section_header(indent, Token::SymPoints, 3) + rows3_upto(
                ps,
                i + 1,
            ));
        }
        i = i + 1;
    }
    ir.push(Token::Newline);
    ir.push(Token::Whitespace(indent));
    ir.push(Token::RBracket);
    ir.push(Token::Semicolon);
    proof {
        assert(ir@ =~= base + points_tokens(ps, indent));
    }
}

/// Emits the binding of the texture-coordinate array.
pub fn generate_tex_coords_code(ir: &mut ObjMeshIR, mesh: &ObjMesh, indent: usize)
    ensures
        final(ir)@ == old(ir)@ + tex_coords_tokens(mesh.tex_coords@, indent),
{
    let ghost base = ir@;
    ir.push(Token::Whitespace(indent));
    ir.push(Token::SymLet);
    ir.push(Token::Whitespace(1));
    ir.push(Token::SymTexCoords);
    ir.push(Token::Colon);
    ir.push(Token::Whitespace(1));
    ir.push(Token::SymTypeVec);
    ir.push(Token::LessThan);
    ir.push(Token::LBracket);
    ir.push(Token::SymTypeFloat32);
    ir.push(Token::Semicolon);
    ir.push(Token::Whitespace(1));
    ir.push(Token::ArrayLength(2));
    ir.push(Token::RBracket);
    ir.push(Token::GreaterThan);
    ir.push(Token::Whitespace(1));
    ir.push(Token::Equals);
    ir.push(Token::Whitespace(1));
    ir.push(Token::SymMacroVec);
    ir.push(Token::LBracket);
    ir.push(Token::Newline);
    ir.push(Token::Whitespace(indent));
    ir.push(Token::Whitespace(indent));
    let ghost ts = mesh.tex_coords@;
    proof {
        lemma_rows2_zero(ts);
        assert(ir@ =~= base + section_header(indent, Token::SymTexCoords, 2) + rows2_upto(ts, 0));
    }
    let tcs = mesh.tex_coords();
    let n = tcs.len();
    let mut i: usize = 0;
    while i < n
        invariant
            i <= n,
            n == ts.len(),
            tcs@ == ts,
            ir@ == base + section_header(indent, Token::SymTexCoords, 2) + rows2_upto(
                ts,
                i as int,
            ),
        decreases n - i,
    {
        let t = tcs[i];
        ir.push(Token::LBracket);
        ir.push(Token::Float32(t.u));
        ir.push(Token::Comma);
        ir.push(Token::Whitespace(1));
        ir.push(Token::Float32(t.v));
        ir.push(Token::RBracket);
        ir.push(Token::Comma);
        ir.push(Token::Whitespace(1));
        proof {
            lemma_rows2_step(ts, i as int);
            assert(ir@ =~= base + section_header(indent, Token::SymTexCoords, 2) + rows2_upto(
                ts,
                i + 1,
            ));
        }
        i = i + 1;
    }
    ir.push(Token::Newline);
    ir.push(Token::Whitespace(indent));
    ir.push(Token::RBracket);
    ir.push(Token::Semicolon);
    proof {
        assert(ir@ =~= base + tex_coords_tokens(ts, indent));
    }
}

/// Emits the binding of the normal array.
pub fn generate_normals_code(ir: &mut ObjMeshIR, mesh: &ObjMesh, indent: usize)
    ensures
        final(ir)@ == old(ir)@ + normals_tokens(mesh.normals@, indent),
{
    let ghost base = ir@;
    ir.push(Token::Whitespace(indent));
    ir.push(Token::SymLet);
    ir.push(Token::Whitespace(1));
    ir.push(Token::SymNormals);
    ir.push(Token::Colon);
    ir.push(Token::Whitespace(1));
    ir.push(Token::SymTypeVec);
    ir.push(Token::LessThan);
    ir.push(Token::LBracket);
    ir.push(Token::SymTypeFloat32);
    ir.push(Token::Semicolon);
    ir.push(Token::Whitespace(1));
    ir.push(Token::ArrayLength(3));
    ir.push(Token::RBracket);
    ir.push(Token::GreaterThan);
    ir.push(Token::Whitespace(1));
    ir.push(Token::Equals);
    ir.push(Token::Whitespace(1));
    ir.push(Token::SymMacroVec);
    ir.push(Token::LBracket);
    ir.push(Token::Newline);
    ir.push(Token::Whitespace(indent));
    ir.push(Token::Whitespace(indent));
    let ghost ns = mesh.normals@;
    proof {
        lemma_rows3_zero(ns);
        assert(ir@ =~= base + section_header(indent, Token::SymNormals, 3) + rows3_upto(ns, 0));
    }
    let nms = mesh.normals();
    let n = nms.len();
    let mut i: usize = 0;
    while i < n
        invariant
            i <= n,
            n == ns.len(),
            nms@ == ns,
            ir@ == base + section_header(indent, Token::SymNormals, 3) + rows3_upto(ns, i as int),
        decreases n - i,
    {
        let p = nms[i];
        ir.push(Token::LBracket);
        ir.push(Token::Float32(p.x));
        ir.push(Token::Comma);
        ir.push(Token::Whitespace(1));
        ir.push(Token::Float32(p.y));
        ir.push(Token::Comma);
        ir.push(Token::Whitespace(1));
        ir.push(Token::Float32(p.z));
        ir.push(Token::RBracket);
        ir.push(Token::Comma);
        ir.push(Token::Whitespace(1));
        proof {
            lemma_rows3_step(ns, i as int);
            assert(ir@ =~= base + section_header(indent, Token::SymNormals, 3) + rows3_upto(
                ns,
                i + 1,
            ));
        }
        i = i + 1;
    }
    ir.push(Token::Newline);
    ir.push(Token::Whitespace(indent));
    ir.push(Token::RBracket);
    ir.push(Token::Semicolon);
    proof {
        assert(ir@ =~= base + normals_tokens(ns, indent));
    }
}

/// Emits the constructor call that passes the three bound names.
pub fn generate_type_constructor_invocation(ir: &mut ObjMeshIR, _mesh: &ObjMesh, indent: usize)
    ensures
        final(ir)@ == old(ir)@ + constructor_tokens(indent),
{
    let ghost base = ir@;
    ir.push(Token::Whitespace(indent));
    ir.push(Token::SymTypeObjMesh);
    ir.push(Token::DoubleColon);
    ir.push(Token::SymConstructor);
    ir.push(Token::LParen);
    ir.push(Token::SymPoints);
    ir.push(Token::Comma);
    ir.push(Token::Whitespace(1));
    ir.push(Token::SymTexCoords);
    ir.push(Token::Comma);
    ir.push(Token::Whitespace(1));
    ir.push(Token::SymNormals);
    ir.push(Token::RParen);
    proof {
        assert(ir@ =~= base + constructor_tokens(indent));
    }
}

/// Builds the complete token sequence for a mesh: a block that binds the
/// three attribute arrays and constructs the mesh from them, indented in
/// four-column steps.
pub fn generate_code(mesh: &ObjMesh) -> (r: ObjMeshIR)
    ensures
        r@ == code_tokens(*mesh),
{
    let mut ir = ObjMeshIR::new(Vec::new());
    let indent: usize = 4;
    // Start the code block.
    ir.push(Token::LCurlyBrace);
    ir.push(Token::Newline);

    // The three attribute bindings.
    generate_points_code(&mut ir, mesh, indent);
    ir.push(Token::Newline);

    generate_tex_coords_code(&mut ir, mesh, indent);
    ir.push(Token::Newline);

    generate_normals_code(&mut ir, mesh, indent);
    ir.push(Token::Newline);
    ir.push(Token::Newline);

    // The constructor call.
    generate_type_constructor_invocation(&mut ir, mesh, indent);
    ir.push(Token::Newline);

    // End the code block.
    ir.push(Token::RCurlyBrace);

    proof {
        assert(ir@ =~= code_tokens(*mesh));
    }
    ir
}

} // verus!
