//! The token synthesizer: maps each token to its fixed textual form and
//! concatenates the forms in order. Same token sequence, same text — the
//! mapping is a pure function of the tokens, so synthesis is deterministic.

use vstd::prelude::*;
use crate::decimal::dec_str;
use crate::decimal::u64_to_dec_string;
use crate::fp::f32_fixed8;
use crate::fp::format_f32_bits;
use crate::ir::ObjMeshIR;
use crate::ir::Token;
use crate::mesh::ObjMesh;
use crate::codegen::code_tokens;
use crate::codegen::generate_code;

verus! {

/// A run of `n` spaces.
pub open spec fn whitespace_chars(n: nat) -> Seq<char> {
    Seq::new(n, |i: int| ' ')
}

/// The exact textual form of one token.
pub open spec fn token_text(t: Token) -> Seq<char> {
    match t {
        Token::SymLet => "let"@,
        Token::SymPoints => "points"@,
        Token::SymTexCoords => "tex_coords"@,
        Token::SymNormals => "normals"@,
        Token::SymTypeFloat32 => "f32"@,
        Token::SymTypeObjMesh => "ObjMesh"@,
        Token::SymTypeVec => "Vec"@,
        Token::SymConstructor => "new"@,
        Token::SymMacroVec => "vec!"@,
        Token::Equals => "="@,
        Token::Colon => ":"@,
        Token::DoubleColon => "::"@,
        Token::Semicolon => ";"@,
        Token::LBracket => "["@,
        Token::RBracket => "]"@,
        Token::LCurlyBrace => "{"@,
        Token::RCurlyBrace => "}"@,
        Token::GreaterThan => ">"@,
        Token::LessThan => "<"@,
        Token::Comma => ","@,
        Token::LParen => "("@,
        Token::RParen => ")"@,
        Token::Float32(bits) => f32_fixed8(bits),
        Token::ArrayLength(n) => dec_str(n as nat),
        Token::Newline => "\n"@,
        Token::Whitespace(n) => whitespace_chars(n as nat),
    }
}

/// The text of the first `n` tokens, concatenated.
pub open spec fn ir_text_upto(toks: Seq<Token>, n: int) -> Seq<char>
    decreases n,
{
    if n <= 0 {
        Seq::empty()
    } else {
        ir_text_upto(toks, n - 1) + token_text(toks[n - 1])
    }
}

/// The text of a whole token sequence.
pub open spec fn ir_text(toks: Seq<Token>) -> Seq<char> {
    ir_text_upto(toks, toks.len() as int)
}

proof fn lemma_ir_text_zero(toks: Seq<Token>)
    ensures
        ir_text_upto(toks, 0) == Seq::<char>::empty(),
{
    reveal_with_fuel(ir_text_upto, 1);
}

proof fn lemma_ir_text_step(toks: Seq<Token>, n: int)
    requires
        0 <= n,
    ensures
        ir_text_upto(toks, n + 1) == ir_text_upto(toks, n) + token_text(toks[n]),
{
    reveal_with_fuel(ir_text_upto, 1);
}

/// Synthesis is deterministic: any two renderings of one token sequence are
/// byte-identical, because both equal `ir_text` of that sequence.
pub proof fn lemma_synthesis_deterministic(toks: Seq<Token>, a: Seq<char>, b: Seq<char>)
    requires
        a == ir_text(toks),
        b == ir_text(toks),
    ensures
        a == b,
{
}

fn render_spaces(n: usize) -> (r: String)
    ensures
        r@ == whitespace_chars(n as nat),
{
    let mut s = String::new();
    let mut i: usize = 0;
    proof {
        assert(s@ =~= whitespace_chars(0));
    }
    while i < n
        invariant
            i <= n,
            s@ =~= whitespace_chars(i as nat),
        decreases n - i,
    {
        s.append(" ");
        proof {
            reveal_strlit(" ");
            assert(s@ =~= whitespace_chars((i + 1) as nat));
        }
        i = i + 1;
    }
    s
}

/// The textual form of one token.
pub fn synthesize_token(token: Token) -> (r: String)
    ensures
        r@ == token_text(token),
{
    match token {
        Token::SymLet => String::from_str("let"),
        Token::SymPoints => String::from_str("points"),
        Token::SymTexCoords => String::from_str("tex_coords"),
        Token::SymNormals => String::from_str("normals"),
        Token::SymTypeFloat32 => String::from_str("f32"),
        Token::SymTypeObjMesh => String::from_str("ObjMesh"),
        Token::SymTypeVec => String::from_str("Vec"),
        Token::SymConstructor => String::from_str("new"),
        Token::SymMacroVec => String::from_str("vec!"),
        Token::Equals => String::from_str("="),
        Token::Colon => String::from_str(":"),
        Token::DoubleColon => String::from_str("::"),
        Token::Semicolon => String::from_str(";"),
        Token::LBracket => String::from_str("["),
        Token::RBracket => String::from_str("]"),
        Token::LCurlyBrace => String::from_str("{"),
        Token::RCurlyBrace => String::from_str("}"),
        Token::GreaterThan => String::from_str(">"),
        Token::LessThan => String::from_str("<"),
        Token::Comma => String::from_str(","),
        Token::LParen => String::from_str("("),
        Token::RParen => String::from_str(")"),
        Token::Float32(bits) => format_f32_bits(bits),
        Token::ArrayLength(n) => u64_to_dec_string(n as u64),
        Token::Newline => String::from_str("\n"),
        Token::Whitespace(n) => render_spaces(n),
    }
}

/// Concatenates the textual forms of all tokens, in order, with nothing
/// between them.
pub fn synthesize_code(ir: &ObjMeshIR) -> (r: String)
    ensures
        r@ == ir_text(ir@),
{
    let mut fragment = String::new();
    let n = ir.len();
    let mut i: usize = 0;
    proof {
        lemma_ir_text_zero(ir@);
        assert(fragment@ =~= ir_text_upto(ir@, 0));
    }
    while i < n
        invariant
            i <= n,
            n == ir@.len(),
            fragment@ == ir_text_upto(ir@, i as int),
        decreases n - i,
    {
        let piece = synthesize_token(ir.data[i]);
        fragment.append(piece.as_str());
        proof {
            lemma_ir_text_step(ir@, i as int);
        }
        i = i + 1;
    }
    fragment
}

/// The code generator's public entry point: the literal source fragment
/// that rebuilds the given mesh.
pub fn to_rust_code(mesh: &ObjMesh) -> (r: String)
    ensures
        r@ == ir_text(code_tokens(*mesh)),
{
    let ir = generate_code(mesh);
    synthesize_code(&ir)
}

} // verus!
