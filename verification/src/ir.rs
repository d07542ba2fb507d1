//! The intermediate representation: a flat sequence of tokens over a closed
//! vocabulary, built once per mesh and consumed once by the synthesizer.

use vstd::prelude::*;

verus! {

/// The closed token vocabulary of the generated fragment: structural
/// symbols, the bound names, type names, and the payload-carrying literal,
/// length and layout tokens.
#[derive(Clone, Copy, Debug, PartialEq, Eq, Structural)]
pub enum Token {
    SymLet,
    SymPoints,
    SymTexCoords,
    SymNormals,
    SymTypeFloat32,
    SymTypeObjMesh,
    SymTypeVec,
    SymConstructor,
    SymMacroVec,
    Equals,
    Colon,
    DoubleColon,
    Semicolon,
    LBracket,
    RBracket,
    LCurlyBrace,
    RCurlyBrace,
    GreaterThan,
    LessThan,
    Comma,
    LParen,
    RParen,
    /// A single-precision literal, as its bit pattern.
    Float32(u32),
    /// The arity of a fixed-size element type.
    ArrayLength(usize),
    Newline,
    /// A run of that many spaces.
    Whitespace(usize),
}

fn token_vec_eq(a: &Vec<Token>, b: &Vec<Token>) -> (r: bool)
    ensures
        r == (a@ == b@),
{
    if a.len() != b.len() {
        return false;
    }
    let mut i: usize = 0;
    while i < a.len()
        invariant
            i <= a@.len(),
            a@.len() == b@.len(),
            forall|j: int| 0 <= j < i ==> a@[j] == b@[j],
        decreases a@.len() - i,
    {
        if a[i] != b[i] {
            return false;
        }
        i = i + 1;
    }
    proof {
        assert(a@ =~= b@);
    }
    true
}

/// The token sequence for one mesh.
#[derive(Clone, Debug)]
pub struct ObjMeshIR {
    pub data: Vec<Token>,
}

impl View for ObjMeshIR {
    type V = Seq<Token>;

    open spec fn view(&self) -> Seq<Token> {
        self.data@
    }
}

impl PartialEq for ObjMeshIR {
    fn eq(&self, other: &ObjMeshIR) -> (r: bool) {
        token_vec_eq(&self.data, &other.data)
    }
}

impl vstd::std_specs::cmp::PartialEqSpecImpl for ObjMeshIR {
    open spec fn obeys_eq_spec() -> bool {
        true
    }

    open spec fn eq_spec(&self, other: &ObjMeshIR) -> bool {
        self.data@ == other.data@
    }
}

impl ObjMeshIR {
    /// Wraps a token vector.
    pub fn new(data: Vec<Token>) -> (r: ObjMeshIR)
        ensures
            r@ == data@,
    {
        ObjMeshIR { data }
    }

    /// The number of tokens.
    pub fn len(&self) -> (r: usize)
        ensures
            r == self@.len(),
    {
        self.data.len()
    }

    /// Appends one token.
    pub fn push(&mut self, item: Token)
        ensures
            final(self)@ == old(self)@.push(item),
    {
        self.data.push(item);
    }
}

} // verus!
