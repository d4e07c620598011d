//! Tokens of the pre-tokenized input stream.
//!
//! Tokenizing raw source is the front end's responsibility; the library
//! receives a flat sequence of tokens, each carrying the source position it
//! came from.  The front end classifies the six structural keywords of the
//! template grammar as dedicated tokens; every other word, including other
//! keywords of the host language, arrives as `Ident`.  Multi-character
//! operators that the grammar gives meaning to (`=>`, `::`) arrive joined;
//! `<` and `>` always arrive as single tokens; any other punctuation arrives
//! as `Other` with its text.

use vstd::prelude::*;

verus! {

/// Delimiter of a bracketed token pair.
#[derive(Clone, Copy, PartialEq, Eq, Structural, Debug)]
pub enum Delim {
    Paren,
    Brace,
    Bracket,
}

/// The kind of one input token.
#[derive(PartialEq, Eq, Debug)]
pub enum TokKind {
    KwIf,
    KwElse,
    KwMatch,
    KwFor,
    KwLet,
    KwIn,
    /// A word that is none of the six structural keywords.
    Ident(String),
    /// A literal, carried as its source text.
    Lit(String),
    At,
    Plus,
    Semi,
    Eq,
    FatArrow,
    PathSep,
    Comma,
    Hyphen,
    Lt,
    Gt,
    Open(Delim),
    Close(Delim),
    /// Any other punctuation, carried as its source text.
    Other(String),
}

/// One token with the source position it came from.
#[derive(PartialEq, Eq, Debug)]
pub struct Token {
    pub kind: TokKind,
    pub pos: u32,
}

/// Mathematical model of a token kind.
#[verifier::ext_equal]
pub enum STokKind {
    KwIf,
    KwElse,
    KwMatch,
    KwFor,
    KwLet,
    KwIn,
    Ident(Seq<char>),
    Lit(Seq<char>),
    At,
    Plus,
    Semi,
    Eq,
    FatArrow,
    PathSep,
    Comma,
    Hyphen,
    Lt,
    Gt,
    Open(Delim),
    Close(Delim),
    Other(Seq<char>),
}

/// Mathematical model of a token.
#[verifier::ext_equal]
pub struct STok {
    pub kind: STokKind,
    pub pos: u32,
}

impl View for TokKind {
    type V = STokKind;

    open spec fn view(&self) -> STokKind {
        match self {
            TokKind::KwIf => STokKind::KwIf,
            TokKind::KwElse => STokKind::KwElse,
            TokKind::KwMatch => STokKind::KwMatch,
            TokKind::KwFor => STokKind::KwFor,
            TokKind::KwLet => STokKind::KwLet,
            TokKind::KwIn => STokKind::KwIn,
            TokKind::Ident(s) => STokKind::Ident(s@),
            TokKind::Lit(s) => STokKind::Lit(s@),
            TokKind::At => STokKind::At,
            TokKind::Plus => STokKind::Plus,
            TokKind::Semi => STokKind::Semi,
            TokKind::Eq => STokKind::Eq,
            TokKind::FatArrow => STokKind::FatArrow,
            TokKind::PathSep => STokKind::PathSep,
            TokKind::Comma => STokKind::Comma,
            TokKind::Hyphen => STokKind::Hyphen,
            TokKind::Lt => STokKind::Lt,
            TokKind::Gt => STokKind::Gt,
            TokKind::Open(d) => STokKind::Open(*d),
            TokKind::Close(d) => STokKind::Close(*d),
            TokKind::Other(s) => STokKind::Other(s@),
        }
    }
}

impl View for Token {
    type V = STok;

    open spec fn view(&self) -> STok {
        STok { kind: self.kind@, pos: self.pos }
    }
}

impl Clone for TokKind {
    fn clone(&self) -> (r: TokKind)
        ensures
            r == *self,
    {
        match self {
            TokKind::KwIf => TokKind::KwIf,
            TokKind::KwElse => TokKind::KwElse,
            TokKind::KwMatch => TokKind::KwMatch,
            TokKind::KwFor => TokKind::KwFor,
            TokKind::KwLet => TokKind::KwLet,
            TokKind::KwIn => TokKind::KwIn,
            TokKind::Ident(s) => TokKind::Ident(s.clone()),
            TokKind::Lit(s) => TokKind::Lit(s.clone()),
            TokKind::At => TokKind::At,
            TokKind::Plus => TokKind::Plus,
            TokKind::Semi => TokKind::Semi,
            TokKind::Eq => TokKind::Eq,
            TokKind::FatArrow => TokKind::FatArrow,
            TokKind::PathSep => TokKind::PathSep,
            TokKind::Comma => TokKind::Comma,
            TokKind::Hyphen => TokKind::Hyphen,
            TokKind::Lt => TokKind::Lt,
            TokKind::Gt => TokKind::Gt,
            TokKind::Open(d) => TokKind::Open(*d),
            TokKind::Close(d) => TokKind::Close(*d),
            TokKind::Other(s) => TokKind::Other(s.clone()),
        }
    }
}

impl Clone for Token {
    fn clone(&self) -> (r: Token)
        ensures
            r == *self,
    {
        Token { kind: self.kind.clone(), pos: self.pos }
    }
}

/// The model of a token sequence.
pub open spec fn toks_view(s: Seq<Token>) -> Seq<STok> {
    s.map_values(|t: Token| t@)
}

/// The position reported for the token at `i`: the token's own position, or,
/// past the end of the stream, the position of the last token (0 for an empty
/// stream).
pub open spec fn pos_at(toks: Seq<STok>, i: int) -> u32 {
    if 0 <= i < toks.len() {
        toks[i].pos
    } else if toks.len() > 0 {
        toks[toks.len() - 1].pos
    } else {
        0
    }
}

/// Executable counterpart of `pos_at`.
pub fn pos_at_exec(toks: &Vec<Token>, i: usize) -> (p: u32)
    ensures
        p == pos_at(toks_view(toks@), i as int),
{
    if i < toks.len() {
        toks[i].pos
    } else if toks.len() > 0 {
        toks[toks.len() - 1].pos
    } else {
        0
    }
}

/// Clones a token run, keeping each token's value.
pub fn clone_tokens(v: &Vec<Token>) -> (out: Vec<Token>)
    ensures
        out@ == v@,
{
    let mut out: Vec<Token> = Vec::new();
    let mut k: usize = 0;
    while k < v.len()
        invariant
            k <= v@.len(),
            out@ == v@.subrange(0, k as int),
        decreases v@.len() - k,
    {
        out.push(v[k].clone());
        proof {
            assert(out@ =~= v@.subrange(0, k + 1 as int));
        }
        k += 1;
    }
    proof {
        assert(out@ =~= v@);
    }
    out
}

} // verus!
