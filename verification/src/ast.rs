//! The statement and expression-holder types the parser produces and the
//! emitter consumes, together with their mathematical models.
//!
//! Embedded expressions and patterns are opaque to the translator: each is a
//! `Raw`, the verbatim run of tokens it was written as, plus the position of
//! its first token.

use vstd::prelude::*;

use crate::token::{STok, Token};

verus! {

/// The grammatically valid alternatives at the position of a syntax error.
#[derive(Clone, Copy, PartialEq, Eq, Structural, Debug)]
pub enum Sym {
    At,
    KwIn,
    FatArrow,
    Eq,
    Semi,
    Comma,
    OpenBrace,
    CloseBrace,
    CloseParen,
    Gt,
}

/// What the parser would have accepted where it failed.
#[derive(Clone, Copy, PartialEq, Eq, Structural, Debug)]
pub enum Expected {
    /// `if`, `match`, `for`, `let`, `+`, or an identifier.
    Stmt,
    /// A directive keyword: `__debug_print` or `macro_path`.
    Directive,
    /// An expression.
    Expr,
    /// A pattern.
    Pat,
    /// An identifier.
    Ident,
    /// `=`, `(`, `{` or `;`.
    NodeArgs,
    /// `{` or `;`.
    NodeBody,
    /// One specific token.
    Sym(Sym),
}

/// The input does not match the grammar: the offending position and the
/// allowed alternatives there.
#[derive(Clone, Copy, PartialEq, Eq, Structural, Debug)]
pub struct SyntaxError {
    pub pos: u32,
    pub expected: Expected,
}

/// Everything a whole translation can fail with.
#[derive(Clone, Copy, PartialEq, Eq, Structural, Debug)]
pub enum CompileError {
    /// Raised by the parser; aborts the whole invocation.
    Syntax(SyntaxError),
    /// A `let` statement after non-`let` content in the same block, at the
    /// `let`'s position.  Raised by the emitter.
    OrderingViolation { pos: u32 },
}

/// A captured run of opaque source tokens and the position of its start.
#[derive(PartialEq, Eq, Debug)]
pub struct Raw {
    pub toks: Vec<Token>,
    pub pos: u32,
}

/// One segment of an element reference: an identifier, optionally followed
/// by angle-bracketed generic parameters captured verbatim (including the
/// surrounding `<` and `>`).
#[derive(PartialEq, Eq, Debug)]
pub struct PathSeg {
    pub ident: String,
    pub generics: Option<Raw>,
    pub pos: u32,
}

/// A namespace-qualified identifier chain, never followed by a parenthesized
/// call.
#[derive(PartialEq, Eq, Debug)]
pub struct Path {
    pub leading: bool,
    pub segs: Vec<PathSeg>,
    pub pos: u32,
}

/// Zero-or-more configuration directives plus one root block.
#[derive(PartialEq, Eq, Debug)]
pub struct Input {
    pub configs: Vec<Config>,
    pub nodes: Nodes,
}

/// A leading configuration directive.
#[derive(PartialEq, Eq, Debug)]
pub enum Config {
    /// `@__debug_print`: print the compiled output.
    DebugPrint { pos: u32 },
    /// `@macro_path <path>`: route the wrapping call through `path`.
    MacroPath { pos: u32, path: Path },
}

/// One brace-delimited scope: an ordered sequence of statements.
#[derive(PartialEq, Eq, Debug)]
pub struct Nodes {
    pub stmts: Vec<Stmt>,
}

/// One statement of a block.
#[derive(PartialEq, Eq, Debug)]
pub enum Stmt {
    If(If),
    Match(Match),
    For(For),
    Let(Let),
    Text(Text),
    Node(Node),
}

/// `if <cond> { <body> }` with an optional `else` block.
#[derive(PartialEq, Eq, Debug)]
pub struct If {
    /// Position of the `if` keyword.
    pub pos: u32,
    pub cond: Raw,
    /// Position of the body's opening brace.
    pub body_pos: u32,
    pub body: Nodes,
    pub else_: Option<Else>,
}

/// `else { <body> }`.
#[derive(PartialEq, Eq, Debug)]
pub struct Else {
    /// Position of the `else` keyword.
    pub pos: u32,
    /// Position of the body's opening brace.
    pub body_pos: u32,
    pub body: Nodes,
}

/// `match <scrutinee> { <arms> }`.
#[derive(PartialEq, Eq, Debug)]
pub struct Match {
    /// Position of the `match` keyword.
    pub pos: u32,
    pub scrutinee: Raw,
    /// Position of the opening brace around the arms.
    pub body_pos: u32,
    pub arms: Vec<Arm>,
}

/// One match arm: pattern, optional guard, brace-delimited body block.
#[derive(PartialEq, Eq, Debug)]
pub struct Arm {
    pub pat: Raw,
    pub guard: Option<Raw>,
    /// Position of the body's opening brace.
    pub body_pos: u32,
    pub body: Nodes,
}

/// `for <pat> in <iter> { <body> }`.
#[derive(PartialEq, Eq, Debug)]
pub struct For {
    /// Position of the `for` keyword.
    pub pos: u32,
    pub pat: Raw,
    /// Position of the `in` keyword.
    pub in_pos: u32,
    pub iter: Raw,
    /// Position of the body's opening brace.
    pub body_pos: u32,
    pub body: Nodes,
}

/// `let <pat> = <init>;` — valid only in a block's leading contiguous run.
#[derive(PartialEq, Eq, Debug)]
pub struct Let {
    /// Position of the `let` keyword.
    pub pos: u32,
    pub pat: Raw,
    pub init: Raw,
}

/// `+ <expr>;` — a text child.
#[derive(PartialEq, Eq, Debug)]
pub struct Text {
    /// Position of the `+`.
    pub pos: u32,
    pub expr: Raw,
}

/// An element: reference, arguments, body.
#[derive(PartialEq, Eq, Debug)]
pub struct Node {
    pub element: Path,
    pub args: NodeArgs,
    pub body: NodeBody,
}

/// The body of an element.
#[derive(PartialEq, Eq, Debug)]
pub enum NodeBody {
    /// `;` — self-closing, no children.
    Semi { pos: u32 },
    /// `{ <children> }`, with the opening brace's position.
    Braced { pos: u32, children: Nodes },
}

/// The arguments of an element.
#[derive(PartialEq, Eq, Debug)]
pub enum NodeArgs {
    /// No argument list at all.
    Absent,
    /// `( <arg>, ... )`, with the opening parenthesis's position.
    Named { pos: u32, args: Vec<NodeArg> },
    /// `= <expr>` — one spread expression supplying the full argument set,
    /// with the `=`'s position.
    Rest { pos: u32, arg: Raw },
}

/// One named argument: identifier segments joined by literal hyphens,
/// optionally `= <value>` (the value's entry carries the `=`'s position).
#[derive(PartialEq, Eq, Debug)]
pub struct NodeArg {
    pub name: Vec<String>,
    pub name_pos: u32,
    pub value: Option<(u32, Raw)>,
}

// ------------------------------------------------------------------
// Mathematical models.
// ------------------------------------------------------------------

#[verifier::ext_equal]
pub struct SRaw {
    pub toks: Seq<STok>,
    pub pos: u32,
}

#[verifier::ext_equal]
pub struct SPathSeg {
    pub ident: Seq<char>,
    pub generics: Option<SRaw>,
    pub pos: u32,
}

#[verifier::ext_equal]
pub struct SPath {
    pub leading: bool,
    pub segs: Seq<SPathSeg>,
    pub pos: u32,
}

#[verifier::ext_equal]
pub struct SInput {
    pub configs: Seq<SConfig>,
    pub nodes: SNodes,
}

#[verifier::ext_equal]
pub enum SConfig {
    DebugPrint { pos: u32 },
    MacroPath { pos: u32, path: SPath },
}

#[verifier::ext_equal]
pub struct SNodes {
    pub stmts: Seq<SStmt>,
}

#[verifier::ext_equal]
pub enum SStmt {
    If(SIf),
    Match(SMatch),
    For(SFor),
    Let(SLet),
    Text(SText),
    Node(SNode),
}

#[verifier::ext_equal]
pub struct SIf {
    pub pos: u32,
    pub cond: SRaw,
    pub body_pos: u32,
    pub body: SNodes,
    pub else_: Option<SElse>,
}

#[verifier::ext_equal]
pub struct SElse {
    pub pos: u32,
    pub body_pos: u32,
    pub body: SNodes,
}

#[verifier::ext_equal]
pub struct SMatch {
    pub pos: u32,
    pub scrutinee: SRaw,
    pub body_pos: u32,
    pub arms: Seq<SArm>,
}

#[verifier::ext_equal]
pub struct SArm {
    pub pat: SRaw,
    pub guard: Option<SRaw>,
    pub body_pos: u32,
    pub body: SNodes,
}

#[verifier::ext_equal]
pub struct SFor {
    pub pos: u32,
    pub pat: SRaw,
    pub in_pos: u32,
    pub iter: SRaw,
    pub body_pos: u32,
    pub body: SNodes,
}

#[verifier::ext_equal]
pub struct SLet {
    pub pos: u32,
    pub pat: SRaw,
    pub init: SRaw,
}

#[verifier::ext_equal]
pub struct SText {
    pub pos: u32,
    pub expr: SRaw,
}

#[verifier::ext_equal]
pub struct SNode {
    pub element: SPath,
    pub args: SNodeArgs,
    pub body: SNodeBody,
}

#[verifier::ext_equal]
pub enum SNodeBody {
    Semi { pos: u32 },
    Braced { pos: u32, children: SNodes },
}

#[verifier::ext_equal]
pub enum SNodeArgs {
    Absent,
    Named { pos: u32, args: Seq<SNodeArg> },
    Rest { pos: u32, arg: SRaw },
}

#[verifier::ext_equal]
pub struct SNodeArg {
    pub name: Seq<Seq<char>>,
    pub name_pos: u32,
    pub value: Option<(u32, SRaw)>,
}

// ------------------------------------------------------------------
// Views.
// ------------------------------------------------------------------

/// The model of a segment sequence.
pub open spec fn segs_view(s: Seq<PathSeg>) -> Seq<SPathSeg> {
    s.map_values(|x: PathSeg| x@)
}

/// The model of an argument sequence.
pub open spec fn args_view(s: Seq<NodeArg>) -> Seq<SNodeArg> {
    s.map_values(|x: NodeArg| x@)
}

/// The model of a name-segment sequence.
pub open spec fn name_view(s: Seq<String>) -> Seq<Seq<char>> {
    s.map_values(|x: String| x@)
}

/// The model of a directive sequence.
pub open spec fn configs_view(s: Seq<Config>) -> Seq<SConfig> {
    s.map_values(|x: Config| x@)
}

/// The model of a statement sequence.
pub open spec fn stmts_view(s: Seq<Stmt>) -> Seq<SStmt>
    decreases s,
{
    Seq::new(
        s.len(),
        |i: int|
            if 0 <= i < s.len() {
                s[i]@
            } else {
                SStmt::Text(SText { pos: 0, expr: SRaw { toks: Seq::empty(), pos: 0 } })
            },
    )
}

/// The model of an arm sequence.
pub open spec fn arms_view(s: Seq<Arm>) -> Seq<SArm>
    decreases s,
{
    Seq::new(
        s.len(),
        |i: int|
            if 0 <= i < s.len() {
                s[i]@
            } else {
                SArm {
                    pat: SRaw { toks: Seq::empty(), pos: 0 },
                    guard: Option::None,
                    body_pos: 0,
                    body: SNodes { stmts: Seq::empty() },
                }
            },
    )
}

impl View for Raw {
    type V = SRaw;

    open spec fn view(&self) -> SRaw {
        SRaw { toks: crate::token::toks_view(self.toks@), pos: self.pos }
    }
}

impl View for PathSeg {
    type V = SPathSeg;

    open spec fn view(&self) -> SPathSeg {
        SPathSeg {
            ident: self.ident@,
            generics: match &self.generics {
                Option::Some(r) => Option::Some(r@),
                Option::None => Option::None,
            },
            pos: self.pos,
        }
    }
}

impl View for Path {
    type V = SPath;

    open spec fn view(&self) -> SPath {
        SPath { leading: self.leading, segs: segs_view(self.segs@), pos: self.pos }
    }
}

impl View for Config {
    type V = SConfig;

    open spec fn view(&self) -> SConfig {
        match self {
            Config::DebugPrint { pos } => SConfig::DebugPrint { pos: *pos },
            Config::MacroPath { pos, path } => SConfig::MacroPath { pos: *pos, path: path@ },
        }
    }
}

impl View for Input {
    type V = SInput;

    open spec fn view(&self) -> SInput {
        SInput { configs: configs_view(self.configs@), nodes: self.nodes@ }
    }
}

impl View for Nodes {
    type V = SNodes;

    open spec fn view(&self) -> SNodes
        decreases self,
    {
        SNodes { stmts: stmts_view(self.stmts@) }
    }
}

impl View for Stmt {
    type V = SStmt;

    open spec fn view(&self) -> SStmt
        decreases self,
    {
        match self {
            Stmt::If(s) => SStmt::If(s@),
            Stmt::Match(s) => SStmt::Match(s@),
            Stmt::For(s) => SStmt::For(s@),
            Stmt::Let(s) => SStmt::Let(SLet { pos: s.pos, pat: s.pat@, init: s.init@ }),
            Stmt::Text(s) => SStmt::Text(SText { pos: s.pos, expr: s.expr@ }),
            Stmt::Node(s) => SStmt::Node(s@),
        }
    }
}

impl View for If {
    type V = SIf;

    open spec fn view(&self) -> SIf
        decreases self,
    {
        SIf {
            pos: self.pos,
            cond: self.cond@,
            body_pos: self.body_pos,
            body: self.body@,
            else_: match &self.else_ {
                Option::Some(e) => Option::Some(e@),
                Option::None => Option::None,
            },
        }
    }
}

impl View for Else {
    type V = SElse;

    open spec fn view(&self) -> SElse
        decreases self,
    {
        SElse { pos: self.pos, body_pos: self.body_pos, body: self.body@ }
    }
}

impl View for Match {
    type V = SMatch;

    open spec fn view(&self) -> SMatch
        decreases self,
    {
        SMatch {
            pos: self.pos,
            scrutinee: self.scrutinee@,
            body_pos: self.body_pos,
            arms: arms_view(self.arms@),
        }
    }
}

impl View for Arm {
    type V = SArm;

    open spec fn view(&self) -> SArm
        decreases self,
    {
        SArm {
            pat: self.pat@,
            guard: match &self.guard {
                Option::Some(g) => Option::Some(g@),
                Option::None => Option::None,
            },
            body_pos: self.body_pos,
            body: self.body@,
        }
    }
}

impl View for For {
    type V = SFor;

    open spec fn view(&self) -> SFor
        decreases self,
    {
        SFor {
            pos: self.pos,
            pat: self.pat@,
            in_pos: self.in_pos,
            iter: self.iter@,
            body_pos: self.body_pos,
            body: self.body@,
        }
    }
}

impl View for Let {
    type V = SLet;

    open spec fn view(&self) -> SLet {
        SLet { pos: self.pos, pat: self.pat@, init: self.init@ }
    }
}

impl View for Text {
    type V = SText;

    open spec fn view(&self) -> SText {
        SText { pos: self.pos, expr: self.expr@ }
    }
}

impl View for Node {
    type V = SNode;

    open spec fn view(&self) -> SNode
        decreases self,
    {
        SNode { element: self.element@, args: self.args@, body: self.body@ }
    }
}

impl View for NodeBody {
    type V = SNodeBody;

    open spec fn view(&self) -> SNodeBody
        decreases self,
    {
        match self {
            NodeBody::Semi { pos } => SNodeBody::Semi { pos: *pos },
            NodeBody::Braced { pos, children } => SNodeBody::Braced {
                pos: *pos,
                children: children@,
            },
        }
    }
}

impl View for NodeArgs {
    type V = SNodeArgs;

    open spec fn view(&self) -> SNodeArgs {
        match self {
            NodeArgs::Absent => SNodeArgs::Absent,
            NodeArgs::Named { pos, args } => SNodeArgs::Named {
                pos: *pos,
                args: args_view(args@),
            },
            NodeArgs::Rest { pos, arg } => SNodeArgs::Rest { pos: *pos, arg: arg@ },
        }
    }
}

impl View for NodeArg {
    type V = SNodeArg;

    open spec fn view(&self) -> SNodeArg {
        SNodeArg {
            name: name_view(self.name@),
            name_pos: self.name_pos,
            value: match &self.value {
                Option::Some((p, r)) => Option::Some((*p, r@)),
                Option::None => Option::None,
            },
        }
    }
}

// ------------------------------------------------------------------
// Clones that keep the model.
// ------------------------------------------------------------------

impl Clone for Raw {
    fn clone(&self) -> (r: Raw)
        ensures
            r@ == self@,
    {
        Raw { toks: crate::token::clone_tokens(&self.toks), pos: self.pos }
    }
}

impl Clone for PathSeg {
    fn clone(&self) -> (r: PathSeg)
        ensures
            r@ == self@,
    {
        PathSeg {
            ident: self.ident.clone(),
            generics: match &self.generics {
                Option::Some(g) => Option::Some(g.clone()),
                Option::None => Option::None,
            },
            pos: self.pos,
        }
    }
}

impl Clone for Path {
    fn clone(&self) -> (r: Path)
        ensures
            r@ == self@,
    {
        let mut segs: Vec<PathSeg> = Vec::new();
        let mut k: usize = 0;
        while k < self.segs.len()
            invariant
                k <= self.segs@.len(),
                segs@.len() == k,
                forall|m: int| 0 <= m < k ==> #[trigger] segs@[m]@ == self.segs@[m]@,
            decreases self.segs@.len() - k,
        {
            segs.push(self.segs[k].clone());
            k += 1;
        }
        let r = Path { leading: self.leading, segs, pos: self.pos };
        proof {
            assert(segs_view(segs@) =~= segs_view(self.segs@));
            assert(r@ =~= self@);
        }
        r
    }
}

} // verus!
