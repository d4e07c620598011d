//! Recursive-descent parser with one-token lookahead.
//!
//! Each executable parse function is proved equal to a spec-level parse
//! function over the token stream's model; the spec functions are the
//! grammar's definition.  Embedded expressions and patterns are captured
//! verbatim by a depth-tracking scan that stops at the first delimiter or
//! stop token that cannot belong to them.

use vstd::prelude::*;

use crate::ast::{args_view, arms_view, configs_view, name_view, segs_view, stmts_view};
use crate::ast::{Arm, Config, Else, Expected, For, If, Input, Let, Match, Node, NodeArg, NodeArgs,
    NodeBody, Nodes, Path, PathSeg, Raw, Stmt, SyntaxError, Sym, Text};
use crate::ast::{SArm, SConfig, SElse, SFor, SIf, SInput, SLet, SMatch, SNode, SNodeArg, SNodeArgs,
    SNodeBody, SNodes, SPath, SPathSeg, SRaw, SStmt, SText};
use crate::token::{pos_at, pos_at_exec, toks_view, Delim, STok, STokKind, TokKind, Token};

verus! {

/// Which kind of opaque run is being captured; decides the stop tokens.
#[derive(Clone, Copy, PartialEq, Eq, Structural, Debug)]
pub enum CaptureKind {
    /// A condition, scrutinee or iterable: a following `{` at nesting depth
    /// zero is not part of the expression, so the block's brace survives.
    CondExpr,
    /// An ordinary expression: a `{` at depth zero opens a group that
    /// belongs to the expression.
    Expr,
    /// A `let` pattern: stops before `=`.
    LetPat,
    /// A `for` pattern: stops before `in`.
    ForPat,
    /// A match-arm pattern: stops before a guard's `if` or `=>`.
    ArmPat,
}

/// Whether `k` at nesting depth zero ends a capture of kind `kind`.
pub open spec fn is_stop(kind: CaptureKind, k: STokKind) -> bool {
    match kind {
        CaptureKind::CondExpr => k == STokKind::Open(Delim::Brace) || k == STokKind::Semi || k
            == STokKind::Comma || k == STokKind::FatArrow,
        CaptureKind::Expr => k == STokKind::Semi || k == STokKind::Comma || k
            == STokKind::FatArrow,
        CaptureKind::LetPat => k == STokKind::Eq || k == STokKind::Semi,
        CaptureKind::ForPat => k == STokKind::KwIn,
        CaptureKind::ArmPat => k == STokKind::KwIf || k == STokKind::FatArrow,
    }
}

fn is_stop_exec(kind: CaptureKind, k: &TokKind) -> (r: bool)
    ensures
        r == is_stop(kind, k@),
{
    match kind {
        CaptureKind::CondExpr => matches!(
            k,
            TokKind::Open(Delim::Brace) | TokKind::Semi | TokKind::Comma | TokKind::FatArrow
        ),
        CaptureKind::Expr => matches!(k, TokKind::Semi | TokKind::Comma | TokKind::FatArrow),
        CaptureKind::LetPat => matches!(k, TokKind::Eq | TokKind::Semi),
        CaptureKind::ForPat => matches!(k, TokKind::KwIn),
        CaptureKind::ArmPat => matches!(k, TokKind::KwIf | TokKind::FatArrow),
    }
}

/// The token at `i` exists and is `k`.
pub open spec fn at(toks: Seq<STok>, i: int, k: STokKind) -> bool {
    0 <= i < toks.len() && toks[i].kind == k
}

/// Index just past the run a capture starting at `i` consumes, with `depth`
/// delimiter groups currently open.  A closing delimiter at depth zero and
/// the end of the stream always stop the scan.
pub open spec fn capture_end(toks: Seq<STok>, i: int, depth: nat, kind: CaptureKind) -> int
    decreases toks.len() - i,
{
    if i < 0 || i >= toks.len() {
        i
    } else if depth == 0 && is_stop(kind, toks[i].kind) {
        i
    } else {
        match toks[i].kind {
            STokKind::Open(_) => capture_end(toks, i + 1, depth + 1, kind),
            STokKind::Close(_) => if depth == 0 {
                i
            } else {
                capture_end(toks, i + 1, (depth - 1) as nat, kind)
            },
            _ => capture_end(toks, i + 1, depth, kind),
        }
    }
}

/// The captured run starting at `i`, or a syntax error naming `exp` when the
/// capture would be empty.
pub open spec fn spec_capture(toks: Seq<STok>, i: int, kind: CaptureKind, exp: Expected) -> Result<
    (SRaw, int),
    SyntaxError,
> {
    let end = capture_end(toks, i, 0, kind);
    if end == i {
        Err(SyntaxError { pos: pos_at(toks, i), expected: exp })
    } else {
        Ok((SRaw { toks: toks.subrange(i, end), pos: toks[i].pos }, end))
    }
}

fn capture_end_exec(toks: &Vec<Token>, i: usize, depth: usize, kind: CaptureKind) -> (end: usize)
    requires
        i <= toks@.len(),
        depth <= i,
    ensures
        end as int == capture_end(toks_view(toks@), i as int, depth as nat, kind),
        i <= end <= toks@.len(),
    decreases toks@.len() - i,
{
    if i >= toks.len() {
        i
    } else if depth == 0 && is_stop_exec(kind, &toks[i].kind) {
        i
    } else {
        match &toks[i].kind {
            TokKind::Open(_) => capture_end_exec(toks, i + 1, depth + 1, kind),
            TokKind::Close(_) => if depth == 0 {
                i
            } else {
                capture_end_exec(toks, i + 1, depth - 1, kind)
            },
            _ => capture_end_exec(toks, i + 1, depth, kind),
        }
    }
}

/// Captures an opaque run of tokens verbatim.
fn capture(toks: &Vec<Token>, i: usize, kind: CaptureKind, exp: Expected) -> (r: Result<
    (Raw, usize),
    SyntaxError,
>)
    requires
        i <= toks@.len(),
    ensures
        ({
            let s = spec_capture(toks_view(toks@), i as int, kind, exp);
            match r {
                Ok((raw, j)) => s == Ok::<(SRaw, int), SyntaxError>((raw@, j as int)) && i < j
                    <= toks@.len(),
                Err(e) => s == Err::<(SRaw, int), SyntaxError>(e),
            }
        }),
{
    let end = capture_end_exec(toks, i, 0, kind);
    if end == i {
        Err(SyntaxError { pos: pos_at_exec(toks, i), expected: exp })
    } else {
        let mut out: Vec<Token> = Vec::new();
        let mut k = i;
        while k < end
            invariant
                i <= k <= end <= toks@.len(),
                out@ == toks@.subrange(i as int, k as int),
            decreases end - k,
        {
            out.push(toks[k].clone());
            proof {
                assert(out@ =~= toks@.subrange(i as int, k + 1 as int));
            }
            k += 1;
        }
        proof {
            assert(toks_view(out@) =~= toks_view(toks@).subrange(i as int, end as int));
        }
        Ok((Raw { toks: out, pos: toks[i].pos }, end))
    }
}

/// Index just past the `>` matching an already-open run of `depth` angle
/// brackets, scanning from `i`; -1 when the stream ends first.
pub open spec fn angle_end(toks: Seq<STok>, i: int, depth: nat) -> int
    decreases toks.len() - i,
{
    if i < 0 || i >= toks.len() {
        -1
    } else if toks[i].kind == STokKind::Lt {
        angle_end(toks, i + 1, depth + 1)
    } else if toks[i].kind == STokKind::Gt {
        if depth == 1 {
            i + 1
        } else {
            angle_end(toks, i + 1, (depth - 1) as nat)
        }
    } else {
        angle_end(toks, i + 1, depth)
    }
}

fn angle_end_exec(toks: &Vec<Token>, i: usize, depth: usize) -> (r: Option<usize>)
    requires
        i <= toks@.len(),
        1 <= depth <= i,
    ensures
        ({
            let e = angle_end(toks_view(toks@), i as int, depth as nat);
            match r {
                Option::Some(end) => e == end as int && i < end <= toks@.len(),
                Option::None => e == -1,
            }
        }),
    decreases toks@.len() - i,
{
    if i >= toks.len() {
        Option::None
    } else if matches!(&toks[i].kind, TokKind::Lt) {
        angle_end_exec(toks, i + 1, depth + 1)
    } else if matches!(&toks[i].kind, TokKind::Gt) {
        if depth == 1 {
            Option::Some(i + 1)
        } else {
            angle_end_exec(toks, i + 1, depth - 1)
        }
    } else {
        angle_end_exec(toks, i + 1, depth)
    }
}

/// Never returned on any reachable run: the index guards that yield it only
/// exclude index jumps the parse functions cannot take, as the executable
/// parser's contracts show.
pub open spec fn unreachable_err(toks: Seq<STok>, i: int) -> SyntaxError {
    SyntaxError { pos: pos_at(toks, i), expected: Expected::Stmt }
}

/// The word a token contributes to a hyphen-joined argument name: any
/// identifier, or one of the structural keywords taken verbatim.
pub open spec fn spec_ident_like(k: STokKind) -> Option<Seq<char>> {
    match k {
        STokKind::Ident(s) => Option::Some(s),
        STokKind::KwIf => Option::Some("if"@),
        STokKind::KwElse => Option::Some("else"@),
        STokKind::KwMatch => Option::Some("match"@),
        STokKind::KwFor => Option::Some("for"@),
        STokKind::KwLet => Option::Some("let"@),
        STokKind::KwIn => Option::Some("in"@),
        _ => Option::None,
    }
}

fn ident_like(k: &TokKind) -> (r: Option<String>)
    ensures
        match r {
            Option::Some(s) => spec_ident_like(k@) == Option::Some(s@),
            Option::None => spec_ident_like(k@) is None,
        },
{
    match k {
        TokKind::Ident(s) => Option::Some(s.clone()),
        TokKind::KwIf => Option::Some("if".to_owned()),
        TokKind::KwElse => Option::Some("else".to_owned()),
        TokKind::KwMatch => Option::Some("match".to_owned()),
        TokKind::KwFor => Option::Some("for".to_owned()),
        TokKind::KwLet => Option::Some("let".to_owned()),
        TokKind::KwIn => Option::Some("in".to_owned()),
        _ => Option::None,
    }
}

// ------------------------------------------------------------------
// Element references (paths).
// ------------------------------------------------------------------

/// One path segment: an identifier, optionally followed by a verbatim
/// angle-bracketed generic-parameter run.
pub open spec fn spec_parse_seg(toks: Seq<STok>, i: int) -> Result<(SPathSeg, int), SyntaxError> {
    if !(0 <= i < toks.len()) {
        Err(SyntaxError { pos: pos_at(toks, i), expected: Expected::Ident })
    } else {
        match toks[i].kind {
            STokKind::Ident(name) => if at(toks, i + 1, STokKind::Lt) {
                let e = angle_end(toks, i + 2, 1);
                if e == -1 {
                    Err(
                        SyntaxError {
                            pos: pos_at(toks, toks.len() as int),
                            expected: Expected::Sym(Sym::Gt),
                        },
                    )
                } else {
                    Ok(
                        (
                            SPathSeg {
                                ident: name,
                                generics: Option::Some(
                                    SRaw { toks: toks.subrange(i + 1, e), pos: toks[i + 1].pos },
                                ),
                                pos: toks[i].pos,
                            },
                            e,
                        ),
                    )
                }
            } else {
                Ok((SPathSeg { ident: name, generics: Option::None, pos: toks[i].pos }, i + 1))
            },
            _ => Err(SyntaxError { pos: toks[i].pos, expected: Expected::Ident }),
        }
    }
}

/// A non-empty chain of segments joined by the namespace separator.
pub open spec fn spec_parse_segs(toks: Seq<STok>, i: int) -> Result<
    (Seq<SPathSeg>, int),
    SyntaxError,
>
    decreases toks.len() - i,
{
    match spec_parse_seg(toks, i) {
        Err(e) => Err(e),
        Ok((seg, j)) => if at(toks, j, STokKind::PathSep) {
            if i < j + 1 <= toks.len() {
                match spec_parse_segs(toks, j + 1) {
                    Err(e) => Err(e),
                    Ok((rest, k)) => Ok((seq![seg] + rest, k)),
                }
            } else {
                Err(unreachable_err(toks, i))
            }
        } else {
            Ok((seq![seg], j))
        },
    }
}

/// A namespace-qualified identifier chain with optional generic-style
/// parameters, which never consumes a parenthesized group: parentheses after
/// an element reference belong exclusively to its arguments.
pub open spec fn spec_parse_path(toks: Seq<STok>, i: int) -> Result<(SPath, int), SyntaxError> {
    let leading = at(toks, i, STokKind::PathSep);
    let start = if leading {
        i + 1
    } else {
        i
    };
    match spec_parse_segs(toks, start) {
        Err(e) => Err(e),
        Ok((segs, j)) => Ok((SPath { leading, segs, pos: pos_at(toks, i) }, j)),
    }
}

fn parse_seg(toks: &Vec<Token>, i: usize) -> (r: Result<(PathSeg, usize), SyntaxError>)
    requires
        i <= toks@.len(),
    ensures
        ({
            let s = spec_parse_seg(toks_view(toks@), i as int);
            match r {
                Ok((seg, j)) => s == Ok::<(SPathSeg, int), SyntaxError>((seg@, j as int)) && i < j
                    <= toks@.len(),
                Err(e) => s == Err::<(SPathSeg, int), SyntaxError>(e),
            }
        }),
{
    if i >= toks.len() {
        return Err(SyntaxError { pos: pos_at_exec(toks, i), expected: Expected::Ident });
    }
    match &toks[i].kind {
        TokKind::Ident(name) => {
            let name = name.clone();
            if i + 1 < toks.len() && matches!(&toks[i + 1].kind, TokKind::Lt) {
                match angle_end_exec(toks, i + 2, 1) {
                    Option::None => Err(
                        SyntaxError {
                            pos: pos_at_exec(toks, toks.len()),
                            expected: Expected::Sym(Sym::Gt),
                        },
                    ),
                    Option::Some(e) => {
                        let generics = capture_slice(toks, i + 1, e);
                        Ok(
                            (
                                PathSeg {
                                    ident: name,
                                    generics: Option::Some(
                                        Raw { toks: generics, pos: toks[i + 1].pos },
                                    ),
                                    pos: toks[i].pos,
                                },
                                e,
                            ),
                        )
                    },
                }
            } else {
                Ok((PathSeg { ident: name, generics: Option::None, pos: toks[i].pos }, i + 1))
            }
        },
        _ => Err(SyntaxError { pos: toks[i].pos, expected: Expected::Ident }),
    }
}

/// Clones the token run `[from, to)`.
fn capture_slice(toks: &Vec<Token>, from: usize, to: usize) -> (out: Vec<Token>)
    requires
        from <= to <= toks@.len(),
    ensures
        toks_view(out@) == toks_view(toks@).subrange(from as int, to as int),
{
    let mut out: Vec<Token> = Vec::new();
    let mut k = from;
    while k < to
        invariant
            from <= k <= to <= toks@.len(),
            out@ == toks@.subrange(from as int, k as int),
        decreases to - k,
    {
        out.push(toks[k].clone());
        proof {
            assert(out@ =~= toks@.subrange(from as int, k + 1 as int));
        }
        k += 1;
    }
    proof {
        assert(toks_view(out@) =~= toks_view(toks@).subrange(from as int, to as int));
    }
    out
}

fn parse_segs(toks: &Vec<Token>, i: usize) -> (r: Result<(Vec<PathSeg>, usize), SyntaxError>)
    requires
        i <= toks@.len(),
    ensures
        ({
            let s = spec_parse_segs(toks_view(toks@), i as int);
            match r {
                Ok((segs, j)) => s == Ok::<(Seq<SPathSeg>, int), SyntaxError>(
                    (segs_view(segs@), j as int),
                ) && i < j <= toks@.len(),
                Err(e) => s == Err::<(Seq<SPathSeg>, int), SyntaxError>(e),
            }
        }),
    decreases toks@.len() - i,
{
    match parse_seg(toks, i) {
        Err(e) => Err(e),
        Ok((seg, j)) => {
            if j < toks.len() && matches!(&toks[j].kind, TokKind::PathSep) {
                match parse_segs(toks, j + 1) {
                    Err(e) => Err(e),
                    Ok((rest, k)) => {
                        let mut segs = rest;
                        segs.insert(0, seg);
                        proof {
                            assert(segs_view(segs@) =~= seq![seg@] + segs_view(rest@));
                        }
                        Ok((segs, k))
                    },
                }
            } else {
                let mut segs: Vec<PathSeg> = Vec::new();
                segs.push(seg);
                proof {
                    assert(segs_view(segs@) =~= seq![seg@]);
                }
                Ok((segs, j))
            }
        },
    }
}

/// Parses an element reference.  A function-call chain cannot be an element,
/// so a parenthesized group after the chain is left for the argument list.
pub fn parse_path_without_paren(toks: &Vec<Token>, i: usize) -> (r: Result<
    (Path, usize),
    SyntaxError,
>)
    requires
        i <= toks@.len(),
    ensures
        ({
            let s = spec_parse_path(toks_view(toks@), i as int);
            match r {
                Ok((p, j)) => s == Ok::<(SPath, int), SyntaxError>((p@, j as int)) && i < j
                    <= toks@.len(),
                Err(e) => s == Err::<(SPath, int), SyntaxError>(e),
            }
        }),
{
    let leading = i < toks.len() && matches!(&toks[i].kind, TokKind::PathSep);
    let start = if leading {
        i + 1
    } else {
        i
    };
    let pos = pos_at_exec(toks, i);
    match parse_segs(toks, start) {
        Err(e) => Err(e),
        Ok((segs, j)) => Ok((Path { leading, segs, pos }, j)),
    }
}

// ------------------------------------------------------------------
// Named arguments.
// ------------------------------------------------------------------

/// A hyphen-joined argument name: identifier-like words separated by `-`,
/// each hyphen preserved verbatim in the emitted attribute name.
pub open spec fn spec_parse_arg_name(toks: Seq<STok>, i: int) -> Result<
    (Seq<Seq<char>>, int),
    SyntaxError,
>
    decreases toks.len() - i,
{
    if !(0 <= i < toks.len()) {
        Err(SyntaxError { pos: pos_at(toks, i), expected: Expected::Ident })
    } else {
        match spec_ident_like(toks[i].kind) {
            Option::None => Err(SyntaxError { pos: toks[i].pos, expected: Expected::Ident }),
            Option::Some(s) => if at(toks, i + 1, STokKind::Hyphen) {
                match spec_parse_arg_name(toks, i + 2) {
                    Err(e) => Err(e),
                    Ok((rest, j)) => Ok((seq![s] + rest, j)),
                }
            } else {
                Ok((seq![s], i + 1))
            },
        }
    }
}

/// One named argument, optionally with an explicit `= value`.
pub open spec fn spec_parse_node_arg(toks: Seq<STok>, i: int) -> Result<
    (SNodeArg, int),
    SyntaxError,
> {
    match spec_parse_arg_name(toks, i) {
        Err(e) => Err(e),
        Ok((name, j)) => if at(toks, j, STokKind::Eq) {
            match spec_capture(toks, j + 1, CaptureKind::Expr, Expected::Expr) {
                Err(e) => Err(e),
                Ok((v, j2)) => Ok(
                    (
                        SNodeArg {
                            name,
                            name_pos: pos_at(toks, i),
                            value: Option::Some((toks[j].pos, v)),
                        },
                        j2,
                    ),
                ),
            }
        } else {
            Ok((SNodeArg { name, name_pos: pos_at(toks, i), value: Option::None }, j))
        },
    }
}

/// A comma-separated argument list, ending before the closing delimiter;
/// a trailing comma and an empty list are accepted.
pub open spec fn spec_parse_arg_list(toks: Seq<STok>, i: int) -> Result<
    (Seq<SNodeArg>, int),
    SyntaxError,
>
    decreases toks.len() - i,
{
    if !(0 <= i < toks.len()) || (toks[i].kind matches STokKind::Close(_)) {
        Ok((Seq::empty(), i))
    } else {
        match spec_parse_node_arg(toks, i) {
            Err(e) => Err(e),
            Ok((a, j)) => if at(toks, j, STokKind::Comma) {
                if i < j + 1 {
                    match spec_parse_arg_list(toks, j + 1) {
                        Err(e) => Err(e),
                        Ok((rest, k)) => Ok((seq![a] + rest, k)),
                    }
                } else {
                    Err(unreachable_err(toks, i))
                }
            } else if j >= toks.len() || j < 0 || (toks[j].kind matches STokKind::Close(_)) {
                Ok((seq![a], j))
            } else {
                Err(SyntaxError { pos: pos_at(toks, j), expected: Expected::Sym(Sym::Comma) })
            },
        }
    }
}

/// The argument position of an element: a spread (`= expr`), a parenthesized
/// named list, or nothing when the body follows at once.
pub open spec fn spec_parse_node_args(toks: Seq<STok>, i: int) -> Result<
    (SNodeArgs, int),
    SyntaxError,
> {
    if !(0 <= i < toks.len()) {
        Err(SyntaxError { pos: pos_at(toks, i), expected: Expected::NodeArgs })
    } else {
        match toks[i].kind {
            STokKind::Eq => match spec_capture(toks, i + 1, CaptureKind::Expr, Expected::Expr) {
                Err(e) => Err(e),
                Ok((arg, j)) => Ok((SNodeArgs::Rest { pos: toks[i].pos, arg }, j)),
            },
            STokKind::Open(Delim::Paren) => match spec_parse_arg_list(toks, i + 1) {
                Err(e) => Err(e),
                Ok((args, j)) => if at(toks, j, STokKind::Close(Delim::Paren)) {
                    Ok((SNodeArgs::Named { pos: toks[i].pos, args }, j + 1))
                } else {
                    Err(
                        SyntaxError {
                            pos: pos_at(toks, j),
                            expected: Expected::Sym(Sym::CloseParen),
                        },
                    )
                },
            },
            STokKind::Open(Delim::Brace) => Ok((SNodeArgs::Absent, i)),
            STokKind::Semi => Ok((SNodeArgs::Absent, i)),
            _ => Err(SyntaxError { pos: toks[i].pos, expected: Expected::NodeArgs }),
        }
    }
}

fn parse_arg_name(toks: &Vec<Token>, i: usize) -> (r: Result<(Vec<String>, usize), SyntaxError>)
    requires
        i <= toks@.len(),
    ensures
        ({
            let s = spec_parse_arg_name(toks_view(toks@), i as int);
            match r {
                Ok((name, j)) => s == Ok::<(Seq<Seq<char>>, int), SyntaxError>(
                    (name_view(name@), j as int),
                ) && i < j <= toks@.len(),
                Err(e) => s == Err::<(Seq<Seq<char>>, int), SyntaxError>(e),
            }
        }),
    decreases toks@.len() - i,
{
    if i >= toks.len() {
        return Err(SyntaxError { pos: pos_at_exec(toks, i), expected: Expected::Ident });
    }
    match ident_like(&toks[i].kind) {
        Option::None => Err(SyntaxError { pos: toks[i].pos, expected: Expected::Ident }),
        Option::Some(s) => {
            if i + 1 < toks.len() && matches!(&toks[i + 1].kind, TokKind::Hyphen) {
                match parse_arg_name(toks, i + 2) {
                    Err(e) => Err(e),
                    Ok((rest, j)) => {
                        let mut name = rest;
                        name.insert(0, s);
                        proof {
                            assert(name_view(name@) =~= seq![s@] + name_view(rest@));
                        }
                        Ok((name, j))
                    },
                }
            } else {
                let mut name: Vec<String> = Vec::new();
                name.push(s);
                proof {
                    assert(name_view(name@) =~= seq![s@]);
                }
                Ok((name, i + 1))
            }
        },
    }
}

impl NodeArg {
    /// Parses one named argument.
    pub fn parse(toks: &Vec<Token>, i: usize) -> (r: Result<(NodeArg, usize), SyntaxError>)
        requires
            i <= toks@.len(),
        ensures
            ({
                let s = spec_parse_node_arg(toks_view(toks@), i as int);
                match r {
                    Ok((a, j)) => s == Ok::<(SNodeArg, int), SyntaxError>((a@, j as int)) && i < j
                        <= toks@.len(),
                    Err(e) => s == Err::<(SNodeArg, int), SyntaxError>(e),
                }
            }),
    {
        let name_pos = pos_at_exec(toks, i);
        match parse_arg_name(toks, i) {
            Err(e) => Err(e),
            Ok((name, j)) => {
                if j < toks.len() && matches!(&toks[j].kind, TokKind::Eq) {
                    match capture(toks, j + 1, CaptureKind::Expr, Expected::Expr) {
                        Err(e) => Err(e),
                        Ok((v, j2)) => Ok(
                            (
                                NodeArg { name, name_pos, value: Option::Some((toks[j].pos, v)) },
                                j2,
                            ),
                        ),
                    }
                } else {
                    Ok((NodeArg { name, name_pos, value: Option::None }, j))
                }
            },
        }
    }
}

fn parse_arg_list(toks: &Vec<Token>, i: usize) -> (r: Result<(Vec<NodeArg>, usize), SyntaxError>)
    requires
        i <= toks@.len(),
    ensures
        ({
            let s = spec_parse_arg_list(toks_view(toks@), i as int);
            match r {
                Ok((args, j)) => s == Ok::<(Seq<SNodeArg>, int), SyntaxError>(
                    (args_view(args@), j as int),
                ) && i <= j <= toks@.len(),
                Err(e) => s == Err::<(Seq<SNodeArg>, int), SyntaxError>(e),
            }
        }),
    decreases toks@.len() - i,
{
    if i >= toks.len() || matches!(&toks[i].kind, TokKind::Close(_)) {
        let args: Vec<NodeArg> = Vec::new();
        proof {
            assert(args_view(args@) =~= Seq::<SNodeArg>::empty());
        }
        return Ok((args, i));
    }
    match NodeArg::parse(toks, i) {
        Err(e) => Err(e),
        Ok((a, j)) => {
            if j < toks.len() && matches!(&toks[j].kind, TokKind::Comma) {
                match parse_arg_list(toks, j + 1) {
                    Err(e) => Err(e),
                    Ok((rest, k)) => {
                        let mut args = rest;
                        args.insert(0, a);
                        proof {
                            assert(args_view(args@) =~= seq![a@] + args_view(rest@));
                        }
                        Ok((args, k))
                    },
                }
            } else if j >= toks.len() || matches!(&toks[j].kind, TokKind::Close(_)) {
                let mut args: Vec<NodeArg> = Vec::new();
                args.push(a);
                proof {
                    assert(args_view(args@) =~= seq![a@]);
                }
                Ok((args, j))
            } else {
                Err(SyntaxError { pos: toks[j].pos, expected: Expected::Sym(Sym::Comma) })
            }
        },
    }
}

impl NodeArgs {
    /// Parses an element's argument position with one token of lookahead:
    /// `=` starts a spread, `(` a named list, `{` and `;` mean no arguments.
    pub fn parse(toks: &Vec<Token>, i: usize) -> (r: Result<(NodeArgs, usize), SyntaxError>)
        requires
            i <= toks@.len(),
        ensures
            ({
                let s = spec_parse_node_args(toks_view(toks@), i as int);
                match r {
                    Ok((a, j)) => s == Ok::<(SNodeArgs, int), SyntaxError>((a@, j as int)) && i <= j
                        <= toks@.len(),
                    Err(e) => s == Err::<(SNodeArgs, int), SyntaxError>(e),
                }
            }),
    {
        if i >= toks.len() {
            return Err(SyntaxError { pos: pos_at_exec(toks, i), expected: Expected::NodeArgs });
        }
        match &toks[i].kind {
            TokKind::Eq => match capture(toks, i + 1, CaptureKind::Expr, Expected::Expr) {
                Err(e) => Err(e),
                Ok((arg, j)) => Ok((NodeArgs::Rest { pos: toks[i].pos, arg }, j)),
            },
            TokKind::Open(Delim::Paren) => match parse_arg_list(toks, i + 1) {
                Err(e) => Err(e),
                Ok((args, j)) => {
                    if j < toks.len() && matches!(&toks[j].kind, TokKind::Close(Delim::Paren)) {
                        Ok((NodeArgs::Named { pos: toks[i].pos, args }, j + 1))
                    } else {
                        Err(
                            SyntaxError {
                                pos: pos_at_exec(toks, j),
                                expected: Expected::Sym(Sym::CloseParen),
                            },
                        )
                    }
                },
            },
            TokKind::Open(Delim::Brace) => Ok((NodeArgs::Absent, i)),
            TokKind::Semi => Ok((NodeArgs::Absent, i)),
            _ => Err(SyntaxError { pos: toks[i].pos, expected: Expected::NodeArgs }),
        }
    }
}

// ------------------------------------------------------------------
// Leaf statements.
// ------------------------------------------------------------------

/// `let <pat> = <init>;` with the `let` at `i`.
pub open spec fn spec_parse_let(toks: Seq<STok>, i: int) -> Result<(SLet, int), SyntaxError> {
    match spec_capture(toks, i + 1, CaptureKind::LetPat, Expected::Pat) {
        Err(e) => Err(e),
        Ok((pat, j)) => if !at(toks, j, STokKind::Eq) {
            Err(SyntaxError { pos: pos_at(toks, j), expected: Expected::Sym(Sym::Eq) })
        } else {
            match spec_capture(toks, j + 1, CaptureKind::Expr, Expected::Expr) {
                Err(e) => Err(e),
                Ok((init, j2)) => if at(toks, j2, STokKind::Semi) {
                    Ok((SLet { pos: pos_at(toks, i), pat, init }, j2 + 1))
                } else {
                    Err(SyntaxError { pos: pos_at(toks, j2), expected: Expected::Sym(Sym::Semi) })
                },
            }
        },
    }
}

/// `+ <expr>;` with the `+` at `i`.
pub open spec fn spec_parse_text(toks: Seq<STok>, i: int) -> Result<(SText, int), SyntaxError> {
    match spec_capture(toks, i + 1, CaptureKind::Expr, Expected::Expr) {
        Err(e) => Err(e),
        Ok((expr, j)) => if at(toks, j, STokKind::Semi) {
            Ok((SText { pos: pos_at(toks, i), expr }, j + 1))
        } else {
            Err(SyntaxError { pos: pos_at(toks, j), expected: Expected::Sym(Sym::Semi) })
        },
    }
}

impl Let {
    /// Parses a `let` binding statement.
    pub fn parse(toks: &Vec<Token>, i: usize) -> (r: Result<(Let, usize), SyntaxError>)
        requires
            i < toks@.len(),
        ensures
            ({
                let s = spec_parse_let(toks_view(toks@), i as int);
                match r {
                    Ok((l, j)) => s == Ok::<(SLet, int), SyntaxError>((l@, j as int)) && i < j
                        <= toks@.len(),
                    Err(e) => s == Err::<(SLet, int), SyntaxError>(e),
                }
            }),
    {
        let n: usize = toks.len();
        let pos = pos_at_exec(toks, i);
        match capture(toks, i + 1, CaptureKind::LetPat, Expected::Pat) {
            Err(e) => Err(e),
            Ok((pat, j)) => {
                if !(j < n && matches!(&toks[j].kind, TokKind::Eq)) {
                    return Err(
                        SyntaxError { pos: pos_at_exec(toks, j), expected: Expected::Sym(Sym::Eq) },
                    );
                }
                match capture(toks, j + 1, CaptureKind::Expr, Expected::Expr) {
                    Err(e) => Err(e),
                    Ok((init, j2)) => {
                        if j2 < n && matches!(&toks[j2].kind, TokKind::Semi) {
                            Ok((Let { pos, pat, init }, j2 + 1))
                        } else {
                            Err(
                                SyntaxError {
                                    pos: pos_at_exec(toks, j2),
                                    expected: Expected::Sym(Sym::Semi),
                                },
                            )
                        }
                    },
                }
            },
        }
    }
}

impl Text {
    /// Parses a text statement.
    pub fn parse(toks: &Vec<Token>, i: usize) -> (r: Result<(Text, usize), SyntaxError>)
        requires
            i < toks@.len(),
        ensures
            ({
                let s = spec_parse_text(toks_view(toks@), i as int);
                match r {
                    Ok((t, j)) => s == Ok::<(SText, int), SyntaxError>((t@, j as int)) && i < j
                        <= toks@.len(),
                    Err(e) => s == Err::<(SText, int), SyntaxError>(e),
                }
            }),
    {
        let n: usize = toks.len();
        let pos = pos_at_exec(toks, i);
        match capture(toks, i + 1, CaptureKind::Expr, Expected::Expr) {
            Err(e) => Err(e),
            Ok((expr, j)) => {
                if j < n && matches!(&toks[j].kind, TokKind::Semi) {
                    Ok((Text { pos, expr }, j + 1))
                } else {
                    Err(
                        SyntaxError {
                            pos: pos_at_exec(toks, j),
                            expected: Expected::Sym(Sym::Semi),
                        },
                    )
                }
            },
        }
    }
}

// ------------------------------------------------------------------
// The statement grammar.
//
// The spec functions below are mutually recursive; each carries the measure
// (remaining tokens, rank).  A recursive step whose new index comes out of
// another parse is guarded by an index test whose failing branch yields
// `unreachable_err`: the executable parsers' contracts show those branches
// are never taken.
// ------------------------------------------------------------------

/// A run of statements, ending before a closing delimiter or at the end of
/// the stream.
pub open spec fn spec_parse_nodes(toks: Seq<STok>, i: int) -> Result<(SNodes, int), SyntaxError>
    decreases toks.len() - i, 4int,
{
    if !(0 <= i < toks.len()) || (toks[i].kind matches STokKind::Close(_)) {
        Ok((SNodes { stmts: Seq::empty() }, i))
    } else {
        match spec_parse_stmt(toks, i) {
            Err(e) => Err(e),
            Ok((s, j)) => if i < j <= toks.len() {
                match spec_parse_nodes(toks, j) {
                    Err(e) => Err(e),
                    Ok((rest, k)) => Ok((SNodes { stmts: seq![s] + rest.stmts }, k)),
                }
            } else {
                Err(unreachable_err(toks, i))
            },
        }
    }
}

/// One statement, dispatched on a single lookahead token: `if`, `match`,
/// `for`, `let`, `+`, or an identifier opening an element.
pub open spec fn spec_parse_stmt(toks: Seq<STok>, i: int) -> Result<(SStmt, int), SyntaxError>
    decreases toks.len() - i, 3int,
{
    if !(0 <= i < toks.len()) {
        Err(SyntaxError { pos: pos_at(toks, i), expected: Expected::Stmt })
    } else {
        match toks[i].kind {
            STokKind::KwIf => match spec_parse_if(toks, i) {
                Err(e) => Err(e),
                Ok((f, j)) => Ok((SStmt::If(f), j)),
            },
            STokKind::KwMatch => match spec_parse_match(toks, i) {
                Err(e) => Err(e),
                Ok((m, j)) => Ok((SStmt::Match(m), j)),
            },
            STokKind::KwFor => match spec_parse_for(toks, i) {
                Err(e) => Err(e),
                Ok((f, j)) => Ok((SStmt::For(f), j)),
            },
            STokKind::KwLet => match spec_parse_let(toks, i) {
                Err(e) => Err(e),
                Ok((l, j)) => Ok((SStmt::Let(l), j)),
            },
            STokKind::Plus => match spec_parse_text(toks, i) {
                Err(e) => Err(e),
                Ok((t, j)) => Ok((SStmt::Text(t), j)),
            },
            STokKind::Ident(_) => match spec_parse_node(toks, i) {
                Err(e) => Err(e),
                Ok((nd, j)) => Ok((SStmt::Node(nd), j)),
            },
            _ => Err(SyntaxError { pos: toks[i].pos, expected: Expected::Stmt }),
        }
    }
}

/// `if <cond> { <body> }` with an optional `else` block, the `if` at `i`.
pub open spec fn spec_parse_if(toks: Seq<STok>, i: int) -> Result<(SIf, int), SyntaxError>
    decreases toks.len() - i, 2int,
{
    match spec_capture(toks, i + 1, CaptureKind::CondExpr, Expected::Expr) {
        Err(e) => Err(e),
        Ok((cond, j)) => if !at(toks, j, STokKind::Open(Delim::Brace)) {
            Err(SyntaxError { pos: pos_at(toks, j), expected: Expected::Sym(Sym::OpenBrace) })
        } else if i < j + 1 {
            match spec_parse_nodes(toks, j + 1) {
                Err(e) => Err(e),
                Ok((body, k)) => if !at(toks, k, STokKind::Close(Delim::Brace)) {
                    Err(
                        SyntaxError {
                            pos: pos_at(toks, k),
                            expected: Expected::Sym(Sym::CloseBrace),
                        },
                    )
                } else if at(toks, k + 1, STokKind::KwElse) {
                    if i < k + 1 {
                        match spec_parse_else(toks, k + 1) {
                            Err(e) => Err(e),
                            Ok((els, m)) => Ok(
                                (
                                    SIf {
                                        pos: pos_at(toks, i),
                                        cond,
                                        body_pos: toks[j].pos,
                                        body,
                                        else_: Option::Some(els),
                                    },
                                    m,
                                ),
                            ),
                        }
                    } else {
                        Err(unreachable_err(toks, i))
                    }
                } else {
                    Ok(
                        (
                            SIf {
                                pos: pos_at(toks, i),
                                cond,
                                body_pos: toks[j].pos,
                                body,
                                else_: Option::None,
                            },
                            k + 1,
                        ),
                    )
                },
            }
        } else {
            Err(unreachable_err(toks, i))
        },
    }
}

/// `else { <body> }` with the `else` at `i`.
pub open spec fn spec_parse_else(toks: Seq<STok>, i: int) -> Result<(SElse, int), SyntaxError>
    decreases toks.len() - i, 2int,
{
    if !at(toks, i + 1, STokKind::Open(Delim::Brace)) {
        Err(SyntaxError { pos: pos_at(toks, i + 1), expected: Expected::Sym(Sym::OpenBrace) })
    } else {
        match spec_parse_nodes(toks, i + 2) {
            Err(e) => Err(e),
            Ok((body, k)) => if at(toks, k, STokKind::Close(Delim::Brace)) {
                Ok((SElse { pos: pos_at(toks, i), body_pos: toks[i + 1].pos, body }, k + 1))
            } else {
                Err(SyntaxError { pos: pos_at(toks, k), expected: Expected::Sym(Sym::CloseBrace) })
            },
        }
    }
}

/// `match <scrutinee> { <arms> }` with the `match` at `i`.
pub open spec fn spec_parse_match(toks: Seq<STok>, i: int) -> Result<(SMatch, int), SyntaxError>
    decreases toks.len() - i, 2int,
{
    match spec_capture(toks, i + 1, CaptureKind::CondExpr, Expected::Expr) {
        Err(e) => Err(e),
        Ok((scrutinee, j)) => if !at(toks, j, STokKind::Open(Delim::Brace)) {
            Err(SyntaxError { pos: pos_at(toks, j), expected: Expected::Sym(Sym::OpenBrace) })
        } else if i < j + 1 {
            match spec_parse_arms(toks, j + 1) {
                Err(e) => Err(e),
                Ok((arms, k)) => if at(toks, k, STokKind::Close(Delim::Brace)) {
                    Ok(
                        (
                            SMatch {
                                pos: pos_at(toks, i),
                                scrutinee,
                                body_pos: toks[j].pos,
                                arms,
                            },
                            k + 1,
                        ),
                    )
                } else {
                    Err(
                        SyntaxError {
                            pos: pos_at(toks, k),
                            expected: Expected::Sym(Sym::CloseBrace),
                        },
                    )
                },
            }
        } else {
            Err(unreachable_err(toks, i))
        },
    }
}

/// A run of match arms, ending before the closing brace.
pub open spec fn spec_parse_arms(toks: Seq<STok>, i: int) -> Result<(Seq<SArm>, int), SyntaxError>
    decreases toks.len() - i, 2int,
{
    if !(0 <= i < toks.len()) || (toks[i].kind matches STokKind::Close(_)) {
        Ok((Seq::empty(), i))
    } else {
        match spec_parse_arm(toks, i) {
            Err(e) => Err(e),
            Ok((a, j)) => if i < j <= toks.len() {
                match spec_parse_arms(toks, j) {
                    Err(e) => Err(e),
                    Ok((rest, k)) => Ok((seq![a] + rest, k)),
                }
            } else {
                Err(unreachable_err(toks, i))
            },
        }
    }
}

/// One arm: a pattern (leading-bar alternation captured verbatim), an
/// optional `if` guard, `=>`, and a brace-delimited body block.
pub open spec fn spec_parse_arm(toks: Seq<STok>, i: int) -> Result<(SArm, int), SyntaxError>
    decreases toks.len() - i, 1int,
{
    match spec_capture(toks, i, CaptureKind::ArmPat, Expected::Pat) {
        Err(e) => Err(e),
        Ok((pat, j)) => if at(toks, j, STokKind::KwIf) {
            match spec_capture(toks, j + 1, CaptureKind::Expr, Expected::Expr) {
                Err(e) => Err(e),
                Ok((g, j2)) => if i <= j2 <= toks.len() {
                    spec_parse_arm_tail(toks, pat, Option::Some(g), j2)
                } else {
                    Err(unreachable_err(toks, i))
                },
            }
        } else {
            if i <= j <= toks.len() {
                spec_parse_arm_tail(toks, pat, Option::None, j)
            } else {
                Err(unreachable_err(toks, i))
            }
        },
    }
}

/// The rest of an arm after its pattern and guard: `=>` at `fa`, then the
/// body block.
pub open spec fn spec_parse_arm_tail(
    toks: Seq<STok>,
    pat: SRaw,
    guard: Option<SRaw>,
    fa: int,
) -> Result<(SArm, int), SyntaxError>
    decreases toks.len() - fa, 0int,
{
    if !at(toks, fa, STokKind::FatArrow) {
        Err(SyntaxError { pos: pos_at(toks, fa), expected: Expected::Sym(Sym::FatArrow) })
    } else if !at(toks, fa + 1, STokKind::Open(Delim::Brace)) {
        Err(SyntaxError { pos: pos_at(toks, fa + 1), expected: Expected::Sym(Sym::OpenBrace) })
    } else {
        match spec_parse_nodes(toks, fa + 2) {
            Err(e) => Err(e),
            Ok((body, k)) => if at(toks, k, STokKind::Close(Delim::Brace)) {
                Ok((SArm { pat, guard, body_pos: toks[fa + 1].pos, body }, k + 1))
            } else {
                Err(SyntaxError { pos: pos_at(toks, k), expected: Expected::Sym(Sym::CloseBrace) })
            },
        }
    }
}

/// `for <pat> in <iter> { <body> }` with the `for` at `i`.
pub open spec fn spec_parse_for(toks: Seq<STok>, i: int) -> Result<(SFor, int), SyntaxError>
    decreases toks.len() - i, 2int,
{
    match spec_capture(toks, i + 1, CaptureKind::ForPat, Expected::Pat) {
        Err(e) => Err(e),
        Ok((pat, j)) => if !at(toks, j, STokKind::KwIn) {
            Err(SyntaxError { pos: pos_at(toks, j), expected: Expected::Sym(Sym::KwIn) })
        } else {
            match spec_capture(toks, j + 1, CaptureKind::CondExpr, Expected::Expr) {
                Err(e) => Err(e),
                Ok((iter, j2)) => if !at(toks, j2, STokKind::Open(Delim::Brace)) {
                    Err(
                        SyntaxError {
                            pos: pos_at(toks, j2),
                            expected: Expected::Sym(Sym::OpenBrace),
                        },
                    )
                } else if i < j2 + 1 {
                    match spec_parse_nodes(toks, j2 + 1) {
                        Err(e) => Err(e),
                        Ok((body, k)) => if at(toks, k, STokKind::Close(Delim::Brace)) {
                            Ok(
                                (
                                    SFor {
                                        pos: pos_at(toks, i),
                                        pat,
                                        in_pos: toks[j].pos,
                                        iter,
                                        body_pos: toks[j2].pos,
                                        body,
                                    },
                                    k + 1,
                                ),
                            )
                        } else {
                            Err(
                                SyntaxError {
                                    pos: pos_at(toks, k),
                                    expected: Expected::Sym(Sym::CloseBrace),
                                },
                            )
                        },
                    }
                } else {
                    Err(unreachable_err(toks, i))
                },
            }
        },
    }
}

/// An element statement: reference, arguments, body.
pub open spec fn spec_parse_node(toks: Seq<STok>, i: int) -> Result<(SNode, int), SyntaxError>
    decreases toks.len() - i, 2int,
{
    match spec_parse_path(toks, i) {
        Err(e) => Err(e),
        Ok((element, j)) => match spec_parse_node_args(toks, j) {
            Err(e) => Err(e),
            Ok((args, j2)) => if i < j2 <= toks.len() {
                match spec_parse_node_body(toks, j2) {
                    Err(e) => Err(e),
                    Ok((body, j3)) => Ok((SNode { element, args, body }, j3)),
                }
            } else {
                Err(unreachable_err(toks, i))
            },
        },
    }
}

/// An element body: `;` for a self-closing element, or a brace-delimited
/// block of children.
pub open spec fn spec_parse_node_body(toks: Seq<STok>, i: int) -> Result<
    (SNodeBody, int),
    SyntaxError,
>
    decreases toks.len() - i, 2int,
{
    if at(toks, i, STokKind::Semi) {
        Ok((SNodeBody::Semi { pos: toks[i].pos }, i + 1))
    } else if at(toks, i, STokKind::Open(Delim::Brace)) {
        match spec_parse_nodes(toks, i + 1) {
            Err(e) => Err(e),
            Ok((children, k)) => if at(toks, k, STokKind::Close(Delim::Brace)) {
                Ok((SNodeBody::Braced { pos: toks[i].pos, children }, k + 1))
            } else {
                Err(SyntaxError { pos: pos_at(toks, k), expected: Expected::Sym(Sym::CloseBrace) })
            },
        }
    } else {
        Err(SyntaxError { pos: pos_at(toks, i), expected: Expected::NodeBody })
    }
}

// ------------------------------------------------------------------
// The executable statement parsers.
// ------------------------------------------------------------------

impl Nodes {
    /// Parses statements until a closing delimiter or the end of the stream.
    #[verifier::rlimit(50)]
    pub fn parse(toks: &Vec<Token>, i: usize) -> (r: Result<(Nodes, usize), SyntaxError>)
        requires
            i <= toks@.len(),
        ensures
            ({
                let s = spec_parse_nodes(toks_view(toks@), i as int);
                match r {
                    Ok((n, j)) => s == Ok::<(SNodes, int), SyntaxError>((n@, j as int)) && i <= j
                        <= toks@.len(),
                    Err(e) => s == Err::<(SNodes, int), SyntaxError>(e),
                }
            }),
        decreases toks@.len() - i, 4int,
    {
        if i >= toks.len() || matches!(&toks[i].kind, TokKind::Close(_)) {
            let n = Nodes { stmts: Vec::new() };
            proof {
                assert(stmts_view(Seq::<Stmt>::empty()) =~= Seq::<SStmt>::empty());
                assert(n@ =~= SNodes { stmts: Seq::empty() });
            }
            return Ok((n, i));
        }
        match Stmt::parse(toks, i) {
            Err(e) => Err(e),
            Ok((st, j)) => match Nodes::parse(toks, j) {
                Err(e) => Err(e),
                Ok((rest, k)) => {
                    let ghost rest_view = rest@;
                    let mut stmts = rest.stmts;
                    let ghost pre = stmts@;
                    stmts.insert(0, st);
                    let n = Nodes { stmts };
                    proof {
                        assert(rest_view.stmts == stmts_view(pre));
                        assert(n@.stmts == stmts_view(stmts@));
                        assert forall|m: int| 0 <= m < stmts@.len() implies stmts_view(
                            stmts@,
                        )[m] == (seq![st@] + stmts_view(pre))[m] by {
                            if m > 0 {
                                assert(stmts@[m] == pre[m - 1]);
                            }
                        }
                        assert(stmts_view(stmts@) =~= seq![st@] + stmts_view(pre));
                        assert(n@ =~= SNodes { stmts: seq![st@] + rest_view.stmts });
                    }
                    Ok((n, k))
                },
            },
        }
    }
}

impl Stmt {
    /// Parses one statement, dispatching on a single lookahead token.
    pub fn parse(toks: &Vec<Token>, i: usize) -> (r: Result<(Stmt, usize), SyntaxError>)
        requires
            i <= toks@.len(),
        ensures
            ({
                let s = spec_parse_stmt(toks_view(toks@), i as int);
                match r {
                    Ok((st, j)) => s == Ok::<(SStmt, int), SyntaxError>((st@, j as int)) && i < j
                        <= toks@.len(),
                    Err(e) => s == Err::<(SStmt, int), SyntaxError>(e),
                }
            }),
        decreases toks@.len() - i, 3int,
    {
        if i >= toks.len() {
            return Err(SyntaxError { pos: pos_at_exec(toks, i), expected: Expected::Stmt });
        }
        match &toks[i].kind {
            TokKind::KwIf => match If::parse(toks, i) {
                Err(e) => Err(e),
                Ok((f, j)) => Ok((Stmt::If(f), j)),
            },
            TokKind::KwMatch => match Match::parse(toks, i) {
                Err(e) => Err(e),
                Ok((m, j)) => Ok((Stmt::Match(m), j)),
            },
            TokKind::KwFor => match For::parse(toks, i) {
                Err(e) => Err(e),
                Ok((f, j)) => Ok((Stmt::For(f), j)),
            },
            TokKind::KwLet => match Let::parse(toks, i) {
                Err(e) => Err(e),
                Ok((l, j)) => Ok((Stmt::Let(l), j)),
            },
            TokKind::Plus => match Text::parse(toks, i) {
                Err(e) => Err(e),
                Ok((t, j)) => Ok((Stmt::Text(t), j)),
            },
            TokKind::Ident(_) => match Node::parse(toks, i) {
                Err(e) => Err(e),
                Ok((nd, j)) => Ok((Stmt::Node(nd), j)),
            },
            _ => Err(SyntaxError { pos: toks[i].pos, expected: Expected::Stmt }),
        }
    }
}

impl If {
    /// Parses an `if` statement with its optional `else` block.
    pub fn parse(toks: &Vec<Token>, i: usize) -> (r: Result<(If, usize), SyntaxError>)
        requires
            i < toks@.len(),
        ensures
            ({
                let s = spec_parse_if(toks_view(toks@), i as int);
                match r {
                    Ok((f, j)) => s == Ok::<(SIf, int), SyntaxError>((f@, j as int)) && i < j
                        <= toks@.len(),
                    Err(e) => s == Err::<(SIf, int), SyntaxError>(e),
                }
            }),
        decreases toks@.len() - i, 2int,
    {
        let n: usize = toks.len();
        let pos = toks[i].pos;
        match capture(toks, i + 1, CaptureKind::CondExpr, Expected::Expr) {
            Err(e) => Err(e),
            Ok((cond, j)) => {
                if !(j < n && matches!(&toks[j].kind, TokKind::Open(Delim::Brace))) {
                    return Err(
                        SyntaxError {
                            pos: pos_at_exec(toks, j),
                            expected: Expected::Sym(Sym::OpenBrace),
                        },
                    );
                }
                let body_pos = toks[j].pos;
                match Nodes::parse(toks, j + 1) {
                    Err(e) => Err(e),
                    Ok((body, k)) => {
                        if !(k < n && matches!(&toks[k].kind, TokKind::Close(Delim::Brace))) {
                            return Err(
                                SyntaxError {
                                    pos: pos_at_exec(toks, k),
                                    expected: Expected::Sym(Sym::CloseBrace),
                                },
                            );
                        }
                        if k + 1 < n && matches!(&toks[k + 1].kind, TokKind::KwElse) {
                            match Else::parse(toks, k + 1) {
                                Err(e) => Err(e),
                                Ok((els, m)) => Ok(
                                    (
                                        If {
                                            pos,
                                            cond,
                                            body_pos,
                                            body,
                                            else_: Option::Some(els),
                                        },
                                        m,
                                    ),
                                ),
                            }
                        } else {
                            Ok((If { pos, cond, body_pos, body, else_: Option::None }, k + 1))
                        }
                    },
                }
            },
        }
    }
}

impl Else {
    /// Parses an `else` block.
    pub fn parse(toks: &Vec<Token>, i: usize) -> (r: Result<(Else, usize), SyntaxError>)
        requires
            i < toks@.len(),
        ensures
            ({
                let s = spec_parse_else(toks_view(toks@), i as int);
                match r {
                    Ok((e, j)) => s == Ok::<(SElse, int), SyntaxError>((e@, j as int)) && i < j
                        <= toks@.len(),
                    Err(e) => s == Err::<(SElse, int), SyntaxError>(e),
                }
            }),
        decreases toks@.len() - i, 2int,
    {
        let n: usize = toks.len();
        if !(i + 1 < n && matches!(&toks[i + 1].kind, TokKind::Open(Delim::Brace))) {
            return Err(
                SyntaxError {
                    pos: pos_at_exec(toks, i + 1),
                    expected: Expected::Sym(Sym::OpenBrace),
                },
            );
        }
        let pos = toks[i].pos;
        let body_pos = toks[i + 1].pos;
        match Nodes::parse(toks, i + 2) {
            Err(e) => Err(e),
            Ok((body, k)) => {
                if k < n && matches!(&toks[k].kind, TokKind::Close(Delim::Brace)) {
                    Ok((Else { pos, body_pos, body }, k + 1))
                } else {
                    Err(
                        SyntaxError {
                            pos: pos_at_exec(toks, k),
                            expected: Expected::Sym(Sym::CloseBrace),
                        },
                    )
                }
            },
        }
    }
}

impl Match {
    /// Parses a `match` statement.
    pub fn parse(toks: &Vec<Token>, i: usize) -> (r: Result<(Match, usize), SyntaxError>)
        requires
            i < toks@.len(),
        ensures
            ({
                let s = spec_parse_match(toks_view(toks@), i as int);
                match r {
                    Ok((m, j)) => s == Ok::<(SMatch, int), SyntaxError>((m@, j as int)) && i < j
                        <= toks@.len(),
                    Err(e) => s == Err::<(SMatch, int), SyntaxError>(e),
                }
            }),
        decreases toks@.len() - i, 2int,
    {
        let n: usize = toks.len();
        let pos = toks[i].pos;
        match capture(toks, i + 1, CaptureKind::CondExpr, Expected::Expr) {
            Err(e) => Err(e),
            Ok((scrutinee, j)) => {
                if !(j < n && matches!(&toks[j].kind, TokKind::Open(Delim::Brace))) {
                    return Err(
                        SyntaxError {
                            pos: pos_at_exec(toks, j),
                            expected: Expected::Sym(Sym::OpenBrace),
                        },
                    );
                }
                let body_pos = toks[j].pos;
                match parse_arms(toks, j + 1) {
                    Err(e) => Err(e),
                    Ok((arms, k)) => {
                        if k < n && matches!(&toks[k].kind, TokKind::Close(Delim::Brace)) {
                            let m = Match { pos, scrutinee, body_pos, arms };
                            Ok((m, k + 1))
                        } else {
                            Err(
                                SyntaxError {
                                    pos: pos_at_exec(toks, k),
                                    expected: Expected::Sym(Sym::CloseBrace),
                                },
                            )
                        }
                    },
                }
            },
        }
    }
}

/// Parses match arms until the closing brace.
fn parse_arms(toks: &Vec<Token>, i: usize) -> (r: Result<(Vec<Arm>, usize), SyntaxError>)
    requires
        i <= toks@.len(),
    ensures
        ({
            let s = spec_parse_arms(toks_view(toks@), i as int);
            match r {
                Ok((arms, j)) => s == Ok::<(Seq<SArm>, int), SyntaxError>(
                    (arms_view(arms@), j as int),
                ) && i <= j <= toks@.len(),
                Err(e) => s == Err::<(Seq<SArm>, int), SyntaxError>(e),
            }
        }),
    decreases toks@.len() - i, 2int,
{
    if i >= toks.len() || matches!(&toks[i].kind, TokKind::Close(_)) {
        let arms: Vec<Arm> = Vec::new();
        proof {
            assert(arms_view(arms@) =~= Seq::<SArm>::empty());
        }
        return Ok((arms, i));
    }
    match Arm::parse(toks, i) {
        Err(e) => Err(e),
        Ok((a, j)) => match parse_arms(toks, j) {
            Err(e) => Err(e),
            Ok((rest, k)) => {
                let mut arms = rest;
                arms.insert(0, a);
                proof {
                    assert(arms_view(arms@) =~= seq![a@] + arms_view(rest@));
                }
                Ok((arms, k))
            },
        },
    }
}

impl Arm {
    /// Parses one match arm.
    #[verifier::rlimit(80)]
    pub fn parse(toks: &Vec<Token>, i: usize) -> (r: Result<(Arm, usize), SyntaxError>)
        requires
            i <= toks@.len(),
        ensures
            ({
                let s = spec_parse_arm(toks_view(toks@), i as int);
                match r {
                    Ok((a, j)) => s == Ok::<(SArm, int), SyntaxError>((a@, j as int)) && i < j
                        <= toks@.len(),
                    Err(e) => s == Err::<(SArm, int), SyntaxError>(e),
                }
            }),
        decreases toks@.len() - i, 1int,
    {
        let n: usize = toks.len();
        match capture(toks, i, CaptureKind::ArmPat, Expected::Pat) {
            Err(e) => Err(e),
            Ok((pat, j)) => {
                let (guard, fa) = if j < n && matches!(&toks[j].kind, TokKind::KwIf) {
                    match capture(toks, j + 1, CaptureKind::Expr, Expected::Expr) {
                        Err(e) => {
                            return Err(e);
                        },
                        Ok((g, j2)) => (Option::Some(g), j2),
                    }
                } else {
                    (Option::None, j)
                };
                if !(fa < n && matches!(&toks[fa].kind, TokKind::FatArrow)) {
                    return Err(
                        SyntaxError {
                            pos: pos_at_exec(toks, fa),
                            expected: Expected::Sym(Sym::FatArrow),
                        },
                    );
                }
                if !(fa + 1 < n && matches!(&toks[fa + 1].kind, TokKind::Open(Delim::Brace))) {
                    return Err(
                        SyntaxError {
                            pos: pos_at_exec(toks, fa + 1),
                            expected: Expected::Sym(Sym::OpenBrace),
                        },
                    );
                }
                let body_pos = toks[fa + 1].pos;
                match Nodes::parse(toks, fa + 2) {
                    Err(e) => Err(e),
                    Ok((body, k)) => {
                        if k < n && matches!(&toks[k].kind, TokKind::Close(Delim::Brace)) {
                            Ok((Arm { pat, guard, body_pos, body }, k + 1))
                        } else {
                            Err(
                                SyntaxError {
                                    pos: pos_at_exec(toks, k),
                                    expected: Expected::Sym(Sym::CloseBrace),
                                },
                            )
                        }
                    },
                }
            },
        }
    }
}

impl For {
    /// Parses a `for` statement.
    pub fn parse(toks: &Vec<Token>, i: usize) -> (r: Result<(For, usize), SyntaxError>)
        requires
            i < toks@.len(),
        ensures
            ({
                let s = spec_parse_for(toks_view(toks@), i as int);
                match r {
                    Ok((f, j)) => s == Ok::<(SFor, int), SyntaxError>((f@, j as int)) && i < j
                        <= toks@.len(),
                    Err(e) => s == Err::<(SFor, int), SyntaxError>(e),
                }
            }),
        decreases toks@.len() - i, 2int,
    {
        let n: usize = toks.len();
        let pos = toks[i].pos;
        match capture(toks, i + 1, CaptureKind::ForPat, Expected::Pat) {
            Err(e) => Err(e),
            Ok((pat, j)) => {
                if !(j < n && matches!(&toks[j].kind, TokKind::KwIn)) {
                    return Err(
                        SyntaxError {
                            pos: pos_at_exec(toks, j),
                            expected: Expected::Sym(Sym::KwIn),
                        },
                    );
                }
                let in_pos = toks[j].pos;
                match capture(toks, j + 1, CaptureKind::CondExpr, Expected::Expr) {
                    Err(e) => Err(e),
                    Ok((iter, j2)) => {
                        if !(j2 < n && matches!(&toks[j2].kind, TokKind::Open(Delim::Brace))) {
                            return Err(
                                SyntaxError {
                                    pos: pos_at_exec(toks, j2),
                                    expected: Expected::Sym(Sym::OpenBrace),
                                },
                            );
                        }
                        let body_pos = toks[j2].pos;
                        match Nodes::parse(toks, j2 + 1) {
                            Err(e) => Err(e),
                            Ok((body, k)) => {
                                if k < n && matches!(&toks[k].kind, TokKind::Close(Delim::Brace)) {
                                    Ok((For { pos, pat, in_pos, iter, body_pos, body }, k + 1))
                                } else {
                                    Err(
                                        SyntaxError {
                                            pos: pos_at_exec(toks, k),
                                            expected: Expected::Sym(Sym::CloseBrace),
                                        },
                                    )
                                }
                            },
                        }
                    },
                }
            },
        }
    }
}

impl Node {
    /// Parses an element statement.
    pub fn parse(toks: &Vec<Token>, i: usize) -> (r: Result<(Node, usize), SyntaxError>)
        requires
            i <= toks@.len(),
        ensures
            ({
                let s = spec_parse_node(toks_view(toks@), i as int);
                match r {
                    Ok((nd, j)) => s == Ok::<(SNode, int), SyntaxError>((nd@, j as int)) && i < j
                        <= toks@.len(),
                    Err(e) => s == Err::<(SNode, int), SyntaxError>(e),
                }
            }),
        decreases toks@.len() - i, 2int,
    {
        match parse_path_without_paren(toks, i) {
            Err(e) => Err(e),
            Ok((element, j)) => match NodeArgs::parse(toks, j) {
                Err(e) => Err(e),
                Ok((args, j2)) => match NodeBody::parse(toks, j2) {
                    Err(e) => Err(e),
                    Ok((body, j3)) => Ok((Node { element, args, body }, j3)),
                },
            },
        }
    }
}

impl NodeBody {
    /// Parses an element body: `;` or a brace-delimited block of children.
    pub fn parse(toks: &Vec<Token>, i: usize) -> (r: Result<(NodeBody, usize), SyntaxError>)
        requires
            i <= toks@.len(),
        ensures
            ({
                let s = spec_parse_node_body(toks_view(toks@), i as int);
                match r {
                    Ok((b, j)) => s == Ok::<(SNodeBody, int), SyntaxError>((b@, j as int)) && i < j
                        <= toks@.len(),
                    Err(e) => s == Err::<(SNodeBody, int), SyntaxError>(e),
                }
            }),
        decreases toks@.len() - i, 2int,
    {
        let n: usize = toks.len();
        if i < n && matches!(&toks[i].kind, TokKind::Semi) {
            Ok((NodeBody::Semi { pos: toks[i].pos }, i + 1))
        } else if i < n && matches!(&toks[i].kind, TokKind::Open(Delim::Brace)) {
            let pos = toks[i].pos;
            match Nodes::parse(toks, i + 1) {
                Err(e) => Err(e),
                Ok((children, k)) => {
                    if k < n && matches!(&toks[k].kind, TokKind::Close(Delim::Brace)) {
                        Ok((NodeBody::Braced { pos, children }, k + 1))
                    } else {
                        Err(
                            SyntaxError {
                                pos: pos_at_exec(toks, k),
                                expected: Expected::Sym(Sym::CloseBrace),
                            },
                        )
                    }
                },
            }
        } else {
            Err(SyntaxError { pos: pos_at_exec(toks, i), expected: Expected::NodeBody })
        }
    }
}

// ------------------------------------------------------------------
// Directives and the whole input.
// ------------------------------------------------------------------

/// One leading directive: `@__debug_print`, or `@macro_path <path>`.
pub open spec fn spec_parse_config(toks: Seq<STok>, i: int) -> Result<(SConfig, int), SyntaxError> {
    if !at(toks, i, STokKind::At) {
        Err(SyntaxError { pos: pos_at(toks, i), expected: Expected::Sym(Sym::At) })
    } else if !(0 <= i + 1 < toks.len()) {
        Err(SyntaxError { pos: pos_at(toks, i + 1), expected: Expected::Directive })
    } else {
        match toks[i + 1].kind {
            STokKind::Ident(s) => if s == "__debug_print"@ {
                Ok((SConfig::DebugPrint { pos: toks[i].pos }, i + 2))
            } else if s == "macro_path"@ {
                match spec_parse_path(toks, i + 2) {
                    Err(e) => Err(e),
                    Ok((path, j)) => Ok((SConfig::MacroPath { pos: toks[i].pos, path }, j)),
                }
            } else {
                Err(SyntaxError { pos: toks[i + 1].pos, expected: Expected::Directive })
            },
            _ => Err(SyntaxError { pos: toks[i + 1].pos, expected: Expected::Directive }),
        }
    }
}

/// The run of leading directives, each opened by `@`.
pub open spec fn spec_parse_configs(toks: Seq<STok>, i: int) -> Result<
    (Seq<SConfig>, int),
    SyntaxError,
>
    decreases toks.len() - i,
{
    if !at(toks, i, STokKind::At) {
        Ok((Seq::empty(), i))
    } else {
        match spec_parse_config(toks, i) {
            Err(e) => Err(e),
            Ok((c, j)) => if i < j <= toks.len() {
                match spec_parse_configs(toks, j) {
                    Err(e) => Err(e),
                    Ok((rest, k)) => Ok((seq![c] + rest, k)),
                }
            } else {
                Err(unreachable_err(toks, i))
            },
        }
    }
}

/// The whole input: directives, then the root block, which must reach the
/// end of the stream.
pub open spec fn spec_parse_input(toks: Seq<STok>) -> Result<SInput, SyntaxError> {
    match spec_parse_configs(toks, 0) {
        Err(e) => Err(e),
        Ok((configs, i)) => match spec_parse_nodes(toks, i) {
            Err(e) => Err(e),
            Ok((nodes, j)) => if j == toks.len() {
                Ok(SInput { configs, nodes })
            } else {
                Err(SyntaxError { pos: pos_at(toks, j), expected: Expected::Stmt })
            },
        },
    }
}

impl Config {
    /// Parses one directive.
    pub fn parse(toks: &Vec<Token>, i: usize) -> (r: Result<(Config, usize), SyntaxError>)
        requires
            i <= toks@.len(),
        ensures
            ({
                let s = spec_parse_config(toks_view(toks@), i as int);
                match r {
                    Ok((c, j)) => s == Ok::<(SConfig, int), SyntaxError>((c@, j as int)) && i < j
                        <= toks@.len(),
                    Err(e) => s == Err::<(SConfig, int), SyntaxError>(e),
                }
            }),
    {
        let n: usize = toks.len();
        if !(i < n && matches!(&toks[i].kind, TokKind::At)) {
            return Err(SyntaxError { pos: pos_at_exec(toks, i), expected: Expected::Sym(Sym::At) });
        }
        if i + 1 >= n {
            return Err(
                SyntaxError { pos: pos_at_exec(toks, i + 1), expected: Expected::Directive },
            );
        }
        let pos = toks[i].pos;
        match &toks[i + 1].kind {
            TokKind::Ident(s) => {
                if *s == "__debug_print".to_owned() {
                    Ok((Config::DebugPrint { pos }, i + 2))
                } else if *s == "macro_path".to_owned() {
                    match parse_path_without_paren(toks, i + 2) {
                        Err(e) => Err(e),
                        Ok((path, j)) => Ok((Config::MacroPath { pos, path }, j)),
                    }
                } else {
                    Err(SyntaxError { pos: toks[i + 1].pos, expected: Expected::Directive })
                }
            },
            _ => Err(SyntaxError { pos: toks[i + 1].pos, expected: Expected::Directive }),
        }
    }
}

fn parse_configs(toks: &Vec<Token>, i: usize) -> (r: Result<(Vec<Config>, usize), SyntaxError>)
    requires
        i <= toks@.len(),
    ensures
        ({
            let s = spec_parse_configs(toks_view(toks@), i as int);
            match r {
                Ok((cfgs, j)) => s == Ok::<(Seq<SConfig>, int), SyntaxError>(
                    (configs_view(cfgs@), j as int),
                ) && i <= j <= toks@.len(),
                Err(e) => s == Err::<(Seq<SConfig>, int), SyntaxError>(e),
            }
        }),
    decreases toks@.len() - i,
{
    if !(i < toks.len() && matches!(&toks[i].kind, TokKind::At)) {
        let cfgs: Vec<Config> = Vec::new();
        proof {
            assert(configs_view(cfgs@) =~= Seq::<SConfig>::empty());
        }
        return Ok((cfgs, i));
    }
    match Config::parse(toks, i) {
        Err(e) => Err(e),
        Ok((c, j)) => match parse_configs(toks, j) {
            Err(e) => Err(e),
            Ok((rest, k)) => {
                let mut cfgs = rest;
                cfgs.insert(0, c);
                proof {
                    assert(configs_view(cfgs@) =~= seq![c@] + configs_view(rest@));
                }
                Ok((cfgs, k))
            },
        },
    }
}

impl Input {
    /// Parses a whole tokenized input: leading directives, then the root
    /// block's statements, through the end of the stream.
    pub fn parse(toks: &Vec<Token>) -> (r: Result<Input, SyntaxError>)
        ensures
            ({
                let s = spec_parse_input(toks_view(toks@));
                match r {
                    Ok(inp) => s == Ok::<SInput, SyntaxError>(inp@),
                    Err(e) => s == Err::<SInput, SyntaxError>(e),
                }
            }),
    {
        match parse_configs(toks, 0) {
            Err(e) => Err(e),
            Ok((configs, i)) => match Nodes::parse(toks, i) {
                Err(e) => Err(e),
                Ok((nodes, j)) => {
                    if j == toks.len() {
                        let inp = Input { configs, nodes };
                        proof {
                            assert(inp@ =~= SInput { configs: configs_view(inp.configs@), nodes: inp.nodes@ });
                        }
                        Ok(inp)
                    } else {
                        Err(SyntaxError { pos: pos_at_exec(toks, j), expected: Expected::Stmt })
                    }
                },
            },
        }
    }
}

} // verus!
