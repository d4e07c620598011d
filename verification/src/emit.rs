//! The emitter: lowers a parsed block into one fragment-producing call tree
//! against the chosen markup-builder entry point.
//!
//! A block's leading contiguous run of `let` statements is re-emitted as
//! ordinary bindings evaluated before any child construction; every other
//! statement lowers, in order, to one child of a single fragment call.  The
//! only failure the emitter raises is an ordering violation for a `let`
//! found after other content; everything else is total because the tree it
//! consumes is already grammar-valid.

use vstd::prelude::*;

use crate::ast::name_view;
use crate::ast::{Arm, CompileError, Config, If, Input, Let, Match, Node, NodeArg, NodeArgs,
    NodeBody, Nodes, Path, PathSeg, Raw, Stmt, Text};
use crate::ast::{SArm, SConfig, SInput, SNodeArg, SNodeArgs, SNodeBody, SNodes, SPath, SPathSeg,
    SRaw, SStmt};
use crate::token::{toks_view, Token};

verus! {

// ------------------------------------------------------------------
// The output call tree.
// ------------------------------------------------------------------

/// A re-emitted `let` binding, evaluated before the fragment call.
#[derive(PartialEq, Eq, Debug)]
pub struct Binding {
    pub pos: u32,
    pub pat: Raw,
    pub init: Raw,
}

/// One compiled block: the leading bindings, then one invocation of the
/// entry point producing a fragment whose children stand in order.
#[derive(PartialEq, Eq, Debug)]
pub struct Compiled {
    pub pos: u32,
    pub entry: Path,
    pub locals: Vec<Binding>,
    pub children: Vec<Html>,
}

/// The else branch of a lowered conditional.
#[derive(PartialEq, Eq, Debug)]
pub enum ElseArm {
    /// An explicit `else` block, recursively lowered.
    Block(Compiled),
    /// No `else` was written: an explicit call of the entry point producing
    /// an empty fragment, never a bare unit value.
    EmptyFragment(Path),
}

/// One lowered match arm: pattern and guard pass through unmodified, the
/// body lowers to a fragment.
#[derive(PartialEq, Eq, Debug)]
pub struct CompiledArm {
    pub pos: u32,
    pub pat: Raw,
    pub guard: Option<Raw>,
    pub body: Compiled,
}

/// The content of a lowered element.
#[derive(PartialEq, Eq, Debug)]
pub enum Content {
    /// A self-closing element: no children.
    SelfClosing,
    /// The element wraps the recursively compiled fragment as its sole
    /// child content.
    Children(Compiled),
}

/// One lowered attribute.
#[derive(PartialEq, Eq, Debug)]
pub enum Attr {
    /// A shorthand argument: the value is the in-scope binding named by the
    /// attribute's own name.
    Shorthand { pos: u32, name: Vec<String> },
    /// `name = { value }`.
    Pair { pos: u32, name: Vec<String>, value: Raw },
    /// Expand the remaining properties from one expression.
    Spread { pos: u32, expr: Raw },
}

/// One child of a fragment.
#[derive(PartialEq, Eq, Debug)]
pub enum Html {
    /// A conditional expression; both branches yield fragments.
    Conditional { pos: u32, cond: Raw, then_body: Compiled, else_body: ElseArm },
    /// A match expression; arm order and guards are preserved verbatim.
    Selection { pos: u32, scrutinee: Raw, arms: Vec<CompiledArm> },
    /// A lazy mapped sequence: the iterable is converted to an iterator and
    /// the body becomes a per-element mapping closure; nothing is
    /// materialized eagerly.
    Iteration { pos: u32, pat: Raw, iter: Raw, body: Compiled },
    /// The operand expression interpolated directly as a text child.
    TextChild { pos: u32, expr: Raw },
    /// A tagged element with its attributes and content.
    Element { pos: u32, path: Path, attrs: Vec<Attr>, content: Content },
}

/// The result of a whole invocation: the compiled root block and whether
/// the debug-print directive was seen.
#[derive(PartialEq, Eq, Debug)]
pub struct Expansion {
    pub code: Compiled,
    pub debug_print: bool,
}

// ------------------------------------------------------------------
// Models of the output.
// ------------------------------------------------------------------

#[verifier::ext_equal]
pub struct SBinding {
    pub pos: u32,
    pub pat: SRaw,
    pub init: SRaw,
}

#[verifier::ext_equal]
pub struct SCompiled {
    pub pos: u32,
    pub entry: SPath,
    pub locals: Seq<SBinding>,
    pub children: Seq<SHtml>,
}

#[verifier::ext_equal]
pub enum SElseArm {
    Block(SCompiled),
    EmptyFragment(SPath),
}

#[verifier::ext_equal]
pub struct SCompiledArm {
    pub pos: u32,
    pub pat: SRaw,
    pub guard: Option<SRaw>,
    pub body: SCompiled,
}

#[verifier::ext_equal]
pub enum SContent {
    SelfClosing,
    Children(SCompiled),
}

#[verifier::ext_equal]
pub enum SAttr {
    Shorthand { pos: u32, name: Seq<Seq<char>> },
    Pair { pos: u32, name: Seq<Seq<char>>, value: SRaw },
    Spread { pos: u32, expr: SRaw },
}

#[verifier::ext_equal]
pub enum SHtml {
    Conditional { pos: u32, cond: SRaw, then_body: SCompiled, else_body: SElseArm },
    Selection { pos: u32, scrutinee: SRaw, arms: Seq<SCompiledArm> },
    Iteration { pos: u32, pat: SRaw, iter: SRaw, body: SCompiled },
    TextChild { pos: u32, expr: SRaw },
    Element { pos: u32, path: SPath, attrs: Seq<SAttr>, content: SContent },
}

#[verifier::ext_equal]
pub struct SExpansion {
    pub code: SCompiled,
    pub debug_print: bool,
}

/// The model of a binding sequence.
pub open spec fn bindings_view(s: Seq<Binding>) -> Seq<SBinding> {
    s.map_values(|b: Binding| b@)
}

/// The model of an attribute sequence.
pub open spec fn attrs_view(s: Seq<Attr>) -> Seq<SAttr> {
    s.map_values(|a: Attr| a@)
}

/// The model of a child sequence.
pub open spec fn children_view(s: Seq<Html>) -> Seq<SHtml>
    decreases s,
{
    Seq::new(
        s.len(),
        |i: int|
            if 0 <= i < s.len() {
                s[i]@
            } else {
                SHtml::TextChild { pos: 0, expr: SRaw { toks: Seq::empty(), pos: 0 } }
            },
    )
}

/// The model of a compiled-arm sequence.
pub open spec fn carms_view(s: Seq<CompiledArm>) -> Seq<SCompiledArm>
    decreases s,
{
    Seq::new(
        s.len(),
        |i: int|
            if 0 <= i < s.len() {
                s[i]@
            } else {
                SCompiledArm {
                    pos: 0,
                    pat: SRaw { toks: Seq::empty(), pos: 0 },
                    guard: Option::None,
                    body: SCompiled {
                        pos: 0,
                        entry: SPath { leading: false, segs: Seq::empty(), pos: 0 },
                        locals: Seq::empty(),
                        children: Seq::empty(),
                    },
                }
            },
    )
}

impl View for Binding {
    type V = SBinding;

    open spec fn view(&self) -> SBinding {
        SBinding { pos: self.pos, pat: self.pat@, init: self.init@ }
    }
}

impl View for Compiled {
    type V = SCompiled;

    open spec fn view(&self) -> SCompiled
        decreases self,
    {
        SCompiled {
            pos: self.pos,
            entry: self.entry@,
            locals: bindings_view(self.locals@),
            children: children_view(self.children@),
        }
    }
}

impl View for ElseArm {
    type V = SElseArm;

    open spec fn view(&self) -> SElseArm
        decreases self,
    {
        match self {
            ElseArm::Block(c) => SElseArm::Block(c@),
            ElseArm::EmptyFragment(p) => SElseArm::EmptyFragment(p@),
        }
    }
}

impl View for CompiledArm {
    type V = SCompiledArm;

    open spec fn view(&self) -> SCompiledArm
        decreases self,
    {
        SCompiledArm {
            pos: self.pos,
            pat: self.pat@,
            guard: match &self.guard {
                Option::Some(g) => Option::Some(g@),
                Option::None => Option::None,
            },
            body: self.body@,
        }
    }
}

impl View for Content {
    type V = SContent;

    open spec fn view(&self) -> SContent
        decreases self,
    {
        match self {
            Content::SelfClosing => SContent::SelfClosing,
            Content::Children(c) => SContent::Children(c@),
        }
    }
}

impl View for Attr {
    type V = SAttr;

    open spec fn view(&self) -> SAttr {
        match self {
            Attr::Shorthand { pos, name } => SAttr::Shorthand {
                pos: *pos,
                name: name_view(name@),
            },
            Attr::Pair { pos, name, value } => SAttr::Pair {
                pos: *pos,
                name: name_view(name@),
                value: value@,
            },
            Attr::Spread { pos, expr } => SAttr::Spread { pos: *pos, expr: expr@ },
        }
    }
}

impl View for Html {
    type V = SHtml;

    open spec fn view(&self) -> SHtml
        decreases self,
    {
        match self {
            Html::Conditional { pos, cond, then_body, else_body } => SHtml::Conditional {
                pos: *pos,
                cond: cond@,
                then_body: then_body@,
                else_body: else_body@,
            },
            Html::Selection { pos, scrutinee, arms } => SHtml::Selection {
                pos: *pos,
                scrutinee: scrutinee@,
                arms: carms_view(arms@),
            },
            Html::Iteration { pos, pat, iter, body } => SHtml::Iteration {
                pos: *pos,
                pat: pat@,
                iter: iter@,
                body: body@,
            },
            Html::TextChild { pos, expr } => SHtml::TextChild { pos: *pos, expr: expr@ },
            Html::Element { pos, path, attrs, content } => SHtml::Element {
                pos: *pos,
                path: path@,
                attrs: attrs_view(attrs@),
                content: content@,
            },
        }
    }
}

impl View for Expansion {
    type V = SExpansion;

    open spec fn view(&self) -> SExpansion {
        SExpansion { code: self.code@, debug_print: self.debug_print }
    }
}

// ------------------------------------------------------------------
// The lowering, as spec functions.
// ------------------------------------------------------------------

/// The attribute one named argument lowers to: with an explicit value,
/// `name = { value }` at the `=`'s position; without one, a shorthand
/// reference to the in-scope binding of the same name.
pub open spec fn spec_arg_to_attr(a: SNodeArg) -> SAttr {
    match a.value {
        Option::Some((eq_pos, v)) => SAttr::Pair { pos: eq_pos, name: a.name, value: v },
        Option::None => SAttr::Shorthand { pos: a.name_pos, name: a.name },
    }
}

/// Lowers a named-argument list, one attribute per argument, in order.
pub open spec fn spec_attrs_of(args: Seq<SNodeArg>) -> Seq<SAttr> {
    args.map_values(|a: SNodeArg| spec_arg_to_attr(a))
}

/// Lowers an argument position: nothing, discrete pairs, or one spread
/// marker in place of them.
pub open spec fn spec_args_to_html(args: SNodeArgs) -> Seq<SAttr> {
    match args {
        SNodeArgs::Absent => Seq::empty(),
        SNodeArgs::Named { pos: _, args } => spec_attrs_of(args),
        SNodeArgs::Rest { pos, arg } => seq![SAttr::Spread { pos, expr: arg }],
    }
}

/// Lowers one block to a single fragment-producing invocation of `path`,
/// carrying `pos` as its source position.
pub open spec fn spec_emit_block(path: SPath, pos: u32, nodes: SNodes) -> Result<
    SCompiled,
    CompileError,
>
    decreases nodes,
{
    match spec_emit_stmts(path, nodes.stmts, false) {
        Err(e) => Err(e),
        Ok((locals, children)) => Ok(SCompiled { pos, entry: path, locals, children }),
    }
}

/// Walks a block's statements in order.  While `after_content` is false the
/// walk is still inside the leading run of `let` statements, which are
/// collected as bindings; from the first other statement on, a `let` is an
/// ordering violation at its own position.
pub open spec fn spec_emit_stmts(path: SPath, stmts: Seq<SStmt>, after_content: bool) -> Result<
    (Seq<SBinding>, Seq<SHtml>),
    CompileError,
>
    decreases stmts,
{
    if stmts.len() == 0 {
        Ok((Seq::empty(), Seq::empty()))
    } else {
        match stmts[0] {
            SStmt::Let(l) => if after_content {
                Err(CompileError::OrderingViolation { pos: l.pos })
            } else {
                match spec_emit_stmts(path, stmts.drop_first(), false) {
                    Err(e) => Err(e),
                    Ok((locals, children)) => Ok(
                        (seq![SBinding { pos: l.pos, pat: l.pat, init: l.init }] + locals, children),
                    ),
                }
            },
            _ => match spec_stmt_to_html(path, stmts[0]) {
                Err(e) => Err(e),
                Ok(h) => match spec_emit_stmts(path, stmts.drop_first(), true) {
                    Err(e) => Err(e),
                    Ok((locals, children)) => Ok((locals, seq![h] + children)),
                },
            },
        }
    }
}

/// Lowers one non-`let` statement to one child of the enclosing fragment.
/// A `let` here is an ordering violation at its own position.
pub open spec fn spec_stmt_to_html(path: SPath, s: SStmt) -> Result<SHtml, CompileError>
    decreases s,
{
    match s {
        SStmt::If(f) => match spec_emit_block(path, f.body_pos, f.body) {
            Err(e) => Err(e),
            Ok(then_body) => match f.else_ {
                Option::Some(els) => match spec_emit_block(path, els.body_pos, els.body) {
                    Err(e) => Err(e),
                    Ok(else_c) => Ok(
                        SHtml::Conditional {
                            pos: f.pos,
                            cond: f.cond,
                            then_body,
                            else_body: SElseArm::Block(else_c),
                        },
                    ),
                },
                Option::None => Ok(
                    SHtml::Conditional {
                        pos: f.pos,
                        cond: f.cond,
                        then_body,
                        else_body: SElseArm::EmptyFragment(path),
                    },
                ),
            },
        },
        SStmt::Match(m) => match spec_arms_to_html(path, m.arms) {
            Err(e) => Err(e),
            Ok(arms) => Ok(SHtml::Selection { pos: m.body_pos, scrutinee: m.scrutinee, arms }),
        },
        SStmt::For(f) => match spec_emit_block(path, f.body_pos, f.body) {
            Err(e) => Err(e),
            Ok(body) => Ok(SHtml::Iteration { pos: f.in_pos, pat: f.pat, iter: f.iter, body }),
        },
        SStmt::Let(l) => Err(CompileError::OrderingViolation { pos: l.pos }),
        SStmt::Text(t) => Ok(SHtml::TextChild { pos: t.pos, expr: t.expr }),
        SStmt::Node(nd) => match nd.body {
            SNodeBody::Semi { pos } => Ok(
                SHtml::Element {
                    pos,
                    path: nd.element,
                    attrs: spec_args_to_html(nd.args),
                    content: SContent::SelfClosing,
                },
            ),
            SNodeBody::Braced { pos, children } => match spec_emit_block(path, pos, children) {
                Err(e) => Err(e),
                Ok(c) => Ok(
                    SHtml::Element {
                        pos,
                        path: nd.element,
                        attrs: spec_args_to_html(nd.args),
                        content: SContent::Children(c),
                    },
                ),
            },
        },
    }
}

/// Lowers match arms in order; the first failing body aborts the whole
/// lowering.
pub open spec fn spec_arms_to_html(path: SPath, arms: Seq<SArm>) -> Result<
    Seq<SCompiledArm>,
    CompileError,
>
    decreases arms,
{
    if arms.len() == 0 {
        Ok(Seq::empty())
    } else {
        match spec_emit_block(path, arms[0].body_pos, arms[0].body) {
            Err(e) => Err(e),
            Ok(body) => match spec_arms_to_html(path, arms.drop_first()) {
                Err(e) => Err(e),
                Ok(rest) => Ok(
                    seq![
                        SCompiledArm {
                            pos: arms[0].body_pos,
                            pat: arms[0].pat,
                            guard: arms[0].guard,
                            body,
                        },
                    ] + rest,
                ),
            },
        }
    }
}

// ------------------------------------------------------------------
// Directive resolution and the whole run.
// ------------------------------------------------------------------

/// The built-in markup-constructor reference used when no directive chooses
/// another entry point.
pub open spec fn spec_default_entry() -> SPath {
    SPath {
        leading: true,
        segs: seq![
            SPathSeg { ident: "yew"@, generics: Option::None, pos: 0 },
            SPathSeg { ident: "html"@, generics: Option::None, pos: 0 },
        ],
        pos: 0,
    }
}

/// Folds the directives in order over the settings: each recognized kind
/// sets its own setting, so a later entry-point directive wins.
pub open spec fn spec_resolve(cfgs: Seq<SConfig>, entry: SPath, debug: bool) -> (SPath, bool)
    decreases cfgs.len(),
{
    if cfgs.len() == 0 {
        (entry, debug)
    } else {
        match cfgs[0] {
            SConfig::DebugPrint { pos: _ } => spec_resolve(cfgs.drop_first(), entry, true),
            SConfig::MacroPath { pos: _, path } => spec_resolve(cfgs.drop_first(), path, debug),
        }
    }
}

/// Resolves the directives and compiles the root block against the chosen
/// entry point; the root carries the invocation site's position, written 0.
pub open spec fn spec_run(inp: SInput) -> Result<SExpansion, CompileError> {
    let resolved = spec_resolve(inp.configs, spec_default_entry(), false);
    match spec_emit_block(resolved.0, 0, inp.nodes) {
        Err(e) => Err(e),
        Ok(code) => Ok(SExpansion { code, debug_print: resolved.1 }),
    }
}

/// The whole translation: parse, resolve, compile.
pub open spec fn spec_defy(toks: Seq<crate::token::STok>) -> Result<SExpansion, CompileError> {
    match crate::parse::spec_parse_input(toks) {
        Err(e) => Err(CompileError::Syntax(e)),
        Ok(inp) => spec_run(inp),
    }
}

// ------------------------------------------------------------------
// The executable emitter.
// ------------------------------------------------------------------

fn arg_to_attr(a: NodeArg) -> (r: Attr)
    ensures
        r@ == spec_arg_to_attr(a@),
{
    let NodeArg { name, name_pos, value } = a;
    match value {
        Option::Some((eq_pos, v)) => Attr::Pair { pos: eq_pos, name, value: v },
        Option::None => Attr::Shorthand { pos: name_pos, name },
    }
}

fn attrs_of(args: Vec<NodeArg>) -> (out: Vec<Attr>)
    ensures
        attrs_view(out@) == spec_attrs_of(crate::ast::args_view(args@)),
    decreases args@.len(),
{
    let mut args = args;
    if args.len() == 0 {
        let out: Vec<Attr> = Vec::new();
        proof {
            assert(attrs_view(out@) =~= spec_attrs_of(crate::ast::args_view(args@)));
        }
        return out;
    }
    let ghost entry_view = args@;
    let head = args.remove(0);
    let rest = attrs_of(args);
    let ghost rest_view = attrs_view(rest@);
    let mut out = rest;
    out.insert(0, arg_to_attr(head));
    proof {
        assert(attrs_view(out@) =~= seq![spec_arg_to_attr(head@)] + rest_view);
        assert(crate::ast::args_view(entry_view).drop_first() =~= crate::ast::args_view(
            entry_view.subrange(1, entry_view.len() as int),
        ));
        assert(attrs_view(out@) =~= spec_attrs_of(crate::ast::args_view(entry_view)));
    }
    out
}

/// Lowers an element's argument position to its attribute sequence, in the
/// order the arguments were written.
pub fn args_to_html(args: NodeArgs) -> (out: Vec<Attr>)
    ensures
        attrs_view(out@) == spec_args_to_html(args@),
{
    match args {
        NodeArgs::Absent => {
            let out: Vec<Attr> = Vec::new();
            proof {
                assert(attrs_view(out@) =~= Seq::<SAttr>::empty());
            }
            out
        },
        NodeArgs::Named { pos: _, args } => attrs_of(args),
        NodeArgs::Rest { pos, arg } => {
            let mut out: Vec<Attr> = Vec::new();
            out.push(Attr::Spread { pos, expr: arg });
            proof {
                assert(attrs_view(out@) =~= seq![SAttr::Spread { pos, expr: arg@ }]);
            }
            out
        },
    }
}

/// Lowers one block to a single fragment-producing invocation of
/// `macro_path`, its leading `let` run re-emitted ahead of it.
pub fn emit(macro_path: &Path, pos: u32, nodes: Nodes) -> (r: Result<Compiled, CompileError>)
    ensures
        ({
            let s = spec_emit_block(macro_path@, pos, nodes@);
            match r {
                Ok(c) => s == Ok::<SCompiled, CompileError>(c@),
                Err(e) => s == Err::<SCompiled, CompileError>(e),
            }
        }),
    decreases nodes,
{
    let Nodes { stmts } = nodes;
    match emit_stmts(macro_path, stmts, false) {
        Err(e) => Err(e),
        Ok((locals, children)) => {
            let c = Compiled { pos, entry: macro_path.clone(), locals, children };
            Ok(c)
        },
    }
}

/// Walks a block's statements in order, collecting the leading `let` run as
/// bindings and lowering every other statement to one child.
fn emit_stmts(macro_path: &Path, stmts: Vec<Stmt>, after_content: bool) -> (r: Result<
    (Vec<Binding>, Vec<Html>),
    CompileError,
>)
    ensures
        ({
            let s = spec_emit_stmts(macro_path@, crate::ast::stmts_view(stmts@), after_content);
            match r {
                Ok((locals, children)) => s == Ok::<(Seq<SBinding>, Seq<SHtml>), CompileError>(
                    (bindings_view(locals@), children_view(children@)),
                ),
                Err(e) => s == Err::<(Seq<SBinding>, Seq<SHtml>), CompileError>(e),
            }
        }),
    decreases stmts@,
{
    let mut stmts = stmts;
    if stmts.len() == 0 {
        let locals: Vec<Binding> = Vec::new();
        let children: Vec<Html> = Vec::new();
        proof {
            assert(bindings_view(locals@) =~= Seq::<SBinding>::empty());
            assert(children_view(children@) =~= Seq::<SHtml>::empty());
        }
        return Ok((locals, children));
    }
    let ghost entry_view = stmts@;
    let head = stmts.remove(0);
    proof {
        assert(head == entry_view[0]);
        assert(stmts@ =~= entry_view.subrange(1, entry_view.len() as int));
        assert(decreases_to!(entry_view => entry_view[0]));
        assert(decreases_to!(entry_view => entry_view.subrange(1, entry_view.len() as int)));
        assert(crate::ast::stmts_view(entry_view).drop_first() =~= crate::ast::stmts_view(
            entry_view.subrange(1, entry_view.len() as int),
        ));
    }
    match head {
        Stmt::Let(l) => {
            if after_content {
                Err(CompileError::OrderingViolation { pos: l.pos })
            } else {
                let Let { pos, pat, init } = l;
                match emit_stmts(macro_path, stmts, false) {
                    Err(e) => Err(e),
                    Ok((rest_locals, children)) => {
                        let ghost rest_view = bindings_view(rest_locals@);
                        let mut locals = rest_locals;
                        locals.insert(0, Binding { pos, pat, init });
                        proof {
                            assert(bindings_view(locals@) =~= seq![
                                SBinding { pos, pat: pat@, init: init@ },
                            ] + rest_view);
                        }
                        Ok((locals, children))
                    },
                }
            }
        },
        head2 => {
            match stmt_to_html(macro_path, head2) {
                Err(e) => Err(e),
                Ok(h) => match emit_stmts(macro_path, stmts, true) {
                    Err(e) => Err(e),
                    Ok((locals, rest_children)) => {
                        let ghost hv = h@;
                        let ghost pre = rest_children@;
                        let mut children = rest_children;
                        children.insert(0, h);
                        proof {
                            reveal_with_fuel(children_view, 2);
                            assert(children_view(pre).len() == pre.len());
                            assert(children_view(children@).len() == children@.len());
                            assert forall|m: int| 0 <= m < children@.len() implies children_view(
                                children@,
                            )[m] == (seq![hv] + children_view(pre))[m] by {
                                if m > 0 {
                                    assert(children@[m] == pre[m - 1]);
                                    assert(children_view(pre)[m - 1] == pre[m - 1]@);
                                }
                            }
                            assert(children_view(children@) =~= seq![hv] + children_view(pre));
                        }
                        Ok((locals, children))
                    },
                },
            }
        },
    }
}

/// Lowers one non-`let` statement to one child of the enclosing fragment.
pub fn stmt_to_html(macro_path: &Path, stmt: Stmt) -> (r: Result<Html, CompileError>)
    ensures
        ({
            let s = spec_stmt_to_html(macro_path@, stmt@);
            match r {
                Ok(h) => s == Ok::<SHtml, CompileError>(h@),
                Err(e) => s == Err::<SHtml, CompileError>(e),
            }
        }),
    decreases stmt,
{
    match stmt {
        Stmt::If(If { pos, cond, body_pos, body, else_ }) => {
            match emit(macro_path, body_pos, body) {
                Err(e) => Err(e),
                Ok(then_body) => match else_ {
                    Option::Some(els) => {
                        let body_pos2 = els.body_pos;
                        match emit(macro_path, body_pos2, els.body) {
                            Err(e) => Err(e),
                            Ok(else_c) => Ok(
                                Html::Conditional {
                                    pos,
                                    cond,
                                    then_body,
                                    else_body: ElseArm::Block(else_c),
                                },
                            ),
                        }
                    },
                    Option::None => Ok(
                        Html::Conditional {
                            pos,
                            cond,
                            then_body,
                            else_body: ElseArm::EmptyFragment(macro_path.clone()),
                        },
                    ),
                },
            }
        },
        Stmt::Match(Match { pos: _, scrutinee, body_pos, arms }) => {
            match arms_to_html(macro_path, arms) {
                Err(e) => Err(e),
                Ok(arms2) => Ok(Html::Selection { pos: body_pos, scrutinee, arms: arms2 }),
            }
        },
        Stmt::For(For2) => {
            let crate::ast::For { pos: _, pat, in_pos, iter, body_pos, body } = For2;
            match emit(macro_path, body_pos, body) {
                Err(e) => Err(e),
                Ok(c) => Ok(Html::Iteration { pos: in_pos, pat, iter, body: c }),
            }
        },
        Stmt::Let(l) => Err(CompileError::OrderingViolation { pos: l.pos }),
        Stmt::Text(Text { pos, expr }) => Ok(Html::TextChild { pos, expr }),
        Stmt::Node(Node { element, args, body }) => {
            match body {
                NodeBody::Semi { pos } => Ok(
                    Html::Element {
                        pos,
                        path: element,
                        attrs: args_to_html(args),
                        content: Content::SelfClosing,
                    },
                ),
                NodeBody::Braced { pos, children } => match emit(macro_path, pos, children) {
                    Err(e) => Err(e),
                    Ok(c) => Ok(
                        Html::Element {
                            pos,
                            path: element,
                            attrs: args_to_html(args),
                            content: Content::Children(c),
                        },
                    ),
                },
            }
        },
    }
}

/// Lowers match arms in order.
fn arms_to_html(macro_path: &Path, arms: Vec<Arm>) -> (r: Result<Vec<CompiledArm>, CompileError>)
    ensures
        ({
            let s = spec_arms_to_html(macro_path@, crate::ast::arms_view(arms@));
            match r {
                Ok(out) => s == Ok::<Seq<SCompiledArm>, CompileError>(carms_view(out@)),
                Err(e) => s == Err::<Seq<SCompiledArm>, CompileError>(e),
            }
        }),
    decreases arms@,
{
    let mut arms = arms;
    if arms.len() == 0 {
        let out: Vec<CompiledArm> = Vec::new();
        proof {
            assert(carms_view(out@) =~= Seq::<SCompiledArm>::empty());
        }
        return Ok(out);
    }
    let ghost entry_view = arms@;
    let head = arms.remove(0);
    proof {
        assert(head == entry_view[0]);
        assert(arms@ =~= entry_view.subrange(1, entry_view.len() as int));
        assert(decreases_to!(entry_view => entry_view[0]));
        assert(decreases_to!(entry_view => entry_view.subrange(1, entry_view.len() as int)));
        assert(crate::ast::arms_view(entry_view).drop_first() =~= crate::ast::arms_view(
            entry_view.subrange(1, entry_view.len() as int),
        ));
    }
    let Arm { pat, guard, body_pos, body } = head;
    match emit(macro_path, body_pos, body) {
        Err(e) => Err(e),
        Ok(c) => match arms_to_html(macro_path, arms) {
            Err(e) => Err(e),
            Ok(rest) => {
                let ghost rest_view = carms_view(rest@);
                let mut out = rest;
                out.insert(0, CompiledArm { pos: body_pos, pat, guard, body: c });
                proof {
                    assert(carms_view(out@) =~= seq![
                        SCompiledArm {
                            pos: body_pos,
                            pat: pat@,
                            guard: match guard {
                                Option::Some(g) => Option::Some(g@),
                                Option::None => Option::None,
                            },
                            body: c@,
                        },
                    ] + rest_view);
                }
                Ok(out)
            },
        },
    }
}

// ------------------------------------------------------------------
// Directive resolution and the whole run.
// ------------------------------------------------------------------

/// The built-in markup-constructor entry point.
fn default_entry() -> (r: Path)
    ensures
        r@ == spec_default_entry(),
{
    let mut segs: Vec<PathSeg> = Vec::new();
    segs.push(PathSeg { ident: "yew".to_owned(), generics: Option::None, pos: 0 });
    segs.push(PathSeg { ident: "html".to_owned(), generics: Option::None, pos: 0 });
    let r = Path { leading: true, segs, pos: 0 };
    proof {
        assert(r@.segs =~= spec_default_entry().segs);
        assert(r@ =~= spec_default_entry());
    }
    r
}

/// Applies the directives in order to the settings.
fn resolve(configs: Vec<Config>, entry: Path, debug: bool) -> (r: (Path, bool))
    ensures
        ({
            let s = spec_resolve(crate::ast::configs_view(configs@), entry@, debug);
            r.0@ == s.0 && r.1 == s.1
        }),
    decreases configs@.len(),
{
    let mut configs = configs;
    if configs.len() == 0 {
        return (entry, debug);
    }
    let ghost entry_view = configs@;
    let head = configs.remove(0);
    proof {
        assert(crate::ast::configs_view(entry_view).drop_first() =~= crate::ast::configs_view(
            entry_view.subrange(1, entry_view.len() as int),
        ));
    }
    match head {
        Config::DebugPrint { pos: _ } => resolve(configs, entry, true),
        Config::MacroPath { pos: _, path } => resolve(configs, path, debug),
    }
}

/// Resolves the directives, then compiles the root block against the chosen
/// entry point.  The compiled root re-emits the root block's leading `let`
/// bindings and wraps everything else in one invocation of that entry
/// point; whether to print the result is returned alongside, since this
/// library performs no output itself.
pub fn run(input: Input) -> (r: Result<Expansion, CompileError>)
    ensures
        ({
            let s = spec_run(input@);
            match r {
                Ok(x) => s == Ok::<SExpansion, CompileError>(x@),
                Err(e) => s == Err::<SExpansion, CompileError>(e),
            }
        }),
{
    let Input { configs, nodes } = input;
    let resolved = resolve(configs, default_entry(), false);
    let (entry, debug) = resolved;
    match emit(&entry, 0, nodes) {
        Err(e) => Err(e),
        Ok(code) => Ok(Expansion { code, debug_print: debug }),
    }
}

/// The whole translation, from a tokenized input stream to the compiled
/// call tree: parse, resolve directives, compile.  The first failure aborts
/// the invocation; no partial output is produced.
pub fn defy(toks: &Vec<Token>) -> (r: Result<Expansion, CompileError>)
    ensures
        ({
            let s = spec_defy(toks_view(toks@));
            match r {
                Ok(x) => s == Ok::<SExpansion, CompileError>(x@),
                Err(e) => s == Err::<SExpansion, CompileError>(e),
            }
        }),
{
    match Input::parse(toks) {
        Err(e) => Err(CompileError::Syntax(e)),
        Ok(inp) => run(inp),
    }
}

} // verus!
