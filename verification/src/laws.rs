//! Properties of the lowering, stated and proved over the spec functions
//! that the emitter's contracts are written against.

use vstd::prelude::*;

use crate::ast::{SArm, SConfig, SIf, SInput, SNodeArg, SNodeArgs, SNodes, SPath, SStmt};
use crate::emit::{spec_arg_to_attr, spec_args_to_html, spec_attrs_of, spec_default_entry,
    spec_emit_block, spec_emit_stmts, spec_resolve, spec_run, spec_stmt_to_html, SAttr, SContent,
    SElseArm, SHtml};

verus! {

/// Count of a block's leading contiguous run of `let` statements.
pub open spec fn leading_lets(stmts: Seq<SStmt>) -> int
    decreases stmts.len(),
{
    if stmts.len() == 0 {
        0
    } else if stmts[0] matches SStmt::Let(_) {
        1 + leading_lets(stmts.drop_first())
    } else {
        0
    }
}

proof fn lemma_no_bindings_after_content(path: SPath, stmts: Seq<SStmt>)
    ensures
        match spec_emit_stmts(path, stmts, true) {
            Ok(r) => r.0.len() == 0,
            Err(_) => true,
        },
    decreases stmts.len(),
{
    if stmts.len() > 0 {
        lemma_no_bindings_after_content(path, stmts.drop_first());
    }
}

/// The count of leading bindings in a compiled block equals the count of
/// the block's leading contiguous `let` statements.
pub proof fn lemma_leading_bindings(path: SPath, pos: u32, nodes: SNodes)
    ensures
        match spec_emit_block(path, pos, nodes) {
            Ok(c) => c.locals.len() == leading_lets(nodes.stmts),
            Err(_) => true,
        },
{
    lemma_leading_bindings_stmts(path, nodes.stmts);
}

proof fn lemma_leading_bindings_stmts(path: SPath, stmts: Seq<SStmt>)
    ensures
        match spec_emit_stmts(path, stmts, false) {
            Ok(r) => r.0.len() == leading_lets(stmts),
            Err(_) => true,
        },
    decreases stmts.len(),
{
    if stmts.len() > 0 {
        if stmts[0] matches SStmt::Let(_) {
            lemma_leading_bindings_stmts(path, stmts.drop_first());
        } else {
            lemma_no_bindings_after_content(path, stmts.drop_first());
        }
    }
}

/// Whether these statements hold, anywhere in their sub-blocks, a `let`
/// after non-`let` content of the same block; `after_content` says whether
/// content already precedes them in their own block.
pub open spec fn has_misplaced_let(stmts: Seq<SStmt>, after_content: bool) -> bool
    decreases stmts,
{
    if stmts.len() == 0 {
        false
    } else {
        match stmts[0] {
            SStmt::Let(_) => after_content || has_misplaced_let(stmts.drop_first(), false),
            _ => stmt_has_misplaced_let(stmts[0]) || has_misplaced_let(stmts.drop_first(), true),
        }
    }
}

/// Whether a misplaced `let` hides in a statement's own sub-blocks.
pub open spec fn stmt_has_misplaced_let(s: SStmt) -> bool
    decreases s,
{
    match s {
        SStmt::If(f) => has_misplaced_let(f.body.stmts, false) || (match f.else_ {
            Option::Some(e) => has_misplaced_let(e.body.stmts, false),
            Option::None => false,
        }),
        SStmt::Match(m) => arms_have_misplaced_let(m.arms),
        SStmt::For(f) => has_misplaced_let(f.body.stmts, false),
        SStmt::Let(_) => false,
        SStmt::Text(_) => false,
        SStmt::Node(nd) => match nd.body {
            crate::ast::SNodeBody::Semi { pos: _ } => false,
            crate::ast::SNodeBody::Braced { pos: _, children } => has_misplaced_let(
                children.stmts,
                false,
            ),
        },
    }
}

/// Whether a misplaced `let` hides in some arm's body.
pub open spec fn arms_have_misplaced_let(arms: Seq<SArm>) -> bool
    decreases arms,
{
    if arms.len() == 0 {
        false
    } else {
        has_misplaced_let(arms[0].body.stmts, false) || arms_have_misplaced_let(arms.drop_first())
    }
}

/// Whether `p` is the position of some `let` standing after non-`let`
/// content of its own block, anywhere under these statements.
pub open spec fn misplaced_let_at(stmts: Seq<SStmt>, after_content: bool, p: u32) -> bool
    decreases stmts,
{
    if stmts.len() == 0 {
        false
    } else {
        match stmts[0] {
            SStmt::Let(l) => (after_content && l.pos == p) || misplaced_let_at(
                stmts.drop_first(),
                false,
                p,
            ),
            _ => stmt_misplaced_let_at(stmts[0], p) || misplaced_let_at(
                stmts.drop_first(),
                true,
                p,
            ),
        }
    }
}

/// Whether `p` is the position of a misplaced `let` in a statement's own
/// sub-blocks.
pub open spec fn stmt_misplaced_let_at(s: SStmt, p: u32) -> bool
    decreases s,
{
    match s {
        SStmt::If(f) => misplaced_let_at(f.body.stmts, false, p) || (match f.else_ {
            Option::Some(e) => misplaced_let_at(e.body.stmts, false, p),
            Option::None => false,
        }),
        SStmt::Match(m) => arms_misplaced_let_at(m.arms, p),
        SStmt::For(f) => misplaced_let_at(f.body.stmts, false, p),
        SStmt::Let(_) => false,
        SStmt::Text(_) => false,
        SStmt::Node(nd) => match nd.body {
            crate::ast::SNodeBody::Semi { pos: _ } => false,
            crate::ast::SNodeBody::Braced { pos: _, children } => misplaced_let_at(
                children.stmts,
                false,
                p,
            ),
        },
    }
}

/// Whether `p` is the position of a misplaced `let` in some arm's body.
pub open spec fn arms_misplaced_let_at(arms: Seq<SArm>, p: u32) -> bool
    decreases arms,
{
    if arms.len() == 0 {
        false
    } else {
        misplaced_let_at(arms[0].body.stmts, false, p) || arms_misplaced_let_at(
            arms.drop_first(),
            p,
        )
    }
}

/// Compiling a block succeeds exactly when no `let` follows non-`let`
/// content anywhere in it; the only failure is an ordering violation, and
/// it carries the position of such a misplaced `let`.
pub proof fn lemma_block_ok_iff_lets_ordered(path: SPath, pos: u32, nodes: SNodes)
    ensures
        spec_emit_block(path, pos, nodes) is Ok <==> !has_misplaced_let(nodes.stmts, false),
        match spec_emit_block(path, pos, nodes) {
            Ok(_) => true,
            Err(e) => e matches crate::ast::CompileError::OrderingViolation { pos: p }
                && misplaced_let_at(nodes.stmts, false, p),
        },
{
    lemma_stmts_ok_iff(path, nodes.stmts, false);
}

proof fn lemma_stmts_ok_iff(path: SPath, stmts: Seq<SStmt>, after_content: bool)
    ensures
        spec_emit_stmts(path, stmts, after_content) is Ok <==> !has_misplaced_let(
            stmts,
            after_content,
        ),
        match spec_emit_stmts(path, stmts, after_content) {
            Ok(_) => true,
            Err(e) => e matches crate::ast::CompileError::OrderingViolation { pos: p }
                && misplaced_let_at(stmts, after_content, p),
        },
    decreases stmts, 1int,
{
    if stmts.len() > 0 {
        match stmts[0] {
            SStmt::Let(_) => {
                if !after_content {
                    lemma_stmts_ok_iff(path, stmts.drop_first(), false);
                }
            },
            _ => {
                lemma_stmt_ok_iff(path, stmts[0]);
                lemma_stmts_ok_iff(path, stmts.drop_first(), true);
            },
        }
    }
}

proof fn lemma_stmt_ok_iff(path: SPath, s: SStmt)
    requires
        !(s matches SStmt::Let(_)),
    ensures
        spec_stmt_to_html(path, s) is Ok <==> !stmt_has_misplaced_let(s),
        match spec_stmt_to_html(path, s) {
            Ok(_) => true,
            Err(e) => e matches crate::ast::CompileError::OrderingViolation { pos: p }
                && stmt_misplaced_let_at(s, p),
        },
    decreases s, 1int,
{
    match s {
        SStmt::If(f) => {
            lemma_stmts_ok_iff(path, f.body.stmts, false);
            match f.else_ {
                Option::Some(e) => {
                    lemma_stmts_ok_iff(path, e.body.stmts, false);
                },
                Option::None => {},
            }
        },
        SStmt::Match(m) => {
            lemma_arms_ok_iff(path, m.arms);
        },
        SStmt::For(f) => {
            lemma_stmts_ok_iff(path, f.body.stmts, false);
        },
        SStmt::Node(nd) => {
            match nd.body {
                crate::ast::SNodeBody::Semi { pos: _ } => {},
                crate::ast::SNodeBody::Braced { pos: _, children } => {
                    lemma_stmts_ok_iff(path, children.stmts, false);
                },
            }
        },
        _ => {},
    }
}

proof fn lemma_arms_ok_iff(path: SPath, arms: Seq<SArm>)
    ensures
        crate::emit::spec_arms_to_html(path, arms) is Ok <==> !arms_have_misplaced_let(arms),
        match crate::emit::spec_arms_to_html(path, arms) {
            Ok(_) => true,
            Err(e) => e matches crate::ast::CompileError::OrderingViolation { pos: p }
                && arms_misplaced_let_at(arms, p),
        },
    decreases arms, 1int,
{
    reveal_with_fuel(crate::emit::spec_arms_to_html, 2);
    reveal_with_fuel(arms_have_misplaced_let, 2);
    reveal_with_fuel(arms_misplaced_let_at, 2);
    if arms.len() > 0 {
        lemma_stmts_ok_iff(path, arms[0].body.stmts, false);
        lemma_arms_ok_iff(path, arms.drop_first());
    }
}

/// An `if` without `else` always lowers its else branch to the explicit
/// empty-fragment call of the entry point, never to a bare value.
pub proof fn lemma_if_without_else(path: SPath, f: SIf)
    requires
        (f.else_ is None),
    ensures
        match spec_stmt_to_html(path, SStmt::If(f)) {
            Ok(h) => h matches SHtml::Conditional { else_body, .. } && else_body
                == SElseArm::EmptyFragment(path),
            Err(_) => true,
        },
{
}

/// A self-closing element body lowers to a self-closing element carrying
/// the lowered arguments; no child content appears.
pub proof fn lemma_node_selfclosing(
    path: SPath,
    element: SPath,
    args: SNodeArgs,
    semi_pos: u32,
)
    ensures
        spec_stmt_to_html(
            path,
            SStmt::Node(
                crate::ast::SNode {
                    element,
                    args,
                    body: crate::ast::SNodeBody::Semi { pos: semi_pos },
                },
            ),
        ) == Ok::<SHtml, crate::ast::CompileError>(
            SHtml::Element {
                pos: semi_pos,
                path: element,
                attrs: spec_args_to_html(args),
                content: SContent::SelfClosing,
            },
        ),
{
}

/// A braced element body lowers to an element wrapping the recursively
/// compiled fragment of its children as sole child content.
pub proof fn lemma_node_children(
    path: SPath,
    element: SPath,
    args: SNodeArgs,
    brace_pos: u32,
    children: SNodes,
)
    ensures
        ({
            let nd = SStmt::Node(
                crate::ast::SNode {
                    element,
                    args,
                    body: crate::ast::SNodeBody::Braced { pos: brace_pos, children },
                },
            );
            match spec_emit_block(path, brace_pos, children) {
                Ok(c) => spec_stmt_to_html(path, nd) == Ok::<SHtml, crate::ast::CompileError>(
                    SHtml::Element {
                        pos: brace_pos,
                        path: element,
                        attrs: spec_args_to_html(args),
                        content: SContent::Children(c),
                    },
                ),
                Err(e) => spec_stmt_to_html(path, nd) == Err::<SHtml, crate::ast::CompileError>(e),
            }
        }),
{
}

/// An argument without an explicit value lowers to a shorthand attribute
/// whose value is the in-scope binding bearing the argument's own name.
pub proof fn lemma_shorthand_arg(a: SNodeArg)
    requires
        (a.value is None),
    ensures
        spec_arg_to_attr(a) == (SAttr::Shorthand { pos: a.name_pos, name: a.name }),
{
}

/// The name an attribute carries.
pub open spec fn attr_name(a: SAttr) -> Seq<Seq<char>> {
    match a {
        SAttr::Shorthand { pos: _, name } => name,
        SAttr::Pair { pos: _, name, value: _ } => name,
        SAttr::Spread { .. } => Seq::empty(),
    }
}

/// Argument order is preserved: a named list lowers to one attribute per
/// argument, in the order written, each bearing its argument's name.
pub proof fn lemma_arg_order(args: Seq<SNodeArg>)
    ensures
        spec_attrs_of(args).len() == args.len(),
        forall|k: int|
            0 <= k < args.len() ==> attr_name(#[trigger] spec_attrs_of(args)[k]) == args[k].name,
{
    assert forall|k: int| 0 <= k < args.len() implies attr_name(
        #[trigger] spec_attrs_of(args)[k],
    ) == args[k].name by {
        assert(spec_attrs_of(args)[k] == spec_arg_to_attr(args[k]));
    }
}

/// A directive choosing an entry point routes the wrapping call through
/// it: an entry-point directive wins over the default and over every
/// directive before it.
pub proof fn lemma_macro_path_directive(
    cfgs: Seq<SConfig>,
    entry: SPath,
    debug: bool,
    at_pos: u32,
    path: SPath,
)
    ensures
        spec_resolve(cfgs.push(SConfig::MacroPath { pos: at_pos, path }), entry, debug).0 == path,
    decreases cfgs.len(),
{
    reveal_with_fuel(spec_resolve, 3);
    let pushed = cfgs.push(SConfig::MacroPath { pos: at_pos, path });
    if cfgs.len() == 0 {
        assert(pushed.drop_first() =~= Seq::empty());
    } else {
        assert(pushed[0] == cfgs[0]);
        assert(pushed.drop_first() =~= cfgs.drop_first().push(
            SConfig::MacroPath { pos: at_pos, path },
        ));
        match cfgs[0] {
            SConfig::DebugPrint { pos: _ } => {
                lemma_macro_path_directive(cfgs.drop_first(), entry, true, at_pos, path);
            },
            SConfig::MacroPath { pos: _, path: p0 } => {
                lemma_macro_path_directive(cfgs.drop_first(), p0, debug, at_pos, path);
            },
        }
    }
}

/// A whole run whose directives end with an entry-point directive routes
/// the final wrapping call through that entry point, whatever the template
/// body holds.
pub proof fn lemma_directive_routes_run(cfgs: Seq<SConfig>, nodes: SNodes, at_pos: u32, path: SPath)
    ensures
        ({
            let inp = SInput { configs: cfgs.push(SConfig::MacroPath { pos: at_pos, path }), nodes };
            match spec_run(inp) {
                Ok(x) => x.code.entry == path,
                Err(_) => true,
            }
        }),
{
    lemma_macro_path_directive(cfgs, spec_default_entry(), false, at_pos, path);
}

} // verus!
