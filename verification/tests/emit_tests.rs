use defy::ast::CompileError;
use defy::emit::{defy, Attr, Content, ElseArm, Expansion, Html};
use defy::token::{Delim, TokKind, Token};

fn toks(kinds: Vec<TokKind>) -> Vec<Token> {
    let mut out = Vec::new();
    let mut pos: u32 = 0;
    for kind in kinds {
        out.push(Token { kind, pos });
        pos += 1;
    }
    out
}

fn id(s: &str) -> TokKind {
    TokKind::Ident(s.to_string())
}

fn lit(s: &str) -> TokKind {
    TokKind::Lit(s.to_string())
}

fn seg_names(path: &defy::ast::Path) -> Vec<String> {
    path.segs.iter().map(|s| s.ident.clone()).collect()
}

fn raw_kinds(raw: &defy::ast::Raw) -> Vec<TokKind> {
    raw.toks.iter().map(|t| t.kind.clone()).collect()
}

#[test]
fn test_text_in_element() {
    // h1 { + "Hi"; }  compiles to one tagged element with a single text
    // child, wrapped in the default entry-point call.
    let input = toks(vec![
        id("h1"),
        TokKind::Open(Delim::Brace),
        TokKind::Plus,
        lit("\"Hi\""),
        TokKind::Semi,
        TokKind::Close(Delim::Brace),
    ]);
    let expansion: Expansion = defy(&input).unwrap();
    assert!(!expansion.debug_print);
    let root = &expansion.code;
    assert!(root.entry.leading);
    assert_eq!(seg_names(&root.entry), vec!["yew".to_string(), "html".to_string()]);
    assert!(root.locals.is_empty());
    assert_eq!(root.children.len(), 1);
    match &root.children[0] {
        Html::Element { path, attrs, content, .. } => {
            assert_eq!(seg_names(path), vec!["h1".to_string()]);
            assert!(attrs.is_empty());
            match content {
                Content::Children(body) => {
                    assert_eq!(body.children.len(), 1);
                    match &body.children[0] {
                        Html::TextChild { expr, .. } => {
                            assert_eq!(raw_kinds(expr), vec![lit("\"Hi\"")]);
                        }
                        other => panic!("expected a text child, got {:?}", other),
                    }
                }
                other => panic!("expected wrapped children, got {:?}", other),
            }
        }
        other => panic!("expected an element, got {:?}", other),
    }
}

#[test]
fn test_for_lowers_to_mapped_sequence() {
    // for x in xs { + x; }
    let input = toks(vec![
        TokKind::KwFor,
        id("x"),
        TokKind::KwIn,
        id("xs"),
        TokKind::Open(Delim::Brace),
        TokKind::Plus,
        id("x"),
        TokKind::Semi,
        TokKind::Close(Delim::Brace),
    ]);
    let expansion = defy(&input).unwrap();
    assert_eq!(expansion.code.children.len(), 1);
    match &expansion.code.children[0] {
        Html::Iteration { pos, pat, iter, body } => {
            assert_eq!(*pos, 2);
            assert_eq!(raw_kinds(pat), vec![id("x")]);
            assert_eq!(raw_kinds(iter), vec![id("xs")]);
            assert!(body.locals.is_empty());
            assert_eq!(body.children.len(), 1);
            assert!(matches!(&body.children[0], Html::TextChild { .. }));
        }
        other => panic!("expected an iteration, got {:?}", other),
    }
}

#[test]
fn test_macro_path_directive_routes_entry_point() {
    // @macro_path my::mac  h1;
    let input = toks(vec![
        TokKind::At,
        id("macro_path"),
        id("my"),
        TokKind::PathSep,
        id("mac"),
        id("h1"),
        TokKind::Semi,
    ]);
    let expansion = defy(&input).unwrap();
    assert!(!expansion.code.entry.leading);
    assert_eq!(seg_names(&expansion.code.entry), vec!["my".to_string(), "mac".to_string()]);
    assert!(!expansion.debug_print);
}

#[test]
fn test_debug_print_directive() {
    let input = toks(vec![TokKind::At, id("__debug_print"), id("h1"), TokKind::Semi]);
    let expansion = defy(&input).unwrap();
    assert!(expansion.debug_print);
    assert_eq!(seg_names(&expansion.code.entry), vec!["yew".to_string(), "html".to_string()]);
}

#[test]
fn test_match_alternation_single_arm() {
    // match v { A | B => { foo; } }
    let input = toks(vec![
        TokKind::KwMatch,
        id("v"),
        TokKind::Open(Delim::Brace),
        id("A"),
        TokKind::Other("|".to_string()),
        id("B"),
        TokKind::FatArrow,
        TokKind::Open(Delim::Brace),
        id("foo"),
        TokKind::Semi,
        TokKind::Close(Delim::Brace),
        TokKind::Close(Delim::Brace),
    ]);
    let expansion = defy(&input).unwrap();
    match &expansion.code.children[0] {
        Html::Selection { scrutinee, arms, .. } => {
            assert_eq!(raw_kinds(scrutinee), vec![id("v")]);
            assert_eq!(arms.len(), 1);
            assert_eq!(
                raw_kinds(&arms[0].pat),
                vec![id("A"), TokKind::Other("|".to_string()), id("B")]
            );
            assert!(arms[0].guard.is_none());
            assert_eq!(arms[0].body.children.len(), 1);
            match &arms[0].body.children[0] {
                Html::Element { path, content, .. } => {
                    assert_eq!(seg_names(path), vec!["foo".to_string()]);
                    assert!(matches!(content, Content::SelfClosing));
                }
                other => panic!("expected a self-closing element, got {:?}", other),
            }
        }
        other => panic!("expected a match lowering, got {:?}", other),
    }
}

#[test]
fn test_leading_lets_become_bindings() {
    // let x = 1; h1;
    let input = toks(vec![
        TokKind::KwLet,
        id("x"),
        TokKind::Eq,
        lit("1"),
        TokKind::Semi,
        id("h1"),
        TokKind::Semi,
    ]);
    let expansion = defy(&input).unwrap();
    assert_eq!(expansion.code.locals.len(), 1);
    assert_eq!(expansion.code.locals[0].pos, 0);
    assert_eq!(raw_kinds(&expansion.code.locals[0].pat), vec![id("x")]);
    assert_eq!(raw_kinds(&expansion.code.locals[0].init), vec![lit("1")]);
    assert_eq!(expansion.code.children.len(), 1);
}

#[test]
fn test_misplaced_let_is_ordering_violation() {
    // h1; let x = 1;  — the let follows content, at token position 2.
    let input = toks(vec![
        id("h1"),
        TokKind::Semi,
        TokKind::KwLet,
        id("x"),
        TokKind::Eq,
        lit("1"),
        TokKind::Semi,
    ]);
    let err = defy(&input).unwrap_err();
    assert_eq!(err, CompileError::OrderingViolation { pos: 2 });
}

#[test]
fn test_misplaced_let_in_nested_block() {
    // h1 { h2; let x = 1; }  — the nested let is at token position 4.
    let input = toks(vec![
        id("h1"),
        TokKind::Open(Delim::Brace),
        id("h2"),
        TokKind::Semi,
        TokKind::KwLet,
        id("x"),
        TokKind::Eq,
        lit("1"),
        TokKind::Semi,
        TokKind::Close(Delim::Brace),
    ]);
    let err = defy(&input).unwrap_err();
    assert_eq!(err, CompileError::OrderingViolation { pos: 4 });
}

#[test]
fn test_if_without_else_gets_empty_fragment() {
    let input = toks(vec![
        TokKind::KwIf,
        id("cond"),
        TokKind::Open(Delim::Brace),
        TokKind::Close(Delim::Brace),
    ]);
    let expansion = defy(&input).unwrap();
    match &expansion.code.children[0] {
        Html::Conditional { else_body, .. } => match else_body {
            ElseArm::EmptyFragment(path) => {
                assert_eq!(seg_names(path), vec!["yew".to_string(), "html".to_string()]);
            }
            other => panic!("expected an empty-fragment else branch, got {:?}", other),
        },
        other => panic!("expected a conditional, got {:?}", other),
    }
}

#[test]
fn test_if_with_else_keeps_both_blocks() {
    let input = toks(vec![
        TokKind::KwIf,
        id("cond"),
        TokKind::Open(Delim::Brace),
        id("h1"),
        TokKind::Semi,
        TokKind::Close(Delim::Brace),
        TokKind::KwElse,
        TokKind::Open(Delim::Brace),
        id("h2"),
        TokKind::Semi,
        TokKind::Close(Delim::Brace),
    ]);
    let expansion = defy(&input).unwrap();
    match &expansion.code.children[0] {
        Html::Conditional { then_body, else_body, .. } => {
            assert_eq!(then_body.children.len(), 1);
            match else_body {
                ElseArm::Block(b) => assert_eq!(b.children.len(), 1),
                other => panic!("expected an else block, got {:?}", other),
            }
        }
        other => panic!("expected a conditional, got {:?}", other),
    }
}

#[test]
fn test_argument_order_and_shorthand() {
    // input(a, b = x);  — `a` is shorthand, order a then b is kept.
    let input = toks(vec![
        id("input"),
        TokKind::Open(Delim::Paren),
        id("a"),
        TokKind::Comma,
        id("b"),
        TokKind::Eq,
        id("x"),
        TokKind::Close(Delim::Paren),
        TokKind::Semi,
    ]);
    let expansion = defy(&input).unwrap();
    match &expansion.code.children[0] {
        Html::Element { attrs, content, .. } => {
            assert!(matches!(content, Content::SelfClosing));
            assert_eq!(attrs.len(), 2);
            match &attrs[0] {
                Attr::Shorthand { name, .. } => assert_eq!(name, &vec!["a".to_string()]),
                other => panic!("expected a shorthand attribute, got {:?}", other),
            }
            match &attrs[1] {
                Attr::Pair { name, value, .. } => {
                    assert_eq!(name, &vec!["b".to_string()]);
                    assert_eq!(raw_kinds(value), vec![id("x")]);
                }
                other => panic!("expected an explicit pair, got {:?}", other),
            }
        }
        other => panic!("expected an element, got {:?}", other),
    }
}

#[test]
fn test_spread_becomes_single_marker() {
    let input = toks(vec![id("comp"), TokKind::Eq, id("props"), TokKind::Semi]);
    let expansion = defy(&input).unwrap();
    match &expansion.code.children[0] {
        Html::Element { attrs, .. } => {
            assert_eq!(attrs.len(), 1);
            match &attrs[0] {
                Attr::Spread { expr, .. } => assert_eq!(raw_kinds(expr), vec![id("props")]),
                other => panic!("expected a spread marker, got {:?}", other),
            }
        }
        other => panic!("expected an element, got {:?}", other),
    }
}

#[test]
fn test_syntax_error_aborts_whole_translation() {
    let input = toks(vec![id("h1"), TokKind::Semi, TokKind::Eq]);
    let err = defy(&input).unwrap_err();
    assert!(matches!(err, CompileError::Syntax(_)));
}
