use defy::ast::{Expected, NodeArgs, NodeBody, Stmt, Sym};
use defy::ast::Input;
use defy::token::{Delim, TokKind, Token};

fn toks(kinds: Vec<TokKind>) -> Vec<Token> {
    let mut out = Vec::new();
    let mut pos: u32 = 0;
    for kind in kinds {
        out.push(Token { kind, pos });
        pos += 1;
    }
    out
}

fn id(s: &str) -> TokKind {
    TokKind::Ident(s.to_string())
}

fn lit(s: &str) -> TokKind {
    TokKind::Lit(s.to_string())
}

#[test]
fn test_if_else() {
    let input = toks(vec![
        TokKind::KwIf,
        id("foo"),
        TokKind::Open(Delim::Brace),
        TokKind::Plus,
        lit("\"\""),
        TokKind::Semi,
        TokKind::Close(Delim::Brace),
        TokKind::KwElse,
        TokKind::Open(Delim::Brace),
        TokKind::Plus,
        lit("\"\""),
        TokKind::Semi,
        TokKind::Close(Delim::Brace),
    ]);
    let _: Input = Input::parse(&input).unwrap();
}

#[test]
fn test_match() {
    let input = toks(vec![
        TokKind::KwMatch,
        id("route"),
        TokKind::Open(Delim::Brace),
        id("Route"),
        TokKind::PathSep,
        id("List"),
        TokKind::Other("|".to_string()),
        id("Route"),
        TokKind::PathSep,
        id("Post"),
        TokKind::FatArrow,
        TokKind::Open(Delim::Brace),
        id("pages"),
        TokKind::PathSep,
        id("comp"),
        TokKind::Semi,
        TokKind::Close(Delim::Brace),
        TokKind::Close(Delim::Brace),
    ]);
    let _: Input = Input::parse(&input).unwrap();
}

#[test]
fn test_keyword() {
    let input = toks(vec![
        id("input"),
        TokKind::Open(Delim::Paren),
        id("type"),
        TokKind::Eq,
        lit("\"checkbox\""),
        TokKind::Close(Delim::Paren),
        TokKind::Semi,
    ]);
    let _: Input = Input::parse(&input).unwrap();
}

#[test]
fn test_if_structure() {
    let input = toks(vec![
        TokKind::KwIf,
        id("cond"),
        TokKind::Open(Delim::Brace),
        TokKind::Close(Delim::Brace),
    ]);
    let parsed = Input::parse(&input).unwrap();
    assert_eq!(parsed.nodes.stmts.len(), 1);
    match &parsed.nodes.stmts[0] {
        Stmt::If(f) => {
            assert_eq!(f.pos, 0);
            assert_eq!(f.cond.toks.len(), 1);
            assert_eq!(f.cond.toks[0].kind, id("cond"));
            assert_eq!(f.body_pos, 2);
            assert!(f.body.stmts.is_empty());
            assert!(f.else_.is_none());
        }
        other => panic!("expected an if statement, got {:?}", other),
    }
}

#[test]
fn test_element_with_generics_and_hyphen_args() {
    // Foo<T>::Bar(data-length = x, on) { }
    let input = toks(vec![
        id("Foo"),
        TokKind::Lt,
        id("T"),
        TokKind::Gt,
        TokKind::PathSep,
        id("Bar"),
        TokKind::Open(Delim::Paren),
        id("data"),
        TokKind::Hyphen,
        id("length"),
        TokKind::Eq,
        id("x"),
        TokKind::Comma,
        id("on"),
        TokKind::Close(Delim::Paren),
        TokKind::Open(Delim::Brace),
        TokKind::Close(Delim::Brace),
    ]);
    let parsed = Input::parse(&input).unwrap();
    match &parsed.nodes.stmts[0] {
        Stmt::Node(node) => {
            assert!(!node.element.leading);
            assert_eq!(node.element.segs.len(), 2);
            assert_eq!(node.element.segs[0].ident, "Foo");
            let generics = node.element.segs[0].generics.as_ref().unwrap();
            let generic_kinds: Vec<_> = generics.toks.iter().map(|t| t.kind.clone()).collect();
            assert_eq!(generic_kinds, vec![TokKind::Lt, id("T"), TokKind::Gt]);
            assert_eq!(node.element.segs[1].ident, "Bar");
            match &node.args {
                NodeArgs::Named { args, .. } => {
                    assert_eq!(args.len(), 2);
                    assert_eq!(args[0].name, vec!["data".to_string(), "length".to_string()]);
                    assert!(args[0].value.is_some());
                    assert_eq!(args[1].name, vec!["on".to_string()]);
                    assert!(args[1].value.is_none());
                }
                other => panic!("expected named arguments, got {:?}", other),
            }
            assert!(matches!(node.body, NodeBody::Braced { .. }));
        }
        other => panic!("expected an element, got {:?}", other),
    }
}

#[test]
fn test_spread_args() {
    // comp = props;
    let input = toks(vec![id("comp"), TokKind::Eq, id("props"), TokKind::Semi]);
    let parsed = Input::parse(&input).unwrap();
    match &parsed.nodes.stmts[0] {
        Stmt::Node(node) => {
            match &node.args {
                NodeArgs::Rest { pos, arg } => {
                    assert_eq!(*pos, 1);
                    assert_eq!(arg.toks.len(), 1);
                    assert_eq!(arg.toks[0].kind, id("props"));
                }
                other => panic!("expected a spread argument, got {:?}", other),
            }
            assert!(matches!(node.body, NodeBody::Semi { .. }));
        }
        other => panic!("expected an element, got {:?}", other),
    }
}

#[test]
fn test_error_missing_expression() {
    // `+ ;` has no expression between `+` and `;`.
    let input = toks(vec![TokKind::Plus, TokKind::Semi]);
    let err = Input::parse(&input).unwrap_err();
    assert_eq!(err.pos, 1);
    assert_eq!(err.expected, Expected::Expr);
}

#[test]
fn test_error_missing_brace_after_if() {
    // `if foo ;` stops the condition before `;` and then wants `{`.
    let input = toks(vec![TokKind::KwIf, id("foo"), TokKind::Semi]);
    let err = Input::parse(&input).unwrap_err();
    assert_eq!(err.pos, 2);
    assert_eq!(err.expected, Expected::Sym(Sym::OpenBrace));
}

#[test]
fn test_error_bad_statement_start() {
    let input = toks(vec![TokKind::Eq, id("x")]);
    let err = Input::parse(&input).unwrap_err();
    assert_eq!(err.pos, 0);
    assert_eq!(err.expected, Expected::Stmt);
}

#[test]
fn test_error_unknown_directive() {
    let input = toks(vec![TokKind::At, id("bogus"), id("h1"), TokKind::Semi]);
    let err = Input::parse(&input).unwrap_err();
    assert_eq!(err.pos, 1);
    assert_eq!(err.expected, Expected::Directive);
}

#[test]
fn test_arm_guard() {
    // match v { Some(x) if x => { h1; } }
    let input = toks(vec![
        TokKind::KwMatch,
        id("v"),
        TokKind::Open(Delim::Brace),
        id("Some"),
        TokKind::Open(Delim::Paren),
        id("x"),
        TokKind::Close(Delim::Paren),
        TokKind::KwIf,
        id("x"),
        TokKind::FatArrow,
        TokKind::Open(Delim::Brace),
        id("h1"),
        TokKind::Semi,
        TokKind::Close(Delim::Brace),
        TokKind::Close(Delim::Brace),
    ]);
    let parsed = Input::parse(&input).unwrap();
    match &parsed.nodes.stmts[0] {
        Stmt::Match(m) => {
            assert_eq!(m.arms.len(), 1);
            let pat_kinds: Vec<_> = m.arms[0].pat.toks.iter().map(|t| t.kind.clone()).collect();
            assert_eq!(
                pat_kinds,
                vec![
                    id("Some"),
                    TokKind::Open(Delim::Paren),
                    id("x"),
                    TokKind::Close(Delim::Paren),
                ]
            );
            let guard = m.arms[0].guard.as_ref().unwrap();
            assert_eq!(guard.toks.len(), 1);
            assert_eq!(guard.toks[0].kind, id("x"));
        }
        other => panic!("expected a match statement, got {:?}", other),
    }
}
