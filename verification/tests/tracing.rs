use wraptest::ast::{Attr, FnDecl, Item, Module, Stmt};
use wraptest::config::Token;
use wraptest::wrap_tests;

fn ident(tok: &str) -> Token {
    Token::Ident(tok.to_string())
}

fn test_marker() -> Attr {
    Attr { path: vec!["test".to_string()], args: None }
}

fn tokio_marker() -> Attr {
    Attr { path: vec!["tokio".to_string(), "test".to_string()], args: None }
}

fn tokio_marker_with(args: &str) -> Attr {
    Attr {
        path: vec!["tokio".to_string(), "test".to_string()],
        args: Some(args.to_string()),
    }
}

fn verbatim(text: &str) -> Stmt {
    Stmt::Verbatim(text.to_string())
}

fn cfg_logs() -> Vec<Token> {
    vec![
        ident("wrapper"),
        Token::Equals,
        ident("with_logs"),
        Token::Comma,
        ident("async_wrapper"),
        Token::Equals,
        ident("with_logs_async"),
    ]
}

fn tracing_module() -> Module {
    Module {
        name: "tests".to_string(),
        items: vec![
            Item::Other("use std::{future::Future, time::Duration};".to_string()),
            Item::Other("use tracing::info;".to_string()),
            Item::Fn(FnDecl {
                attrs: vec![],
                name: "make_subscriber".to_string(),
                params: vec![],
                ret: Some(
                    "FmtSubscriber<DefaultFields, Format, EnvFilter, TestWriter>".to_string(),
                ),
                is_async: false,
                body: vec![verbatim(
                    "tracing_subscriber::fmt::fmt().with_env_filter(\"debug\").finish()",
                )],
            }),
            Item::Fn(FnDecl {
                attrs: vec![],
                name: "with_logs".to_string(),
                params: vec!["test_fn: T".to_string()],
                ret: Some("R".to_string()),
                is_async: false,
                body: vec![verbatim(
                    "tracing::subscriber::with_default(make_subscriber(), test_fn)",
                )],
            }),
            Item::Fn(FnDecl {
                attrs: vec![],
                name: "with_logs_async".to_string(),
                params: vec!["test_fn: T".to_string()],
                ret: Some("R".to_string()),
                is_async: true,
                body: vec![
                    verbatim("let _guard = tracing::subscriber::set_default(make_subscriber());"),
                    verbatim("test_fn().await"),
                ],
            }),
            Item::Fn(FnDecl {
                attrs: vec![test_marker()],
                name: "basic".to_string(),
                params: vec![],
                ret: None,
                is_async: false,
                body: vec![verbatim("info!(\"in basic\");")],
            }),
            Item::Fn(FnDecl {
                attrs: vec![tokio_marker()],
                name: "basic_async".to_string(),
                params: vec![],
                ret: None,
                is_async: true,
                body: vec![
                    verbatim("info!(\"in basic async\");"),
                    verbatim("tokio::time::sleep(Duration::from_millis(10)).await;"),
                    verbatim("info!(\"finishing basic async\");"),
                ],
            }),
            Item::Fn(FnDecl {
                attrs: vec![test_marker()],
                name: "returns_result".to_string(),
                params: vec![],
                ret: Some("Result<(), String>".to_string()),
                is_async: false,
                body: vec![verbatim("Ok(())")],
            }),
            Item::Fn(FnDecl {
                attrs: vec![tokio_marker_with("flavor = \"current_thread\"")],
                name: "with_test_options".to_string(),
                params: vec![],
                ret: None,
                is_async: true,
                body: vec![verbatim("info!(\"with test options\");")],
            }),
        ],
    }
}

fn the_fn(m: &Module, idx: usize) -> &FnDecl {
    match &m.items[idx] {
        Item::Fn(f) => f,
        _ => panic!("expected a function declaration"),
    }
}

fn inner_of(f: &FnDecl) -> &FnDecl {
    match &f.body[0] {
        Stmt::Item(inner) => inner,
        _ => panic!("expected the nested declaration first"),
    }
}

#[test]
fn tracing_basic() {
    let out = wrap_tests(&cfg_logs(), tracing_module()).unwrap();
    for idx in 0..5usize {
        assert_eq!(out.items[idx], tracing_module().items[idx]);
    }
    let f = the_fn(&out, 5);
    assert_eq!(f.name, "basic");
    assert_eq!(f.attrs, vec![test_marker()]);
    let inner = inner_of(f);
    assert_eq!(inner.name, "wrapped_basic");
    assert!(inner.attrs.is_empty());
    assert_eq!(inner.body, vec![verbatim("info!(\"in basic\");")]);
    assert_eq!(
        f.body[1],
        Stmt::Call {
            handler: "with_logs".to_string(),
            callee: "wrapped_basic".to_string(),
            awaited: false,
        },
    );
}

#[test]
fn tracing_basic_async() {
    let out = wrap_tests(&cfg_logs(), tracing_module()).unwrap();
    let f = the_fn(&out, 6);
    assert_eq!(f.name, "basic_async");
    assert!(f.is_async);
    assert_eq!(f.attrs, vec![tokio_marker()]);
    let inner = inner_of(f);
    assert_eq!(inner.name, "wrapped_basic_async");
    assert!(inner.attrs.is_empty());
    assert_eq!(inner.body.len(), 3);
    assert_eq!(
        f.body[1],
        Stmt::Call {
            handler: "with_logs_async".to_string(),
            callee: "wrapped_basic_async".to_string(),
            awaited: true,
        },
    );
}

#[test]
fn tracing_returns_result() {
    let out = wrap_tests(&cfg_logs(), tracing_module()).unwrap();
    let f = the_fn(&out, 7);
    assert_eq!(f.name, "returns_result");
    assert_eq!(f.ret, Some("Result<(), String>".to_string()));
    let inner = inner_of(f);
    assert_eq!(inner.ret, Some("Result<(), String>".to_string()));
    assert_eq!(inner.body, vec![verbatim("Ok(())")]);
    assert_eq!(
        f.body[1],
        Stmt::Call {
            handler: "with_logs".to_string(),
            callee: "wrapped_returns_result".to_string(),
            awaited: false,
        },
    );
}

#[test]
fn tracing_with_test_options() {
    let out = wrap_tests(&cfg_logs(), tracing_module()).unwrap();
    let f = the_fn(&out, 8);
    assert_eq!(f.name, "with_test_options");
    assert!(f.is_async);
    // The marker's own arguments are preserved, unexamined, on the outer
    // declaration.
    assert_eq!(f.attrs, vec![tokio_marker_with("flavor = \"current_thread\"")]);
    let inner = inner_of(f);
    assert_eq!(inner.name, "wrapped_with_test_options");
    assert!(inner.attrs.is_empty());
    assert_eq!(
        f.body[1],
        Stmt::Call {
            handler: "with_logs_async".to_string(),
            callee: "wrapped_with_test_options".to_string(),
            awaited: true,
        },
    );
}
