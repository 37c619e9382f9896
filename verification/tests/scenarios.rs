use wraptest::ast::{Attr, FnDecl, Item, Module, Stmt};
use wraptest::classify::{classify, Classification};
use wraptest::config::{parse_args, Config, Token};
use wraptest::diag::{ErrSpan, ErrorKind};
use wraptest::wrap_tests;

fn ident(tok: &str) -> Token {
    Token::Ident(tok.to_string())
}

fn test_marker() -> Attr {
    Attr { path: vec!["test".to_string()], args: None }
}

fn tokio_marker() -> Attr {
    Attr { path: vec!["tokio".to_string(), "test".to_string()], args: None }
}

fn verbatim(text: &str) -> Stmt {
    Stmt::Verbatim(text.to_string())
}

fn wrapper_cfg(name: &str) -> Vec<Token> {
    vec![ident("wrapper"), Token::Equals, ident(name)]
}

/// A module holding no test-marked declaration comes back structurally
/// identical, nested modules and local declarations included.
#[test]
fn no_op_without_tests() {
    let build = || Module {
        name: "outer".to_string(),
        items: vec![
            Item::Other("const N: usize = 3;".to_string()),
            Item::Fn(FnDecl {
                attrs: vec![Attr { path: vec!["allow".to_string()], args: Some("dead_code".to_string()) }],
                name: "helper".to_string(),
                params: vec!["x: usize".to_string()],
                ret: Some("usize".to_string()),
                is_async: false,
                body: vec![
                    Stmt::Item(FnDecl {
                        attrs: vec![],
                        name: "local".to_string(),
                        params: vec![],
                        ret: None,
                        is_async: false,
                        body: vec![verbatim("()")],
                    }),
                    verbatim("x + N"),
                ],
            }),
            Item::Mod(Module {
                name: "nested".to_string(),
                items: vec![Item::Fn(FnDecl {
                    attrs: vec![],
                    name: "quiet".to_string(),
                    params: vec![],
                    ret: None,
                    is_async: true,
                    body: vec![verbatim("ready().await")],
                })],
            }),
        ],
    };
    let out = wrap_tests(&wrapper_cfg("setup_fn"), build()).unwrap();
    assert_eq!(out, build());
}

/// The end-to-end scenario: `wrapper = setup_fn` and one ordinary test `t`
/// with body `X` yields exactly the expected rewritten module.
#[test]
fn wrapper_end_to_end() {
    let module = Module {
        name: "tests".to_string(),
        items: vec![Item::Fn(FnDecl {
            attrs: vec![test_marker()],
            name: "t".to_string(),
            params: vec![],
            ret: None,
            is_async: false,
            body: vec![verbatim("X();")],
        })],
    };
    let out = wrap_tests(&wrapper_cfg("setup_fn"), module).unwrap();
    let expected = Module {
        name: "tests".to_string(),
        items: vec![Item::Fn(FnDecl {
            attrs: vec![test_marker()],
            name: "t".to_string(),
            params: vec![],
            ret: None,
            is_async: false,
            body: vec![
                Stmt::Item(FnDecl {
                    attrs: vec![],
                    name: "wrapped_t".to_string(),
                    params: vec![],
                    ret: None,
                    is_async: false,
                    body: vec![verbatim("X();")],
                }),
                Stmt::Call {
                    handler: "setup_fn".to_string(),
                    callee: "wrapped_t".to_string(),
                    awaited: false,
                },
            ],
        })],
    };
    assert_eq!(out, expected);
}

/// The async end-to-end scenario: `async_wrapper = setup_async` and one async
/// test `u` with body `Y` yields the awaited handler call.
#[test]
fn async_wrapper_end_to_end() {
    let cfg = vec![ident("async_wrapper"), Token::Equals, ident("setup_async")];
    let module = Module {
        name: "tests".to_string(),
        items: vec![Item::Fn(FnDecl {
            attrs: vec![tokio_marker()],
            name: "u".to_string(),
            params: vec![],
            ret: None,
            is_async: true,
            body: vec![verbatim("Y().await;")],
        })],
    };
    let out = wrap_tests(&cfg, module).unwrap();
    let expected = Module {
        name: "tests".to_string(),
        items: vec![Item::Fn(FnDecl {
            attrs: vec![tokio_marker()],
            name: "u".to_string(),
            params: vec![],
            ret: None,
            is_async: true,
            body: vec![
                Stmt::Item(FnDecl {
                    attrs: vec![],
                    name: "wrapped_u".to_string(),
                    params: vec![],
                    ret: None,
                    is_async: true,
                    body: vec![verbatim("Y().await;")],
                }),
                Stmt::Call {
                    handler: "setup_async".to_string(),
                    callee: "wrapped_u".to_string(),
                    awaited: true,
                },
            ],
        })],
    };
    assert_eq!(out, expected);
}

/// The rewritten body invokes the inner test exactly once.
#[test]
fn single_invocation() {
    let module = Module {
        name: "tests".to_string(),
        items: vec![Item::Fn(FnDecl {
            attrs: vec![test_marker()],
            name: "t".to_string(),
            params: vec![],
            ret: None,
            is_async: false,
            body: vec![verbatim("X();"), verbatim("X();")],
        })],
    };
    let out = wrap_tests(&wrapper_cfg("setup_fn"), module).unwrap();
    let f = match &out.items[0] {
        Item::Fn(f) => f,
        _ => panic!("expected a function declaration"),
    };
    let mut calls: usize = 0;
    for st in &f.body {
        if let Stmt::Call { callee, .. } = st {
            assert_eq!(callee, "wrapped_t");
            calls += 1;
        }
    }
    assert_eq!(calls, 1);
}

/// The inner copy carries no recognized test marker, while other annotations
/// survive on it; the outer declaration keeps its full original marker set.
#[test]
fn marker_hygiene() {
    let extra = Attr { path: vec!["allow".to_string()], args: Some("dead_code".to_string()) };
    let module = Module {
        name: "tests".to_string(),
        items: vec![Item::Fn(FnDecl {
            attrs: vec![extra.clone(), test_marker(), tokio_marker()],
            name: "t".to_string(),
            params: vec![],
            ret: None,
            is_async: false,
            body: vec![verbatim("X();")],
        })],
    };
    let out = wrap_tests(&wrapper_cfg("setup_fn"), module).unwrap();
    let f = match &out.items[0] {
        Item::Fn(f) => f,
        _ => panic!("expected a function declaration"),
    };
    assert_eq!(f.attrs, vec![extra.clone(), test_marker(), tokio_marker()]);
    match &f.body[0] {
        Stmt::Item(inner) => assert_eq!(inner.attrs, vec![extra]),
        _ => panic!("expected the nested declaration first"),
    }
}

/// An async test with only `wrapper` configured is rejected with
/// `MissingHandler`, and no rewritten output is produced.
#[test]
fn missing_async_handler() {
    let module = Module {
        name: "tests".to_string(),
        items: vec![Item::Fn(FnDecl {
            attrs: vec![tokio_marker()],
            name: "needs_async".to_string(),
            params: vec![],
            ret: None,
            is_async: true,
            body: vec![verbatim("Y().await;")],
        })],
    };
    let err = wrap_tests(&wrapper_cfg("setup_fn"), module).unwrap_err();
    assert_eq!(err.kind, ErrorKind::MissingHandler);
    assert_eq!(err.span, ErrSpan::Decl("needs_async".to_string()));
    assert_eq!(
        err.message,
        "wraptest: Must specify `async_wrapper` to wrap async test functions",
    );
}

/// A sync test with only `async_wrapper` configured is rejected the same way,
/// naming `wrapper`.
#[test]
fn missing_sync_handler() {
    let cfg = vec![ident("async_wrapper"), Token::Equals, ident("setup_async")];
    let module = Module {
        name: "tests".to_string(),
        items: vec![Item::Fn(FnDecl {
            attrs: vec![test_marker()],
            name: "needs_sync".to_string(),
            params: vec![],
            ret: None,
            is_async: false,
            body: vec![verbatim("X();")],
        })],
    };
    let err = wrap_tests(&cfg, module).unwrap_err();
    assert_eq!(err.kind, ErrorKind::MissingHandler);
    assert_eq!(err.span, ErrSpan::Decl("needs_sync".to_string()));
    assert_eq!(err.message, "wraptest: Must specify `wrapper` to wrap test functions");
}

/// A test declaration that takes a parameter is rejected with
/// `UnsupportedSignature`, whatever the configuration supplies.
#[test]
fn parameterized_test_rejected() {
    let module = Module {
        name: "tests".to_string(),
        items: vec![Item::Fn(FnDecl {
            attrs: vec![test_marker()],
            name: "takes_arg".to_string(),
            params: vec!["x: usize".to_string()],
            ret: None,
            is_async: false,
            body: vec![verbatim("X();")],
        })],
    };
    let err = wrap_tests(&wrapper_cfg("setup_fn"), module).unwrap_err();
    assert_eq!(err.kind, ErrorKind::UnsupportedSignature);
    assert_eq!(err.span, ErrSpan::ParamList("takes_arg".to_string()));
}

/// Tests are found and rewritten at every nesting depth: inside nested
/// modules, and declared as local items inside other functions.
#[test]
fn rewrites_at_depth() {
    let module = Module {
        name: "outer".to_string(),
        items: vec![
            Item::Mod(Module {
                name: "inner_mod".to_string(),
                items: vec![Item::Fn(FnDecl {
                    attrs: vec![test_marker()],
                    name: "deep".to_string(),
                    params: vec![],
                    ret: None,
                    is_async: false,
                    body: vec![verbatim("X();")],
                })],
            }),
            Item::Fn(FnDecl {
                attrs: vec![],
                name: "holder".to_string(),
                params: vec![],
                ret: None,
                is_async: false,
                body: vec![Stmt::Item(FnDecl {
                    attrs: vec![test_marker()],
                    name: "local_test".to_string(),
                    params: vec![],
                    ret: None,
                    is_async: false,
                    body: vec![verbatim("X();")],
                })],
            }),
        ],
    };
    let out = wrap_tests(&wrapper_cfg("setup_fn"), module).unwrap();
    match &out.items[0] {
        Item::Mod(m) => match &m.items[0] {
            Item::Fn(f) => {
                assert_eq!(f.body.len(), 2);
                assert_eq!(
                    f.body[1],
                    Stmt::Call {
                        handler: "setup_fn".to_string(),
                        callee: "wrapped_deep".to_string(),
                        awaited: false,
                    },
                );
            },
            _ => panic!("expected a function declaration"),
        },
        _ => panic!("expected the nested module"),
    }
    match &out.items[1] {
        Item::Fn(holder) => match &holder.body[0] {
            Stmt::Item(f) => {
                assert_eq!(f.name, "local_test");
                assert_eq!(f.body.len(), 2);
            },
            _ => panic!("expected the local declaration"),
        },
        _ => panic!("expected a function declaration"),
    }
}

/// `wrapper = a, wrapper = b` parses successfully and resolves to `b`: of a
/// repeated key the last occurrence wins.
#[test]
fn duplicate_key_last_wins() {
    let toks = vec![
        ident("wrapper"),
        Token::Equals,
        ident("a"),
        Token::Comma,
        ident("wrapper"),
        Token::Equals,
        ident("b"),
    ];
    let cfg = parse_args(&toks).unwrap();
    assert_eq!(cfg, Config { wrapper: Some("b".to_string()), async_wrapper: None });
}

/// An empty argument list is a valid configuration with no handlers, and a
/// trailing comma is accepted.
#[test]
fn empty_and_trailing_comma_configs() {
    assert_eq!(
        parse_args(&vec![]).unwrap(),
        Config { wrapper: None, async_wrapper: None },
    );
    let toks = vec![ident("wrapper"), Token::Equals, ident("w"), Token::Comma];
    assert_eq!(
        parse_args(&toks).unwrap(),
        Config { wrapper: Some("w".to_string()), async_wrapper: None },
    );
}

/// Malformed argument lists fail with a `ConfigurationError` anchored at the
/// malformed token: a missing `=`, a non-identifier value, a missing comma,
/// and an unrecognized key.
#[test]
fn malformed_configs_rejected() {
    let err = parse_args(&vec![ident("wrapper"), ident("w")]).unwrap_err();
    assert_eq!(err.kind, ErrorKind::ConfigurationError);
    assert_eq!(err.span, ErrSpan::ConfigToken(1));
    assert_eq!(err.message, "wraptest: Expected `=`");

    let err = parse_args(&vec![ident("wrapper"), Token::Equals, Token::Comma]).unwrap_err();
    assert_eq!(err.span, ErrSpan::ConfigToken(2));
    assert_eq!(err.message, "wraptest: Expected an identifier");

    let err = parse_args(&vec![
        ident("wrapper"),
        Token::Equals,
        ident("w"),
        Token::Other("#".to_string()),
        ident("x"),
    ])
    .unwrap_err();
    assert_eq!(err.span, ErrSpan::ConfigToken(3));
    assert_eq!(err.message, "wraptest: Expected `,`");

    let err = parse_args(&vec![ident("before"), Token::Equals, ident("x")]).unwrap_err();
    assert_eq!(err.span, ErrSpan::ConfigToken(0));
    assert_eq!(err.message, "wraptest: Unexpected parameter");
    assert!(err.note.is_some());
}

/// The classifier recognizes the two marker shapes structurally — by path
/// segments, not source text — and reads async-ness from the declaration's
/// own flag.
#[test]
fn classifier_reads_markers_and_flag() {
    let decl = |attrs: Vec<Attr>, is_async: bool| FnDecl {
        attrs,
        name: "t".to_string(),
        params: vec![],
        ret: None,
        is_async,
        body: vec![],
    };
    assert_eq!(classify(&decl(vec![], false)), Classification::NotATest);
    assert_eq!(
        classify(&decl(vec![Attr { path: vec!["allow".to_string()], args: None }], false)),
        Classification::NotATest,
    );
    // A three-segment path is not a recognized marker, whatever its words.
    let long = Attr {
        path: vec!["a".to_string(), "tokio".to_string(), "test".to_string()],
        args: None,
    };
    assert_eq!(classify(&decl(vec![long], true)), Classification::NotATest);
    assert_eq!(classify(&decl(vec![test_marker()], false)), Classification::SyncTest);
    assert_eq!(classify(&decl(vec![tokio_marker()], true)), Classification::AsyncTest);
    // A marker carrying its own arguments still matches.
    let with_args = Attr {
        path: vec!["tokio".to_string(), "test".to_string()],
        args: Some("flavor = \"current_thread\"".to_string()),
    };
    assert_eq!(classify(&decl(vec![with_args], true)), Classification::AsyncTest);
    // Async-ness comes from the flag, not from which marker matched.
    assert_eq!(classify(&decl(vec![test_marker()], true)), Classification::AsyncTest);
}

/// A declaration marked `test` but written `async` is classified by its own
/// flag: it demands the async handler.
#[test]
fn async_flag_decides_handler() {
    let module = Module {
        name: "tests".to_string(),
        items: vec![Item::Fn(FnDecl {
            attrs: vec![test_marker()],
            name: "odd_one".to_string(),
            params: vec![],
            ret: None,
            is_async: true,
            body: vec![verbatim("Y().await;")],
        })],
    };
    let err = wrap_tests(&wrapper_cfg("setup_fn"), module).unwrap_err();
    assert_eq!(err.kind, ErrorKind::MissingHandler);
}
