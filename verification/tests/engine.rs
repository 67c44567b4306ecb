use orchestrion_js::ast::{
    AssignExpr, AssignTarget, BindingPat, ClassDecl, ClassMember, ClassMethod, Constructor, Expr,
    FnDecl, Function, Program, ProgramKind, PropKey, Stmt, VarKind,
};
use orchestrion_js::{
    Config, FunctionKind, FunctionQuery, Instrumentor, InstrumentationConfig, ModuleMatcher,
    OrchestrionError,
};

static TEST_MODULE_NAME: &str = "undici";
static TEST_MODULE_PATH: &str = "index.mjs";

fn test_module_matcher() -> ModuleMatcher {
    ModuleMatcher::new(TEST_MODULE_NAME, ">=0.0.1", TEST_MODULE_PATH).unwrap()
}

fn simple_function(is_async: bool, params: Vec<&str>) -> Function {
    Function {
        is_async,
        is_generator: false,
        params: params
            .into_iter()
            .map(|p| BindingPat::Ident(p.to_string()))
            .collect(),
        body: Some(vec![Stmt::Return(Some(Expr::Str("ok".to_string())))]),
    }
}

fn fetch_decl(name: &str, is_async: bool) -> Stmt {
    Stmt::FnDecl(FnDecl {
        name: name.to_string(),
        func: simple_function(is_async, vec!["url"]),
    })
}

fn class_with_methods(class_name: &str, methods: Vec<&str>) -> Stmt {
    Stmt::ClassDecl(ClassDecl {
        name: class_name.to_string(),
        members: methods
            .into_iter()
            .map(|m| {
                ClassMember::Method(ClassMethod {
                    key: PropKey::Ident(m.to_string()),
                    func: simple_function(true, vec!["url"]),
                })
            })
            .collect(),
    })
}

fn class_with_constructor(class_name: &str) -> Stmt {
    Stmt::ClassDecl(ClassDecl {
        name: class_name.to_string(),
        members: vec![ClassMember::Ctor(Constructor {
            params: vec![BindingPat::Ident("x".to_string())],
            body: Some(vec![
                Stmt::Expr(Expr::Call {
                    callee: Box::new(Expr::Ident("super".to_string())),
                    args: vec![Expr::Ident("x".to_string())],
                }),
                Stmt::Expr(Expr::Assign(AssignExpr {
                    target: AssignTarget::Member {
                        obj: Box::new(Expr::This),
                        prop: PropKey::Ident("x".to_string()),
                    },
                    right: Box::new(Expr::Ident("x".to_string())),
                })),
            ]),
        })],
    })
}

fn single_visitor(
    channel: &str,
    query: FunctionQuery,
) -> orchestrion_js::InstrumentationVisitor {
    let config = InstrumentationConfig::new(channel, test_module_matcher(), query);
    let instrumentor = Instrumentor::new(Config::new_single(config));
    instrumentor.get_matching_instrumentations(TEST_MODULE_NAME, "0.0.1", TEST_MODULE_PATH)
}

/// A coarse fingerprint of a constructor-body statement, used to compare the
/// statements around the wrapper without cloning trees.
fn ctor_stmt_tag(s: &Stmt) -> &'static str {
    match s {
        Stmt::Expr(Expr::Call { .. }) => "super-call",
        Stmt::Expr(Expr::Assign(_)) => "field-assign",
        _ => "other",
    }
}

fn is_import(s: &Stmt) -> bool {
    matches!(s, Stmt::ImportNamed { .. })
}

fn is_require(s: &Stmt) -> bool {
    matches!(s, Stmt::RequireNamed { .. })
}

fn is_prelude_for(s: &Stmt, id: &str, module: &str, channel: &str) -> bool {
    match s {
        Stmt::VarDecl(vd) => {
            if vd.kind != VarKind::Const || vd.decls.len() != 1 {
                return false;
            }
            let d = &vd.decls[0];
            let name_ok = d.name == BindingPat::Ident(format!("tr_ch_apm${}", id));
            let init_ok = match &d.init {
                Some(Expr::Call { callee, args }) => {
                    **callee == Expr::Ident("tr_ch_apm_tracingChannel".to_string())
                        && args.len() == 1
                        && args[0]
                            == Expr::Str(format!("orchestrion:{}:{}", module, channel))
                },
                _ => false,
            };
            name_ok && init_ok
        },
        _ => false,
    }
}

/// The wrapped body of a standard wrapper: four statements ending in the
/// tracing-operator call on the instrumentation's channel.
fn assert_wrapped(func: &Function, id: &str, operator: &str) {
    let body = func.body.as_ref().expect("wrapped function keeps a body");
    assert_eq!(body.len(), 4);
    match &body[0] {
        Stmt::VarDecl(vd) => {
            assert_eq!(
                vd.decls[0].name,
                BindingPat::Ident("__apm$original_args".to_string())
            );
            assert_eq!(
                vd.decls[0].init,
                Some(Expr::Ident("arguments".to_string()))
            );
        },
        other => panic!("expected the captured arguments, got {:?}", other),
    }
    match &body[2] {
        Stmt::If { cond, cons, alt } => {
            assert_eq!(
                *cond,
                Expr::Not(Box::new(Expr::Member {
                    obj: Box::new(Expr::Ident(format!("tr_ch_apm${}", id))),
                    prop: "hasSubscribers".to_string(),
                }))
            );
            assert!(matches!(**cons, Stmt::Return(Some(_))));
            assert!(alt.is_none());
        },
        other => panic!("expected the subscriber guard, got {:?}", other),
    }
    match &body[3] {
        Stmt::Return(Some(Expr::Call { callee, .. })) => {
            assert_eq!(
                **callee,
                Expr::Member {
                    obj: Box::new(Expr::Ident(format!("tr_ch_apm${}", id))),
                    prop: operator.to_string(),
                }
            );
        },
        other => panic!("expected the tracing-operator call, got {:?}", other),
    }
}

// -----------------------------------------------------------------------
// The concrete transform scenarios.
// -----------------------------------------------------------------------

#[test]
fn s1_function_declaration_async() {
    let mut visitor = single_visitor(
        "fetch_decl",
        FunctionQuery::function_declaration("fetch", FunctionKind::Async),
    );
    let program = Program { kind: ProgramKind::Module, body: vec![fetch_decl("fetch", true)] };
    let out = visitor.transform(program).unwrap();
    assert_eq!(out.body.len(), 3);
    assert!(is_import(&out.body[0]));
    assert!(is_prelude_for(&out.body[1], "fetch_decl", "undici", "fetch_decl"));
    match &out.body[2] {
        Stmt::FnDecl(fd) => {
            assert_eq!(fd.name, "fetch");
            assert_wrapped(&fd.func, "fetch_decl", "tracePromise");
            // the traced arrow of an async query is async
            match &fd.func.body.as_ref().unwrap()[1] {
                Stmt::VarDecl(vd) => match &vd.decls[0].init {
                    Some(Expr::Arrow { is_async, .. }) => assert!(*is_async),
                    other => panic!("expected the traced arrow, got {:?}", other),
                },
                other => panic!("expected the traced binding, got {:?}", other),
            }
        },
        other => panic!("expected the wrapped declaration, got {:?}", other),
    }
}

#[test]
fn s2_class_method_ordinal() {
    let mut visitor = single_visitor(
        "Undici_fetch",
        FunctionQuery::ClassMethod {
            class_name: "Undici".to_string(),
            method_name: "fetch".to_string(),
            kind: FunctionKind::Async,
            index: 2,
        },
    );
    let program = Program {
        kind: ProgramKind::Module,
        body: vec![class_with_methods("Undici", vec!["fetch", "fetch", "fetch"])],
    };
    let out = visitor.transform(program).unwrap();
    match &out.body[2] {
        Stmt::ClassDecl(cd) => {
            let untouched = simple_function(true, vec!["url"]);
            match &cd.members[0] {
                ClassMember::Method(m) => assert_eq!(m.func, untouched),
                other => panic!("unexpected member {:?}", other),
            }
            match &cd.members[1] {
                ClassMember::Method(m) => assert_eq!(m.func, untouched),
                other => panic!("unexpected member {:?}", other),
            }
            match &cd.members[2] {
                ClassMember::Method(m) => {
                    assert_wrapped(&m.func, "Undici_fetch", "tracePromise")
                },
                other => panic!("unexpected member {:?}", other),
            }
        },
        other => panic!("expected the class, got {:?}", other),
    }
}

#[test]
fn s3_constructor_wrapper() {
    let mut visitor =
        single_visitor("A_constructor", FunctionQuery::class_constructor("A"));
    let class = class_with_constructor("A");
    let original_body = match &class_with_constructor("A") {
        Stmt::ClassDecl(cd) => match &cd.members[0] {
            ClassMember::Ctor(c) => c.body.as_ref().unwrap().iter().map(ctor_stmt_tag).collect::<Vec<_>>(),
            _ => unreachable!(),
        },
        _ => unreachable!(),
    };
    let program = Program { kind: ProgramKind::Module, body: vec![class] };
    let out = visitor.transform(program).unwrap();
    match &out.body[2] {
        Stmt::ClassDecl(cd) => match &cd.members[0] {
            ClassMember::Ctor(c) => {
                let body = c.body.as_ref().unwrap();
                assert_eq!(body.len(), 2);
                match &body[0] {
                    Stmt::VarDecl(vd) => assert_eq!(
                        vd.decls[0].name,
                        BindingPat::Ident("tr_ch_apm_ctx$A_constructor".to_string())
                    ),
                    other => panic!("expected the context binding, got {:?}", other),
                }
                match &body[1] {
                    Stmt::Try { block, catch_param, catch, finally } => {
                        // the original statements follow the start publish
                        let tags: Vec<&'static str> =
                            block[1..].iter().map(ctor_stmt_tag).collect();
                        assert_eq!(tags, original_body);
                        assert_eq!(catch_param.as_deref(), Some("tr_ch_err"));
                        let catch = catch.as_ref().unwrap();
                        assert!(matches!(&catch[1], Stmt::Throw(_)));
                        // the self write in the handler sits in a nested try
                        match &catch[0] {
                            Stmt::If { cons, .. } => match &**cons {
                                Stmt::Block(handler) => {
                                    match &handler[1] {
                                        Stmt::Try { catch_param, catch, .. } => {
                                            assert_eq!(
                                                catch_param.as_deref(),
                                                Some("refErr")
                                            );
                                            assert_eq!(catch.as_ref().unwrap().len(), 0);
                                        },
                                        other => panic!(
                                            "expected the nested try, got {:?}",
                                            other
                                        ),
                                    }
                                },
                                other => panic!("expected the handler block, got {:?}", other),
                            },
                            other => panic!("expected the handler guard, got {:?}", other),
                        }
                        assert!(finally.is_some());
                    },
                    other => panic!("expected the constructor wrapper, got {:?}", other),
                }
            },
            other => panic!("expected the constructor, got {:?}", other),
        },
        other => panic!("expected the class, got {:?}", other),
    }
}

#[test]
fn s4_multiple_instrumentations_one_file() {
    let configs = vec![
        InstrumentationConfig::new(
            "fetch_simple",
            test_module_matcher(),
            FunctionQuery::function_declaration("fetch_simple", FunctionKind::Sync),
        ),
        InstrumentationConfig::new(
            "fetch_complex",
            test_module_matcher(),
            FunctionQuery::function_declaration("fetch_complex", FunctionKind::Sync),
        ),
    ];
    let instrumentor = Instrumentor::new(Config::new(configs, None));
    let mut visitor = instrumentor.get_matching_instrumentations(
        TEST_MODULE_NAME,
        "0.0.1",
        TEST_MODULE_PATH,
    );
    let program = Program {
        kind: ProgramKind::Module,
        body: vec![fetch_decl("fetch_simple", false), fetch_decl("fetch_complex", false)],
    };
    let out = visitor.transform(program).unwrap();
    assert_eq!(out.body.len(), 5);
    let imports = out.body.iter().filter(|s| is_import(s)).count();
    assert_eq!(imports, 1);
    // both preludes sit behind the import; the later configuration inserted
    // at index 1 last
    assert!(is_prelude_for(&out.body[1], "fetch_complex", "undici", "fetch_complex"));
    assert!(is_prelude_for(&out.body[2], "fetch_simple", "undici", "fetch_simple"));
    match &out.body[3] {
        Stmt::FnDecl(fd) => assert_wrapped(&fd.func, "fetch_simple", "traceSync"),
        other => panic!("expected a wrapped declaration, got {:?}", other),
    }
    match &out.body[4] {
        Stmt::FnDecl(fd) => assert_wrapped(&fd.func, "fetch_complex", "traceSync"),
        other => panic!("expected a wrapped declaration, got {:?}", other),
    }
}

#[test]
fn s5_no_match_reports_failure() {
    let mut visitor = single_visitor(
        "nonexistent_decl",
        FunctionQuery::function_declaration("nonexistent", FunctionKind::Sync),
    );
    let program = Program { kind: ProgramKind::Module, body: vec![fetch_decl("fetch", true)] };
    match visitor.transform(program) {
        Err(OrchestrionError::InjectionMatchFailure(names)) => {
            assert_eq!(names, vec!["nonexistent".to_string()]);
        },
        Ok(_) => panic!("a transform without a match must not succeed"),
    }
}

#[test]
fn s6_script_with_use_strict() {
    let mut visitor = single_visitor(
        "fetch_decl",
        FunctionQuery::function_declaration("fetch", FunctionKind::Async),
    );
    let program = Program {
        kind: ProgramKind::Script,
        body: vec![
            Stmt::Expr(Expr::Str("use strict".to_string())),
            fetch_decl("fetch", true),
        ],
    };
    let out = visitor.transform(program).unwrap();
    assert_eq!(out.body.len(), 4);
    assert_eq!(out.body[0], Stmt::Expr(Expr::Str("use strict".to_string())));
    assert!(is_require(&out.body[1]));
    assert!(is_prelude_for(&out.body[2], "fetch_decl", "undici", "fetch_decl"));
    match &out.body[3] {
        Stmt::FnDecl(fd) => assert_wrapped(&fd.func, "fetch_decl", "tracePromise"),
        other => panic!("expected the wrapped declaration, got {:?}", other),
    }
}
