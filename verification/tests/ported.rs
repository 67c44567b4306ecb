use orchestrion_js::ast::{
    BindingPat, ClassDecl, ClassMember, ClassMethod, Constructor, Expr, FnDecl, FnExpr, Function,
    MethodProp, Program, ProgramKind, Prop, PropKey, Stmt, VarDecl, VarDeclarator, VarKind,
};
use orchestrion_js::{
    Config, FunctionKind, FunctionQuery, Instrumentor, InstrumentationConfig, ModuleMatcher,
    OrchestrionError,
};

static MODULE_NAME: &str = "undici";
static MODULE_PATH: &str = "index.mjs";

fn matcher() -> ModuleMatcher {
    ModuleMatcher::new(MODULE_NAME, ">=0.0.1", MODULE_PATH).unwrap()
}

fn body_returning_one() -> Vec<Stmt> {
    vec![Stmt::Return(Some(Expr::Str("one".to_string())))]
}

fn plain_function(is_async: bool) -> Function {
    Function {
        is_async,
        is_generator: false,
        params: vec![BindingPat::Ident("url".to_string())],
        body: Some(body_returning_one()),
    }
}

fn decl(name: &str, is_async: bool) -> Stmt {
    Stmt::FnDecl(FnDecl { name: name.to_string(), func: plain_function(is_async) })
}

fn expr_binding(name: &str) -> Stmt {
    Stmt::VarDecl(VarDecl {
        kind: VarKind::Const,
        decls: vec![VarDeclarator {
            name: BindingPat::Ident(name.to_string()),
            init: Some(Expr::FnExpr(FnExpr { name: None, func: plain_function(true) })),
        }],
    })
}

fn undici_class(method_names: Vec<&str>) -> Stmt {
    Stmt::ClassDecl(ClassDecl {
        name: "Undici".to_string(),
        members: method_names
            .into_iter()
            .map(|m| {
                ClassMember::Method(ClassMethod {
                    key: PropKey::Ident(m.to_string()),
                    func: plain_function(true),
                })
            })
            .collect(),
    })
}

fn undici_class_with_ctor() -> Stmt {
    Stmt::ClassDecl(ClassDecl {
        name: "Undici".to_string(),
        members: vec![ClassMember::Ctor(Constructor {
            params: vec![BindingPat::Ident("opts".to_string())],
            body: Some(body_returning_one()),
        })],
    })
}

fn visitor_for(configs: Vec<InstrumentationConfig>) -> orchestrion_js::InstrumentationVisitor {
    let instrumentor = Instrumentor::new(Config::new(configs, None));
    instrumentor.get_matching_instrumentations(MODULE_NAME, "0.0.1", MODULE_PATH)
}

fn single(channel: &str, query: FunctionQuery) -> orchestrion_js::InstrumentationVisitor {
    visitor_for(vec![InstrumentationConfig::new(channel, matcher(), query)])
}

/// Whether some function declaration in the list carries a wrapped body.
fn decl_is_wrapped(s: &Stmt) -> bool {
    match s {
        Stmt::FnDecl(fd) => fd.func.body.as_ref().map_or(false, |b| b.len() == 4),
        _ => false,
    }
}

#[test]
fn arguments_mutation() {
    let mut v = visitor_for(vec![
        InstrumentationConfig::new(
            "fetch_simple",
            matcher(),
            FunctionQuery::function_declaration("fetch_simple", FunctionKind::Sync),
        ),
        InstrumentationConfig::new(
            "fetch_complex",
            matcher(),
            FunctionQuery::function_declaration("fetch_complex", FunctionKind::Sync),
        ),
    ]);
    let program = Program {
        kind: ProgramKind::Script,
        body: vec![decl("fetch_simple", false), decl("fetch_complex", false)],
    };
    let out = v.transform(program).unwrap();
    assert!(decl_is_wrapped(&out.body[3]));
    assert!(decl_is_wrapped(&out.body[4]));
}

#[test]
fn class_method_cjs() {
    let mut v = single(
        "Undici_fetch",
        FunctionQuery::class_method("Undici", "fetch", FunctionKind::Async),
    );
    let program = Program { kind: ProgramKind::Script, body: vec![undici_class(vec!["fetch"])] };
    let out = v.transform(program).unwrap();
    match &out.body[2] {
        Stmt::ClassDecl(cd) => match &cd.members[0] {
            ClassMember::Method(m) => assert_eq!(m.func.body.as_ref().unwrap().len(), 4),
            other => panic!("unexpected member {:?}", other),
        },
        other => panic!("expected the class, got {:?}", other),
    }
}

#[test]
fn constructor_cjs() {
    let mut v = single("Undici_constructor", FunctionQuery::class_constructor("Undici"));
    let program = Program { kind: ProgramKind::Script, body: vec![undici_class_with_ctor()] };
    let out = v.transform(program).unwrap();
    match &out.body[2] {
        Stmt::ClassDecl(cd) => match &cd.members[0] {
            ClassMember::Ctor(c) => {
                let body = c.body.as_ref().unwrap();
                assert_eq!(body.len(), 2);
                assert!(matches!(&body[1], Stmt::Try { .. }));
            },
            other => panic!("unexpected member {:?}", other),
        },
        other => panic!("expected the class, got {:?}", other),
    }
}

#[test]
fn constructor_mjs() {
    let mut v = single("Undici_constructor", FunctionQuery::class_constructor("Undici"));
    let program = Program { kind: ProgramKind::Module, body: vec![undici_class_with_ctor()] };
    let out = v.transform(program).unwrap();
    assert!(matches!(&out.body[0], Stmt::ImportNamed { .. }));
    match &out.body[2] {
        Stmt::ClassDecl(cd) => match &cd.members[0] {
            ClassMember::Ctor(c) => assert!(matches!(
                &c.body.as_ref().unwrap()[1],
                Stmt::Try { .. }
            )),
            other => panic!("unexpected member {:?}", other),
        },
        other => panic!("expected the class, got {:?}", other),
    }
}

#[test]
fn decl_cjs() {
    let mut v = single(
        "fetch_decl",
        FunctionQuery::function_declaration("fetch", FunctionKind::Async),
    );
    let program = Program { kind: ProgramKind::Script, body: vec![decl("fetch", true)] };
    let out = v.transform(program).unwrap();
    assert!(matches!(&out.body[0], Stmt::RequireNamed { .. }));
    assert!(decl_is_wrapped(&out.body[2]));
}

#[test]
fn decl_mjs() {
    let config = InstrumentationConfig::new(
        "fetch_decl",
        ModuleMatcher::new("undici", ">=0.0.1", "index.mjs").unwrap(),
        FunctionQuery::function_declaration("fetch", FunctionKind::Async),
    );
    let instrumentor = Instrumentor::new(Config::new_single(config));
    let mut v = instrumentor.get_matching_instrumentations("undici", "0.0.1", "index.mjs");
    let program = Program { kind: ProgramKind::Module, body: vec![decl("fetch", true)] };
    let out = v.transform(program).unwrap();
    assert!(matches!(&out.body[0], Stmt::ImportNamed { .. }));
    assert!(decl_is_wrapped(&out.body[2]));
}

#[test]
fn decl_mjs_mismatched_type() {
    // an async query still wraps a declaration whose own flags differ: the
    // query kind names the calling convention, not the function's shape
    let mut v = single(
        "fetch_decl",
        FunctionQuery::function_declaration("fetch", FunctionKind::Async),
    );
    let program = Program { kind: ProgramKind::Module, body: vec![decl("fetch", false)] };
    let out = v.transform(program).unwrap();
    assert!(decl_is_wrapped(&out.body[2]));
}

#[test]
fn expr_cjs() {
    let mut v = single(
        "fetch_expr",
        FunctionQuery::function_expression("fetch", FunctionKind::Async),
    );
    let program = Program { kind: ProgramKind::Script, body: vec![expr_binding("fetch")] };
    let out = v.transform(program).unwrap();
    match &out.body[2] {
        Stmt::VarDecl(vd) => match &vd.decls[0].init {
            Some(Expr::FnExpr(fe)) => assert_eq!(fe.func.body.as_ref().unwrap().len(), 4),
            other => panic!("expected the wrapped expression, got {:?}", other),
        },
        other => panic!("expected the binding, got {:?}", other),
    }
}

#[test]
fn expr_mjs() {
    let mut v = single(
        "fetch_expr",
        FunctionQuery::function_expression("fetch", FunctionKind::Async),
    );
    let program = Program { kind: ProgramKind::Module, body: vec![expr_binding("fetch")] };
    let out = v.transform(program).unwrap();
    match &out.body[2] {
        Stmt::VarDecl(vd) => match &vd.decls[0].init {
            Some(Expr::FnExpr(fe)) => assert_eq!(fe.func.body.as_ref().unwrap().len(), 4),
            other => panic!("expected the wrapped expression, got {:?}", other),
        },
        other => panic!("expected the binding, got {:?}", other),
    }
}

#[test]
fn index_cjs() {
    let mut v = single(
        "Undici_fetch",
        FunctionQuery::ClassMethod {
            class_name: "Undici".to_string(),
            method_name: "fetch".to_string(),
            kind: FunctionKind::Async,
            index: 2,
        },
    );
    let program = Program {
        kind: ProgramKind::Script,
        body: vec![undici_class(vec!["fetch", "fetch", "fetch"])],
    };
    let out = v.transform(program).unwrap();
    match &out.body[2] {
        Stmt::ClassDecl(cd) => {
            for (i, m) in cd.members.iter().enumerate() {
                match m {
                    ClassMember::Method(cm) => {
                        let wrapped = cm.func.body.as_ref().unwrap().len() == 4;
                        assert_eq!(wrapped, i == 2);
                    },
                    other => panic!("unexpected member {:?}", other),
                }
            }
        },
        other => panic!("expected the class, got {:?}", other),
    }
}

#[test]
fn injection_failure() {
    let mut v = single(
        "some_expr",
        FunctionQuery::function_expression("some", FunctionKind::Async),
    );
    let program = Program { kind: ProgramKind::Module, body: vec![decl("fetch", true)] };
    match v.transform(program) {
        Err(OrchestrionError::InjectionMatchFailure(names)) => {
            assert_eq!(names, vec!["some".to_string()]);
        },
        Ok(_) => panic!("the transform must report the missed injection"),
    }
}

#[test]
fn multiple_class_method_cjs() {
    let mut v = visitor_for(vec![
        InstrumentationConfig::new(
            "Undici_fetch1",
            matcher(),
            FunctionQuery::class_method("Undici", "fetch1", FunctionKind::Async),
        ),
        InstrumentationConfig::new(
            "Undici_fetch2",
            matcher(),
            FunctionQuery::class_method("Undici", "fetch2", FunctionKind::Async),
        ),
    ]);
    let program = Program {
        kind: ProgramKind::Script,
        body: vec![undici_class(vec!["fetch1", "fetch2"])],
    };
    let out = v.transform(program).unwrap();
    match &out.body[3] {
        Stmt::ClassDecl(cd) => {
            for m in cd.members.iter() {
                match m {
                    ClassMember::Method(cm) => {
                        assert_eq!(cm.func.body.as_ref().unwrap().len(), 4)
                    },
                    other => panic!("unexpected member {:?}", other),
                }
            }
        },
        other => panic!("expected the class, got {:?}", other),
    }
}

#[test]
fn multiple_load_cjs() {
    // one visitor transforms two programs in a row; counters and success
    // flags reset in between
    let mut v = single(
        "Undici_fetch",
        FunctionQuery::class_method("Undici", "fetch", FunctionKind::Async),
    );
    let first = Program { kind: ProgramKind::Script, body: vec![undici_class(vec!["fetch"])] };
    assert!(v.transform(first).is_ok());
    let second = Program { kind: ProgramKind::Script, body: vec![undici_class(vec!["fetch"])] };
    assert!(v.transform(second).is_ok());
}

#[test]
fn nested_fn() {
    let mut v = single(
        "nested_fn",
        FunctionQuery::function_declaration("addHook", FunctionKind::Sync),
    );
    let inner = decl("addHook", false);
    let outer = Stmt::FnDecl(FnDecl {
        name: "outer".to_string(),
        func: Function {
            is_async: false,
            is_generator: false,
            params: vec![],
            body: Some(vec![inner]),
        },
    });
    let program = Program { kind: ProgramKind::Script, body: vec![outer] };
    let out = v.transform(program).unwrap();
    match &out.body[2] {
        Stmt::FnDecl(fd) => match &fd.func.body.as_ref().unwrap()[0] {
            Stmt::FnDecl(nested) => assert_eq!(nested.func.body.as_ref().unwrap().len(), 4),
            other => panic!("expected the nested declaration, got {:?}", other),
        },
        other => panic!("expected the outer declaration, got {:?}", other),
    }
}

#[test]
fn object_method_cjs() {
    let mut v = single(
        "Undici_fetch",
        FunctionQuery::object_method("fetch", FunctionKind::Async),
    );
    let object = Stmt::VarDecl(VarDecl {
        kind: VarKind::Const,
        decls: vec![VarDeclarator {
            name: BindingPat::Ident("api".to_string()),
            init: Some(Expr::Object(vec![Prop::Method(MethodProp {
                key: PropKey::Ident("fetch".to_string()),
                func: plain_function(true),
            })])),
        }],
    });
    let program = Program { kind: ProgramKind::Script, body: vec![object] };
    let out = v.transform(program).unwrap();
    match &out.body[2] {
        Stmt::VarDecl(vd) => match &vd.decls[0].init {
            Some(Expr::Object(props)) => match &props[0] {
                Prop::Method(mp) => assert_eq!(mp.func.body.as_ref().unwrap().len(), 4),
                other => panic!("expected the method, got {:?}", other),
            },
            other => panic!("expected the object, got {:?}", other),
        },
        other => panic!("expected the binding, got {:?}", other),
    }
}

#[test]
fn polyfill_cjs() {
    let configs = vec![InstrumentationConfig::new(
        "fetch_decl",
        matcher(),
        FunctionQuery::function_declaration("fetch", FunctionKind::Async),
    )];
    let instrumentor = Instrumentor::new(Config::new(
        configs,
        Some("./polyfill.js".to_string()),
    ));
    let mut v = instrumentor.get_matching_instrumentations(MODULE_NAME, "0.0.1", MODULE_PATH);
    let program = Program { kind: ProgramKind::Script, body: vec![decl("fetch", true)] };
    let out = v.transform(program).unwrap();
    match &out.body[0] {
        Stmt::RequireNamed { src, .. } => assert_eq!(src, "./polyfill.js"),
        other => panic!("expected the require, got {:?}", other),
    }
}

#[test]
fn polyfill_mjs() {
    let configs = vec![InstrumentationConfig::new(
        "fetch_decl",
        matcher(),
        FunctionQuery::function_declaration("fetch", FunctionKind::Async),
    )];
    let instrumentor = Instrumentor::new(Config::new(
        configs,
        Some("./polyfill.js".to_string()),
    ));
    let mut v = instrumentor.get_matching_instrumentations(MODULE_NAME, "0.0.1", MODULE_PATH);
    let program = Program { kind: ProgramKind::Module, body: vec![decl("fetch", true)] };
    let out = v.transform(program).unwrap();
    match &out.body[0] {
        Stmt::ImportNamed { src, .. } => assert_eq!(src, "./polyfill.js"),
        other => panic!("expected the import, got {:?}", other),
    }
}
