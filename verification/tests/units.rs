use orchestrion_js::ast::{
    AssignExpr, AssignTarget, Expr, FnDecl, FnExpr, Function, Program, ProgramKind, Stmt,
};
use orchestrion_js::{
    get_script_start_index, Config, FunctionKind, FunctionQuery, Instrumentation, Instrumentor,
    InstrumentationConfig, ModuleMatcher, OrchestrionError,
};

fn unit_matcher() -> ModuleMatcher {
    ModuleMatcher::new("undici", ">=1.2.3 <2", "lib/fetch.js").unwrap()
}

#[test]
fn sanitized_identifier() {
    let config = InstrumentationConfig::new(
        "http.client:request-start",
        unit_matcher(),
        FunctionQuery::function_declaration("request", FunctionKind::Sync),
    );
    assert_eq!(config.get_identifier_name(), "http_client_request_start");
}

#[test]
fn sanitized_identifier_keeps_alphanumerics() {
    let config = InstrumentationConfig::new(
        "Fetch2x",
        unit_matcher(),
        FunctionQuery::function_declaration("f", FunctionKind::Sync),
    );
    assert_eq!(config.get_identifier_name(), "Fetch2x");
}

#[test]
fn module_matcher_rejects_bad_range() {
    assert!(ModuleMatcher::new("undici", "not a range (", "index.mjs").is_err());
}

#[test]
fn module_matcher_semver() {
    let m = unit_matcher();
    assert!(m.matches("undici", "1.2.3", "lib/fetch.js"));
    assert!(m.matches("undici", "1.9.0", "lib/fetch.js"));
    assert!(!m.matches("undici", "2.0.0", "lib/fetch.js"));
    assert!(!m.matches("undici", "1.0.0", "lib/fetch.js"));
    // a version that does not parse never matches and raises nothing
    assert!(!m.matches("undici", "abc", "lib/fetch.js"));
    assert!(!m.matches("express", "1.2.3", "lib/fetch.js"));
    assert!(!m.matches("undici", "1.2.3", "lib/other.js"));
}

#[test]
fn tracing_operators() {
    assert_eq!(FunctionKind::Sync.tracing_operator(), "traceSync");
    assert_eq!(FunctionKind::Async.tracing_operator(), "tracePromise");
    assert_eq!(FunctionKind::Callback.tracing_operator(), "traceCallback");
    assert!(FunctionKind::Async.is_async());
    assert!(!FunctionKind::Sync.is_async());
    assert!(!FunctionKind::Callback.is_async());
}

#[test]
fn query_ordinal_counting() {
    let q = FunctionQuery::FunctionDeclaration {
        function_name: "fetch".to_string(),
        kind: FunctionKind::Sync,
        index: 1,
    };
    let fd = FnDecl {
        name: "fetch".to_string(),
        func: Function { is_async: false, is_generator: false, params: vec![], body: Some(vec![]) },
    };
    let mut count: usize = 0;
    // the first candidate misses and bumps the ordinal
    assert!(!q.matches_decl(&fd, &mut count));
    assert_eq!(count, 1);
    // the second candidate is the wanted one and leaves the ordinal alone
    assert!(q.matches_decl(&fd, &mut count));
    assert_eq!(count, 1);
    // a name mismatch touches nothing
    let other = FnDecl {
        name: "push".to_string(),
        func: Function { is_async: false, is_generator: false, params: vec![], body: Some(vec![]) },
    };
    assert!(!q.matches_decl(&other, &mut count));
    assert_eq!(count, 1);
}

#[test]
fn query_expr_and_method_matching() {
    let q = FunctionQuery::function_expression("fetch", FunctionKind::Async);
    let mut count: usize = 0;
    assert!(q.matches_expr(&mut count, "fetch"));
    assert!(!q.matches_method(&mut count, "fetch"));
    let m = FunctionQuery::object_method("fetch", FunctionKind::Async);
    let mut count2: usize = 0;
    assert!(m.matches_method(&mut count2, "fetch"));
    assert!(!m.matches_expr(&mut count2, "fetch"));
}

#[test]
fn constructor_query_name() {
    let q = FunctionQuery::class_constructor("Undici");
    assert_eq!(q.name(), "constructor");
    assert_eq!(q.class_name(), Some("Undici"));
    assert_eq!(q.index(), 0);
}

#[test]
fn script_start_index_honors_directive() {
    let with_directive = vec![
        Stmt::Expr(Expr::Str("use strict".to_string())),
        Stmt::Return(None),
    ];
    assert_eq!(get_script_start_index(&with_directive), 1);
    let without = vec![Stmt::Return(None)];
    assert_eq!(get_script_start_index(&without), 0);
    let empty: Vec<Stmt> = vec![];
    assert_eq!(get_script_start_index(&empty), 0);
    let other_literal = vec![Stmt::Expr(Expr::Str("use asm".to_string()))];
    assert_eq!(get_script_start_index(&other_literal), 0);
}

#[test]
fn instrumentation_tracks_injection() {
    let config = InstrumentationConfig::new(
        "fetch_decl",
        unit_matcher(),
        FunctionQuery::function_declaration("fetch", FunctionKind::Sync),
    );
    let mut instr = Instrumentation::new(config);
    assert!(!instr.has_injected());
    let mut node = FnDecl {
        name: "fetch".to_string(),
        func: Function {
            is_async: false,
            is_generator: false,
            params: vec![],
            body: Some(vec![Stmt::Return(None)]),
        },
    };
    assert!(instr.visit_mut_fn_decl(&mut node));
    assert!(instr.has_injected());
    assert_eq!(node.func.body.as_ref().unwrap().len(), 4);
}

#[test]
fn module_version_lands_in_context() {
    let config = InstrumentationConfig::new(
        "fetch_decl",
        unit_matcher(),
        FunctionQuery::function_declaration("fetch", FunctionKind::Sync),
    );
    let mut instr = Instrumentation::new(config);
    instr.set_module_version("1.2.3");
    let mut node = FnDecl {
        name: "fetch".to_string(),
        func: Function {
            is_async: false,
            is_generator: false,
            params: vec![],
            body: Some(vec![Stmt::Return(None)]),
        },
    };
    instr.visit_mut_fn_decl(&mut node);
    match &node.func.body.as_ref().unwrap()[3] {
        Stmt::Return(Some(Expr::Call { args, .. })) => match &args[1] {
            Expr::Object(props) => assert_eq!(props.len(), 3),
            other => panic!("expected the context object, got {:?}", other),
        },
        other => panic!("expected the operator call, got {:?}", other),
    }
}

#[test]
fn assignment_name_inference() {
    let mut instr = Instrumentation::new(InstrumentationConfig::new(
        "fetch_assign",
        unit_matcher(),
        FunctionQuery::function_expression("fetch", FunctionKind::Sync),
    ));
    let mut node = AssignExpr {
        target: AssignTarget::Member {
            obj: Box::new(Expr::Ident("globalThis".to_string())),
            prop: orchestrion_js::ast::PropKey::Ident("fetch".to_string()),
        },
        right: Box::new(Expr::FnExpr(FnExpr {
            name: None,
            func: Function {
                is_async: false,
                is_generator: false,
                params: vec![],
                body: Some(vec![Stmt::Return(None)]),
            },
        })),
    };
    // a wrapped assignment reports "skip the children"
    assert!(!instr.visit_mut_assign_expr(&mut node));
    match &*node.right {
        Expr::FnExpr(fe) => assert_eq!(fe.func.body.as_ref().unwrap().len(), 4),
        other => panic!("expected the wrapped expression, got {:?}", other),
    }
}

#[test]
fn failure_list_keeps_configuration_order() {
    let m = || ModuleMatcher::new("undici", "*", "index.mjs").unwrap();
    let configs = vec![
        InstrumentationConfig::new(
            "a",
            m(),
            FunctionQuery::function_declaration("alpha", FunctionKind::Sync),
        ),
        InstrumentationConfig::new(
            "b",
            m(),
            FunctionQuery::function_declaration("beta", FunctionKind::Sync),
        ),
    ];
    let instrumentor = Instrumentor::new(Config::new(configs, None));
    let mut v = instrumentor.get_matching_instrumentations("undici", "3.2.1", "index.mjs");
    let program = Program { kind: ProgramKind::Module, body: vec![] };
    match v.transform(program) {
        Err(OrchestrionError::InjectionMatchFailure(names)) => {
            assert_eq!(names, vec!["alpha".to_string(), "beta".to_string()]);
        },
        Ok(_) => panic!("neither query can match an empty program"),
    }
}

#[test]
fn no_selection_leaves_program_untouched() {
    let config = InstrumentationConfig::new(
        "fetch_decl",
        unit_matcher(),
        FunctionQuery::function_declaration("fetch", FunctionKind::Sync),
    );
    let instrumentor = Instrumentor::new(Config::new_single(config));
    // the path differs, so nothing is selected
    let mut v = instrumentor.get_matching_instrumentations("undici", "1.2.3", "lib/other.js");
    assert!(!v.has_instrumentations());
    let program = Program {
        kind: ProgramKind::Module,
        body: vec![Stmt::Return(Some(Expr::Str("untouched".to_string())))],
    };
    let out = v.transform(program).unwrap();
    assert_eq!(
        out,
        Program {
            kind: ProgramKind::Module,
            body: vec![Stmt::Return(Some(Expr::Str("untouched".to_string())))],
        }
    );
}

#[test]
fn failed_queries_accessor() {
    let e = OrchestrionError::InjectionMatchFailure(vec!["fetch".to_string()]);
    assert_eq!(e.failed_queries(), &vec!["fetch".to_string()]);
}

#[test]
fn class_scope_is_coarse() {
    // the class-scope flag is set on every class entry and left as the most
    // recently entered class set it, so a class expression nested inside a
    // method body steals the scope from the methods that follow it
    let m = ModuleMatcher::new("undici", "*", "index.mjs").unwrap();
    let config = InstrumentationConfig::new(
        "Undici_fetch",
        m,
        FunctionQuery::ClassMethod {
            class_name: "Undici".to_string(),
            method_name: "fetch".to_string(),
            kind: FunctionKind::Async,
            index: 1,
        },
    );
    let instrumentor = Instrumentor::new(Config::new_single(config));
    let mut v = instrumentor.get_matching_instrumentations("undici", "1.0.0", "index.mjs");
    let nested_class = orchestrion_js::ast::Stmt::Expr(Expr::Class(
        orchestrion_js::ast::ClassExpr { name: Some("Helper".to_string()), members: vec![] },
    ));
    let method = |body: Vec<Stmt>| {
        orchestrion_js::ast::ClassMember::Method(orchestrion_js::ast::ClassMethod {
            key: orchestrion_js::ast::PropKey::Ident("fetch".to_string()),
            func: Function {
                is_async: true,
                is_generator: false,
                params: vec![],
                body: Some(body),
            },
        })
    };
    let class = orchestrion_js::ast::Stmt::ClassDecl(orchestrion_js::ast::ClassDecl {
        name: "Undici".to_string(),
        members: vec![method(vec![nested_class]), method(vec![Stmt::Return(None)])],
    });
    let program = Program { kind: ProgramKind::Module, body: vec![class] };
    // the second `fetch` is never counted: after the nested class expression
    // the scope flag no longer names `Undici`, so the ordinal-1 query misses
    match v.transform(program) {
        Err(OrchestrionError::InjectionMatchFailure(names)) => {
            assert_eq!(names, vec!["fetch".to_string()]);
        },
        Ok(_) => panic!("the coarse scope must make the ordinal-1 query miss"),
    }
}
