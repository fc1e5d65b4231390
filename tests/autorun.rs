use react_autorun::ast::{
    default_autorun_symbol, Block, Declarator, ExportName, Expr, Ident, ImportDecl,
    ImportSpecifier, MemberProp, Module, ModuleItem, Pat, Stmt,
};
use react_autorun::deps::{extract_deps, member_prop_to_path};
use react_autorun::keys::IdentKeySet;
use react_autorun::rewrite::{process_transform, AutorunTransformer};

const TOP: u32 = 1;
const COMPONENT: u32 = 2;
const CALLBACK: u32 = 3;

fn id(s: &str, ctxt: u32) -> Ident {
    Ident { sym: s.to_string(), ctxt }
}

fn ident(s: &str, ctxt: u32) -> Expr {
    Expr::Ident(id(s, ctxt))
}

fn member(o: Expr, name: &str) -> Expr {
    Expr::Member(Box::new(o), MemberProp::Named(name.to_string()))
}

fn index(o: Expr, e: Expr) -> Expr {
    Expr::Member(Box::new(o), MemberProp::Computed(Box::new(e)))
}

fn call(c: Expr, args: Vec<Expr>) -> Expr {
    Expr::Call(Box::new(c), args)
}

fn callback(stmts: Vec<Stmt>) -> Expr {
    Expr::Func(vec![], Block { ctxt: CALLBACK, stmts })
}

fn import(src: &str, specs: Vec<ImportSpecifier>) -> ModuleItem {
    ModuleItem::Import(ImportDecl { src: src.to_string(), specifiers: specs })
}

fn named(local: &str, imported: Option<&str>) -> ImportSpecifier {
    ImportSpecifier::Named(id(local, TOP), imported.map(|s| ExportName::Ident(s.to_string())))
}

fn use_hook(pat: Pat, hook: &str) -> Stmt {
    Stmt::Var(vec![Declarator {
        name: pat,
        init: Some(call(ident(hook, TOP), vec![Expr::Num("0".to_string())])),
    }])
}

fn pair(a: &str, b: &str) -> Pat {
    Pat::Array(vec![Pat::Ident(id(a, COMPONENT)), Pat::Ident(id(b, COMPONENT))])
}

/// `function Component() { ...body }` after the given imports.
fn module(imports: Vec<ModuleItem>, body: Vec<Stmt>) -> Module {
    let mut items = imports;
    items.push(ModuleItem::Stmt(Stmt::Other(vec![], vec![Stmt::Block(Block { ctxt: COMPONENT, stmts: body })])));
    Module { body: items }
}

fn autorun_imports() -> Vec<ModuleItem> {
    vec![
        import("react", vec![named("useState", None), named("useReducer", None), named("useRef", None)]),
        import("react-autorun", vec![named("autorun", None)]),
    ]
}

fn autorun_stmt(cb: Expr, name: &str) -> Stmt {
    Stmt::Expr(call(ident(name, TOP), vec![cb, ident(name, TOP)]))
}

fn component_body(m: &Module) -> &Vec<Stmt> {
    match m.body.last() {
        Some(ModuleItem::Stmt(Stmt::Other(_, ss))) => match &ss[0] {
            Stmt::Block(b) => &b.stmts,
            _ => panic!("no component block"),
        },
        _ => panic!("no component"),
    }
}

/// The paths in the thunk that replaced the second argument of the call in
/// the statement `stmt` of the component, or `None` if it was not replaced.
fn thunk_paths(m: &Module, stmt: usize) -> Option<Vec<String>> {
    match &component_body(m)[stmt] {
        Stmt::Expr(Expr::Call(_, args)) => match &args[1] {
            Expr::Arrow(ps, body) => {
                assert!(ps.is_empty());
                match &**body {
                    Expr::Array(es) => Some(
                        es.iter()
                            .map(|e| match e {
                                Expr::Ident(i) => i.sym.clone(),
                                _ => panic!("not a reference"),
                            })
                            .collect(),
                    ),
                    _ => panic!("not an array"),
                }
            },
            _ => None,
        },
        _ => panic!("not a call statement"),
    }
}

fn state_module() -> Module {
    module(
        autorun_imports(),
        vec![
            use_hook(pair("x", "setX"), "useState"),
            autorun_stmt(
                callback(vec![Stmt::Expr(call(
                    ident("setX", COMPONENT),
                    vec![Expr::Other(vec![ident("x", COMPONENT), Expr::Num("1".to_string())])],
                ))]),
                "autorun",
            ),
        ],
    )
}

#[test]
fn state_setter_is_not_a_dependency() {
    let out = process_transform(state_module());
    assert_eq!(thunk_paths(&out, 1), Some(vec!["x".to_string()]));
}

#[test]
fn callee_chain_records_receiver_first() {
    let cb = callback(vec![Stmt::Expr(call(member(member(ident("a", COMPONENT), "b"), "c"), vec![]))]);
    let out = process_transform(module(autorun_imports(), vec![autorun_stmt(cb, "autorun")]));
    assert_eq!(thunk_paths(&out, 0), Some(vec!["a?.b".to_string(), "a?.b?.c".to_string()]));
}

#[test]
fn computed_indices_are_verbatim() {
    assert_eq!(member_prop_to_path(&MemberProp::Computed(Box::new(Expr::Num("0".to_string())))), "?.[0]");
    assert_eq!(member_prop_to_path(&MemberProp::Computed(Box::new(Expr::Str("k".to_string())))), "?.[\"k\"]");
    assert_eq!(member_prop_to_path(&MemberProp::Computed(Box::new(ident("i", COMPONENT)))), "?.[i]");
    assert_eq!(member_prop_to_path(&MemberProp::Named("b".to_string())), "?.b");
    assert_eq!(member_prop_to_path(&MemberProp::Private("p".to_string())), "?.");
    assert_eq!(member_prop_to_path(&MemberProp::Computed(Box::new(Expr::Other(vec![])))), "?.[");
}

#[test]
fn computed_indices_in_a_dependency_list() {
    let cb = callback(vec![
        Stmt::Expr(index(ident("a", COMPONENT), Expr::Num("0".to_string()))),
        Stmt::Expr(index(ident("a", COMPONENT), Expr::Str("k".to_string()))),
        Stmt::Expr(index(ident("a", COMPONENT), ident("i", COMPONENT))),
    ]);
    let out = process_transform(module(autorun_imports(), vec![autorun_stmt(cb, "autorun")]));
    assert_eq!(
        thunk_paths(&out, 0),
        Some(vec!["a?.[0]".to_string(), "a?.[\"k\"]".to_string(), "a?.[i]".to_string()])
    );
}

#[test]
fn outside_bindings_are_not_dependencies() {
    let cb = callback(vec![
        Stmt::Expr(ident("moduleLevel", TOP)),
        Stmt::Expr(ident("sibling", 7)),
        Stmt::Expr(member(ident("other", 8), "field")),
        Stmt::Expr(ident("local", COMPONENT)),
    ]);
    let out = process_transform(module(autorun_imports(), vec![autorun_stmt(cb, "autorun")]));
    assert_eq!(thunk_paths(&out, 0), Some(vec!["local".to_string()]));
}

#[test]
fn second_pass_changes_nothing() {
    let once = process_transform(state_module());
    let twice = process_transform(process_transform(state_module()));
    assert_eq!(once, twice);
}

#[test]
fn renamed_import_is_matched() {
    let imports = vec![import("react-autorun", vec![named("run", Some("autorun"))])];
    let cb = callback(vec![Stmt::Expr(ident("y", COMPONENT))]);
    let out = process_transform(module(imports, vec![autorun_stmt(cb, "run")]));
    assert_eq!(thunk_paths(&out, 0), Some(vec!["y".to_string()]));
    match &component_body(&out)[0] {
        Stmt::Expr(Expr::Call(c, _)) => assert_eq!(**c, ident("run", TOP)),
        _ => panic!("not a call"),
    }
}

#[test]
fn module_without_autorun_call_is_unchanged() {
    let build = || {
        module(
            autorun_imports(),
            vec![
                Stmt::Expr(call(ident("autorun", TOP), vec![ident("f", COMPONENT), ident("autorun", TOP)])),
                Stmt::Expr(call(ident("other", TOP), vec![callback(vec![]), ident("other", TOP)])),
                Stmt::Expr(call(ident("autorun", TOP), vec![callback(vec![])])),
            ],
        )
    };
    assert_eq!(process_transform(build()), build());
}

#[test]
fn rewritten_second_argument_is_no_identifier() {
    let out = process_transform(state_module());
    match &component_body(&out)[1] {
        Stmt::Expr(Expr::Call(_, args)) => {
            assert_eq!(args.len(), 2);
            assert!(!matches!(args[1], Expr::Ident(_)));
            assert!(matches!(args[0], Expr::Func(_, _)));
        },
        _ => panic!("not a call"),
    }
}

#[test]
fn empty_dependency_list_gives_empty_thunk() {
    let out = process_transform(module(autorun_imports(), vec![autorun_stmt(callback(vec![]), "autorun")]));
    assert_eq!(thunk_paths(&out, 0), Some(vec![]));
}

#[test]
fn unimported_autorun_is_left_alone() {
    let cb = callback(vec![Stmt::Expr(ident("x", COMPONENT))]);
    let out = process_transform(module(vec![], vec![autorun_stmt(cb, "autorun")]));
    assert_eq!(thunk_paths(&out, 0), None);
}

#[test]
fn import_from_other_module_is_ignored() {
    let imports = vec![import("other-autorun", vec![named("autorun", None)])];
    let cb = callback(vec![Stmt::Expr(ident("x", COMPONENT))]);
    let out = process_transform(module(imports, vec![autorun_stmt(cb, "autorun")]));
    assert_eq!(thunk_paths(&out, 0), None);
}

#[test]
fn string_export_name_is_resolved() {
    let spec = ImportSpecifier::Named(id("run", TOP), Some(ExportName::Str("autorun".to_string())));
    let cb = callback(vec![Stmt::Expr(ident("x", COMPONENT))]);
    let out = process_transform(module(vec![import("react-autorun", vec![spec])], vec![autorun_stmt(cb, "run")]));
    assert_eq!(thunk_paths(&out, 0), Some(vec!["x".to_string()]));
}

#[test]
fn unaliased_specifier_uses_its_local_name() {
    let spec = ImportSpecifier::Named(id("run", TOP), None);
    let cb = callback(vec![Stmt::Expr(ident("x", COMPONENT))]);
    let out = process_transform(module(vec![import("react-autorun", vec![spec])], vec![autorun_stmt(cb, "run")]));
    assert_eq!(thunk_paths(&out, 0), None);
}

#[test]
fn callee_identifier_is_a_dependency() {
    let cb = callback(vec![Stmt::Expr(call(ident("f", COMPONENT), vec![ident("y", COMPONENT)]))]);
    let out = process_transform(module(autorun_imports(), vec![autorun_stmt(cb, "autorun")]));
    assert_eq!(thunk_paths(&out, 0), Some(vec!["f".to_string(), "y".to_string()]));
}

#[test]
fn nested_hook_declarations_are_ignored() {
    let nested = Stmt::Other(
        vec![ident("cond", COMPONENT)],
        vec![Stmt::Block(Block { ctxt: 9, stmts: vec![use_hook(pair("n", "setN"), "useState")] })],
    );
    let cb = callback(vec![Stmt::Expr(ident("setN", COMPONENT)), Stmt::Expr(ident("n", COMPONENT))]);
    let out = process_transform(module(autorun_imports(), vec![nested, autorun_stmt(cb, "autorun")]));
    assert_eq!(thunk_paths(&out, 1), Some(vec!["n".to_string()]));
}

#[test]
fn ref_handle_is_never_a_dependency() {
    let cb = callback(vec![
        Stmt::Expr(member(ident("ref", COMPONENT), "current")),
        Stmt::Expr(ident("ref", COMPONENT)),
        Stmt::Expr(ident("state", COMPONENT)),
    ]);
    let body = vec![
        use_hook(Pat::Ident(id("ref", COMPONENT)), "useRef"),
        use_hook(pair("state", "dispatch"), "useReducer"),
        autorun_stmt(cb, "autorun"),
    ];
    let out = process_transform(module(autorun_imports(), body));
    assert_eq!(thunk_paths(&out, 2), Some(vec!["state".to_string()]));
}

#[test]
fn reducer_dispatch_is_not_a_dependency() {
    let cb = callback(vec![Stmt::Expr(call(ident("dispatch", COMPONENT), vec![ident("state", COMPONENT)]))]);
    let body = vec![use_hook(pair("state", "dispatch"), "useReducer"), autorun_stmt(cb, "autorun")];
    let out = process_transform(module(autorun_imports(), body));
    assert_eq!(thunk_paths(&out, 1), Some(vec!["state".to_string()]));
}

#[test]
fn repeated_reads_are_listed_once_in_first_order() {
    let cb = callback(vec![
        Stmt::Expr(ident("b", COMPONENT)),
        Stmt::Expr(ident("a", COMPONENT)),
        Stmt::Expr(ident("b", COMPONENT)),
        Stmt::Expr(member(ident("a", COMPONENT), "x")),
        Stmt::Expr(member(ident("a", COMPONENT), "x")),
    ]);
    let out = process_transform(module(autorun_imports(), vec![autorun_stmt(cb, "autorun")]));
    assert_eq!(
        thunk_paths(&out, 0),
        Some(vec!["b".to_string(), "a".to_string(), "a?.x".to_string()])
    );
}

#[test]
fn too_few_arguments_or_no_callback_is_skipped() {
    let body = vec![
        Stmt::Expr(call(ident("autorun", TOP), vec![callback(vec![])])),
        Stmt::Expr(call(ident("autorun", TOP), vec![ident("f", COMPONENT), ident("autorun", TOP)])),
        Stmt::Expr(call(ident("autorun", TOP), vec![callback(vec![]), member(ident("autorun", TOP), "x")])),
    ];
    let out = process_transform(module(autorun_imports(), body));
    match &component_body(&out)[0] {
        Stmt::Expr(Expr::Call(_, args)) => assert_eq!(args.len(), 1),
        _ => panic!("not a call"),
    }
    assert_eq!(thunk_paths(&out, 1), None);
    match &component_body(&out)[2] {
        Stmt::Expr(Expr::Call(_, args)) => assert!(matches!(args[1], Expr::Member(_, _))),
        _ => panic!("not a call"),
    }
}

#[test]
fn nested_autorun_calls_are_rewritten_independently() {
    let inner_cb = Expr::Func(vec![], Block { ctxt: 4, stmts: vec![Stmt::Expr(ident("v", CALLBACK))] });
    let inner = Stmt::Expr(call(ident("autorun", TOP), vec![inner_cb, ident("autorun", TOP)]));
    let outer_cb = Expr::Func(
        vec![],
        Block {
            ctxt: CALLBACK,
            stmts: vec![Stmt::Var(vec![Declarator { name: Pat::Ident(id("v", CALLBACK)), init: None }]), inner],
        },
    );
    let out = process_transform(module(
        autorun_imports(),
        vec![Stmt::Expr(call(ident("autorun", TOP), vec![outer_cb, ident("autorun", TOP)]))],
    ));
    assert_eq!(thunk_paths(&out, 0), Some(vec![]));
    match &component_body(&out)[0] {
        Stmt::Expr(Expr::Call(_, args)) => match &args[0] {
            Expr::Func(_, b) => match &b.stmts[1] {
                Stmt::Expr(Expr::Call(_, inner_args)) => match &inner_args[1] {
                    Expr::Arrow(_, body) => assert_eq!(**body, Expr::Array(vec![ident("v", 0)])),
                    _ => panic!("inner call not rewritten"),
                },
                _ => panic!("not a call"),
            },
            _ => panic!("not a callback"),
        },
        _ => panic!("not a call"),
    }
}

#[test]
fn arrow_with_expression_body_is_a_callback() {
    let cb = Expr::Arrow(vec![], Box::new(ident("x", COMPONENT)));
    let out = process_transform(module(autorun_imports(), vec![autorun_stmt(cb, "autorun")]));
    assert_eq!(thunk_paths(&out, 0), Some(vec!["x".to_string()]));
}

#[test]
fn configured_autorun_symbol_is_tracked() {
    let mut t = AutorunTransformer::with_autorun_symbol("watch");
    let imports = vec![import("react-autorun", vec![named("watch", None)])];
    let cb = callback(vec![Stmt::Expr(ident("x", COMPONENT))]);
    let mut m = module(imports, vec![autorun_stmt(cb, "watch")]);
    t.visit_mut_module(&mut m);
    assert_eq!(thunk_paths(&m, 0), Some(vec!["x".to_string()]));
}

#[test]
fn default_symbol_is_autorun() {
    assert_eq!(default_autorun_symbol(), "autorun");
    let t = AutorunTransformer::new();
    assert_eq!(t.autorun_imports.export_name, "autorun");
    assert_eq!(t.autorun_imports.module_name, "react-autorun");
}

#[test]
fn extraction_uses_anchor_and_ignored_set() {
    let mut ignored = IdentKeySet::new();
    ignored.insert(&id("hidden", 5));
    let cb = callback(vec![
        Stmt::Expr(ident("hidden", 5)),
        Stmt::Expr(ident("shown", 5)),
        Stmt::Expr(ident("elsewhere", 6)),
    ]);
    assert_eq!(extract_deps(&cb, 5, &ignored), vec!["shown".to_string()]);
}
