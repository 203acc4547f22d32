use snakedown::expr::{Arg, ArgWithDefault, Arguments, Constant, Expr, Operator};
use snakedown::parsing::{
    export_declarations, extract_docstring_from_body, extract_module_documentation, is_private, ClassDef, FunctionDef,
    Mod, Stmt,
};

fn name(id: &str) -> Expr {
    Expr::Name(id.to_string())
}

fn num(digits: &str) -> Expr {
    Expr::Constant(Constant::Int(digits.to_string()))
}

fn string(s: &str) -> Expr {
    Expr::Constant(Constant::Str(s.to_string()))
}

fn doc(s: &str) -> Stmt {
    Stmt::Expr(string(s))
}

fn arg(n: &str, annotation: Option<Expr>, default: Option<Expr>) -> ArgWithDefault {
    ArgWithDefault {
        def: Arg { arg: n.to_string(), annotation: annotation.map(Box::new) },
        default: default.map(Box::new),
    }
}

fn params(names: &[&str]) -> Arguments {
    Arguments {
        posonlyargs: vec![],
        args: names.iter().map(|n| arg(n, None, None)).collect(),
        vararg: None,
        kwonlyargs: vec![],
        kwarg: None,
    }
}

fn def(n: &str, args: Arguments, body: Vec<Stmt>, returns: Option<Expr>) -> FunctionDef {
    FunctionDef { name: n.to_string(), args, body, returns, type_params: vec![] }
}

fn assign(target: &str, value: Expr) -> Stmt {
    Stmt::Assign { targets: vec![name(target)], value }
}

fn call(f: &str, args: Vec<Expr>) -> Expr {
    Expr::Call { func: Box::new(name(f)), args, keywords: vec![] }
}

fn is_odd_body() -> Vec<Stmt> {
    vec![Stmt::Other]
}

fn python_func_no_types() -> Mod {
    Mod::Module(vec![Stmt::FunctionDef(def("is_odd", params(&["i"]), is_odd_body(), None))])
}

fn python_async_func_no_types() -> Mod {
    Mod::Module(vec![Stmt::AsyncFunctionDef(def("is_odd", params(&["i"]), is_odd_body(), None))])
}

const IS_ODD_DOC: &str = "\n    Determine whether a number is odd.\n\n    Returns\n    -------\n    bool: True iff input number is odd\n    ";

fn python_func_docstring() -> Mod {
    Mod::Module(vec![Stmt::FunctionDef(def(
        "is_odd",
        params(&["i"]),
        vec![doc(IS_ODD_DOC), Stmt::Other],
        None,
    ))])
}

fn python_lambda() -> Mod {
    let lambda = Expr::Lambda {
        args: Box::new(params(&["x"])),
        body: Box::new(Expr::BinOp { left: Box::new(name("x")), op: Operator::Mod, right: Box::new(num("2")) }),
    };
    Mod::Module(vec![Stmt::FunctionDef(def(
        "is_odd",
        params(&["i"]),
        vec![assign("inner", lambda), Stmt::Other],
        None,
    ))])
}

fn python_closure() -> Mod {
    let inner = Stmt::FunctionDef(def("inner_func", params(&["i"]), vec![Stmt::Other], None));
    Mod::Module(vec![Stmt::FunctionDef(def("is_odd", params(&["i"]), vec![inner, Stmt::Other], None))])
}

fn python_no_func() -> Mod {
    let lambda = Expr::Lambda {
        args: Box::new(params(&["a", "b"])),
        body: Box::new(Expr::List {
            elts: vec![
                Expr::Starred { value: Box::new(name("a")) },
                Expr::Starred { value: Box::new(name("b")) },
            ],
        }),
    };
    Mod::Module(vec![
        assign("a", num("4")),
        assign("b", Expr::BinOp { left: Box::new(name("a")), op: Operator::Add, right: Box::new(num("6")) }),
        Stmt::Other,
        assign("f", lambda),
    ])
}

fn python_func_with_types() -> Mod {
    Mod::Module(vec![Stmt::FunctionDef(def(
        "is_even",
        Arguments {
            posonlyargs: vec![],
            args: vec![arg("i", Some(name("int")), None)],
            vararg: None,
            kwonlyargs: vec![],
            kwarg: None,
        },
        vec![Stmt::Other],
        Some(name("bool")),
    ))])
}

fn python_func_annotated() -> Mod {
    let dict_type = Expr::Subscript {
        value: Box::new(name("Dict")),
        slice: Box::new(Expr::Tuple { elts: vec![name("Any"), name("str")] }),
    };
    Mod::Module(vec![Stmt::FunctionDef(def(
        "return_none",
        Arguments {
            posonlyargs: vec![],
            args: vec![arg("foo", Some(name("str")), None), arg("bar", None, None)],
            vararg: Some(Box::new(Arg { arg: "args".to_string(), annotation: None })),
            kwonlyargs: vec![arg("unused", Some(dict_type), Some(Expr::Constant(Constant::PyNone)))],
            kwarg: None,
        },
        vec![Stmt::Other],
        Some(Expr::BinOp { left: Box::new(num("4")), op: Operator::Add, right: Box::new(num("9")) }),
    ))])
}

const CLASS_DOC: &str = "\n    this is a class docstring.\n\n    ";

fn python_class() -> Mod {
    let inner = Stmt::FunctionDef(def("inner", params(&[]), vec![Stmt::Expr(call("print", vec![string("this is a closure!")]))], None));
    let greet = Stmt::FunctionDef(def(
        "greet",
        params(&["self"]),
        vec![Stmt::Expr(call("print", vec![string("Hello, world!")])), inner, Stmt::Expr(call("inner", vec![]))],
        None,
    ));
    Mod::Module(vec![Stmt::ClassDef(ClassDef {
        name: "Greeter".to_string(),
        body: vec![doc(CLASS_DOC), assign("class_var", string("whatever")), greet],
    })])
}

fn counts(m: Mod) -> (usize, usize) {
    let documentation = extract_module_documentation(m, None, None, false, false);
    (documentation.functions.len(), documentation.classes.len())
}

#[test]
fn function_parse_doesnt_extract_lambda() {
    assert_eq!(counts(python_lambda()), (1, 0));
}

#[test]
fn function_parse_test_python_async_func() {
    assert_eq!(counts(python_async_func_no_types()), (1, 0));
}

#[test]
fn function_parse_doesnt_extract_closure() {
    assert_eq!(counts(python_closure()), (1, 0));
}

#[test]
fn function_parse_test_python_func_no_types() {
    assert_eq!(counts(python_func_no_types()), (1, 0));
}

#[test]
fn function_parse_test_python_no_func() {
    assert_eq!(counts(python_no_func()), (0, 0));
}

#[test]
fn function_parse_test_python_func_dict_type() {
    assert_eq!(counts(python_func_annotated()), (1, 0));
}

#[test]
fn function_parse_test_python_func_with_types() {
    assert_eq!(counts(python_func_with_types()), (1, 0));
}

#[test]
fn function_parse_test_python_func_docstring() {
    assert_eq!(counts(python_func_docstring()), (1, 0));
}

#[test]
fn function_parse_test_python_function_docstring() {
    let documentation = extract_module_documentation(python_func_docstring(), None, None, false, false);
    let function = documentation.functions.first().unwrap();
    let docstring = function.docstring.clone();
    assert_eq!(
        docstring,
        Some(String::from(
            r"
    Determine whether a number is odd.

    Returns
    -------
    bool: True iff input number is odd
    "
        ))
    );
}

#[test]
fn class_parse_test_python_class() {
    let documentation = extract_module_documentation(python_class(), None, None, false, false);
    assert_eq!(documentation.functions.len(), 0);
    assert_eq!(documentation.classes.len(), 1);
    let class = documentation.classes.first().unwrap();
    assert_eq!(class.methods.len(), 1);
}

#[test]
fn class_parse_test_python_class_docstring() {
    let documentation = extract_module_documentation(python_class(), None, None, false, false);
    let docstring = documentation.classes.first().unwrap().docstring.clone();
    assert_eq!(
        docstring,
        Some(String::from(
            r"
    this is a class docstring.

    "
        ))
    );
}

#[test]
fn utils_parse_empty_string() {
    let documentation = extract_module_documentation(Mod::Module(vec![]), None, None, false, false);
    assert_eq!(documentation.docstring, None);
    assert_eq!(documentation.functions.len(), 0);
    assert_eq!(documentation.classes.len(), 0);
}

#[test]
fn module_test_doc_extraction_interactive_module() {
    let expr = Mod::Expression(Expr::BinOp { left: Box::new(num("1")), op: Operator::Add, right: Box::new(num("2")) });
    let docs = extract_module_documentation(expr, None, None, false, false);
    assert_eq!(docs.docstring, None);
    assert_eq!(docs.functions.len(), 0);
    assert_eq!(docs.classes.len(), 0);
}

fn skip_module() -> Mod {
    let f = |n: &str, body: Vec<Stmt>| Stmt::FunctionDef(def(n, params(&[]), body, None));
    let c = |n: &str, body: Vec<Stmt>| Stmt::ClassDef(ClassDef { name: n.to_string(), body });
    Mod::Module(vec![
        f("foo", vec![doc("asdf"), Stmt::Other]),
        f("_bar", vec![doc("asdf"), Stmt::Other]),
        f("baz", vec![Stmt::Other]),
        c("Cls", vec![doc("normal class")]),
        c("_Cls", vec![doc("normal class")]),
        c("UndocClass", vec![Stmt::Other]),
    ])
}

#[test]
fn test_doc_extraction_skip_undoc_and_private_module() {
    let docs = extract_module_documentation(skip_module(), None, None, true, true);
    assert_eq!(docs.docstring, None);
    assert_eq!(docs.functions.len(), 1);
    assert_eq!(docs.classes.len(), 1);
}

fn all_list(items: Vec<Expr>) -> Stmt {
    assign("__all__", Expr::List { elts: items })
}

#[test]
fn test_doc_extraction_exports() {
    let expr = Mod::Module(vec![
        all_list(vec![string("a"), string("b"), string("c"), string("d"), string("foo"), num("4"), num("5")]),
        assign("a", num("1")),
        assign("b", num("3")),
        Stmt::Assign {
            targets: vec![Expr::Tuple { elts: vec![name("c"), name("d"), name("foo")] }],
            value: Expr::Starred { value: Box::new(name("bar")) },
        },
    ]);
    let docs = extract_module_documentation(expr, None, None, true, true);
    assert_eq!(docs.exports.map(|e| e.len()), Some(5));
}

#[test]
fn test_doc_extraction_multiple_exports() {
    let expr = Mod::Module(vec![
        all_list(vec![string("a")]),
        all_list(vec![string("b")]),
        assign("a", num("1")),
        assign("b", num("3")),
    ]);
    if let Mod::Module(body) = &expr {
        assert_eq!(export_declarations(body), 2);
    }
    let docs = extract_module_documentation(expr, None, None, true, true);
    assert_eq!(docs.exports, Some(vec![String::from("b")]));
}

#[test]
fn test_doc_extraction_export_non_list() {
    let expr = Mod::Module(vec![assign("__all__", string("a")), assign("a", num("1")), assign("b", num("3"))]);
    let docs = extract_module_documentation(expr, None, None, true, true);
    assert_eq!(docs.exports, None);
}

#[test]
fn exports_listed_in_order() {
    let expr = Mod::Module(vec![all_list(vec![string("a"), string("b"), string("c")])]);
    let docs = extract_module_documentation(expr, None, None, false, false);
    assert_eq!(docs.exports, Some(vec![String::from("a"), String::from("b"), String::from("c")]));
}

#[test]
fn docstring_only_from_first_statement() {
    let body = vec![assign("a", num("1")), doc("late")];
    assert_eq!(extract_docstring_from_body(&body), None);
    let body = vec![doc("early"), doc("late")];
    assert_eq!(extract_docstring_from_body(&body), Some(String::from("early")));
    let body = vec![Stmt::Expr(num("3"))];
    assert_eq!(extract_docstring_from_body(&body), None);
}

#[test]
fn private_names() {
    assert!(is_private("_foo"));
    assert!(is_private("__private"));
    assert!(!is_private("__init__"));
    assert!(!is_private("foo"));
    assert!(!is_private(""));
}

#[test]
fn undocumented_kept_unless_skipped() {
    let docs = extract_module_documentation(skip_module(), None, None, false, false);
    assert_eq!(docs.functions.len(), 3);
    assert_eq!(docs.classes.len(), 3);
    let docs = extract_module_documentation(skip_module(), None, None, false, true);
    let names: Vec<&str> = docs.functions.iter().map(|f| f.name.as_str()).collect();
    assert_eq!(names, vec!["foo", "_bar"]);
    let docs = extract_module_documentation(skip_module(), None, None, true, false);
    let names: Vec<&str> = docs.functions.iter().map(|f| f.name.as_str()).collect();
    assert_eq!(names, vec!["foo", "baz"]);
}

#[test]
fn methods_filtered_like_functions() {
    let class = Stmt::ClassDef(ClassDef {
        name: "C".to_string(),
        body: vec![
            doc("a class"),
            Stmt::FunctionDef(def("__init__", params(&["self"]), vec![doc("make")], None)),
            Stmt::FunctionDef(def("_helper", params(&["self"]), vec![doc("help")], None)),
            Stmt::FunctionDef(def("run", params(&["self"]), vec![Stmt::Other], None)),
        ],
    });
    let docs = extract_module_documentation(Mod::Module(vec![class]), None, None, true, true);
    let names: Vec<&str> = docs.classes[0].methods.iter().map(|f| f.name.as_str()).collect();
    assert_eq!(names, vec!["__init__"]);
}

#[test]
fn index_parse_doesnt_extract_lambda() {
    assert_eq!(counts(python_lambda()), (1, 0));
}

#[test]
fn index_parse_test_python_async_func() {
    assert_eq!(counts(python_async_func_no_types()), (1, 0));
}

#[test]
fn index_parse_doesnt_extract_closure() {
    assert_eq!(counts(python_closure()), (1, 0));
}

#[test]
fn index_parse_test_python_func_no_types() {
    assert_eq!(counts(python_func_no_types()), (1, 0));
}

#[test]
fn index_parse_test_python_no_func() {
    assert_eq!(counts(python_no_func()), (0, 0));
}

#[test]
fn index_parse_test_python_func_dict_type() {
    assert_eq!(counts(python_func_annotated()), (1, 0));
}

#[test]
fn index_parse_test_python_class() {
    let documentation = extract_module_documentation(python_class(), None, None, false, false);
    assert_eq!(documentation.functions.len(), 0);
    assert_eq!(documentation.classes.len(), 1);
    assert_eq!(documentation.classes[0].methods.len(), 1);
}

#[test]
fn index_parse_empty_string() {
    let documentation = extract_module_documentation(Mod::Module(vec![]), None, None, false, false);
    assert_eq!(documentation.docstring, None);
    assert_eq!(documentation.functions.len(), 0);
    assert_eq!(documentation.classes.len(), 0);
}

#[test]
fn index_parse_test_python_func_with_types() {
    assert_eq!(counts(python_func_with_types()), (1, 0));
}

#[test]
fn index_parse_test_python_func_docstring() {
    assert_eq!(counts(python_func_docstring()), (1, 0));
}

#[test]
fn index_parse_test_python_class_docstring() {
    let documentation = extract_module_documentation(python_class(), None, None, false, false);
    assert_eq!(documentation.classes[0].docstring, Some(String::from(CLASS_DOC)));
}

#[test]
fn index_parse_test_python_function_docstring() {
    let documentation = extract_module_documentation(python_func_docstring(), None, None, false, false);
    assert_eq!(documentation.functions[0].docstring, Some(String::from(IS_ODD_DOC)));
}

#[test]
fn index_test_doc_extraction_interactive_module() {
    let expr = Mod::Expression(Expr::BinOp { left: Box::new(num("1")), op: Operator::Add, right: Box::new(num("2")) });
    let docs = extract_module_documentation(expr, None, None, false, false);
    assert_eq!(docs.docstring, None);
    assert_eq!(docs.functions.len(), 0);
    assert_eq!(docs.classes.len(), 0);
}
