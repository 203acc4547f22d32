use snakedown::expr::{Arg, ArgWithDefault, Arguments, Constant, Expr};
use snakedown::front_matter::{
    render_front_matter, render_plain_front_matter, render_zola_anchor, render_zola_anchor_id,
    render_zola_front_matter, render_zola_header, render_zola_link, FrontMatterFormat,
};
use snakedown::parsing::{extract_module_documentation, ClassDef, FunctionDef, Mod, Stmt};
use snakedown::pipeline::{document_module, plan_module};
use snakedown::render::{render_module, MdRenderer, Renderer, ZolaRenderer};
use snakedown::text::{dedent_docstring, detect_docstring_indent_prefix};

fn name(id: &str) -> Expr {
    Expr::Name(id.to_string())
}

fn string(s: &str) -> Expr {
    Expr::Constant(Constant::Str(s.to_string()))
}

fn doc(s: &str) -> Stmt {
    Stmt::Expr(string(s))
}

fn subscript(value: &str, items: Vec<Expr>) -> Expr {
    let slice = if items.len() == 1 {
        items.into_iter().next().unwrap()
    } else {
        Expr::Tuple { elts: items }
    };
    Expr::Subscript { value: Box::new(name(value)), slice: Box::new(slice) }
}

fn param(n: &str, annotation: Option<Expr>, default: Option<Expr>) -> ArgWithDefault {
    ArgWithDefault {
        def: Arg { arg: n.to_string(), annotation: annotation.map(Box::new) },
        default: default.map(Box::new),
    }
}

fn bare(n: &str) -> Option<Box<Arg>> {
    Some(Box::new(Arg { arg: n.to_string(), annotation: None }))
}

const MODULE_DOC: &str = "This is a module that is used to test snakedown.";
const FOO_DOC: &str = "this is a docstring for the foo function";
const CLASS_DOC: &str = "\n    this is a class docstring.\n\n    ";
const GREET_DOC: &str = "\n\n\n\n\n\n        Greet the world.\n\n        Parameters\n        ----------\n        name: str\n            just a parameter. it's actually used for anything\n\n        Returns\n        -------\n        Callable[[], None]\n            just a random closure to make the types interesting to render.\n\n\n\n\n        ";

/// The parsed form of a module with a docstring, an import, an `__all__`,
/// a function and a class with one method.
fn dirty_module() -> Mod {
    let foo = FunctionDef {
        name: "foo".to_string(),
        args: Arguments {
            posonlyargs: vec![],
            args: vec![param("bar", Some(name("int")), None)],
            vararg: None,
            kwonlyargs: vec![],
            kwarg: None,
        },
        body: vec![doc(FOO_DOC), Stmt::Other, Stmt::Expr(name("bar")), Stmt::Other],
        returns: Some(subscript("Dict", vec![name("str"), name("Any")])),
        type_params: vec![],
    };
    let greet = FunctionDef {
        name: "greet".to_string(),
        args: Arguments {
            posonlyargs: vec![],
            args: vec![param("self", None, None), param("name", None, None)],
            vararg: bare("args"),
            kwonlyargs: vec![param("foo", Some(name("str")), Some(string("bar")))],
            kwarg: bare("kwargs"),
        },
        body: vec![
            doc(GREET_DOC),
            Stmt::Other,
            Stmt::FunctionDef(FunctionDef {
                name: "inner".to_string(),
                args: Arguments { posonlyargs: vec![], args: vec![], vararg: None, kwonlyargs: vec![], kwarg: None },
                body: vec![Stmt::Other],
                returns: None,
                type_params: vec![],
            }),
            Stmt::Other,
        ],
        returns: Some(subscript(
            "Callable",
            vec![Expr::List { elts: vec![] }, Expr::Constant(Constant::PyNone)],
        )),
        type_params: vec![],
    };
    Mod::Module(vec![
        doc(MODULE_DOC),
        Stmt::Other,
        Stmt::Assign { targets: vec![name("__all__")], value: Expr::List { elts: vec![string("foo")] } },
        Stmt::FunctionDef(foo),
        Stmt::ClassDef(ClassDef {
            name: "Greeter".to_string(),
            body: vec![
                doc(CLASS_DOC),
                Stmt::Assign { targets: vec![name("class_var")], value: string("whatever") },
                Stmt::FunctionDef(greet),
            ],
        }),
    ])
}

#[test]
fn render_module_documentation() {
    let mod_documentation = extract_module_documentation(dirty_module(), Some(String::from("test_module")), Some(String::from("snakedown.testing")), false, false);
    let rendered = render_module(mod_documentation, &MdRenderer::new());
    assert_eq!(rendered, r#"# snakedown.testing.test_module

This is a module that is used to test snakedown.

## snakedown.testing.test_module.foo

foo(bar: int) -> Dict[str, Any]

this is a docstring for the foo function

## snakedown.testing.test_module.Greeter

this is a class docstring.

### snakedown.testing.test_module.Greeter.greet

greet(self, name, *args, foo: str = "bar", **kwargs) -> Callable[[], None]

Greet the world.

Parameters
----------
name: str
    just a parameter. it's actually used for anything

Returns
-------
Callable[[], None]
    just a random closure to make the types interesting to render.
"#);
}

#[test]
fn render_module_documentation_no_prefix() {
    let mod_documentation = extract_module_documentation(dirty_module(), None, None, false, false);
    let rendered = render_module(mod_documentation, &MdRenderer::new());
    assert_eq!(rendered, r#"
This is a module that is used to test snakedown.

## foo

foo(bar: int) -> Dict[str, Any]

this is a docstring for the foo function

## Greeter

this is a class docstring.

### Greeter.greet

greet(self, name, *args, foo: str = "bar", **kwargs) -> Callable[[], None]

Greet the world.

Parameters
----------
name: str
    just a parameter. it's actually used for anything

Returns
-------
Callable[[], None]
    just a random closure to make the types interesting to render.
"#);
}

#[test]
fn render_module_documentation_only_prefix() {
    let mod_documentation = extract_module_documentation(dirty_module(), None, Some(String::from("snakedown")), false, false);
    let rendered = render_module(mod_documentation, &MdRenderer::new());
    assert_eq!(rendered, r#"# snakedown

This is a module that is used to test snakedown.

## snakedown.foo

foo(bar: int) -> Dict[str, Any]

this is a docstring for the foo function

## snakedown.Greeter

this is a class docstring.

### snakedown.Greeter.greet

greet(self, name, *args, foo: str = "bar", **kwargs) -> Callable[[], None]

Greet the world.

Parameters
----------
name: str
    just a parameter. it's actually used for anything

Returns
-------
Callable[[], None]
    just a random closure to make the types interesting to render.
"#);
}

#[test]
fn render_module_documentation_only_name() {
    let mod_documentation = extract_module_documentation(dirty_module(), Some("snakedown".to_string()), None, false, false);
    let rendered = render_module(mod_documentation, &MdRenderer::new());
    assert_eq!(rendered, r#"# snakedown

This is a module that is used to test snakedown.

## snakedown.foo

foo(bar: int) -> Dict[str, Any]

this is a docstring for the foo function

## snakedown.Greeter

this is a class docstring.

### snakedown.Greeter.greet

greet(self, name, *args, foo: str = "bar", **kwargs) -> Callable[[], None]

Greet the world.

Parameters
----------
name: str
    just a parameter. it's actually used for anything

Returns
-------
Callable[[], None]
    just a random closure to make the types interesting to render.
"#);
}

#[test]
fn render_module_documentation_zola() {
    let mod_documentation = extract_module_documentation(dirty_module(), Some(String::from("snakedown")), None, false, false);
    let rendered = render_module(mod_documentation, &ZolaRenderer::new(false));
    assert_eq!(rendered, r#"+++
title = "snakedown"
+++

This is a module that is used to test snakedown.

## snakedown.foo

foo(bar: int) -> Dict[str, Any]

this is a docstring for the foo function

## snakedown.Greeter

this is a class docstring.

### snakedown.Greeter.greet

greet(self, name, *args, foo: str = "bar", **kwargs) -> Callable[[], None]

Greet the world.

Parameters
----------
name: str
    just a parameter. it's actually used for anything

Returns
-------
Callable[[], None]
    just a random closure to make the types interesting to render.
"#);
}

#[test]
fn test_render_md_header() {
    let text = String::from("foo");
    let out = MdRenderer::new().render_header(&text, 1);
    assert_eq!(out, String::from("# foo\n"));
}

#[test]
fn test_render_external_ref() {
    let text = String::from("foo");
    let base_url = String::from("https://example.com/docs/");
    let rel_url = String::from("foo/bar/baz.html#Bullshit");
    let out = MdRenderer::new().render_external_ref(text, base_url, rel_url).unwrap();
    assert_eq!(out, String::from("[foo](https://example.com/docs/foo/bar/baz.html#Bullshit)"));
}

#[test]
fn test_render_internal_ref() {
    let text = String::from("foo");
    let rel_path = String::from("foo/bar/index.md");
    let out = MdRenderer::new().render_internal_ref(text, rel_path).unwrap();
    assert_eq!(out, String::from("[foo](foo/bar/index.md)"));
}

#[test]
fn zola_test_zola_header() {
    let renderer = ZolaRenderer::new(false);
    let obj_name = String::from("foo.bar.nasty-names_with_underscores_and_emoji_🙈");
    assert_eq!(
        renderer.render_header(&obj_name, 2),
        "## foo.bar.nasty-names_with_underscores_and_emoji_🙈\n"
    );
}

#[test]
fn zola_test_empty_zola_front_matter() {
    assert_eq!(
        ZolaRenderer::new(false).render_front_matter(None),
        r"+++
+++
"
    );
}

#[test]
fn zola_external_link_no_shortcode() {
    assert_eq!(
        ZolaRenderer::new(false)
            .render_external_ref(
                "Dataset".to_string(),
                "https://docs.xarray.dev/en/stable/".to_string(),
                "generated/xarray.Dataset.html#xarray.Dataset".to_string()
            )
            .unwrap(),
        r#"[Dataset](https://docs.xarray.dev/en/stable/generated/xarray.Dataset.html#xarray.Dataset)"#
    );
}

#[test]
fn zola_external_link_with_shortcode() {
    assert_eq!(
        ZolaRenderer::new(true)
            .render_external_ref(
                "Dataset".to_string(),
                "https://docs.xarray.dev/en/stable/".to_string(),
                "generated/xarray.Dataset.html#xarray.Dataset".to_string()
            )
            .unwrap(),
        r#"{{ snakedown_external_ref(text="Dataset", url="https://docs.xarray.dev/en/stable/generated/xarray.Dataset.html#xarray.Dataset") }}"#
    );
}

#[test]
fn zola_test_zola_front_matter_with_title() {
    assert_eq!(
        ZolaRenderer::new(false).render_front_matter(Some("foo")),
        r#"+++
title = "foo"
+++
"#
    );
}

#[test]
fn zola_internal_links() {
    let plain = ZolaRenderer::new(false).render_internal_ref("Mod".to_string(), "a/b.md".to_string());
    assert_eq!(plain.unwrap(), "[Mod](@/a/b.md)");
    let short = ZolaRenderer::new(true).render_internal_ref("Mod".to_string(), "a/b.md".to_string());
    assert_eq!(short.unwrap(), r#"{{ snakedown_internal_ref(text="Mod", path="@/a/b.md") }}"#);
}

#[test]
fn test_zola_header() {
    assert_eq!(
        render_zola_header(String::from("foo.bar.nasty-names"), 2),
        r"## foo.bar.nasty-names {#foobarnastynames}"
    );
}

#[test]
fn test_zola_link() {
    assert_eq!(
        render_zola_link(String::from("foo.bar.nasty-names")),
        r"[foo.bar.nasty-names](#foobarnastynames)"
    );
}

#[test]
fn test_empty_zola_front_matter() {
    assert_eq!(
        render_zola_front_matter(&None),
        r"+++
+++
"
    );
}

#[test]
fn test_zola_front_matter_with_title() {
    assert_eq!(
        render_zola_front_matter(&Some("foo".to_string())),
        r#"+++
title = "foo"
+++
"#
    );
}

#[test]
fn front_matter_formats() {
    assert_eq!(render_plain_front_matter(&Some("T".to_string())), "# T\n");
    assert_eq!(render_plain_front_matter(&None), "");
    assert_eq!(render_front_matter(&None, FrontMatterFormat::Markdown), "");
    assert_eq!(render_front_matter(&Some("T".to_string()), FrontMatterFormat::Zola), "+++\ntitle = \"T\"\n+++\n");
    assert_eq!(render_zola_anchor("A.B-c"), "{#abc}");
    assert_eq!(render_zola_anchor_id("Foo.Bar"), "foobar");
}

#[test]
fn docstring_reindentation() {
    assert_eq!(detect_docstring_indent_prefix("\n    a\n      b\n\n    "), "    ");
    assert_eq!(detect_docstring_indent_prefix("x\n    a"), "");
    assert_eq!(detect_docstring_indent_prefix("   \n  "), "");
    assert_eq!(dedent_docstring("\n    a\n      b\n    "), "a\n  b");
    assert_eq!(dedent_docstring("\tx\n\t\ty"), "x\n\ty");
}

#[test]
fn markdown_example_page() {
    let module = Mod::Module(vec![
        doc("Hi"),
        Stmt::FunctionDef(FunctionDef {
            name: "f".to_string(),
            args: Arguments {
                posonlyargs: vec![],
                args: vec![param("x", Some(name("int")), None)],
                vararg: None,
                kwonlyargs: vec![],
                kwarg: None,
            },
            body: vec![doc("doc")],
            returns: Some(name("bool")),
            type_params: vec![],
        }),
    ]);
    let docs = extract_module_documentation(module, Some("mod".to_string()), Some("pkg".to_string()), false, false);
    let page = render_module(docs, &MdRenderer::new());
    assert_eq!(page, "# pkg.mod\n\nHi\n\n## pkg.mod.f\n\nf(x: int) -> bool\n\ndoc\n");
}

#[test]
fn undocumented_function_left_out_of_page() {
    let make = || {
        Mod::Module(vec![Stmt::FunctionDef(FunctionDef {
            name: "quiet".to_string(),
            args: Arguments { posonlyargs: vec![], args: vec![], vararg: None, kwonlyargs: vec![], kwarg: None },
            body: vec![Stmt::Other],
            returns: None,
            type_params: vec![],
        })])
    };
    let skipped = render_module(extract_module_documentation(make(), None, None, false, true), &MdRenderer::new());
    assert!(!skipped.contains("quiet"));
    let kept = render_module(extract_module_documentation(make(), None, None, false, false), &MdRenderer::new());
    assert!(kept.contains("## quiet"));
}

#[test]
fn module_pipeline_plans_and_renders() {
    let plan = plan_module("pkg", "sub/__init__.py").unwrap();
    assert_eq!(plan.prefix, Some(String::from("pkg")));
    assert_eq!(plan.name, Some(String::from("sub")));
    assert_eq!(plan.output_path, "sub/_index.md");
    assert!(plan.lists_children);
    assert!(!plan_module("pkg", "sub/mod.py").unwrap().lists_children);
    let root_plan = plan_module("pkg", "__init__.py").unwrap();
    assert_eq!(root_plan.name, Some(String::from("pkg")));
    assert_eq!(root_plan.prefix, None);
    let page = document_module(dirty_module(), plan.name, plan.prefix, false, false, vec![], &MdRenderer::new());
    assert!(page.starts_with("# pkg.sub\n"));
    assert!(page.contains("## pkg.sub.Greeter.greet") || page.contains("### pkg.sub.Greeter.greet"));
}

#[test]
fn external_ref_with_bad_base_fails() {
    let out = MdRenderer::new().render_external_ref("x".to_string(), "not a url".to_string(), "a.html".to_string());
    assert!(out.is_err());
}
