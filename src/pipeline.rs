//! The per-module steps of a documentation run, between reading a source
//! file and writing its page.
use vstd::prelude::*;

use crate::paths::{
    file_name, get_module_name, get_python_prefix, has_file_name, module_name, path_components, opt_view, python_prefix, translate_filename,
    page_path, PathError,
};
use crate::parsing::{
    class_docs, classes_view, docstring_of, extract_module_documentation, function_doc,
    function_docs, lemma_no_filter_keeps_every_function, lemma_skip_undoc_keeps_documented, Mod,
    ModuleDocumentation, ModuleReference, Stmt,
};
use crate::render::{
    classes_text, function_section, functions_text, lemma_function_section_on_page, module_text,
    opt_string, qualifier, render_module, Renderer,
};
use crate::text::{cat3, occurs_in, str_eq, texts_of, trim, trim_end};

verus! {

/// Where a module's page goes and how its names are qualified.
#[derive(Debug)]
pub struct ModulePlan {
    /// The dotted prefix of the module's qualified names.
    pub prefix: Option<String>,
    /// The module's own name.
    pub name: Option<String>,
    /// The page's path, relative to the output root.
    pub output_path: String,
    /// Whether the page is a package's index page, which lists the
    /// package's children.
    pub lists_children: bool,
}

/// Plans the page of the module at `rel_path`, relative to the root package
/// named `root_name`.
pub fn plan_module(root_name: &str, rel_path: &str) -> (r: Result<ModulePlan, PathError>)
    ensures
        match r {
            Ok(plan) => {
                &&& opt_view(plan.prefix) == python_prefix(root_name@ + "/"@ + rel_path@)
                &&& opt_view(plan.name) == module_name(root_name@ + "/"@ + rel_path@)
                &&& plan.output_path@ == page_path(rel_path@)
                &&& plan.lists_children == (file_name(root_name@ + "/"@ + rel_path@) == Some(
                    "__init__.py"@,
                ))
            },
            Err(e) => e == PathError::NoFileName && !has_file_name(root_name@ + "/"@ + rel_path@),
        },
{
    let python_path = cat3(root_name, "/", rel_path);
    let prefix = match get_python_prefix(python_path.as_str()) {
        Ok(p) => p,
        Err(e) => return Err(e),
    };
    let name = match get_module_name(python_path.as_str()) {
        Ok(n) => Some(n),
        Err(_) => None,
    };
    let output_path = translate_filename(rel_path);
    let cs = path_components(python_path.as_str());
    let n = cs.len();
    proof {
        reveal_strlit("__init__.py");
        if n > 0 {
            assert(texts_of(cs@).last() == cs@.last()@);
        }
    }
    let lists_children = n > 0 && str_eq(cs[n - 1].as_str(), "__init__.py");
    Ok(ModulePlan { prefix, name, output_path, lists_children })
}

/// A text that is present and not empty, or none.
pub open spec fn non_empty_text(s: Option<Seq<char>>) -> Option<Seq<char>> {
    match s {
        Some(t) => if t.len() > 0 {
            Some(t)
        } else {
            None
        },
        None => None,
    }
}

/// The text of a non-empty optional string, or none.
fn non_empty(s: Option<String>) -> (r: Option<String>)
    ensures
        r matches Some(t) ==> t@.len() > 0,
        opt_view(r) == non_empty_text(opt_view(s)),
{
    match s {
        Some(t) => if t.as_str().unicode_len() > 0 {
            Some(t)
        } else {
            None
        },
        None => None,
    }
}

/// Extracts the documentation of a parsed module and renders its page; a
/// package's index page also lists `sub_modules`. Empty names count as
/// absent.
pub fn document_module<R: Renderer>(
    module: Mod,
    name: Option<String>,
    prefix: Option<String>,
    skip_private: bool,
    skip_undoc: bool,
    sub_modules: Vec<ModuleReference>,
    renderer: &R,
) -> (r: String)
    ensures
        exists|doc: ModuleDocumentation|
            {
                &&& r@ == module_text(*renderer, doc)
                &&& doc.sub_modules == sub_modules
                &&& match module {
                    Mod::Module(body) => {
                        &&& opt_view(doc.name) == non_empty_text(opt_view(name))
                        &&& opt_view(doc.prefix) == non_empty_text(opt_view(prefix))
                        &&& doc.docstring == docstring_of(body@)
                        &&& doc.functions@ == function_docs(body@, skip_private, skip_undoc)
                        &&& classes_view(doc.classes@) == class_docs(body@, skip_private, skip_undoc)
                    },
                    _ => {
                        &&& doc.name is None
                        &&& doc.prefix is None
                        &&& doc.docstring is None
                        &&& doc.functions@.len() == 0
                        &&& doc.classes@.len() == 0
                    },
                }
            },
{
    let name = non_empty(name);
    let prefix = non_empty(prefix);
    let mut doc = extract_module_documentation(module, name, prefix, skip_private, skip_undoc);
    doc.with_sub_modules(sub_modules);
    let ghost d = doc;
    let page = render_module(doc, renderer);
    proof {
        assert(page@ == module_text(*renderer, d) && d.sub_modules == sub_modules);
    }
    page
}

/// With neither filter on, every top-level function definition of a module,
/// documented or not, has its section on the rendered page; the section
/// opens with the function's heading and signature.
pub proof fn lemma_undocumented_function_rendered<R: Renderer>(
    renderer: R,
    body: Seq<Stmt>,
    j: int,
    doc: ModuleDocumentation,
)
    requires
        0 <= j < body.len(),
        body[j] is FunctionDef,
        doc.functions@ == function_docs(body, false, false),
    ensures
        occurs_in(
            trim_end(
                function_section(
                    renderer,
                    function_doc(body[j]->FunctionDef_0),
                    qualifier(opt_string(doc.prefix), opt_string(doc.name)),
                    2,
                ),
            ),
            module_text(renderer, doc),
        ),
{
    lemma_no_filter_keeps_every_function(body, j);
    let k = choose|k: int|
        0 <= k < function_docs(body, false, false).len() && #[trigger] function_docs(
            body,
            false,
            false,
        )[k] == function_doc(
            match body[j] {
                Stmt::FunctionDef(f) => f,
                Stmt::AsyncFunctionDef(f) => f,
                _ => arbitrary(),
            },
        );
    lemma_function_section_on_page(renderer, doc, k);
}

/// With undocumented items skipped, every function section on the rendered
/// page belongs to a function that has a docstring.
pub proof fn lemma_skip_undoc_page_documented<R: Renderer>(
    renderer: R,
    body: Seq<Stmt>,
    skip_private: bool,
    doc: ModuleDocumentation,
)
    requires
        doc.functions@ == function_docs(body, skip_private, true),
    ensures
        module_text(renderer, doc) == renderer.front_matter_text(
            qualifier(opt_string(doc.prefix), opt_string(doc.name)),
        ) + match doc.docstring {
            Some(d) => "\n"@ + trim(d@) + "\n"@,
            None => Seq::empty(),
        } + functions_text(
            renderer,
            doc.functions@,
            qualifier(opt_string(doc.prefix), opt_string(doc.name)),
        ) + classes_text(
            renderer,
            doc.classes@,
            qualifier(opt_string(doc.prefix), opt_string(doc.name)),
        ),
        forall|k: int|
            0 <= k < doc.functions@.len() ==> (#[trigger] doc.functions@[k]).docstring is Some,
{
    lemma_skip_undoc_keeps_documented(body, skip_private);
}

} // verus!
