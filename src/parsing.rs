//! Statement model and extraction of the documentation records of a module.
use vstd::prelude::*;

use crate::expr::{Arguments, Constant, Expr};
use crate::text::starts_with_str;

verus! {

/// A function definition, plain or asynchronous.
#[derive(Debug)]
pub struct FunctionDef {
    pub name: String,
    pub args: Arguments,
    pub body: Vec<Stmt>,
    pub returns: Option<Expr>,
    /// Names of the generic type parameters.
    pub type_params: Vec<String>,
}

/// A class definition.
#[derive(Debug)]
pub struct ClassDef {
    pub name: String,
    pub body: Vec<Stmt>,
}

/// Statements, as far as the extraction reads them.
#[derive(Debug)]
pub enum Stmt {
    FunctionDef(FunctionDef),
    AsyncFunctionDef(FunctionDef),
    ClassDef(ClassDef),
    Assign { targets: Vec<Expr>, value: Expr },
    /// A bare expression statement.
    Expr(Expr),
    /// Any other statement; nothing is extracted from it.
    Other,
}

/// A parsed source unit.
#[derive(Debug)]
pub enum Mod {
    Module(Vec<Stmt>),
    Expression(Expr),
    /// Interactive input or a function type comment.
    Other,
}

/// Documentation of one function or method.
#[derive(Debug)]
pub struct FunctionDocumentation {
    pub name: String,
    pub docstring: Option<String>,
    pub return_type: Option<Expr>,
    pub args: Arguments,
    pub generics: Vec<String>,
}

/// Documentation of one class and its direct methods.
#[derive(Debug)]
pub struct ClassDocumentation {
    pub name: String,
    pub docstring: Option<String>,
    pub methods: Vec<FunctionDocumentation>,
}

/// A child of a package, listed on the package's index page.
#[derive(Debug, Clone, PartialEq, Eq)]
pub struct ModuleReference {
    pub name: String,
    pub path: String,
}

/// Documentation of a module.
#[derive(Debug)]
pub struct ModuleDocumentation {
    pub name: Option<String>,
    pub prefix: Option<String>,
    pub docstring: Option<String>,
    pub functions: Vec<FunctionDocumentation>,
    pub classes: Vec<ClassDocumentation>,
    pub sub_modules: Vec<ModuleReference>,
    pub exports: Option<Vec<String>>,
}

/// The docstring of a body: the value of its first statement when that is a
/// bare string literal.
pub open spec fn docstring_of(body: Seq<Stmt>) -> Option<String> {
    if body.len() > 0 {
        match body[0] {
            Stmt::Expr(Expr::Constant(Constant::Str(s))) => Some(s),
            _ => None,
        }
    } else {
        None
    }
}

/// The docstring of a body, if its first statement is a string literal.
pub fn extract_docstring_from_body(body: &Vec<Stmt>) -> (r: Option<String>)
    ensures
        r == docstring_of(body@),
{
    if body.len() == 0 {
        return None;
    }
    match &body[0] {
        Stmt::Expr(Expr::Constant(Constant::Str(s))) => Some(s.clone()),
        _ => None,
    }
}

/// A name is private when it starts with an underscore and is not `__init__`.
pub open spec fn is_private_name(name: Seq<char>) -> bool {
    name.len() > 0 && name[0] == '_' && name != "__init__"@
}

/// Whether a name is private.
pub fn is_private(name: &str) -> (r: bool)
    ensures
        r == is_private_name(name@),
{
    proof {
        reveal_strlit("__init__");
        reveal_strlit("_");
    }
    if !starts_with_str(name, "_") {
        proof {
            if name@.len() > 0 && name@[0] == '_' {
                assert(name@.subrange(0, 1) =~= "_"@);
            }
        }
        return false;
    }
    let is_init = name.unicode_len() == 8 && starts_with_str(name, "__init__");
    proof {
        assert(name@.subrange(0, 1)[0] == name@[0]);
        if name@.len() == 8 {
            assert(name@.subrange(0, 8) =~= name@);
        }
    }
    !is_init
}

/// The record built for a function definition.
pub open spec fn function_doc(f: FunctionDef) -> FunctionDocumentation {
    FunctionDocumentation {
        name: f.name,
        docstring: docstring_of(f.body@),
        return_type: f.returns,
        args: f.args,
        generics: f.type_params,
    }
}

/// Whether a record with this name and docstring survives the two filters.
pub open spec fn kept(
    name: Seq<char>,
    docstring: Option<String>,
    skip_private: bool,
    skip_undoc: bool,
) -> bool {
    !(skip_undoc && docstring is None) && !(skip_private && is_private_name(name))
}

/// The records of the direct function definitions among `stmts` that survive
/// the filters, in order.
pub open spec fn function_docs(stmts: Seq<Stmt>, skip_private: bool, skip_undoc: bool) -> Seq<
    FunctionDocumentation,
>
    decreases stmts.len(),
{
    if stmts.len() == 0 {
        Seq::empty()
    } else {
        let prev = function_docs(stmts.drop_last(), skip_private, skip_undoc);
        match stmts.last() {
            Stmt::FunctionDef(f) => if kept(f.name@, docstring_of(f.body@), skip_private, skip_undoc) {
                prev.push(function_doc(f))
            } else {
                prev
            },
            Stmt::AsyncFunctionDef(f) => if kept(
                f.name@,
                docstring_of(f.body@),
                skip_private,
                skip_undoc,
            ) {
                prev.push(function_doc(f))
            } else {
                prev
            },
            _ => prev,
        }
    }
}

/// The record built for a class definition.
pub open spec fn class_doc(c: ClassDef, skip_private: bool, skip_undoc: bool) -> (
    String,
    Option<String>,
    Seq<FunctionDocumentation>,
) {
    (c.name, docstring_of(c.body@), function_docs(c.body@, skip_private, skip_undoc))
}

/// The records of the class definitions among `stmts` that survive the
/// filters, in order, as name, docstring and methods.
pub open spec fn class_docs(stmts: Seq<Stmt>, skip_private: bool, skip_undoc: bool) -> Seq<
    (String, Option<String>, Seq<FunctionDocumentation>),
>
    decreases stmts.len(),
{
    if stmts.len() == 0 {
        Seq::empty()
    } else {
        let prev = class_docs(stmts.drop_last(), skip_private, skip_undoc);
        match stmts.last() {
            Stmt::ClassDef(c) => if kept(c.name@, docstring_of(c.body@), skip_private, skip_undoc) {
                prev.push(class_doc(c, skip_private, skip_undoc))
            } else {
                prev
            },
            _ => prev,
        }
    }
}

/// A class record as name, docstring and methods.
pub open spec fn class_view(c: ClassDocumentation) -> (
    String,
    Option<String>,
    Seq<FunctionDocumentation>,
) {
    (c.name, c.docstring, c.methods@)
}

/// The class records as name, docstring and methods.
pub open spec fn classes_view(cs: Seq<ClassDocumentation>) -> Seq<
    (String, Option<String>, Seq<FunctionDocumentation>),
> {
    cs.map_values(|c: ClassDocumentation| class_view(c))
}

/// Whether an assignment target is the name `__all__`.
pub open spec fn is_all_target(e: Expr) -> bool {
    e matches Expr::Name(id) && id@ == "__all__"@
}

/// The string elements of a list display, in order; other elements are left out.
pub open spec fn string_elements(es: Seq<Expr>) -> Seq<String>
    decreases es.len(),
{
    if es.len() == 0 {
        Seq::empty()
    } else {
        let prev = string_elements(es.drop_last());
        match es.last() {
            Expr::Constant(Constant::Str(s)) => prev.push(s),
            _ => prev,
        }
    }
}

/// The exports that one statement declares: an assignment to `__all__` of a
/// list display.
pub open spec fn exports_of_stmt(s: Stmt) -> Option<Seq<String>> {
    match s {
        Stmt::Assign { targets, value } => if exists|i: int|
            0 <= i < targets@.len() && is_all_target(#[trigger] targets@[i]) {
            match value {
                Expr::List { elts } => Some(string_elements(elts@)),
                _ => None,
            }
        } else {
            None
        },
        _ => None,
    }
}

/// The exports of a module: those of its last declaring statement.
pub open spec fn exports_of(stmts: Seq<Stmt>) -> Option<Seq<String>>
    decreases stmts.len(),
{
    if stmts.len() == 0 {
        None
    } else {
        match exports_of_stmt(stmts.last()) {
            Some(e) => Some(e),
            None => exports_of(stmts.drop_last()),
        }
    }
}

/// Builds the record of a function definition.
pub fn function_documentation(f: FunctionDef) -> (r: FunctionDocumentation)
    ensures
        r == function_doc(f),
{
    let docstring = extract_docstring_from_body(&f.body);
    FunctionDocumentation {
        name: f.name,
        docstring,
        return_type: f.returns,
        args: f.args,
        generics: f.type_params,
    }
}

/// Whether a record with this name and docstring survives the filters.
pub fn keep_entity(name: &String, docstring: &Option<String>, skip_private: bool, skip_undoc: bool) -> (r: bool)
    ensures
        r == kept(name@, *docstring, skip_private, skip_undoc),
{
    if skip_undoc && docstring.is_none() {
        return false;
    }
    !(skip_private && is_private(name.as_str()))
}

proof fn lemma_prefix_step<T>(orig: Seq<T>, done: int)
    requires
        0 <= done < orig.len(),
    ensures
        orig.subrange(0, done + 1).drop_last() == orig.subrange(0, done),
        orig.subrange(0, done + 1).last() == orig[done],
{
    assert(orig.subrange(0, done + 1).drop_last() =~= orig.subrange(0, done));
}

/// The records of the direct function definitions of a body that survive
/// the filters; nested definitions and other statements are left out.
pub fn extract_function_docs(stmts: Vec<Stmt>, skip_private: bool, skip_undoc: bool) -> (r: Vec<
    FunctionDocumentation,
>)
    ensures
        r@ == function_docs(stmts@, skip_private, skip_undoc),
{
    let ghost orig = stmts@;
    let mut rest = stmts;
    let total: usize = rest.len();
    let mut out: Vec<FunctionDocumentation> = Vec::new();
    let mut done: usize = 0;
    while rest.len() > 0
        invariant
            0 <= done <= orig.len(),
            orig.len() == total,
            rest@ == orig.subrange(done as int, orig.len() as int),
            out@ == function_docs(orig.subrange(0, done as int), skip_private, skip_undoc),
        decreases rest.len(),
    {
        let s = rest.remove(0);
        proof {
            lemma_prefix_step(orig, done as int);
            assert(rest@ =~= orig.subrange(done + 1, orig.len() as int));
        }
        match s {
            Stmt::FunctionDef(f) | Stmt::AsyncFunctionDef(f) => {
                let fd = function_documentation(f);
                if keep_entity(&fd.name, &fd.docstring, skip_private, skip_undoc) {
                    out.push(fd);
                }
            },
            _ => {},
        }
        done += 1;
    }
    proof {
        assert(orig.subrange(0, orig.len() as int) =~= orig);
    }
    out
}

/// Builds the record of a class definition, with its direct methods filtered.
pub fn class_documentation(c: ClassDef, skip_private: bool, skip_undoc: bool) -> (r:
    ClassDocumentation)
    ensures
        class_view(r) == class_doc(c, skip_private, skip_undoc),
{
    let docstring = extract_docstring_from_body(&c.body);
    let methods = extract_function_docs(c.body, skip_private, skip_undoc);
    ClassDocumentation { name: c.name, docstring, methods }
}

/// Whether an assignment target is the name `__all__`.
fn is_all_name(e: &Expr) -> (r: bool)
    ensures
        r == is_all_target(*e),
{
    match e {
        Expr::Name(id) => {
            proof {
                reveal_strlit("__all__");
            }
            let same = id.as_str().unicode_len() == 7 && starts_with_str(id.as_str(), "__all__");
            proof {
                if id@.len() == 7 {
                    assert(id@.subrange(0, 7) =~= id@);
                }
            }
            same
        },
        _ => false,
    }
}

fn string_elements_of(es: &Vec<Expr>) -> (r: Vec<String>)
    ensures
        r@ == string_elements(es@),
{
    let mut out: Vec<String> = Vec::new();
    let mut i: usize = 0;
    while i < es.len()
        invariant
            0 <= i <= es.len(),
            out@ == string_elements(es@.subrange(0, i as int)),
        decreases es.len() - i,
    {
        proof {
            lemma_prefix_step(es@, i as int);
        }
        match &es[i] {
            Expr::Constant(Constant::Str(s)) => out.push(s.clone()),
            _ => {},
        }
        i += 1;
    }
    proof {
        assert(es@.subrange(0, es@.len() as int) =~= es@);
    }
    out
}

/// The exports that a statement declares, if it assigns a list display to
/// `__all__`.
pub fn extract_exports_from_statement(statement: &Stmt) -> (r: Option<Vec<String>>)
    ensures
        match r {
            Some(v) => exports_of_stmt(*statement) == Some(v@),
            None => exports_of_stmt(*statement) is None,
        },
{
    match statement {
        Stmt::Assign { targets, value } => {
            let mut found = false;
            let mut i: usize = 0;
            while i < targets.len()
                invariant
                    0 <= i <= targets.len(),
                    found == exists|k: int| 0 <= k < i && is_all_target(#[trigger] targets@[k]),
                decreases targets.len() - i,
            {
                if is_all_name(&targets[i]) {
                    found = true;
                }
                i += 1;
            }
            if !found {
                return None;
            }
            match value {
                Expr::List { elts } => Some(string_elements_of(elts)),
                _ => None,
            }
        },
        _ => None,
    }
}

/// How many statements of a body declare exports.
pub open spec fn export_declaration_count(stmts: Seq<Stmt>) -> nat
    decreases stmts.len(),
{
    if stmts.len() == 0 {
        0
    } else {
        export_declaration_count(stmts.drop_last()) + if exports_of_stmt(stmts.last()) is Some {
            1nat
        } else {
            0nat
        }
    }
}

/// Counts the statements that declare exports; more than one means that the
/// last of them overrides the others.
pub fn export_declarations(statements: &Vec<Stmt>) -> (r: usize)
    ensures
        r == export_declaration_count(statements@),
{
    let mut count: usize = 0;
    let mut i: usize = 0;
    while i < statements.len()
        invariant
            0 <= i <= statements.len(),
            count == export_declaration_count(statements@.subrange(0, i as int)),
            count <= i,
        decreases statements.len() - i,
    {
        proof {
            lemma_prefix_step(statements@, i as int);
        }
        if extract_exports_from_statement(&statements[i]).is_some() {
            count += 1;
        }
        i += 1;
    }
    proof {
        assert(statements@.subrange(0, statements@.len() as int) =~= statements@);
    }
    count
}

/// Builds the documentation of a module from its statements. Name and
/// prefix, when given, are never empty.
pub fn extract_documentation_from_statements(
    statements: Vec<Stmt>,
    name: Option<String>,
    prefix: Option<String>,
    skip_private: bool,
    skip_undoc: bool,
) -> (r: ModuleDocumentation)
    requires
        name matches Some(n) ==> n@.len() > 0,
        prefix matches Some(p) ==> p@.len() > 0,
    ensures
        r.well_formed(),
        r.name == name,
        r.prefix == prefix,
        r.docstring == docstring_of(statements@),
        r.functions@ == function_docs(statements@, skip_private, skip_undoc),
        classes_view(r.classes@) == class_docs(statements@, skip_private, skip_undoc),
        r.sub_modules@.len() == 0,
        match r.exports {
            Some(v) => exports_of(statements@) == Some(v@),
            None => exports_of(statements@) is None,
        },
{
    let docstring = extract_docstring_from_body(&statements);
    let ghost orig = statements@;
    let mut rest = statements;
    let total: usize = rest.len();
    let mut functions: Vec<FunctionDocumentation> = Vec::new();
    let mut classes: Vec<ClassDocumentation> = Vec::new();
    let mut exports: Option<Vec<String>> = None;
    let mut done: usize = 0;
    while rest.len() > 0
        invariant
            0 <= done <= orig.len(),
            orig.len() == total,
            rest@ == orig.subrange(done as int, orig.len() as int),
            functions@ == function_docs(orig.subrange(0, done as int), skip_private, skip_undoc),
            classes_view(classes@) == class_docs(orig.subrange(0, done as int), skip_private, skip_undoc),
            match exports {
                Some(v) => exports_of(orig.subrange(0, done as int)) == Some(v@),
                None => exports_of(orig.subrange(0, done as int)) is None,
            },
        decreases rest.len(),
    {
        let s = rest.remove(0);
        proof {
            lemma_prefix_step(orig, done as int);
            assert(rest@ =~= orig.subrange(done + 1, orig.len() as int));
        }
        match extract_exports_from_statement(&s) {
            Some(e) => {
                exports = Some(e);
            },
            None => {},
        }
        let ghost cbefore = classes@;
        match s {
            Stmt::FunctionDef(f) | Stmt::AsyncFunctionDef(f) => {
                let fd = function_documentation(f);
                if keep_entity(&fd.name, &fd.docstring, skip_private, skip_undoc) {
                    functions.push(fd);
                }
            },
            Stmt::ClassDef(c) => {
                let cd = class_documentation(c, skip_private, skip_undoc);
                if keep_entity(&cd.name, &cd.docstring, skip_private, skip_undoc) {
                    classes.push(cd);
                    proof {
                        assert(classes_view(classes@) =~= classes_view(cbefore).push(class_view(cd)));
                    }
                }
            },
            _ => {},
        }
        done += 1;
    }
    proof {
        assert(orig.subrange(0, orig.len() as int) =~= orig);
    }
    ModuleDocumentation {
        name,
        prefix,
        docstring,
        functions,
        classes,
        sub_modules: Vec::new(),
        exports,
    }
}

/// Builds the documentation of a parsed unit; one that is not a module has
/// none of its own.
pub fn extract_module_documentation(
    input_module: Mod,
    name: Option<String>,
    prefix: Option<String>,
    skip_private: bool,
    skip_undoc: bool,
) -> (r: ModuleDocumentation)
    requires
        name matches Some(n) ==> n@.len() > 0,
        prefix matches Some(p) ==> p@.len() > 0,
    ensures
        r.well_formed(),
        match input_module {
            Mod::Module(body) => {
                &&& r.name == name
                &&& r.prefix == prefix
                &&& r.docstring == docstring_of(body@)
                &&& r.functions@ == function_docs(body@, skip_private, skip_undoc)
                &&& classes_view(r.classes@) == class_docs(body@, skip_private, skip_undoc)
                &&& r.sub_modules@.len() == 0
                &&& match r.exports {
                    Some(v) => exports_of(body@) == Some(v@),
                    None => exports_of(body@) is None,
                }
            },
            _ => {
                &&& r.name is None
                &&& r.prefix is None
                &&& r.docstring is None
                &&& r.functions@.len() == 0
                &&& r.classes@.len() == 0
                &&& r.sub_modules@.len() == 0
                &&& r.exports is None
            },
        },
{
    match input_module {
        Mod::Module(body) => extract_documentation_from_statements(
            body,
            name,
            prefix,
            skip_private,
            skip_undoc,
        ),
        _ => ModuleDocumentation {
            name: None,
            prefix: None,
            docstring: None,
            functions: Vec::new(),
            classes: Vec::new(),
            sub_modules: Vec::new(),
            exports: None,
        },
    }
}

impl ModuleDocumentation {
    /// Name and prefix, when present, are never empty.
    pub open spec fn well_formed(&self) -> bool {
        &&& (self.name matches Some(n) ==> n@.len() > 0)
        &&& (self.prefix matches Some(p) ==> p@.len() > 0)
    }

    /// Lists the children of a package on its index page.
    pub fn with_sub_modules(&mut self, sub_modules: Vec<ModuleReference>)
        ensures
            final(self).sub_modules == sub_modules,
            final(self).name == old(self).name,
            final(self).prefix == old(self).prefix,
            final(self).docstring == old(self).docstring,
            final(self).functions == old(self).functions,
            final(self).classes == old(self).classes,
            final(self).exports == old(self).exports,
    {
        self.sub_modules = sub_modules;
    }
}

/// A body whose first statement is not a bare string literal has no
/// docstring, whatever string literals follow it.
pub proof fn lemma_docstring_only_from_first(first: Stmt, rest: Seq<Stmt>)
    requires
        !(first matches Stmt::Expr(Expr::Constant(Constant::Str(_)))),
    ensures
        docstring_of(seq![first] + rest) is None,
{
    assert((seq![first] + rest)[0] == first);
}

/// With undocumented items skipped, every function record that survives
/// has a docstring.
pub proof fn lemma_skip_undoc_keeps_documented(stmts: Seq<Stmt>, skip_private: bool)
    ensures
        forall|i: int|
            0 <= i < function_docs(stmts, skip_private, true).len() ==> (#[trigger] function_docs(
                stmts,
                skip_private,
                true,
            )[i]).docstring is Some,
    decreases stmts.len(),
{
    if stmts.len() > 0 {
        lemma_skip_undoc_keeps_documented(stmts.drop_last(), skip_private);
    }
}

/// With neither filter on, every direct function definition of a body has
/// a record, documented or not.
pub proof fn lemma_no_filter_keeps_every_function(stmts: Seq<Stmt>, j: int)
    requires
        0 <= j < stmts.len(),
        stmts[j] is FunctionDef || stmts[j] is AsyncFunctionDef,
    ensures
        exists|k: int|
            0 <= k < function_docs(stmts, false, false).len() && #[trigger] function_docs(
                stmts,
                false,
                false,
            )[k] == function_doc(
                match stmts[j] {
                    Stmt::FunctionDef(f) => f,
                    Stmt::AsyncFunctionDef(f) => f,
                    _ => arbitrary(),
                },
            ),
    decreases stmts.len(),
{
    let prev = function_docs(stmts.drop_last(), false, false);
    if j < stmts.len() - 1 {
        assert(stmts.drop_last()[j] == stmts[j]);
        lemma_no_filter_keeps_every_function(stmts.drop_last(), j);
        let k = choose|k: int|
            0 <= k < prev.len() && #[trigger] prev[k] == function_doc(
                match stmts[j] {
                    Stmt::FunctionDef(f) => f,
                    Stmt::AsyncFunctionDef(f) => f,
                    _ => arbitrary(),
                },
            );
        assert(function_docs(stmts, false, false)[k] == prev[k]);
    } else {
        assert(function_docs(stmts, false, false)[prev.len() as int] == function_doc(
            match stmts[j] {
                Stmt::FunctionDef(f) => f,
                Stmt::AsyncFunctionDef(f) => f,
                _ => arbitrary(),
            },
        ));
    }
}

/// `__init__` is never private, while any other name that starts with an
/// underscore is.
pub proof fn lemma_init_is_never_private(name: Seq<char>)
    ensures
        !is_private_name("__init__"@),
        name.len() > 0 && name[0] == '_' && name != "__init__"@ ==> is_private_name(name),
{
}

/// With private items skipped, no function or class record that survives
/// has a private name.
pub proof fn lemma_skip_private_omits_private(stmts: Seq<Stmt>, skip_undoc: bool)
    ensures
        forall|i: int|
            0 <= i < function_docs(stmts, true, skip_undoc).len() ==> !is_private_name(
                (#[trigger] function_docs(stmts, true, skip_undoc)[i]).name@,
            ),
        forall|i: int|
            0 <= i < class_docs(stmts, true, skip_undoc).len() ==> !is_private_name(
                (#[trigger] class_docs(stmts, true, skip_undoc)[i]).0@,
            ),
    decreases stmts.len(),
{
    if stmts.len() > 0 {
        lemma_skip_private_omits_private(stmts.drop_last(), skip_undoc);
        let prev = class_docs(stmts.drop_last(), true, skip_undoc);
        let cur = class_docs(stmts, true, skip_undoc);
        assert forall|i: int| 0 <= i < cur.len() implies !is_private_name(
            (#[trigger] cur[i]).0@,
        ) by {
            if i < prev.len() {
                assert(cur[i] == prev[i]);
            }
        }
    }
}

/// A later declaration of `__all__` overrides every earlier one entirely.
pub proof fn lemma_later_exports_override(stmts: Seq<Stmt>, later: Seq<Stmt>)
    requires
        exports_of(later) is Some,
    ensures
        exports_of(stmts + later) == exports_of(later),
    decreases later.len(),
{
    let all = stmts + later;
    assert(all.last() == later.last());
    assert(all.drop_last() =~= stmts + later.drop_last());
    if exports_of_stmt(later.last()) is None {
        lemma_later_exports_override(stmts, later.drop_last());
    }
}

/// A declaration whose list holds only string literals exports exactly
/// those strings, in order.
pub proof fn lemma_string_list_exported(elts: Seq<Expr>)
    requires
        forall|i: int| 0 <= i < elts.len() ==> (#[trigger] elts[i]) matches Expr::Constant(Constant::Str(_)),
    ensures
        string_elements(elts).len() == elts.len(),
        forall|i: int|
            0 <= i < elts.len() ==> elts[i] == Expr::Constant(Constant::Str(#[trigger] string_elements(elts)[i])),
    decreases elts.len(),
{
    if elts.len() > 0 {
        let prev = elts.drop_last();
        assert forall|i: int| 0 <= i < prev.len() implies (#[trigger] prev[i]) matches Expr::Constant(Constant::Str(_)) by {
            assert(prev[i] == elts[i]);
        }
        lemma_string_list_exported(prev);
        assert(elts.last() matches Expr::Constant(Constant::Str(_)));
        assert forall|i: int| 0 <= i < elts.len() implies elts[i] == Expr::Constant(Constant::Str(#[trigger] string_elements(elts)[i])) by {
            if i < elts.len() - 1 {
                assert(prev[i] == elts[i]);
            }
        }
    }
}

} // verus!
