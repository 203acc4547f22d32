//! Output formats and the rendering of module documentation into pages.
use vstd::prelude::*;
use vstd::string::*;

use crate::expr::{expr_text, params_text, render_args, render_expr};
use crate::parsing::{
    class_view, ClassDocumentation, FunctionDocumentation, ModuleDocumentation,
};
use crate::text::{
    cat, cat3, dedent, dedent_docstring, lemma_occurs_in_context, occurs_in, trim, trim_end,
    trim_end_str, trim_str,
};

verus! {

/// The view of an optional text.
pub open spec fn opt_text(t: Option<&str>) -> Option<Seq<char>> {
    match t {
        Some(s) => Some(s@),
        None => None,
    }
}

/// The view of an optional string.
pub open spec fn opt_string(t: Option<String>) -> Option<Seq<char>> {
    match t {
        Some(s) => Some(s@),
        None => None,
    }
}

/// `n` heading markers.
pub open spec fn hashes(n: nat) -> Seq<char> {
    Seq::new(n, |i: int| '#')
}

/// A Markdown heading line: the markers, a space, the content and a line feed.
pub open spec fn heading_text(content: Seq<char>, level: nat) -> Seq<char> {
    hashes(level) + " "@ + content + "\n"@
}

/// Writes a Markdown heading line.
pub fn render_heading(content: &str, level: usize) -> (r: String)
    ensures
        r@ == heading_text(content@, level as nat),
{
    let mut out = render_hashes(level);
    out.append(" ");
    out.append(content);
    out.append("\n");
    out
}

/// Writes `level` heading markers.
pub fn render_hashes(level: usize) -> (r: String)
    ensures
        r@ == hashes(level as nat),
{
    let mut out = String::new();
    let mut i: usize = 0;
    while i < level
        invariant
            0 <= i <= level,
            out@ == hashes(i as nat),
        decreases level - i,
    {
        out.append("#");
        proof {
            reveal_strlit("#");
            assert(out@ =~= hashes((i + 1) as nat));
        }
        i += 1;
    }
    out
}

/// The error of a link whose target could not be resolved: the base is not
/// an absolute URL, or the relative reference cannot be joined to it.
#[derive(Debug, Clone, Copy, PartialEq, Eq, Structural)]
pub struct LinkError {}

/// An output format.
pub trait Renderer {
    /// The text of a heading of the given level.
    spec fn header_text(&self, content: Seq<char>, level: nat) -> Seq<char>;

    /// The text that opens a page with the given title.
    spec fn front_matter_text(&self, title: Option<Seq<char>>) -> Seq<char>;

    /// The text of a link to `target`.
    spec fn link_text(&self, text: Seq<char>, target: Seq<char>) -> Seq<char>;

    /// The text of a link to a page of this site, by its relative path.
    spec fn internal_link_text(&self, text: Seq<char>, path: Seq<char>) -> Seq<char>;

    fn render_header(&self, content: &str, level: usize) -> (r: String)
        ensures
            r@ == self.header_text(content@, level as nat),
    ;

    fn render_front_matter(&self, title: Option<&str>) -> (r: String)
        ensures
            r@ == self.front_matter_text(opt_text(title)),
    ;

    /// A link to `rel_url` resolved against `base_url`.
    fn render_external_ref(&self, text: String, base_url: String, rel_url: String) -> (r:
        Result<String, LinkError>)
        ensures
            match url_joined(base_url@, rel_url@) {
                Some(t) => r matches Ok(s) && s@ == self.link_text(text@, t),
                None => r is Err,
            },
    ;

    /// A link to a page of this site.
    fn render_internal_ref(&self, text: String, rel_path: String) -> (r: Result<String, LinkError>)
        ensures
            r matches Ok(s) && s@ == self.internal_link_text(text@, rel_path@),
    ;
}

/// The serialization of the URL that `rel` denotes against the absolute URL
/// `base`, or none when `base` is not a URL or the two cannot be joined.
pub uninterp spec fn url_joined(base: Seq<char>, rel: Seq<char>) -> Option<Seq<char>>;

/// Relies on `url::Url::parse` to read the base, `url::Url::join` to
/// resolve the relative reference against it, and `Display`, which writes
/// the resulting URL's serialization; each depends on its arguments alone.
#[verifier::external_body]
fn join_url(base: &str, rel: &str) -> (r: Option<String>)
    ensures
        match r {
            Some(s) => url_joined(base@, rel@) == Some(s@),
            None => url_joined(base@, rel@) is None,
        },
{
    match url::Url::parse(base) {
        Ok(b) => match b.join(rel) {
            Ok(u) => Some(u.to_string()),
            Err(_) => None,
        },
        Err(_) => None,
    }
}

/// A Markdown link.
pub open spec fn md_link(text: Seq<char>, target: Seq<char>) -> Seq<char> {
    "["@ + text + "]("@ + target + ")"@
}

/// Renders a Markdown link.
pub fn render_md_link(text: &str, target: &str) -> (r: String)
    ensures
        r@ == md_link(text@, target@),
{
    let mut out = cat3("[", text, "](");
    out.append(target);
    out.append(")");
    out
}

/// Plain Markdown output.
#[derive(Debug, Clone, Copy, PartialEq, Eq, Structural)]
pub struct MdRenderer {}

impl MdRenderer {
    /// The Markdown format.
    pub fn new() -> (r: Self) {
        MdRenderer {  }
    }
}

impl Renderer for MdRenderer {
    open spec fn header_text(&self, content: Seq<char>, level: nat) -> Seq<char> {
        heading_text(content, level)
    }

    open spec fn front_matter_text(&self, title: Option<Seq<char>>) -> Seq<char> {
        match title {
            Some(t) => heading_text(t, 1),
            None => Seq::empty(),
        }
    }

    open spec fn link_text(&self, text: Seq<char>, target: Seq<char>) -> Seq<char> {
        md_link(text, target)
    }

    open spec fn internal_link_text(&self, text: Seq<char>, path: Seq<char>) -> Seq<char> {
        md_link(text, path)
    }

    fn render_header(&self, content: &str, level: usize) -> (r: String) {
        render_heading(content, level)
    }

    fn render_front_matter(&self, title: Option<&str>) -> (r: String) {
        match title {
            Some(t) => render_heading(t, 1),
            None => String::new(),
        }
    }

    fn render_external_ref(&self, text: String, base_url: String, rel_url: String) -> (r: Result<
        String,
        LinkError,
    >) {
        match join_url(base_url.as_str(), rel_url.as_str()) {
            Some(full) => {
                let s = render_md_link(text.as_str(), full.as_str());
                proof {
                    assert(s@ == self.link_text(text@, full@));
                }
                Ok(s)
            },
            None => Err(LinkError {  }),
        }
    }

    fn render_internal_ref(&self, text: String, rel_path: String) -> (r: Result<String, LinkError>) {
        Ok(render_md_link(text.as_str(), rel_path.as_str()))
    }
}

/// The front matter block of a Zola page: `+++` lines around an optional title.
pub open spec fn zola_front_matter_text(title: Option<Seq<char>>) -> Seq<char> {
    "+++\n"@ + match title {
        Some(t) => "title = \""@ + t + "\"\n"@,
        None => Seq::empty(),
    } + "+++\n"@
}

/// A Zola shortcode invocation `{{ name(text="..", key="..") }}`.
pub open spec fn shortcode_text(name: Seq<char>, text: Seq<char>, key: Seq<char>, value: Seq<char>) -> Seq<char> {
    "{{ "@ + name + "(text=\""@ + text + "\", "@ + key + "=\""@ + value + "\") }}"@
}

fn render_shortcode(name: &str, text: &str, key: &str, value: &str) -> (r: String)
    ensures
        r@ == shortcode_text(name@, text@, key@, value@),
{
    let mut out = cat3("{{ ", name, "(text=\"");
    out.append(text);
    out.append("\", ");
    out.append(key);
    out.append("=\"");
    out.append(value);
    out.append("\") }}");
    out
}

/// Output for the Zola static site generator, optionally linking through
/// shortcodes.
#[derive(Debug, Clone, Copy, PartialEq, Eq, Structural)]
pub struct ZolaRenderer {
    pub use_shortcodes: bool,
}

impl ZolaRenderer {
    /// The Zola format; links go through shortcodes when `use_shortcodes` is set.
    pub fn new(use_shortcodes: bool) -> (r: Self)
        ensures
            r.use_shortcodes == use_shortcodes,
    {
        ZolaRenderer { use_shortcodes }
    }
}

impl Default for ZolaRenderer {
    fn default() -> (r: Self)
        ensures
            !r.use_shortcodes,
    {
        ZolaRenderer::new(false)
    }
}

impl Renderer for ZolaRenderer {
    open spec fn header_text(&self, content: Seq<char>, level: nat) -> Seq<char> {
        heading_text(content, level)
    }

    open spec fn front_matter_text(&self, title: Option<Seq<char>>) -> Seq<char> {
        zola_front_matter_text(title)
    }

    open spec fn link_text(&self, text: Seq<char>, target: Seq<char>) -> Seq<char> {
        if self.use_shortcodes {
            shortcode_text("snakedown_external_ref"@, text, "url"@, target)
        } else {
            md_link(text, target)
        }
    }

    open spec fn internal_link_text(&self, text: Seq<char>, path: Seq<char>) -> Seq<char> {
        if self.use_shortcodes {
            shortcode_text("snakedown_internal_ref"@, text, "path"@, "@/"@ + path)
        } else {
            md_link(text, "@/"@ + path)
        }
    }

    fn render_header(&self, content: &str, level: usize) -> (r: String) {
        render_heading(content, level)
    }

    fn render_front_matter(&self, title: Option<&str>) -> (r: String) {
        let mut out = String::from_str("+++\n");
        match title {
            Some(t) => {
                out.append("title = \"");
                out.append(t);
                out.append("\"\n");
            },
            None => {},
        }
        out.append("+++\n");
        out
    }

    fn render_external_ref(&self, text: String, base_url: String, rel_url: String) -> (r: Result<
        String,
        LinkError,
    >) {
        match join_url(base_url.as_str(), rel_url.as_str()) {
            Some(full) => {
                let s = if self.use_shortcodes {
                    render_shortcode("snakedown_external_ref", text.as_str(), "url", full.as_str())
                } else {
                    render_md_link(text.as_str(), full.as_str())
                };
                proof {
                    assert(s@ == self.link_text(text@, full@));
                }
                Ok(s)
            },
            None => Err(LinkError {  }),
        }
    }

    fn render_internal_ref(&self, text: String, rel_path: String) -> (r: Result<String, LinkError>) {
        let target = cat("@/", rel_path.as_str());
        if self.use_shortcodes {
            Ok(render_shortcode("snakedown_internal_ref", text.as_str(), "path", target.as_str()))
        } else {
            Ok(render_md_link(text.as_str(), target.as_str()))
        }
    }
}

/// The qualifier of a module: `prefix.name`, `prefix`, `name`, or none.
pub open spec fn qualifier(prefix: Option<Seq<char>>, name: Option<Seq<char>>) -> Option<Seq<char>> {
    match (prefix, name) {
        (None, None) => None,
        (None, Some(n)) => Some(n),
        (Some(p), None) => Some(p),
        (Some(p), Some(n)) => Some(p + "."@ + n),
    }
}

/// `name` qualified by an optional prefix.
pub open spec fn qualified(prefix: Option<Seq<char>>, name: Seq<char>) -> Seq<char> {
    match prefix {
        Some(p) => p + "."@ + name,
        None => name,
    }
}

/// The signature line of a function: `name(params)`, then ` -> returns`
/// when it has a return annotation.
pub open spec fn signature_text(f: FunctionDocumentation) -> Seq<char> {
    f.name@ + "("@ + params_text(f.args) + ")"@ + match f.return_type {
        Some(e) => " -> "@ + expr_text(e),
        None => Seq::empty(),
    }
}

/// The section of a function: its heading, its signature, and its
/// re-indented docstring.
pub open spec fn function_section<R: Renderer>(
    renderer: R,
    f: FunctionDocumentation,
    prefix: Option<Seq<char>>,
    level: nat,
) -> Seq<char> {
    renderer.header_text(qualified(prefix, f.name@), level) + "\n"@ + signature_text(f) + "\n"@
        + match f.docstring {
        Some(d) => "\n"@ + dedent(d@),
        None => Seq::empty(),
    }
}

/// The sections of the methods of a class, each trimmed and set off by line feeds.
pub open spec fn methods_text<R: Renderer>(
    renderer: R,
    ms: Seq<FunctionDocumentation>,
    prefix: Option<Seq<char>>,
    level: nat,
) -> Seq<char>
    decreases ms.len(),
{
    if ms.len() == 0 {
        Seq::empty()
    } else {
        methods_text(renderer, ms.drop_last(), prefix, level) + "\n"@ + trim(
            function_section(renderer, ms.last(), prefix, level),
        ) + "\n"@
    }
}

/// The section of a class: its heading, its re-indented docstring, and its
/// methods one level deeper, qualified by the class.
pub open spec fn class_section<R: Renderer>(
    renderer: R,
    c: (String, Option<String>, Seq<FunctionDocumentation>),
    prefix: Option<Seq<char>>,
    level: nat,
) -> Seq<char> {
    "\n"@ + renderer.header_text(qualified(prefix, c.0@), level) + match c.1 {
        Some(d) => "\n"@ + dedent(d@) + "\n"@,
        None => Seq::empty(),
    } + methods_text(renderer, c.2, Some(qualified(prefix, c.0@)), level + 1)
}

/// The sections of the module-level functions.
pub open spec fn functions_text<R: Renderer>(
    renderer: R,
    fs: Seq<FunctionDocumentation>,
    prefix: Option<Seq<char>>,
) -> Seq<char>
    decreases fs.len(),
{
    if fs.len() == 0 {
        Seq::empty()
    } else {
        functions_text(renderer, fs.drop_last(), prefix) + "\n"@ + trim_end(
            function_section(renderer, fs.last(), prefix, 2),
        ) + "\n"@
    }
}

/// The sections of the classes.
pub open spec fn classes_text<R: Renderer>(
    renderer: R,
    cs: Seq<ClassDocumentation>,
    prefix: Option<Seq<char>>,
) -> Seq<char>
    decreases cs.len(),
{
    if cs.len() == 0 {
        Seq::empty()
    } else {
        classes_text(renderer, cs.drop_last(), prefix) + trim_end(
            class_section(renderer, class_view(cs.last()), prefix, 2),
        ) + "\n"@
    }
}

/// The page of a module: front matter titled with its qualifier, its trimmed
/// docstring, then the sections of its functions and of its classes.
pub open spec fn module_text<R: Renderer>(renderer: R, doc: ModuleDocumentation) -> Seq<char> {
    let q = qualifier(opt_string(doc.prefix), opt_string(doc.name));
    renderer.front_matter_text(q) + match doc.docstring {
        Some(d) => "\n"@ + trim(d@) + "\n"@,
        None => Seq::empty(),
    } + functions_text(renderer, doc.functions@, q) + classes_text(renderer, doc.classes@, q)
}

/// `name` qualified by an optional prefix.
fn qualify(prefix: &Option<String>, name: &str) -> (r: String)
    ensures
        r@ == qualified(opt_string(*prefix), name@),
{
    match prefix {
        Some(p) => cat3(p.as_str(), ".", name),
        None => String::from_str(name),
    }
}

/// The qualifier of a module from its prefix and name.
pub fn module_qualifier(prefix: &Option<String>, name: &Option<String>) -> (r: Option<String>)
    ensures
        opt_string(r) == qualifier(opt_string(*prefix), opt_string(*name)),
{
    match (prefix, name) {
        (None, None) => None,
        (None, Some(n)) => Some(n.clone()),
        (Some(p), None) => Some(p.clone()),
        (Some(p), Some(n)) => Some(cat3(p.as_str(), ".", n.as_str())),
    }
}

/// Renders the section of one function.
pub fn render_function_docs<R: Renderer>(
    fn_docs: &FunctionDocumentation,
    prefix: &Option<String>,
    header_level: usize,
    renderer: &R,
) -> (r: String)
    ensures
        r@ == function_section(*renderer, *fn_docs, opt_string(*prefix), header_level as nat),
{
    let full_name = qualify(prefix, fn_docs.name.as_str());
    let mut out = renderer.render_header(full_name.as_str(), header_level);
    out.append("\n");
    out.append(fn_docs.name.as_str());
    out.append("(");
    let params = render_args(&fn_docs.args);
    out.append(params.as_str());
    out.append(")");
    match &fn_docs.return_type {
        Some(ret) => {
            let rs = render_expr(ret);
            out.append(" -> ");
            out.append(rs.as_str());
        },
        None => {},
    }
    out.append("\n");
    match &fn_docs.docstring {
        Some(d) => {
            let body = dedent_docstring(d.as_str());
            out.append("\n");
            out.append(body.as_str());
        },
        None => {},
    }
    proof {
        assert(out@ =~= function_section(*renderer, *fn_docs, opt_string(*prefix), header_level as nat));
    }
    out
}

/// Renders the section of one class and its methods.
pub fn render_class_docs<R: Renderer>(
    class_docs: &ClassDocumentation,
    prefix: &Option<String>,
    header_level: usize,
    renderer: &R,
) -> (r: String)
    requires
        header_level < usize::MAX,
    ensures
        r@ == class_section(*renderer, class_view(*class_docs), opt_string(*prefix), header_level as nat),
{
    let full_name = qualify(prefix, class_docs.name.as_str());
    let mut out = String::from_str("\n");
    let header = renderer.render_header(full_name.as_str(), header_level);
    out.append(header.as_str());
    match &class_docs.docstring {
        Some(d) => {
            let body = dedent_docstring(d.as_str());
            out.append("\n");
            out.append(body.as_str());
            out.append("\n");
        },
        None => {},
    }
    let ghost head = out@;
    let method_prefix = Some(full_name);
    let ms = &class_docs.methods;
    let mut i: usize = 0;
    while i < ms.len()
        invariant
            0 <= i <= ms.len(),
            header_level < usize::MAX,
            out@ == head + methods_text(*renderer, ms@.subrange(0, i as int), opt_string(method_prefix), (header_level + 1) as nat),
        decreases ms.len() - i,
    {
        let section = render_function_docs(&ms[i], &method_prefix, header_level + 1, renderer);
        let trimmed = trim_str(section.as_str());
        out.append("\n");
        out.append(trimmed.as_str());
        out.append("\n");
        proof {
            let sub = ms@.subrange(0, i + 1);
            assert(sub.drop_last() =~= ms@.subrange(0, i as int));
        }
        i += 1;
    }
    proof {
        assert(ms@.subrange(0, ms@.len() as int) =~= ms@);
    }
    out
}

/// Renders the page of a module.
pub fn render_module<R: Renderer>(mod_doc: ModuleDocumentation, renderer: &R) -> (r: String)
    ensures
        r@ == module_text(*renderer, mod_doc),
{
    let q = module_qualifier(&mod_doc.prefix, &mod_doc.name);
    let front = match &q {
        Some(t) => renderer.render_front_matter(Some(t.as_str())),
        None => renderer.render_front_matter(None),
    };
    let mut out = String::new();
    out.append(front.as_str());
    match &mod_doc.docstring {
        Some(d) => {
            let t = trim_str(d.as_str());
            out.append("\n");
            out.append(t.as_str());
            out.append("\n");
        },
        None => {},
    }
    let ghost head = out@;
    let fs = &mod_doc.functions;
    let mut i: usize = 0;
    while i < fs.len()
        invariant
            0 <= i <= fs.len(),
            out@ == head + functions_text(*renderer, fs@.subrange(0, i as int), opt_string(q)),
        decreases fs.len() - i,
    {
        let section = render_function_docs(&fs[i], &q, 2, renderer);
        let trimmed = trim_end_str(section.as_str());
        out.append("\n");
        out.append(trimmed.as_str());
        out.append("\n");
        proof {
            let sub = fs@.subrange(0, i + 1);
            assert(sub.drop_last() =~= fs@.subrange(0, i as int));
        }
        i += 1;
    }
    proof {
        assert(fs@.subrange(0, fs@.len() as int) =~= fs@);
    }
    let ghost mid = out@;
    let cs = &mod_doc.classes;
    let mut j: usize = 0;
    while j < cs.len()
        invariant
            0 <= j <= cs.len(),
            out@ == mid + classes_text(*renderer, cs@.subrange(0, j as int), opt_string(q)),
        decreases cs.len() - j,
    {
        let section = render_class_docs(&cs[j], &q, 2, renderer);
        let trimmed = trim_end_str(section.as_str());
        out.append(trimmed.as_str());
        out.append("\n");
        proof {
            let sub = cs@.subrange(0, j + 1);
            assert(sub.drop_last() =~= cs@.subrange(0, j as int));
        }
        j += 1;
    }
    proof {
        assert(cs@.subrange(0, cs@.len() as int) =~= cs@);
    }
    out
}

/// The output formats that a configuration can select.
#[derive(Debug, Clone, Copy, PartialEq, Eq, Structural)]
pub enum SSG {
    Markdown,
    Zola,
}

impl SSG {
    /// The lower-case tag of the format.
    pub fn tag(&self) -> (r: &'static str)
        ensures
            r@ == match *self {
                SSG::Markdown => "markdown"@,
                SSG::Zola => "zola"@,
            },
    {
        match self {
            SSG::Markdown => "markdown",
            SSG::Zola => "zola",
        }
    }
}

/// One of the output formats, chosen at run time.
#[derive(Debug, Clone, Copy, PartialEq, Eq, Structural)]
pub enum AnyRenderer {
    Markdown(MdRenderer),
    Zola(ZolaRenderer),
}

impl Renderer for AnyRenderer {
    open spec fn header_text(&self, content: Seq<char>, level: nat) -> Seq<char> {
        match self {
            AnyRenderer::Markdown(r) => r.header_text(content, level),
            AnyRenderer::Zola(r) => r.header_text(content, level),
        }
    }

    open spec fn front_matter_text(&self, title: Option<Seq<char>>) -> Seq<char> {
        match self {
            AnyRenderer::Markdown(r) => r.front_matter_text(title),
            AnyRenderer::Zola(r) => r.front_matter_text(title),
        }
    }

    open spec fn link_text(&self, text: Seq<char>, target: Seq<char>) -> Seq<char> {
        match self {
            AnyRenderer::Markdown(r) => r.link_text(text, target),
            AnyRenderer::Zola(r) => r.link_text(text, target),
        }
    }

    open spec fn internal_link_text(&self, text: Seq<char>, path: Seq<char>) -> Seq<char> {
        match self {
            AnyRenderer::Markdown(r) => r.internal_link_text(text, path),
            AnyRenderer::Zola(r) => r.internal_link_text(text, path),
        }
    }

    fn render_header(&self, content: &str, level: usize) -> (r: String) {
        match self {
            AnyRenderer::Markdown(r) => r.render_header(content, level),
            AnyRenderer::Zola(r) => r.render_header(content, level),
        }
    }

    fn render_front_matter(&self, title: Option<&str>) -> (r: String) {
        match self {
            AnyRenderer::Markdown(r) => r.render_front_matter(title),
            AnyRenderer::Zola(r) => r.render_front_matter(title),
        }
    }

    fn render_external_ref(&self, text: String, base_url: String, rel_url: String) -> (r: Result<
        String,
        LinkError,
    >) {
        match self {
            AnyRenderer::Markdown(m) => m.render_external_ref(text, base_url, rel_url),
            AnyRenderer::Zola(z) => z.render_external_ref(text, base_url, rel_url),
        }
    }

    fn render_internal_ref(&self, text: String, rel_path: String) -> (r: Result<String, LinkError>) {
        match self {
            AnyRenderer::Markdown(r) => r.render_internal_ref(text, rel_path),
            AnyRenderer::Zola(r) => r.render_internal_ref(text, rel_path),
        }
    }
}

/// The section of every function record stands on the module's page.
pub proof fn lemma_function_section_on_page<R: Renderer>(
    renderer: R,
    doc: ModuleDocumentation,
    k: int,
)
    requires
        0 <= k < doc.functions@.len(),
    ensures
        occurs_in(
            trim_end(
                function_section(
                    renderer,
                    doc.functions@[k],
                    qualifier(opt_string(doc.prefix), opt_string(doc.name)),
                    2,
                ),
            ),
            module_text(renderer, doc),
        ),
{
    let q = qualifier(opt_string(doc.prefix), opt_string(doc.name));
    lemma_section_in_functions_text(renderer, doc.functions@, q, k);
    let before = renderer.front_matter_text(q) + match doc.docstring {
        Some(d) => "\n"@ + trim(d@) + "\n"@,
        None => Seq::empty(),
    };
    lemma_occurs_in_context(
        trim_end(function_section(renderer, doc.functions@[k], q, 2)),
        functions_text(renderer, doc.functions@, q),
        before,
        classes_text(renderer, doc.classes@, q),
    );
    assert(module_text(renderer, doc) =~= before + functions_text(renderer, doc.functions@, q)
        + classes_text(renderer, doc.classes@, q));
}

proof fn lemma_section_in_functions_text<R: Renderer>(
    renderer: R,
    fs: Seq<FunctionDocumentation>,
    q: Option<Seq<char>>,
    k: int,
)
    requires
        0 <= k < fs.len(),
    ensures
        occurs_in(trim_end(function_section(renderer, fs[k], q, 2)), functions_text(renderer, fs, q)),
    decreases fs.len(),
{
    let sec = trim_end(function_section(renderer, fs[k], q, 2));
    let prev = functions_text(renderer, fs.drop_last(), q);
    if k < fs.len() - 1 {
        assert(fs.drop_last()[k] == fs[k]);
        lemma_section_in_functions_text(renderer, fs.drop_last(), q, k);
        lemma_occurs_in_context(
            sec,
            prev,
            Seq::empty(),
            "\n"@ + trim_end(function_section(renderer, fs.last(), q, 2)) + "\n"@,
        );
        assert(Seq::<char>::empty() + prev + ("\n"@ + trim_end(
            function_section(renderer, fs.last(), q, 2),
        ) + "\n"@) =~= functions_text(renderer, fs, q));
    } else {
        assert(sec.subrange(0int, 0int + sec.len()) =~= sec);
        assert(occurs_in(sec, sec));
        lemma_occurs_in_context(sec, sec, prev + "\n"@, "\n"@);
        assert((prev + "\n"@) + sec + "\n"@ =~= functions_text(renderer, fs, q));
    }
}

} // verus!
