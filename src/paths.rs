//! Paths of the package tree: naming, qualification and classification.
//! A path is text whose components are separated by `/`; empty and `.`
//! components are skipped.
use vstd::prelude::*;
use vstd::string::*;

use crate::parsing::{is_private, is_private_name, ModuleReference};
use crate::text::{
    cat, join_strings, join_texts, last_of, lemma_first_of, rfind_char, split_on, split_str,
    str_eq, texts_of,
};

verus! {

/// Why a path could not be read as a module or package.
#[derive(Debug, Clone, Copy, PartialEq, Eq, Structural)]
pub enum PathError {
    /// The path has no final component.
    NoFileName,
    /// A package marker without a directory above it.
    NoParent,
}

/// Whether a piece of a path is a component.
pub open spec fn is_component(p: Seq<char>) -> bool {
    p.len() > 0 && p != "."@
}

/// The components among the pieces, in order.
pub open spec fn keep_components(ps: Seq<Seq<char>>) -> Seq<Seq<char>>
    decreases ps.len(),
{
    if ps.len() == 0 {
        Seq::empty()
    } else {
        let prev = keep_components(ps.drop_last());
        if is_component(ps.last()) {
            prev.push(ps.last())
        } else {
            prev
        }
    }
}

/// The components of a path.
pub open spec fn components(path: Seq<char>) -> Seq<Seq<char>> {
    keep_components(split_on(path, '/'))
}

/// Splits a path into its components.
pub fn path_components(path: &str) -> (r: Vec<String>)
    ensures
        texts_of(r@) == components(path@),
{
    let pieces = split_str(path, '/');
    let ghost ps = texts_of(pieces@);
    let mut out: Vec<String> = Vec::new();
    let mut i: usize = 0;
    while i < pieces.len()
        invariant
            ps == texts_of(pieces@),
            0 <= i <= pieces.len(),
            texts_of(out@) == keep_components(ps.subrange(0, i as int)),
        decreases pieces.len() - i,
    {
        let p = pieces[i].as_str();
        let ghost before = out@;
        proof {
            reveal_strlit(".");
            assert(ps.subrange(0, i + 1).drop_last() =~= ps.subrange(0, i as int));
            assert(ps[i as int] == p@);
        }
        if p.unicode_len() > 0 && !str_eq(p, ".") {
            out.push(String::from_str(p));
            proof {
                assert(texts_of(out@) =~= texts_of(before).push(p@));
            }
        }
        i += 1;
    }
    proof {
        assert(ps.subrange(0, pieces@.len() as int) =~= ps);
    }
    out
}

/// The stem of a file name: what precedes its last dot, unless that dot
/// starts the name.
pub open spec fn stem(name: Seq<char>) -> Seq<char> {
    let d = last_of(name, '.');
    if d > 0 {
        name.subrange(0, d)
    } else {
        name
    }
}

/// The extension of a file name: what follows its last dot, unless that dot
/// starts the name.
pub open spec fn extension(name: Seq<char>) -> Option<Seq<char>> {
    let d = last_of(name, '.');
    if d > 0 {
        Some(name.subrange(d + 1, name.len() as int))
    } else {
        None
    }
}

/// The stem of a file name.
pub fn file_stem(name: &str) -> (r: String)
    ensures
        r@ == stem(name@),
{
    match rfind_char(name, '.') {
        Some(d) => if d > 0 {
            String::from_str(name.substring_char(0, d))
        } else {
            String::from_str(name)
        },
        None => String::from_str(name),
    }
}

/// The extension of a file name, if it has one.
pub fn file_extension(name: &str) -> (r: Option<String>)
    ensures
        opt_view(r) == extension(name@),
{
    let n = name.unicode_len();
    match rfind_char(name, '.') {
        Some(d) => if d > 0 {
            Some(String::from_str(name.substring_char(d + 1, n)))
        } else {
            None
        },
        None => None,
    }
}

/// The view of an optional string.
pub open spec fn opt_view(s: Option<String>) -> Option<Seq<char>> {
    match s {
        Some(x) => Some(x@),
        None => None,
    }
}

/// The file name of a path: its last component.
pub open spec fn file_name(path: Seq<char>) -> Option<Seq<char>> {
    if has_file_name(path) {
        Some(components(path).last())
    } else {
        None
    }
}

/// A path has a file name when its last component exists and is not `..`.
pub open spec fn has_file_name(path: Seq<char>) -> bool {
    components(path).len() > 0 && components(path).last() != ".."@
}

/// A path is a module when its file name has the extension `py`.
pub open spec fn is_module_path(path: Seq<char>) -> bool {
    match file_name(path) {
        Some(n) => extension(n) == Some("py"@),
        None => false,
    }
}

/// Whether a path names a Python module.
pub fn is_python_module(path: &str) -> (r: bool)
    ensures
        r == is_module_path(path@),
{
    let cs = path_components(path);
    if cs.len() == 0 {
        return false;
    }
    proof {
        assert(texts_of(cs@).last() == cs@.last()@);
    }
    if str_eq(cs[cs.len() - 1].as_str(), "..") {
        return false;
    }
    match file_extension(cs[cs.len() - 1].as_str()) {
        Some(e) => str_eq(e.as_str(), "py"),
        None => false,
    }
}

/// A module or package is private when the stem of its file name is.
pub open spec fn is_private_path(path: Seq<char>) -> bool {
    match file_name(path) {
        Some(n) => is_private_name(stem(n)),
        None => false,
    }
}

/// Whether a path names a private module or package.
pub fn is_private_module(path: &str) -> (r: bool)
    ensures
        r == is_private_path(path@),
{
    let cs = path_components(path);
    if cs.len() == 0 {
        return false;
    }
    proof {
        assert(texts_of(cs@).last() == cs@.last()@);
    }
    if str_eq(cs[cs.len() - 1].as_str(), "..") {
        return false;
    }
    let st = file_stem(cs[cs.len() - 1].as_str());
    is_private(st.as_str())
}

/// The directories whose dotted path qualifies a module: for a package
/// marker those above its own directory, for another module those of its
/// directory.
pub open spec fn prefix_dirs(cs: Seq<Seq<char>>) -> Seq<Seq<char>> {
    if cs.last() == "__init__.py"@ {
        if cs.len() >= 2 {
            cs.subrange(0, cs.len() - 2)
        } else {
            Seq::empty()
        }
    } else {
        cs.drop_last()
    }
}

/// The dotted prefix of a module path, or none when no directory qualifies it.
pub open spec fn python_prefix(path: Seq<char>) -> Option<Seq<char>> {
    let dirs = prefix_dirs(components(path));
    if !has_file_name(path) || dirs.len() == 0 {
        None
    } else {
        Some(join_texts(dirs, "."@))
    }
}

/// The dotted prefix of a module path, relative to the directory above the
/// root package.
pub fn get_python_prefix(rel_path: &str) -> (r: Result<Option<String>, PathError>)
    ensures
        match r {
            Ok(p) => has_file_name(rel_path@) && opt_view(p) == python_prefix(rel_path@),
            Err(e) => !has_file_name(rel_path@) && e == PathError::NoFileName,
        },
{
    let mut cs = path_components(rel_path);
    let n = cs.len();
    if n == 0 {
        return Err(PathError::NoFileName);
    }
    let ghost full = texts_of(cs@);
    proof {
        reveal_strlit("__init__.py");
        assert(full.last() == cs@.last()@);
    }
    if str_eq(cs[n - 1].as_str(), "..") {
        return Err(PathError::NoFileName);
    }
    let is_marker = str_eq(cs[n - 1].as_str(), "__init__.py");
    let keep = if is_marker {
        if n >= 2 {
            n - 2
        } else {
            0
        }
    } else {
        n - 1
    };
    cs.truncate(keep);
    proof {
        assert(texts_of(cs@) =~= prefix_dirs(full));
    }
    if keep == 0 {
        return Ok(None);
    }
    Ok(Some(join_strings(&cs, ".")))
}

/// The name of the module that a path documents: the stem of its file name,
/// or, for a package marker, the stem of its directory.
pub open spec fn module_name(path: Seq<char>) -> Option<Seq<char>> {
    let cs = components(path);
    if !has_file_name(path) {
        None
    } else if stem(cs.last()) == "__init__"@ {
        if cs.len() >= 2 && cs[cs.len() - 2] != ".."@ {
            Some(stem(cs[cs.len() - 2]))
        } else {
            None
        }
    } else {
        Some(stem(cs.last()))
    }
}

/// The name of the module or package that a path documents.
pub fn get_module_name(path: &str) -> (r: Result<String, PathError>)
    ensures
        match r {
            Ok(n) => module_name(path@) == Some(n@),
            Err(e) => module_name(path@) is None && (e == PathError::NoFileName <==> !has_file_name(
                path@,
            )),
        },
{
    let cs = path_components(path);
    let n = cs.len();
    if n == 0 {
        return Err(PathError::NoFileName);
    }
    let ghost full = texts_of(cs@);
    proof {
        reveal_strlit("__init__");
        assert(full.last() == cs@.last()@);
    }
    if str_eq(cs[n - 1].as_str(), "..") {
        return Err(PathError::NoFileName);
    }
    let st = file_stem(cs[n - 1].as_str());
    if str_eq(st.as_str(), "__init__") {
        proof {
            if n >= 2 {
                assert(full[n - 2] == cs@[n - 2]@);
            }
        }
        if n >= 2 && !str_eq(cs[n - 2].as_str(), "..") {
            proof {
                assert(full[n - 2] == cs@[n - 2]@);
            }
            Ok(file_stem(cs[n - 2].as_str()))
        } else {
            Err(PathError::NoParent)
        }
    } else {
        Ok(st)
    }
}

/// The output file name for a source file name: the extension replaced by
/// `md`, and a package marker renamed to the site's index page.
pub open spec fn page_file_name(name: Seq<char>) -> Seq<char> {
    if stem(name) == "__init__"@ {
        "_index.md"@
    } else {
        stem(name) + ".md"@
    }
}

/// The output path for a source path: its directory part kept as it is,
/// its file name replaced by the page's file name.
pub open spec fn page_path(path: Seq<char>) -> Seq<char> {
    let d = last_of(path, '/');
    path.subrange(0, d + 1) + page_file_name(path.subrange(d + 1, path.len() as int))
}

/// The output path of the page rendered for a source path.
pub fn translate_filename(path: &str) -> (r: String)
    ensures
        r@ == page_path(path@),
{
    let n = path.unicode_len();
    let start = match rfind_char(path, '/') {
        Some(d) => d + 1,
        None => 0,
    };
    let dir = path.substring_char(0, start);
    let name = path.substring_char(start, n);
    let st = file_stem(name);
    proof {
        reveal_strlit("__init__");
    }
    let new_name = if str_eq(st.as_str(), "__init__") {
        String::from_str("_index.md")
    } else {
        cat(st.as_str(), ".md")
    };
    cat(dir, new_name.as_str())
}

/// The components of `path` below `root`, when `root`'s components start it.
pub open spec fn components_below(path: Seq<char>, root: Seq<char>) -> Option<Seq<Seq<char>>> {
    let p = components(path);
    let r = components(root);
    if r.len() <= p.len() && p.subrange(0, r.len() as int) == r {
        Some(p.subrange(r.len() as int, p.len() as int))
    } else {
        None
    }
}

/// The path of `path` relative to `root`, as `/`-separated components, or
/// none when `path` does not lie under `root`.
pub fn strip_root(path: &str, root: &str) -> (r: Option<String>)
    ensures
        match r {
            Some(s) => components_below(path@, root@) matches Some(cs) && s@ == join_texts(cs, "/"@),
            None => components_below(path@, root@) is None,
        },
{
    let mut p = path_components(path);
    let r = path_components(root);
    let ghost pv = texts_of(p@);
    let ghost rv = texts_of(r@);
    if r.len() > p.len() {
        return None;
    }
    let mut i: usize = 0;
    while i < r.len()
        invariant
            pv == texts_of(p@),
            rv == texts_of(r@),
            pv == components(path@),
            rv == components(root@),
            r.len() <= p.len(),
            0 <= i <= r.len(),
            forall|k: int| 0 <= k < i ==> pv[k] == rv[k],
        decreases r.len() - i,
    {
        if !str_eq(p[i].as_str(), r[i].as_str()) {
            proof {
                assert(pv.subrange(0, rv.len() as int)[i as int] != rv[i as int]);
                assert(pv.subrange(0, rv.len() as int) != rv);
            }
            return None;
        }
        i += 1;
    }
    proof {
        assert(pv.subrange(0, rv.len() as int) =~= rv);
    }
    let rest = p.split_off(r.len());
    proof {
        assert(texts_of(rest@) =~= pv.subrange(rv.len() as int, pv.len() as int));
    }
    Some(join_strings(&rest, "/"))
}

/// What a walked entry is.
#[derive(Debug, Clone, Copy, PartialEq, Eq, Structural)]
pub enum EntryKind {
    Module,
    Package,
}

/// Whether `path` is one of the excluded paths.
pub open spec fn is_excluded(path: Seq<char>, exclude: Seq<String>) -> bool {
    exists|i: int| 0 <= i < exclude.len() && (#[trigger] exclude[i])@ == path
}

/// The kind of a walked entry, or none when the walk leaves out its whole
/// sub-tree: it is excluded, private while those are skipped, or neither a
/// module nor a directory that holds a package marker.
pub open spec fn entry_kind(
    path: Seq<char>,
    is_dir: bool,
    has_marker: bool,
    exclude: Seq<String>,
    skip_private: bool,
) -> Option<EntryKind> {
    if is_excluded(path, exclude) || (skip_private && is_private_path(path)) {
        None
    } else if is_module_path(path) {
        Some(EntryKind::Module)
    } else if is_dir && has_marker {
        Some(EntryKind::Package)
    } else {
        None
    }
}

/// Classifies a walked entry.
pub fn classify_entry(
    path: &str,
    is_dir: bool,
    has_marker: bool,
    exclude: &Vec<String>,
    skip_private: bool,
) -> (r: Option<EntryKind>)
    ensures
        r == entry_kind(path@, is_dir, has_marker, exclude@, skip_private),
{
    let mut excluded = false;
    let mut i: usize = 0;
    while i < exclude.len()
        invariant
            0 <= i <= exclude.len(),
            excluded == exists|k: int| 0 <= k < i && (#[trigger] exclude@[k])@ == path@,
        decreases exclude.len() - i,
    {
        if str_eq(exclude[i].as_str(), path) {
            excluded = true;
        }
        i += 1;
    }
    if excluded || (skip_private && is_private_module(path)) {
        None
    } else if is_python_module(path) {
        Some(EntryKind::Module)
    } else if is_dir && has_marker {
        Some(EntryKind::Package)
    } else {
        None
    }
}

/// A child recorded for a package directory.
#[derive(Debug)]
pub struct ChildEntry {
    pub package: String,
    pub child: ModuleReference,
}

/// The modules and packages found under a root, and the children recorded
/// for each package directory, in the order in which they were recorded.
#[derive(Debug)]
pub struct PackageIndex {
    pub module_paths: Vec<String>,
    pub package_paths: Vec<String>,
    pub sub_module_index: Vec<ChildEntry>,
}

/// The name under which a child is listed: its module name, or its path
/// when it has none.
pub open spec fn reference_name(path: Seq<char>) -> Seq<char> {
    match module_name(path) {
        Some(n) => n,
        None => path,
    }
}

/// The children recorded for `package`, in order.
pub open spec fn children_in(entries: Seq<ChildEntry>, package: Seq<char>) -> Seq<ModuleReference>
    decreases entries.len(),
{
    if entries.len() == 0 {
        Seq::empty()
    } else {
        let prev = children_in(entries.drop_last(), package);
        if entries.last().package@ == package {
            prev.push(entries.last().child)
        } else {
            prev
        }
    }
}

impl PackageIndex {
    /// The children recorded for `package`.
    pub open spec fn children_of(&self, package: Seq<char>) -> Seq<ModuleReference> {
        children_in(self.sub_module_index@, package)
    }

    /// An index with nothing recorded.
    pub fn new() -> (r: PackageIndex)
        ensures
            r.module_paths@.len() == 0,
            r.package_paths@.len() == 0,
            r.sub_module_index@.len() == 0,
    {
        PackageIndex { module_paths: Vec::new(), package_paths: Vec::new(), sub_module_index: Vec::new() }
    }

    /// Records a classified entry, and lists it among the children of its
    /// parent package directory when it has one.
    pub fn add_entry(&mut self, path: String, kind: EntryKind, parent: Option<String>)
        ensures
            kind == EntryKind::Module ==> final(self).module_paths@ == old(self).module_paths@.push(path)
                && final(self).package_paths@ == old(self).package_paths@,
            kind == EntryKind::Package ==> final(self).package_paths@ == old(self).package_paths@.push(path)
                && final(self).module_paths@ == old(self).module_paths@,
            forall|p: Seq<char>|
                !(parent matches Some(q) && q@ == p) ==> #[trigger] final(self).children_of(p)
                    == old(self).children_of(p),
            parent matches Some(q) ==> {
                let c = final(self).children_of(q@);
                &&& c.len() == old(self).children_of(q@).len() + 1
                &&& c.drop_last() == old(self).children_of(q@)
                &&& c.last().path == path
                &&& c.last().name@ == reference_name(path@)
            },
    {
        let name = match get_module_name(path.as_str()) {
            Ok(n) => n,
            Err(_) => path.clone(),
        };
        let reference = ModuleReference { name, path: path.clone() };
        match kind {
            EntryKind::Module => self.module_paths.push(path),
            EntryKind::Package => self.package_paths.push(path),
        }
        let ghost before = self.sub_module_index@;
        match parent {
            None => {},
            Some(q) => {
                self.sub_module_index.push(ChildEntry { package: q, child: reference });
                proof {
                    assert(self.sub_module_index@.drop_last() =~= before);
                }
            },
        }
    }

    /// The children recorded for `package`.
    pub fn children(&self, package: &str) -> (r: Vec<ModuleReference>)
        ensures
            r@ == self.children_of(package@),
    {
        let es = &self.sub_module_index;
        let mut out: Vec<ModuleReference> = Vec::new();
        let mut i: usize = 0;
        while i < es.len()
            invariant
                0 <= i <= es.len(),
                out@ == children_in(es@.subrange(0, i as int), package@),
            decreases es.len() - i,
        {
            proof {
                assert(es@.subrange(0, i + 1).drop_last() =~= es@.subrange(0, i as int));
            }
            if str_eq(es[i].package.as_str(), package) {
                let c = &es[i].child;
                out.push(ModuleReference { name: c.name.clone(), path: c.path.clone() });
            }
            i += 1;
        }
        proof {
            assert(es@.subrange(0, es@.len() as int) =~= es@);
        }
        out
    }
}

/// Whether a text can be one component of a path.
pub open spec fn is_plain_component(c: Seq<char>) -> bool {
    is_component(c) && forall|i: int| 0 <= i < c.len() ==> #[trigger] c[i] != '/'
}

proof fn lemma_split_after_component(c: Seq<char>, rest: Seq<char>)
    requires
        is_plain_component(c),
    ensures
        split_on(c + "/"@ + rest, '/') == seq![c] + split_on(rest, '/'),
{
    reveal_strlit("/");
    let s = c + "/"@ + rest;
    assert forall|i: int| 0 <= i < c.len() implies #[trigger] s[i] != '/' by {
        assert(s[i] == c[i]);
    }
    assert(s[c.len() as int] == '/');
    lemma_first_of(s, '/', c.len() as int);
    assert(s.subrange(0, c.len() as int) =~= c);
    assert(s.subrange(c.len() as int + 1, s.len() as int) =~= rest);
}

proof fn lemma_split_single(c: Seq<char>)
    requires
        is_plain_component(c),
    ensures
        split_on(c, '/') == seq![c],
{
    lemma_first_of(c, '/', c.len() as int);
}

/// A package marker one level below the root package is qualified by the
/// root's own name, not left without a prefix.
pub proof fn lemma_marker_below_root_prefix(root: Seq<char>, dir: Seq<char>)
    requires
        is_plain_component(root),
        is_plain_component(dir),
    ensures
        python_prefix(root + "/"@ + dir + "/"@ + "__init__.py"@) == Some(root),
{
    reveal_strlit("__init__.py");
    reveal_strlit(".");
    reveal_strlit("..");
    let marker = "__init__.py"@;
    assert(is_plain_component(marker));
    let tail = dir + "/"@ + marker;
    lemma_split_single(marker);
    lemma_split_after_component(dir, marker);
    lemma_split_after_component(root, tail);
    assert(root + "/"@ + dir + "/"@ + marker =~= root + "/"@ + tail);
    let pieces = seq![root, dir, marker];
    assert(split_on(root + "/"@ + tail, '/') =~= pieces);
    assert(pieces.drop_last() =~= seq![root, dir]);
    assert(seq![root, dir].drop_last() =~= seq![root]);
    assert(seq![root].drop_last() =~= Seq::<Seq<char>>::empty());
    let cs = keep_components(pieces);
    let none = Seq::<Seq<char>>::empty();
    assert(keep_components(none) =~= none);
    assert(seq![root].last() == root);
    assert(keep_components(seq![root]) =~= seq![root]);
    assert(seq![root, dir].last() == dir);
    assert(keep_components(seq![root, dir]) =~= seq![root, dir]);
    assert(pieces.last() == marker);
    assert(is_component(marker));
    assert(cs =~= pieces);
    assert(prefix_dirs(cs) =~= seq![root]);
    assert(marker != ".."@);
    assert(has_file_name(root + "/"@ + dir + "/"@ + marker));
}

} // verus!
