use snakedown::paths::{
    classify_entry, get_module_name, get_python_prefix, is_private_module, is_python_module,
    path_components, strip_root, translate_filename, EntryKind, PackageIndex, PathError,
};

#[test]
fn test_get_python_prefix_package() {
    let input = "foo/bar/baz/__init__.py";
    let expected = String::from("foo.bar");
    assert_eq!(get_python_prefix(input), Ok(Some(expected)));
}

#[test]
fn test_get_python_prefix_module() {
    let input = "foo/bar/baz/mew.py";
    let expected = String::from("foo.bar.baz");
    assert_eq!(get_python_prefix(input), Ok(Some(expected)));
}

#[test]
fn test_shallow_prefix() {
    let input = "foo/__init__.py";
    assert_eq!(get_python_prefix(input), Ok(None));
}

#[test]
fn marker_one_level_below_root_is_qualified_by_root() {
    assert_eq!(get_python_prefix("pkg/sub/__init__.py"), Ok(Some(String::from("pkg"))));
    assert_eq!(get_python_prefix("mod.py"), Ok(None));
    assert_eq!(get_python_prefix(""), Err(PathError::NoFileName));
    assert_eq!(get_python_prefix("./pkg//a.py"), Ok(Some(String::from("pkg"))));
}

#[test]
fn test_get_module_name() {
    assert_eq!(get_module_name("tmp/foo.py"), Ok(String::from("foo")));
}

#[test]
fn test_get_package_name() {
    assert_eq!(get_module_name("tmp/test"), Ok(String::from("test")));
    assert_eq!(get_module_name("tmp/test/__init__.py"), Ok(String::from("test")));
    assert_eq!(get_module_name("__init__.py"), Err(PathError::NoParent));
    assert_eq!(get_module_name("/"), Err(PathError::NoFileName));
}

#[test]
fn test_translate_filename_init() {
    assert_eq!(translate_filename("foo/bar/__init__.py"), "foo/bar/_index.md");
}

#[test]
fn test_translate_filename_module() {
    assert_eq!(translate_filename("foo/bar/baz.py"), "foo/bar/baz.md");
    assert_eq!(translate_filename("/out/a.tar.py"), "/out/a.tar.md");
}

#[test]
fn module_and_privacy_classification() {
    assert!(is_python_module("a/b.py"));
    assert!(!is_python_module("a/b.pyc"));
    assert!(!is_python_module("a/.py"));
    assert!(is_private_module("a/_b.py"));
    assert!(!is_private_module("a/__init__.py"));
    assert!(is_private_module("a/_hidden"));
    assert_eq!(path_components("./a//b/"), vec![String::from("a"), String::from("b")]);
}

#[test]
fn entries_classified_and_pruned() {
    let exclude = vec![String::from("root/skip")];
    assert_eq!(classify_entry("root/a.py", false, false, &exclude, false), Some(EntryKind::Module));
    assert_eq!(classify_entry("root/pkg", true, true, &exclude, false), Some(EntryKind::Package));
    assert_eq!(classify_entry("root/data", true, false, &exclude, false), None);
    assert_eq!(classify_entry("root/skip", true, true, &exclude, false), None);
    assert_eq!(classify_entry("root/_p.py", false, false, &exclude, true), None);
    assert_eq!(classify_entry("root/_p.py", false, false, &exclude, false), Some(EntryKind::Module));
    assert_eq!(classify_entry("root/__init__.py", false, false, &exclude, true), Some(EntryKind::Module));
}

#[test]
fn index_records_children_per_package() {
    let mut index = PackageIndex::new();
    index.add_entry(String::from("root"), EntryKind::Package, None);
    index.add_entry(String::from("root/__init__.py"), EntryKind::Module, Some(String::from("root")));
    index.add_entry(String::from("root/a"), EntryKind::Package, Some(String::from("root")));
    index.add_entry(String::from("root/a/x.py"), EntryKind::Module, Some(String::from("root/a")));
    assert_eq!(index.package_paths, vec![String::from("root"), String::from("root/a")]);
    assert_eq!(index.module_paths.len(), 2);
    let children = index.children("root");
    let names: Vec<&str> = children.iter().map(|c| c.name.as_str()).collect();
    assert_eq!(names, vec!["root", "a"]);
    assert_eq!(index.children("root/a")[0].path, "root/a/x.py");
    assert!(index.children("elsewhere").is_empty());
}

#[test]
fn paths_relative_to_root() {
    assert_eq!(strip_root("/tmp/pkg/a/b.py", "/tmp/pkg"), Some(String::from("a/b.py")));
    assert_eq!(strip_root("/tmp/pkg", "/tmp/pkg/"), Some(String::from("")));
    assert_eq!(strip_root("pkg/a.py", "./pkg"), Some(String::from("a.py")));
    assert_eq!(strip_root("other/a.py", "pkg"), None);
    assert_eq!(strip_root("pk", "pkg"), None);
}

#[test]
fn parent_references_have_no_file_name() {
    assert_eq!(get_python_prefix("foo/.."), Err(PathError::NoFileName));
    assert_eq!(get_module_name("foo/.."), Err(PathError::NoFileName));
    assert_eq!(get_module_name("../__init__.py"), Err(PathError::NoParent));
    assert!(!is_python_module(".."));
}
