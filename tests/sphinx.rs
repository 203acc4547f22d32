use std::io::Write;

use snakedown::sphinx::{
    decompress_inventory_body, inventory_text, parse_inv_header, InvBodyError,
    parse_inv_header_value, parse_inv_version_line, CRole, ExternalSphinxRef, CppRole, InvHeaderError, JsRole,
    MathRole, PyRole, SphinxInvVersion, SphinxParseError, SphinxPriority, SphinxType, StdRole,
};

#[test]
fn test_sphinx_type_parsing_c() -> Result<(), SphinxParseError> {
    assert_eq!(SphinxType::try_from("c:enum")?, SphinxType::C(CRole::Enum));
    assert_eq!(
        SphinxType::try_from("c:enumerator")?,
        SphinxType::C(CRole::Enumerator)
    );
    assert_eq!(
        SphinxType::try_from("c:function")?,
        SphinxType::C(CRole::Function)
    );
    assert_eq!(
        SphinxType::try_from("c:functionParam")?,
        SphinxType::C(CRole::FunctionParam)
    );
    assert_eq!(
        SphinxType::try_from("c:macro")?,
        SphinxType::C(CRole::Macro)
    );
    assert_eq!(
        SphinxType::try_from("c:member")?,
        SphinxType::C(CRole::Member)
    );
    assert_eq!(SphinxType::try_from("c:type")?, SphinxType::C(CRole::Type));
    assert_eq!(SphinxType::try_from("c:var")?, SphinxType::C(CRole::Var));
    assert_eq!(
        SphinxType::try_from("c:struct")?,
        SphinxType::C(CRole::Struct)
    );
    assert_eq!(
        SphinxType::try_from("c:union")?,
        SphinxType::C(CRole::Union)
    );
    Ok(())
}
#[test]
fn test_sphinx_type_parsing_cpp() -> Result<(), SphinxParseError> {
    assert_eq!(
        SphinxType::try_from("cpp:class")?,
        SphinxType::Cpp(CppRole::Class)
    );
    assert_eq!(
        SphinxType::try_from("cpp:function")?,
        SphinxType::Cpp(CppRole::Function)
    );
    assert_eq!(
        SphinxType::try_from("cpp:functionParam")?,
        SphinxType::Cpp(CppRole::FunctionParam)
    );
    assert_eq!(
        SphinxType::try_from("cpp:templateParam")?,
        SphinxType::Cpp(CppRole::TemplateParam)
    );
    assert_eq!(
        SphinxType::try_from("cpp:member")?,
        SphinxType::Cpp(CppRole::Member)
    );
    Ok(())
}
#[test]
fn test_sphinx_type_parsing_math() -> Result<(), SphinxParseError> {
    assert_eq!(
        SphinxType::try_from("math:numref")?,
        SphinxType::Mathematics(MathRole::Numref)
    );
    Ok(())
}
#[test]
fn test_sphinx_type_parsing_js() -> Result<(), SphinxParseError> {
    assert_eq!(
        SphinxType::try_from("js:module")?,
        SphinxType::JavaScript(JsRole::Module)
    );
    assert_eq!(
        SphinxType::try_from("js:function")?,
        SphinxType::JavaScript(JsRole::Function)
    );
    assert_eq!(
        SphinxType::try_from("js:method")?,
        SphinxType::JavaScript(JsRole::Method)
    );
    assert_eq!(
        SphinxType::try_from("js:class")?,
        SphinxType::JavaScript(JsRole::Class)
    );
    assert_eq!(
        SphinxType::try_from("js:data")?,
        SphinxType::JavaScript(JsRole::Data)
    );
    Ok(())
}
#[test]
fn test_sphinx_type_parsing_py() -> Result<(), SphinxParseError> {
    assert_eq!(
        SphinxType::try_from("py:attribute")?,
        SphinxType::Python(PyRole::Attribute)
    );
    assert_eq!(
        SphinxType::try_from("py:data")?,
        SphinxType::Python(PyRole::Data)
    );
    assert_eq!(
        SphinxType::try_from("py:exception")?,
        SphinxType::Python(PyRole::Exception)
    );
    assert_eq!(
        SphinxType::try_from("py:function")?,
        SphinxType::Python(PyRole::Function)
    );
    assert_eq!(
        SphinxType::try_from("py:method")?,
        SphinxType::Python(PyRole::Method)
    );
    assert_eq!(
        SphinxType::try_from("py:module")?,
        SphinxType::Python(PyRole::Module)
    );
    assert_eq!(
        SphinxType::try_from("py:property")?,
        SphinxType::Python(PyRole::Property)
    );
    assert_eq!(
        SphinxType::try_from("py:class")?,
        SphinxType::Python(PyRole::Class)
    );
    Ok(())
}
#[test]
fn test_sphinx_type_parsing_std() -> Result<(), SphinxParseError> {
    assert_eq!(
        SphinxType::try_from("std:doc")?,
        SphinxType::Std(StdRole::Doc)
    );
    assert_eq!(
        SphinxType::try_from("std:label")?,
        SphinxType::Std(StdRole::Label)
    );
    assert_eq!(
        SphinxType::try_from("std:term")?,
        SphinxType::Std(StdRole::Term)
    );
    Ok(())
}

#[test]
fn sphinx_type_errors() {
    assert_eq!(SphinxType::try_from("nocolon"), Err(SphinxParseError::MissingColon));
    assert_eq!(
        SphinxType::try_from("go:func"),
        Err(SphinxParseError::UnknownDomain(String::from("go")))
    );
    assert_eq!(
        SphinxType::try_from("py:Function"),
        Err(SphinxParseError::UnknownRole(String::from("Function")))
    );
    assert_eq!(
        SphinxType::try_from("rst:directive"),
        Err(SphinxParseError::UnknownRole(String::from("directive")))
    );
    assert_eq!(
        SphinxType::try_from("py:data:extra"),
        Err(SphinxParseError::UnknownRole(String::from("data:extra")))
    );
}

#[test]
fn sphinx_priority_parsing() {
    assert_eq!(SphinxPriority::try_from("-1"), Ok(SphinxPriority::Omit));
    assert_eq!(SphinxPriority::try_from("1"), Ok(SphinxPriority::Standard));
    assert_eq!(SphinxPriority::try_from("0"), Ok(SphinxPriority::High));
    assert_eq!(SphinxPriority::try_from("2"), Ok(SphinxPriority::Low));
    assert_eq!(
        SphinxPriority::try_from("3"),
        Err(SphinxParseError::UnknownPriority(String::from("3")))
    );
}

#[test]
fn inventory_version_lines() {
    assert_eq!(parse_inv_version_line("# Sphinx inventory version 2\n"), Ok(SphinxInvVersion::V2));
    assert_eq!(parse_inv_version_line("# Sphinx inventory version 1"), Ok(SphinxInvVersion::V1));
    assert_eq!(parse_inv_version_line("# Sphinx inventory version +02"), Ok(SphinxInvVersion::V2));
    assert_eq!(
        parse_inv_version_line("# Sphinx inventory version 3"),
        Err(InvHeaderError::UnknownVersion(String::from("3")))
    );
    assert_eq!(
        parse_inv_version_line("# Sphinx inventory version 3.14..."),
        Err(InvHeaderError::NotANumber(String::from("3.14...")))
    );
    assert_eq!(parse_inv_version_line("# Sphinx"), Err(InvHeaderError::TooShort));
}

#[test]
fn inventory_header_values() {
    assert_eq!(parse_inv_header_value("# Project: NumPy\n"), Some(String::from("NumPy")));
    assert_eq!(parse_inv_header_value("# Version: 2.3\n"), Some(String::from("2.3")));
    assert_eq!(parse_inv_header_value("# Project"), None);
}

#[test]
fn inventory_line_fields() {
    let e = ExternalSphinxRef::try_from("numpy.ndarray py:class 1 reference/generated/numpy.ndarray.html#$ -")
        .unwrap();
    assert_eq!(e.name, "numpy.ndarray");
    assert_eq!(e.sphinx_type, SphinxType::Python(PyRole::Class));
    assert_eq!(e.priority, SphinxPriority::Standard);
    assert_eq!(e.location, "reference/generated/numpy.ndarray.html#$");
    assert_eq!(e.dispname, "-");

    let e = ExternalSphinxRef::try_from("genindex std:label -1 genindex.html Index").unwrap();
    assert_eq!(e.sphinx_type, SphinxType::Std(StdRole::Label));
    assert_eq!(e.priority, SphinxPriority::Omit);
    assert_eq!(e.dispname, "Index");
}

#[test]
fn inventory_line_name_with_spaces_and_empty_location() {
    let e = ExternalSphinxRef::try_from("a b py:class 1 x y z").unwrap();
    assert_eq!(e.name, "a b");
    assert_eq!(e.location, "x");
    assert_eq!(e.dispname, "y z");
    let e = ExternalSphinxRef::try_from("x py:data 1  disp").unwrap();
    assert_eq!(e.location, "");
    assert_eq!(e.dispname, "disp");
}

#[test]
fn inventory_line_errors() {
    assert_eq!(ExternalSphinxRef::try_from("garbage").err(), Some(SphinxParseError::MalformedLine));
    assert_eq!(
        ExternalSphinxRef::try_from("x py:thing 1 a b").err(),
        Some(SphinxParseError::UnknownRole(String::from("thing")))
    );
    assert_eq!(
        ExternalSphinxRef::try_from("x py:data 7 a b").err(),
        Some(SphinxParseError::UnknownPriority(String::from("7")))
    );
}

fn zlib(bytes: &[u8]) -> Vec<u8> {
    let mut enc = flate2::write::ZlibEncoder::new(Vec::new(), flate2::Compression::default());
    enc.write_all(bytes).unwrap();
    enc.finish().unwrap()
}

#[test]
fn inventory_body_decompression() {
    let data = zlib("numpy py:module 0 index.html#module-$ -\n".as_bytes());
    assert_eq!(
        decompress_inventory_body(&data),
        Ok(String::from("numpy py:module 0 index.html#module-$ -\n"))
    );
    assert_eq!(decompress_inventory_body(&vec![1, 2, 3]), Err(InvBodyError::NotZlib));
    assert_eq!(decompress_inventory_body(&zlib(&[0xff, 0xfe])), Err(InvBodyError::NotUtf8));
    assert_eq!(inventory_text(vec![0x68, 0x69]), Ok(String::from("hi")));
}

#[test]
fn inventory_headers() {
    let ok = parse_inv_header(
        "# Sphinx inventory version 2\n",
        "# Project: NumPy\n",
        "# Version: 2.3\n",
        "# The remainder of this file is compressed using zlib.",
    );
    assert_eq!(ok, Ok((SphinxInvVersion::V2, String::from("NumPy"), String::from("2.3"))));
    let old = parse_inv_header("# Sphinx inventory version 1", "# Project: a", "# Version: b", "zlib");
    assert_eq!(old, Err(InvHeaderError::UnsupportedVersion));
    let plain = parse_inv_header("# Sphinx inventory version 2", "# Project: a", "# Version: b", "# plain");
    assert_eq!(plain, Err(InvHeaderError::NotZlib));
    let short = parse_inv_header("# Sphinx inventory version 2", "# Pro", "# Version: b", "zlib");
    assert_eq!(short, Err(InvHeaderError::TooShort));
}
