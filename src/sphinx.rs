//! Object types of Sphinx cross-reference inventories.
use vstd::prelude::*;
use vstd::utf8::*;
use vstd::string::*;

use crate::text::{
    find_char, first_of, is_whitespace, is_ws, occurs_in, starts_with_str, str_eq, trim, trim_str,
};

verus! {

/// Why an inventory field could not be read.
#[derive(Debug, Clone, PartialEq, Eq)]
pub enum SphinxParseError {
    /// A priority other than `-1`, `0`, `1` or `2`.
    UnknownPriority(String),
    /// A type without the `:` between domain and role.
    MissingColon,
    /// A domain other than the known ones.
    UnknownDomain(String),
    /// A role that the domain does not have.
    UnknownRole(String),
    /// An inventory line without its five fields.
    MalformedLine,
}

/// Display priority of an inventory entry.
#[derive(Debug, Clone, Copy, PartialEq, Eq, Structural)]
pub enum SphinxPriority {
    Omit,
    Standard,
    High,
    Low,
}

/// The priority that a field denotes.
pub open spec fn priority_of(s: Seq<char>) -> Option<SphinxPriority> {
    if s == "-1"@ {
        Some(SphinxPriority::Omit)
    } else if s == "1"@ {
        Some(SphinxPriority::Standard)
    } else if s == "0"@ {
        Some(SphinxPriority::High)
    } else if s == "2"@ {
        Some(SphinxPriority::Low)
    } else {
        None
    }
}

impl SphinxPriority {
    /// Reads a priority field.
    pub fn try_from(value: &str) -> (r: Result<SphinxPriority, SphinxParseError>)
        ensures
            match r {
                Ok(p) => priority_of(value@) == Some(p),
                Err(e) => priority_of(value@) is None && (e matches SphinxParseError::UnknownPriority(v)
                    && v@ == value@),
            },
    {
        if str_eq(value, "-1") {
            Ok(SphinxPriority::Omit)
        } else if str_eq(value, "1") {
            Ok(SphinxPriority::Standard)
        } else if str_eq(value, "0") {
            Ok(SphinxPriority::High)
        } else if str_eq(value, "2") {
            Ok(SphinxPriority::Low)
        } else {
            Err(SphinxParseError::UnknownPriority(String::from_str(value)))
        }
    }
}

#[derive(Debug, Clone, Copy, PartialEq, Eq, Structural)]
pub enum StdRole {
    Doc,
    Label,
    Term,
}

/// The role that a name denotes, in camel case.
pub open spec fn std_role_of(s: Seq<char>) -> Option<StdRole> {
    if s == "doc"@ {
        Some(StdRole::Doc)
    } else if s == "label"@ {
        Some(StdRole::Label)
    } else if s == "term"@ {
        Some(StdRole::Term)
    } else {
        None
    }
}

impl StdRole {
    /// Reads a role name.
    pub fn from_name(s: &str) -> (r: Option<StdRole>)
        ensures
            r == std_role_of(s@),
    {
        if str_eq(s, "doc") {
            Some(StdRole::Doc)
        } else if str_eq(s, "label") {
            Some(StdRole::Label)
        } else if str_eq(s, "term") {
            Some(StdRole::Term)
        } else {
            None
        }
    }
}

#[derive(Debug, Clone, Copy, PartialEq, Eq, Structural)]
pub enum CRole {
    Enum,
    Enumerator,
    Function,
    FunctionParam,
    Macro,
    Member,
    Type,
    Var,
    Struct,
    Union,
}

/// The role that a name denotes, in camel case.
pub open spec fn c_role_of(s: Seq<char>) -> Option<CRole> {
    if s == "enum"@ {
        Some(CRole::Enum)
    } else if s == "enumerator"@ {
        Some(CRole::Enumerator)
    } else if s == "function"@ {
        Some(CRole::Function)
    } else if s == "functionParam"@ {
        Some(CRole::FunctionParam)
    } else if s == "macro"@ {
        Some(CRole::Macro)
    } else if s == "member"@ {
        Some(CRole::Member)
    } else if s == "type"@ {
        Some(CRole::Type)
    } else if s == "var"@ {
        Some(CRole::Var)
    } else if s == "struct"@ {
        Some(CRole::Struct)
    } else if s == "union"@ {
        Some(CRole::Union)
    } else {
        None
    }
}

impl CRole {
    /// Reads a role name.
    pub fn from_name(s: &str) -> (r: Option<CRole>)
        ensures
            r == c_role_of(s@),
    {
        if str_eq(s, "enum") {
            Some(CRole::Enum)
        } else if str_eq(s, "enumerator") {
            Some(CRole::Enumerator)
        } else if str_eq(s, "function") {
            Some(CRole::Function)
        } else if str_eq(s, "functionParam") {
            Some(CRole::FunctionParam)
        } else if str_eq(s, "macro") {
            Some(CRole::Macro)
        } else if str_eq(s, "member") {
            Some(CRole::Member)
        } else if str_eq(s, "type") {
            Some(CRole::Type)
        } else if str_eq(s, "var") {
            Some(CRole::Var)
        } else if str_eq(s, "struct") {
            Some(CRole::Struct)
        } else if str_eq(s, "union") {
            Some(CRole::Union)
        } else {
            None
        }
    }
}

#[derive(Debug, Clone, Copy, PartialEq, Eq, Structural)]
pub enum CppRole {
    Class,
    Function,
    FunctionParam,
    Member,
    TemplateParam,
}

/// The role that a name denotes, in camel case.
pub open spec fn cpp_role_of(s: Seq<char>) -> Option<CppRole> {
    if s == "class"@ {
        Some(CppRole::Class)
    } else if s == "function"@ {
        Some(CppRole::Function)
    } else if s == "functionParam"@ {
        Some(CppRole::FunctionParam)
    } else if s == "member"@ {
        Some(CppRole::Member)
    } else if s == "templateParam"@ {
        Some(CppRole::TemplateParam)
    } else {
        None
    }
}

impl CppRole {
    /// Reads a role name.
    pub fn from_name(s: &str) -> (r: Option<CppRole>)
        ensures
            r == cpp_role_of(s@),
    {
        if str_eq(s, "class") {
            Some(CppRole::Class)
        } else if str_eq(s, "function") {
            Some(CppRole::Function)
        } else if str_eq(s, "functionParam") {
            Some(CppRole::FunctionParam)
        } else if str_eq(s, "member") {
            Some(CppRole::Member)
        } else if str_eq(s, "templateParam") {
            Some(CppRole::TemplateParam)
        } else {
            None
        }
    }
}

#[derive(Debug, Clone, Copy, PartialEq, Eq, Structural)]
pub enum JsRole {
    Module,
    Function,
    Method,
    Class,
    Data,
}

/// The role that a name denotes, in camel case.
pub open spec fn js_role_of(s: Seq<char>) -> Option<JsRole> {
    if s == "module"@ {
        Some(JsRole::Module)
    } else if s == "function"@ {
        Some(JsRole::Function)
    } else if s == "method"@ {
        Some(JsRole::Method)
    } else if s == "class"@ {
        Some(JsRole::Class)
    } else if s == "data"@ {
        Some(JsRole::Data)
    } else {
        None
    }
}

impl JsRole {
    /// Reads a role name.
    pub fn from_name(s: &str) -> (r: Option<JsRole>)
        ensures
            r == js_role_of(s@),
    {
        if str_eq(s, "module") {
            Some(JsRole::Module)
        } else if str_eq(s, "function") {
            Some(JsRole::Function)
        } else if str_eq(s, "method") {
            Some(JsRole::Method)
        } else if str_eq(s, "class") {
            Some(JsRole::Class)
        } else if str_eq(s, "data") {
            Some(JsRole::Data)
        } else {
            None
        }
    }
}

#[derive(Debug, Clone, Copy, PartialEq, Eq, Structural)]
pub enum MathRole {
    Numref,
}

/// The role that a name denotes, in camel case.
pub open spec fn math_role_of(s: Seq<char>) -> Option<MathRole> {
    if s == "numref"@ {
        Some(MathRole::Numref)
    } else {
        None
    }
}

impl MathRole {
    /// Reads a role name.
    pub fn from_name(s: &str) -> (r: Option<MathRole>)
        ensures
            r == math_role_of(s@),
    {
        if str_eq(s, "numref") {
            Some(MathRole::Numref)
        } else {
            None
        }
    }
}

#[derive(Debug, Clone, Copy, PartialEq, Eq, Structural)]
pub enum PyRole {
    Attribute,
    Data,
    Exception,
    Function,
    Method,
    Module,
    Property,
    Class,
}

/// The role that a name denotes, in camel case.
pub open spec fn py_role_of(s: Seq<char>) -> Option<PyRole> {
    if s == "attribute"@ {
        Some(PyRole::Attribute)
    } else if s == "data"@ {
        Some(PyRole::Data)
    } else if s == "exception"@ {
        Some(PyRole::Exception)
    } else if s == "function"@ {
        Some(PyRole::Function)
    } else if s == "method"@ {
        Some(PyRole::Method)
    } else if s == "module"@ {
        Some(PyRole::Module)
    } else if s == "property"@ {
        Some(PyRole::Property)
    } else if s == "class"@ {
        Some(PyRole::Class)
    } else {
        None
    }
}

impl PyRole {
    /// Reads a role name.
    pub fn from_name(s: &str) -> (r: Option<PyRole>)
        ensures
            r == py_role_of(s@),
    {
        if str_eq(s, "attribute") {
            Some(PyRole::Attribute)
        } else if str_eq(s, "data") {
            Some(PyRole::Data)
        } else if str_eq(s, "exception") {
            Some(PyRole::Exception)
        } else if str_eq(s, "function") {
            Some(PyRole::Function)
        } else if str_eq(s, "method") {
            Some(PyRole::Method)
        } else if str_eq(s, "module") {
            Some(PyRole::Module)
        } else if str_eq(s, "property") {
            Some(PyRole::Property)
        } else if str_eq(s, "class") {
            Some(PyRole::Class)
        } else {
            None
        }
    }
}

/// Roles of the reStructuredText domain. None is known, so no value of
/// this type is ever built: its field is private.
#[derive(Debug, Clone, Copy, PartialEq, Eq, Structural)]
pub struct RstRole {
    unknown: bool,
}

/// The reStructuredText role that a name denotes: none.
pub open spec fn rst_role_of(s: Seq<char>) -> Option<RstRole> {
    None
}

impl RstRole {
    /// Reads a role name; no name is known.
    pub fn from_name(s: &str) -> (r: Option<RstRole>)
        ensures
            r == rst_role_of(s@),
    {
        None
    }
}

/// The type of an inventory entry: a domain and one of its roles.
#[derive(Debug, Clone, Copy, PartialEq, Eq, Structural)]
pub enum SphinxType {
    Std(StdRole),
    C(CRole),
    Python(PyRole),
    Cpp(CppRole),
    JavaScript(JsRole),
    Mathematics(MathRole),
    ReStructuredText(RstRole),
}

/// The domain part of a `domain:role` field: what stands before its first colon.
pub open spec fn domain_part(s: Seq<char>) -> Seq<char> {
    s.subrange(0, first_of(s, ':') as int)
}

/// The role part of a `domain:role` field: what follows its first colon.
pub open spec fn role_part(s: Seq<char>) -> Seq<char> {
    s.subrange(first_of(s, ':') as int + 1, s.len() as int)
}

/// The type that a domain and a role denote, if both are known.
pub open spec fn type_of(domain: Seq<char>, role: Seq<char>) -> Option<SphinxType> {
    if domain == "std"@ {
        match std_role_of(role) {
            Some(r) => Some(SphinxType::Std(r)),
            None => None,
        }
    } else if domain == "c"@ {
        match c_role_of(role) {
            Some(r) => Some(SphinxType::C(r)),
            None => None,
        }
    } else if domain == "cpp"@ {
        match cpp_role_of(role) {
            Some(r) => Some(SphinxType::Cpp(r)),
            None => None,
        }
    } else if domain == "py"@ {
        match py_role_of(role) {
            Some(r) => Some(SphinxType::Python(r)),
            None => None,
        }
    } else if domain == "js"@ {
        match js_role_of(role) {
            Some(r) => Some(SphinxType::JavaScript(r)),
            None => None,
        }
    } else if domain == "math"@ {
        match math_role_of(role) {
            Some(r) => Some(SphinxType::Mathematics(r)),
            None => None,
        }
    } else if domain == "rst"@ {
        match rst_role_of(role) {
            Some(r) => Some(SphinxType::ReStructuredText(r)),
            None => None,
        }
    } else {
        None
    }
}

/// Whether `domain` is one of the known domains.
pub open spec fn is_known_domain(domain: Seq<char>) -> bool {
    domain == "std"@ || domain == "c"@ || domain == "cpp"@ || domain == "py"@ || domain == "js"@
        || domain == "math"@ || domain == "rst"@
}

impl SphinxType {
    /// Reads a `domain:role` field, split at its first colon.
    pub fn try_from(value: &str) -> (r: Result<SphinxType, SphinxParseError>)
        ensures
            match r {
                Ok(t) => first_of(value@, ':') < value@.len() && type_of(
                    domain_part(value@),
                    role_part(value@),
                ) == Some(t),
                Err(SphinxParseError::MissingColon) => first_of(value@, ':') == value@.len(),
                Err(SphinxParseError::UnknownDomain(d)) => first_of(value@, ':') < value@.len()
                    && !is_known_domain(domain_part(value@)) && d@ == domain_part(value@),
                Err(SphinxParseError::UnknownRole(x)) => first_of(value@, ':') < value@.len()
                    && is_known_domain(domain_part(value@)) && type_of(
                    domain_part(value@),
                    role_part(value@),
                ) is None && x@ == role_part(value@),
                Err(SphinxParseError::UnknownPriority(_)) => false,
                Err(SphinxParseError::MalformedLine) => false,
            },
    {
        let n = value.unicode_len();
        let k = find_char(value, ':');
        if k >= n {
            return Err(SphinxParseError::MissingColon);
        }
        let domain = value.substring_char(0, k);
        let role = value.substring_char(k + 1, n);
        let parsed = if str_eq(domain, "std") {
            match StdRole::from_name(role) {
                Some(r) => Some(SphinxType::Std(r)),
                None => None,
            }
        } else if str_eq(domain, "c") {
            match CRole::from_name(role) {
                Some(r) => Some(SphinxType::C(r)),
                None => None,
            }
        } else if str_eq(domain, "cpp") {
            match CppRole::from_name(role) {
                Some(r) => Some(SphinxType::Cpp(r)),
                None => None,
            }
        } else if str_eq(domain, "py") {
            match PyRole::from_name(role) {
                Some(r) => Some(SphinxType::Python(r)),
                None => None,
            }
        } else if str_eq(domain, "js") {
            match JsRole::from_name(role) {
                Some(r) => Some(SphinxType::JavaScript(r)),
                None => None,
            }
        } else if str_eq(domain, "math") {
            match MathRole::from_name(role) {
                Some(r) => Some(SphinxType::Mathematics(r)),
                None => None,
            }
        } else if str_eq(domain, "rst") {
            match RstRole::from_name(role) {
                Some(r) => Some(SphinxType::ReStructuredText(r)),
                None => None,
            }
        } else {
            return Err(SphinxParseError::UnknownDomain(String::from_str(domain)));
        };
        match parsed {
            Some(t) => Ok(t),
            None => Err(SphinxParseError::UnknownRole(String::from_str(role))),
        }
    }
}

/// An entry of a Sphinx inventory.
#[derive(Debug)]
pub struct ExternalSphinxRef {
    pub name: String,
    pub sphinx_type: SphinxType,
    pub priority: SphinxPriority,
    pub location: String,
    pub dispname: String,
}

/// Versions of the inventory format.
#[derive(Debug, Clone, Copy, PartialEq, Eq, Structural)]
pub enum SphinxInvVersion {
    V1,
    V2,
}

/// Why an inventory header could not be read.
#[derive(Debug, Clone, PartialEq, Eq)]
pub enum InvHeaderError {
    /// The line is shorter than the label it should start with.
    TooShort,
    /// The version field is not a decimal number.
    NotANumber(String),
    /// A version number other than 1 or 2.
    UnknownVersion(String),
    /// A known version whose format is not read here.
    UnsupportedVersion,
    /// The header does not say that the body is compressed with zlib.
    NotZlib,
}

/// Whether `s` is a decimal number: an optional `+` and at least one digit.
pub open spec fn is_decimal(s: Seq<char>) -> bool {
    let d = unsigned_part(s);
    d.len() > 0 && forall|i: int| 0 <= i < d.len() ==> is_digit(#[trigger] d[i])
}

/// `s` without a leading `+`.
pub open spec fn unsigned_part(s: Seq<char>) -> Seq<char> {
    if s.len() > 0 && s[0] == '+' {
        s.drop_first()
    } else {
        s
    }
}

/// Whether `c` is a decimal digit.
pub open spec fn is_digit(c: char) -> bool {
    '0' <= c && c <= '9'
}

/// The digits of a decimal number without its sign and leading zeros.
pub open spec fn significant_digits(s: Seq<char>) -> Seq<char> {
    let d = unsigned_part(s);
    d.subrange(first_non_zero(d) as int, d.len() as int)
}

/// Position of the first character of `s` that is not `0`, or its length.
pub open spec fn first_non_zero(s: Seq<char>) -> nat
    decreases s.len(),
{
    if s.len() > 0 && s[0] == '0' {
        1 + first_non_zero(s.drop_first())
    } else {
        0
    }
}

/// The header label lengths: the version stands after 27 characters, the
/// project name and version after 11.
pub open spec fn version_field(line: Seq<char>) -> Seq<char> {
    trim(line.subrange(27, line.len() as int))
}

/// Reads the version from the first header line of an inventory, which
/// reads `# Sphinx inventory version N`.
pub fn parse_inv_version_line(line: &str) -> (r: Result<SphinxInvVersion, InvHeaderError>)
    ensures
        line@.len() < 27 ==> r == Err::<SphinxInvVersion, InvHeaderError>(InvHeaderError::TooShort),
        line@.len() >= 27 ==> match r {
            Ok(SphinxInvVersion::V1) => is_decimal(version_field(line@)) && significant_digits(
                version_field(line@),
            ) == "1"@,
            Ok(SphinxInvVersion::V2) => is_decimal(version_field(line@)) && significant_digits(
                version_field(line@),
            ) == "2"@,
            Err(InvHeaderError::NotANumber(t)) => !is_decimal(version_field(line@)) && t@
                == version_field(line@),
            Err(InvHeaderError::UnknownVersion(t)) => is_decimal(version_field(line@))
                && significant_digits(version_field(line@)) != "1"@ && significant_digits(
                version_field(line@),
            ) != "2"@ && t@ == version_field(line@),
            Err(InvHeaderError::TooShort) => false,
            Err(InvHeaderError::UnsupportedVersion) => false,
            Err(InvHeaderError::NotZlib) => false,
        },
{
    let n = line.unicode_len();
    if n < 27 {
        return Err(InvHeaderError::TooShort);
    }
    let field = trim_str(line.substring_char(27, n));
    let f = field.as_str();
    let m = f.unicode_len();
    let start: usize = if m > 0 && f.get_char(0) == '+' {
        1
    } else {
        0
    };
    let digits = f.substring_char(start, m);
    proof {
        if start == 1 {
            assert(digits@ =~= f@.drop_first());
        } else {
            assert(digits@ =~= f@);
        }
    }
    let k = digits.unicode_len();
    let mut all_digits = k > 0;
    let mut i: usize = 0;
    while i < k
        invariant
            k == digits@.len(),
            0 <= i <= k,
            all_digits == (k > 0 && forall|j: int| 0 <= j < i ==> is_digit(#[trigger] digits@[j])),
        decreases k - i,
    {
        let c = digits.get_char(i);
        if !('0' <= c && c <= '9') {
            all_digits = false;
        }
        i += 1;
    }
    proof {
        let d = unsigned_part(f@);
        assert(d == digits@);
        assert(is_decimal(f@) == (d.len() > 0 && forall|j: int|
            0 <= j < d.len() ==> is_digit(#[trigger] d[j])));
    }
    if !all_digits {
        return Err(InvHeaderError::NotANumber(field));
    }
    proof {
        assert(digits@.subrange(0, k as int) =~= digits@);
    }
    let mut z: usize = 0;
    while z < k && digits.get_char(z) == '0'
        invariant
            k == digits@.len(),
            0 <= z <= k,
            forall|j: int| 0 <= j < z ==> #[trigger] digits@[j] == '0',
            first_non_zero(digits@) == z + first_non_zero(digits@.subrange(z as int, k as int)),
        decreases k - z,
    {
        proof {
            assert(digits@.subrange(z as int, k as int).drop_first() =~= digits@.subrange(z + 1, k as int));
        }
        z += 1;
    }
    proof {
        assert(digits@.subrange(0, k as int) =~= digits@);
    }
    let sig = digits.substring_char(z, k);
    proof {
        reveal_strlit("1");
        reveal_strlit("2");
    }
    if str_eq(sig, "1") {
        Ok(SphinxInvVersion::V1)
    } else if str_eq(sig, "2") {
        Ok(SphinxInvVersion::V2)
    } else {
        Err(InvHeaderError::UnknownVersion(field))
    }
}

/// The value of a header line that reads `# Project: ...` or
/// `# Version: ...`: what follows the eleven-character label, trimmed.
pub fn parse_inv_header_value(line: &str) -> (r: Option<String>)
    ensures
        match r {
            Some(v) => line@.len() >= 11 && v@ == trim(line@.subrange(11, line@.len() as int)),
            None => line@.len() < 11,
        },
{
    let n = line.unicode_len();
    if n < 11 {
        return None;
    }
    Some(trim_str(line.substring_char(11, n)))
}

/// Character classes of the inventory line format.
#[derive(Debug, Clone, Copy, PartialEq, Eq, Structural)]
pub enum CharClass {
    Space,
    NonSpace,
    Digit,
}

/// Whether `c` belongs to `class`.
pub open spec fn in_class(c: char, class: CharClass) -> bool {
    match class {
        CharClass::Space => is_ws(c),
        CharClass::NonSpace => !is_ws(c),
        CharClass::Digit => is_digit(c),
    }
}

/// The end of the run of characters of `class` that starts at `i`.
pub open spec fn run_end(s: Seq<char>, i: int, class: CharClass) -> int
    decreases s.len() - i,
{
    if 0 <= i < s.len() && in_class(s[i], class) {
        run_end(s, i + 1, class)
    } else {
        i
    }
}

/// The field boundaries of an inventory line whose name ends at `p`, as the
/// line format `name type priority location dispname` reads them: the name
/// is followed by whitespace, the type by whitespace, the priority (an
/// optional minus and digits) by whitespace, and the location (possibly
/// empty) by whitespace; the display name is the rest.
pub open spec fn fields_after(s: Seq<char>, p: int) -> Option<(int, int, int, int, int, int, int)> {
    let q = run_end(s, p, CharClass::Space);
    let t = run_end(s, q, CharClass::NonSpace);
    let u = run_end(s, t, CharClass::Space);
    let v0 = if u < s.len() && s[u] == '-' {
        u + 1
    } else {
        u
    };
    let v = run_end(s, v0, CharClass::Digit);
    let l = v + 1;
    if q == p || t == q || u == t || v == v0 || !(v < s.len() && is_ws(s[v])) {
        None
    } else if l < s.len() && is_ws(s[l]) {
        Some((q, t, u, v, l, l, run_end(s, l, CharClass::Space)))
    } else {
        let w = run_end(s, l, CharClass::NonSpace);
        if w < s.len() {
            Some((q, t, u, v, l, w, run_end(s, w, CharClass::Space)))
        } else {
            None
        }
    }
}

/// The shortest name end, from `p` on, after which the fields can be read.
pub open spec fn first_name_end(s: Seq<char>, p: int) -> Option<int>
    decreases s.len() - p,
{
    if p < 1 || p >= s.len() {
        None
    } else if fields_after(s, p) is Some {
        Some(p)
    } else {
        first_name_end(s, p + 1)
    }
}

proof fn lemma_run_end_bounds(s: Seq<char>, i: int, class: CharClass)
    requires
        0 <= i <= s.len(),
    ensures
        i <= run_end(s, i, class) <= s.len(),
    decreases s.len() - i,
{
    if i < s.len() && in_class(s[i], class) {
        lemma_run_end_bounds(s, i + 1, class);
    }
}

fn char_in_class(c: char, class: CharClass) -> (r: bool)
    ensures
        r == in_class(c, class),
{
    match class {
        CharClass::Space => is_whitespace(c),
        CharClass::NonSpace => !is_whitespace(c),
        CharClass::Digit => '0' <= c && c <= '9',
    }
}

/// The end of the run of characters of `class` that starts at `i`.
fn find_run_end(s: &str, n: usize, i: usize, class: CharClass) -> (r: usize)
    requires
        n == s@.len(),
        i <= n,
    ensures
        r == run_end(s@, i as int, class),
        i <= r <= n,
{
    let mut j = i;
    while j < n && char_in_class(s.get_char(j), class)
        invariant
            n == s@.len(),
            i <= j <= n,
            run_end(s@, i as int, class) == run_end(s@, j as int, class),
        decreases n - j,
    {
        j += 1;
    }
    j
}

/// Reads the field boundaries after a name that ends at `p`.
fn read_fields(s: &str, n: usize, p: usize) -> (r: Option<(usize, usize, usize, usize, usize, usize, usize)>)
    requires
        n == s@.len(),
        p <= n,
    ensures
        match r {
            Some((q, t, u, v, l, w, d)) => fields_after(s@, p as int) == Some(
                (q as int, t as int, u as int, v as int, l as int, w as int, d as int),
            ) && p <= q <= t <= u <= v && v < l <= w <= d <= n,
            None => fields_after(s@, p as int) is None,
        },
{
    let q = find_run_end(s, n, p, CharClass::Space);
    let t = find_run_end(s, n, q, CharClass::NonSpace);
    let u = find_run_end(s, n, t, CharClass::Space);
    let v0 = if u < n && s.get_char(u) == '-' {
        u + 1
    } else {
        u
    };
    let v = find_run_end(s, n, v0, CharClass::Digit);
    if q == p || t == q || u == t || v == v0 || !(v < n && is_whitespace(s.get_char(v))) {
        return None;
    }
    let l = v + 1;
    if l < n && is_whitespace(s.get_char(l)) {
        let d = find_run_end(s, n, l, CharClass::Space);
        Some((q, t, u, v, l, l, d))
    } else {
        let w = find_run_end(s, n, l, CharClass::NonSpace);
        if w < n {
            let d = find_run_end(s, n, w, CharClass::Space);
            Some((q, t, u, v, l, w, d))
        } else {
            None
        }
    }
}

impl ExternalSphinxRef {
    /// Reads one line of an inventory: `name type priority location
    /// dispname`, where the name is the shortest prefix after which the
    /// other fields can be read.
    pub fn try_from(value: &str) -> (r: Result<ExternalSphinxRef, SphinxParseError>)
        ensures
            match first_name_end(value@, 1) {
                None => r == Err::<ExternalSphinxRef, SphinxParseError>(SphinxParseError::MalformedLine),
                Some(p) => {
                    let (q, t, u, v, l, w, d) = fields_after(value@, p)->0;
                    let ty = value@.subrange(q, t);
                    let prio = value@.subrange(u, v);
                    match r {
                        Ok(e) => {
                            &&& e.name@ == value@.subrange(0, p)
                            &&& first_of(ty, ':') < ty.len()
                            &&& type_of(domain_part(ty), role_part(ty)) == Some(e.sphinx_type)
                            &&& priority_of(prio) == Some(e.priority)
                            &&& e.location@ == value@.subrange(l, w)
                            &&& e.dispname@ == value@.subrange(d, value@.len() as int)
                        },
                        Err(SphinxParseError::UnknownPriority(x)) => x@ == prio && priority_of(prio) is None,
                        Err(SphinxParseError::MalformedLine) => false,
                        Err(_) => !(first_of(ty, ':') < ty.len() && type_of(domain_part(ty), role_part(ty)) is Some),
                    }
                },
            },
    {
        let n = value.unicode_len();
        let mut p: usize = 1;
        while p < n
            invariant
                n == value@.len(),
                1 <= p,
                first_name_end(value@, 1) == first_name_end(value@, p as int),
            decreases n - p,
        {
            match read_fields(value, n, p) {
                Some((q, t, u, v, l, w, d)) => {
                    let name = String::from_str(value.substring_char(0, p));
                    let sphinx_type = match SphinxType::try_from(value.substring_char(q, t)) {
                        Ok(ty) => ty,
                        Err(e) => return Err(e),
                    };
                    let priority = match SphinxPriority::try_from(value.substring_char(u, v)) {
                        Ok(pr) => pr,
                        Err(e) => return Err(e),
                    };
                    let location = String::from_str(value.substring_char(l, w));
                    let dispname = String::from_str(value.substring_char(d, n));
                    return Ok(ExternalSphinxRef { name, sphinx_type, priority, location, dispname });
                },
                None => {},
            }
            p += 1;
        }
        Err(SphinxParseError::MalformedLine)
    }
}

/// The version that the first header line of an inventory gives, if any.
pub open spec fn version_of_line(line: Seq<char>) -> Option<SphinxInvVersion> {
    if line.len() < 27 || !is_decimal(version_field(line)) {
        None
    } else if significant_digits(version_field(line)) == "1"@ {
        Some(SphinxInvVersion::V1)
    } else if significant_digits(version_field(line)) == "2"@ {
        Some(SphinxInvVersion::V2)
    } else {
        None
    }
}

/// Whether `p` occurs in `s`.
pub fn contains_str(s: &str, p: &str) -> (r: bool)
    ensures
        r == occurs_in(p@, s@),
{
    let n = s.unicode_len();
    let m = p.unicode_len();
    if m > n {
        return false;
    }
    let last = n - m;
    let mut i: usize = 0;
    loop
        invariant
            n == s@.len(),
            m == p@.len(),
            m <= n,
            last == n - m,
            0 <= i <= last,
            forall|k: int| 0 <= k < i ==> #[trigger] s@.subrange(k, k + m) != p@,
        decreases last - i,
    {
        let rest = s.substring_char(i, n);
        if starts_with_str(rest, p) {
            proof {
                assert(rest@.subrange(0, m as int) =~= s@.subrange(i as int, i + m));
            }
            return true;
        }
        proof {
            assert(rest@.subrange(0, m as int) =~= s@.subrange(i as int, i + m));
        }
        if i == last {
            return false;
        }
        i += 1;
    }
}

/// Reads the four header lines of an inventory: the version, which must be
/// 2; the project name and version; and the note that the body is
/// compressed with zlib.
pub fn parse_inv_header(
    version_line: &str,
    name_line: &str,
    project_version_line: &str,
    compression_line: &str,
) -> (r: Result<(SphinxInvVersion, String, String), InvHeaderError>)
    ensures
        r is Ok <==> (version_of_line(version_line@) == Some(SphinxInvVersion::V2)
            && name_line@.len() >= 11 && project_version_line@.len() >= 11 && occurs_in(
            "zlib"@,
            compression_line@,
        )),
        r matches Ok((v, name, version)) ==> v == SphinxInvVersion::V2 && name@ == trim(
            name_line@.subrange(11, name_line@.len() as int),
        ) && version@ == trim(
            project_version_line@.subrange(11, project_version_line@.len() as int),
        ),
{
    proof {
        reveal_strlit("1");
        reveal_strlit("2");
    }
    let version = match parse_inv_version_line(version_line) {
        Ok(v) => v,
        Err(e) => return Err(e),
    };
    if version != SphinxInvVersion::V2 {
        return Err(InvHeaderError::UnsupportedVersion);
    }
    let name = match parse_inv_header_value(name_line) {
        Some(n) => n,
        None => return Err(InvHeaderError::TooShort),
    };
    let project_version = match parse_inv_header_value(project_version_line) {
        Some(v) => v,
        None => return Err(InvHeaderError::TooShort),
    };
    if !contains_str(compression_line, "zlib") {
        return Err(InvHeaderError::NotZlib);
    }
    proof {
        assert("2"@[0] != "1"@[0]);
    }
    Ok((version, name, project_version))
}

/// What a zlib stream decompresses to, or none when it is not a valid stream.
pub uninterp spec fn zlib_inflated(data: Seq<u8>) -> Option<Seq<u8>>;

/// Relies on `flate2::bufread::ZlibDecoder`, read to its end: the bytes that
/// the zlib stream at the start of `data` decompresses to, or an error when
/// it is not a valid stream.
#[verifier::external_body]
fn inflate_zlib(data: &[u8]) -> (r: Option<Vec<u8>>)
    ensures
        match r {
            Some(v) => zlib_inflated(data@) == Some(v@),
            None => zlib_inflated(data@) is None,
        },
{
    let mut decoder = flate2::bufread::ZlibDecoder::new(data);
    let mut out = Vec::new();
    match std::io::Read::read_to_end(&mut decoder, &mut out) {
        Ok(_) => Some(out),
        Err(_) => None,
    }
}

/// Relies on `String::from_utf8`, which accepts exactly the valid UTF-8
/// byte sequences and decodes them.
#[verifier::external_body]
fn utf8_string(bytes: Vec<u8>) -> (r: Option<String>)
    ensures
        match r {
            Some(s) => valid_utf8(bytes@) && s@ == decode_utf8(bytes@),
            None => !valid_utf8(bytes@),
        },
{
    String::from_utf8(bytes).ok()
}

/// Why the body of an inventory could not be read.
#[derive(Debug, Clone, Copy, PartialEq, Eq, Structural)]
pub enum InvBodyError {
    /// The body is not a zlib stream.
    NotZlib,
    /// The decompressed body is not UTF-8 text.
    NotUtf8,
}

/// The text of a decompressed inventory body.
pub fn inventory_text(inflated: Vec<u8>) -> (r: Result<String, InvBodyError>)
    ensures
        match r {
            Ok(s) => valid_utf8(inflated@) && s@ == decode_utf8(inflated@),
            Err(e) => !valid_utf8(inflated@) && e == InvBodyError::NotUtf8,
        },
{
    match utf8_string(inflated) {
        Some(s) => Ok(s),
        None => Err(InvBodyError::NotUtf8),
    }
}

/// Decompresses the body of an inventory, which follows its header, and
/// reads it as text.
pub fn decompress_inventory_body(data: &Vec<u8>) -> (r: Result<String, InvBodyError>)
    ensures
        match zlib_inflated(data@) {
            None => r == Err::<String, InvBodyError>(InvBodyError::NotZlib),
            Some(b) => match r {
                Ok(s) => valid_utf8(b) && s@ == decode_utf8(b),
                Err(e) => !valid_utf8(b) && e == InvBodyError::NotUtf8,
            },
        },
{
    match inflate_zlib(data.as_slice()) {
        Some(bytes) => inventory_text(bytes),
        None => Err(InvBodyError::NotZlib),
    }
}

} // verus!
