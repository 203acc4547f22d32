//! Expression model and the unparser that turns it back into source text.
use vstd::prelude::*;
use vstd::string::*;

use crate::text::{cat, cat3, escape_str, escaped, join_strings, join_texts, texts_of};

verus! {

/// Binary arithmetic and bitwise operators.
#[derive(Clone, Copy, Debug, PartialEq, Eq, Structural)]
pub enum Operator {
    Add,
    Sub,
    Mult,
    MatMult,
    Div,
    Mod,
    Pow,
    LShift,
    RShift,
    BitOr,
    BitXor,
    BitAnd,
    FloorDiv,
}

/// Symbol of a binary operator.
pub open spec fn operator_text(op: Operator) -> Seq<char> {
    match op {
        Operator::Add => "+"@,
        Operator::Sub => "-"@,
        Operator::Mult => "*"@,
        Operator::MatMult => "@"@,
        Operator::Div => "/"@,
        Operator::Mod => "%"@,
        Operator::Pow => "**"@,
        Operator::LShift => "<<"@,
        Operator::RShift => ">>"@,
        Operator::BitOr => "|"@,
        Operator::BitXor => "^"@,
        Operator::BitAnd => "&"@,
        Operator::FloorDiv => "//"@,
    }
}

/// Renders a binary operator.
pub fn render_operator(op: Operator) -> (r: &'static str)
    ensures
        r@ == operator_text(op),
{
    match op {
        Operator::Add => "+",
        Operator::Sub => "-",
        Operator::Mult => "*",
        Operator::MatMult => "@",
        Operator::Div => "/",
        Operator::Mod => "%",
        Operator::Pow => "**",
        Operator::LShift => "<<",
        Operator::RShift => ">>",
        Operator::BitOr => "|",
        Operator::BitXor => "^",
        Operator::BitAnd => "&",
        Operator::FloorDiv => "//",
    }
}

/// Unary operators.
#[derive(Clone, Copy, Debug, PartialEq, Eq, Structural)]
pub enum UnaryOp {
    Invert,
    Not,
    UAdd,
    USub,
}

/// Text written before the operand of a unary operator.
pub open spec fn unaryop_text(op: UnaryOp) -> Seq<char> {
    match op {
        UnaryOp::Invert => "~"@,
        UnaryOp::Not => "not "@,
        UnaryOp::UAdd => "+"@,
        UnaryOp::USub => "-"@,
    }
}

/// Renders a unary operator.
pub fn render_unaryop(op: UnaryOp) -> (r: &'static str)
    ensures
        r@ == unaryop_text(op),
{
    match op {
        UnaryOp::Invert => "~",
        UnaryOp::Not => "not ",
        UnaryOp::UAdd => "+",
        UnaryOp::USub => "-",
    }
}

/// Comparison operators of a chained comparison.
#[derive(Clone, Copy, Debug, PartialEq, Eq, Structural)]
pub enum CmpOp {
    Eq,
    NotEq,
    Lt,
    LtE,
    Gt,
    GtE,
    Is,
    IsNot,
    In,
    NotIn,
}

/// Symbol of a comparison operator.
pub open spec fn cmp_op_text(op: CmpOp) -> Seq<char> {
    match op {
        CmpOp::Eq => "="@,
        CmpOp::NotEq => "!="@,
        CmpOp::Lt => "<"@,
        CmpOp::LtE => "<="@,
        CmpOp::Gt => ">"@,
        CmpOp::GtE => ">="@,
        CmpOp::Is => "is"@,
        CmpOp::IsNot => "is not"@,
        CmpOp::In => "in"@,
        CmpOp::NotIn => "not in"@,
    }
}

/// Renders a comparison operator.
pub fn render_cmp_op(op: CmpOp) -> (r: &'static str)
    ensures
        r@ == cmp_op_text(op),
{
    match op {
        CmpOp::Eq => "=",
        CmpOp::NotEq => "!=",
        CmpOp::Lt => "<",
        CmpOp::LtE => "<=",
        CmpOp::Gt => ">",
        CmpOp::GtE => ">=",
        CmpOp::Is => "is",
        CmpOp::IsNot => "is not",
        CmpOp::In => "in",
        CmpOp::NotIn => "not in",
    }
}

/// Boolean connectives.
#[derive(Clone, Copy, Debug, PartialEq, Eq, Structural)]
pub enum BoolOp {
    And,
    Or,
}

/// The keyword between the operands of a boolean combination, with its spaces.
pub open spec fn bool_op_text(op: BoolOp) -> Seq<char> {
    match op {
        BoolOp::And => " and "@,
        BoolOp::Or => " or "@,
    }
}

/// Renders a boolean connective with its spaces.
pub fn render_bool_op(op: BoolOp) -> (r: &'static str)
    ensures
        r@ == bool_op_text(op),
{
    match op {
        BoolOp::And => " and ",
        BoolOp::Or => " or ",
    }
}

/// A floating-point literal as the logic reads it: its decimal text, and
/// whether its magnitude is below the machine epsilon.
#[derive(Clone, Debug, PartialEq, Eq)]
pub struct FloatLiteral {
    pub text: String,
    pub near_zero: bool,
}

/// Literal constants.
#[derive(Debug)]
pub enum Constant {
    PyNone,
    Bool(bool),
    Str(String),
    /// An integer literal, as its decimal digits.
    Int(String),
    Tuple(Vec<Constant>),
    Float(FloatLiteral),
    Complex { real_part: FloatLiteral, imag_part: FloatLiteral },
    Ellipsis,
}

/// Canonical text of a complex literal: the imaginary part alone when the
/// real_part part is negligible, the real_part part alone when the imaginary part is,
/// and both otherwise.
pub open spec fn complex_text(real_part: FloatLiteral, imag_part: FloatLiteral) -> Seq<char> {
    if real_part.near_zero {
        imag_part.text@ + "j"@
    } else if imag_part.near_zero {
        real_part.text@
    } else {
        real_part.text@ + "+"@ + imag_part.text@ + "j"@
    }
}

/// A tuple display of the given element texts; a single element keeps its
/// trailing comma.
pub open spec fn tuple_text(parts: Seq<Seq<char>>) -> Seq<char> {
    if parts.len() == 1 {
        "("@ + parts[0] + ",)"@
    } else {
        "("@ + join_texts(parts, ", "@) + ")"@
    }
}

/// The elements of a tuple written without parentheses, as in a subscript;
/// a single element keeps its trailing comma.
pub open spec fn bare_tuple_text(parts: Seq<Seq<char>>) -> Seq<char> {
    if parts.len() == 1 {
        parts[0] + ","@
    } else {
        join_texts(parts, ", "@)
    }
}

/// Renders a tuple display from its element texts.
pub fn render_tuple(parts: &Vec<String>) -> (r: String)
    ensures
        r@ == tuple_text(texts_of(parts@)),
{
    if parts.len() == 1 {
        cat3("(", parts[0].as_str(), ",)")
    } else {
        let inner = join_strings(parts, ", ");
        cat3("(", inner.as_str(), ")")
    }
}

/// Renders the elements of a tuple without parentheses.
pub fn render_bare_tuple(parts: &Vec<String>) -> (r: String)
    ensures
        r@ == bare_tuple_text(texts_of(parts@)),
{
    if parts.len() == 1 {
        cat(parts[0].as_str(), ",")
    } else {
        join_strings(parts, ", ")
    }
}

/// Canonical text of a constant.
pub open spec fn constant_text(c: Constant) -> Seq<char>
    decreases c,
{
    match c {
        Constant::PyNone => "None"@,
        Constant::Bool(b) => if b {
            "True"@
        } else {
            "False"@
        },
        Constant::Str(s) => "\""@ + escaped(s@) + "\""@,
        Constant::Int(digits) => digits@,
        Constant::Tuple(items) => tuple_text(constants_texts(items@)),
        Constant::Float(f) => f.text@,
        Constant::Complex { real_part, imag_part } => complex_text(real_part, imag_part),
        Constant::Ellipsis => "..."@,
    }
}

/// The text of each constant, in order.
pub open spec fn constants_texts(cs: Seq<Constant>) -> Seq<Seq<char>>
    decreases cs,
{
    if cs.len() == 0 {
        Seq::empty()
    } else {
        constants_texts(cs.subrange(0, cs.len() - 1)).push(constant_text(cs[cs.len() - 1]))
    }
}

/// Renders a constant as canonical source text.
pub fn render_constant(constant: &Constant) -> (r: String)
    ensures
        r@ == constant_text(*constant),
    decreases constant,
{
    match constant {
        Constant::PyNone => String::from_str("None"),
        Constant::Bool(b) => if *b {
            String::from_str("True")
        } else {
            String::from_str("False")
        },
        Constant::Str(s) => {
            let body = escape_str(s.as_str());
            cat3("\"", body.as_str(), "\"")
        },
        Constant::Int(digits) => digits.clone(),
        Constant::Tuple(items) => {
            let parts = render_constants(items);
            render_tuple(&parts)
        },
        Constant::Float(f) => f.text.clone(),
        Constant::Complex { real_part, imag_part } => {
            if real_part.near_zero {
                cat(imag_part.text.as_str(), "j")
            } else if imag_part.near_zero {
                real_part.text.clone()
            } else {
                let mut s = cat3(real_part.text.as_str(), "+", imag_part.text.as_str());
                s.append("j");
                s
            }
        },
        Constant::Ellipsis => String::from_str("..."),
    }
}

fn render_constants(items: &Vec<Constant>) -> (r: Vec<String>)
    ensures
        texts_of(r@) == constants_texts(items@),
    decreases items,
{
    let mut out: Vec<String> = Vec::new();
    let mut i: usize = 0;
    while i < items.len()
        invariant
            0 <= i <= items.len(),
            texts_of(out@) == constants_texts(items@.subrange(0, i as int)),
        decreases items.len() - i,
    {
        proof {
            assert(decreases_to!(items => items@[i as int]));
        }
        let s = render_constant(&items[i]);
        out.push(s);
        proof {
            let sub = items@.subrange(0, i + 1);
            assert(sub.subrange(0, i as int) =~= items@.subrange(0, i as int));
            assert(texts_of(out@) =~= constants_texts(items@.subrange(0, i as int)).push(s@));
        }
        i += 1;
    }
    proof {
        assert(items@.subrange(0, items@.len() as int) =~= items@);
    }
    out
}

/// One `for target in iter` clause of a comprehension.
#[derive(Debug)]
pub struct Comprehension {
    pub target: Expr,
    pub iter: Expr,
}

/// A keyword argument of a call; `arg` is absent for a `**mapping` argument.
#[derive(Debug)]
pub struct Keyword {
    pub arg: Option<String>,
    pub value: Expr,
}

/// An entry of a dict display; `key` is absent for a `**mapping` entry.
#[derive(Debug)]
pub struct DictEntry {
    pub key: Option<Expr>,
    pub value: Expr,
}

/// One link of a chained comparison: the operator and its right operand.
#[derive(Debug)]
pub struct Comparison {
    pub op: CmpOp,
    pub comparator: Expr,
}

/// A parameter name with its optional annotation.
#[derive(Debug)]
pub struct Arg {
    pub arg: String,
    pub annotation: Option<Box<Expr>>,
}

/// A parameter with its optional default value.
#[derive(Debug)]
pub struct ArgWithDefault {
    pub def: Arg,
    pub default: Option<Box<Expr>>,
}

/// A parameter list. A bare `*` marker is implied when keyword-only
/// parameters exist without a variadic-positional one.
#[derive(Debug)]
pub struct Arguments {
    pub posonlyargs: Vec<ArgWithDefault>,
    pub args: Vec<ArgWithDefault>,
    pub vararg: Option<Box<Arg>>,
    pub kwonlyargs: Vec<ArgWithDefault>,
    pub kwarg: Option<Box<Arg>>,
}

/// Expressions. Formatted string literals have no variant here: a source
/// holding one cannot be brought into this model and is refused when read.
#[derive(Debug)]
#[allow(inconsistent_fields)]
pub enum Expr {
    BoolOp { op: BoolOp, values: Vec<Expr> },
    NamedExpr { target: Box<Expr>, value: Box<Expr> },
    BinOp { left: Box<Expr>, op: Operator, right: Box<Expr> },
    UnaryOp { op: UnaryOp, operand: Box<Expr> },
    Lambda { args: Box<Arguments>, body: Box<Expr> },
    IfExp { test: Box<Expr>, body: Box<Expr>, orelse: Box<Expr> },
    Dict { entries: Vec<DictEntry> },
    SetExpr { elts: Vec<Expr> },
    ListComp { elt: Box<Expr>, generators: Vec<Comprehension> },
    SetComp { elt: Box<Expr>, generators: Vec<Comprehension> },
    DictComp { key: Box<Expr>, value: Box<Expr>, generators: Vec<Comprehension> },
    GeneratorExp { elt: Box<Expr>, generators: Vec<Comprehension> },
    Await { value: Box<Expr> },
    Yield { value: Option<Box<Expr>> },
    YieldFrom { value: Box<Expr> },
    Compare { left: Box<Expr>, comparisons: Vec<Comparison> },
    Call { func: Box<Expr>, args: Vec<Expr>, keywords: Vec<Keyword> },
    Constant(Constant),
    Attribute { value: Box<Expr>, attr: String },
    Subscript { value: Box<Expr>, slice: Box<Expr> },
    Starred { value: Box<Expr> },
    Name(String),
    List { elts: Vec<Expr> },
    Tuple { elts: Vec<Expr> },
    Slice { lower: Option<Box<Expr>>, upper: Option<Box<Expr>> },
}

/// Binding strength of an expression, from `yield` (0) to atoms (16): an
/// operand weaker than its context asks for is written in parentheses.
pub open spec fn prec(e: Expr) -> nat {
    match e {
        Expr::Yield { .. } | Expr::YieldFrom { .. } => 0,
        Expr::Lambda { .. } => 1,
        Expr::IfExp { .. } => 2,
        Expr::BoolOp { op, .. } => match op {
            BoolOp::Or => 3,
            BoolOp::And => 4,
        },
        Expr::UnaryOp { op, .. } => match op {
            UnaryOp::Not => 5,
            _ => 13,
        },
        Expr::Compare { .. } => 6,
        Expr::BinOp { op, .. } => operator_prec(op),
        Expr::Await { .. } => 15,
        Expr::Constant(Constant::Complex { real_part, imag_part }) => if !real_part.near_zero
            && !imag_part.near_zero {
            11
        } else {
            16
        },
        _ => 16,
    }
}

/// Binding strength of a binary operator.
pub open spec fn operator_prec(op: Operator) -> nat {
    match op {
        Operator::BitOr => 7,
        Operator::BitXor => 8,
        Operator::BitAnd => 9,
        Operator::LShift | Operator::RShift => 10,
        Operator::Add | Operator::Sub => 11,
        Operator::Pow => 14,
        _ => 12,
    }
}

/// The least binding strength of a binary operator's left and right
/// operands: the others associate to the left, `**` to the right.
pub open spec fn operand_prec(op: Operator, left: bool) -> nat {
    if op == Operator::Pow {
        if left {
            15
        } else {
            13
        }
    } else if left {
        operator_prec(op)
    } else {
        operator_prec(op) + 1
    }
}

/// `t`, the text of `e`, in parentheses when `e` binds weaker than `min`.
pub open spec fn wrap_text(e: Expr, min: nat, t: Seq<char>) -> Seq<char> {
    if prec(e) < min {
        "("@ + t + ")"@
    } else {
        t
    }
}

/// Whether the value of an attribute access needs parentheses: it binds
/// weaker than an atom, or is an integer literal, whose dot would read as a
/// decimal point.
pub open spec fn attribute_base_paren(e: Expr) -> bool {
    prec(e) < 16 || e is Constant && e->Constant_0 is Int
}

/// Text of an optional expression: empty when absent.
pub open spec fn opt_expr_text(e: Option<Box<Expr>>, min: nat) -> Seq<char>
    decreases e,
{
    match e {
        Some(x) => wrap_text(*x, min, expr_text(*x)),
        None => Seq::empty(),
    }
}

/// Canonical text of an expression: operators spaced, and operands in
/// parentheses where their binding strength asks for it.
pub open spec fn expr_text(e: Expr) -> Seq<char>
    decreases e,
{
    match e {
        Expr::BoolOp { op, values } => join_texts(
            exprs_texts(values@, prec(e) + 1),
            bool_op_text(op),
        ),
        Expr::NamedExpr { target, value } => "("@ + expr_text(*target) + " := "@ + wrap_text(
            *value,
            1,
            expr_text(*value),
        ) + ")"@,
        Expr::BinOp { left, op, right } => wrap_text(
            *left,
            operand_prec(op, true),
            expr_text(*left),
        ) + " "@ + operator_text(op) + " "@ + wrap_text(
            *right,
            operand_prec(op, false),
            expr_text(*right),
        ),
        Expr::UnaryOp { op, operand } => unaryop_text(op) + wrap_text(
            *operand,
            prec(e),
            expr_text(*operand),
        ),
        Expr::Lambda { args, body } => "lambda "@ + join_texts(params_items(*args), ", "@) + ": "@
            + wrap_text(*body, 1, expr_text(*body)),
        Expr::IfExp { test, body, orelse } => wrap_text(*body, 3, expr_text(*body)) + " if "@
            + wrap_text(*test, 3, expr_text(*test)) + " else "@ + wrap_text(
            *orelse,
            1,
            expr_text(*orelse),
        ),
        Expr::Dict { entries } => "{"@ + join_texts(entries_texts(entries@), ", "@) + "}"@,
        Expr::SetExpr { elts } => "{"@ + join_texts(exprs_texts(elts@, 1), ", "@) + "}"@,
        Expr::ListComp { elt, generators } => "["@ + wrap_text(*elt, 1, expr_text(*elt)) + " "@
            + join_texts(comps_texts(generators@), " "@) + "]"@,
        Expr::SetComp { elt, generators } => "{"@ + wrap_text(*elt, 1, expr_text(*elt)) + " "@
            + join_texts(comps_texts(generators@), " "@) + "}"@,
        Expr::DictComp { key, value, generators } => "{"@ + wrap_text(*key, 2, expr_text(*key))
            + ": "@ + wrap_text(*value, 1, expr_text(*value)) + " "@ + join_texts(
            comps_texts(generators@),
            " "@,
        ) + "}"@,
        Expr::GeneratorExp { elt, generators } => "("@ + wrap_text(*elt, 1, expr_text(*elt))
            + " "@ + join_texts(comps_texts(generators@), " "@) + ")"@,
        Expr::Await { value } => "await "@ + wrap_text(*value, 16, expr_text(*value)),
        Expr::Yield { value } => "yield "@ + opt_expr_text(value, 1),
        Expr::YieldFrom { value } => "yield from "@ + wrap_text(*value, 1, expr_text(*value)),
        Expr::Compare { left, comparisons } => wrap_text(*left, 7, expr_text(*left))
            + comparisons_text(comparisons@),
        Expr::Call { func, args, keywords } => wrap_text(*func, 16, expr_text(*func)) + "("@
            + join_texts(exprs_texts(args@, 1) + keywords_texts(keywords@), ", "@) + ")"@,
        Expr::Constant(c) => constant_text(c),
        Expr::Attribute { value, attr } => (if attribute_base_paren(*value) {
            "("@ + expr_text(*value) + ")"@
        } else {
            expr_text(*value)
        }) + "."@ + attr@,
        Expr::Subscript { value, slice } => wrap_text(*value, 16, expr_text(*value)) + "["@
            + match *slice {
            Expr::Tuple { elts } => bare_tuple_text(exprs_texts(elts@, 1)),
            other => wrap_text(other, 1, expr_text(other)),
        } + "]"@,
        Expr::Starred { value } => "*"@ + wrap_text(*value, 7, expr_text(*value)),
        Expr::Name(id) => id@,
        Expr::List { elts } => "["@ + join_texts(exprs_texts(elts@, 1), ", "@) + "]"@,
        Expr::Tuple { elts } => tuple_text(exprs_texts(elts@, 1)),
        Expr::Slice { lower, upper } => opt_expr_text(lower, 2) + ":"@ + opt_expr_text(upper, 2),
    }
}

/// The text of each expression, in order, each in parentheses when it binds
/// weaker than `min`.
pub open spec fn exprs_texts(es: Seq<Expr>, min: nat) -> Seq<Seq<char>>
    decreases es,
{
    if es.len() == 0 {
        Seq::empty()
    } else {
        exprs_texts(es.subrange(0, es.len() - 1), min).push(
            wrap_text(es[es.len() - 1], min, expr_text(es[es.len() - 1])),
        )
    }
}

/// Text of a comprehension clause.
pub open spec fn comp_text(c: Comprehension) -> Seq<char>
    decreases c,
{
    "for "@ + wrap_text(c.target, 7, expr_text(c.target)) + " in "@ + wrap_text(
        c.iter,
        3,
        expr_text(c.iter),
    )
}

/// The text of each comprehension clause, in order.
pub open spec fn comps_texts(cs: Seq<Comprehension>) -> Seq<Seq<char>>
    decreases cs,
{
    if cs.len() == 0 {
        Seq::empty()
    } else {
        comps_texts(cs.subrange(0, cs.len() - 1)).push(comp_text(cs[cs.len() - 1]))
    }
}

/// Text of a keyword argument: `name=value`, or `**value` for an unpacking.
pub open spec fn keyword_text(k: Keyword) -> Seq<char>
    decreases k,
{
    match k.arg {
        Some(name) => name@ + "="@ + wrap_text(k.value, 1, expr_text(k.value)),
        None => "**"@ + wrap_text(k.value, 1, expr_text(k.value)),
    }
}

/// The text of each keyword argument, in order.
pub open spec fn keywords_texts(ks: Seq<Keyword>) -> Seq<Seq<char>>
    decreases ks,
{
    if ks.len() == 0 {
        Seq::empty()
    } else {
        keywords_texts(ks.subrange(0, ks.len() - 1)).push(keyword_text(ks[ks.len() - 1]))
    }
}

/// Text of a dict entry: `key: value`, or `**value` for an unpacking.
pub open spec fn entry_text(d: DictEntry) -> Seq<char>
    decreases d,
{
    match d.key {
        Some(k) => wrap_text(k, 2, expr_text(k)) + ": "@ + wrap_text(d.value, 1, expr_text(d.value)),
        None => "**"@ + wrap_text(d.value, 7, expr_text(d.value)),
    }
}

/// The text of each dict entry, in order.
pub open spec fn entries_texts(ds: Seq<DictEntry>) -> Seq<Seq<char>>
    decreases ds,
{
    if ds.len() == 0 {
        Seq::empty()
    } else {
        entries_texts(ds.subrange(0, ds.len() - 1)).push(entry_text(ds[ds.len() - 1]))
    }
}

/// Text of the links of a chained comparison, each ` op operand`.
pub open spec fn comparisons_text(cs: Seq<Comparison>) -> Seq<char>
    decreases cs,
{
    if cs.len() == 0 {
        Seq::empty()
    } else {
        comparisons_text(cs.subrange(0, cs.len() - 1)) + " "@ + cmp_op_text(cs[cs.len() - 1].op)
            + " "@ + wrap_text(cs[cs.len() - 1].comparator, 7, expr_text(cs[cs.len() - 1].comparator))
    }
}

/// Text of a parameter: `name` or `name: annotation`.
pub open spec fn arg_text(a: Arg) -> Seq<char>
    decreases a,
{
    a.arg@ + match a.annotation {
        Some(ann) => ": "@ + wrap_text(*ann, 1, expr_text(*ann)),
        None => Seq::empty(),
    }
}

/// Text of a parameter with its default: `param = default` when one is given.
pub open spec fn argdef_text(d: ArgWithDefault) -> Seq<char>
    decreases d,
{
    arg_text(d.def) + match d.default {
        Some(x) => " = "@ + wrap_text(*x, 1, expr_text(*x)),
        None => Seq::empty(),
    }
}

/// The text of each parameter, in order.
pub open spec fn argdefs_texts(ds: Seq<ArgWithDefault>) -> Seq<Seq<char>>
    decreases ds,
{
    if ds.len() == 0 {
        Seq::empty()
    } else {
        argdefs_texts(ds.subrange(0, ds.len() - 1)).push(argdef_text(ds[ds.len() - 1]))
    }
}

/// The items of a parameter list in their fixed order: position-only,
/// regular, the `*` marker, keyword-only, then `**kwargs`.
pub open spec fn params_items(a: Arguments) -> Seq<Seq<char>>
    decreases a,
{
    argdefs_texts(a.posonlyargs@) + argdefs_texts(a.args@) + match a.vararg {
        Some(v) => seq!["*"@ + arg_text(*v)],
        None => if a.kwonlyargs@.len() > 0 {
            seq!["*"@]
        } else {
            Seq::empty()
        },
    } + argdefs_texts(a.kwonlyargs@) + match a.kwarg {
        Some(k) => seq!["**"@ + arg_text(*k)],
        None => Seq::empty(),
    }
}

/// Canonical text of a parameter list.
pub open spec fn params_text(a: Arguments) -> Seq<char> {
    join_texts(params_items(a), ", "@)
}

fn render_exprs(items: &Vec<Expr>, min: u8) -> (r: Vec<String>)
    ensures
        texts_of(r@) == exprs_texts(items@, min as nat),
    decreases items,
{
    let mut out: Vec<String> = Vec::new();
    let mut i: usize = 0;
    while i < items.len()
        invariant
            0 <= i <= items.len(),
            texts_of(out@) == exprs_texts(items@.subrange(0, i as int), min as nat),
        decreases items.len() - i,
    {
        proof {
            assert(decreases_to!(items => items@[i as int]));
        }
        let t = render_expr(&items[i]);
        let s = wrap(&items[i], min, t);
        out.push(s);
        proof {
            let sub = items@.subrange(0, i + 1);
            assert(sub.subrange(0, i as int) =~= items@.subrange(0, i as int));
            assert(texts_of(out@) =~= exprs_texts(items@.subrange(0, i as int), min as nat).push(s@));
        }
        i += 1;
    }
    proof {
        assert(items@.subrange(0, items@.len() as int) =~= items@);
    }
    out
}

fn render_comprehensions(items: &Vec<Comprehension>) -> (r: Vec<String>)
    ensures
        texts_of(r@) == comps_texts(items@),
    decreases items,
{
    let mut out: Vec<String> = Vec::new();
    let mut i: usize = 0;
    while i < items.len()
        invariant
            0 <= i <= items.len(),
            texts_of(out@) == comps_texts(items@.subrange(0, i as int)),
        decreases items.len() - i,
    {
        proof {
            assert(decreases_to!(items => items@[i as int]));
        }
        let s = render_comprehension(&items[i]);
        out.push(s);
        proof {
            let sub = items@.subrange(0, i + 1);
            assert(sub.subrange(0, i as int) =~= items@.subrange(0, i as int));
            assert(texts_of(out@) =~= comps_texts(items@.subrange(0, i as int)).push(s@));
        }
        i += 1;
    }
    proof {
        assert(items@.subrange(0, items@.len() as int) =~= items@);
    }
    out
}

fn render_keywords(items: &Vec<Keyword>) -> (r: Vec<String>)
    ensures
        texts_of(r@) == keywords_texts(items@),
    decreases items,
{
    let mut out: Vec<String> = Vec::new();
    let mut i: usize = 0;
    while i < items.len()
        invariant
            0 <= i <= items.len(),
            texts_of(out@) == keywords_texts(items@.subrange(0, i as int)),
        decreases items.len() - i,
    {
        proof {
            assert(decreases_to!(items => items@[i as int]));
        }
        let s = render_keyword(&items[i]);
        out.push(s);
        proof {
            let sub = items@.subrange(0, i + 1);
            assert(sub.subrange(0, i as int) =~= items@.subrange(0, i as int));
            assert(texts_of(out@) =~= keywords_texts(items@.subrange(0, i as int)).push(s@));
        }
        i += 1;
    }
    proof {
        assert(items@.subrange(0, items@.len() as int) =~= items@);
    }
    out
}

fn render_dict_entries(items: &Vec<DictEntry>) -> (r: Vec<String>)
    ensures
        texts_of(r@) == entries_texts(items@),
    decreases items,
{
    let mut out: Vec<String> = Vec::new();
    let mut i: usize = 0;
    while i < items.len()
        invariant
            0 <= i <= items.len(),
            texts_of(out@) == entries_texts(items@.subrange(0, i as int)),
        decreases items.len() - i,
    {
        proof {
            assert(decreases_to!(items => items@[i as int]));
        }
        let s = render_dict_entry(&items[i]);
        out.push(s);
        proof {
            let sub = items@.subrange(0, i + 1);
            assert(sub.subrange(0, i as int) =~= items@.subrange(0, i as int));
            assert(texts_of(out@) =~= entries_texts(items@.subrange(0, i as int)).push(s@));
        }
        i += 1;
    }
    proof {
        assert(items@.subrange(0, items@.len() as int) =~= items@);
    }
    out
}

fn render_args_with_defaults(items: &Vec<ArgWithDefault>) -> (r: Vec<String>)
    ensures
        texts_of(r@) == argdefs_texts(items@),
    decreases items,
{
    let mut out: Vec<String> = Vec::new();
    let mut i: usize = 0;
    while i < items.len()
        invariant
            0 <= i <= items.len(),
            texts_of(out@) == argdefs_texts(items@.subrange(0, i as int)),
        decreases items.len() - i,
    {
        proof {
            assert(decreases_to!(items => items@[i as int]));
        }
        let s = render_arg_with_default(&items[i]);
        out.push(s);
        proof {
            let sub = items@.subrange(0, i + 1);
            assert(sub.subrange(0, i as int) =~= items@.subrange(0, i as int));
            assert(texts_of(out@) =~= argdefs_texts(items@.subrange(0, i as int)).push(s@));
        }
        i += 1;
    }
    proof {
        assert(items@.subrange(0, items@.len() as int) =~= items@);
    }
    out
}

/// Appends the views of `b` to those of `a`.
proof fn lemma_texts_of_append(a: Seq<String>, b: Seq<String>)
    ensures
        texts_of(a + b) == texts_of(a) + texts_of(b),
{
    assert(texts_of(a + b) =~= texts_of(a) + texts_of(b));
}

fn render_opt_expr(e: &Option<Box<Expr>>, min: u8) -> (r: String)
    ensures
        r@ == opt_expr_text(*e, min as nat),
    decreases e,
{
    match e {
        Some(x) => {
            let t = render_expr(x);
            wrap(x, min, t)
        },
        None => String::new(),
    }
}

/// The binding strength of an expression.
pub fn prec_of(e: &Expr) -> (r: u8)
    ensures
        r as nat == prec(*e),
{
    match e {
        Expr::Yield { .. } | Expr::YieldFrom { .. } => 0,
        Expr::Lambda { .. } => 1,
        Expr::IfExp { .. } => 2,
        Expr::BoolOp { op, .. } => match op {
            BoolOp::Or => 3,
            BoolOp::And => 4,
        },
        Expr::UnaryOp { op, .. } => match op {
            UnaryOp::Not => 5,
            _ => 13,
        },
        Expr::Compare { .. } => 6,
        Expr::BinOp { op, .. } => operator_prec_of(*op),
        Expr::Await { .. } => 15,
        Expr::Constant(Constant::Complex { real_part, imag_part }) => if !real_part.near_zero
            && !imag_part.near_zero {
            11
        } else {
            16
        },
        _ => 16,
    }
}

/// The binding strength of a binary operator.
pub fn operator_prec_of(op: Operator) -> (r: u8)
    ensures
        r as nat == operator_prec(op),
{
    match op {
        Operator::BitOr => 7,
        Operator::BitXor => 8,
        Operator::BitAnd => 9,
        Operator::LShift | Operator::RShift => 10,
        Operator::Add | Operator::Sub => 11,
        Operator::Pow => 14,
        _ => 12,
    }
}

/// The least binding strength of an operand of `op`.
fn operand_prec_of(op: Operator, left: bool) -> (r: u8)
    ensures
        r as nat == operand_prec(op, left),
{
    let p = operator_prec_of(op);
    if op == Operator::Pow {
        if left {
            15
        } else {
            13
        }
    } else if left {
        p
    } else {
        p + 1
    }
}

/// `t`, the text of `e`, in parentheses when `e` binds weaker than `min`.
fn wrap(e: &Expr, min: u8, t: String) -> (r: String)
    ensures
        r@ == wrap_text(*e, min as nat, t@),
{
    if prec_of(e) < min {
        cat3("(", t.as_str(), ")")
    } else {
        t
    }
}


/// Renders elements joined with `sep` between brackets `open` and `close`.
fn render_delimited(open: &str, parts: &Vec<String>, sep: &str, close: &str) -> (r: String)
    ensures
        r@ == open@ + join_texts(texts_of(parts@), sep@) + close@,
{
    let inner = join_strings(parts, sep);
    cat3(open, inner.as_str(), close)
}

/// Renders a comprehension display: `open elt clauses close`.
fn render_comp_display(open: &str, head: String, parts: &Vec<String>, close: &str) -> (r: String)
    ensures
        r@ == open@ + head@ + " "@ + join_texts(texts_of(parts@), " "@) + close@,
{
    let clauses = join_strings(parts, " ");
    let mut out = String::from_str(open);
    out.append(head.as_str());
    out.append(" ");
    out.append(clauses.as_str());
    out.append(close);
    out
}

/// Renders an expression as canonical source text.
pub fn render_expr(expr: &Expr) -> (r: String)
    ensures
        r@ == expr_text(*expr),
    decreases expr,
{
    match expr {
        Expr::BoolOp { op, values } => {
            let p = prec_of(expr);
            let parts = render_exprs(values, p + 1);
            join_strings(&parts, render_bool_op(*op))
        },
        Expr::NamedExpr { target, value } => {
            let t = render_expr(target);
            let v = render_expr(value);
            let v = wrap(value, 1, v);
            let mut out = cat3("(", t.as_str(), " := ");
            out.append(v.as_str());
            out.append(")");
            out
        },
        Expr::BinOp { left, op, right } => {
            let l = render_expr(left);
            let l = wrap(left, operand_prec_of(*op, true), l);
            let rr = render_expr(right);
            let rr = wrap(right, operand_prec_of(*op, false), rr);
            let mut out = cat3(l.as_str(), " ", render_operator(*op));
            out.append(" ");
            out.append(rr.as_str());
            out
        },
        Expr::UnaryOp { op, operand } => {
            let o = render_expr(operand);
            let o = wrap(operand, prec_of(expr), o);
            cat(render_unaryop(*op), o.as_str())
        },
        Expr::Lambda { args, body } => {
            let items = render_params_items(args);
            let a = join_strings(&items, ", ");
            let b = render_expr(body);
            let b = wrap(body, 1, b);
            let mut out = cat3("lambda ", a.as_str(), ": ");
            out.append(b.as_str());
            out
        },
        Expr::IfExp { test, body, orelse } => {
            let b = render_expr(body);
            let b = wrap(body, 3, b);
            let t = render_expr(test);
            let t = wrap(test, 3, t);
            let o = render_expr(orelse);
            let o = wrap(orelse, 1, o);
            let mut out = cat3(b.as_str(), " if ", t.as_str());
            out.append(" else ");
            out.append(o.as_str());
            out
        },
        Expr::Dict { entries } => {
            let parts = render_dict_entries(entries);
            let inner = join_strings(&parts, ", ");
            cat3("{", inner.as_str(), "}")
        },
        Expr::SetExpr { elts } => {
            let parts = render_exprs(elts, 1);
            render_delimited("{", &parts, ", ", "}")
        },
        Expr::ListComp { elt, generators } => {
            let e = render_expr(elt);
            let e = wrap(elt, 1, e);
            let parts = render_comprehensions(generators);
            render_comp_display("[", e, &parts, "]")
        },
        Expr::SetComp { elt, generators } => {
            let e = render_expr(elt);
            let e = wrap(elt, 1, e);
            let parts = render_comprehensions(generators);
            render_comp_display("{", e, &parts, "}")
        },
        Expr::DictComp { key, value, generators } => {
            let k = render_expr(key);
            let k = wrap(key, 2, k);
            let v = render_expr(value);
            let v = wrap(value, 1, v);
            let head = cat3(k.as_str(), ": ", v.as_str());
            let parts = render_comprehensions(generators);
            render_comp_display("{", head, &parts, "}")
        },
        Expr::GeneratorExp { elt, generators } => {
            let e = render_expr(elt);
            let e = wrap(elt, 1, e);
            let parts = render_comprehensions(generators);
            render_comp_display("(", e, &parts, ")")
        },
        Expr::Await { value } => {
            let v = render_expr(value);
            let v = wrap(value, 16, v);
            cat("await ", v.as_str())
        },
        Expr::Yield { value } => {
            let v = render_opt_expr(value, 1);
            cat("yield ", v.as_str())
        },
        Expr::YieldFrom { value } => {
            let v = render_expr(value);
            let v = wrap(value, 1, v);
            cat("yield from ", v.as_str())
        },
        Expr::Compare { left, comparisons } => {
            let l = render_expr(left);
            let l = wrap(left, 7, l);
            let c = render_comparisons(comparisons);
            cat(l.as_str(), c.as_str())
        },
        Expr::Call { func, args, keywords } => {
            let f = render_expr(func);
            let f = wrap(func, 16, f);
            let mut parts = render_exprs(args, 1);
            let mut kws = render_keywords(keywords);
            let ghost p0 = parts@;
            let ghost k0 = kws@;
            parts.append(&mut kws);
            proof {
                lemma_texts_of_append(p0, k0);
            }
            let inner = join_strings(&parts, ", ");
            let mut out = cat3(f.as_str(), "(", inner.as_str());
            out.append(")");
            out
        },
        Expr::Constant(c) => render_constant(c),
        Expr::Attribute { value, attr } => {
            let v = render_expr(value);
            let is_int = match &**value {
                Expr::Constant(Constant::Int(_)) => true,
                _ => false,
            };
            let v = if prec_of(value) < 16 || is_int {
                cat3("(", v.as_str(), ")")
            } else {
                v
            };
            cat3(v.as_str(), ".", attr.as_str())
        },
        Expr::Subscript { value, slice } => {
            let v = render_expr(value);
            let v = wrap(value, 16, v);
            let sl = match &**slice {
                Expr::Tuple { elts } => {
                    let parts = render_exprs(elts, 1);
                    render_bare_tuple(&parts)
                },
                other => {
                    let t = render_expr(other);
                    wrap(other, 1, t)
                },
            };
            let mut out = cat3(v.as_str(), "[", sl.as_str());
            out.append("]");
            out
        },
        Expr::Starred { value } => {
            let v = render_expr(value);
            let v = wrap(value, 7, v);
            cat("*", v.as_str())
        },
        Expr::Name(id) => id.clone(),
        Expr::List { elts } => {
            let parts = render_exprs(elts, 1);
            render_delimited("[", &parts, ", ", "]")
        },
        Expr::Tuple { elts } => {
            let parts = render_exprs(elts, 1);
            render_tuple(&parts)
        },
        Expr::Slice { lower, upper } => {
            let l = render_opt_expr(lower, 2);
            let u = render_opt_expr(upper, 2);
            cat3(l.as_str(), ":", u.as_str())
        },
    }
}

/// Renders one comprehension clause: `for target in iter`.
pub fn render_comprehension(comp: &Comprehension) -> (r: String)
    ensures
        r@ == comp_text(*comp),
    decreases comp,
{
    let t = render_expr(&comp.target);
    let t = wrap(&comp.target, 7, t);
    let i = render_expr(&comp.iter);
    let i = wrap(&comp.iter, 3, i);
    let mut out = cat3("for ", t.as_str(), " in ");
    out.append(i.as_str());
    out
}

/// Renders a keyword argument of a call.
pub fn render_keyword(keyword: &Keyword) -> (r: String)
    ensures
        r@ == keyword_text(*keyword),
    decreases keyword,
{
    let v = render_expr(&keyword.value);
    let v = wrap(&keyword.value, 1, v);
    match &keyword.arg {
        Some(name) => cat3(name.as_str(), "=", v.as_str()),
        None => cat("**", v.as_str()),
    }
}

/// Renders an entry of a dict display.
pub fn render_dict_entry(entry: &DictEntry) -> (r: String)
    ensures
        r@ == entry_text(*entry),
    decreases entry,
{
    match &entry.key {
        Some(k) => {
            let ks = render_expr(k);
            let ks = wrap(k, 2, ks);
            let v = render_expr(&entry.value);
            let v = wrap(&entry.value, 1, v);
            cat3(ks.as_str(), ": ", v.as_str())
        },
        None => {
            let v = render_expr(&entry.value);
            let v = wrap(&entry.value, 7, v);
            cat("**", v.as_str())
        },
    }
}

/// Renders the links of a chained comparison.
fn render_comparisons(items: &Vec<Comparison>) -> (r: String)
    ensures
        r@ == comparisons_text(items@),
    decreases items,
{
    let mut out = String::new();
    let mut i: usize = 0;
    while i < items.len()
        invariant
            0 <= i <= items.len(),
            out@ == comparisons_text(items@.subrange(0, i as int)),
        decreases items.len() - i,
    {
        proof {
            assert(decreases_to!(items => items@[i as int]));
        }
        let c = render_expr(&items[i].comparator);
        let c = wrap(&items[i].comparator, 7, c);
        out.append(" ");
        out.append(render_cmp_op(items[i].op));
        out.append(" ");
        out.append(c.as_str());
        proof {
            let sub = items@.subrange(0, i + 1);
            assert(sub.subrange(0, i as int) =~= items@.subrange(0, i as int));
        }
        i += 1;
    }
    proof {
        assert(items@.subrange(0, items@.len() as int) =~= items@);
    }
    out
}

/// Renders a parameter: `name` or `name: annotation`.
pub fn render_arg(arg: &Arg) -> (r: String)
    ensures
        r@ == arg_text(*arg),
    decreases arg,
{
    match &arg.annotation {
        Some(ann) => {
            let a = render_expr(ann);
            let a = wrap(ann, 1, a);
            cat3(arg.arg.as_str(), ": ", a.as_str())
        },
        None => arg.arg.clone(),
    }
}

/// Renders a parameter with its default value, if it has one.
pub fn render_arg_with_default(arg: &ArgWithDefault) -> (r: String)
    ensures
        r@ == argdef_text(*arg),
    decreases arg,
{
    let a = render_arg(&arg.def);
    match &arg.default {
        Some(d) => {
            let ds = render_expr(d);
            let ds = wrap(d, 1, ds);
            cat3(a.as_str(), " = ", ds.as_str())
        },
        None => a,
    }
}

fn render_params_items(a: &Arguments) -> (r: Vec<String>)
    ensures
        texts_of(r@) == params_items(*a),
    decreases a,
{
    let mut out = render_args_with_defaults(&a.posonlyargs);
    let mut regular = render_args_with_defaults(&a.args);
    let ghost o0 = out@;
    let ghost r0 = regular@;
    out.append(&mut regular);
    proof {
        lemma_texts_of_append(o0, r0);
    }
    let ghost o1 = out@;
    match &a.vararg {
        Some(v) => {
            let vs = render_arg(v);
            out.push(cat("*", vs.as_str()));
        },
        None => {
            if a.kwonlyargs.len() > 0 {
                out.push(String::from_str("*"));
            }
        },
    }
    proof {
        assert(texts_of(out@) =~= texts_of(o1) + match a.vararg {
            Some(v) => seq!["*"@ + arg_text(*v)],
            None => if a.kwonlyargs@.len() > 0 {
                seq!["*"@]
            } else {
                Seq::<Seq<char>>::empty()
            },
        });
    }
    let ghost o2 = out@;
    let mut kwonly = render_args_with_defaults(&a.kwonlyargs);
    let ghost k0 = kwonly@;
    out.append(&mut kwonly);
    proof {
        lemma_texts_of_append(o2, k0);
    }
    let ghost o3 = out@;
    match &a.kwarg {
        Some(k) => {
            let ks = render_arg(k);
            out.push(cat("**", ks.as_str()));
        },
        None => {},
    }
    proof {
        assert(texts_of(out@) =~= texts_of(o3) + match a.kwarg {
            Some(k) => seq!["**"@ + arg_text(*k)],
            None => Seq::<Seq<char>>::empty(),
        });
    }
    out
}

/// Renders a parameter list as the comma-separated text between the
/// parentheses of a signature.
pub fn render_args(args: &Arguments) -> (r: String)
    ensures
        r@ == params_text(*args),
{
    let items = render_params_items(args);
    join_strings(&items, ", ")
}

} // verus!
