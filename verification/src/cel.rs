use vstd::prelude::*;

use cel_parser::{ArithmeticOp as CelArith, Atom, Expression, RelationOp as CelRel, UnaryOp as CelUnary};

verus! {

/// Arithmetic operators of the Common Expression Language.
#[derive(Clone, Copy, Debug, PartialEq, Eq, Structural)]
pub enum ArithmeticOp {
    Add,
    Subtract,
    Divide,
    Multiply,
    Modulus,
}

/// Relations of the Common Expression Language.
#[derive(Clone, Copy, Debug, PartialEq, Eq, Structural)]
pub enum RelationOp {
    LessThan,
    LessThanEq,
    GreaterThan,
    GreaterThanEq,
    Equals,
    NotEquals,
    In,
}

/// Unary operators of the Common Expression Language.
#[derive(Clone, Copy, Debug, PartialEq, Eq, Structural)]
pub enum UnaryOp {
    Not,
    DoubleNot,
    Minus,
    DoubleMinus,
}

/// Literal values. A float is held by the bits of its IEEE 754 encoding.
#[derive(Clone, Debug)]
pub enum CelAtom {
    Int(i64),
    UInt(u64),
    Float(u64),
    String(String),
    Bytes(Vec<u8>),
    Bool(bool),
    Null,
}

/// A parsed filter expression.
///
/// Ternaries, member accesses and maps, which no filter turns into SQL, are all `Other`.
pub enum CelExpr {
    Arithmetic(Box<CelExpr>, ArithmeticOp, Box<CelExpr>),
    Relation(Box<CelExpr>, RelationOp, Box<CelExpr>),
    Or(Box<CelExpr>, Box<CelExpr>),
    And(Box<CelExpr>, Box<CelExpr>),
    Unary(UnaryOp, Box<CelExpr>),
    FunctionCall(Box<CelExpr>, Option<Box<CelExpr>>, Vec<CelExpr>),
    List(Vec<CelExpr>),
    Atom(CelAtom),
    Ident(String),
    Other,
}

/// `cel_parser::Expression`, a parsed CEL expression.
#[verifier::external_type_specification]
#[verifier::external_body]
pub struct ExExpression(Expression);

/// `cel_parser::ArithmeticOp`, an arithmetic operator of a parsed expression.
#[verifier::external_type_specification]
#[verifier::external_body]
pub struct ExArithmeticOp(CelArith);

/// `cel_parser::RelationOp`, a comparison operator of a parsed expression.
#[verifier::external_type_specification]
#[verifier::external_body]
pub struct ExRelationOp(CelRel);

/// `cel_parser::UnaryOp`, a unary operator of a parsed expression.
#[verifier::external_type_specification]
#[verifier::external_body]
pub struct ExUnaryOp(CelUnary);

/// `cel_parser::Atom`, a literal of a parsed expression.
#[verifier::external_type_specification]
#[verifier::external_body]
pub struct ExAtom(Atom);

/// What `cel_parser::parse` gives for a filter, as the library's tree: none when the
/// text is no CEL expression.
pub uninterp spec fn cel_parse(filter: Seq<char>) -> Option<CelExpr>;

/// The library's tree of a parsed expression, node for node: its binary nodes here,
/// the others in `from_cel_other`. Nothing is stated of it: it only changes the type.
#[verifier::external_body]
fn from_cel(e: &Expression) -> CelExpr {
    match e {
        Expression::Arithmetic(a, op, b) => CelExpr::Arithmetic(Box::new(from_cel(a)), from_arith(op), Box::new(from_cel(b))),
        Expression::Relation(a, op, b) => CelExpr::Relation(Box::new(from_cel(a)), from_rel(op), Box::new(from_cel(b))),
        Expression::Or(a, b) => CelExpr::Or(Box::new(from_cel(a)), Box::new(from_cel(b))),
        Expression::And(a, b) => CelExpr::And(Box::new(from_cel(a)), Box::new(from_cel(b))),
        _ => from_cel_other(e),
    }
}

/// The library's tree of a parsed expression that is no binary node. Ternaries, member
/// accesses and maps become `Other`. Nothing is stated of it: it only changes the type.
#[verifier::external_body]
fn from_cel_other(e: &Expression) -> CelExpr {
    match e {
        Expression::Unary(op, a) => CelExpr::Unary(from_unary(op), Box::new(from_cel(a))),
        Expression::FunctionCall(f, that, args) => CelExpr::FunctionCall(
            Box::new(from_cel(f)),
            that.as_ref().map(|t| Box::new(from_cel(t))),
            args.iter().map(from_cel).collect(),
        ),
        Expression::List(items) => CelExpr::List(items.iter().map(from_cel).collect()),
        Expression::Atom(a) => CelExpr::Atom(from_atom(a)),
        Expression::Ident(name) => CelExpr::Ident(name.to_string()),
        Expression::Ternary(..) | Expression::Member(..) | Expression::Map(..) => CelExpr::Other,
        _ => from_cel(e),
    }
}

/// `cel_parser::ArithmeticOp` as the library's operator, variant for variant.
#[verifier::external_body]
fn from_arith(op: &CelArith) -> ArithmeticOp {
    match op {
        CelArith::Add => ArithmeticOp::Add,
        CelArith::Subtract => ArithmeticOp::Subtract,
        CelArith::Divide => ArithmeticOp::Divide,
        CelArith::Multiply => ArithmeticOp::Multiply,
        CelArith::Modulus => ArithmeticOp::Modulus,
    }
}

/// `cel_parser::RelationOp` as the library's operator, variant for variant.
#[verifier::external_body]
fn from_rel(op: &CelRel) -> RelationOp {
    match op {
        CelRel::LessThan => RelationOp::LessThan,
        CelRel::LessThanEq => RelationOp::LessThanEq,
        CelRel::GreaterThan => RelationOp::GreaterThan,
        CelRel::GreaterThanEq => RelationOp::GreaterThanEq,
        CelRel::Equals => RelationOp::Equals,
        CelRel::NotEquals => RelationOp::NotEquals,
        CelRel::In => RelationOp::In,
    }
}

/// `cel_parser::UnaryOp` as the library's operator, variant for variant.
#[verifier::external_body]
fn from_unary(op: &CelUnary) -> UnaryOp {
    match op {
        CelUnary::Not => UnaryOp::Not,
        CelUnary::DoubleNot => UnaryOp::DoubleNot,
        CelUnary::Minus => UnaryOp::Minus,
        CelUnary::DoubleMinus => UnaryOp::DoubleMinus,
    }
}

/// `cel_parser::Atom` as the library's literal, variant for variant; a float by its bits.
#[verifier::external_body]
fn from_atom(a: &Atom) -> CelAtom {
    match a {
        Atom::Int(i) => CelAtom::Int(*i),
        Atom::UInt(u) => CelAtom::UInt(*u),
        Atom::Float(f) => CelAtom::Float(f.to_bits()),
        Atom::String(t) => CelAtom::String(t.to_string()),
        Atom::Bytes(b) => CelAtom::Bytes(b.to_vec()),
        Atom::Bool(b) => CelAtom::Bool(*b),
        Atom::Null => CelAtom::Null,
    }
}

/// Whether `c` can continue a CEL identifier or number: a letter, a digit or `_`.
pub open spec fn is_word_char(c: char) -> bool {
    ('a' <= c && c <= 'z') || ('A' <= c && c <= 'Z') || ('0' <= c && c <= '9') || c == '_'
}

/// Whether a number can begin at `i`: a digit that does not continue a word.
pub open spec fn number_start(s: Seq<char>, i: int) -> bool {
    '0' <= s[i] && s[i] <= '9' && (i == 0 || !is_word_char(s[i - 1]))
}

/// Whether a run of word characters ends at `j`: the text ends there, or no word
/// character stands there.
pub open spec fn run_end(s: Seq<char>, j: int) -> bool {
    j == s.len() || !is_word_char(s[j])
}

/// Whether the run of word characters that begins at `i` is at most 17 long.
pub open spec fn short_run(s: Seq<char>, i: int) -> bool {
    exists|j: int| i <= j <= s.len() && j < i + 18 && #[trigger] run_end(s, j)
}

/// Whether the character at `i` raises none of the failures of the parser's literals:
/// it is no backslash, it begins no `-0x` (or `-0X`), and where a number begins there, the
/// run of word characters is at most 17 long.
pub open spec fn cel_char_safe(s: Seq<char>, i: int) -> bool {
    &&& s[i] != '\\'
    &&& !(i + 2 < s.len() && s[i] == '-' && s[i + 1] == '0' && (s[i + 2] == 'x' || s[i + 2] == 'X'))
    &&& (number_start(s, i) ==> short_run(s, i))
}

/// Whether `cel_parser::parse` reads the text without failing in its literals. Its
/// grammar unwraps the value of each literal: an integer beyond `i64` (or `u64` with
/// `u`), a negative hexadecimal number with `u`, and a string or bytes with a bad
/// escape panic. Every number here is at most 17 characters, hexadecimal ones with
/// their `0x` (so it fits), no `-0x` occurs, and no backslash at all, so no escape.
/// Some texts that the parser reads safely are left out too: any escape, a long number
/// inside a string, a negative hexadecimal number without `u`.
pub open spec fn cel_safe(s: Seq<char>) -> bool {
    forall|i: int| 0 <= i < s.len() ==> #[trigger] cel_char_safe(s, i)
}

fn is_word_char_exec(c: char) -> (r: bool)
    ensures
        r == is_word_char(c),
{
    ('a' <= c && c <= 'z') || ('A' <= c && c <= 'Z') || ('0' <= c && c <= '9') || c == '_'
}

/// Whether `cel_safe` holds of the filter.
pub fn cel_safe_text(filter: &str) -> (r: bool)
    ensures
        r == cel_safe(filter@),
{
    let cs = crate::text::str_chars(filter);
    let n = cs.len();
    let mut i: usize = 0;
    while i < n
        invariant
            n == cs.len(),
            cs@ == filter@,
            i <= n,
            forall|k: int| 0 <= k < i ==> #[trigger] cel_char_safe(cs@, k),
        decreases n - i,
    {
        let c = cs[i];
        if c == '\\' {
            assert(!cel_char_safe(cs@, i as int));
            return false;
        }
        if c == '-' && n - i > 2 && cs[i + 1] == '0' && (cs[i + 2] == 'x' || cs[i + 2] == 'X') {
            assert(!cel_char_safe(cs@, i as int));
            return false;
        }
        if '0' <= c && c <= '9' && (i == 0 || !is_word_char_exec(cs[i - 1])) {
            let mut j = i;
            while j < n && j - i < 18 && is_word_char_exec(cs[j])
                invariant
                    n == cs.len(),
                    i < n,
                    i <= j <= n,
                    j <= i + 18,
                    forall|k: int| i <= k < j ==> is_word_char(#[trigger] cs@[k]),
                decreases n - j,
            {
                j = j + 1;
            }
            if j - i >= 18 {
                assert(!short_run(cs@, i as int)) by {
                    assert forall|j2: int| i <= j2 <= cs@.len() && j2 < i + 18 implies !#[trigger] run_end(cs@, j2) by {
                        assert(j2 < j);
                    }
                }
                assert(!cel_char_safe(cs@, i as int));
                return false;
            }
            let ghost jj = j as int;
            assert(i <= jj <= cs@.len() && jj < i + 18 && run_end(cs@, jj));
            assert(short_run(cs@, i as int));
        }
        assert(cel_char_safe(cs@, i as int));
        i = i + 1;
    }
    true
}

/// `cel_parser::parse`: the filter parsed as CEL, as the library's tree; none when it
/// is no CEL expression. The result is named, not stated. It is called only on texts
/// for which `cel_safe` holds, on which the parser's literals cannot panic.
#[verifier::external_body]
pub fn parse_cel(filter: &str) -> (r: Option<CelExpr>)
    requires
        cel_safe(filter@),
    ensures
        r == cel_parse(filter@),
{
    match cel_parser::parse(filter) {
        Ok(e) => Some(from_cel(&e)),
        Err(_) => None,
    }
}

} // verus!
