use vstd::prelude::*;

use crate::cel::{ArithmeticOp, CelAtom, CelExpr, RelationOp, UnaryOp};
use crate::dao::turso::{append_values, push_value, values_view, SqlValue, SqlValueView};
use crate::text::{chars_contain, decimal, has_infix, push_decimal, push_str, str_chars, str_eq};
use crate::cel::{cel_parse, cel_safe, cel_safe_text, parse_cel};
use crate::dao::turso::builder::{
    is_blank, is_whitespace, select_as_string, select_column, select_from, select_left_join, select_limit,
    select_new, select_offset, select_order_by, select_others, select_state, select_state_text, select_step,
    select_view, select_wheres, select_where_and, trim_end, trim_start, trimmed, wheres_writable, SelectCall,
};
use crate::model::memo::{FindMemo, FindMemoPayloadView, FindMemoView};
use crate::pb::memos_api_v2::{row_status_name, visibility_name, Visibility};
use crate::api::v1::gen::{direction_name, Direction, PageToken};
use sql_query_builder::Select;

verus! {

broadcast use vstd::string::group_string_axioms;

/// What `time::OffsetDateTime::parse(s, &Rfc3339)` gives, as a Unix timestamp.
pub uninterp spec fn rfc3339_unix_timestamp(s: Seq<char>) -> Option<i64>;

/// `OffsetDateTime::parse(s, &Rfc3339)` of the `time` crate, then `unix_timestamp()`.
/// The result is named, not stated: it is `None` when `s` is no RFC 3339 date-time.
#[verifier::external_body]
fn parse_rfc3339(s: &str) -> (r: Option<i64>)
    ensures
        r == rfc3339_unix_timestamp(s@),
{
    match time::OffsetDateTime::parse(s, &time::format_description::well_known::Rfc3339) {
        Ok(t) => Some(t.unix_timestamp()),
        Err(_) => None,
    }
}

/// An SQL fragment and the values of its placeholders, in order.
pub type SqlPart = (Seq<char>, Seq<SqlValueView>);

/// No SQL and no values.
pub open spec fn empty_part() -> SqlPart {
    (Seq::<char>::empty(), Seq::<SqlValueView>::empty())
}

/// The SQL of an identifier: the filter names that stand for columns or payload
/// properties are mapped to them; other names stand for themselves.
pub open spec fn ident_sql(name: Seq<char>) -> Seq<char> {
    if name == "tag"@ {
        "JSON_EACH.value"@
    } else if name == "pinned"@ {
        "pinned IS TRUE"@
    } else if name == "has_link"@ {
        "JSON_EXTRACT(payload, '$.property.has_link') IS TRUE"@
    } else if name == "has_task_list"@ {
        "JSON_EXTRACT(payload, '$.property.has_task_list') IS TRUE"@
    } else if name == "has_code"@ {
        "JSON_EXTRACT(payload, '$.property.has_code') IS TRUE"@
    } else if name == "has_incomplete_tasks"@ {
        "JSON_EXTRACT(payload, '$.property.has_incomplete_tasks') IS TRUE"@
    } else {
        name
    }
}

/// The SQL operator of a relation.
pub open spec fn relation_sql(op: RelationOp) -> Seq<char> {
    match op {
        RelationOp::Equals => "="@,
        RelationOp::NotEquals => "<>"@,
        RelationOp::LessThan => "<"@,
        RelationOp::LessThanEq => "<="@,
        RelationOp::GreaterThan => ">"@,
        RelationOp::GreaterThanEq => ">="@,
        RelationOp::In => "IN"@,
    }
}

/// Whether a CEL relation other than `in` holds between two values whose comparison
/// is `ord`: negative, zero or positive as the left value is below, equal to or above
/// the right one.
pub open spec fn cel_relation_holds(op: RelationOp, ord: int) -> bool {
    match op {
        RelationOp::Equals => ord == 0,
        RelationOp::NotEquals => ord != 0,
        RelationOp::LessThan => ord < 0,
        RelationOp::LessThanEq => ord <= 0,
        RelationOp::GreaterThan => ord > 0,
        RelationOp::GreaterThanEq => ord >= 0,
        RelationOp::In => false,
    }
}

/// Whether the SQL comparison operator `op` holds between two values whose comparison
/// is `ord`; false for a text that is no comparison operator.
pub open spec fn sql_comparison_holds(op: Seq<char>, ord: int) -> bool {
    if op == "="@ {
        ord == 0
    } else if op == "<>"@ || op == "!="@ {
        ord != 0
    } else if op == "<"@ {
        ord < 0
    } else if op == "<="@ {
        ord <= 0
    } else if op == ">"@ {
        ord > 0
    } else if op == ">="@ {
        ord >= 0
    } else {
        false
    }
}

/// A CEL relation becomes an SQL comparison of the same meaning: the condition is the
/// SQL of the left operand and of the right one around an operator that holds of two
/// values exactly when the relation does (so `a != b` is never written as `a = b`);
/// `in` becomes `IN`. The values of the left operand are bound before those of the
/// right one.
pub proof fn lemma_relation_keeps_meaning(a: CelExpr, op: RelationOp, b: CelExpr)
    ensures
        exists|right: SqlPart| {
            &&& #[trigger] expr_sql(CelExpr::Relation(Box::new(a), op, Box::new(b))).0 == "("@ + expr_sql(a).0
                + " "@ + relation_sql(op) + " "@ + right.0 + ")"@
            &&& expr_sql(CelExpr::Relation(Box::new(a), op, Box::new(b))).1 == expr_sql(a).1 + right.1
        },
        op != RelationOp::In ==> forall|ord: int| #[trigger] sql_comparison_holds(relation_sql(op), ord)
            == cel_relation_holds(op, ord),
        op == RelationOp::In ==> relation_sql(op) == "IN"@,
{
    reveal_strlit("=");
    reveal_strlit("<>");
    reveal_strlit("!=");
    reveal_strlit("<");
    reveal_strlit("<=");
    reveal_strlit(">");
    reveal_strlit(">=");
    assert("="@.len() == 1);
    assert("<>"@.len() == 2);
    assert("!="@.len() == 2);
    assert("<"@.len() == 1);
    assert("<="@.len() == 2);
    assert(">"@.len() == 1);
    assert(">="@.len() == 2);
    assert("="@[0] == '=');
    assert("<>"@[0] == '<');
    assert("!="@[0] == '!');
    assert("<"@[0] == '<');
    assert("<="@[0] == '<');
    assert(">"@[0] == '>');
    assert(">="@[0] == '>');
    assert("<>"@[1] == '>');
    assert("!="@[1] == '=');
    assert("<="@[1] == '=');
    assert(">="@[1] == '=');
    let e = CelExpr::Relation(Box::new(a), op, Box::new(b));
    let left = expr_sql(a);
    let right = if has_infix(left.0, "time"@) && is_string_atom(b) {
        time_string_sql(b->Atom_0->String_0@)
    } else {
        expr_sql(b)
    };
    assert(expr_sql(e).0 == "("@ + expr_sql(a).0 + " "@ + relation_sql(op) + " "@ + right.0 + ")"@);
    assert(expr_sql(e).1 == expr_sql(a).1 + right.1);
}

/// What a CEL arithmetic operator computes of two integers; `None` for the modulus.
pub open spec fn cel_arithmetic(op: ArithmeticOp, x: int, y: int) -> Option<int> {
    match op {
        ArithmeticOp::Add => Some(x + y),
        ArithmeticOp::Subtract => Some(x - y),
        ArithmeticOp::Multiply => Some(x * y),
        ArithmeticOp::Divide => Some(x / y),
        ArithmeticOp::Modulus => None,
    }
}

/// What the SQL arithmetic operator `op` (with the spaces around it) computes of two
/// integers; `None` for a text that is no such operator.
pub open spec fn sql_arithmetic(op: Seq<char>, x: int, y: int) -> Option<int> {
    if op == " + "@ {
        Some(x + y)
    } else if op == " - "@ {
        Some(x - y)
    } else if op == " * "@ {
        Some(x * y)
    } else if op == " / "@ {
        Some(x / y)
    } else {
        None
    }
}

/// The connectives, negation and arithmetic of a filter keep their meaning in SQL:
/// `a && b` is `(A AND B)` and `a || b` is `(A OR B)`, with the values of `a` bound
/// before those of `b`; `!a` is `NOT (A)`; an arithmetic operator is written as the
/// SQL operator that computes the same (the modulus, which has none, gives nothing).
pub proof fn lemma_connectives_keep_meaning(a: CelExpr, b: CelExpr, op: ArithmeticOp)
    ensures
        expr_sql(CelExpr::And(Box::new(a), Box::new(b))) == ("("@ + expr_sql(a).0 + " AND "@ + expr_sql(b).0 + ")"@,
            expr_sql(a).1 + expr_sql(b).1),
        expr_sql(CelExpr::Or(Box::new(a), Box::new(b))) == ("("@ + expr_sql(a).0 + " OR "@ + expr_sql(b).0 + ")"@,
            expr_sql(a).1 + expr_sql(b).1),
        expr_sql(CelExpr::Unary(UnaryOp::Not, Box::new(a))) == ("NOT ("@ + expr_sql(a).0 + ")"@, expr_sql(a).1),
        op != ArithmeticOp::Modulus ==> (arithmetic_sql(op) matches Some(o) && expr_sql(
            CelExpr::Arithmetic(Box::new(a), op, Box::new(b)),
        ) == ("("@ + expr_sql(a).0 + " "@ + o + " "@ + expr_sql(b).0 + ")"@, expr_sql(a).1 + expr_sql(b).1)
            && forall|x: int, y: int| #[trigger] sql_arithmetic(o, x, y) == cel_arithmetic(op, x, y)),
        expr_sql(CelExpr::Arithmetic(Box::new(a), ArithmeticOp::Modulus, Box::new(b))).0.len() == 0,
{
    reveal_strlit(" + ");
    reveal_strlit(" - ");
    reveal_strlit(" * ");
    reveal_strlit(" / ");
    assert(" + "@.len() == 3 && " + "@[1] == '+');
    assert(" - "@.len() == 3 && " - "@[1] == '-');
    assert(" * "@.len() == 3 && " * "@[1] == '*');
    assert(" / "@.len() == 3 && " / "@[1] == '/');
    reveal_strlit("AND");
    reveal_strlit("OR");
    reveal_strlit(" AND ");
    reveal_strlit(" OR ");
    reveal_strlit(" ");
    reveal_strlit("NOT ");
    reveal_strlit("NOT (");
    reveal_strlit("(");
    reveal_strlit(")");
    assert(" "@ + "AND"@ + " "@ =~= " AND "@);
    assert(" "@ + "OR"@ + " "@ =~= " OR "@);
    assert("NOT "@ + "("@ =~= "NOT ("@);
    let sa = expr_sql(a).0;
    let sb = expr_sql(b).0;
    assert("("@ + sa + " "@ + "AND"@ + " "@ + sb + ")"@ =~= "("@ + sa + " AND "@ + sb + ")"@);
    assert("("@ + sa + " "@ + "OR"@ + " "@ + sb + ")"@ =~= "("@ + sa + " OR "@ + sb + ")"@);
    assert("NOT "@ + "("@ + sa + ")"@ =~= "NOT ("@ + sa + ")"@);
}

/// A literal of a filter is one placeholder bound to its own value: an integer to that
/// integer, a string to that text, `true` to 1 and `false` to 0; `null` is `NULL`
/// with nothing bound.
pub proof fn lemma_literal_binds_its_value(a: CelAtom)
    ensures
        a matches CelAtom::Int(i) ==> expr_sql(CelExpr::Atom(a)) == ("?"@, seq![SqlValueView::Integer(i)]),
        a matches CelAtom::String(t) ==> expr_sql(CelExpr::Atom(a)) == ("?"@, seq![SqlValueView::Text(t@)]),
        a matches CelAtom::Bool(b) ==> (expr_sql(CelExpr::Atom(a)).0 == "?"@ && expr_sql(CelExpr::Atom(a)).1.len()
            == 1 && (expr_sql(CelExpr::Atom(a)).1[0] == SqlValueView::Integer(1) <==> b) && (expr_sql(
            CelExpr::Atom(a),
        ).1[0] == SqlValueView::Integer(0) <==> !b)),
        a is Null ==> expr_sql(CelExpr::Atom(a)) == ("NULL"@, Seq::<SqlValueView>::empty()),
{
}

/// The SQL that stands before the operand of a unary operator; none for the doubled ones.
pub open spec fn unary_sql(op: UnaryOp) -> Seq<char> {
    match op {
        UnaryOp::Not => "NOT "@,
        UnaryOp::Minus => "-"@,
        _ => Seq::<char>::empty(),
    }
}

/// The operator of an arithmetic expression; `None` for the modulus, which has none.
pub open spec fn arithmetic_sql(op: ArithmeticOp) -> Option<Seq<char>> {
    match op {
        ArithmeticOp::Add => Some(" + "@),
        ArithmeticOp::Subtract => Some(" - "@),
        ArithmeticOp::Multiply => Some(" * "@),
        ArithmeticOp::Divide => Some(" / "@),
        ArithmeticOp::Modulus => None,
    }
}

/// The SQL of a literal: a placeholder and its value, or `NULL`.
pub open spec fn atom_sql(a: CelAtom) -> SqlPart {
    match a {
        CelAtom::Int(i) => ("?"@, seq![SqlValueView::Integer(i)]),
        CelAtom::UInt(u) => ("?"@, seq![SqlValueView::Integer(u as i64)]),
        CelAtom::Float(b) => ("?"@, seq![SqlValueView::Real(b)]),
        CelAtom::String(s) => ("?"@, seq![SqlValueView::Text(s@)]),
        CelAtom::Bytes(b) => ("?"@, seq![SqlValueView::Blob(b@)]),
        CelAtom::Bool(b) => ("?"@, seq![SqlValueView::Integer(if b { 1 } else { 0 })]),
        CelAtom::Null => ("NULL"@, Seq::<SqlValueView>::empty()),
    }
}

/// A parenthesized binary expression `(a op b)`.
pub open spec fn binary_sql(a: SqlPart, op: Seq<char>, b: SqlPart) -> SqlPart {
    ("("@ + a.0 + " "@ + op + " "@ + b.0 + ")"@, a.1 + b.1)
}

/// A string compared with a time column: a placeholder for the Unix timestamp that
/// it gives as an RFC 3339 date-time, or for the string itself when it gives none.
pub open spec fn time_string_sql(s: Seq<char>) -> SqlPart {
    match rfc3339_unix_timestamp(s) {
        Some(t) => ("?"@, seq![SqlValueView::Integer(t)]),
        None => ("?"@, seq![SqlValueView::Text(s)]),
    }
}

/// The value bound for a string compared with a time column, given the Unix timestamp
/// `unix` of the RFC 3339 date-time that it gives, if it gives one: that timestamp,
/// else the string itself.
pub fn time_param(text: String, unix: Option<i64>) -> (r: SqlValue)
    ensures
        r@ == match unix {
            Some(t) => SqlValueView::Integer(t),
            None => SqlValueView::Text(text@),
        },
{
    match unix {
        Some(t) => SqlValue::Integer(t),
        None => SqlValue::Text(text),
    }
}

/// Whether `e` is a string literal.
pub open spec fn is_string_atom(e: CelExpr) -> bool {
    e matches CelExpr::Atom(CelAtom::String(_))
}

/// The SQL of a filter expression and the values of its placeholders.
pub open spec fn expr_sql(e: CelExpr) -> SqlPart
    decreases e,
{
    match e {
        CelExpr::Or(a, b) => binary_sql(expr_sql(*a), "OR"@, expr_sql(*b)),
        CelExpr::And(a, b) => binary_sql(expr_sql(*a), "AND"@, expr_sql(*b)),
        CelExpr::Relation(a, op, b) => {
            let left = expr_sql(*a);
            let right = if has_infix(left.0, "time"@) && is_string_atom(*b) {
                time_string_sql((*b)->Atom_0->String_0@)
            } else {
                expr_sql(*b)
            };
            binary_sql(left, relation_sql(op), right)
        },
        CelExpr::Unary(op, a) => {
            let inner = expr_sql(*a);
            (unary_sql(op) + "("@ + inner.0 + ")"@, inner.1)
        },
        CelExpr::List(items) => {
            let inner = list_sql(items@);
            ("("@ + inner.0 + ")"@, inner.1)
        },
        CelExpr::Atom(a) => atom_sql(a),
        CelExpr::Ident(name) => (ident_sql(name@), Seq::<SqlValueView>::empty()),
        CelExpr::Arithmetic(a, op, b) => match arithmetic_sql(op) {
            Some(o) => binary_sql(expr_sql(*a), o, expr_sql(*b)),
            None => empty_part(),
        },
        CelExpr::FunctionCall(f, that, args) => {
            let func = expr_sql(*f);
            if func.0 == "contains"@ && args.len() == 1 {
                match (that, args@[0]) {
                    (Some(t), CelExpr::Atom(CelAtom::String(arg))) => {
                        let target = expr_sql(*t);
                        (
                            target.0 + " LIKE ?"@,
                            target.1 + func.1 + seq![SqlValueView::Text("%"@ + arg@ + "%"@)],
                        )
                    },
                    _ => empty_part(),
                }
            } else {
                let inner = list_sql(args@);
                (inner.0 + "("@ + inner.0 + ")"@, func.1 + inner.1)
            }
        },
        CelExpr::Other => empty_part(),
    }
}

/// The SQL of a list of expressions, separated by `, `.
pub open spec fn list_sql(items: Seq<CelExpr>) -> SqlPart
    decreases items,
{
    if items.len() == 0 {
        empty_part()
    } else {
        let init = list_sql(items.drop_last());
        let last = expr_sql(items.last());
        (if items.len() == 1 {
            last.0
        } else {
            init.0 + ", "@ + last.0
        }, init.1 + last.1)
    }
}

/// A new string holding `text`.
pub fn lit(text: &str) -> (r: String)
    ensures
        r@ == text@,
{
    String::from_str(text)
}

fn atom_to_sql(a: &CelAtom) -> (r: (String, Vec<SqlValue>))
    ensures
        (r.0@, values_view(r.1@)) == atom_sql(*a),
{
    let mut ps: Vec<SqlValue> = Vec::new();
    match a {
        CelAtom::Int(i) => {
            push_value(&mut ps, SqlValue::Integer(*i));
        },
        CelAtom::UInt(u) => {
            push_value(&mut ps, SqlValue::Integer(*u as i64));
        },
        CelAtom::Float(b) => {
            push_value(&mut ps, SqlValue::Real(*b));
        },
        CelAtom::String(t) => {
            push_value(&mut ps, SqlValue::Text(t.clone()));
        },
        CelAtom::Bytes(b) => {
            push_value(&mut ps, SqlValue::Blob(b.clone()));
        },
        CelAtom::Bool(b) => {
            push_value(&mut ps, SqlValue::Integer(if *b { 1 } else { 0 }));
        },
        CelAtom::Null => {
            assert(values_view(ps@) =~= Seq::<SqlValueView>::empty());
            return (lit("NULL"), ps);
        },
    }
    assert(values_view(Seq::<SqlValue>::empty()) =~= Seq::<SqlValueView>::empty());
    (lit("?"), ps)
}

fn ident_to_sql(name: &String) -> (r: String)
    ensures
        r@ == ident_sql(name@),
{
    let n = name.as_str();
    if str_eq(n, "tag") {
        lit("JSON_EACH.value")
    } else if str_eq(n, "pinned") {
        lit("pinned IS TRUE")
    } else if str_eq(n, "has_link") {
        lit("JSON_EXTRACT(payload, '$.property.has_link') IS TRUE")
    } else if str_eq(n, "has_task_list") {
        lit("JSON_EXTRACT(payload, '$.property.has_task_list') IS TRUE")
    } else if str_eq(n, "has_code") {
        lit("JSON_EXTRACT(payload, '$.property.has_code') IS TRUE")
    } else if str_eq(n, "has_incomplete_tasks") {
        lit("JSON_EXTRACT(payload, '$.property.has_incomplete_tasks') IS TRUE")
    } else {
        name.clone()
    }
}

fn binary_to_sql(a: (String, Vec<SqlValue>), op: &str, b: (String, Vec<SqlValue>)) -> (r: (String, Vec<SqlValue>))
    ensures
        (r.0@, values_view(r.1@)) == binary_sql((a.0@, values_view(a.1@)), op@, (b.0@, values_view(b.1@))),
{
    let (s1, mut p1) = a;
    let (s2, p2) = b;
    let mut out = lit("(");
    push_str(&mut out, s1.as_str());
    push_str(&mut out, " ");
    push_str(&mut out, op);
    push_str(&mut out, " ");
    push_str(&mut out, s2.as_str());
    push_str(&mut out, ")");
    append_values(&mut p1, p2);
    (out, p1)
}

fn empty_sql() -> (r: (String, Vec<SqlValue>))
    ensures
        (r.0@, values_view(r.1@)) == empty_part(),
{
    let ps: Vec<SqlValue> = Vec::new();
    assert(values_view(ps@) =~= Seq::<SqlValueView>::empty());
    (String::new(), ps)
}

/// The SQL of a list of expressions, separated by `, `.
fn list_to_sql(items: &Vec<CelExpr>, Ghost(whole): Ghost<CelExpr>) -> (r: (String, Vec<SqlValue>))
    requires
        decreases_to!(whole => items@),
    ensures
        (r.0@, values_view(r.1@)) == list_sql(items@),
    decreases whole, 0nat,
{
    let mut sql = String::new();
    let mut ps: Vec<SqlValue> = Vec::new();
    assert(values_view(ps@) =~= Seq::<SqlValueView>::empty());
    assert(items@.take(0) =~= Seq::<CelExpr>::empty());
    let mut i: usize = 0;
    while i < items.len()
        invariant
            i <= items.len(),
            decreases_to!(whole => items@),
            (sql@, values_view(ps@)) == list_sql(items@.take(i as int)),
        decreases items.len() - i,
    {
        proof {
            assert(decreases_to!(items@ => items@[i as int]));
        }
        let (s, p) = convert_expr_to_sql(&items[i]);
        assert(items@.take(i + 1).drop_last() == items@.take(i as int));
        assert(items@.take(i + 1).last() == items@[i as int]);
        if i == 0 {
            sql = s;
        } else {
            push_str(&mut sql, ", ");
            push_str(&mut sql, s.as_str());
        }
        append_values(&mut ps, p);
        i = i + 1;
    }
    assert(items@.take(items.len() as int) == items@);
    (sql, ps)
}

/// The SQL of a filter expression and the values of its placeholders, as `expr_sql` says.
pub fn convert_expr_to_sql(expr: &CelExpr) -> (r: (String, Vec<SqlValue>))
    ensures
        (r.0@, values_view(r.1@)) == expr_sql(*expr),
    decreases *expr, 1nat,
{
    match expr {
        CelExpr::Or(a, b) => {
            let l = convert_expr_to_sql(a);
            let rr = convert_expr_to_sql(b);
            binary_to_sql(l, "OR", rr)
        },
        CelExpr::And(a, b) => {
            let l = convert_expr_to_sql(a);
            let rr = convert_expr_to_sql(b);
            binary_to_sql(l, "AND", rr)
        },
        CelExpr::Relation(a, op, b) => {
            let l = convert_expr_to_sql(a);
            let is_time = chars_contain(&str_chars(l.0.as_str()), &str_chars("time"));
            let rr = match (is_time, &**b) {
                (true, CelExpr::Atom(CelAtom::String(t))) => {
                    let mut ps: Vec<SqlValue> = Vec::new();
                    let unix = parse_rfc3339(t.as_str());
                    push_value(&mut ps, time_param(t.clone(), unix));
                    assert(values_view(Seq::<SqlValue>::empty()) =~= Seq::<SqlValueView>::empty());
                    (lit("?"), ps)
                },
                _ => convert_expr_to_sql(b),
            };
            let o = match op {
                RelationOp::Equals => "=",
                RelationOp::NotEquals => "<>",
                RelationOp::LessThan => "<",
                RelationOp::LessThanEq => "<=",
                RelationOp::GreaterThan => ">",
                RelationOp::GreaterThanEq => ">=",
                RelationOp::In => "IN",
            };
            binary_to_sql(l, o, rr)
        },
        CelExpr::Unary(op, a) => {
            let (s, p) = convert_expr_to_sql(a);
            let mut out = lit(
                match op {
                    UnaryOp::Not => "NOT ",
                    UnaryOp::Minus => "-",
                    _ => "",
                },
            );
            proof {
                reveal_strlit("");
            }
            push_str(&mut out, "(");
            push_str(&mut out, s.as_str());
            push_str(&mut out, ")");
            (out, p)
        },
        CelExpr::List(items) => {
            proof {
                assert(decreases_to!(*expr => (*expr)->List_0));
            }
            let (s, p) = list_to_sql(items, Ghost(*expr));
            let mut out = lit("(");
            push_str(&mut out, s.as_str());
            push_str(&mut out, ")");
            (out, p)
        },
        CelExpr::Atom(a) => atom_to_sql(a),
        CelExpr::Ident(name) => {
            let ps: Vec<SqlValue> = Vec::new();
            assert(values_view(ps@) =~= Seq::<SqlValueView>::empty());
            (ident_to_sql(name), ps)
        },
        CelExpr::Arithmetic(a, op, b) => {
            let l = convert_expr_to_sql(a);
            let rr = convert_expr_to_sql(b);
            match op {
                ArithmeticOp::Add => binary_to_sql(l, " + ", rr),
                ArithmeticOp::Subtract => binary_to_sql(l, " - ", rr),
                ArithmeticOp::Multiply => binary_to_sql(l, " * ", rr),
                ArithmeticOp::Divide => binary_to_sql(l, " / ", rr),
                ArithmeticOp::Modulus => empty_sql(),
            }
        },
        CelExpr::FunctionCall(f, that, args) => {
            let (fs, fp) = convert_expr_to_sql(f);
            if str_eq(fs.as_str(), "contains") && args.len() == 1 {
                match (that, &args[0]) {
                    (Some(t), CelExpr::Atom(CelAtom::String(arg))) => {
                        let (ts, mut tp) = convert_expr_to_sql(t);
                        let mut out = ts;
                        push_str(&mut out, " LIKE ?");
                        append_values(&mut tp, fp);
                        let mut pattern = lit("%");
                        push_str(&mut pattern, arg.as_str());
                        push_str(&mut pattern, "%");
                        push_value(&mut tp, SqlValue::Text(pattern));
                        (out, tp)
                    },
                    _ => empty_sql(),
                }
            } else {
                proof {
                    assert(decreases_to!(*expr => (*expr)->FunctionCall_2));
                }
                let (s, p) = list_to_sql(args, Ghost(*expr));
                let mut out = s.clone();
                push_str(&mut out, "(");
                push_str(&mut out, s.as_str());
                push_str(&mut out, ")");
                let mut ps = fp;
                append_values(&mut ps, p);
                (out, ps)
            }
        },
        CelExpr::Other => empty_sql(),
    }
}

/// The SQL of a parsed filter: nothing for an empty filter (`None`) or for a lone
/// literal; else the SQL of the expression.
pub open spec fn filter_sql(filter: Option<CelExpr>) -> SqlPart {
    match filter {
        None => empty_part(),
        Some(CelExpr::Atom(_)) => empty_part(),
        Some(e) => expr_sql(e),
    }
}

/// The SQL of a parsed filter, as `filter_sql` says.
pub fn convert_ecl_to_sql(filter: &Option<CelExpr>) -> (r: (String, Vec<SqlValue>))
    ensures
        (r.0@, values_view(r.1@)) == filter_sql(*filter),
{
    match filter {
        None => empty_sql(),
        Some(CelExpr::Atom(_)) => empty_sql(),
        Some(e) => convert_expr_to_sql(e),
    }
}

// ---------------------------------------------------------------------------
// The query of a search for memos
// ---------------------------------------------------------------------------

/// Calls and parameters of a query being built.
pub type Query = (Seq<SelectCall>, Seq<SqlValueView>);

/// Adds a condition with its parameters.
pub open spec fn add_where(q: Query, cond: Seq<char>, params: Seq<SqlValueView>) -> Query {
    (q.0.push(SelectCall::WhereAnd(cond)), q.1 + params)
}

/// Adds the condition `cond` with the parameter `v` when `v` is there.
pub open spec fn add_where_opt(q: Query, cond: Seq<char>, v: Option<SqlValueView>) -> Query {
    match v {
        Some(x) => add_where(q, cond, seq![x]),
        None => q,
    }
}

pub open spec fn opt_i32(v: Option<i32>) -> Option<SqlValueView> {
    match v {
        Some(x) => Some(SqlValueView::Integer(x as i64)),
        None => None,
    }
}

pub open spec fn opt_i64(v: Option<i64>) -> Option<SqlValueView> {
    match v {
        Some(x) => Some(SqlValueView::Integer(x)),
        None => None,
    }
}

pub open spec fn opt_text(v: Option<Seq<char>>) -> Option<SqlValueView> {
    match v {
        Some(x) => Some(SqlValueView::Text(x)),
        None => None,
    }
}

/// One `LIKE` condition for each searched word, in order.
pub open spec fn add_content_searches(q: Query, words: Seq<Seq<char>>) -> Query
    decreases words.len(),
{
    if words.len() == 0 {
        q
    } else {
        add_where(
            add_content_searches(q, words.drop_last()),
            "memo.content LIKE ?"@,
            seq![SqlValueView::Text("%"@ + words.last() + "%"@)],
        )
    }
}

/// One condition for each tag, in order.
pub open spec fn add_tags(q: Query, tags: Seq<Seq<char>>) -> Query
    decreases tags.len(),
{
    if tags.len() == 0 {
        q
    } else {
        add_where(add_tags(q, tags.drop_last()), "JSON_EACH.value = ?"@, seq![SqlValueView::Text(tags.last())])
    }
}

/// `?, ?, ...`: `n` placeholders separated by `, `.
pub open spec fn placeholders(n: nat) -> Seq<char>
    decreases n,
{
    if n == 0 {
        Seq::<char>::empty()
    } else if n == 1 {
        "?"@
    } else {
        placeholders((n - 1) as nat) + ", ?"@
    }
}

/// The condition on the visibility, when the search names visibilities.
pub open spec fn add_visibilities(q: Query, vs: Seq<Visibility>) -> Query {
    if vs.len() == 0 {
        q
    } else {
        add_where(
            q,
            "memo.visibility in ("@ + placeholders(vs.len()) + ")"@,
            vs.map_values(|v: Visibility| SqlValueView::Text(visibility_name(v))),
        )
    }
}

/// The conditions on the payload.
pub open spec fn add_payload(q: Query, p: Option<FindMemoPayloadView>) -> Query {
    match p {
        None => q,
        Some(p) => {
            let q1 = add_where_opt(q, "memo.payload = ?"@, opt_text(p.raw));
            let q2 = match p.tags {
                Some(tags) => add_tags(q1, tags),
                None => q1,
            };
            let q3 = if p.has_link {
                add_where(q2, "JSON_EXTRACT(memo.payload, '$.property.has_link') IS TRUE"@, seq![])
            } else {
                q2
            };
            let q4 = if p.has_task_list {
                add_where(q3, "JSON_EXTRACT(memo.payload, '$.property.has_task_list') IS TRUE"@, seq![])
            } else {
                q3
            };
            let q5 = if p.has_code {
                add_where(q4, "JSON_EXTRACT(memo.payload, '$.property.has_code') IS TRUE"@, seq![])
            } else {
                q4
            };
            if p.has_incomplete_tasks {
                add_where(q5, "JSON_EXTRACT(memo.payload, '$.property.has_incomplete_tasks') IS TRUE"@, seq![])
            } else {
                q5
            }
        },
    }
}

/// The columns that the query selects.
pub open spec fn memo_columns(only_payload: bool, exclude_content: bool) -> Seq<SelectCall> {
    let cols = if only_payload {
        seq![
            SelectCall::Select("memo.id AS id"@),
            SelectCall::Select("memo.payload AS payload"@),
            SelectCall::Select("memo.pinned AS pinned"@),
            SelectCall::Select("memo.created_ts AS created_ts"@),
            SelectCall::Select("memo.updated_ts AS updated_ts"@),
        ]
    } else {
        seq![
            SelectCall::Select("memo.id AS id"@),
            SelectCall::Select("memo.uid AS uid"@),
            SelectCall::Select("memo.creator_id AS creator_id"@),
            SelectCall::Select("memo.created_ts AS created_ts"@),
            SelectCall::Select("memo.updated_ts AS updated_ts"@),
            SelectCall::Select("memo.row_status AS state"@),
            SelectCall::Select("memo.visibility AS visibility"@),
            SelectCall::Select("memo.pinned AS pinned"@),
            SelectCall::Select("memo.payload AS payload"@),
        ]
    };
    if !exclude_content && !only_payload {
        cols.push(SelectCall::Select("memo.content AS content"@))
    } else {
        cols
    }
}

/// The ordering of the query.
pub open spec fn memo_order(f: FindMemoView) -> Seq<SelectCall> {
    let pinned = if !f.only_payload && f.order_by_pinned {
        seq![SelectCall::OrderBy("pinned DESC"@)]
    } else {
        Seq::<SelectCall>::empty()
    };
    if !f.only_payload || f.direction != Direction::Unspecified {
        let column = if f.order_by_updated_ts {
            "updated_ts "@
        } else {
            "created_ts "@
        };
        pinned.push(SelectCall::OrderBy(column + direction_name(f.direction)))
    } else {
        pinned
    }
}

/// The page of the query: one row more than the page holds, after the rows to skip.
pub open spec fn memo_page(page: Option<PageToken>) -> Seq<SelectCall> {
    match page {
        Some(t) => seq![
            SelectCall::Limit(decimal(t.limit + 1)),
            SelectCall::Offset(decimal(t.offset as int)),
        ],
        None => Seq::<SelectCall>::empty(),
    }
}

/// The conditions on the standard fields of a search.
pub open spec fn standard_wheres(q0: Query, f: FindMemoView) -> Query {
    time_wheres(id_wheres(q0, f), f)
}

/// The conditions on the id, uid, creator and status of a search.
pub open spec fn id_wheres(q0: Query, f: FindMemoView) -> Query {
    let q1 = add_where_opt(q0, "memo.id = ?"@, opt_i32(f.id));
    let q2 = add_where_opt(q1, "memo.uid = ?"@, opt_text(f.uid));
    let q3 = add_where_opt(q2, "memo.creator_id = ?"@, opt_i32(f.creator_id));
    let q4 = add_where_opt(
        q3,
        "memo.row_status = ?"@,
        match f.row_status {
            Some(s) => Some(SqlValueView::Text(row_status_name(s))),
            None => None,
        },
    );
    q4
}

/// The conditions on the times of a search.
pub open spec fn time_wheres(q4: Query, f: FindMemoView) -> Query {
    let q5 = add_where_opt(q4, "memo.created_ts < ?"@, opt_i64(f.created_ts_before));
    let q6 = add_where_opt(q5, "memo.created_ts > ?"@, opt_i64(f.created_ts_after));
    let q7 = add_where_opt(q6, "memo.updated_ts < ?"@, opt_i64(f.updated_ts_before));
    add_where_opt(q7, "memo.updated_ts > ?"@, opt_i64(f.updated_ts_after))
}

/// The condition of the filter, when its SQL is not blank.
pub open spec fn add_filter(q: Query, filter: SqlPart) -> Query {
    if !is_blank(filter.0) {
        add_where(q, filter.0, filter.1)
    } else {
        q
    }
}

/// The table and columns of the query.
pub open spec fn memo_base(f: FindMemoView) -> Query {
    (
        seq![SelectCall::From("memo"@), SelectCall::LeftJoin("JSON_EACH(memo.payload, '$.tags')"@)]
            + memo_columns(f.only_payload, f.exclude_content),
        Seq::<SqlValueView>::empty(),
    )
}

/// The calls that build the query of a search, and its parameters. `filter` is the
/// SQL of the search's filter.
pub open spec fn find_memo_query(f: FindMemoView, filter: SqlPart) -> Query {
    let q8 = standard_wheres(memo_base(f), f);
    let q9 = add_content_searches(q8, f.content_search);
    let q10 = add_visibilities(q9, f.visibility_list);
    let q11 = add_payload(q10, f.payload_find);
    let q12 = add_filter(q11, filter);
    (q12.0 + memo_order(f) + memo_page(f.page_token), q12.1)
}

/// A builder that the library can write: it holds no clause but those the library
/// sets, and its conditions can be written.
pub open spec fn select_ok(s: Select) -> bool {
    select_others(s).len() == 0 && wheres_writable(select_wheres(s))
}

/// Each call appends to the calls made so far.
proof fn lemma_state_push(c: Seq<SelectCall>, x: SelectCall)
    ensures
        select_state(c.push(x)) == select_step(select_state(c), x),
{
    assert(c.push(x).drop_last() =~= c);
}

/// A text that is not blank keeps a character when it is trimmed.
pub proof fn lemma_trimmed_not_blank(s: Seq<char>)
    requires
        !is_blank(s),
    ensures
        trimmed(s).len() > 0,
{
    lemma_trim_start_not_blank(s);
    lemma_trim_end_not_blank(trim_start(s));
}

proof fn lemma_trim_start_not_blank(s: Seq<char>)
    requires
        !is_blank(s),
    ensures
        !is_blank(trim_start(s)),
    decreases s.len(),
{
    if s.len() > 0 && is_whitespace(s[0]) {
        let k = choose|k: int| 0 <= k < s.len() && !is_whitespace(s[k]);
        assert(k > 0);
        assert(!is_whitespace(s.drop_first()[k - 1]));
        lemma_trim_start_not_blank(s.drop_first());
    }
}

proof fn lemma_trim_end_not_blank(s: Seq<char>)
    requires
        !is_blank(s),
    ensures
        !is_blank(trim_end(s)),
        trim_end(s).len() > 0,
    decreases s.len(),
{
    let k = choose|k: int| 0 <= k < s.len() && !is_whitespace(s[k]);
    if s.len() > 0 && is_whitespace(s.last()) {
        assert(k < s.len() - 1);
        assert(!is_whitespace(s.drop_last()[k]));
        lemma_trim_end_not_blank(s.drop_last());
    } else {
        assert(!is_whitespace(s[k]));
    }
}

/// The conditions that the query of a search writes as they are: none of them is blank.
proof fn lemma_conditions_not_blank()
    ensures
        !is_blank("memo.id = ?"@),
        !is_blank("memo.uid = ?"@),
        !is_blank("memo.creator_id = ?"@),
        !is_blank("memo.row_status = ?"@),
        !is_blank("memo.created_ts < ?"@),
        !is_blank("memo.created_ts > ?"@),
        !is_blank("memo.updated_ts < ?"@),
        !is_blank("memo.updated_ts > ?"@),
        !is_blank("memo.content LIKE ?"@),
        !is_blank("JSON_EACH.value = ?"@),
        !is_blank("memo.payload = ?"@),
        !is_blank("JSON_EXTRACT(memo.payload, '$.property.has_link') IS TRUE"@),
        !is_blank("JSON_EXTRACT(memo.payload, '$.property.has_task_list') IS TRUE"@),
        !is_blank("JSON_EXTRACT(memo.payload, '$.property.has_code') IS TRUE"@),
        !is_blank("JSON_EXTRACT(memo.payload, '$.property.has_incomplete_tasks') IS TRUE"@),
        forall|t: Seq<char>| !is_blank(#[trigger] ("memo.visibility in ("@ + t)),
{
    reveal_strlit("memo.id = ?");
    reveal_strlit("memo.uid = ?");
    reveal_strlit("memo.creator_id = ?");
    reveal_strlit("memo.row_status = ?");
    reveal_strlit("memo.created_ts < ?");
    reveal_strlit("memo.created_ts > ?");
    reveal_strlit("memo.updated_ts < ?");
    reveal_strlit("memo.updated_ts > ?");
    reveal_strlit("memo.content LIKE ?");
    reveal_strlit("JSON_EACH.value = ?");
    reveal_strlit("memo.payload = ?");
    reveal_strlit("JSON_EXTRACT(memo.payload, '$.property.has_link') IS TRUE");
    reveal_strlit("JSON_EXTRACT(memo.payload, '$.property.has_task_list') IS TRUE");
    reveal_strlit("JSON_EXTRACT(memo.payload, '$.property.has_code') IS TRUE");
    reveal_strlit("JSON_EXTRACT(memo.payload, '$.property.has_incomplete_tasks') IS TRUE");
    reveal_strlit("memo.visibility in (");
    assert(!is_whitespace("memo.id = ?"@[0]));
    assert(!is_whitespace("memo.uid = ?"@[0]));
    assert(!is_whitespace("memo.creator_id = ?"@[0]));
    assert(!is_whitespace("memo.row_status = ?"@[0]));
    assert(!is_whitespace("memo.created_ts < ?"@[0]));
    assert(!is_whitespace("memo.created_ts > ?"@[0]));
    assert(!is_whitespace("memo.updated_ts < ?"@[0]));
    assert(!is_whitespace("memo.updated_ts > ?"@[0]));
    assert(!is_whitespace("memo.content LIKE ?"@[0]));
    assert(!is_whitespace("JSON_EACH.value = ?"@[0]));
    assert(!is_whitespace("memo.payload = ?"@[0]));
    assert(!is_whitespace("JSON_EXTRACT(memo.payload, '$.property.has_link') IS TRUE"@[0]));
    assert(!is_whitespace("JSON_EXTRACT(memo.payload, '$.property.has_task_list') IS TRUE"@[0]));
    assert(!is_whitespace("JSON_EXTRACT(memo.payload, '$.property.has_code') IS TRUE"@[0]));
    assert(!is_whitespace("JSON_EXTRACT(memo.payload, '$.property.has_incomplete_tasks') IS TRUE"@[0]));
    assert forall|t: Seq<char>| !is_blank(#[trigger] ("memo.visibility in ("@ + t)) by {
        assert(("memo.visibility in ("@ + t)[0] == 'm');
    }
}

/// Whether `c` is white space.
fn whitespace_char(c: char) -> (r: bool)
    ensures
        r == is_whitespace(c),
{
    ('\t' <= c && c <= '\r') || c == ' ' || c == '\u{85}' || c == '\u{a0}' || c == '\u{1680}' || ('\u{2000}' <= c
        && c <= '\u{200a}') || c == '\u{2028}' || c == '\u{2029}' || c == '\u{202f}' || c == '\u{205f}' || c
        == '\u{3000}'
}

/// Whether the text holds nothing but white space.
pub fn blank_text(s: &str) -> (r: bool)
    ensures
        r == is_blank(s@),
{
    let cs = str_chars(s);
    for i in 0..cs.len()
        invariant
            cs@ == s@,
            forall|j: int| 0 <= j < i ==> is_whitespace(#[trigger] cs@[j]),
    {
        if !whitespace_char(cs[i]) {
            assert(!is_whitespace(s@[i as int]));
            return false;
        }
    }
    true
}

/// Adds the condition `cond`, binding `v`.
fn where_with(sql: Select, ps: &mut Vec<SqlValue>, cond: &str, v: SqlValue, Ghost(c): Ghost<Seq<SelectCall>>) -> (r: Select)
    requires
        select_view(sql) == select_state(c),
        select_ok(sql),
        !is_blank(cond@),
    ensures
        select_view(r) == select_state(c.push(SelectCall::WhereAnd(cond@))),
        select_ok(r),
        values_view(final(ps)@) == values_view(old(ps)@).push(v@),
{
    push_value(ps, v);
    where_only(sql, cond, Ghost(c))
}

/// Adds the condition `cond`, binding nothing.
fn where_only(sql: Select, cond: &str, Ghost(c): Ghost<Seq<SelectCall>>) -> (r: Select)
    requires
        select_view(sql) == select_state(c),
        select_ok(sql),
        !is_blank(cond@),
    ensures
        select_view(r) == select_state(c.push(SelectCall::WhereAnd(cond@))),
        select_ok(r),
{
    proof {
        lemma_state_push(c, SelectCall::WhereAnd(cond@));
        lemma_trimmed_not_blank(cond@);
    }
    let r = select_where_and(sql, cond);
    proof {
        let ws = select_wheres(r);
        let t = trimmed(cond@);
        let old_ws = select_wheres(sql);
        if !old_ws.contains(t) {
            assert(ws == old_ws.push(t));
            assert(ws[old_ws.len() as int] == t);
        }
        assert(ws.contains(t));
        let k = choose|k: int| 0 <= k < ws.len() && ws[k] == t;
        assert(ws[k].len() > 0);
    }
    r
}

fn text_value(s: &String) -> (r: SqlValue)
    ensures
        r@ == SqlValueView::Text(s@),
{
    SqlValue::Text(s.clone())
}

fn like_value(word: &String) -> (r: SqlValue)
    ensures
        r@ == SqlValueView::Text("%"@ + word@ + "%"@),
{
    let mut p = lit("%");
    push_str(&mut p, word.as_str());
    push_str(&mut p, "%");
    SqlValue::Text(p)
}

/// `n` placeholders separated by `, `: `?, ?, ?` for three.
pub fn placeholders_exec(n: usize) -> (r: String)
    ensures
        r@ == placeholders(n as nat),
{
    let mut s = String::new();
    let mut i: usize = 0;
    while i < n
        invariant
            i <= n,
            s@ == placeholders(i as nat),
        decreases n - i,
    {
        if i == 0 {
            s = lit("?");
        } else {
            push_str(&mut s, ", ?");
        }
        i = i + 1;
    }
    s
}

/// Adds a column.
fn column_with(sql: Select, col: &str, Ghost(c): Ghost<Seq<SelectCall>>) -> (r: Select)
    requires
        select_view(sql) == select_state(c),
        select_ok(sql),
    ensures
        select_view(r) == select_state(c.push(SelectCall::Select(col@))),
        select_ok(r),
{
    proof { lemma_state_push(c, SelectCall::Select(col@)); }
    select_column(sql, col)
}

fn base_select(f: &FindMemo) -> (r: Select)
    ensures
        select_view(r) == select_state(memo_base(f@).0),
        select_ok(r),
{
    let ghost c0 = Seq::<SelectCall>::empty();
    let mut sql = select_new();
    assert(select_view(sql) == select_state(c0));
    proof { lemma_state_push(c0, SelectCall::From("memo"@)); }
    sql = select_from(sql, "memo");
    let ghost c1 = c0.push(SelectCall::From("memo"@));
    proof { lemma_state_push(c1, SelectCall::LeftJoin("JSON_EACH(memo.payload, '$.tags')"@)); }
    sql = select_left_join(sql, "JSON_EACH(memo.payload, '$.tags')");
    let ghost mut c = c1.push(SelectCall::LeftJoin("JSON_EACH(memo.payload, '$.tags')"@));
    if f.only_payload {
        sql = column_with(sql, "memo.id AS id", Ghost(c));
        proof { c = c.push(SelectCall::Select("memo.id AS id"@)); }
        sql = column_with(sql, "memo.payload AS payload", Ghost(c));
        proof { c = c.push(SelectCall::Select("memo.payload AS payload"@)); }
        sql = column_with(sql, "memo.pinned AS pinned", Ghost(c));
        proof { c = c.push(SelectCall::Select("memo.pinned AS pinned"@)); }
        sql = column_with(sql, "memo.created_ts AS created_ts", Ghost(c));
        proof { c = c.push(SelectCall::Select("memo.created_ts AS created_ts"@)); }
        sql = column_with(sql, "memo.updated_ts AS updated_ts", Ghost(c));
        proof { c = c.push(SelectCall::Select("memo.updated_ts AS updated_ts"@)); }
    } else {
        sql = column_with(sql, "memo.id AS id", Ghost(c));
        proof { c = c.push(SelectCall::Select("memo.id AS id"@)); }
        sql = column_with(sql, "memo.uid AS uid", Ghost(c));
        proof { c = c.push(SelectCall::Select("memo.uid AS uid"@)); }
        sql = column_with(sql, "memo.creator_id AS creator_id", Ghost(c));
        proof { c = c.push(SelectCall::Select("memo.creator_id AS creator_id"@)); }
        sql = column_with(sql, "memo.created_ts AS created_ts", Ghost(c));
        proof { c = c.push(SelectCall::Select("memo.created_ts AS created_ts"@)); }
        sql = column_with(sql, "memo.updated_ts AS updated_ts", Ghost(c));
        proof { c = c.push(SelectCall::Select("memo.updated_ts AS updated_ts"@)); }
        sql = column_with(sql, "memo.row_status AS state", Ghost(c));
        proof { c = c.push(SelectCall::Select("memo.row_status AS state"@)); }
        sql = column_with(sql, "memo.visibility AS visibility", Ghost(c));
        proof { c = c.push(SelectCall::Select("memo.visibility AS visibility"@)); }
        sql = column_with(sql, "memo.pinned AS pinned", Ghost(c));
        proof { c = c.push(SelectCall::Select("memo.pinned AS pinned"@)); }
        sql = column_with(sql, "memo.payload AS payload", Ghost(c));
        proof { c = c.push(SelectCall::Select("memo.payload AS payload"@)); }
    }
    if !f.exclude_content && !f.only_payload {
        sql = column_with(sql, "memo.content AS content", Ghost(c));
        proof { c = c.push(SelectCall::Select("memo.content AS content"@)); }
    }
    assert(c =~= memo_base(f@).0);
    sql
}

fn standard_selects(sql: Select, params: &mut Vec<SqlValue>, f: &FindMemo, Ghost(c): Ghost<Seq<SelectCall>>) -> (r: Select)
    requires
        select_view(sql) == select_state(c),
        select_ok(sql),
    ensures
        select_view(r) == select_state(standard_wheres((c, values_view(old(params)@)), f@).0),
        values_view(final(params)@) == standard_wheres((c, values_view(old(params)@)), f@).1,
        select_ok(r),
{
    let ghost q = (c, values_view(params@));
    let sql = id_selects(sql, params, f, Ghost(c));
    time_selects(sql, params, f, Ghost(id_wheres(q, f@).0))
}

fn id_selects(sql: Select, params: &mut Vec<SqlValue>, f: &FindMemo, Ghost(c): Ghost<Seq<SelectCall>>) -> (r: Select)
    requires
        select_view(sql) == select_state(c),
        select_ok(sql),
    ensures
        select_view(r) == select_state(id_wheres((c, values_view(old(params)@)), f@).0),
        values_view(final(params)@) == id_wheres((c, values_view(old(params)@)), f@).1,
        select_ok(r),
{
    proof { lemma_conditions_not_blank(); }
    let ghost q0 = (c, values_view(params@));
    let mut sql = sql;
    let ghost mut q = q0;
    if let Some(id) = f.id {
        sql = where_with(sql, params, "memo.id = ?", SqlValue::Integer(id as i64), Ghost(q.0));
        proof { q = add_where(q, "memo.id = ?"@, seq![SqlValueView::Integer(id as i64)]); }
    }
    assert(q == add_where_opt(q0, "memo.id = ?"@, opt_i32(f.id)));
    let ghost q1 = q;
    if let Some(uid) = &f.uid {
        sql = where_with(sql, params, "memo.uid = ?", text_value(uid), Ghost(q.0));
        proof { q = add_where(q, "memo.uid = ?"@, seq![SqlValueView::Text(uid@)]); }
    }
    assert(q == add_where_opt(q1, "memo.uid = ?"@, opt_text(f@.uid)));
    let ghost q2 = q;
    if let Some(creator_id) = f.creator_id {
        sql = where_with(sql, params, "memo.creator_id = ?", SqlValue::Integer(creator_id as i64), Ghost(q.0));
        proof { q = add_where(q, "memo.creator_id = ?"@, seq![SqlValueView::Integer(creator_id as i64)]); }
    }
    assert(q == add_where_opt(q2, "memo.creator_id = ?"@, opt_i32(f.creator_id)));
    if let Some(state) = f.row_status {
        sql = where_with(sql, params, "memo.row_status = ?", SqlValue::Text(String::from_str(state.as_str_name())), Ghost(q.0));
        proof { q = add_where(q, "memo.row_status = ?"@, seq![SqlValueView::Text(row_status_name(state))]); }
    }
    assert(q == id_wheres(q0, f@));
    sql
}

fn time_selects(sql: Select, params: &mut Vec<SqlValue>, f: &FindMemo, Ghost(c): Ghost<Seq<SelectCall>>) -> (r: Select)
    requires
        select_view(sql) == select_state(c),
        select_ok(sql),
    ensures
        select_view(r) == select_state(time_wheres((c, values_view(old(params)@)), f@).0),
        values_view(final(params)@) == time_wheres((c, values_view(old(params)@)), f@).1,
        select_ok(r),
{
    proof { lemma_conditions_not_blank(); }
    let ghost q0 = (c, values_view(params@));
    let mut sql = sql;
    let ghost mut q = q0;
    if let Some(t) = f.created_ts_before {
        sql = where_with(sql, params, "memo.created_ts < ?", SqlValue::Integer(t), Ghost(q.0));
        proof { q = add_where(q, "memo.created_ts < ?"@, seq![SqlValueView::Integer(t)]); }
    }
    assert(q == add_where_opt(q0, "memo.created_ts < ?"@, opt_i64(f.created_ts_before)));
    let ghost q5 = q;
    if let Some(t) = f.created_ts_after {
        sql = where_with(sql, params, "memo.created_ts > ?", SqlValue::Integer(t), Ghost(q.0));
        proof { q = add_where(q, "memo.created_ts > ?"@, seq![SqlValueView::Integer(t)]); }
    }
    assert(q == add_where_opt(q5, "memo.created_ts > ?"@, opt_i64(f.created_ts_after)));
    let ghost q6 = q;
    if let Some(t) = f.updated_ts_before {
        sql = where_with(sql, params, "memo.updated_ts < ?", SqlValue::Integer(t), Ghost(q.0));
        proof { q = add_where(q, "memo.updated_ts < ?"@, seq![SqlValueView::Integer(t)]); }
    }
    assert(q == add_where_opt(q6, "memo.updated_ts < ?"@, opt_i64(f.updated_ts_before)));
    if let Some(t) = f.updated_ts_after {
        sql = where_with(sql, params, "memo.updated_ts > ?", SqlValue::Integer(t), Ghost(q.0));
        proof { q = add_where(q, "memo.updated_ts > ?"@, seq![SqlValueView::Integer(t)]); }
    }
    assert(q == time_wheres(q0, f@));
    sql
}

fn content_selects(sql: Select, params: &mut Vec<SqlValue>, words: &Vec<String>, Ghost(c): Ghost<Seq<SelectCall>>) -> (r: Select)
    requires
        select_view(sql) == select_state(c),
        select_ok(sql),
    ensures
        select_view(r) == select_state(add_content_searches((c, values_view(old(params)@)), words.deep_view()).0),
        values_view(final(params)@) == add_content_searches((c, values_view(old(params)@)), words.deep_view()).1,
        select_ok(r),
{
    proof { lemma_conditions_not_blank(); }
    let ghost q = (c, values_view(params@));
    let ghost ws = words.deep_view();
    let mut sql = sql;
    for i in 0..words.len()
        invariant
            ws == words.deep_view(),
            select_view(sql) == select_state(add_content_searches(q, ws.take(i as int)).0),
            values_view(params@) == add_content_searches(q, ws.take(i as int)).1,
            select_ok(sql),
            !is_blank("memo.content LIKE ?"@),
    {
        assert(ws.take(i + 1).drop_last() == ws.take(i as int));
        assert(ws.take(i + 1).last() == words@[i as int]@);
        let ghost cur = add_content_searches(q, ws.take(i as int)).0;
        sql = where_with(sql, params, "memo.content LIKE ?", like_value(&words[i]), Ghost(cur));
    }
    assert(ws.take(words.len() as int) == ws);
    sql
}

fn visibility_selects(sql: Select, params: &mut Vec<SqlValue>, vs: &Vec<Visibility>, Ghost(c): Ghost<Seq<SelectCall>>) -> (r: Select)
    requires
        select_view(sql) == select_state(c),
        select_ok(sql),
    ensures
        select_view(r) == select_state(add_visibilities((c, values_view(old(params)@)), vs@).0),
        values_view(final(params)@) == add_visibilities((c, values_view(old(params)@)), vs@).1,
        select_ok(r),
{
    if vs.len() == 0 {
        return sql;
    }
    proof { lemma_conditions_not_blank(); }
    let ghost before = values_view(params@);
    for i in 0..vs.len()
        invariant
            values_view(params@) == before + vs@.take(i as int).map_values(|v: Visibility| SqlValueView::Text(visibility_name(v))),
    {
        push_value(params, SqlValue::Text(String::from_str(vs[i].as_str_name())));
        assert(vs@.take(i + 1).map_values(|v: Visibility| SqlValueView::Text(visibility_name(v)))
            =~= vs@.take(i as int).map_values(|v: Visibility| SqlValueView::Text(visibility_name(v))).push(SqlValueView::Text(visibility_name(vs@[i as int]))));
    }
    assert(vs@.take(vs.len() as int) == vs@);
    let mut w = lit("memo.visibility in (");
    let ph = placeholders_exec(vs.len());
    push_str(&mut w, ph.as_str());
    push_str(&mut w, ")");
    assert(w@ == "memo.visibility in ("@ + (placeholders(vs.len() as nat) + ")"@));
    where_only(sql, w.as_str(), Ghost(c))
}

fn tag_selects(sql: Select, params: &mut Vec<SqlValue>, tags: &Vec<String>, Ghost(c): Ghost<Seq<SelectCall>>) -> (r: Select)
    requires
        select_view(sql) == select_state(c),
        select_ok(sql),
    ensures
        select_view(r) == select_state(add_tags((c, values_view(old(params)@)), tags.deep_view()).0),
        values_view(final(params)@) == add_tags((c, values_view(old(params)@)), tags.deep_view()).1,
        select_ok(r),
{
    proof { lemma_conditions_not_blank(); }
    let ghost q = (c, values_view(params@));
    let ghost ts = tags.deep_view();
    let mut sql = sql;
    for i in 0..tags.len()
        invariant
            ts == tags.deep_view(),
            select_view(sql) == select_state(add_tags(q, ts.take(i as int)).0),
            values_view(params@) == add_tags(q, ts.take(i as int)).1,
            select_ok(sql),
            !is_blank("JSON_EACH.value = ?"@),
    {
        assert(ts.take(i + 1).drop_last() == ts.take(i as int));
        assert(ts.take(i + 1).last() == tags@[i as int]@);
        let ghost cur = add_tags(q, ts.take(i as int)).0;
        sql = where_with(sql, params, "JSON_EACH.value = ?", text_value(&tags[i]), Ghost(cur));
    }
    assert(ts.take(tags.len() as int) == ts);
    sql
}

fn payload_selects(
    sql: Select,
    params: &mut Vec<SqlValue>,
    p: &Option<crate::model::memo::FindMemoPayload>,
    Ghost(c): Ghost<Seq<SelectCall>>,
) -> (r: Select)
    requires
        select_view(sql) == select_state(c),
        select_ok(sql),
    ensures
        ({
            let pq = add_payload(
                (c, values_view(old(params)@)),
                match *p {
                    Some(x) => Some(x@),
                    None => None,
                },
            );
            select_view(r) == select_state(pq.0) && values_view(final(params)@) == pq.1
        }),
        select_ok(r),
{
    proof { lemma_conditions_not_blank(); }
    let mut sql = sql;
    if let Some(p) = p {
        let ghost q = (c, values_view(params@));
        let ghost pv = p@;
        let ghost mut cur = q;
        if let Some(raw) = &p.raw {
            sql = where_with(sql, params, "memo.payload = ?", text_value(raw), Ghost(cur.0));
            proof { cur = add_where(cur, "memo.payload = ?"@, seq![SqlValueView::Text(raw@)]); }
        }
        let ghost q1 = add_where_opt(q, "memo.payload = ?"@, opt_text(pv.raw));
        assert(cur == q1);
        assert(cur.1 == values_view(params@));
        if let Some(tags) = &p.tags {
            sql = tag_selects(sql, params, tags, Ghost(cur.0));
            proof { cur = add_tags(cur, tags.deep_view()); }
        }
        assert(cur == match pv.tags {
            Some(tags) => add_tags(q1, tags),
            None => q1,
        });
        assert(values_view(params@) + seq![] =~= values_view(params@));
        assert(cur.1 == values_view(params@));
        assert(select_view(sql) == select_state(cur.0));
        if p.has_link {
            sql = where_only(sql, "JSON_EXTRACT(memo.payload, '$.property.has_link') IS TRUE", Ghost(cur.0));
            proof { cur = add_where(cur, "JSON_EXTRACT(memo.payload, '$.property.has_link') IS TRUE"@, seq![]); }
        }
        if p.has_task_list {
            sql = where_only(sql, "JSON_EXTRACT(memo.payload, '$.property.has_task_list') IS TRUE", Ghost(cur.0));
            proof { cur = add_where(cur, "JSON_EXTRACT(memo.payload, '$.property.has_task_list') IS TRUE"@, seq![]); }
        }
        if p.has_code {
            sql = where_only(sql, "JSON_EXTRACT(memo.payload, '$.property.has_code') IS TRUE", Ghost(cur.0));
            proof { cur = add_where(cur, "JSON_EXTRACT(memo.payload, '$.property.has_code') IS TRUE"@, seq![]); }
        }
        if p.has_incomplete_tasks {
            sql = where_only(sql, "JSON_EXTRACT(memo.payload, '$.property.has_incomplete_tasks') IS TRUE", Ghost(cur.0));
            proof { cur = add_where(cur, "JSON_EXTRACT(memo.payload, '$.property.has_incomplete_tasks') IS TRUE"@, seq![]); }
        }
        assert(cur.0 == add_payload(q, Some(pv)).0);
        assert(values_view(params@) == add_payload(q, Some(pv)).1);
    }
    sql
}

fn order_with(sql: Select, col: &str, Ghost(c): Ghost<Seq<SelectCall>>) -> (r: Select)
    requires
        select_view(sql) == select_state(c),
        select_ok(sql),
    ensures
        select_view(r) == select_state(c.push(SelectCall::OrderBy(col@))),
        select_ok(r),
{
    proof { lemma_state_push(c, SelectCall::OrderBy(col@)); }
    select_order_by(sql, col)
}

fn order_and_page(sql: Select, f: &FindMemo, Ghost(c): Ghost<Seq<SelectCall>>) -> (r: Select)
    requires
        f.page_token matches Some(t) ==> t.limit < i32::MAX,
        select_view(sql) == select_state(c),
        select_ok(sql),
    ensures
        select_view(r) == select_state(c + memo_order(f@) + memo_page(f.page_token)),
        select_ok(r),
{
    let mut sql = sql;
    let ghost mut cur = c;
    if !f.only_payload && f.order_by_pinned {
        sql = order_with(sql, "pinned DESC", Ghost(cur));
        proof { cur = cur.push(SelectCall::OrderBy("pinned DESC"@)); }
    }
    if !f.only_payload || f.direction != Direction::Unspecified {
        let mut column = if f.order_by_updated_ts {
            lit("updated_ts ")
        } else {
            lit("created_ts ")
        };
        push_str(&mut column, f.direction.as_str_name());
        sql = order_with(sql, column.as_str(), Ghost(cur));
        proof { cur = cur.push(SelectCall::OrderBy(column@)); }
    }
    assert(cur =~= c + memo_order(f@));
    if let Some(page_token) = f.page_token {
        let mut limit = String::new();
        push_decimal(&mut limit, (page_token.limit + 1) as i64);
        let mut offset = String::new();
        push_decimal(&mut offset, page_token.offset as i64);
        proof { lemma_state_push(cur, SelectCall::Limit(limit@)); }
        sql = select_limit(sql, limit.as_str());
        proof {
            cur = cur.push(SelectCall::Limit(limit@));
            lemma_state_push(cur, SelectCall::Offset(offset@));
        }
        sql = select_offset(sql, offset.as_str());
        proof { cur = cur.push(SelectCall::Offset(offset@)); }
    }
    assert(cur =~= c + memo_order(f@) + memo_page(f.page_token));
    sql
}

/// Why the query of a search could not be written.
#[derive(Clone, Debug)]
pub enum FindMemoError {
    /// The filter of the search is not a CEL expression.
    FilterParse,
    /// The filter holds a literal that is not read here (see `cel_safe`): a backslash,
    /// a number of 18 or more characters, or `-0x`.
    FilterUnsupported,
}

/// The parsed filter of a search: none when its text is empty.
pub open spec fn parsed_filter(filter: Seq<char>) -> Option<Option<CelExpr>> {
    if filter.len() == 0 {
        Some(None)
    } else {
        match cel_parse(filter) {
            Some(e) => Some(Some(e)),
            None => None,
        }
    }
}

impl FindMemo {
    /// The SQL query of the search and the values of its placeholders, given its
    /// filter parsed (`None` when the filter is empty). A filter whose SQL is blank adds
    /// no condition.
    pub fn to_criteria_with(self, filter: &Option<CelExpr>) -> (r: (String, Vec<SqlValue>))
        requires
            self.page_token matches Some(t) ==> t.limit < i32::MAX,
        ensures
            r.0@ == select_state_text(select_state(find_memo_query(self@, filter_sql(*filter)).0)),
            values_view(r.1@) == find_memo_query(self@, filter_sql(*filter)).1,
    {
        let ghost f = self@;
        let ghost fs = filter_sql(*filter);
        let mut params: Vec<SqlValue> = Vec::new();
        assert(values_view(params@) =~= Seq::<SqlValueView>::empty());
        let ghost q0 = memo_base(f);
        let mut sql = base_select(&self);
        sql = standard_selects(sql, &mut params, &self, Ghost(q0.0));
        let ghost q8 = standard_wheres(q0, f);
        assert(q0.1 =~= Seq::<SqlValueView>::empty());
        sql = content_selects(sql, &mut params, &self.content_search, Ghost(q8.0));
        let ghost q9 = add_content_searches(q8, f.content_search);
        sql = visibility_selects(sql, &mut params, &self.visibility_list, Ghost(q9.0));
        let ghost q10 = add_visibilities(q9, f.visibility_list);
        sql = payload_selects(sql, &mut params, &self.payload_find, Ghost(q10.0));
        let ghost q11 = add_payload(q10, f.payload_find);
        let (filter_text, filter_params) = convert_ecl_to_sql(filter);
        if !blank_text(filter_text.as_str()) {
            sql = where_only(sql, filter_text.as_str(), Ghost(q11.0));
            append_values(&mut params, filter_params);
        }
        let ghost q12 = add_filter(q11, fs);
        sql = order_and_page(sql, &self, Ghost(q12.0));
        (select_as_string(&sql), params)
    }

    /// The SQL query of the search and the values of its placeholders: its filter is
    /// parsed as CEL; a filter that is not CEL is refused, and so is one whose literals
    /// the parser could fail on.
    pub fn to_criteria(self) -> (r: Result<(String, Vec<SqlValue>), FindMemoError>)
        requires
            self.page_token matches Some(t) ==> t.limit < i32::MAX,
        ensures
            self.filter@.len() > 0 && !cel_safe(self.filter@) ==> r matches Err(FindMemoError::FilterUnsupported),
            self.filter@.len() == 0 || cel_safe(self.filter@) ==> match parsed_filter(self.filter@) {
                None => r matches Err(FindMemoError::FilterParse),
                Some(filter) => r matches Ok(x) && x.0@ == select_state_text(
                    select_state(find_memo_query(self@, filter_sql(filter)).0),
                ) && values_view(x.1@) == find_memo_query(self@, filter_sql(filter)).1,
            },
    {
        let filter = if self.filter.as_str().unicode_len() == 0 {
            None
        } else {
            if !cel_safe_text(self.filter.as_str()) {
                return Err(FindMemoError::FilterUnsupported);
            }
            match parse_cel(self.filter.as_str()) {
                Some(e) => Some(e),
                None => {
                    return Err(FindMemoError::FilterParse);
                },
            }
        };
        Ok(self.to_criteria_with(&filter))
    }
}

} // verus!
