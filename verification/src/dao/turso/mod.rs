use vstd::prelude::*;

pub mod builder;
pub mod memo;
pub mod placeholders;
pub mod resource;
pub mod session;
pub mod user;
pub mod workspace;

verus! {

/// A value bound to a `?` placeholder of an SQL statement. A real number is held by
/// the bits of its IEEE 754 encoding.
#[derive(Clone, Debug, PartialEq)]
pub enum SqlValue {
    Null,
    Integer(i64),
    Real(u64),
    Text(String),
    Blob(Vec<u8>),
}

/// The mathematical content of a `SqlValue`.
pub enum SqlValueView {
    Null,
    Integer(i64),
    Real(u64),
    Text(Seq<char>),
    Blob(Seq<u8>),
}

impl View for SqlValue {
    type V = SqlValueView;

    open spec fn view(&self) -> SqlValueView {
        match self {
            SqlValue::Null => SqlValueView::Null,
            SqlValue::Integer(i) => SqlValueView::Integer(*i),
            SqlValue::Real(b) => SqlValueView::Real(*b),
            SqlValue::Text(s) => SqlValueView::Text(s@),
            SqlValue::Blob(b) => SqlValueView::Blob(b@),
        }
    }
}

/// The values of a list of parameters.
pub open spec fn values_view(ps: Seq<SqlValue>) -> Seq<SqlValueView> {
    ps.map_values(|p: SqlValue| p@)
}

/// Appends the parameters of `more` to `ps`.
pub fn append_values(ps: &mut Vec<SqlValue>, more: Vec<SqlValue>)
    ensures
        values_view(final(ps)@) == values_view(old(ps)@) + values_view(more@),
{
    let mut more = more;
    let ghost a = ps@;
    let ghost b = more@;
    ps.append(&mut more);
    assert(values_view(ps@) =~= values_view(a) + values_view(b));
}

/// Appends one parameter to `ps`.
pub fn push_value(ps: &mut Vec<SqlValue>, v: SqlValue)
    ensures
        values_view(final(ps)@) == values_view(old(ps)@).push(v@),
{
    let ghost a = ps@;
    ps.push(v);
    assert(values_view(ps@) =~= values_view(a).push(v@));
}

} // verus!
