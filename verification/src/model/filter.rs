use vstd::prelude::*;

use super::memo::SearchMemosFilter;
use crate::pb::memos_api_v2::{row_status_from_name, visibility_from_name, RowStatus, Visibility};
use crate::text::{parse_int_chars, parse_int_spec, str_chars, str_eq};
use syn::{BinOp, Expr, ExprPath, Lit as SynLit};

verus! {

broadcast use vstd::string::group_string_axioms;

// ---------------------------------------------------------------------------
// A filter as a Rust expression
// ---------------------------------------------------------------------------

/// A binary operator of a filter, as far as the filter tells them apart.
#[derive(Clone, Copy, Debug, PartialEq, Eq, Structural)]
pub enum FilterBinOp {
    /// `&&`.
    And,
    /// Any other binary operator.
    Other,
}

/// A Rust expression, node for node as far as a filter reads it.
pub enum FilterExpr {
    Binary(Box<FilterExpr>, FilterBinOp, Box<FilterExpr>),
    /// A path: `plain` when it has no attributes and no qualified self; `ident` its
    /// name when it is one segment without generic arguments and without `::` before it.
    Path { plain: bool, ident: Option<String> },
    /// A string literal, by its value.
    Str(String),
    /// An integer literal, by its decimal digits (its suffix left out).
    Int(String),
    Bool(bool),
    /// An array `[a, b, ...]`.
    Array(Vec<FilterExpr>),
    /// Any other expression or literal.
    Other,
}

/// `syn::Expr`, a parsed Rust expression.
#[verifier::external_type_specification]
#[verifier::external_body]
pub struct ExSynExpr(Expr);

/// `syn::ExprPath`, a path expression.
#[verifier::external_type_specification]
#[verifier::external_body]
pub struct ExSynExprPath(ExprPath);

/// `syn::BinOp`, a binary operator.
#[verifier::external_type_specification]
#[verifier::external_body]
pub struct ExSynBinOp(BinOp);

/// `syn::Lit`, a literal.
#[verifier::external_type_specification]
#[verifier::external_body]
pub struct ExSynLit(SynLit);

/// What `syn::parse_str::<syn::Expr>` gives for a text, as the library's tree: none when
/// the text is no Rust expression.
pub uninterp spec fn syn_parse(filter: Seq<char>) -> Option<FilterExpr>;

/// The library's tree of a parsed expression, node for node. Nothing is stated of it:
/// it only changes the type.
#[verifier::external_body]
fn from_syn(e: &Expr) -> FilterExpr {
    match e {
        Expr::Binary(b) => FilterExpr::Binary(Box::new(from_syn(&b.left)), from_bin_op(&b.op), Box::new(from_syn(&b.right))),
        Expr::Path(p) => from_syn_path(p),
        Expr::Lit(l) => from_syn_lit(&l.lit),
        Expr::Array(a) => FilterExpr::Array(a.elems.iter().map(from_syn).collect()),
        _ => FilterExpr::Other,
    }
}

/// `syn::BinOp` as the library's operator: `&&` or another one.
#[verifier::external_body]
fn from_bin_op(op: &BinOp) -> FilterBinOp {
    match op {
        BinOp::And(_) => FilterBinOp::And,
        _ => FilterBinOp::Other,
    }
}

/// `syn::ExprPath` as the library's path: whether it is plain, and its name where
/// `syn::Path::get_ident` gives one.
#[verifier::external_body]
fn from_syn_path(p: &ExprPath) -> FilterExpr {
    FilterExpr::Path {
        plain: p.attrs.is_empty() && p.qself.is_none(),
        ident: p.path.get_ident().map(|i| i.to_string()),
    }
}

/// `syn::Lit` as the library's literal: a string by its value, an integer by its
/// decimal digits, a boolean; other literals become `Other`.
#[verifier::external_body]
fn from_syn_lit(l: &SynLit) -> FilterExpr {
    match l {
        SynLit::Str(s) => FilterExpr::Str(s.value()),
        SynLit::Int(i) => FilterExpr::Int(i.base10_digits().to_string()),
        SynLit::Bool(b) => FilterExpr::Bool(b.value),
        _ => FilterExpr::Other,
    }
}

/// `syn::parse_str::<syn::Expr>`: the filter read as one Rust expression, as the
/// library's tree; none when it is not one. The result is named, not stated.
#[verifier::external_body]
pub fn parse_filter_expr(filter: &str) -> (r: Option<FilterExpr>)
    ensures
        r == syn_parse(filter@),
{
    match syn::parse_str::<Expr>(filter) {
        Ok(e) => Some(from_syn(&e)),
        Err(_) => None,
    }
}

// ---------------------------------------------------------------------------
// Terms of a search filter
// ---------------------------------------------------------------------------

/// A literal that is no list.
pub enum Scalar {
    Str(String),
    Int(String),
    Bool(bool),
}

/// The value compared with a field: a literal, or a list of literals.
pub enum Lit {
    Scalar(Scalar),
    List(Vec<Scalar>),
    /// Anything else, which no field reads.
    Other,
}

/// One comparison `field op value` of a filter.
pub struct Term {
    pub key: String,
    pub value: Lit,
}

pub enum ScalarView {
    Str(Seq<char>),
    Int(Seq<char>),
    Bool(bool),
}

pub enum LitView {
    Scalar(ScalarView),
    List(Seq<ScalarView>),
    Other,
}

impl View for Scalar {
    type V = ScalarView;

    open spec fn view(&self) -> ScalarView {
        match self {
            Scalar::Str(s) => ScalarView::Str(s@),
            Scalar::Int(s) => ScalarView::Int(s@),
            Scalar::Bool(b) => ScalarView::Bool(*b),
        }
    }
}

pub open spec fn scalars_view(xs: Seq<Scalar>) -> Seq<ScalarView> {
    xs.map_values(|x: Scalar| x@)
}

impl View for Lit {
    type V = LitView;

    open spec fn view(&self) -> LitView {
        match self {
            Lit::Scalar(x) => LitView::Scalar(x@),
            Lit::List(xs) => LitView::List(scalars_view(xs@)),
            Lit::Other => LitView::Other,
        }
    }
}

impl View for Term {
    type V = (Seq<char>, LitView);

    open spec fn view(&self) -> (Seq<char>, LitView) {
        (self.key@, self.value@)
    }
}

pub open spec fn terms_view(ts: Seq<Term>) -> Seq<(Seq<char>, LitView)> {
    ts.map_values(|t: Term| t@)
}

/// The value that an expression gives a field: a literal, a list of the literals of an
/// array (other elements left out), or nothing that any field reads.
pub open spec fn value_of(e: FilterExpr) -> LitView {
    match e {
        FilterExpr::Str(s) => LitView::Scalar(ScalarView::Str(s@)),
        FilterExpr::Int(d) => LitView::Scalar(ScalarView::Int(d@)),
        FilterExpr::Bool(b) => LitView::Scalar(ScalarView::Bool(b)),
        FilterExpr::Array(xs) => LitView::List(scalars_in(xs@)),
        _ => LitView::Other,
    }
}

/// The literals among `xs`, in order.
pub open spec fn scalars_in(xs: Seq<FilterExpr>) -> Seq<ScalarView>
    decreases xs.len(),
{
    if xs.len() == 0 {
        Seq::empty()
    } else {
        let init = scalars_in(xs.drop_last());
        match xs.last() {
            FilterExpr::Str(s) => init.push(ScalarView::Str(s@)),
            FilterExpr::Int(d) => init.push(ScalarView::Int(d@)),
            FilterExpr::Bool(b) => init.push(ScalarView::Bool(b)),
            _ => init,
        }
    }
}

/// The comparison that `key op value` makes: one where `key` is a plain name, none
/// otherwise.
pub open spec fn comparison(key: FilterExpr, value: FilterExpr) -> Seq<(Seq<char>, LitView)> {
    match key {
        FilterExpr::Path { plain: true, ident: Some(k) } => seq![(k@, value_of(value))],
        _ => Seq::empty(),
    }
}

/// The comparisons that a filter makes, leftmost first. Down the left side of a chain
/// of `&&`, each right operand that is a binary expression `key op value` gives one;
/// the leftmost operand gives one when it is a binary expression; anything else
/// gives none.
pub open spec fn filter_walk(e: FilterExpr) -> Seq<(Seq<char>, LitView)>
    decreases e,
{
    match e {
        FilterExpr::Binary(l, FilterBinOp::And, r) => filter_walk(*l) + match *r {
            FilterExpr::Binary(k, _, v) => comparison(*k, *v),
            _ => Seq::empty(),
        },
        FilterExpr::Binary(k, _, v) => comparison(*k, *v),
        _ => Seq::empty(),
    }
}

fn value_exec(e: &FilterExpr) -> (r: Lit)
    ensures
        r@ == value_of(*e),
{
    match e {
        FilterExpr::Str(s) => Lit::Scalar(Scalar::Str(s.clone())),
        FilterExpr::Int(d) => Lit::Scalar(Scalar::Int(d.clone())),
        FilterExpr::Bool(b) => Lit::Scalar(Scalar::Bool(*b)),
        FilterExpr::Array(xs) => {
            let mut out: Vec<Scalar> = Vec::new();
            assert(scalars_view(out@) =~= scalars_in(xs@.take(0)));
            for i in 0..xs.len()
                invariant
                    scalars_view(out@) == scalars_in(xs@.take(i as int)),
            {
                assert(xs@.take(i + 1).drop_last() == xs@.take(i as int));
                assert(xs@.take(i + 1).last() == xs@[i as int]);
                let ghost before = scalars_view(out@);
                match &xs[i] {
                    FilterExpr::Str(s) => {
                        out.push(Scalar::Str(s.clone()));
                        assert(scalars_view(out@) =~= before.push(ScalarView::Str(s@)));
                    },
                    FilterExpr::Int(d) => {
                        out.push(Scalar::Int(d.clone()));
                        assert(scalars_view(out@) =~= before.push(ScalarView::Int(d@)));
                    },
                    FilterExpr::Bool(b) => {
                        out.push(Scalar::Bool(*b));
                        assert(scalars_view(out@) =~= before.push(ScalarView::Bool(*b)));
                    },
                    _ => {},
                }
            }
            assert(xs@.take(xs.len() as int) == xs@);
            Lit::List(out)
        },
        _ => Lit::Other,
    }
}

fn comparison_exec(key: &FilterExpr, value: &FilterExpr, out: &mut Vec<Term>)
    ensures
        terms_view(final(out)@) == terms_view(old(out)@) + comparison(*key, *value),
{
    let ghost before = terms_view(out@);
    match key {
        FilterExpr::Path { plain: true, ident: Some(k) } => {
            out.push(Term { key: k.clone(), value: value_exec(value) });
            assert(terms_view(out@) =~= before + comparison(*key, *value));
        },
        _ => {
            assert(terms_view(out@) =~= before + comparison(*key, *value));
        },
    }
}

/// The comparisons that the filter `e` makes, as `filter_walk` says, added to `out`.
fn walk_exec(e: &FilterExpr, out: &mut Vec<Term>)
    ensures
        terms_view(final(out)@) == terms_view(old(out)@) + filter_walk(*e),
    decreases e,
{
    let ghost before = terms_view(out@);
    match e {
        FilterExpr::Binary(l, FilterBinOp::And, r) => {
            walk_exec(l, out);
            let ghost mid = terms_view(out@);
            match &**r {
                FilterExpr::Binary(k, _, v) => comparison_exec(k, v, out),
                _ => {},
            }
            assert(terms_view(out@) =~= before + filter_walk(*e));
        },
        FilterExpr::Binary(k, _, v) => {
            comparison_exec(k, v, out);
        },
        _ => {
            assert(terms_view(out@) =~= before + filter_walk(*e));
        },
    }
}

// ---------------------------------------------------------------------------
// The filter
// ---------------------------------------------------------------------------

/// The mathematical content of a `SearchMemosFilter`.
pub struct SearchFilterView {
    pub content_search: Option<Seq<Seq<char>>>,
    pub visibilities: Option<Seq<Visibility>>,
    pub tag_search: Option<Seq<Seq<char>>>,
    pub order_by_pinned: Option<bool>,
    pub display_time_before: Option<i64>,
    pub display_time_after: Option<i64>,
    pub creator: Option<Seq<char>>,
    pub uid: Option<Seq<char>>,
    pub row_status: Option<RowStatus>,
    pub random: Option<bool>,
    pub limit: Option<i32>,
    pub include_comments: Option<bool>,
    pub has_link: Option<bool>,
    pub has_task_list: Option<bool>,
    pub has_code: Option<bool>,
    pub has_incomplete_tasks: Option<bool>,
}

impl View for SearchMemosFilter {
    type V = SearchFilterView;

    open spec fn view(&self) -> SearchFilterView {
        SearchFilterView {
            content_search: self.content_search.deep_view(),
            visibilities: match self.visibilities {
                Some(v) => Some(v@),
                None => None,
            },
            tag_search: self.tag_search.deep_view(),
            order_by_pinned: self.order_by_pinned,
            display_time_before: self.display_time_before,
            display_time_after: self.display_time_after,
            creator: self.creator.deep_view(),
            uid: self.uid.deep_view(),
            row_status: self.row_status,
            random: self.random,
            limit: self.limit,
            include_comments: self.include_comments,
            has_link: self.has_link,
            has_task_list: self.has_task_list,
            has_code: self.has_code,
            has_incomplete_tasks: self.has_incomplete_tasks,
        }
    }
}

/// The filter that says nothing.
pub open spec fn empty_filter() -> SearchFilterView {
    SearchFilterView {
        content_search: None,
        visibilities: None,
        tag_search: None,
        order_by_pinned: None,
        display_time_before: None,
        display_time_after: None,
        creator: None,
        uid: None,
        row_status: None,
        random: None,
        limit: None,
        include_comments: None,
        has_link: None,
        has_task_list: None,
        has_code: None,
        has_incomplete_tasks: None,
    }
}

/// The string that a value is, if it is a string literal.
pub open spec fn lit_string(l: LitView) -> Option<Seq<char>> {
    match l {
        LitView::Scalar(ScalarView::Str(s)) => Some(s),
        _ => None,
    }
}

/// The boolean that a value is, if it is `true` or `false`.
pub open spec fn lit_bool(l: LitView) -> Option<bool> {
    match l {
        LitView::Scalar(ScalarView::Bool(b)) => Some(b),
        _ => None,
    }
}

/// The integer that a value is, if it is an integer literal in `lo..=hi`.
pub open spec fn lit_int(l: LitView, lo: int, hi: int) -> Option<int> {
    match l {
        LitView::Scalar(ScalarView::Int(d)) => match parse_int_spec(d, lo, hi) {
            Ok(v) => Some(v),
            Err(_) => None,
        },
        _ => None,
    }
}

/// The string literals of a list, in order; other literals are skipped.
pub open spec fn strings_of(xs: Seq<ScalarView>) -> Seq<Seq<char>>
    decreases xs.len(),
{
    if xs.len() == 0 {
        Seq::<Seq<char>>::empty()
    } else {
        let init = strings_of(xs.drop_last());
        match xs.last() {
            ScalarView::Str(s) => init.push(s),
            _ => init,
        }
    }
}

/// The visibilities that the string literals of a list name, in order; other
/// literals are skipped.
pub open spec fn visibilities_of(xs: Seq<ScalarView>) -> Seq<Visibility>
    decreases xs.len(),
{
    if xs.len() == 0 {
        Seq::<Visibility>::empty()
    } else {
        let init = visibilities_of(xs.drop_last());
        match xs.last() {
            ScalarView::Str(s) => match visibility_from_name(s) {
                Some(v) => init.push(v),
                None => init,
            },
            _ => init,
        }
    }
}

/// Reading a list piece by piece gives the same strings: those of `xs + ys` are those
/// of `xs` followed by those of `ys`.
pub proof fn lemma_strings_concat(xs: Seq<ScalarView>, ys: Seq<ScalarView>)
    ensures
        strings_of(xs + ys) == strings_of(xs) + strings_of(ys),
    decreases ys.len(),
{
    if ys.len() == 0 {
        assert(xs + ys =~= xs);
        assert(strings_of(xs) + strings_of(ys) =~= strings_of(xs));
    } else {
        lemma_strings_concat(xs, ys.drop_last());
        assert((xs + ys).drop_last() =~= xs + ys.drop_last());
        assert((xs + ys).last() == ys.last());
        match ys.last() {
            ScalarView::Str(t) => {
                assert(strings_of(xs) + strings_of(ys.drop_last()).push(t) =~= (strings_of(xs) + strings_of(
                    ys.drop_last(),
                )).push(t));
            },
            _ => {},
        }
    }
}

/// Every string of a list is kept, in order: where each element is a string, the
/// strings read are the elements' strings, one for each.
pub proof fn lemma_strings_all_kept(xs: Seq<ScalarView>)
    requires
        forall|i: int| 0 <= i < xs.len() ==> #[trigger] xs[i] is Str,
    ensures
        strings_of(xs).len() == xs.len(),
        forall|i: int| 0 <= i < xs.len() ==> #[trigger] strings_of(xs)[i] == xs[i]->Str_0,
    decreases xs.len(),
{
    if xs.len() > 0 {
        let init = xs.drop_last();
        assert forall|i: int| 0 <= i < init.len() implies #[trigger] init[i] is Str by {
            assert(init[i] == xs[i]);
        }
        lemma_strings_all_kept(init);
        assert(xs[xs.len() - 1] is Str);
        assert forall|i: int| 0 <= i < xs.len() implies #[trigger] strings_of(xs)[i] == xs[i]->Str_0 by {
            if i < init.len() {
                assert(init[i] == xs[i]);
            }
        }
    }
}

/// Reading a list piece by piece gives the same visibilities: those of `xs + ys` are
/// those of `xs` followed by those of `ys`.
pub proof fn lemma_visibilities_concat(xs: Seq<ScalarView>, ys: Seq<ScalarView>)
    ensures
        visibilities_of(xs + ys) == visibilities_of(xs) + visibilities_of(ys),
    decreases ys.len(),
{
    if ys.len() == 0 {
        assert(xs + ys =~= xs);
        assert(visibilities_of(xs) + visibilities_of(ys) =~= visibilities_of(xs));
    } else {
        lemma_visibilities_concat(xs, ys.drop_last());
        assert((xs + ys).drop_last() =~= xs + ys.drop_last());
        assert((xs + ys).last() == ys.last());
        match ys.last() {
            ScalarView::Str(t) => match visibility_from_name(t) {
                Some(v) => {
                    assert(visibilities_of(xs) + visibilities_of(ys.drop_last()).push(v) =~= (visibilities_of(xs)
                        + visibilities_of(ys.drop_last())).push(v));
                },
                None => {},
            },
            _ => {},
        }
    }
}

/// Every visibility that a list names is kept, in order: where each element is a
/// string naming a visibility, the result has one visibility for each element, the
/// i-th the one that the i-th string names.
pub proof fn lemma_visibilities_all_kept(xs: Seq<ScalarView>)
    requires
        forall|i: int| 0 <= i < xs.len() ==> (#[trigger] xs[i] is Str && visibility_from_name(xs[i]->Str_0) is Some),
    ensures
        visibilities_of(xs).len() == xs.len(),
        forall|i: int| 0 <= i < xs.len() ==> Some(#[trigger] visibilities_of(xs)[i]) == visibility_from_name(xs[i]->Str_0),
    decreases xs.len(),
{
    if xs.len() > 0 {
        let init = xs.drop_last();
        assert forall|i: int| 0 <= i < init.len() implies (#[trigger] init[i] is Str && visibility_from_name(
            init[i]->Str_0,
        ) is Some) by {
            assert(init[i] == xs[i]);
        }
        lemma_visibilities_all_kept(init);
        assert(xs[xs.len() - 1] is Str);
        assert forall|i: int| 0 <= i < xs.len() implies Some(#[trigger] visibilities_of(xs)[i]) == visibility_from_name(
            xs[i]->Str_0,
        ) by {
            if i < init.len() {
                assert(init[i] == xs[i]);
            }
        }
    }
}

/// The strings of a value, if it is a list.
pub open spec fn lit_strings(l: LitView) -> Option<Seq<Seq<char>>> {
    match l {
        LitView::List(xs) => Some(strings_of(xs)),
        _ => None,
    }
}

/// The visibilities of a value, if it is a list.
pub open spec fn lit_visibilities(l: LitView) -> Option<Seq<Visibility>> {
    match l {
        LitView::List(xs) => Some(visibilities_of(xs)),
        _ => None,
    }
}

/// The row status that a value names: `NORMAL` stands for active rows, else the name
/// that the protobuf definition gives.
pub open spec fn lit_row_status(l: LitView) -> Option<RowStatus> {
    match l {
        LitView::Scalar(ScalarView::Str(s)) => if s == "NORMAL"@ {
            Some(RowStatus::Active)
        } else {
            row_status_from_name(s)
        },
        _ => None,
    }
}

pub open spec fn int_as_i64(v: Option<int>) -> Option<i64> {
    match v {
        Some(x) => Some(x as i64),
        None => None,
    }
}

pub open spec fn int_as_i32(v: Option<int>) -> Option<i32> {
    match v {
        Some(x) => Some(x as i32),
        None => None,
    }
}

/// The filter after the comparison `key == value`: the field that `key` names takes
/// what `value` gives for it (`None` when it gives nothing); unknown keys change nothing.
pub open spec fn assign(f: SearchFilterView, key: Seq<char>, l: LitView) -> SearchFilterView {
    if key == "creator"@ {
        SearchFilterView { creator: lit_string(l), ..f }
    } else if key == "row_status"@ {
        SearchFilterView { row_status: lit_row_status(l), ..f }
    } else if key == "visibilities"@ {
        SearchFilterView { visibilities: lit_visibilities(l), ..f }
    } else if key == "order_by_pinned"@ {
        SearchFilterView { order_by_pinned: lit_bool(l), ..f }
    } else if key == "content_search"@ {
        SearchFilterView { content_search: lit_strings(l), ..f }
    } else if key == "display_time_before"@ {
        SearchFilterView { display_time_before: int_as_i64(lit_int(l, i64::MIN as int, i64::MAX as int)), ..f }
    } else if key == "display_time_after"@ {
        SearchFilterView { display_time_after: int_as_i64(lit_int(l, i64::MIN as int, i64::MAX as int)), ..f }
    } else if key == "tag_search"@ {
        SearchFilterView { tag_search: lit_strings(l), ..f }
    } else if key == "uid"@ {
        SearchFilterView { uid: lit_string(l), ..f }
    } else if key == "random"@ {
        SearchFilterView { random: lit_bool(l), ..f }
    } else if key == "limit"@ {
        SearchFilterView { limit: int_as_i32(lit_int(l, i32::MIN as int, i32::MAX as int)), ..f }
    } else if key == "include_comments"@ {
        SearchFilterView { include_comments: lit_bool(l), ..f }
    } else if key == "has_link"@ {
        SearchFilterView { has_link: lit_bool(l), ..f }
    } else if key == "has_task_list"@ {
        SearchFilterView { has_task_list: lit_bool(l), ..f }
    } else if key == "has_code"@ {
        SearchFilterView { has_code: lit_bool(l), ..f }
    } else if key == "has_incomplete_tasks"@ {
        SearchFilterView { has_incomplete_tasks: lit_bool(l), ..f }
    } else {
        f
    }
}

/// The filter that the comparisons make. They are taken in from the last to the
/// first, so that the first comparison of a field decides it.
pub open spec fn apply_terms(ts: Seq<(Seq<char>, LitView)>) -> SearchFilterView
    decreases ts.len(),
{
    if ts.len() == 0 {
        empty_filter()
    } else {
        assign(apply_terms(ts.drop_first()), ts[0].0, ts[0].1)
    }
}

/// The value of the first comparison in `ts` whose field is `key`.
pub open spec fn first_lit(ts: Seq<(Seq<char>, LitView)>, key: Seq<char>) -> Option<LitView>
    decreases ts.len(),
{
    if ts.len() == 0 {
        None
    } else if ts[0].0 == key {
        Some(ts[0].1)
    } else {
        first_lit(ts.drop_first(), key)
    }
}

/// The filter in which each field takes what the first comparison of its key gives.
pub open spec fn filter_from_first(ts: Seq<(Seq<char>, LitView)>) -> SearchFilterView {
    SearchFilterView {
        creator: match first_lit(ts, "creator"@) {
            Some(l) => lit_string(l),
            None => None,
        },
        row_status: match first_lit(ts, "row_status"@) {
            Some(l) => lit_row_status(l),
            None => None,
        },
        visibilities: match first_lit(ts, "visibilities"@) {
            Some(l) => lit_visibilities(l),
            None => None,
        },
        order_by_pinned: match first_lit(ts, "order_by_pinned"@) {
            Some(l) => lit_bool(l),
            None => None,
        },
        content_search: match first_lit(ts, "content_search"@) {
            Some(l) => lit_strings(l),
            None => None,
        },
        display_time_before: match first_lit(ts, "display_time_before"@) {
            Some(l) => int_as_i64(lit_int(l, i64::MIN as int, i64::MAX as int)),
            None => None,
        },
        display_time_after: match first_lit(ts, "display_time_after"@) {
            Some(l) => int_as_i64(lit_int(l, i64::MIN as int, i64::MAX as int)),
            None => None,
        },
        tag_search: match first_lit(ts, "tag_search"@) {
            Some(l) => lit_strings(l),
            None => None,
        },
        uid: match first_lit(ts, "uid"@) {
            Some(l) => lit_string(l),
            None => None,
        },
        random: match first_lit(ts, "random"@) {
            Some(l) => lit_bool(l),
            None => None,
        },
        limit: match first_lit(ts, "limit"@) {
            Some(l) => int_as_i32(lit_int(l, i32::MIN as int, i32::MAX as int)),
            None => None,
        },
        include_comments: match first_lit(ts, "include_comments"@) {
            Some(l) => lit_bool(l),
            None => None,
        },
        has_link: match first_lit(ts, "has_link"@) {
            Some(l) => lit_bool(l),
            None => None,
        },
        has_task_list: match first_lit(ts, "has_task_list"@) {
            Some(l) => lit_bool(l),
            None => None,
        },
        has_code: match first_lit(ts, "has_code"@) {
            Some(l) => lit_bool(l),
            None => None,
        },
        has_incomplete_tasks: match first_lit(ts, "has_incomplete_tasks"@) {
            Some(l) => lit_bool(l),
            None => None,
        },
    }
}

/// Each field of a filter is decided by the first comparison of its key; a field that
/// no comparison names stays unset, and comparisons of unknown keys change nothing.
#[verifier::rlimit(50)]
pub proof fn lemma_first_comparison_decides(ts: Seq<(Seq<char>, LitView)>)
    ensures
        apply_terms(ts) == filter_from_first(ts),
    decreases ts.len(),
{
    if ts.len() > 0 {
        lemma_first_comparison_decides(ts.drop_first());
        reveal_strlit("creator");
        reveal_strlit("row_status");
        reveal_strlit("visibilities");
        reveal_strlit("order_by_pinned");
        reveal_strlit("content_search");
        reveal_strlit("display_time_before");
        reveal_strlit("display_time_after");
        reveal_strlit("tag_search");
        reveal_strlit("uid");
        reveal_strlit("random");
        reveal_strlit("limit");
        reveal_strlit("include_comments");
        reveal_strlit("has_link");
        reveal_strlit("has_task_list");
        reveal_strlit("has_code");
        reveal_strlit("has_incomplete_tasks");
        assert("creator"@.len() == 7);
        assert("row_status"@.len() == 10);
        assert("visibilities"@.len() == 12);
        assert("order_by_pinned"@.len() == 15);
        assert("content_search"@.len() == 14);
        assert("display_time_before"@.len() == 19);
        assert("display_time_after"@.len() == 18);
        assert("tag_search"@.len() == 10);
        assert("uid"@.len() == 3);
        assert("random"@.len() == 6);
        assert("limit"@.len() == 5);
        assert("include_comments"@.len() == 16);
        assert("has_link"@.len() == 8);
        assert("has_task_list"@.len() == 13);
        assert("has_code"@.len() == 8);
        assert("has_incomplete_tasks"@.len() == 20);
        assert("row_status"@[0] != "tag_search"@[0]);
        assert("has_link"@[4] != "has_code"@[4]);
        assert(apply_terms(ts) == assign(apply_terms(ts.drop_first()), ts[0].0, ts[0].1));
        assert(apply_terms(ts).creator == filter_from_first(ts).creator);
        assert(apply_terms(ts).row_status == filter_from_first(ts).row_status);
        assert(apply_terms(ts).visibilities == filter_from_first(ts).visibilities);
        assert(apply_terms(ts).order_by_pinned == filter_from_first(ts).order_by_pinned);
        assert(apply_terms(ts).content_search == filter_from_first(ts).content_search);
        assert(apply_terms(ts).display_time_before == filter_from_first(ts).display_time_before);
        assert(apply_terms(ts).display_time_after == filter_from_first(ts).display_time_after);
        assert(apply_terms(ts).tag_search == filter_from_first(ts).tag_search);
        assert(apply_terms(ts).uid == filter_from_first(ts).uid);
        assert(apply_terms(ts).random == filter_from_first(ts).random);
        assert(apply_terms(ts).limit == filter_from_first(ts).limit);
        assert(apply_terms(ts).include_comments == filter_from_first(ts).include_comments);
        assert(apply_terms(ts).has_link == filter_from_first(ts).has_link);
        assert(apply_terms(ts).has_task_list == filter_from_first(ts).has_task_list);
        assert(apply_terms(ts).has_code == filter_from_first(ts).has_code);
        assert(apply_terms(ts).has_incomplete_tasks == filter_from_first(ts).has_incomplete_tasks);
    }
}

/// Whether no two comparisons of `ts` name the same field.
pub open spec fn distinct_keys(ts: Seq<(Seq<char>, LitView)>) -> bool {
    forall|i: int, j: int| 0 <= i < j < ts.len() ==> #[trigger] ts[i].0 != #[trigger] ts[j].0
}

proof fn lemma_first_lit_found(ts: Seq<(Seq<char>, LitView)>, key: Seq<char>)
    ensures
        first_lit(ts, key) matches Some(l) ==> ts.contains((key, l)),
        first_lit(ts, key) is None ==> forall|i: int| 0 <= i < ts.len() ==> #[trigger] ts[i].0 != key,
    decreases ts.len(),
{
    if ts.len() > 0 {
        lemma_first_lit_found(ts.drop_first(), key);
        if ts[0].0 == key {
            assert(ts[0] == (key, ts[0].1));
        } else {
            if let Some(l) = first_lit(ts, key) {
                let i = choose|i: int| 0 <= i < ts.drop_first().len() && ts.drop_first()[i] == (key, l);
                assert(ts[i + 1] == (key, l));
            }
            assert forall|i: int| 0 <= i < ts.len() && first_lit(ts, key) is None implies #[trigger] ts[i].0 != key by {
                if i > 0 {
                    assert(ts[i] == ts.drop_first()[i - 1]);
                }
            }
        }
    }
}

proof fn lemma_first_lit_unique(ts: Seq<(Seq<char>, LitView)>, key: Seq<char>, l: LitView)
    requires
        distinct_keys(ts),
        ts.contains((key, l)),
    ensures
        first_lit(ts, key) == Some(l),
    decreases ts.len(),
{
    let i = choose|i: int| 0 <= i < ts.len() && ts[i] == (key, l);
    if i > 0 {
        assert(ts[0].0 != ts[i].0);
        assert(ts.drop_first()[i - 1] == (key, l));
        assert(distinct_keys(ts.drop_first())) by {
            assert forall|a: int, b: int| 0 <= a < b < ts.drop_first().len() implies #[trigger] ts.drop_first()[a].0
                != #[trigger] ts.drop_first()[b].0 by {
                assert(ts[a + 1].0 != ts[b + 1].0);
            }
        }
        lemma_first_lit_unique(ts.drop_first(), key, l);
    }
}

/// Comparisons of distinct fields may come in any order: two lists that hold the same
/// comparisons, each naming every field at most once, make the same filter.
pub proof fn lemma_comparison_order_free(ts: Seq<(Seq<char>, LitView)>, us: Seq<(Seq<char>, LitView)>)
    requires
        distinct_keys(ts),
        distinct_keys(us),
        forall|t: (Seq<char>, LitView)| ts.contains(t) <==> us.contains(t),
    ensures
        apply_terms(ts) == apply_terms(us),
{
    lemma_first_comparison_decides(ts);
    lemma_first_comparison_decides(us);
    assert forall|k: Seq<char>| #[trigger] first_lit(ts, k) == first_lit(us, k) by {
        lemma_first_lit_found(ts, k);
        lemma_first_lit_found(us, k);
        if let Some(l) = first_lit(ts, k) {
            lemma_first_lit_unique(us, k, l);
        } else if let Some(l) = first_lit(us, k) {
            lemma_first_lit_unique(ts, k, l);
        }
    }
}

/// The comparisons that a filter text holds, if it is a filter.
pub open spec fn filter_terms(s: Seq<char>) -> Option<Seq<(Seq<char>, LitView)>> {
    match syn_parse(s) {
        None => None,
        Some(e) => Some(filter_walk(e)),
    }
}

/// Reordering the comparisons of a filter in which no field is named twice changes
/// nothing: both texts are accepted and give the same filter.
pub proof fn lemma_filter_order_free(
    a: Seq<char>,
    b: Seq<char>,
    ta: Seq<(Seq<char>, LitView)>,
    tb: Seq<(Seq<char>, LitView)>,
)
    requires
        filter_terms(a) == Some(ta),
        filter_terms(b) == Some(tb),
        distinct_keys(ta),
        distinct_keys(tb),
        forall|t: (Seq<char>, LitView)| ta.contains(t) <==> tb.contains(t),
    ensures
        parse_filter(a) is Ok,
        parse_filter(a) == parse_filter(b),
{
    lemma_comparison_order_free(ta, tb);
}

/// Why a filter was refused.
#[derive(Clone, Copy, Debug, PartialEq, Eq, Structural)]
pub enum FilterError {
    /// The text is not one Rust expression.
    InvalidSyntax,
}

/// The filter that a text is, or why it is none.
pub open spec fn parse_filter(s: Seq<char>) -> Result<SearchFilterView, FilterError> {
    match syn_parse(s) {
        None => Err(FilterError::InvalidSyntax),
        Some(e) => Ok(apply_terms(filter_walk(e))),
    }
}

fn lit_string_exec(l: &Lit) -> (r: Option<String>)
    ensures
        r.deep_view() == lit_string(l@),
{
    match l {
        Lit::Scalar(Scalar::Str(s)) => Some(s.clone()),
        _ => None,
    }
}

fn lit_bool_exec(l: &Lit) -> (r: Option<bool>)
    ensures
        r == lit_bool(l@),
{
    match l {
        Lit::Scalar(Scalar::Bool(b)) => Some(*b),
        _ => None,
    }
}

fn lit_int_exec(l: &Lit, lo: i128, hi: i128) -> (r: Option<i128>)
    requires
        lo <= 0 <= hi,
        lo >= i64::MIN,
        hi <= u64::MAX,
    ensures
        match lit_int(l@, lo as int, hi as int) {
            Some(v) => r == Some(v as i128),
            None => r is None,
        },
        r matches Some(v) ==> lo <= v <= hi,
        lit_int(l@, lo as int, hi as int) matches Some(v) ==> lo <= v <= hi,
{
    match l {
        Lit::Scalar(Scalar::Int(d)) => {
            proof {
                crate::text::lemma_parse_bounds(d@, lo as int, hi as int);
            }
            let cs = str_chars(d.as_str());
            match parse_int_chars(&cs, lo, hi) {
                Ok(v) => {
                    proof {
                        crate::text::lemma_parse_bounds(cs@, lo as int, hi as int);
                    }
                    Some(v)
                },
                Err(_) => None,
            }
        },
        _ => None,
    }
}

fn lit_strings_exec(l: &Lit) -> (r: Option<Vec<String>>)
    ensures
        r.deep_view() == lit_strings(l@),
{
    match l {
        Lit::List(xs) => {
            let ghost xv = scalars_view(xs@);
            let mut out: Vec<String> = Vec::new();
            for i in 0..xs.len()
                invariant
                    xv == scalars_view(xs@),
                    out.deep_view() == strings_of(xv.take(i as int)),
            {
                assert(xv.take(i + 1).drop_last() == xv.take(i as int));
                assert(xv.take(i + 1).last() == xs@[i as int]@);
                let ghost before = out.deep_view();
                if let Scalar::Str(s) = &xs[i] {
                    out.push(s.clone());
                    assert(out.deep_view() =~= before.push(s@));
                }
            }
            assert(xv.take(xs.len() as int) == xv);
            Some(out)
        },
        _ => None,
    }
}

fn lit_visibilities_exec(l: &Lit) -> (r: Option<Vec<Visibility>>)
    ensures
        match lit_visibilities(l@) {
            Some(vs) => r matches Some(v) && v@ == vs,
            None => r is None,
        },
{
    match l {
        Lit::List(xs) => {
            let ghost xv = scalars_view(xs@);
            let mut out: Vec<Visibility> = Vec::new();
            for i in 0..xs.len()
                invariant
                    xv == scalars_view(xs@),
                    out@ == visibilities_of(xv.take(i as int)),
            {
                assert(xv.take(i + 1).drop_last() == xv.take(i as int));
                assert(xv.take(i + 1).last() == xs@[i as int]@);
                if let Scalar::Str(s) = &xs[i] {
                    if let Some(v) = Visibility::from_str_name(s.as_str()) {
                        out.push(v);
                    }
                }
            }
            assert(xv.take(xs.len() as int) == xv);
            Some(out)
        },
        _ => None,
    }
}

fn lit_row_status_exec(l: &Lit) -> (r: Option<RowStatus>)
    ensures
        r == lit_row_status(l@),
{
    match l {
        Lit::Scalar(Scalar::Str(s)) => {
            if str_eq(s.as_str(), "NORMAL") {
                Some(RowStatus::Active)
            } else {
                RowStatus::from_str_name(s.as_str())
            }
        },
        _ => None,
    }
}

fn assign_exec(f: &mut SearchMemosFilter, t: &Term)
    ensures
        final(f)@ == assign(old(f)@, t.key@, t.value@),
{
    let key = t.key.as_str();
    let l = &t.value;
    if str_eq(key, "creator") {
        f.creator = lit_string_exec(l);
    } else if str_eq(key, "row_status") {
        f.row_status = lit_row_status_exec(l);
    } else if str_eq(key, "visibilities") {
        f.visibilities = lit_visibilities_exec(l);
    } else if str_eq(key, "order_by_pinned") {
        f.order_by_pinned = lit_bool_exec(l);
    } else if str_eq(key, "content_search") {
        f.content_search = lit_strings_exec(l);
    } else if str_eq(key, "display_time_before") {
        f.display_time_before = match lit_int_exec(l, i64::MIN as i128, i64::MAX as i128) {
            Some(v) => Some(v as i64),
            None => None,
        };
    } else if str_eq(key, "display_time_after") {
        f.display_time_after = match lit_int_exec(l, i64::MIN as i128, i64::MAX as i128) {
            Some(v) => Some(v as i64),
            None => None,
        };
    } else if str_eq(key, "tag_search") {
        f.tag_search = lit_strings_exec(l);
    } else if str_eq(key, "uid") {
        f.uid = lit_string_exec(l);
    } else if str_eq(key, "random") {
        f.random = lit_bool_exec(l);
    } else if str_eq(key, "limit") {
        f.limit = match lit_int_exec(l, i32::MIN as i128, i32::MAX as i128) {
            Some(v) => Some(v as i32),
            None => None,
        };
    } else if str_eq(key, "include_comments") {
        f.include_comments = lit_bool_exec(l);
    } else if str_eq(key, "has_link") {
        f.has_link = lit_bool_exec(l);
    } else if str_eq(key, "has_task_list") {
        f.has_task_list = lit_bool_exec(l);
    } else if str_eq(key, "has_code") {
        f.has_code = lit_bool_exec(l);
    } else if str_eq(key, "has_incomplete_tasks") {
        f.has_incomplete_tasks = lit_bool_exec(l);
    }
}

fn empty_search_filter() -> (r: SearchMemosFilter)
    ensures
        r@ == empty_filter(),
{
    SearchMemosFilter {
        content_search: None,
        visibilities: None,
        tag_search: None,
        order_by_pinned: None,
        display_time_before: None,
        display_time_after: None,
        creator: None,
        uid: None,
        row_status: None,
        random: None,
        limit: None,
        include_comments: None,
        has_link: None,
        has_task_list: None,
        has_code: None,
        has_incomplete_tasks: None,
    }
}

impl SearchMemosFilter {
    /// Parses a filter: a Rust expression, read as comparisons `field op value` joined
    /// by `&&` (see `filter_walk`), where a value is a string, an integer, `true`,
    /// `false`, or an array of these. The first comparison of a field decides it; what
    /// the walk does not read is left out.
    pub fn parse(filter: &str) -> (r: Result<SearchMemosFilter, FilterError>)
        ensures
            match parse_filter(filter@) {
                Ok(v) => r matches Ok(f) && f@ == v,
                Err(e) => r == Err::<SearchMemosFilter, FilterError>(e),
            },
    {
        let e = match parse_filter_expr(filter) {
            Some(e) => e,
            None => {
                return Err(FilterError::InvalidSyntax);
            },
        };
        let mut terms: Vec<Term> = Vec::new();
        assert(terms_view(terms@) =~= Seq::<(Seq<char>, LitView)>::empty());
        walk_exec(&e, &mut terms);
        assert(terms_view(terms@) =~= filter_walk(e));
        let ghost tv = terms_view(terms@);
        let mut f = empty_search_filter();
        let mut i = terms.len();
        assert(tv.skip(i as int).len() == 0);
        while i > 0
            invariant
                i <= terms.len(),
                tv == terms_view(terms@),
                f@ == apply_terms(tv.skip(i as int)),
            decreases i,
        {
            i = i - 1;
            assert(tv.skip(i as int).drop_first() == tv.skip(i + 1));
            assert(tv.skip(i as int)[0] == terms@[i as int]@);
            assign_exec(&mut f, &terms[i]);
        }
        assert(tv.skip(0) == tv);
        Ok(f)
    }
}

} // verus!
