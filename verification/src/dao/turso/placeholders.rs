use vstd::prelude::*;

use crate::dao::turso::memo::find::placeholders;
use crate::text::{decimal, decimal_digits, digit_char, join_with};

verus! {

/// How many `?` placeholders a text holds.
pub open spec fn placeholder_count(s: Seq<char>) -> nat
    decreases s.len(),
{
    if s.len() == 0 {
        0
    } else {
        placeholder_count(s.drop_last()) + if s.last() == '?' {
            1nat
        } else {
            0nat
        }
    }
}

/// The placeholders of two texts put together are those of each.
pub proof fn lemma_count_concat(a: Seq<char>, b: Seq<char>)
    ensures
        placeholder_count(a + b) == placeholder_count(a) + placeholder_count(b),
    decreases b.len(),
{
    if b.len() > 0 {
        lemma_count_concat(a, b.drop_last());
        assert((a + b).drop_last() =~= a + b.drop_last());
    } else {
        assert(a + b =~= a);
    }
}

/// A text without `?` holds no placeholder.
pub proof fn lemma_count_none(s: Seq<char>)
    requires
        !s.contains('?'),
    ensures
        placeholder_count(s) == 0,
    decreases s.len(),
{
    if s.len() > 0 {
        assert(!s.drop_last().contains('?')) by {
            if s.drop_last().contains('?') {
                let k = choose|k: int| 0 <= k < s.drop_last().len() && s.drop_last()[k] == '?';
                assert(s[k] == '?');
            }
        }
        lemma_count_none(s.drop_last());
        assert(s.last() != '?') by {
            assert(s[s.len() - 1] == s.last());
        }
    }
}

/// A text none of whose characters is `?` holds no placeholder.
pub proof fn lemma_no_q(s: Seq<char>)
    requires
        forall|i: int| 0 <= i < s.len() ==> s[i] != '?',
    ensures
        placeholder_count(s) == 0,
{
    lemma_count_none(s);
}

/// A text that ends with its only `?` holds one placeholder.
pub proof fn lemma_one_placeholder(s: Seq<char>)
    requires
        s.len() > 0,
        s.last() == '?',
        forall|i: int| 0 <= i < s.len() - 1 ==> s[i] != '?',
    ensures
        placeholder_count(s) == 1,
{
    lemma_no_q(s.drop_last());
}

/// The placeholders of each part, added up.
pub open spec fn counts_sum(parts: Seq<Seq<char>>) -> nat
    decreases parts.len(),
{
    if parts.len() == 0 {
        0
    } else {
        counts_sum(parts.drop_last()) + placeholder_count(parts.last())
    }
}

/// Parts joined by a separator without placeholders hold the placeholders of the parts.
pub proof fn lemma_join_count(parts: Seq<Seq<char>>, sep: Seq<char>)
    requires
        placeholder_count(sep) == 0,
    ensures
        placeholder_count(join_with(parts, sep)) == counts_sum(parts),
    decreases parts.len(),
{
    if parts.len() == 1 {
        assert(parts.drop_last().len() == 0);
        assert(counts_sum(parts.drop_last()) == 0);
        assert(parts.last() == parts[0]);
    } else if parts.len() > 1 {
        lemma_join_count(parts.drop_last(), sep);
        lemma_count_concat(join_with(parts.drop_last(), sep), sep);
        lemma_count_concat(join_with(parts.drop_last(), sep) + sep, parts.last());
    }
}

/// Adding a part adds its placeholders.
pub proof fn lemma_counts_sum_push(parts: Seq<Seq<char>>, p: Seq<char>)
    ensures
        counts_sum(parts.push(p)) == counts_sum(parts) + placeholder_count(p),
{
    assert(parts.push(p).drop_last() =~= parts);
}

/// `n` placeholders separated by `, ` are `n` placeholders.
pub proof fn lemma_placeholders_count(n: nat)
    ensures
        placeholder_count(placeholders(n)) == n,
    decreases n,
{
    reveal_strlit("?");
    reveal_strlit(", ?");
    if n == 1 {
        lemma_no_q("?"@.drop_last());
    } else if n > 1 {
        lemma_placeholders_count((n - 1) as nat);
        lemma_no_q(", ?"@.drop_last());
        lemma_count_concat(placeholders((n - 1) as nat), ", ?"@);
    }
}

/// The digits of a number hold no placeholder.
pub proof fn lemma_digits_count(n: nat)
    ensures
        placeholder_count(decimal_digits(n)) == 0,
    decreases n,
{
    let d = if n >= 10 { (n % 10) as int } else { n as int };
    assert(digit_char(d) as int == d + '0' as int);
    assert(digit_char(d) != '?');
    if n >= 10 {
        lemma_digits_count(n / 10);
        assert(decimal_digits(n).drop_last() == decimal_digits(n / 10));
        assert(decimal_digits(n).last() == digit_char(d));
    } else {
        assert(decimal_digits(n).drop_last().len() == 0);
        assert(placeholder_count(decimal_digits(n).drop_last()) == 0);
        assert(decimal_digits(n).last() == digit_char(d));
    }
}

/// A number written in decimal holds no placeholder.
pub proof fn lemma_decimal_count(i: int)
    ensures
        placeholder_count(decimal(i)) == 0,
{
    if i < 0 {
        lemma_digits_count((-i) as nat);
        lemma_no_q(seq!['-']);
        lemma_count_concat(seq!['-'], decimal_digits((-i) as nat));
    } else {
        lemma_digits_count(i as nat);
    }
}

} // verus!
