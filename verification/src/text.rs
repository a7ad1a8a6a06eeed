use vstd::prelude::*;

verus! {

broadcast use vstd::string::group_string_axioms;

// ---------------------------------------------------------------------------
// Characters and strings
// ---------------------------------------------------------------------------

/// The characters of `s`, in order.
pub fn str_chars(s: &str) -> (r: Vec<char>)
    ensures
        r@ == s@,
{
    let mut r: Vec<char> = Vec::new();
    for c in it: s.chars()
        invariant
            r@ == it.seq().take(it.index() as int),
    {
        r.push(c);
    }
    r
}

/// `String::push`: appends one character at the end of the string.
#[verifier::external_body]
pub(crate) fn push_char(s: &mut String, c: char)
    ensures
        final(s)@ == old(s)@.push(c),
{
    s.push(c)
}

/// Appends one character at the end of the string.
pub fn push_char_pub(s: &mut String, c: char)
    ensures
        final(s)@ == old(s)@.push(c),
{
    push_char(s, c)
}

/// A new string holding the characters of `cs`, in order.
pub fn string_from_chars(cs: &Vec<char>) -> (r: String)
    ensures
        r@ == cs@,
{
    let mut r = String::new();
    for i in 0..cs.len()
        invariant
            r@ == cs@.take(i as int),
    {
        push_char(&mut r, cs[i]);
        assert(cs@.take(i + 1) == cs@.take(i as int).push(cs@[i as int]));
    }
    assert(cs@.take(cs.len() as int) == cs@);
    r
}

/// Appends the characters of `t` at the end of `s`.
pub fn push_str(s: &mut String, t: &str)
    ensures
        final(s)@ == old(s)@ + t@,
{
    s.append(t);
}

/// Whether two character sequences are equal.
pub fn chars_eq(a: &Vec<char>, b: &Vec<char>) -> (r: bool)
    ensures
        r == (a@ == b@),
{
    if a.len() != b.len() {
        return false;
    }
    for i in 0..a.len()
        invariant
            a.len() == b.len(),
            forall|j: int| 0 <= j < i ==> a@[j] == b@[j],
    {
        if a[i] != b[i] {
            return false;
        }
    }
    assert(a@ == b@);
    true
}

/// Whether two strings hold the same characters.
pub fn str_eq(a: &str, b: &str) -> (r: bool)
    ensures
        r == (a@ == b@),
{
    let ca = str_chars(a);
    let cb = str_chars(b);
    chars_eq(&ca, &cb)
}

/// Whether `s` starts with `p`.
pub open spec fn has_prefix(s: Seq<char>, p: Seq<char>) -> bool {
    p.len() <= s.len() && s.subrange(0, p.len() as int) == p
}

/// Whether `p` occurs somewhere in `s`.
pub open spec fn has_infix(s: Seq<char>, p: Seq<char>) -> bool {
    exists|k: int| 0 <= k && k + p.len() <= s.len() && #[trigger] s.subrange(k, k + p.len()) == p
}

/// Whether `p` occurs in `s` at position `k`.
fn occurs_at(s: &Vec<char>, p: &Vec<char>, k: usize) -> (r: bool)
    requires
        k + p.len() <= s.len(),
    ensures
        r == (s@.subrange(k as int, k + p.len()) == p@),
{
    for j in 0..p.len()
        invariant
            k + p.len() <= s.len(),
            forall|m: int| 0 <= m < j ==> s@[k + m] == p@[m],
    {
        if s[k + j] != p[j] {
            assert(s@.subrange(k as int, k + p.len())[j as int] != p@[j as int]);
            return false;
        }
    }
    assert(s@.subrange(k as int, k + p.len()) == p@);
    true
}

/// Whether `p` occurs somewhere in `s`.
pub fn chars_contain(s: &Vec<char>, p: &Vec<char>) -> (r: bool)
    ensures
        r == has_infix(s@, p@),
{
    if p.len() > s.len() {
        return false;
    }
    let last = s.len() - p.len();
    let mut k: usize = 0;
    while k <= last
        invariant
            last + p.len() == s.len(),
            forall|m: int| 0 <= m < k ==> #[trigger] s@.subrange(m, m + p.len()) != p@,
        decreases last + 1 - k,
    {
        if occurs_at(s, p, k) {
            return true;
        }
        if k == last {
            return false;
        }
        k = k + 1;
    }
    false
}

/// Whether `s` starts with `p`.
pub fn chars_start_with(s: &Vec<char>, p: &Vec<char>) -> (r: bool)
    ensures
        r == has_prefix(s@, p@),
{
    if p.len() > s.len() {
        return false;
    }
    occurs_at(s, p, 0)
}

// ---------------------------------------------------------------------------
// Decimal numbers
// ---------------------------------------------------------------------------

pub open spec fn is_digit(c: char) -> bool {
    '0' <= c && c <= '9'
}

pub open spec fn digit_val(c: char) -> int {
    c as int - '0' as int
}

pub open spec fn digit_char(d: int) -> char {
    (d + '0' as int) as char
}

/// The decimal digits of `n`, most significant first, without leading zeros.
pub open spec fn decimal_digits(n: nat) -> Seq<char>
    decreases n,
{
    if n < 10 {
        seq![digit_char(n as int)]
    } else {
        decimal_digits(n / 10).push(digit_char((n % 10) as int))
    }
}

/// How Rust's `Display` writes an integer: a `-` for negative values, then the digits.
pub open spec fn decimal(i: int) -> Seq<char> {
    if i < 0 {
        seq!['-'] + decimal_digits((-i) as nat)
    } else {
        decimal_digits(i as nat)
    }
}

fn digit_to_char(d: u8) -> (c: char)
    requires
        d < 10,
    ensures
        c == digit_char(d as int),
        is_digit(c),
        digit_val(c) == d,
{
    let b: u8 = d + 48;
    b as char
}

/// Appends the decimal digits of `n` to `s`.
pub fn push_decimal_digits(s: &mut String, n: u64)
    ensures
        final(s)@ == old(s)@ + decimal_digits(n as nat),
    decreases n,
{
    if n >= 10 {
        push_decimal_digits(s, n / 10);
    }
    let d: u8 = (n % 10) as u8;
    push_char(s, digit_to_char(d));
}

/// Appends the decimal form of `n` to `s`, as `Display` writes it.
pub fn push_decimal(s: &mut String, n: i64)
    ensures
        final(s)@ == old(s)@ + decimal(n as int),
{
    if n < 0 {
        push_char(s, '-');
        let m: u64 = if n == i64::MIN {
            9223372036854775808u64
        } else {
            (-n) as u64
        };
        let ghost before = s@;
        push_decimal_digits(s, m);
        assert(s@ == old(s)@ + (seq!['-'] + decimal_digits((-n) as nat)));
    } else {
        push_decimal_digits(s, n as u64);
    }
}

/// The decimal form of `n`, as `n.to_string()` writes it.
pub fn format_decimal(n: i64) -> (r: String)
    ensures
        r@ == decimal(n as int),
{
    let mut s = String::new();
    push_decimal(&mut s, n);
    s
}

/// Why a string is not an integer, as `core::num::IntErrorKind` tells it.
#[derive(Clone, Copy, Debug, PartialEq, Eq, Structural)]
pub enum IntErrorKind {
    Empty,
    InvalidDigit,
    PosOverflow,
    NegOverflow,
}

/// Left-to-right scan of the digits `ds` as `FromStr` for integers performs it:
/// the first character that is no digit, or the first digit that takes the value
/// out of `lo..=hi`, decides the error.
pub open spec fn scan_digits(ds: Seq<char>, neg: bool, lo: int, hi: int) -> Result<int, IntErrorKind>
    decreases ds.len(),
{
    if ds.len() == 0 {
        Ok(0)
    } else {
        match scan_digits(ds.drop_last(), neg, lo, hi) {
            Err(e) => Err(e),
            Ok(v) => {
                let c = ds.last();
                if !is_digit(c) {
                    Err(IntErrorKind::InvalidDigit)
                } else if neg {
                    if v * 10 - digit_val(c) < lo {
                        Err(IntErrorKind::NegOverflow)
                    } else {
                        Ok(v * 10 - digit_val(c))
                    }
                } else {
                    if v * 10 + digit_val(c) > hi {
                        Err(IntErrorKind::PosOverflow)
                    } else {
                        Ok(v * 10 + digit_val(c))
                    }
                }
            },
        }
    }
}

/// What `s.parse()` gives for an integer type whose values are `lo..=hi`:
/// an optional sign (`-` only for signed types), then at least one digit.
pub open spec fn parse_int_spec(s: Seq<char>, lo: int, hi: int) -> Result<int, IntErrorKind> {
    if s.len() == 0 {
        Err(IntErrorKind::Empty)
    } else if (s[0] == '+' || s[0] == '-') && s.len() == 1 {
        Err(IntErrorKind::InvalidDigit)
    } else if s[0] == '+' {
        scan_digits(s.drop_first(), false, lo, hi)
    } else if s[0] == '-' && lo < 0 {
        scan_digits(s.drop_first(), true, lo, hi)
    } else {
        scan_digits(s, false, lo, hi)
    }
}

proof fn lemma_scan_bounds(ds: Seq<char>, neg: bool, lo: int, hi: int)
    requires
        lo <= 0 <= hi,
    ensures
        scan_digits(ds, neg, lo, hi) matches Ok(v) ==> lo <= v <= hi && (neg ==> v <= 0) && (!neg ==> v >= 0),
    decreases ds.len(),
{
    if ds.len() > 0 {
        lemma_scan_bounds(ds.drop_last(), neg, lo, hi);
    }
}

/// Scans the digits `cs[start..]` as `scan_digits` does.
fn scan_digit_chars(cs: &Vec<char>, start: usize, neg: bool, lo: i128, hi: i128) -> (r: Result<i128, IntErrorKind>)
    requires
        start <= cs.len(),
        lo <= 0 <= hi,
        lo >= i64::MIN,
        hi <= u64::MAX,
    ensures
        match scan_digits(cs@.subrange(start as int, cs.len() as int), neg, lo as int, hi as int) {
            Ok(v) => r == Ok::<i128, IntErrorKind>(v as i128),
            Err(e) => r == Err::<i128, IntErrorKind>(e),
        },
{
    let ghost ds = cs@.subrange(start as int, cs.len() as int);
    let mut acc: i128 = 0;
    let mut i: usize = start;
    while i < cs.len()
        invariant
            start <= i <= cs.len(),
            ds == cs@.subrange(start as int, cs.len() as int),
            lo <= 0 <= hi,
            lo >= i64::MIN,
            hi <= u64::MAX,
            scan_digits(ds.take(i - start), neg, lo as int, hi as int) == Ok::<int, IntErrorKind>(acc as int),
            lo <= acc <= hi,
            neg ==> acc <= 0,
            !neg ==> acc >= 0,
        decreases cs.len() - i,
    {
        let c = cs[i];
        let ghost pre = ds.take(i - start);
        let ghost cur = ds.take(i + 1 - start);
        assert(cur.drop_last() == pre);
        assert(cur.last() == c);
        if !('0' <= c && c <= '9') {
            proof { lemma_scan_prefix_err(ds, (i + 1 - start) as int, neg, lo as int, hi as int); }
            return Err(IntErrorKind::InvalidDigit);
        }
        let d: i128 = (c as u32 - '0' as u32) as i128;
        if neg {
            let w = acc * 10 - d;
            if w < lo {
                proof { lemma_scan_prefix_err(ds, (i + 1 - start) as int, neg, lo as int, hi as int); }
                return Err(IntErrorKind::NegOverflow);
            }
            acc = w;
        } else {
            let w = acc * 10 + d;
            if w > hi {
                proof { lemma_scan_prefix_err(ds, (i + 1 - start) as int, neg, lo as int, hi as int); }
                return Err(IntErrorKind::PosOverflow);
            }
            acc = w;
        }
        i = i + 1;
    }
    assert(ds.take(i - start) == ds);
    Ok(acc)
}

/// Once a prefix of the digits fails, the whole scan fails the same way.
proof fn lemma_scan_prefix_err(ds: Seq<char>, k: int, neg: bool, lo: int, hi: int)
    requires
        0 <= k <= ds.len(),
        scan_digits(ds.take(k), neg, lo, hi) is Err,
    ensures
        scan_digits(ds, neg, lo, hi) == scan_digits(ds.take(k), neg, lo, hi),
    decreases ds.len() - k,
{
    if k < ds.len() {
        let next = ds.take(k + 1);
        assert(next.drop_last() == ds.take(k));
        lemma_scan_prefix_err(ds, k + 1, neg, lo, hi);
    } else {
        assert(ds.take(k) == ds);
    }
}

/// Parses `cs` as an integer of the type whose values are `lo..=hi`, as `str::parse` does.
pub fn parse_int_chars(cs: &Vec<char>, lo: i128, hi: i128) -> (r: Result<i128, IntErrorKind>)
    requires
        lo <= 0 <= hi,
        lo >= i64::MIN,
        hi <= u64::MAX,
    ensures
        match parse_int_spec(cs@, lo as int, hi as int) {
            Ok(v) => r == Ok::<i128, IntErrorKind>(v as i128),
            Err(e) => r == Err::<i128, IntErrorKind>(e),
        },
{
    if cs.len() == 0 {
        return Err(IntErrorKind::Empty);
    }
    let first = cs[0];
    if (first == '+' || first == '-') && cs.len() == 1 {
        return Err(IntErrorKind::InvalidDigit);
    }
    assert(cs@.subrange(1, cs.len() as int) == cs@.drop_first());
    assert(cs@.subrange(0, cs.len() as int) == cs@);
    if first == '+' {
        scan_digit_chars(cs, 1, false, lo, hi)
    } else if first == '-' && lo < 0 {
        scan_digit_chars(cs, 1, true, lo, hi)
    } else {
        scan_digit_chars(cs, 0, false, lo, hi)
    }
}

/// `s.parse::<i32>()`.
pub fn parse_i32(s: &str) -> (r: Result<i32, IntErrorKind>)
    ensures
        match parse_int_spec(s@, i32::MIN as int, i32::MAX as int) {
            Ok(v) => r == Ok::<i32, IntErrorKind>(v as i32),
            Err(e) => r == Err::<i32, IntErrorKind>(e),
        },
{
    let cs = str_chars(s);
    match parse_int_chars(&cs, i32::MIN as i128, i32::MAX as i128) {
        Ok(v) => {
            proof { lemma_parse_bounds(cs@, i32::MIN as int, i32::MAX as int); }
            Ok(v as i32)
        },
        Err(e) => Err(e),
    }
}

/// `s.parse::<i64>()`.
pub fn parse_i64(s: &str) -> (r: Result<i64, IntErrorKind>)
    ensures
        match parse_int_spec(s@, i64::MIN as int, i64::MAX as int) {
            Ok(v) => r == Ok::<i64, IntErrorKind>(v as i64),
            Err(e) => r == Err::<i64, IntErrorKind>(e),
        },
{
    let cs = str_chars(s);
    match parse_int_chars(&cs, i64::MIN as i128, i64::MAX as i128) {
        Ok(v) => {
            proof { lemma_parse_bounds(cs@, i64::MIN as int, i64::MAX as int); }
            Ok(v as i64)
        },
        Err(e) => Err(e),
    }
}

/// `s.parse::<usize>()`.
pub fn parse_usize(s: &str) -> (r: Result<usize, IntErrorKind>)
    ensures
        match parse_int_spec(s@, 0, usize::MAX as int) {
            Ok(v) => r == Ok::<usize, IntErrorKind>(v as usize),
            Err(e) => r == Err::<usize, IntErrorKind>(e),
        },
{
    let cs = str_chars(s);
    match parse_int_chars(&cs, 0, usize::MAX as i128) {
        Ok(v) => {
            proof { lemma_parse_bounds(cs@, 0, usize::MAX as int); }
            Ok(v as usize)
        },
        Err(e) => Err(e),
    }
}

/// A parsed value lies in the range of its type.
pub proof fn lemma_parse_bounds(s: Seq<char>, lo: int, hi: int)
    requires
        lo <= 0 <= hi,
    ensures
        parse_int_spec(s, lo, hi) matches Ok(v) ==> lo <= v <= hi,
{
    if s.len() > 0 {
        lemma_scan_bounds(s.drop_first(), true, lo, hi);
        lemma_scan_bounds(s.drop_first(), false, lo, hi);
        lemma_scan_bounds(s, false, lo, hi);
    }
}

/// What `s.parse::<bool>()` gives: only `true` and `false` are booleans.
pub open spec fn parse_bool_spec(s: Seq<char>) -> Option<bool> {
    if s == seq!['t', 'r', 'u', 'e'] {
        Some(true)
    } else if s == seq!['f', 'a', 'l', 's', 'e'] {
        Some(false)
    } else {
        None
    }
}

/// `s.parse::<bool>().ok()`.
pub fn parse_bool(s: &str) -> (r: Option<bool>)
    ensures
        r == parse_bool_spec(s@),
{
    let cs = str_chars(s);
    let t = str_chars("true");
    let f = str_chars("false");
    proof {
        reveal_strlit("true");
        reveal_strlit("false");
    }
    if chars_eq(&cs, &t) {
        assert(t@ == seq!['t', 'r', 'u', 'e']);
        Some(true)
    } else if chars_eq(&cs, &f) {
        assert(f@ == seq!['f', 'a', 'l', 's', 'e']);
        assert(t@ == seq!['t', 'r', 'u', 'e']);
        Some(false)
    } else {
        assert(f@ == seq!['f', 'a', 'l', 's', 'e']);
        assert(t@ == seq!['t', 'r', 'u', 'e']);
        None
    }
}

proof fn lemma_decimal_digits_shape(n: nat)
    ensures
        decimal_digits(n).len() >= 1,
        forall|k: int| 0 <= k < decimal_digits(n).len() ==> is_digit(#[trigger] decimal_digits(n)[k]),
    decreases n,
{
    if n >= 10 {
        lemma_decimal_digits_shape(n / 10);
    }
}

proof fn lemma_scan_decimal_digits(n: nat, neg: bool, lo: int, hi: int)
    requires
        lo <= 0 <= hi,
        neg ==> lo <= -n,
        !neg ==> n <= hi,
    ensures
        scan_digits(decimal_digits(n), neg, lo, hi) == Ok::<int, IntErrorKind>(if neg { -n } else { n as int }),
    decreases n,
{
    let ds = decimal_digits(n);
    if n < 10 {
        assert(ds.drop_last() == Seq::<char>::empty());
    } else {
        lemma_scan_decimal_digits(n / 10, neg, lo, hi);
        assert(ds.drop_last() == decimal_digits(n / 10));
    }
}

/// Parsing what `Display` writes for an integer gives the integer back.
pub proof fn lemma_parse_decimal(i: int, lo: int, hi: int)
    requires
        lo <= 0 <= hi,
        lo <= i <= hi,
    ensures
        parse_int_spec(decimal(i), lo, hi) == Ok::<int, IntErrorKind>(i),
{
    if i < 0 {
        let n = (-i) as nat;
        lemma_decimal_digits_shape(n);
        lemma_scan_decimal_digits(n, true, lo, hi);
        assert(decimal(i).drop_first() == decimal_digits(n));
    } else {
        let n = i as nat;
        lemma_decimal_digits_shape(n);
        lemma_scan_decimal_digits(n, false, lo, hi);
        assert(is_digit(decimal_digits(n)[0]));
    }
}

/// The parts joined by `sep`, as `slice::join` does.
pub open spec fn join_with(parts: Seq<Seq<char>>, sep: Seq<char>) -> Seq<char>
    decreases parts.len(),
{
    if parts.len() == 0 {
        Seq::<char>::empty()
    } else if parts.len() == 1 {
        parts[0]
    } else {
        join_with(parts.drop_last(), sep) + sep + parts.last()
    }
}

/// `parts.join(sep)`.
pub fn join_strings(parts: &Vec<String>, sep: &str) -> (r: String)
    ensures
        r@ == join_with(parts.deep_view(), sep@),
{
    let ghost ps = parts.deep_view();
    let mut out = String::new();
    for i in 0..parts.len()
        invariant
            ps == parts.deep_view(),
            out@ == join_with(ps.take(i as int), sep@),
    {
        assert(ps.take(i + 1).drop_last() == ps.take(i as int));
        assert(ps.take(i + 1).last() == parts@[i as int]@);
        if i == 0 {
            assert(ps.take(1)[0] == parts@[0]@);
            out = parts[i].clone();
        } else {
            push_str(&mut out, sep);
            push_str(&mut out, parts[i].as_str());
        }
    }
    assert(ps.take(parts.len() as int) == ps);
    out
}

} // verus!
