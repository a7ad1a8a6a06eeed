use vstd::prelude::*;

use crate::text::{
    decimal, decimal_digits, digit_char, is_digit, lemma_parse_decimal, parse_i32, parse_int_spec,
    push_decimal, push_str, str_chars, string_from_chars, IntErrorKind,
};

verus! {

broadcast use vstd::string::group_string_axioms;

/// The first part of the resource names of each kind of object.
pub const INBOX_NAME_PREFIX: &'static str = "inboxes";
pub const USER_NAME_PREFIX: &'static str = "users";
pub const WORKSPACE_SETTING_NAME_PREFIX: &'static str = "settings";
pub const MEMO_NAME_PREFIX: &'static str = "memos";
pub const RESOURCE_NAME_PREFIX: &'static str = "resources";
pub const STORAGE_NAME_PREFIX: &'static str = "storages";
pub const IDENTITY_PROVIDER_NAME_PREFIX: &'static str = "identityProviders";

/// Why a resource name was refused.
#[derive(Clone, Debug)]
pub enum Error {
    /// The name is not made of exactly two parts separated by `/`.
    InvalidRequest { name: String },
    /// The first part of the name is not the expected prefix.
    InvalidPrefix { name: String },
    /// The second part of the name is not an `i32`.
    Id { source: IntErrorKind },
}

/// How many times `c` occurs in `s`.
pub open spec fn count_char(s: Seq<char>, c: char) -> nat
    decreases s.len(),
{
    if s.len() == 0 {
        0
    } else {
        count_char(s.drop_last(), c) + if s.last() == c {
            1nat
        } else {
            0nat
        }
    }
}

/// The two parts of a name `parent/child`: defined when the name holds exactly one `/`.
pub open spec fn name_parts(name: Seq<char>) -> Option<(Seq<char>, Seq<char>)> {
    if count_char(name, '/') == 1 {
        let k = choose|k: int| 0 <= k < name.len() && name[k] == '/';
        Some((name.take(k), name.skip(k + 1)))
    } else {
        None
    }
}

/// What `get_name_parent_token(name, token)` gives.
pub open spec fn name_parent_token(name: Seq<char>, token: Seq<char>) -> Result<Seq<char>, NameErrorKind> {
    match name_parts(name) {
        None => Err(NameErrorKind::InvalidRequest),
        Some((parent, child)) => if parent == token {
            Ok(child)
        } else {
            Err(NameErrorKind::InvalidPrefix)
        },
    }
}

/// The kinds of `Error`, without their payloads.
#[derive(Clone, Copy, Debug, PartialEq, Eq, Structural)]
pub enum NameErrorKind {
    InvalidRequest,
    InvalidPrefix,
    Id(IntErrorKind),
}

/// The kind of an error.
pub open spec fn error_kind(e: Error) -> NameErrorKind {
    match e {
        Error::InvalidRequest { .. } => NameErrorKind::InvalidRequest,
        Error::InvalidPrefix { .. } => NameErrorKind::InvalidPrefix,
        Error::Id { source } => NameErrorKind::Id(source),
    }
}

/// The name that an error reports, if it reports one.
pub open spec fn error_name(e: Error) -> Option<Seq<char>> {
    match e {
        Error::InvalidRequest { name } => Some(name@),
        Error::InvalidPrefix { name } => Some(name@),
        Error::Id { .. } => None,
    }
}

/// What `get_id_parent_token(name, token)` gives.
pub open spec fn id_parent_token(name: Seq<char>, token: Seq<char>) -> Result<int, NameErrorKind> {
    match name_parent_token(name, token) {
        Err(e) => Err(e),
        Ok(child) => match parse_int_spec(child, i32::MIN as int, i32::MAX as int) {
            Ok(v) => Ok(v),
            Err(e) => Err(NameErrorKind::Id(e)),
        },
    }
}

proof fn lemma_count_split(s: Seq<char>, k: int, c: char)
    requires
        0 <= k <= s.len(),
    ensures
        count_char(s, c) == count_char(s.take(k), c) + count_char(s.skip(k), c),
    decreases s.len() - k,
{
    if k < s.len() {
        lemma_count_split(s, k + 1, c);
        assert(s.take(k + 1).drop_last() == s.take(k));
        let tail = s.skip(k);
        assert(tail.len() > 0);
        lemma_count_first(tail, c);
        assert(tail.drop_first() == s.skip(k + 1));
    } else {
        assert(s.take(k) == s);
        assert(s.skip(k).len() == 0);
    }
}

proof fn lemma_count_first(s: Seq<char>, c: char)
    requires
        s.len() > 0,
    ensures
        count_char(s, c) == count_char(s.drop_first(), c) + if s[0] == c {
            1nat
        } else {
            0nat
        },
    decreases s.len(),
{
    if s.len() > 1 {
        lemma_count_first(s.drop_last(), c);
        assert(s.drop_last().drop_first() == s.drop_first().drop_last());
        assert(s.drop_first().last() == s.last());
        assert(s.drop_last()[0] == s[0]);
        assert(count_char(s.drop_first(), c) == count_char(s.drop_first().drop_last(), c) + if s.last() == c {
            1nat
        } else {
            0nat
        });
    } else {
        assert(s.last() == s[0]);
        assert(s.drop_first().len() == 0);
        assert(s.drop_last().len() == 0);
        assert(count_char(s.drop_first(), c) == 0);
        assert(count_char(s.drop_last(), c) == 0);
    }
}

proof fn lemma_count_zero(s: Seq<char>, c: char)
    ensures
        count_char(s, c) == 0 <==> !s.contains(c),
    decreases s.len(),
{
    if s.len() > 0 {
        lemma_count_zero(s.drop_last(), c);
        if s.drop_last().contains(c) {
            let j = choose|j: int| 0 <= j < s.drop_last().len() && s.drop_last()[j] == c;
            assert(s[j] == c);
        }
        if s.contains(c) && s.last() != c {
            let j = choose|j: int| 0 <= j < s.len() && s[j] == c;
            assert(s.drop_last()[j] == c);
        }
    }
}

/// A name built as `parent/child` from parts without `/` splits back into those parts.
pub proof fn lemma_name_parts_join(parent: Seq<char>, child: Seq<char>)
    requires
        !parent.contains('/'),
        !child.contains('/'),
    ensures
        name_parts(parent + seq!['/'] + child) == Some((parent, child)),
{
    let name = parent + seq!['/'] + child;
    let k = parent.len() as int;
    assert(name.take(k) == parent);
    assert(name.skip(k) == seq!['/'] + child);
    assert(name.skip(k + 1) == child);
    lemma_count_zero(parent, '/');
    lemma_count_zero(child, '/');
    lemma_count_split(name, k, '/');
    lemma_count_first(seq!['/'] + child, '/');
    assert((seq!['/'] + child).drop_first() == child);
    assert(name[k] == '/');
    let j = choose|j: int| 0 <= j < name.len() && name[j] == '/';
    if j < k {
        assert(parent[j] == '/');
    } else if j > k {
        assert(child[j - k - 1] == '/');
    }
}

/// Splits `name` as `token/child` and returns `child`.
pub fn get_name_parent_token(name: &str, token: &str) -> (r: Result<String, Error>)
    ensures
        match name_parent_token(name@, token@) {
            Ok(child) => r matches Ok(s) && s@ == child,
            Err(k) => r matches Err(e) && error_kind(e) == k && error_name(e) == Some(name@),
        },
{
    let cs = str_chars(name);
    let mut slashes: usize = 0;
    let mut at: usize = 0;
    let mut i: usize = 0;
    while i < cs.len()
        invariant
            i <= cs.len(),
            cs@ == name@,
            slashes <= 2,
            slashes < 2 ==> slashes == count_char(cs@.take(i as int), '/'),
            slashes == 2 ==> count_char(cs@.take(i as int), '/') >= 2,
            slashes >= 1 ==> at < i && cs@[at as int] == '/',
            slashes == 1 ==> count_char(cs@.take(at as int), '/') == 0,
        decreases cs.len() - i,
    {
        assert(cs@.take(i + 1).drop_last() == cs@.take(i as int));
        if cs[i] == '/' {
            if slashes == 0 {
                at = i;
            }
            if slashes < 2 {
                slashes = slashes + 1;
            }
        }
        i = i + 1;
    }
    assert(cs@.take(cs.len() as int) == cs@);
    if slashes != 1 {
        return Err(Error::InvalidRequest { name: string_from_chars(&cs) });
    }
    proof {
        lemma_count_split(cs@, at as int, '/');
        lemma_count_first(cs@.skip(at as int), '/');
        assert(cs@.skip(at as int).drop_first() == cs@.skip(at + 1));
        lemma_count_zero(cs@.take(at as int), '/');
        let k = choose|k: int| 0 <= k < cs@.len() && cs@[k] == '/';
        if k < at {
            assert(cs@.take(at as int)[k] == '/');
        } else if k > at {
            lemma_count_zero(cs@.skip(at + 1), '/');
            assert(cs@.skip(at + 1)[k - at - 1] == '/');
        }
    }
    let mut parent: Vec<char> = Vec::new();
    let mut j: usize = 0;
    while j < at
        invariant
            j <= at < cs.len(),
            parent@ == cs@.take(j as int),
        decreases at - j,
    {
        parent.push(cs[j]);
        assert(cs@.take(j + 1) == cs@.take(j as int).push(cs@[j as int]));
        j = j + 1;
    }
    let tok = str_chars(token);
    if !crate::text::chars_eq(&parent, &tok) {
        return Err(Error::InvalidPrefix { name: string_from_chars(&cs) });
    }
    let mut child: Vec<char> = Vec::new();
    let mut m: usize = at + 1;
    while m < cs.len()
        invariant
            at < m <= cs.len(),
            child@ == cs@.subrange(at + 1, m as int),
        decreases cs.len() - m,
    {
        child.push(cs[m]);
        assert(cs@.subrange(at + 1, m + 1) == cs@.subrange(at + 1, m as int).push(cs@[m as int]));
        m = m + 1;
    }
    assert(child@ == cs@.skip(at + 1));
    Ok(string_from_chars(&child))
}

/// Splits `name` as `token/id` and parses `id`.
pub fn get_id_parent_token(name: &str, token: &str) -> (r: Result<i32, Error>)
    ensures
        match id_parent_token(name@, token@) {
            Ok(v) => r == Ok::<i32, Error>(v as i32),
            Err(k) => r matches Err(e) && error_kind(e) == k && (k is Id || error_name(e) == Some(name@)),
        },
{
    let child = match get_name_parent_token(name, token) {
        Ok(c) => c,
        Err(e) => {
            return Err(e);
        },
    };
    match parse_i32(child.as_str()) {
        Ok(v) => Ok(v),
        Err(e) => Err(Error::Id { source: e }),
    }
}

/// The name `prefix/id` of the object numbered `id`.
pub open spec fn format_name_spec(prefix: Seq<char>, id: int) -> Seq<char> {
    prefix + seq!['/'] + decimal(id)
}

/// `format!("{}/{}", prefix, id)`.
pub fn format_name(prefix: &str, id: i64) -> (r: String)
    ensures
        r@ == format_name_spec(prefix@, id as int),
{
    let mut s = String::new();
    push_str(&mut s, prefix);
    crate::text::push_char_pub(&mut s, '/');
    push_decimal(&mut s, id);
    s
}

proof fn lemma_decimal_no_slash(i: int)
    ensures
        !decimal(i).contains('/'),
{
    let n: nat = if i < 0 { (-i) as nat } else { i as nat };
    lemma_digits_no_slash(n);
    if i < 0 {
        if decimal(i).contains('/') {
            let j = choose|j: int| 0 <= j < decimal(i).len() && decimal(i)[j] == '/';
            assert(j > 0);
            assert(decimal_digits(n)[j - 1] == '/');
        }
    }
}

proof fn lemma_digits_no_slash(n: nat)
    ensures
        !decimal_digits(n).contains('/'),
    decreases n,
{
    if n >= 10 {
        lemma_digits_no_slash(n / 10);
        if decimal_digits(n).contains('/') {
            let j = choose|j: int| 0 <= j < decimal_digits(n).len() && decimal_digits(n)[j] == '/';
            if j < decimal_digits(n / 10).len() {
                assert(decimal_digits(n / 10)[j] == '/');
            }
        }
    }
}

/// The id that a name formatted from an id gives back is that id.
pub proof fn lemma_name_id_roundtrip(prefix: Seq<char>, id: i32)
    requires
        !prefix.contains('/'),
    ensures
        id_parent_token(format_name_spec(prefix, id as int), prefix) == Ok::<int, NameErrorKind>(id as int),
{
    lemma_decimal_no_slash(id as int);
    lemma_name_parts_join(prefix, decimal(id as int));
    lemma_parse_decimal(id as int, i32::MIN as int, i32::MAX as int);
}

/// Objects whose name is formatted from their id.
pub trait FormatName {
    /// The name of the object.
    spec fn spec_name(&self) -> Seq<char>;

    /// The name of the object, as `spec_name` says.
    fn get_name(&self) -> (r: String)
        ensures
            r@ == self.spec_name(),
    ;
}

/// The id part of a name `prefix/id`; the whole name when it is not of that form.
pub open spec fn extracted_name(name: Seq<char>, prefix: Seq<char>) -> Seq<char> {
    match name_parent_token(name, prefix) {
        Ok(child) => child,
        Err(_) => name,
    }
}

/// The id part of a name `prefix/id`, or the whole name when it is not of that form.
pub fn extract_name(name: &String, prefix: &str) -> (r: String)
    ensures
        r@ == extracted_name(name@, prefix@),
{
    match get_name_parent_token(name.as_str(), prefix) {
        Ok(child) => child,
        Err(_) => name.clone(),
    }
}

/// The id that `extract_name` finds, parsed as an `i32`.
pub open spec fn extracted_id(name: Seq<char>, prefix: Seq<char>) -> Result<i32, IntErrorKind> {
    match parse_int_spec(extracted_name(name, prefix), i32::MIN as int, i32::MAX as int) {
        Ok(v) => Ok(v as i32),
        Err(e) => Err(e),
    }
}

/// Parses the id that `extract_name` finds.
pub fn extract_id(name: &String, prefix: &str) -> (r: Result<i32, Error>)
    ensures
        match extracted_id(name@, prefix@) {
            Ok(v) => r == Ok::<i32, Error>(v),
            Err(e) => r matches Err(Error::Id { source }) && source == e,
        },
{
    let n = extract_name(name, prefix);
    match parse_i32(n.as_str()) {
        Ok(v) => Ok(v),
        Err(e) => Err(Error::Id { source: e }),
    }
}

/// Objects that carry a name `prefix/id`.
pub trait ExtractName {
    /// The full name that the object carries.
    spec fn spec_full_name(&self) -> Seq<char>;

    /// The prefix of the names of such objects.
    spec fn spec_prefix(&self) -> Seq<char>;

    /// The id part of the name, or the whole name when it is not of the form `prefix/id`.
    fn get_name(&self) -> (r: String)
        ensures
            r@ == extracted_name(self.spec_full_name(), self.spec_prefix()),
    ;

    /// The id part of the name, parsed.
    fn get_id(&self) -> (r: Result<i32, Error>)
        ensures
            match extracted_id(self.spec_full_name(), self.spec_prefix()) {
                Ok(v) => r == Ok::<i32, Error>(v),
                Err(e) => r matches Err(Error::Id { source }) && source == e,
            },
    ;
}

} // verus!
