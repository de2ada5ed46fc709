use vstd::prelude::*;
use vstd::string::{StrSliceExecFns, StringExecFns};
use crate::version::{Version, parses_to};

verus! {

/// `key` occurs in `s` at position `j`.
pub open spec fn occurs_at(s: Seq<char>, key: Seq<char>, j: int) -> bool {
    0 <= j && j + key.len() <= s.len() && s.subrange(j, j + key.len()) == key
}

/// The first position at or after `i` where `key` occurs in `s`.
pub open spec fn first_from(s: Seq<char>, key: Seq<char>, i: nat) -> Option<nat>
    decreases s.len() + 1 - i,
{
    if i + key.len() > s.len() {
        None
    } else if occurs_at(s, key, i as int) {
        Some(i)
    } else {
        first_from(s, key, i + 1)
    }
}

/// The first position at or after `i` that holds a double quote.
pub open spec fn quote_from(s: Seq<char>, i: nat) -> Option<nat>
    decreases s.len() - i,
{
    if i >= s.len() {
        None
    } else if s[i as int] == '"' {
        Some(i)
    } else {
        quote_from(s, i + 1)
    }
}

/// The text after the first occurrence of `key` in `line`, up to the next
/// double quote.
pub open spec fn field_of(line: Seq<char>, key: Seq<char>) -> Option<Seq<char>> {
    match first_from(line, key, 0) {
        None => None,
        Some(k) => match quote_from(line, k + key.len()) {
            None => None,
            Some(e) => Some(line.subrange((k + key.len()) as int, e as int)),
        },
    }
}

fn occurs(s: &str, n: usize, key: &str, m: usize, j: usize) -> (r: bool)
    requires
        n == s@.len(),
        m == key@.len(),
        j + m <= n,
    ensures
        r == occurs_at(s@, key@, j as int),
{
    let mut t: usize = 0;
    while t < m
        invariant
            n == s@.len(),
            m == key@.len(),
            j + m <= n,
            t <= m,
            forall|u: int| 0 <= u < t ==> s@[j + u] == key@[u],
        decreases m - t,
    {
        if s.get_char(j + t) != key.get_char(t) {
            assert(s@.subrange(j as int, j + m)[t as int] != key@[t as int]);
            return false;
        }
        t = t + 1;
    }
    assert(s@.subrange(j as int, j + m) =~= key@);
    true
}

proof fn lemma_first_from_occurs(s: Seq<char>, key: Seq<char>, i: nat)
    ensures
        first_from(s, key, i) matches Some(j) ==> i <= j && occurs_at(s, key, j as int),
    decreases s.len() + 1 - i,
{
    if i + key.len() <= s.len() && !occurs_at(s, key, i as int) {
        lemma_first_from_occurs(s, key, i + 1);
    }
}

/// The first position where `key` occurs in `line`.
pub fn find(line: &str, key: &str) -> (r: Option<usize>)
    ensures
        r matches Some(j) ==> first_from(line@, key@, 0) == Some(j as nat),
        r is None ==> first_from(line@, key@, 0) is None,
{
    let n = line.unicode_len();
    let m = key.unicode_len();
    if m > n {
        return None;
    }
    let mut j: usize = 0;
    let mut found = false;
    while !found && j <= n - m
        invariant
            n == line@.len(),
            m == key@.len(),
            m <= n,
            j <= n - m + 1,
            first_from(line@, key@, 0) == first_from(line@, key@, j as nat),
            found ==> j + m <= n && occurs_at(line@, key@, j as int),
        decreases n - j + if found { 0int } else { 1int },
    {
        if m == 0 {
            assert(line@.subrange(j as int, j as int) =~= key@);
        }
        if occurs(line, n, key, m, j) {
            found = true;
        } else {
            j = j + 1;
        }
    }
    if !found {
        return None;
    }
    Some(j)
}

/// The text after the first occurrence of `key` in `line`, up to the next
/// double quote: `"1.5.0"` for key `"vers":"` in a line of the registry's
/// index.
pub fn field_value(line: &str, key: &str) -> (r: Option<String>)
    ensures
        r matches Some(v) ==> field_of(line@, key@) == Some(v@),
        r is None ==> field_of(line@, key@) is None,
{
    let n = line.unicode_len();
    let m = key.unicode_len();
    let j = match find(line, key) {
        Some(j) => j,
        None => return None,
    };
    proof {
        lemma_first_from_occurs(line@, key@, 0);
    }
    let start = j + m;
    let mut e: usize = start;
    while e < n
        invariant
            n == line@.len(),
            start <= e <= n,
            start == j + m,
            m == key@.len(),
            first_from(line@, key@, 0) == Some(j as nat),
            quote_from(line@, start as nat) == quote_from(line@, e as nat),
        decreases n - e,
    {
        if line.get_char(e) == '"' {
            let v = line.substring_char(start, e).to_owned();
            proof {
                assert(quote_from(line@, e as nat) == Some(e as nat));
            }
            return Some(v);
        }
        e = e + 1;
    }
    None
}

/// `r` is the version that the field `key` of `line` names, if the field is
/// there and semver reads a version from it.
pub open spec fn listed_release(line: Seq<char>, key: Seq<char>, r: Option<Version>) -> bool {
    match field_of(line, key) {
        Some(v) => parses_to(v, r),
        None => r is None,
    }
}

/// Reads the version that a field of `line` names.
pub fn release_in(line: &str, key: &str) -> (r: Option<Version>)
    ensures
        listed_release(line@, key@, r),
{
    match field_value(line, key) {
        Some(v) => Version::parse(v.as_str()),
        None => None,
    }
}

/// The marker of a withdrawn version in a line of the registry's index.
pub const YANKED: &'static str = "\"yanked\":true";

/// The key of the version field in a line of the registry's index.
pub const VERS: &'static str = "\"vers\":\"";

/// The version that a line of the registry's index offers: none for a
/// withdrawn version, else the one its version field names.
pub open spec fn offered_release(line: Seq<char>, r: Option<Version>) -> bool {
    if first_from(line, YANKED@, 0) is Some {
        r is None
    } else {
        listed_release(line, VERS@, r)
    }
}

/// Reads the version that a line of the registry's index offers.
pub fn index_release(line: &str) -> (r: Option<Version>)
    ensures
        offered_release(line@, r),
{
    if find(line, YANKED).is_some() {
        None
    } else {
        release_in(line, VERS)
    }
}

/// What str::to_lowercase gives for `s`.
pub uninterp spec fn lower_of(s: Seq<char>) -> Seq<char>;

/// Relies on str::to_lowercase: the result depends on the characters alone.
#[verifier::external_body]
fn lowercase(s: &str) -> (r: String)
    ensures
        r@ == lower_of(s@),
{
    s.to_lowercase()
}

/// Where the registry's index keeps the entries of a package whose lower-case
/// name is `n`: `1/n` and `2/n` for names of one and two characters, `3/a/n`
/// for three, `ab/cd/n` for longer ones.
pub open spec fn index_path_of(n: Seq<char>) -> Seq<char> {
    if n.len() == 0 {
        n
    } else if n.len() == 1 {
        seq!['1', '/'] + n
    } else if n.len() == 2 {
        seq!['2', '/'] + n
    } else if n.len() == 3 {
        seq!['3', '/'] + n.subrange(0, 1) + seq!['/'] + n
    } else {
        n.subrange(0, 2) + seq!['/'] + n.subrange(2, 4) + seq!['/'] + n
    }
}

/// The path of a package's entries in the registry's index.
pub fn index_path(name: &str) -> (r: String)
    ensures
        r@ == index_path_of(lower_of(name@)),
{
    let n = lowercase(name);
    let len = n.as_str().unicode_len();
    proof {
        reveal_strlit("1/");
        reveal_strlit("2/");
        reveal_strlit("3/");
        reveal_strlit("/");
    }
    if len == 0 {
        n
    } else if len == 1 {
        String::from_str("1/").concat(n.as_str())
    } else if len == 2 {
        String::from_str("2/").concat(n.as_str())
    } else if len == 3 {
        let mut s = String::from_str("3/");
        s.append(n.as_str().substring_char(0, 1));
        s.append("/");
        s.append(n.as_str());
        s
    } else {
        let mut s = String::from_str(n.as_str().substring_char(0, 2));
        s.append("/");
        s.append(n.as_str().substring_char(2, 4));
        s.append("/");
        s.append(n.as_str());
        s
    }
}

} // verus!
