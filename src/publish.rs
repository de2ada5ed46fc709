use vstd::prelude::*;
use vstd::string::StringExecFns;
use crate::resolve::ResolvedPackage;

verus! {

/// The 64-bit digest that std's default hasher, built with its fixed keys,
/// gives for `location`.
pub uninterp spec fn source_digest(location: Seq<char>) -> u64;

/// Relies on std::hash::BuildHasher::hash_one over
/// `BuildHasherDefault<DefaultHasher>`: a hasher made by `DefaultHasher::new`
/// uses fixed keys, so the digest depends on the text alone.
#[verifier::external_body]
fn digest_of(location: &str) -> (r: u64)
    ensures
        r == source_digest(location@),
{
    std::hash::BuildHasher::hash_one(
        &std::hash::BuildHasherDefault::<std::hash::DefaultHasher>::default(),
        location,
    )
}

pub open spec fn hex_char(d: nat) -> char {
    if d < 10 {
        ((d + 48) as u8) as char
    } else {
        ((d + 87) as u8) as char
    }
}

/// The last `k` hexadecimal digits of `n`, most significant first, in lower
/// case and padded with zeros.
pub open spec fn hex_digits(n: nat, k: nat) -> Seq<char>
    decreases k,
{
    if k == 0 {
        Seq::empty()
    } else {
        hex_digits(n / 16, (k - 1) as nat) + seq![hex_char(n % 16)]
    }
}

pub proof fn lemma_hex_digits_len(n: nat, k: nat)
    ensures
        hex_digits(n, k).len() == k,
    decreases k,
{
    if k > 0 {
        lemma_hex_digits_len(n / 16, (k - 1) as nat);
    }
}

fn hex_str(d: u64) -> (r: &'static str)
    requires
        d < 16,
    ensures
        r@ == seq![hex_char(d as nat)],
{
    proof {
        reveal_strlit("0");
        reveal_strlit("1");
        reveal_strlit("2");
        reveal_strlit("3");
        reveal_strlit("4");
        reveal_strlit("5");
        reveal_strlit("6");
        reveal_strlit("7");
        reveal_strlit("8");
        reveal_strlit("9");
        reveal_strlit("a");
        reveal_strlit("b");
        reveal_strlit("c");
        reveal_strlit("d");
        reveal_strlit("e");
        reveal_strlit("f");
    }
    if d == 0 { "0" }
    else if d == 1 { "1" }
    else if d == 2 { "2" }
    else if d == 3 { "3" }
    else if d == 4 { "4" }
    else if d == 5 { "5" }
    else if d == 6 { "6" }
    else if d == 7 { "7" }
    else if d == 8 { "8" }
    else if d == 9 { "9" }
    else if d == 10 { "a" }
    else if d == 11 { "b" }
    else if d == 12 { "c" }
    else if d == 13 { "d" }
    else if d == 14 { "e" }
    else { "f" }
}

/// Writes the last `k` hexadecimal digits of `n`.
pub fn hex_fixed(n: u64, k: u64) -> (r: String)
    ensures
        r@ == hex_digits(n as nat, k as nat),
    decreases k,
{
    if k == 0 {
        String::new()
    } else {
        let mut s = hex_fixed(n / 16, k - 1);
        s.append(hex_str(n % 16));
        s
    }
}

/// The directory name under which a resolved package is published: the
/// version for registry packages, sixteen hexadecimal digits of the source's
/// digest for packages found at a URL.
pub open spec fn publish_segment(p: ResolvedPackage) -> Seq<char> {
    if p.source.registry {
        p.version.spec_text()
    } else {
        hex_digits(source_digest(p.source.location@) as nat, 16)
    }
}

/// `<docs>/<name>/<segment>`.
pub open spec fn publish_path(docs: Seq<char>, p: ResolvedPackage) -> Seq<char> {
    docs + seq!['/'] + p.name@ + seq!['/'] + publish_segment(p)
}

/// The directory that the documentation of `p` is published in.
pub fn publish_dir(docs_path: &str, p: &ResolvedPackage) -> (r: String)
    ensures
        r@ == publish_path(docs_path@, *p),
{
    let mut s = String::from_str(docs_path);
    s.append("/");
    s.append(p.name.as_str());
    s.append("/");
    let seg = if p.source.registry {
        p.version.text()
    } else {
        hex_fixed(digest_of(p.source.location.as_str()), 16)
    };
    s.append(seg.as_str());
    proof {
        reveal_strlit("/");
    }
    s
}

/// Two packages of one name from sources at the same location are published
/// in the same directory, in every process: the path depends on the URL text
/// alone, and its last part is sixteen digits long.
pub proof fn lemma_url_placement_stable(docs: Seq<char>, p1: ResolvedPackage, p2: ResolvedPackage)
    requires
        !p1.source.registry,
        !p2.source.registry,
        p1.source.location@ == p2.source.location@,
        p1.name@ == p2.name@,
    ensures
        publish_path(docs, p1) == publish_path(docs, p2),
        publish_segment(p1).len() == 16,
{
    lemma_hex_digits_len(source_digest(p1.source.location@) as nat, 16);
}

} // verus!
