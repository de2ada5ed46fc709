use vstd::prelude::*;
use vstd::string::StringExecFns;

verus! {

/// A concrete version `major.minor.patch`, with its pre-release label
/// (empty for a release).
#[derive(Clone, Debug)]
pub struct Version {
    pub major: u64,
    pub minor: u64,
    pub patch: u64,
    pub pre: String,
}

impl PartialEq for Version {
    fn eq(&self, o: &Version) -> (r: bool) {
        self.major == o.major && self.minor == o.minor && self.patch == o.patch && self.pre == o.pre
    }
}

impl vstd::std_specs::cmp::PartialEqSpecImpl for Version {
    open spec fn obeys_eq_spec() -> bool {
        true
    }

    open spec fn eq_spec(&self, o: &Version) -> bool {
        self.major == o.major && self.minor == o.minor && self.patch == o.patch && self.pre@
            == o.pre@
    }
}

impl Version {
    /// The release `major.minor.patch`, without a pre-release label.
    pub fn new(major: u64, minor: u64, patch: u64) -> (r: Version)
        ensures
            r.major == major,
            r.minor == minor,
            r.patch == patch,
            r.pre@ == Seq::<char>::empty(),
    {
        Version { major, minor, patch, pre: String::new() }
    }

    /// A copy of this version.
    pub fn duplicate(&self) -> (r: Version)
        ensures
            r == *self,
    {
        Version { major: self.major, minor: self.minor, patch: self.patch, pre: self.pre.clone() }
    }

    /// Semver precedence: by major, minor and patch number, then by the
    /// pre-release label.
    pub open spec fn spec_lt(self, o: Version) -> bool {
        self.major < o.major || (self.major == o.major && (self.minor < o.minor || (
        self.minor == o.minor && (self.patch < o.patch || (self.patch == o.patch
            && pre_precedes(self.pre@, o.pre@))))))
    }

    pub fn is_older_than(&self, o: &Version) -> (r: bool)
        ensures
            r == self.spec_lt(*o),
    {
        if self.major != o.major {
            self.major < o.major
        } else if self.minor != o.minor {
            self.minor < o.minor
        } else if self.patch != o.patch {
            self.patch < o.patch
        } else {
            label_precedes(self.pre.as_str(), o.pre.as_str())
        }
    }

    /// The version as text, `1.5.0` or `1.0.0-beta.2`.
    pub open spec fn spec_text(self) -> Seq<char> {
        decimal(self.major as nat) + seq!['.'] + decimal(self.minor as nat) + seq!['.'] + decimal(
            self.patch as nat,
        ) + if self.pre@.len() == 0 {
            Seq::<char>::empty()
        } else {
            seq!['-'] + self.pre@
        }
    }

    pub fn text(&self) -> (r: String)
        ensures
            r@ == self.spec_text(),
    {
        let mut s = decimal_text(self.major);
        s.append(".");
        let m = decimal_text(self.minor);
        s.append(m.as_str());
        s.append(".");
        let p = decimal_text(self.patch);
        s.append(p.as_str());
        if !self.pre.as_str().is_empty() {
            s.append("-");
            s.append(self.pre.as_str());
        }
        proof {
            reveal_strlit(".");
            reveal_strlit("-");
        }
        s
    }
}

/// Whether semver ranks the pre-release label `a` below `b`
/// (`Prerelease::cmp`), a label that semver refuses counting as none.
pub uninterp spec fn pre_precedes(a: Seq<char>, b: Seq<char>) -> bool;

/// Relies on semver::Prerelease::new and the `Ord` of semver::Prerelease: the
/// answer depends on the two labels alone.
#[verifier::external_body]
fn label_precedes(a: &str, b: &str) -> (r: bool)
    ensures
        r == pre_precedes(a@, b@),
{
    let a = semver::Prerelease::new(a).unwrap_or(semver::Prerelease::EMPTY);
    let b = semver::Prerelease::new(b).unwrap_or(semver::Prerelease::EMPTY);
    a < b
}

/// The order of pre-release labels is a strict order, as an `Ord` must be.
pub open spec fn pre_order_is_strict() -> bool {
    &&& forall|x: Seq<char>| !#[trigger] pre_precedes(x, x)
    &&& forall|x: Seq<char>, y: Seq<char>, z: Seq<char>|
        #[trigger] pre_precedes(x, y) && #[trigger] pre_precedes(y, z) ==> pre_precedes(x, z)
}

/// Under a strict pre-release order, version precedence is a strict order.
pub proof fn lemma_precedence_strict(a: Version, b: Version, c: Version)
    requires
        pre_order_is_strict(),
    ensures
        !a.spec_lt(a),
        a.spec_lt(b) && b.spec_lt(c) ==> a.spec_lt(c),
{
}

pub open spec fn digit_char(d: nat) -> char {
    if d == 0 { '0' }
    else if d == 1 { '1' }
    else if d == 2 { '2' }
    else if d == 3 { '3' }
    else if d == 4 { '4' }
    else if d == 5 { '5' }
    else if d == 6 { '6' }
    else if d == 7 { '7' }
    else if d == 8 { '8' }
    else { '9' }
}

/// The decimal numeral of `n`, without leading zeros.
pub open spec fn decimal(n: nat) -> Seq<char>
    decreases n,
{
    if n < 10 {
        seq![digit_char(n)]
    } else {
        decimal(n / 10) + seq![digit_char(n % 10)]
    }
}

fn digit_str(d: u64) -> (r: &'static str)
    requires
        d < 10,
    ensures
        r@ == seq![digit_char(d as nat)],
{
    proof {
        reveal_strlit("0");
        reveal_strlit("1");
        reveal_strlit("2");
        reveal_strlit("3");
        reveal_strlit("4");
        reveal_strlit("5");
        reveal_strlit("6");
        reveal_strlit("7");
        reveal_strlit("8");
        reveal_strlit("9");
    }
    if d == 0 { "0" }
    else if d == 1 { "1" }
    else if d == 2 { "2" }
    else if d == 3 { "3" }
    else if d == 4 { "4" }
    else if d == 5 { "5" }
    else if d == 6 { "6" }
    else if d == 7 { "7" }
    else if d == 8 { "8" }
    else { "9" }
}

/// Writes `n` in decimal.
pub fn decimal_text(n: u64) -> (r: String)
    ensures
        r@ == decimal(n as nat),
    decreases n,
{
    if n < 10 {
        String::from_str(digit_str(n))
    } else {
        let mut s = decimal_text(n / 10);
        s.append(digit_str(n % 10));
        s
    }
}

/// Whether semver accepts `text` as a version requirement.
pub uninterp spec fn constraint_accepted(text: Seq<char>) -> bool;

/// Whether the version requirement `text` admits `major.minor.patch`.
pub uninterp spec fn constraint_admits(
    text: Seq<char>,
    major: u64,
    minor: u64,
    patch: u64,
    pre: Seq<char>,
) -> bool;

/// Relies on semver::VersionReq::parse: it accepts or refuses the text, and the
/// answer depends on the text alone.
#[verifier::external_body]
pub(crate) fn check_constraint(text: &str) -> (r: bool)
    ensures
        r == constraint_accepted(text@),
{
    semver::VersionReq::parse(text).is_ok()
}

/// Relies on semver::VersionReq::matches, applied to the requirement that
/// semver::VersionReq::parse reads from `text` and to the version with the
/// label that semver::Prerelease::new reads (none if it refuses it): the
/// answer depends on the requirement and the version alone.
#[verifier::external_body]
pub(crate) fn constraint_matches(text: &str, v: &Version) -> (r: bool)
    requires
        constraint_accepted(text@),
    ensures
        r == constraint_admits(text@, v.major, v.minor, v.patch, v.pre@),
{
    let pre = semver::Prerelease::new(&v.pre).unwrap_or(semver::Prerelease::EMPTY);
    let build = semver::BuildMetadata::EMPTY;
    let version = semver::Version { major: v.major, minor: v.minor, patch: v.patch, pre, build };
    match semver::VersionReq::parse(text) {
        Ok(req) => req.matches(&version),
        Err(_) => false,
    }
}

/// What semver::Version::parse reads from `text`: major, minor and patch
/// number and the pre-release label, or nothing when it refuses the text.
pub uninterp spec fn release_of(text: Seq<char>) -> Option<(u64, u64, u64, Seq<char>)>;

/// Relies on semver::Version::parse, keeping its numbers and the text of its
/// pre-release label.
#[verifier::external_body]
fn read_release(text: &str) -> (r: Option<(u64, u64, u64, String)>)
    ensures
        r matches Some(t) ==> release_of(text@) == Some((t.0, t.1, t.2, t.3@)),
        r is None ==> release_of(text@) is None,
{
    semver::Version::parse(text).ok().map(|v| (v.major, v.minor, v.patch, v.pre.as_str().to_string()))
}

/// `r` is what `text` names as a version: the numbers and label that semver
/// reads from it, or nothing when semver refuses it.
pub open spec fn parses_to(text: Seq<char>, r: Option<Version>) -> bool {
    match r {
        Some(v) => release_of(text) == Some((v.major, v.minor, v.patch, v.pre@)),
        None => release_of(text) is None,
    }
}

impl Version {
    /// Reads a version such as `1.5.0` or `1.0.0-beta.2`.
    pub fn parse(text: &str) -> (r: Option<Version>)
        ensures
            parses_to(text@, r),
    {
        match read_release(text) {
            Some((major, minor, patch, pre)) => Some(Version { major, minor, patch, pre }),
            None => None,
        }
    }
}

} // verus!
