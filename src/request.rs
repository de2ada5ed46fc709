use vstd::prelude::*;
use vstd::string::StrSliceExecFns;
use crate::version::{check_constraint, constraint_accepted};

verus! {

/// Where a package comes from: the central registry under a version
/// requirement, or a source found at a URL.
#[derive(Clone, Debug)]
pub enum PackageSource {
    CratesIo(String),
    Url(String),
}

/// Why a request could not be formed.
#[derive(Clone, Copy, Debug, PartialEq, Eq, Structural)]
pub enum ConfigError {
    EmptyName,
    MissingSource,
    MalformedConstraint,
}

/// One documentation request, built once and consumed by one attempt.
#[derive(Clone, Debug)]
pub struct PackageRequest {
    pub name: String,
    pub source: PackageSource,
    pub features: Vec<String>,
    pub default_features: bool,
    pub include_deps: bool,
}

/// What the build engine is told, derived from a request.
#[derive(Clone, Debug)]
pub struct BuildOptions {
    pub features: Vec<String>,
    pub default_features: bool,
    pub include_deps: bool,
    pub release: bool,
}

impl PackageSource {
    pub open spec fn is_url(&self) -> bool {
        self is Url
    }

    /// The requirement of a registry source, or the URL of a direct one.
    pub open spec fn text(&self) -> Seq<char> {
        match self {
            PackageSource::CratesIo(c) => c@,
            PackageSource::Url(u) => u@,
        }
    }

    /// A registry source carries a requirement that semver accepts.
    pub open spec fn wf(&self) -> bool {
        match self {
            PackageSource::CratesIo(c) => constraint_accepted(c@),
            PackageSource::Url(_) => true,
        }
    }
}

/// `r` is what the raw fields give: an empty name is refused; a non-empty
/// URL selects a direct source; otherwise a non-empty version requirement that
/// semver accepts selects the registry; an empty one leaves no source.
pub open spec fn built_from(
    name: Seq<char>,
    url: Seq<char>,
    version: Seq<char>,
    features: Seq<String>,
    default_features: bool,
    include_deps: bool,
    r: Result<PackageRequest, ConfigError>,
) -> bool {
    if name.len() == 0 {
        r == Err::<PackageRequest, ConfigError>(ConfigError::EmptyName)
    } else if url.len() == 0 && version.len() == 0 {
        r == Err::<PackageRequest, ConfigError>(ConfigError::MissingSource)
    } else if url.len() == 0 && !constraint_accepted(version) {
        r == Err::<PackageRequest, ConfigError>(ConfigError::MalformedConstraint)
    } else {
        r matches Ok(q) && {
            &&& q.wf()
            &&& q.name@ == name
            &&& q.features@ == features
            &&& q.default_features == default_features
            &&& q.include_deps == include_deps
            &&& q.source.is_url() == (url.len() > 0)
            &&& q.source.text() == if url.len() > 0 { url } else { version }
        }
    }
}

impl PackageRequest {
    pub open spec fn wf(&self) -> bool {
        self.name@.len() > 0 && self.source.wf()
    }

    /// Builds a request from the raw fields of a form or an entry of a list.
    /// An empty name is refused; a non-empty `url` takes precedence over
    /// `version`; with neither, the request has no source.
    pub fn new(
        name: &str,
        url: &str,
        version: &str,
        features: Vec<String>,
        default_features: bool,
        include_deps: bool,
    ) -> (r: Result<PackageRequest, ConfigError>)
        ensures
            built_from(name@, url@, version@, features@, default_features, include_deps, r),
    {
        if name.is_empty() {
            return Err(ConfigError::EmptyName);
        }
        let source = if !url.is_empty() {
            PackageSource::Url(url.to_owned())
        } else if version.is_empty() {
            return Err(ConfigError::MissingSource);
        } else if !check_constraint(version) {
            return Err(ConfigError::MalformedConstraint);
        } else {
            PackageSource::CratesIo(version.to_owned())
        };
        Ok(PackageRequest { name: name.to_owned(), source, features, default_features, include_deps })
    }

    /// Whether the request names a package and, for a registry source, carries
    /// a requirement that semver accepts.
    pub fn is_well_formed(&self) -> (r: bool)
        ensures
            r == self.wf(),
    {
        if self.name.as_str().is_empty() {
            return false;
        }
        match &self.source {
            PackageSource::CratesIo(c) => check_constraint(c.as_str()),
            PackageSource::Url(_) => true,
        }
    }

    /// The options handed to the build engine: the request's feature choices,
    /// never a release build.
    pub fn build_options(&self) -> (r: BuildOptions)
        ensures
            r.features@ == self.features@,
            r.default_features == self.default_features,
            r.include_deps == self.include_deps,
            !r.release,
    {
        BuildOptions {
            features: self.features.clone(),
            default_features: self.default_features,
            include_deps: self.include_deps,
            release: false,
        }
    }
}

/// The pieces of `s` between single spaces, in order; consecutive spaces
/// give empty pieces, and empty text gives one empty piece.
pub open spec fn split_spaces(s: Seq<char>) -> Seq<Seq<char>>
    decreases s.len(),
{
    if s.len() == 0 {
        seq![Seq::empty()]
    } else {
        let p = split_spaces(s.drop_last());
        if s.last() == ' ' {
            p.push(Seq::empty())
        } else {
            p.update(p.len() - 1, p.last().push(s.last()))
        }
    }
}

proof fn lemma_split_nonempty(s: Seq<char>)
    ensures
        split_spaces(s).len() >= 1,
    decreases s.len(),
{
    if s.len() > 0 {
        lemma_split_nonempty(s.drop_last());
    }
}

/// Splits a space-separated feature list.
pub fn split_features(s: &str) -> (r: Vec<String>)
    ensures
        r@.map_values(|x: String| x@) == split_spaces(s@),
{
    let n = s.unicode_len();
    let mut pieces: Vec<String> = Vec::new();
    let mut start: usize = 0;
    let mut i: usize = 0;
    proof {
        assert(pieces@.map_values(|x: String| x@) =~= Seq::<Seq<char>>::empty());
        assert(s@.subrange(0, 0) =~= Seq::<char>::empty());
        assert(pieces@.map_values(|x: String| x@).push(s@.subrange(0, 0)) =~= seq![Seq::<char>::empty()]);
        assert(s@.take(0) =~= Seq::<char>::empty());
    }
    while i < n
        invariant
            n == s@.len(),
            start <= i <= n,
            pieces@.map_values(|x: String| x@).push(s@.subrange(start as int, i as int))
                == split_spaces(s@.take(i as int)),
        decreases n - i,
    {
        let c = s.get_char(i);
        let ghost pv = pieces@.map_values(|x: String| x@);
        proof {
            assert(s@.take(i + 1).drop_last() =~= s@.take(i as int));
            assert(s@.take(i + 1).last() == c);
            lemma_split_nonempty(s@.take(i as int));
        }
        if c == ' ' {
            let piece = s.substring_char(start, i).to_owned();
            pieces.push(piece);
            assert(pieces@.map_values(|x: String| x@) =~= pv.push(s@.subrange(start as int, i as int)));
            assert(s@.subrange((i + 1) as int, (i + 1) as int) =~= Seq::<char>::empty());
        } else {
            assert(s@.subrange(start as int, i + 1) =~= s@.subrange(start as int, i as int).push(c));
            assert(pv.push(s@.subrange(start as int, i + 1)) =~= pv.push(s@.subrange(start as int, i as int)).update(pv.len() as int, s@.subrange(start as int, i as int).push(c)));
        }
        i = i + 1;
        if c == ' ' {
            start = i;
        }
    }
    let last = s.substring_char(start, n).to_owned();
    let ghost pv = pieces@.map_values(|x: String| x@);
    pieces.push(last);
    proof {
        assert(s@.take(n as int) =~= s@);
        assert(pieces@.map_values(|x: String| x@) =~= pv.push(s@.subrange(start as int, n as int)));
    }
    pieces
}

} // verus!
