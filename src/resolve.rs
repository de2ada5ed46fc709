use vstd::prelude::*;
use vstd::string::StringExecFns;
use crate::version::{Version, constraint_matches, constraint_accepted, constraint_admits, pre_order_is_strict, lemma_precedence_strict};
use crate::request::{PackageRequest, PackageSource};

verus! {

/// Why a request names no package.
#[derive(Clone, Copy, Debug, PartialEq, Eq, Structural)]
pub enum ResolutionError {
    /// The source lists no candidate for the name.
    NotFound,
    /// Candidates exist, but none meets the version requirement.
    ConstraintUnsatisfiable,
}

/// Where a resolved package originates.
#[derive(Clone, Debug)]
pub struct SourceId {
    pub registry: bool,
    pub location: String,
}

/// The location of the central registry's index.
pub const CENTRAL_INDEX: &'static str = "https://github.com/rust-lang/crates.io-index";

impl SourceId {
    pub open spec fn central_location() -> Seq<char> {
        CENTRAL_INDEX@
    }

    /// The identity of the central registry.
    pub fn for_central() -> (r: SourceId)
        ensures
            r.registry,
            r.location@ == Self::central_location(),
    {
        SourceId { registry: true, location: String::from_str(CENTRAL_INDEX) }
    }

    /// The identity of a source at `url`; it depends on the URL text alone.
    pub fn from_url(url: &str) -> (r: SourceId)
        ensures
            !r.registry,
            r.location@ == url@,
    {
        SourceId { registry: false, location: String::from_str(url) }
    }
}

/// A request resolved to one concrete, fetchable package.
#[derive(Clone, Debug)]
pub struct ResolvedPackage {
    pub name: String,
    pub version: Version,
    pub source: SourceId,
}

/// The greatest version of `vs` that the requirement `c` admits, if any:
/// the versions are folded left to right, a later one replacing the kept one
/// when it is newer.
pub open spec fn best_match(vs: Seq<Version>, c: Seq<char>) -> Option<Version>
    decreases vs.len(),
{
    if vs.len() == 0 {
        None
    } else {
        let prev = best_match(vs.drop_last(), c);
        let next = vs.last();
        if admits(c, next) {
            match prev {
                Some(p) => if p.spec_lt(next) { Some(next) } else { Some(p) },
                None => Some(next),
            }
        } else {
            prev
        }
    }
}

pub open spec fn admits(c: Seq<char>, v: Version) -> bool {
    constraint_admits(c, v.major, v.minor, v.patch, v.pre@)
}

/// The version that a registry listing gives for requirement `c`.
pub open spec fn registry_choice(vs: Seq<Version>, c: Seq<char>) -> Result<Version, ResolutionError> {
    if vs.len() == 0 {
        Err(ResolutionError::NotFound)
    } else {
        match best_match(vs, c) {
            Some(v) => Ok(v),
            None => Err(ResolutionError::ConstraintUnsatisfiable),
        }
    }
}

/// The version that a direct source gives: its first candidate.
pub open spec fn url_choice(vs: Seq<Version>) -> Result<Version, ResolutionError> {
    if vs.len() == 0 {
        Err(ResolutionError::NotFound)
    } else {
        Ok(vs[0])
    }
}

pub open spec fn choice(source: PackageSource, listing: Seq<Version>) -> Result<Version, ResolutionError> {
    match source {
        PackageSource::CratesIo(c) => registry_choice(listing, c@),
        PackageSource::Url(_) => url_choice(listing),
    }
}

/// `r` is what resolving `q` against `listing` gives.
pub open spec fn resolves_to(
    q: PackageRequest,
    listing: Seq<Version>,
    r: Result<ResolvedPackage, ResolutionError>,
) -> bool {
    match r {
        Err(e) => choice(q.source, listing) == Err::<Version, ResolutionError>(e),
        Ok(p) => {
            &&& choice(q.source, listing) == Ok::<Version, ResolutionError>(p.version)
            &&& p.name@ == q.name@
            &&& p.source.registry == !q.source.is_url()
            &&& p.source.location@ == if q.source.is_url() {
                q.source.text()
            } else {
                SourceId::central_location()
            }
        },
    }
}

proof fn lemma_best_match(vs: Seq<Version>, c: Seq<char>)
    requires
        pre_order_is_strict(),
    ensures
        best_match(vs, c) matches Some(v) ==> vs.contains(v) && admits(c, v) && forall|w: Version|
            vs.contains(w) && admits(c, w) ==> !v.spec_lt(w),
        best_match(vs, c) is None ==> forall|w: Version| vs.contains(w) ==> !admits(c, w),
    decreases vs.len(),
{
    if vs.len() > 0 {
        let init = vs.drop_last();
        let next = vs.last();
        lemma_best_match(init, c);
        assert(vs =~= init.push(next));
        assert forall|w: Version| vs.contains(w) implies w == next || init.contains(w) by {
            let k = choose|k: int| 0 <= k < vs.len() && vs[k] == w;
            if k < vs.len() - 1 {
                assert(init[k] == w);
            }
        }
        assert(vs[vs.len() - 1] == next);
        lemma_precedence_strict(next, next, next);
        if let Some(v) = best_match(vs, c) {
            assert forall|w: Version| vs.contains(w) && admits(c, w) implies !v.spec_lt(w) by {
                if let Some(p) = best_match(init, c) {
                    if admits(c, next) && p.spec_lt(next) && w != next {
                        lemma_precedence_strict(p, next, w);
                    }
                }
            }
            if v != next {
                assert(init.contains(v));
            }
        }
    }
}

/// Registry resolution returns a listed version that the requirement admits
/// and that no admitted listed version outranks, given that semver's order of
/// pre-release labels is a strict order (as its `Ord` is); it fails with
/// `NotFound` exactly when the listing is empty, and with
/// `ConstraintUnsatisfiable` exactly when no listed version is admitted.
pub proof fn lemma_registry_choice_is_newest(vs: Seq<Version>, c: Seq<char>)
    requires
        pre_order_is_strict(),
    ensures
        registry_choice(vs, c) matches Ok(v) ==> {
            &&& vs.contains(v)
            &&& admits(c, v)
            &&& forall|w: Version| vs.contains(w) && admits(c, w) ==> !v.spec_lt(w)
        },
        registry_choice(vs, c) == Err::<Version, ResolutionError>(ResolutionError::NotFound)
            <==> vs.len() == 0,
        registry_choice(vs, c) == Err::<Version, ResolutionError>(
            ResolutionError::ConstraintUnsatisfiable,
        ) <==> (vs.len() > 0 && forall|w: Version| vs.contains(w) ==> !admits(c, w)),
{
    lemma_best_match(vs, c);
    if vs.len() > 0 && best_match(vs, c) is Some {
        let v = best_match(vs, c).unwrap();
        assert(vs.contains(v) && admits(c, v));
    }
}

/// Resolving one request twice against an unchanged listing gives the same
/// package: the same name, version and source.
pub proof fn lemma_resolve_deterministic(
    q: PackageRequest,
    listing: Seq<Version>,
    r1: Result<ResolvedPackage, ResolutionError>,
    r2: Result<ResolvedPackage, ResolutionError>,
)
    requires
        resolves_to(q, listing, r1),
        resolves_to(q, listing, r2),
    ensures
        r1 is Ok <==> r2 is Ok,
        r1 is Err ==> r1 == r2,
        r1 matches Ok(p1) ==> r2 matches Ok(p2) && p1.version == p2.version && p1.name@ == p2.name@
            && p1.source.registry == p2.source.registry && p1.source.location@
            == p2.source.location@,
{
}

/// Picks the newest version of `versions` that the requirement admits.
pub fn select_version(versions: &Vec<Version>, constraint: &str) -> (r: Result<Version, ResolutionError>)
    requires
        constraint_accepted(constraint@),
    ensures
        r == registry_choice(versions@, constraint@),
{
    if versions.len() == 0 {
        return Err(ResolutionError::NotFound);
    }
    let mut best: Option<Version> = None;
    let mut i: usize = 0;
    while i < versions.len()
        invariant
            i <= versions@.len(),
            constraint_accepted(constraint@),
            best == best_match(versions@.take(i as int), constraint@),
        decreases versions@.len() - i,
    {
        let next = &versions[i];
        proof {
            assert(versions@.take(i + 1).drop_last() =~= versions@.take(i as int));
        }
        if constraint_matches(constraint, next) {
            best = match best {
                Some(p) => if p.is_older_than(next) { Some(next.duplicate()) } else { Some(p) },
                None => Some(next.duplicate()),
            };
        }
        i = i + 1;
    }
    proof {
        assert(versions@.take(versions@.len() as int) =~= versions@);
    }
    match best {
        Some(v) => Ok(v),
        None => Err(ResolutionError::ConstraintUnsatisfiable),
    }
}

/// Takes the first candidate that a direct source reports.
pub fn select_candidate(candidates: &Vec<Version>) -> (r: Result<Version, ResolutionError>)
    ensures
        r == url_choice(candidates@),
{
    if candidates.len() == 0 {
        Err(ResolutionError::NotFound)
    } else {
        Ok(candidates[0].duplicate())
    }
}

/// Resolves a request against what its source lists for the name: every
/// version in the registry's index, or the candidates of a direct source in
/// the order it reports them.
pub fn resolve(request: &PackageRequest, listing: &Vec<Version>) -> (r: Result<
    ResolvedPackage,
    ResolutionError,
>)
    requires
        request.wf(),
    ensures
        resolves_to(*request, listing@, r),
{
    match &request.source {
        PackageSource::CratesIo(c) => {
            let v = select_version(listing, c.as_str())?;
            Ok(ResolvedPackage { name: request.name.clone(), version: v, source: SourceId::for_central() })
        },
        PackageSource::Url(u) => {
            let v = select_candidate(listing)?;
            Ok(ResolvedPackage { name: request.name.clone(), version: v, source: SourceId::from_url(u.as_str()) })
        },
    }
}

} // verus!
