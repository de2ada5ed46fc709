use vstd::prelude::*;
use crate::version::Version;
use crate::request::{BuildOptions, ConfigError, PackageRequest};
use crate::resolve::{ResolutionError, ResolvedPackage, resolve, resolves_to};
use crate::stage::{Fingerprint, StagingStep, fingerprints_view, plan, staging_plan, steps_view};

verus! {

/// Every way a documentation attempt can fail.
#[derive(Clone, Debug)]
pub enum DocsError {
    /// The request was malformed; the caller must correct it.
    Config(ConfigError),
    /// No package or no admitted version was found.
    Resolution(ResolutionError),
    /// The source could not be refreshed or downloaded.
    Fetch(String),
    /// A filesystem step of staging failed.
    Workspace(String),
    /// The build engine reported a failure.
    Build(String),
}

impl DocsError {
    /// The HTTP status reported for the error: 400 for bad input, 500 for the
    /// rest.
    pub fn status(&self) -> (r: u16)
        ensures
            r == if self is Config { 400u16 } else { 500u16 },
    {
        match self {
            DocsError::Config(_) => 400,
            _ => 500,
        }
    }
}

/// A documentation generator: builds the documentation of `r` and publishes
/// it into the directory `dest`.
pub trait Docgen {
    fn document(&mut self, r: &PackageRequest, dest: &str) -> Result<(), DocsError>;
}

/// What one attempt will do once its package is resolved: the package, the
/// staging steps, and the options for the build engine.
#[derive(Clone, Debug)]
pub struct Attempt {
    pub package: ResolvedPackage,
    pub steps: Vec<StagingStep>,
    pub options: BuildOptions,
}

/// The documentation generator driven through the build engine.
#[derive(Debug)]
pub struct Cargo;

impl Cargo {
    pub fn new() -> (r: Cargo) {
        Cargo
    }

    /// Decides an attempt for `request`: resolves it against `listing`, what
    /// its source lists for the name, and plans the staging of the workspace
    /// `target`, whose fingerprint directory holds `fingerprints`, so that the
    /// output is published into `dest`. A request that does not resolve stops
    /// here, before any staging.
    pub fn plan_attempt(
        &self,
        request: &PackageRequest,
        listing: &Vec<Version>,
        target: &str,
        fingerprints: &Vec<Fingerprint>,
        dest: &str,
    ) -> (r: Result<Attempt, ResolutionError>)
        requires
            request.wf(),
        ensures
            r matches Err(e) ==> resolves_to(*request, listing@, Err(e)),
            r matches Ok(a) ==> {
                &&& resolves_to(*request, listing@, Ok(a.package))
                &&& steps_view(a.steps@) == plan(target@, fingerprints_view(fingerprints@), dest@)
                &&& a.options.features@ == request.features@
                &&& a.options.default_features == request.default_features
                &&& a.options.include_deps == request.include_deps
                &&& !a.options.release
            },
    {
        let package = resolve(request, listing)?;
        let steps = staging_plan(target, fingerprints, dest);
        let options = request.build_options();
        Ok(Attempt { package, steps, options })
    }
}

} // verus!
