use vstd::prelude::*;
use vstd::string::StringExecFns;
use crate::version::Version;

verus! {

/// One package whose documentation is in the catalog.
#[derive(Clone, Debug)]
pub struct PackageDocs {
    pub name: String,
    pub version: Version,
    pub features: Vec<String>,
}

/// The catalog of published documentation.
#[derive(Debug)]
pub struct SqliteDocs;

impl SqliteDocs {
    pub fn new() -> (r: SqliteDocs) {
        SqliteDocs
    }

    /// Every package in the catalog. It holds one entry: this tool itself,
    /// `youmu 0.0.1`, without features.
    pub fn query_all(&self) -> (r: Vec<PackageDocs>)
        ensures
            r@.len() == 1,
            r@[0].name@ == "youmu"@,
            r@[0].version.major == 0 && r@[0].version.minor == 0 && r@[0].version.patch == 1,
            r@[0].version.pre@.len() == 0,
            r@[0].features@.len() == 0,
    {
        let mut v: Vec<PackageDocs> = Vec::new();
        v.push(PackageDocs { name: String::from_str("youmu"), version: Version::new(0, 0, 1), features: Vec::new() });
        v
    }
}

} // verus!
