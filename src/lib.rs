//! Resolution and build orchestration for package documentation.
//!
//! The library decides: which concrete version a request names, where its
//! documentation is published, what the build workspace must look like before
//! a build, and which attempt may use the single build engine. The program
//! around it performs the network, disk and engine work that these decisions
//! describe.

pub mod version;
pub mod request;
pub mod index;
pub mod resolve;
pub mod publish;
pub mod stage;
pub mod gate;
pub mod crates;
pub mod sqlite;
pub mod server;

pub use version::Version;
pub use request::{BuildOptions, ConfigError, PackageRequest, PackageSource};
pub use resolve::{ResolutionError, ResolvedPackage, SourceId, resolve, select_version, select_candidate};
pub use publish::publish_dir;
pub use stage::{Fingerprint, StagingStep, fingerprint_path, is_stale_fingerprint, staging_plan};
pub use gate::BuildGate;
pub use crates::{Attempt, Cargo, Docgen, DocsError};
pub use sqlite::{PackageDocs, SqliteDocs};
pub use server::{Server, ServerConfig};
