use vstd::prelude::*;
use vstd::string::StringExecFns;
use crate::version::{decimal, decimal_text};
use crate::request::{ConfigError, PackageRequest, built_from};
use crate::resolve::ResolvedPackage;
use crate::publish::{publish_dir, publish_path};

verus! {

/// Where the web interface listens and where it publishes documentation.
#[derive(Clone, Debug)]
pub struct ServerConfig {
    pub bind_address: String,
    pub bind_port: u16,
    pub docs_path: String,
}

/// The web interface's state: its configuration, the catalog `D`, and the
/// documentation generator `G`, which the caller guards so that one build
/// runs at a time.
pub struct Server<D, G> {
    config: ServerConfig,
    docs: D,
    gen: G,
}

impl<D, G> Server<D, G> {
    pub closed spec fn spec_config(&self) -> ServerConfig {
        self.config
    }

    pub fn new(config: ServerConfig, docs: D, gen: G) -> (r: Server<D, G>)
        ensures
            r.spec_config() == config,
            r.spec_docs() == docs,
            r.spec_generator() == gen,
    {
        Server { config, docs, gen }
    }

    pub fn config(&self) -> (r: &ServerConfig)
        ensures
            *r == self.spec_config(),
    {
        &self.config
    }

    pub closed spec fn spec_docs(&self) -> D {
        self.docs
    }

    pub closed spec fn spec_generator(&self) -> G {
        self.gen
    }

    pub fn docs(&self) -> (r: &D)
        ensures
            *r == self.spec_docs(),
    {
        &self.docs
    }

    pub fn generator(&self) -> (r: &G)
        ensures
            *r == self.spec_generator(),
    {
        &self.gen
    }

    /// `address:port`, the text that names the listening socket.
    pub fn address(&self) -> (r: String)
        ensures
            r@ == self.spec_config().bind_address@ + seq![':'] + decimal(
                self.spec_config().bind_port as nat,
            ),
    {
        let mut s = self.config.bind_address.clone();
        s.append(":");
        let p = decimal_text(self.config.bind_port as u64);
        s.append(p.as_str());
        proof {
            reveal_strlit(":");
        }
        s
    }

    /// The request that a documentation form asks for: `package` names it, a
    /// non-empty `url` selects a direct source, else `version` a registry
    /// requirement. Default features and dependencies are included.
    pub fn gendocs_request(&self, package: &str, url: &str, version: &str) -> (r: Result<
        PackageRequest,
        ConfigError,
    >)
        ensures
            built_from(package@, url@, version@, Seq::empty(), true, true, r),
    {
        let features: Vec<String> = Vec::new();
        proof {
            assert(features@ =~= Seq::<String>::empty());
        }
        PackageRequest::new(package, url, version, features, true, true)
    }

    /// The directory under the docs path where `p` is published.
    pub fn publish_target(&self, p: &ResolvedPackage) -> (r: String)
        ensures
            r@ == publish_path(self.spec_config().docs_path@, *p),
    {
        publish_dir(self.config.docs_path.as_str(), p)
    }
}

} // verus!
