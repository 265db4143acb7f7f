//! Configuration of one service, as written and as used.

use crate::address::{spec_unspecified, IpAddress, SocketAddress};
use vstd::prelude::*;
use vstd::string::*;

verus! {

/// Options related to the Git repository of a service.
#[derive(Debug, PartialEq, Eq)]
pub struct RepoConfig {
    /// url to the git repository.
    ///
    /// It needs to be accessible by the user running `incipit`. That is,
    /// either public or with the appropriate permissions.
    pub url: String,
    /// Branch to pull from. If `None`, it will default to `main`.
    pub branch: Option<String>,
}

/// A service as its configuration file describes it.
#[derive(Debug, PartialEq, Eq)]
pub struct FileConfig {
    /// Name of the service.
    pub name: String,
    /// Port that the service listens on.
    pub port: u16,
    /// Host of the service. If `None`, it will default to `<name>.<domain>` (where the domain is
    /// obtained from the global config).
    pub host: Option<String>,
    pub repo: Option<RepoConfig>,
    pub run_command: String,
}

/// A service with every default filled in.
#[derive(Debug, PartialEq, Eq)]
pub struct RuntimeConfig {
    pub name: String,
    pub port: u16,
    pub host: String,
    pub repo: Option<RepoConfig>,
    pub run_command: String,
}

/// The host of a service: the one it names, or `<name>.<domain>`.
pub open spec fn host_of(host: Option<String>, name: Seq<char>, domain: Seq<char>) -> Seq<char> {
    match host {
        Some(host) => host@,
        None => name + seq!['.'] + domain,
    }
}

impl FileConfig {
    /// Fills in the defaults: a service without a host gets
    /// `<name>.<domain>`; everything else is kept.
    pub fn into_runtime_config(self, domain: &str) -> (runtime: RuntimeConfig)
        ensures
            runtime.name == self.name,
            runtime.port == self.port,
            runtime.host@ == host_of(self.host, self.name@, domain@),
            runtime.repo == self.repo,
            runtime.run_command == self.run_command,
    {
        let host = match self.host {
            Some(host) => host,
            None => {
                proof {
                    reveal_strlit(".");
                }
                let mut host = self.name.clone();
                host.append(".");
                host.append(domain);
                assert(host@ =~= self.name@ + seq!['.'] + domain@);
                host
            },
        };
        RuntimeConfig {
            name: self.name,
            port: self.port,
            host,
            repo: self.repo,
            run_command: self.run_command,
        }
    }
}

impl RuntimeConfig {
    /// The socket the service listens on: its port on `0.0.0.0`.
    pub fn addr(&self) -> (addr: SocketAddress)
        ensures
            addr == (SocketAddress { ip: spec_unspecified(), port: self.port }),
    {
        SocketAddress { ip: IpAddress::unspecified(), port: self.port }
    }
}

} // verus!
