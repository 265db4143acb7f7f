//! Global configuration of incipit, how it is built from its file layout,
//! and how it resolves hosts.

pub mod store;
pub mod watch;

pub use store::{ConfigStore, ReloadReport, StoreChange};
pub use watch::{event_names_path, on_notification, watched_path, WatchStep};

use crate::address::{spec_unspecified, IpAddress, SocketAddress};
use crate::drawbridge::mapping::{first_match_absent, first_match_at, resolve, HostMapping, Target};
use vstd::prelude::*;
use vstd::string::*;

verus! {

/// Options related to the Git repository of a service.
#[derive(Debug, PartialEq, Eq)]
pub struct RepoConfig {
    /// url to the git repository.
    ///
    /// It needs to be accessible by the user running `incipit`. That is,
    /// either public or with the appropriate permissions.
    pub url: String,
    /// Branch to pull from. If `None`, it will default to `main`.
    pub branch: Option<String>,
}

/// Options related to commands for updating and running the service.
#[derive(Debug, PartialEq, Eq)]
pub struct CommandConfig {
    /// Command to run the service
    pub run: String,
}

/// One service that incipit runs and forwards requests to.
///
/// `T` is the type of the name: in the file layout the name is the key of the
/// service's table, so the entry itself carries none.
#[derive(Debug, PartialEq, Eq)]
pub struct ServiceConfig<T = String> {
    /// Name of the service.
    pub name: T,
    /// Port that the service listens on.
    pub port: u16,
    /// Host of the service, matched exactly against the host of a request.
    pub host: String,
    /// Options related to the Git repository.
    pub repo: Option<RepoConfig>,
    /// Options related to commands for updating and running the service
    pub command: Option<CommandConfig>,
}

/// Global configuration of incipit.
#[derive(Debug, PartialEq, Eq)]
pub struct Config {
    /// Path of the file the configuration was read from, if it is known.
    /// Relative paths are evaluated from the directory of this file.
    pub file_path: Option<String>,
    /// The services that incipit runs, in declaration order. Their hosts are
    /// expected to differ; where two services name the same host, the first
    /// one in this order gets the requests.
    pub services: Vec<ServiceConfig>,
    /// Host on which to access the incipit dashboard. If not set, incipit's dashboard won't be
    /// accessible, but it will still start the services and reverse-proxy requests.
    pub incipit_host: Option<String>,
    /// Address to run incipit on.
    ///
    /// Defaults to `0.0.0.0` (to expose to network)
    pub addr: Option<IpAddress>,
    /// Port to run incipit on.
    ///
    /// Default to 80 for HTTP, consider setting it to 443 if you're using HTTPS.
    pub port: Option<u16>,
    /// Path where the database is stored.
    pub db_path: Option<String>,
}

/// Layout of the config that gets deserialized from. This is a separate struct to make
/// the file more convenient to write and the actual config value more sensible at the time of
/// using it.
#[derive(Debug, PartialEq, Eq)]
pub struct FileConfig {
    /// The service tables by name, in the order the source hands them out.
    /// In a file the name is the key of the table, so no name occurs twice:
    /// see [`FileConfig::distinct_names`].
    pub service: Vec<(String, ServiceConfig<Option<()>>)>,
    pub incipit_host: Option<String>,
    pub addr: Option<IpAddress>,
    pub port: Option<u16>,
    pub db_path: Option<String>,
}

/// Why a configuration could not be obtained.
#[derive(Debug, PartialEq, Eq)]
pub enum GetConfigError {
    ConfigNotFound,
    /// The file could not be read; the payload is the detail.
    ReadConfigError(String),
    /// The file could not be parsed; the payload is the detail.
    ConfigParseError(String),
}

/// The text of a failure, as it is logged.
pub open spec fn failure_message(failure: GetConfigError) -> Seq<char> {
    match failure {
        GetConfigError::ConfigNotFound => "Config not found"@,
        GetConfigError::ReadConfigError(_) => "Failed to read config"@,
        GetConfigError::ConfigParseError(_) => "Failed to parse config"@,
    }
}

impl GetConfigError {
    /// The text of the failure, as it is logged.
    pub fn message(&self) -> (text: String)
        ensures
            text@ == failure_message(*self),
    {
        match self {
            GetConfigError::ConfigNotFound => String::from_str("Config not found"),
            GetConfigError::ReadConfigError(_) => String::from_str("Failed to read config"),
            GetConfigError::ConfigParseError(_) => String::from_str("Failed to parse config"),
        }
    }
}

impl Clone for RepoConfig {
    fn clone(&self) -> (copy: Self)
        ensures
            copy == *self,
    {
        let branch = match &self.branch {
            Some(b) => Some(b.clone()),
            None => None,
        };
        RepoConfig { url: self.url.clone(), branch }
    }
}

impl Clone for CommandConfig {
    fn clone(&self) -> (copy: Self)
        ensures
            copy == *self,
    {
        CommandConfig { run: self.run.clone() }
    }
}

fn clone_repo(repo: &Option<RepoConfig>) -> (copy: Option<RepoConfig>)
    ensures
        copy == *repo,
{
    match repo {
        Some(r) => Some(r.clone()),
        None => None,
    }
}

fn clone_command(command: &Option<CommandConfig>) -> (copy: Option<CommandConfig>)
    ensures
        copy == *command,
{
    match command {
        Some(c) => Some(c.clone()),
        None => None,
    }
}

fn clone_text(text: &Option<String>) -> (copy: Option<String>)
    ensures
        copy == *text,
{
    match text {
        Some(t) => Some(t.clone()),
        None => None,
    }
}

impl Clone for ServiceConfig<String> {
    fn clone(&self) -> (copy: Self)
        ensures
            copy == *self,
    {
        ServiceConfig {
            name: self.name.clone(),
            port: self.port,
            host: self.host.clone(),
            repo: clone_repo(&self.repo),
            command: clone_command(&self.command),
        }
    }
}

/// The named service that a table of the file layout stands for: the table's
/// key becomes the name, everything else is kept.
pub open spec fn named_service(entry: (String, ServiceConfig<Option<()>>)) -> ServiceConfig {
    ServiceConfig {
        name: entry.0,
        port: entry.1.port,
        host: entry.1.host,
        repo: entry.1.repo,
        command: entry.1.command,
    }
}

impl FileConfig {
    /// Whether no two tables of the layout have the same name.
    pub open spec fn distinct_names(&self) -> bool {
        forall|i: int, j: int|
            0 <= i < j < self.service@.len() ==> (#[trigger] self.service@[i]).0@ != (
            #[trigger] self.service@[j]).0@
    }
}

impl Config {
    /// Whether no two services have the same name.
    pub open spec fn distinct_names(&self) -> bool {
        forall|i: int, j: int|
            0 <= i < j < self.services@.len() ==> (#[trigger] self.services@[i]).name@ != (
            #[trigger] self.services@[j]).name@
    }

    /// The dashboard host as a sequence of characters, if one is configured.
    pub open spec fn dashboard(&self) -> Option<Seq<char>> {
        match self.incipit_host {
            Some(host) => Some(host@),
            None => None,
        }
    }

    /// The routing table: one row per service, in declaration order, made of
    /// the service's host and port.
    pub open spec fn routing_table(&self) -> Seq<(Seq<char>, u16)> {
        Seq::new(self.services@.len(), |i: int| (self.services@[i].host@, self.services@[i].port))
    }

    /// The target that this configuration resolves `host` to.
    pub open spec fn target_for(&self, host: Seq<char>) -> Target {
        resolve(self.dashboard(), self.routing_table(), host)
    }

    /// The address to listen on: the configured one, `0.0.0.0` if none is.
    pub open spec fn spec_addr(&self) -> IpAddress {
        match self.addr {
            Some(ip) => ip,
            None => spec_unspecified(),
        }
    }

    /// The socket to listen on: the listening address, and the configured
    /// port or 80 if none is.
    pub open spec fn spec_socket(&self) -> SocketAddress {
        SocketAddress {
            ip: self.spec_addr(),
            port: match self.port {
                Some(port) => port,
                None => 80,
            },
        }
    }

    pub fn addr(&self) -> (ip: IpAddress)
        ensures
            ip == self.spec_addr(),
    {
        match self.addr {
            Some(ip) => ip,
            None => IpAddress::unspecified(),
        }
    }

    pub fn socket(&self) -> (socket: SocketAddress)
        ensures
            socket == self.spec_socket(),
    {
        let port: u16 = match self.port {
            Some(port) => port,
            None => 80,
        };
        SocketAddress { ip: self.addr(), port }
    }

    /// Records where the configuration was read from: a path that the
    /// configuration names itself wins over the path of its source.
    pub fn with_source(self, source: Option<String>) -> (config: Config)
        ensures
            config.file_path == (if self.file_path is Some {
                self.file_path
            } else {
                source
            }),
            config.services == self.services,
            config.incipit_host == self.incipit_host,
            config.addr == self.addr,
            config.port == self.port,
            config.db_path == self.db_path,
    {
        let mut config = self;
        if config.file_path.is_none() {
            config.file_path = source;
        }
        config
    }

    /// Builds the configuration from its file layout. Every table becomes a
    /// service named by its key, in the order of the layout, so that names
    /// that differ in the layout differ in the configuration; this never
    /// fails.
    pub fn try_from(file: FileConfig) -> (result: Result<Config, GetConfigError>)
        ensures
            result is Ok,
            result.unwrap().file_path is None,
            result.unwrap().incipit_host == file.incipit_host,
            result.unwrap().addr == file.addr,
            result.unwrap().port == file.port,
            result.unwrap().db_path == file.db_path,
            result.unwrap().services@ == file.service@.map_values(
                |entry: (String, ServiceConfig<Option<()>>)| named_service(entry),
            ),
            file.distinct_names() ==> result.unwrap().distinct_names(),
    {
        let mut services: Vec<ServiceConfig> = Vec::new();
        let count: usize = file.service.len();
        let mut i: usize = 0;
        while i < count
            invariant
                count == file.service@.len(),
                i <= count,
                services@.len() == i,
                forall|j: int| 0 <= j < i ==> #[trigger] services@[j] == named_service(file.service@[j]),
            decreases count - i,
        {
            let entry = &file.service[i];
            services.push(
                ServiceConfig {
                    name: entry.0.clone(),
                    port: entry.1.port,
                    host: entry.1.host.clone(),
                    repo: clone_repo(&entry.1.repo),
                    command: clone_command(&entry.1.command),
                },
            );
            i = i + 1;
        }
        assert(services@ =~= file.service@.map_values(
            |entry: (String, ServiceConfig<Option<()>>)| named_service(entry),
        ));
        assert forall|a: int, b: int|
            file.distinct_names() && 0 <= a < b < services@.len() implies (
        #[trigger] services@[a]).name@ != (#[trigger] services@[b]).name@ by {
            assert(services@[a] == named_service(file.service@[a]));
            assert(services@[b] == named_service(file.service@[b]));
        }
        Ok(
            Config {
                file_path: None,
                services,
                incipit_host: file.incipit_host,
                addr: file.addr,
                port: file.port,
                db_path: file.db_path,
            },
        )
    }
}

impl Default for Config {
    /// The empty configuration: no services, no dashboard, default socket.
    fn default() -> (config: Config)
        ensures
            config.file_path is None,
            config.services@.len() == 0,
            config.incipit_host is None,
            config.addr is None,
            config.port is None,
            config.db_path is None,
    {
        Config {
            file_path: None,
            services: Vec::new(),
            incipit_host: None,
            addr: None,
            port: None,
            db_path: None,
        }
    }
}

impl Clone for Config {
    fn clone(&self) -> (copy: Self)
        ensures
            copy.file_path == self.file_path,
            copy.services@ == self.services@,
            copy.incipit_host == self.incipit_host,
            copy.addr == self.addr,
            copy.port == self.port,
            copy.db_path == self.db_path,
    {
        let mut services: Vec<ServiceConfig> = Vec::new();
        let count: usize = self.services.len();
        let mut i: usize = 0;
        while i < count
            invariant
                count == self.services@.len(),
                i <= count,
                services@.len() == i,
                forall|j: int| 0 <= j < i ==> #[trigger] services@[j] == self.services@[j],
            decreases count - i,
        {
            services.push(self.services[i].clone());
            i = i + 1;
        }
        assert(services@ =~= self.services@);
        Config {
            file_path: clone_text(&self.file_path),
            services,
            incipit_host: clone_text(&self.incipit_host),
            addr: self.addr,
            port: self.port,
            db_path: clone_text(&self.db_path),
        }
    }
}

impl HostMapping for Config {
    /// A configuration can be asked about every host.
    open spec fn accepts(&self, host: &str) -> bool {
        true
    }

    /// A configuration has one answer for each host.
    open spec fn maps(&self, host: &str, target: Target) -> bool {
        target == self.target_for(host@)
    }

    fn route(&self, host: &str) -> (target: Target) {
        let wanted: String = host.to_owned();
        let is_dashboard: bool = match &self.incipit_host {
            Some(dashboard) => *dashboard == wanted,
            None => false,
        };
        if is_dashboard {
            return Target::Incipit;
        }
        let ghost table = self.routing_table();
        let count: usize = self.services.len();
        let mut i: usize = 0;
        while i < count
            invariant
                count == self.services@.len(),
                i <= count,
                wanted@ == host@,
                self.dashboard() != Some(host@),
                table == self.routing_table(),
                forall|j: int| 0 <= j < i ==> (#[trigger] table[j]).0 != host@,
            decreases count - i,
        {
            if self.services[i].host == wanted {
                proof {
                    first_match_at(table, host@, i as int);
                }
                return Target::port(self.services[i].port);
            }
            i = i + 1;
        }
        proof {
            first_match_absent(table, host@);
        }
        Target::Unknown
    }
}

} // verus!
