//! Host-to-target resolution.

use crate::address::{spec_unspecified, IpAddress, SocketAddress};
use vstd::prelude::*;

verus! {

/// The target to a mapping, which can be either a socket address, incipit itself or unknown.
#[derive(Clone, Copy, Debug, PartialEq, Eq, Structural)]
pub enum Target {
    Socket(SocketAddress),
    Incipit,
    Unknown,
}

/// The backend target on `0.0.0.0` with the given port.
pub open spec fn backend(port: u16) -> Target {
    Target::Socket(SocketAddress { ip: spec_unspecified(), port })
}

/// The port of the first row of `table` whose host is exactly `host`.
///
/// A row is a pair of a host name and the port its service listens on.
pub open spec fn first_match(table: Seq<(Seq<char>, u16)>, host: Seq<char>) -> Option<u16>
    decreases table.len(),
{
    if table.len() == 0 {
        None
    } else if table[0].0 == host {
        Some(table[0].1)
    } else {
        first_match(table.drop_first(), host)
    }
}

/// Resolution of `host` against a dashboard host and a routing table: the
/// dashboard wins, then the first matching row, else the host is unknown.
/// Hosts are compared exactly, character by character: no case folding, no
/// stripping of a port. Where two rows hold the same host, the earlier one
/// gets every request and the later one none.
pub open spec fn resolve(
    dashboard: Option<Seq<char>>,
    table: Seq<(Seq<char>, u16)>,
    host: Seq<char>,
) -> Target {
    if dashboard == Some(host) {
        Target::Incipit
    } else {
        match first_match(table, host) {
            Some(port) => backend(port),
            None => Target::Unknown,
        }
    }
}

/// A row that holds the host, with no such row before it, is the one found.
pub proof fn first_match_at(table: Seq<(Seq<char>, u16)>, host: Seq<char>, i: int)
    requires
        0 <= i < table.len(),
        table[i].0 == host,
        forall|j: int| 0 <= j < i ==> (#[trigger] table[j]).0 != host,
    ensures
        first_match(table, host) == Some(table[i].1),
    decreases table.len(),
{
    if i > 0 {
        let rest = table.drop_first();
        assert(table[0].0 != host);
        assert forall|j: int| 0 <= j < i - 1 implies (#[trigger] rest[j]).0 != host by {
            assert(table[j + 1].0 != host);
        }
        first_match_at(rest, host, i - 1);
    }
}

/// Where no row holds the host, nothing is found.
pub proof fn first_match_absent(table: Seq<(Seq<char>, u16)>, host: Seq<char>)
    requires
        forall|j: int| 0 <= j < table.len() ==> (#[trigger] table[j]).0 != host,
    ensures
        first_match(table, host) is None,
    decreases table.len(),
{
    if table.len() > 0 {
        let rest = table.drop_first();
        assert(table[0].0 != host);
        assert forall|j: int| 0 <= j < rest.len() implies (#[trigger] rest[j]).0 != host by {
            assert(table[j + 1].0 != host);
        }
        first_match_absent(rest, host);
    }
}

/// `first_match` finds the earliest row for the host: it answers `Some(port)`
/// exactly when some row `i` holds the host and that port while no row before
/// `i` holds the host, and `None` exactly when no row holds the host.
pub proof fn first_match_is_earliest(table: Seq<(Seq<char>, u16)>, host: Seq<char>)
    ensures
        first_match(table, host) is None <==> forall|i: int|
            0 <= i < table.len() ==> (#[trigger] table[i]).0 != host,
        forall|port: u16|
            first_match(table, host) == Some(port) <==> exists|i: int|
                0 <= i < table.len() && (#[trigger] table[i]) == (host, port) && forall|j: int|
                    0 <= j < i ==> (#[trigger] table[j]).0 != host,
    decreases table.len(),
{
    if table.len() == 0 {
    } else if table[0].0 == host {
        assert forall|port: u16| first_match(table, host) == Some(port) implies exists|i: int|
            0 <= i < table.len() && (#[trigger] table[i]) == (host, port) && forall|j: int|
                0 <= j < i ==> (#[trigger] table[j]).0 != host by {
            assert(table[0] == (host, port));
        }
    } else {
        let rest = table.drop_first();
        first_match_is_earliest(rest, host);
        assert forall|i: int| 0 <= i < rest.len() implies #[trigger] rest[i] == table[i + 1] by {}
        if first_match(rest, host) is None {
            assert forall|i: int| 0 <= i < table.len() implies (#[trigger] table[i]).0 != host by {
                if i > 0 {
                    assert(rest[i - 1].0 != host);
                }
            }
        } else {
            let port = first_match(rest, host).unwrap();
            let i = choose|i: int|
                0 <= i < rest.len() && (#[trigger] rest[i]) == (host, port) && forall|j: int|
                    0 <= j < i ==> (#[trigger] rest[j]).0 != host;
            assert(table[i + 1] == (host, port));
            assert forall|j: int| 0 <= j < i + 1 implies (#[trigger] table[j]).0 != host by {
                if j > 0 {
                    assert(rest[j - 1].0 != host);
                }
            }
        }
        assert forall|port: u16|
            (exists|i: int|
                0 <= i < table.len() && (#[trigger] table[i]) == (host, port) && forall|j: int|
                    0 <= j < i ==> (#[trigger] table[j]).0 != host) implies first_match(
            table,
            host,
        ) == Some(port) by {
            let i = choose|i: int|
                0 <= i < table.len() && (#[trigger] table[i]) == (host, port) && forall|j: int|
                    0 <= j < i ==> (#[trigger] table[j]).0 != host;
            assert(i > 0);
            assert(rest[i - 1] == (host, port));
            assert forall|j: int| 0 <= j < i - 1 implies (#[trigger] rest[j]).0 != host by {
                assert(table[j + 1].0 != host);
            }
        }
    }
}

/// The three outcomes of a resolution, each with the hosts that get it: the
/// dashboard's own host reaches the dashboard; a host that no row holds, and
/// that is not the dashboard's, is unknown; any other host reaches the port
/// of the earliest row that holds it, on `0.0.0.0`.
pub proof fn resolution_cases(
    dashboard: Option<Seq<char>>,
    table: Seq<(Seq<char>, u16)>,
    host: Seq<char>,
)
    ensures
        resolve(dashboard, table, host) is Incipit <==> dashboard == Some(host),
        resolve(dashboard, table, host) is Unknown <==> dashboard != Some(host) && forall|i: int|
            0 <= i < table.len() ==> (#[trigger] table[i]).0 != host,
        forall|port: u16|
            resolve(dashboard, table, host) == backend(port) <==> dashboard != Some(host)
                && exists|i: int|
                0 <= i < table.len() && (#[trigger] table[i]) == (host, port) && forall|j: int|
                    0 <= j < i ==> (#[trigger] table[j]).0 != host,
{
    first_match_is_earliest(table, host);
    assert forall|port: u16|
        resolve(dashboard, table, host) == backend(port) implies first_match(table, host) == Some(
        port,
    ) by {
        let found = first_match(table, host).unwrap();
        assert(backend(found) == backend(port));
    }
}

/// Whether no two rows of the table hold the same host.
pub open spec fn unique_hosts(table: Seq<(Seq<char>, u16)>) -> bool {
    forall|i: int, j: int|
        0 <= i < j < table.len() ==> (#[trigger] table[i]).0 != (#[trigger] table[j]).0
}

/// In a table without repeated hosts every row is reached: its host
/// resolves to its port, unless the host is the dashboard's.
pub proof fn unique_host_reaches_its_row(
    dashboard: Option<Seq<char>>,
    table: Seq<(Seq<char>, u16)>,
    i: int,
)
    requires
        unique_hosts(table),
        0 <= i < table.len(),
        dashboard != Some(table[i].0),
    ensures
        resolve(dashboard, table, table[i].0) == backend(table[i].1),
{
    first_match_at(table, table[i].0, i);
}

impl Target {
    /// Creates a new [`Target::Socket`] on 0.0.0.0 with the specified port.
    pub fn port(port: u16) -> (target: Target)
        ensures
            target == backend(port),
    {
        Target::Socket(SocketAddress { ip: IpAddress::unspecified(), port })
    }
}

impl Default for Target {
    fn default() -> (target: Target)
        ensures
            target == Target::Unknown,
    {
        Target::Unknown
    }
}

/// A mapping from hosts to targets.
///
/// This is used to determine where to forward requests based on the host header.
pub trait HostMapping {
    /// Whether the mapping can be asked about `host`.
    spec fn accepts(&self, host: &str) -> bool;

    /// Whether `target` is an answer of the mapping for `host`.
    spec fn maps(&self, host: &str, target: Target) -> bool;

    fn route(&self, host: &str) -> (target: Target)
        requires
            self.accepts(host),
        ensures
            self.maps(host, target),
    ;
}

/// Any function from hosts to targets is a mapping: it is asked where the
/// function may be called, and answers what the function may return.
impl<T> HostMapping for T where T: Fn(&str) -> Target {
    open spec fn accepts(&self, host: &str) -> bool {
        call_requires(*self, (host,))
    }

    open spec fn maps(&self, host: &str, target: Target) -> bool {
        call_ensures(*self, (host,), target)
    }

    fn route(&self, host: &str) -> (target: Target) {
        self(host)
    }
}

} // verus!
