//! Startup configuration: the fixed upstream address and the inclusive range
//! of local ports to listen on, together with the bind plan derived from it.
use vstd::prelude::*;

verus! {

/// Why a configuration was rejected at startup.
#[derive(Debug, PartialEq, Eq, Structural, Clone, Copy)]
pub enum ConfigError {
    /// The upstream address is the empty string.
    EmptyTarget,
    /// The start of the port range lies above its end.
    InvalidPortRange,
}

/// The immutable startup configuration shared by every connection handler:
/// one fixed upstream address and an inclusive port range. A single-port
/// deployment uses `start_port == end_port`.
#[derive(Debug)]
pub struct Config {
    pub target_addr: String,
    pub start_port: u16,
    pub end_port: u16,
}

impl Config {
    /// A configuration is well formed when the upstream address is non-empty
    /// and the port range is non-empty.
    pub open spec fn wf(self) -> bool {
        &&& self.target_addr@.len() > 0
        &&& self.start_port <= self.end_port
    }

    /// How many listening sockets the bind plan asks for.
    pub open spec fn port_count(self) -> int {
        self.end_port - self.start_port + 1
    }

    /// Validates and builds a configuration. Succeeds exactly when the
    /// upstream address is non-empty and the range is non-empty; an empty
    /// address is reported before a bad range.
    pub fn new(target_addr: String, start_port: u16, end_port: u16) -> (r: Result<Config, ConfigError>)
        ensures
            r is Ok <==> (target_addr@.len() > 0 && start_port <= end_port),
            r matches Ok(c) ==> c == (Config { target_addr, start_port, end_port }) && c.wf(),
            r matches Err(e) ==> (if target_addr@.len() == 0 {
                e == ConfigError::EmptyTarget
            } else {
                e == ConfigError::InvalidPortRange
            }),
    {
        if target_addr.as_str().is_empty() {
            Err(ConfigError::EmptyTarget)
        } else if start_port > end_port {
            Err(ConfigError::InvalidPortRange)
        } else {
            Ok(Config { target_addr, start_port, end_port })
        }
    }

    /// The bind plan: every port of the inclusive range, in ascending order.
    /// One listening socket is bound per entry; startup fails as a whole if
    /// any single bind fails.
    pub fn ports(&self) -> (r: Vec<u16>)
        requires
            self.wf(),
        ensures
            r@.len() == self.port_count(),
            forall|i: int| 0 <= i < r@.len() ==> r@[i] == self.start_port + i,
    {
        let n: usize = (self.end_port - self.start_port) as usize + 1;
        let mut r: Vec<u16> = Vec::new();
        let mut i: usize = 0;
        while i < n
            invariant
                n == self.port_count(),
                self.start_port + n - 1 <= u16::MAX,
                i <= n,
                r@.len() == i,
                forall|k: int| 0 <= k < i ==> r@[k] == self.start_port + k,
            decreases n - i,
        {
            r.push(self.start_port + i as u16);
            i = i + 1;
        }
        r
    }
}

/// Bind invariant: a bind plan for a valid range holds exactly
/// `end_port - start_port + 1` ports, pairwise distinct, so after a
/// successful startup exactly that many listening sockets are open, each on
/// its own port.
pub proof fn lemma_bind_plan_distinct(c: Config, ports: Seq<u16>)
    requires
        c.wf(),
        ports.len() == c.port_count(),
        forall|i: int| 0 <= i < ports.len() ==> ports[i] == c.start_port + i,
    ensures
        forall|i: int, j: int| 0 <= i < j < ports.len() ==> ports[i] != ports[j],
{
}

} // verus!
