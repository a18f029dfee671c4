//! Settings of a run that do not depend on the workload: where to listen,
//! what to connect to, how many clients and connections, rates, timeouts,
//! TLS, and how long to run.

use vstd::prelude::*;

verus! {

/// The protocol spoken to the service under test.
#[derive(Clone, Copy, Debug, PartialEq, Eq, Structural)]
pub enum Protocol {
    Echo,
    Memcache,
    PelikanRds,
    Ping,
    RedisResp,
    RedisInline,
    ThriftCache,
}

/// How much is logged.
#[derive(Clone, Copy, Debug, PartialEq, Eq, Structural)]
pub enum Level {
    Error,
    Warn,
    Info,
    Debug,
    Trace,
}

/// Run-wide settings. Durations of windows are in seconds, timeouts in
/// microseconds, rates per second; `None` for a rate means unlimited and for
/// `windows` means running until stopped.
#[derive(Clone, Debug)]
pub struct General {
    pub listen: Option<String>,
    pub admin: Option<String>,
    pub clients: usize,
    pub poolsize: usize,
    pub interval: usize,
    pub windows: Option<usize>,
    pub logging: Level,
    pub endpoints: Option<Vec<String>>,
    pub protocol: Protocol,
    pub request_ratelimit: Option<usize>,
    pub request_timeout: usize,
    pub connect_ratelimit: Option<usize>,
    pub connect_timeout: usize,
    pub soft_timeout: bool,
    pub close_rate: Option<usize>,
    pub tcp_nodelay: bool,
    pub tls_key: Option<String>,
    pub tls_cert: Option<String>,
    pub tls_ca: Option<String>,
    pub tls_session_cache_size: usize,
    pub waterfall: Option<String>,
}

impl General {
    /// The built-in settings: one client with one connection per endpoint,
    /// five windows of sixty seconds, memcache, informational logging,
    /// 200 ms timeouts, no rate limits, no TLS and no listeners.
    pub open spec fn is_builtin(&self) -> bool {
        &&& self.listen is None
        &&& self.admin is None
        &&& self.clients == 1
        &&& self.poolsize == 1
        &&& self.interval == 60
        &&& self.windows == Some(5usize)
        &&& self.logging == Level::Info
        &&& self.endpoints is None
        &&& self.protocol == Protocol::Memcache
        &&& self.request_ratelimit is None
        &&& self.request_timeout == 200_000
        &&& self.connect_ratelimit is None
        &&& self.connect_timeout == 200_000
        &&& !self.soft_timeout
        &&& self.close_rate is None
        &&& !self.tcp_nodelay
        &&& self.tls_key is None
        &&& self.tls_cert is None
        &&& self.tls_ca is None
        &&& self.tls_session_cache_size == 0
        &&& self.waterfall is None
    }
}

impl Default for General {
    fn default() -> (g: General)
        ensures
            g.is_builtin(),
    {
        General {
            listen: None,
            admin: None,
            clients: 1,
            poolsize: 1,
            interval: 60,
            windows: Some(5),
            logging: Level::Info,
            endpoints: None,
            protocol: Protocol::Memcache,
            request_ratelimit: None,
            request_timeout: 200_000,
            connect_ratelimit: None,
            connect_timeout: 200_000,
            soft_timeout: false,
            close_rate: None,
            tcp_nodelay: false,
            tls_key: None,
            tls_cert: None,
            tls_ca: None,
            tls_session_cache_size: 0,
            waterfall: None,
        }
    }
}

} // verus!
