//! Command-line settings and how they override a configuration.

use vstd::prelude::*;

use super::general::General;
use super::general::Level;
use super::general::Protocol;
use super::Config;
use crate::text::parse_usize;
use crate::text::parse_usize_spec;
use crate::text::str_equal;

verus! {

/// The settings given on the command line, as text where the text still has
/// to be read. Every `None` and `false` leaves the configuration as it is.
#[derive(Clone, Debug)]
pub struct Arguments {
    pub listen: Option<String>,
    pub admin: Option<String>,
    pub clients: Option<String>,
    pub interval: Option<String>,
    pub windows: Option<String>,
    pub poolsize: Option<String>,
    pub request_ratelimit: Option<String>,
    pub request_timeout: Option<String>,
    pub connect_ratelimit: Option<String>,
    pub connect_timeout: Option<String>,
    pub close_rate: Option<String>,
    pub soft_timeout: bool,
    pub endpoints: Option<Vec<String>>,
    /// How many times verbosity was raised.
    pub verbose: u64,
    /// Run until stopped, whatever the number of windows.
    pub service: bool,
    pub tcp_nodelay: bool,
    pub protocol: Option<String>,
    pub tls_key: Option<String>,
    pub tls_ca: Option<String>,
    pub tls_cert: Option<String>,
    pub waterfall: Option<String>,
    pub tls_session_cache_size: Option<String>,
}

/// The numeric settings of the command line.
#[derive(Clone, Copy, Debug, PartialEq, Eq, Structural)]
pub enum NumericArgument {
    Clients,
    Interval,
    Windows,
    Poolsize,
    RequestRatelimit,
    RequestTimeout,
    ConnectRatelimit,
    ConnectTimeout,
    CloseRate,
    TlsSessionCacheSize,
}

/// Why command-line settings cannot be applied.
#[derive(Clone, Copy, Debug, PartialEq, Eq, Structural)]
pub enum ArgumentError {
    /// The text of a numeric setting is not an unsigned number that fits in a
    /// `usize`.
    Unparsable(NumericArgument),
    /// The protocol is none of the known names.
    UnknownProtocol,
}

/// The protocol of a name: `echo`, `memcache`, `pelikan-rds`, `ping`, `redis`,
/// `redis-inline` or `thrift-cache`.
pub open spec fn protocol_named(name: Seq<char>) -> Option<Protocol> {
    if name == "echo"@ {
        Some(Protocol::Echo)
    } else if name == "memcache"@ {
        Some(Protocol::Memcache)
    } else if name == "pelikan-rds"@ {
        Some(Protocol::PelikanRds)
    } else if name == "ping"@ {
        Some(Protocol::Ping)
    } else if name == "redis"@ {
        Some(Protocol::RedisResp)
    } else if name == "redis-inline"@ {
        Some(Protocol::RedisInline)
    } else if name == "thrift-cache"@ {
        Some(Protocol::ThriftCache)
    } else {
        None
    }
}

/// The level of logging for a verbosity raised `verbose` times: informational
/// by default, debugging once, tracing more.
pub open spec fn verbosity_level(verbose: u64) -> Level {
    if verbose == 0 {
        Level::Info
    } else if verbose == 1 {
        Level::Debug
    } else {
        Level::Trace
    }
}

/// Whether an optional numeric setting can be read.
pub open spec fn readable(arg: Option<String>) -> bool {
    match arg {
        Some(s) => parse_usize_spec(s@) is Some,
        None => true,
    }
}

/// The number an optional numeric setting gives, or `current` when absent.
pub open spec fn number_or(arg: Option<String>, current: usize) -> usize {
    match arg {
        Some(s) => parse_usize_spec(s@).unwrap(),
        None => current,
    }
}

/// The number an optional numeric setting gives, as a limit, or `current`
/// when absent.
pub open spec fn limit_or(arg: Option<String>, current: Option<usize>) -> Option<usize> {
    match arg {
        Some(s) => parse_usize_spec(s@),
        None => current,
    }
}

/// A given text replaces the current one.
pub open spec fn text_or<T>(arg: Option<T>, current: Option<T>) -> Option<T> {
    match arg {
        Some(s) => Some(s),
        None => current,
    }
}

/// The first numeric setting, among those read before the endpoints, that
/// cannot be read: clients, interval, windows, poolsize, request rate limit,
/// request timeout, connect rate limit, connect timeout and close rate.
pub open spec fn early_argument_error(args: Arguments) -> Option<ArgumentError> {
    if !readable(args.clients) {
        Some(ArgumentError::Unparsable(NumericArgument::Clients))
    } else if !readable(args.interval) {
        Some(ArgumentError::Unparsable(NumericArgument::Interval))
    } else if !readable(args.windows) {
        Some(ArgumentError::Unparsable(NumericArgument::Windows))
    } else if !readable(args.poolsize) {
        Some(ArgumentError::Unparsable(NumericArgument::Poolsize))
    } else if !readable(args.request_ratelimit) {
        Some(ArgumentError::Unparsable(NumericArgument::RequestRatelimit))
    } else if !readable(args.request_timeout) {
        Some(ArgumentError::Unparsable(NumericArgument::RequestTimeout))
    } else if !readable(args.connect_ratelimit) {
        Some(ArgumentError::Unparsable(NumericArgument::ConnectRatelimit))
    } else if !readable(args.connect_timeout) {
        Some(ArgumentError::Unparsable(NumericArgument::ConnectTimeout))
    } else if !readable(args.close_rate) {
        Some(ArgumentError::Unparsable(NumericArgument::CloseRate))
    } else {
        None
    }
}

/// The first reason, in the order the settings are read, for which `args`
/// cannot be applied; `None` when they can.
pub open spec fn argument_error(args: Arguments) -> Option<ArgumentError> {
    if early_argument_error(args) is Some {
        early_argument_error(args)
    } else if args.protocol matches Some(p) && protocol_named(p@) is None {
        Some(ArgumentError::UnknownProtocol)
    } else if !readable(args.tls_session_cache_size) {
        Some(ArgumentError::Unparsable(NumericArgument::TlsSessionCacheSize))
    } else {
        None
    }
}

/// The settings `g` with the command-line settings `args` applied: every
/// given setting replaces the current one; the logging level always follows
/// the verbosity; flags only switch on; and `service` drops the number of
/// windows, whatever was given for it.
pub open spec fn overridden(g: General, args: Arguments) -> General {
    General {
        listen: text_or(args.listen, g.listen),
        admin: text_or(args.admin, g.admin),
        clients: number_or(args.clients, g.clients),
        poolsize: number_or(args.poolsize, g.poolsize),
        interval: number_or(args.interval, g.interval),
        windows: if args.service {
            None
        } else {
            limit_or(args.windows, g.windows)
        },
        logging: verbosity_level(args.verbose),
        endpoints: text_or(args.endpoints, g.endpoints),
        protocol: match args.protocol {
            Some(p) => protocol_named(p@).unwrap(),
            None => g.protocol,
        },
        request_ratelimit: limit_or(args.request_ratelimit, g.request_ratelimit),
        request_timeout: number_or(args.request_timeout, g.request_timeout),
        connect_ratelimit: limit_or(args.connect_ratelimit, g.connect_ratelimit),
        connect_timeout: number_or(args.connect_timeout, g.connect_timeout),
        soft_timeout: args.soft_timeout || g.soft_timeout,
        close_rate: limit_or(args.close_rate, g.close_rate),
        tcp_nodelay: args.tcp_nodelay || g.tcp_nodelay,
        tls_key: text_or(args.tls_key, g.tls_key),
        tls_cert: text_or(args.tls_cert, g.tls_cert),
        tls_ca: text_or(args.tls_ca, g.tls_ca),
        tls_session_cache_size: number_or(args.tls_session_cache_size, g.tls_session_cache_size),
        waterfall: text_or(args.waterfall, g.waterfall),
    }
}

/// The protocol of a name, or `None` when the name is unknown.
pub fn protocol_from_name(name: &str) -> (r: Option<Protocol>)
    ensures
        r == protocol_named(name@),
{
    if str_equal(name, "echo") {
        Some(Protocol::Echo)
    } else if str_equal(name, "memcache") {
        Some(Protocol::Memcache)
    } else if str_equal(name, "pelikan-rds") {
        Some(Protocol::PelikanRds)
    } else if str_equal(name, "ping") {
        Some(Protocol::Ping)
    } else if str_equal(name, "redis") {
        Some(Protocol::RedisResp)
    } else if str_equal(name, "redis-inline") {
        Some(Protocol::RedisInline)
    } else if str_equal(name, "thrift-cache") {
        Some(Protocol::ThriftCache)
    } else {
        None
    }
}

/// The logging level for a verbosity raised `verbose` times.
pub fn level_for_verbosity(verbose: u64) -> (r: Level)
    ensures
        r == verbosity_level(verbose),
{
    match verbose {
        0 => Level::Info,
        1 => Level::Debug,
        _ => Level::Trace,
    }
}

/// Reads an optional numeric setting: `Ok(None)` when absent, `Ok(Some(n))`
/// for the number `n`, `Err(())` when the text is not a number.
fn read_number(arg: &Option<String>) -> (r: Result<Option<usize>, ()>)
    ensures
        r is Ok <==> readable(*arg),
        r matches Ok(v) ==> v == match *arg {
            Some(s) => parse_usize_spec(s@),
            None => None::<usize>,
        },
{
    match arg {
        Some(s) => match parse_usize(s.as_str()) {
            Some(n) => Ok(Some(n)),
            None => Err(()),
        },
        None => Ok(None),
    }
}

impl Arguments {
    /// The first numeric setting read before the endpoints that cannot be
    /// read, if any.
    pub fn early_error(&self) -> (r: Option<ArgumentError>)
        ensures
            r == early_argument_error(*self),
    {
        if read_number(&self.clients).is_err() {
            Some(ArgumentError::Unparsable(NumericArgument::Clients))
        } else if read_number(&self.interval).is_err() {
            Some(ArgumentError::Unparsable(NumericArgument::Interval))
        } else if read_number(&self.windows).is_err() {
            Some(ArgumentError::Unparsable(NumericArgument::Windows))
        } else if read_number(&self.poolsize).is_err() {
            Some(ArgumentError::Unparsable(NumericArgument::Poolsize))
        } else if read_number(&self.request_ratelimit).is_err() {
            Some(ArgumentError::Unparsable(NumericArgument::RequestRatelimit))
        } else if read_number(&self.request_timeout).is_err() {
            Some(ArgumentError::Unparsable(NumericArgument::RequestTimeout))
        } else if read_number(&self.connect_ratelimit).is_err() {
            Some(ArgumentError::Unparsable(NumericArgument::ConnectRatelimit))
        } else if read_number(&self.connect_timeout).is_err() {
            Some(ArgumentError::Unparsable(NumericArgument::ConnectTimeout))
        } else if read_number(&self.close_rate).is_err() {
            Some(ArgumentError::Unparsable(NumericArgument::CloseRate))
        } else {
            None
        }
    }
}

/// The numbers and the protocol read from command-line settings.
struct ReadSettings {
    clients: Option<usize>,
    interval: Option<usize>,
    windows: Option<usize>,
    poolsize: Option<usize>,
    request_ratelimit: Option<usize>,
    request_timeout: Option<usize>,
    connect_ratelimit: Option<usize>,
    connect_timeout: Option<usize>,
    close_rate: Option<usize>,
    protocol: Option<Protocol>,
    tls_session_cache_size: Option<usize>,
}

/// What a numeric setting reads as, when it can be read.
spec fn read_as(arg: Option<String>) -> Option<usize> {
    match arg {
        Some(s) => parse_usize_spec(s@),
        None => None,
    }
}

/// `r` holds what `args` read as.
spec fn read_from(r: ReadSettings, args: Arguments) -> bool {
    &&& r.clients == read_as(args.clients)
    &&& r.interval == read_as(args.interval)
    &&& r.windows == read_as(args.windows)
    &&& r.poolsize == read_as(args.poolsize)
    &&& r.request_ratelimit == read_as(args.request_ratelimit)
    &&& r.request_timeout == read_as(args.request_timeout)
    &&& r.connect_ratelimit == read_as(args.connect_ratelimit)
    &&& r.connect_timeout == read_as(args.connect_timeout)
    &&& r.close_rate == read_as(args.close_rate)
    &&& r.protocol == match args.protocol {
        Some(p) => protocol_named(p@),
        None => None,
    }
    &&& r.tls_session_cache_size == read_as(args.tls_session_cache_size)
}

/// Reads every numeric setting and looks up the protocol, in order, stopping
/// at the first one that fails.
fn read_settings(args: &Arguments) -> (r: Result<ReadSettings, ArgumentError>)
    ensures
        match argument_error(*args) {
            Some(e) => r == Err::<ReadSettings, ArgumentError>(e),
            None => r matches Ok(v) && read_from(v, *args),
        },
{
    let clients = match read_number(&args.clients) {
        Ok(v) => v,
        Err(()) => {
            return Err(ArgumentError::Unparsable(NumericArgument::Clients));
        },
    };
    let interval = match read_number(&args.interval) {
        Ok(v) => v,
        Err(()) => {
            return Err(ArgumentError::Unparsable(NumericArgument::Interval));
        },
    };
    let windows = match read_number(&args.windows) {
        Ok(v) => v,
        Err(()) => {
            return Err(ArgumentError::Unparsable(NumericArgument::Windows));
        },
    };
    let poolsize = match read_number(&args.poolsize) {
        Ok(v) => v,
        Err(()) => {
            return Err(ArgumentError::Unparsable(NumericArgument::Poolsize));
        },
    };
    let request_ratelimit = match read_number(&args.request_ratelimit) {
        Ok(v) => v,
        Err(()) => {
            return Err(ArgumentError::Unparsable(NumericArgument::RequestRatelimit));
        },
    };
    let request_timeout = match read_number(&args.request_timeout) {
        Ok(v) => v,
        Err(()) => {
            return Err(ArgumentError::Unparsable(NumericArgument::RequestTimeout));
        },
    };
    let connect_ratelimit = match read_number(&args.connect_ratelimit) {
        Ok(v) => v,
        Err(()) => {
            return Err(ArgumentError::Unparsable(NumericArgument::ConnectRatelimit));
        },
    };
    let connect_timeout = match read_number(&args.connect_timeout) {
        Ok(v) => v,
        Err(()) => {
            return Err(ArgumentError::Unparsable(NumericArgument::ConnectTimeout));
        },
    };
    let close_rate = match read_number(&args.close_rate) {
        Ok(v) => v,
        Err(()) => {
            return Err(ArgumentError::Unparsable(NumericArgument::CloseRate));
        },
    };
    let protocol = match &args.protocol {
        Some(name) => match protocol_from_name(name.as_str()) {
            Some(p) => Some(p),
            None => {
                return Err(ArgumentError::UnknownProtocol);
            },
        },
        None => None,
    };
    let tls_session_cache_size = match read_number(&args.tls_session_cache_size) {
        Ok(v) => v,
        Err(()) => {
            return Err(ArgumentError::Unparsable(NumericArgument::TlsSessionCacheSize));
        },
    };
    Ok(
        ReadSettings {
            clients,
            interval,
            windows,
            poolsize,
            request_ratelimit,
            request_timeout,
            connect_ratelimit,
            connect_timeout,
            close_rate,
            protocol,
            tls_session_cache_size,
        },
    )
}

/// A read number, or `current`.
fn or_current(read: Option<usize>, current: usize) -> (r: usize)
    ensures
        r == match read {
            Some(n) => n,
            None => current,
        },
{
    match read {
        Some(n) => n,
        None => current,
    }
}

/// A read limit, or `current`.
fn or_current_limit(read: Option<usize>, current: Option<usize>) -> (r: Option<usize>)
    ensures
        r == match read {
            Some(n) => Some(n),
            None => current,
        },
{
    match read {
        Some(n) => Some(n),
        None => current,
    }
}

/// A given value, or `current`.
fn given_or<T>(given: Option<T>, current: Option<T>) -> (r: Option<T>)
    ensures
        r == text_or(given, current),
{
    match given {
        Some(t) => Some(t),
        None => current,
    }
}

/// The settings `g` with `args` applied, once `args` have been read.
fn override_general(g: General, args: Arguments, read: ReadSettings) -> (r: General)
    requires
        argument_error(args) is None,
        read_from(read, args),
    ensures
        r == overridden(g, args),
{
    let windows = if args.service {
        None
    } else {
        or_current_limit(read.windows, g.windows)
    };
    let protocol = match read.protocol {
        Some(p) => p,
        None => g.protocol,
    };
    General {
        listen: given_or(args.listen, g.listen),
        admin: given_or(args.admin, g.admin),
        clients: or_current(read.clients, g.clients),
        poolsize: or_current(read.poolsize, g.poolsize),
        interval: or_current(read.interval, g.interval),
        windows,
        logging: level_for_verbosity(args.verbose),
        endpoints: given_or(args.endpoints, g.endpoints),
        protocol,
        request_ratelimit: or_current_limit(read.request_ratelimit, g.request_ratelimit),
        request_timeout: or_current(read.request_timeout, g.request_timeout),
        connect_ratelimit: or_current_limit(read.connect_ratelimit, g.connect_ratelimit),
        connect_timeout: or_current(read.connect_timeout, g.connect_timeout),
        soft_timeout: args.soft_timeout || g.soft_timeout,
        close_rate: or_current_limit(read.close_rate, g.close_rate),
        tcp_nodelay: args.tcp_nodelay || g.tcp_nodelay,
        tls_key: given_or(args.tls_key, g.tls_key),
        tls_cert: given_or(args.tls_cert, g.tls_cert),
        tls_ca: given_or(args.tls_ca, g.tls_ca),
        tls_session_cache_size: or_current(read.tls_session_cache_size, g.tls_session_cache_size),
        waterfall: given_or(args.waterfall, g.waterfall),
    }
}

impl Config {
    /// Applies the command-line settings to the configuration: every numeric
    /// text is read first, and the protocol name looked up; when one cannot
    /// be, the configuration is left as it is and the first such setting is
    /// named; otherwise every given setting replaces the current one.
    pub fn apply_arguments(&mut self, args: Arguments) -> (r: Result<(), ArgumentError>)
        ensures
            match argument_error(args) {
                Some(e) => r == Err::<(), ArgumentError>(e) && *final(self) == *old(self),
                None => r is Ok && final(self).general == overridden(old(self).general, args)
                    && final(self).keyspace == old(self).keyspace,
            },
    {
        let read = match read_settings(&args) {
            Ok(read) => read,
            Err(e) => {
                return Err(e);
            },
        };
        let mut general = General::default();
        std::mem::swap(&mut general, &mut self.general);
        self.general = override_general(general, args, read);
        Ok(())
    }
}

/// No setting is given on the command line (verbosity aside).
pub open spec fn nothing_given(args: Arguments) -> bool {
    &&& args.listen is None
    &&& args.admin is None
    &&& args.clients is None
    &&& args.interval is None
    &&& args.windows is None
    &&& args.poolsize is None
    &&& args.request_ratelimit is None
    &&& args.request_timeout is None
    &&& args.connect_ratelimit is None
    &&& args.connect_timeout is None
    &&& args.close_rate is None
    &&& !args.soft_timeout
    &&& args.endpoints is None
    &&& !args.service
    &&& !args.tcp_nodelay
    &&& args.protocol is None
    &&& args.tls_key is None
    &&& args.tls_ca is None
    &&& args.tls_cert is None
    &&& args.waterfall is None
    &&& args.tls_session_cache_size is None
}

/// With nothing given on the command line, the settings can be applied and
/// only the logging level changes, to the one of the verbosity.
pub proof fn lemma_nothing_given(g: General, args: Arguments)
    requires
        nothing_given(args),
    ensures
        argument_error(args) is None,
        overridden(g, args) == (General { logging: verbosity_level(args.verbose), ..g }),
{
}

/// Service mode runs until stopped, whatever number of windows is given.
pub proof fn lemma_service_unbounded(g: General, args: Arguments)
    requires
        args.service,
    ensures
        overridden(g, args).windows is None,
{
}

/// Applying the same command-line settings a second time changes nothing:
/// they can be applied again, and give the same settings.
pub proof fn lemma_overridden_idempotent(g: General, args: Arguments)
    requires
        argument_error(args) is None,
    ensures
        overridden(overridden(g, args), args) == overridden(g, args),
{
}

/// A numeric setting `n` after applying `arg` over `old`: unchanged when not
/// given, the number read from the text when given.
pub open spec fn number_setting(arg: Option<String>, old: usize, n: usize) -> bool {
    &&& arg is None ==> n == old
    &&& arg matches Some(t) ==> parse_usize_spec(t@) == Some(n)
}

/// A limit setting `l` after applying `arg` over `old`: unchanged when not
/// given, the number read from the text when given.
pub open spec fn limit_setting(arg: Option<String>, old: Option<usize>, l: Option<usize>) -> bool {
    &&& arg is None ==> l == old
    &&& arg matches Some(t) ==> l is Some && parse_usize_spec(t@) == l
}

/// A text setting after applying `arg` over `old`: unchanged when not given,
/// the given text otherwise.
pub open spec fn text_setting<T>(arg: Option<T>, old: Option<T>, v: Option<T>) -> bool {
    &&& arg is None ==> v == old
    &&& arg is Some ==> v == arg
}

/// Each setting after applying command-line settings depends only on its own
/// command-line setting and its own value before: a setting not given keeps
/// its value, a given number is the number its text reads as, given texts
/// replace the old ones, flags can only be switched on, the logging level
/// follows the verbosity (informational, debugging once, tracing more), a
/// given protocol name is one of the seven known names and selects its
/// protocol, and service mode runs until stopped.
pub proof fn lemma_settings_frame(g: General, args: Arguments)
    requires
        argument_error(args) is None,
    ensures
        ({
            let r = overridden(g, args);
            &&& text_setting(args.listen, g.listen, r.listen)
            &&& text_setting(args.admin, g.admin, r.admin)
            &&& number_setting(args.clients, g.clients, r.clients)
            &&& number_setting(args.poolsize, g.poolsize, r.poolsize)
            &&& number_setting(args.interval, g.interval, r.interval)
            &&& (args.service ==> r.windows is None)
            &&& (!args.service ==> limit_setting(args.windows, g.windows, r.windows))
            &&& (args.verbose == 0 ==> r.logging == Level::Info)
            &&& (args.verbose == 1 ==> r.logging == Level::Debug)
            &&& (args.verbose >= 2 ==> r.logging == Level::Trace)
            &&& text_setting(args.endpoints, g.endpoints, r.endpoints)
            &&& (args.protocol is None ==> r.protocol == g.protocol)
            &&& (args.protocol matches Some(p) ==> {
                ||| p@ == "echo"@ && r.protocol == Protocol::Echo
                ||| p@ == "memcache"@ && r.protocol == Protocol::Memcache
                ||| p@ == "pelikan-rds"@ && r.protocol == Protocol::PelikanRds
                ||| p@ == "ping"@ && r.protocol == Protocol::Ping
                ||| p@ == "redis"@ && r.protocol == Protocol::RedisResp
                ||| p@ == "redis-inline"@ && r.protocol == Protocol::RedisInline
                ||| p@ == "thrift-cache"@ && r.protocol == Protocol::ThriftCache
            })
            &&& limit_setting(args.request_ratelimit, g.request_ratelimit, r.request_ratelimit)
            &&& number_setting(args.request_timeout, g.request_timeout, r.request_timeout)
            &&& limit_setting(args.connect_ratelimit, g.connect_ratelimit, r.connect_ratelimit)
            &&& number_setting(args.connect_timeout, g.connect_timeout, r.connect_timeout)
            &&& r.soft_timeout == (args.soft_timeout || g.soft_timeout)
            &&& limit_setting(args.close_rate, g.close_rate, r.close_rate)
            &&& r.tcp_nodelay == (args.tcp_nodelay || g.tcp_nodelay)
            &&& text_setting(args.tls_key, g.tls_key, r.tls_key)
            &&& text_setting(args.tls_cert, g.tls_cert, r.tls_cert)
            &&& text_setting(args.tls_ca, g.tls_ca, r.tls_ca)
            &&& number_setting(
                args.tls_session_cache_size,
                g.tls_session_cache_size,
                r.tls_session_cache_size,
            )
            &&& text_setting(args.waterfall, g.waterfall, r.waterfall)
        }),
{
}

/// The text a numeric setting was given as.
pub open spec fn numeric_text(args: Arguments, which: NumericArgument) -> Option<String> {
    match which {
        NumericArgument::Clients => args.clients,
        NumericArgument::Interval => args.interval,
        NumericArgument::Windows => args.windows,
        NumericArgument::Poolsize => args.poolsize,
        NumericArgument::RequestRatelimit => args.request_ratelimit,
        NumericArgument::RequestTimeout => args.request_timeout,
        NumericArgument::ConnectRatelimit => args.connect_ratelimit,
        NumericArgument::ConnectTimeout => args.connect_timeout,
        NumericArgument::CloseRate => args.close_rate,
        NumericArgument::TlsSessionCacheSize => args.tls_session_cache_size,
    }
}

/// Numeric setting `w` is absent or reads as a number that fits.
pub open spec fn numeric_readable(args: Arguments, w: NumericArgument) -> bool {
    match numeric_text(args, w) {
        Some(t) => parse_usize_spec(t@) is Some,
        None => true,
    }
}

/// The protocol is absent or has a known name.
pub open spec fn protocol_known(args: Arguments) -> bool {
    match args.protocol {
        Some(p) => protocol_named(p@) is Some,
        None => true,
    }
}

/// Command-line settings are refused exactly when a numeric setting is given
/// as a text that is not an unsigned number fitting in a `usize`, or the
/// protocol is given under an unknown name; the refusal names a setting that
/// is at fault.
pub proof fn lemma_argument_errors(args: Arguments)
    ensures
        argument_error(args) is None <==> (forall|w: NumericArgument|
            #[trigger] numeric_readable(args, w)) && protocol_known(args),
        argument_error(args) matches Some(ArgumentError::Unparsable(w)) ==> !numeric_readable(
            args,
            w,
        ),
        argument_error(args) == Some(ArgumentError::UnknownProtocol) ==> !protocol_known(args),
        early_argument_error(args) is Some ==> argument_error(args) == early_argument_error(args),
        early_argument_error(args) matches Some(e) ==> (e matches ArgumentError::Unparsable(w)
            && !numeric_readable(args, w)),
{
    if argument_error(args) is None {
        assert forall|w: NumericArgument| #[trigger] numeric_readable(args, w) by {
            match w {
                NumericArgument::Clients => {},
                NumericArgument::Interval => {},
                NumericArgument::Windows => {},
                NumericArgument::Poolsize => {},
                NumericArgument::RequestRatelimit => {},
                NumericArgument::RequestTimeout => {},
                NumericArgument::ConnectRatelimit => {},
                NumericArgument::ConnectTimeout => {},
                NumericArgument::CloseRate => {},
                NumericArgument::TlsSessionCacheSize => {},
            }
        }
    } else {
        assert(numeric_readable(args, NumericArgument::Clients) == readable(args.clients));
        assert(numeric_readable(args, NumericArgument::Interval) == readable(args.interval));
        assert(numeric_readable(args, NumericArgument::Windows) == readable(args.windows));
        assert(numeric_readable(args, NumericArgument::Poolsize) == readable(args.poolsize));
        assert(numeric_readable(args, NumericArgument::RequestRatelimit) == readable(
            args.request_ratelimit,
        ));
        assert(numeric_readable(args, NumericArgument::RequestTimeout) == readable(
            args.request_timeout,
        ));
        assert(numeric_readable(args, NumericArgument::ConnectRatelimit) == readable(
            args.connect_ratelimit,
        ));
        assert(numeric_readable(args, NumericArgument::ConnectTimeout) == readable(
            args.connect_timeout,
        ));
        assert(numeric_readable(args, NumericArgument::CloseRate) == readable(args.close_rate));
        assert(numeric_readable(args, NumericArgument::TlsSessionCacheSize) == readable(
            args.tls_session_cache_size,
        ));
    }
}

} // verus!
