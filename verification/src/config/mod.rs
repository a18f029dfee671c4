//! The configuration of a run and the generation of its requests.

pub mod arguments;
pub mod general;
pub mod generator;
pub mod summary;
pub mod workload;

pub use self::workload::default_value_class;
pub use self::workload::Action;
pub use self::workload::Class;
pub use self::workload::Command;
pub use self::workload::Keyspace;
pub use self::workload::Value;

pub use self::generator::is_generator_of;
pub use self::generator::key_count_spec;
pub use self::generator::Generator;
pub use self::generator::KeyspaceError;
pub use self::generator::KeyspaceGenerator;
pub use self::generator::ValueError;
pub use self::arguments::ArgumentError;
pub use self::arguments::Arguments;
pub use self::arguments::NumericArgument;
pub use self::general::General;
pub use self::general::Level;
pub use self::general::Protocol;

use vstd::prelude::*;

verus! {

/// The configuration of a run: run-wide settings and the keyspaces of the
/// workload.
#[derive(Clone, Debug)]
pub struct Config {
    pub general: General,
    pub keyspace: Vec<Keyspace>,
}

/// The connections that a run opens, by endpoint, by client and in all.
#[derive(Clone, Copy, Debug, PartialEq, Eq, Structural)]
pub struct ConnectionCounts {
    pub per_endpoint: usize,
    pub per_client: usize,
    pub total: usize,
}

/// A built-in command: `action` with weight one and no parameters.
pub open spec fn builtin_command(action: Action) -> Command {
    Command {
        action,
        weight: 1,
        ttl: None,
        items: None,
        watermark_low: None,
        watermark_high: None,
    }
}

impl Config {
    /// The built-in workload: one keyspace of keys of 8 digits, ten million
    /// of them, read and written with equal weight, with alphanumeric values
    /// of 64 characters; and the built-in run-wide settings.
    pub open spec fn is_builtin(&self) -> bool {
        &&& self.general.is_builtin()
        &&& self.keyspace@.len() == 1
        &&& self.keyspace@[0].length == 8
        &&& self.keyspace@[0].count == Some(10_000_000usize)
        &&& self.keyspace@[0].weight == 1
        &&& self.keyspace@[0].commands@ == seq![
            builtin_command(Action::Get),
            builtin_command(Action::SetKey),
        ]
        &&& self.keyspace@[0].values@ == seq![
            Value { length: 64, weight: 1, class: Class::Alphanumeric },
        ]
    }
}

impl Default for Config {
    fn default() -> (c: Config)
        ensures
            c.is_builtin(),
    {
        let get = Command {
            action: Action::Get,
            weight: 1,
            ttl: None,
            items: None,
            watermark_low: None,
            watermark_high: None,
        };
        let set = Command {
            action: Action::SetKey,
            weight: 1,
            ttl: None,
            items: None,
            watermark_low: None,
            watermark_high: None,
        };
        let value = Value { length: 64, weight: 1, class: default_value_class() };
        let mut commands: Vec<Command> = Vec::new();
        commands.push(get);
        commands.push(set);
        let mut values: Vec<Value> = Vec::new();
        values.push(value);
        let mut keyspace: Vec<Keyspace> = Vec::new();
        keyspace.push(
            Keyspace { length: 8, count: Some(10_000_000), weight: 1, commands, values },
        );
        let c = Config { general: General::default(), keyspace };
        assert(c.keyspace@[0].commands@ =~= seq![
            builtin_command(Action::Get),
            builtin_command(Action::SetKey),
        ]);
        assert(c.keyspace@[0].values@ =~= seq![
            Value { length: 64, weight: 1, class: Class::Alphanumeric },
        ]);
        c
    }
}

/// The same text, or both absent.
pub open spec fn same_text(a: Option<String>, b: Option<String>) -> bool {
    match (a, b) {
        (Some(x), Some(y)) => x@ == y@,
        (None, None) => true,
        _ => false,
    }
}

/// A copy of an optional text.
fn copy_text(t: &Option<String>) -> (r: Option<String>)
    ensures
        same_text(r, *t),
{
    match t {
        Some(s) => Some(s.clone()),
        None => None,
    }
}

/// The first keyspace of `ks` that cannot be turned into a generator is at
/// `i`, and fails with `e`.
pub open spec fn first_keyspace_error(ks: Seq<Keyspace>, i: int, e: KeyspaceError) -> bool {
    &&& 0 <= i < ks.len()
    &&& key_count_spec(ks[i]) == Err::<usize, KeyspaceError>(e)
    &&& forall|j: int| 0 <= j < i ==> #[trigger] key_count_spec(ks[j]) is Ok
}

impl Config {
    /// the duration of each integration window in seconds
    pub fn interval(&self) -> (r: usize)
        ensures
            r == self.general.interval,
    {
        self.general.interval
    }

    /// the number of integration periods to run for
    pub fn windows(&self) -> (r: Option<usize>)
        ensures
            r == self.general.windows,
    {
        self.general.windows
    }

    /// the number of client threads to launch
    pub fn clients(&self) -> (r: usize)
        ensures
            r == self.general.clients,
    {
        self.general.clients
    }

    /// the number of connections per-endpoint for each client
    pub fn poolsize(&self) -> (r: usize)
        ensures
            r == self.general.poolsize,
    {
        self.general.poolsize
    }

    /// get logging level
    pub fn logging(&self) -> (r: Level)
        ensures
            r == self.general.logging,
    {
        self.general.logging
    }

    pub fn protocol(&self) -> (r: Protocol)
        ensures
            r == self.general.protocol,
    {
        self.general.protocol
    }

    pub fn request_ratelimit(&self) -> (r: Option<usize>)
        ensures
            r == self.general.request_ratelimit,
    {
        self.general.request_ratelimit
    }

    pub fn request_timeout(&self) -> (r: usize)
        ensures
            r == self.general.request_timeout,
    {
        self.general.request_timeout
    }

    pub fn connect_timeout(&self) -> (r: usize)
        ensures
            r == self.general.connect_timeout,
    {
        self.general.connect_timeout
    }

    pub fn connect_ratelimit(&self) -> (r: Option<usize>)
        ensures
            r == self.general.connect_ratelimit,
    {
        self.general.connect_ratelimit
    }

    pub fn soft_timeout(&self) -> (r: bool)
        ensures
            r == self.general.soft_timeout,
    {
        self.general.soft_timeout
    }

    pub fn close_rate(&self) -> (r: Option<usize>)
        ensures
            r == self.general.close_rate,
    {
        self.general.close_rate
    }

    pub fn tcp_nodelay(&self) -> (r: bool)
        ensures
            r == self.general.tcp_nodelay,
    {
        self.general.tcp_nodelay
    }

    pub fn tls_key(&self) -> (r: Option<String>)
        ensures
            same_text(r, self.general.tls_key),
    {
        copy_text(&self.general.tls_key)
    }

    pub fn tls_cert(&self) -> (r: Option<String>)
        ensures
            same_text(r, self.general.tls_cert),
    {
        copy_text(&self.general.tls_cert)
    }

    pub fn tls_ca(&self) -> (r: Option<String>)
        ensures
            same_text(r, self.general.tls_ca),
    {
        copy_text(&self.general.tls_ca)
    }

    pub fn tls_session_cache_size(&self) -> (r: usize)
        ensures
            r == self.general.tls_session_cache_size,
    {
        self.general.tls_session_cache_size
    }

    pub fn waterfall(&self) -> (r: Option<String>)
        ensures
            same_text(r, self.general.waterfall),
    {
        copy_text(&self.general.waterfall)
    }

    /// Whether TLS is set up: a key, a certificate and a certificate
    /// authority are all given.
    pub fn tls_enabled(&self) -> (r: bool)
        ensures
            r == (self.general.tls_ca is Some && self.general.tls_cert is Some
                && self.general.tls_key is Some),
    {
        self.general.tls_ca.is_some() && self.general.tls_cert.is_some()
            && self.general.tls_key.is_some()
    }

    /// The connections opened against `endpoints` endpoints: `clients *
    /// poolsize` per endpoint, `poolsize * endpoints` per client and
    /// `clients * poolsize * endpoints` in all; `None` when one of these does
    /// not fit in a `usize`.
    pub fn connections(&self, endpoints: usize) -> (r: Option<ConnectionCounts>)
        ensures
            match r {
                Some(c) => c.per_endpoint == self.general.clients * self.general.poolsize
                    && c.per_client == self.general.poolsize * endpoints && c.total
                    == self.general.clients * self.general.poolsize * endpoints,
                None => self.general.clients * self.general.poolsize > usize::MAX
                    || self.general.poolsize * endpoints > usize::MAX
                    || self.general.clients * self.general.poolsize * endpoints > usize::MAX,
            },
    {
        let per_endpoint = match self.general.clients.checked_mul(self.general.poolsize) {
            Some(n) => n,
            None => {
                return None;
            },
        };
        let per_client = match self.general.poolsize.checked_mul(endpoints) {
            Some(n) => n,
            None => {
                return None;
            },
        };
        let total = match per_endpoint.checked_mul(endpoints) {
            Some(n) => n,
            None => {
                return None;
            },
        };
        Some(ConnectionCounts { per_endpoint, per_client, total })
    }

    /// How long the run lasts, in seconds: `interval` times `windows`;
    /// `Ok(None)` when it runs until stopped, `Err(())` when the product does
    /// not fit in a `usize`.
    pub fn runtime(&self) -> (r: Result<Option<usize>, ()>)
        ensures
            match self.general.windows {
                None => r == Ok::<Option<usize>, ()>(None),
                Some(w) => if self.general.interval * w <= usize::MAX {
                    r == Ok::<Option<usize>, ()>(Some((self.general.interval * w) as usize))
                } else {
                    r is Err
                },
            },
    {
        match self.general.windows {
            None => Ok(None),
            Some(w) => match self.general.interval.checked_mul(w) {
                Some(n) => Ok(Some(n)),
                None => Err(()),
            },
        }
    }

    /// Turns every keyspace into a generator, in order, each as
    /// `Keyspace::generator` makes it; fails with the error of the first
    /// keyspace whose keys cannot be numbered, as `Keyspace::generator`
    /// reports it.
    pub fn generator(&self) -> (r: Result<Generator, KeyspaceError>)
        requires
            forall|i: int| 0 <= i < self.keyspace@.len() ==> #[trigger] self.keyspace@[i].count
                != Some(0usize),
        ensures
            match r {
                Ok(g) => g.keyspaces@.len() == self.keyspace@.len() && forall|i: int|
                    0 <= i < self.keyspace@.len() ==> is_generator_of(
                        #[trigger] g.keyspaces@[i],
                        self.keyspace@[i],
                    ),
                Err(e) => exists|i: int| first_keyspace_error(self.keyspace@, i, e),
            },
    {
        let mut keyspaces: Vec<KeyspaceGenerator> = Vec::new();
        let mut i: usize = 0;
        while i < self.keyspace.len()
            invariant
                i <= self.keyspace@.len(),
                keyspaces@.len() == i,
                forall|j: int| 0 <= j < self.keyspace@.len() ==> #[trigger] self.keyspace@[j].count
                    != Some(0usize),
                forall|j: int|
                    0 <= j < i ==> is_generator_of(#[trigger] keyspaces@[j], self.keyspace@[j]),
            decreases self.keyspace@.len() - i,
        {
            assert(self.keyspace@[i as int].count != Some(0usize));
            match self.keyspace[i].generator() {
                Ok(g) => {
                    keyspaces.push(g);
                },
                Err(e) => {
                    assert forall|j: int| 0 <= j < i implies #[trigger] key_count_spec(
                        self.keyspace@[j],
                    ) is Ok by {
                        assert(is_generator_of(keyspaces@[j], self.keyspace@[j]));
                    }
                    assert(first_keyspace_error(self.keyspace@, i as int, e));
                    return Err(e);
                },
            }
            i = i + 1;
        }
        Ok(Generator { keyspaces })
    }
}

} // verus!
