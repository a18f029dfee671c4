//! The lines that describe a configuration when a run starts.

use vstd::prelude::*;

use super::workload::Keyspace;
use super::Config;
use crate::text::append_decimal;
use crate::text::all_digits;
use crate::text::decimal;
use crate::text::digits_value;
use crate::text::lemma_decimal_digits;
use crate::text::lemma_digits_value_decimal;

verus! {

/// A number as it is written in the lines.
pub open spec fn number_text(n: nat) -> Seq<char> {
    decimal(n)
}

/// A limit as it is written in the lines: the number, or `Unlimited`.
pub open spec fn limit_text(l: Option<usize>) -> Seq<char> {
    match l {
        Some(n) => number_text(n as nat),
        None => "Unlimited"@,
    }
}

/// A flag as it is written in the lines.
pub open spec fn flag_text(b: bool) -> Seq<char> {
    if b {
        "true"@
    } else {
        "false"@
    }
}

/// The line that says whether TLS is set up.
pub open spec fn tls_line(c: Config) -> Seq<char> {
    "Config: TLS: "@ + flag_text(
        c.general.tls_ca is Some && c.general.tls_cert is Some && c.general.tls_key is Some,
    )
}

/// The line with the number of clients, connections per endpoint and
/// endpoints.
pub open spec fn clients_line(c: Config, endpoints: usize) -> Seq<char> {
    "Config: Clients: "@ + number_text(c.general.clients as nat) + " Poolsize: "@ + number_text(
        c.general.poolsize as nat,
    ) + " Endpoints: "@ + number_text(endpoints as nat)
}

/// The line with the connections per endpoint, per client and in all.
pub open spec fn connections_line(c: Config, endpoints: usize) -> Seq<char> {
    "Config: Connections: Per-Endpoint: "@ + number_text(
        (c.general.clients * c.general.poolsize) as nat,
    ) + " Per-Client: "@ + number_text((c.general.poolsize * endpoints) as nat) + " Total: "@
        + number_text((c.general.clients * c.general.poolsize * endpoints) as nat)
}

/// The line with the rate limits.
pub open spec fn ratelimit_line(c: Config) -> Seq<char> {
    "Config: Ratelimit (/s): Connect: "@ + limit_text(c.general.connect_ratelimit)
        + " Request: "@ + limit_text(c.general.request_ratelimit)
}

/// The line with the timeouts and what happens on one.
pub open spec fn timeout_line(c: Config) -> Seq<char> {
    "Config: Timeout (us): Connect: "@ + number_text(c.general.connect_timeout as nat)
        + " Request: "@ + number_text(c.general.request_timeout as nat) + " Mode: "@ + (if c.general.soft_timeout {
        "Soft"@
    } else {
        "Hard"@
    })
}

/// The line with the interval, the number of windows and how long the run
/// lasts.
pub open spec fn interval_line(c: Config) -> Seq<char> {
    "Config: Interval: "@ + number_text(c.general.interval as nat) + " seconds Windows: "@
        + limit_text(c.general.windows) + " Runtime: "@ + match c.general.windows {
        Some(w) => number_text((c.general.interval * w) as nat) + " seconds"@,
        None => "Unlimited"@,
    }
}

/// The line that describes a keyspace.
pub open spec fn keyspace_line(k: Keyspace) -> Seq<char> {
    "Config: Keyspace: Length: "@ + number_text(k.length as nat) + " Commands: "@ + number_text(
        k.commands@.len(),
    ) + " Value Sizes: "@ + number_text(k.values@.len())
}

/// The lines that describe `c` for a run against `endpoints` endpoints: TLS,
/// clients, connections, rate limits, timeouts, interval, then one line per
/// keyspace.
pub open spec fn summary_lines_spec(c: Config, endpoints: usize) -> Seq<Seq<char>> {
    seq![
        tls_line(c),
        clients_line(c, endpoints),
        connections_line(c, endpoints),
        ratelimit_line(c),
        timeout_line(c),
        interval_line(c),
    ] + Seq::new(c.keyspace@.len(), |i: int| keyspace_line(c.keyspace@[i]))
}

/// The texts of a list of strings.
pub open spec fn texts(v: Seq<String>) -> Seq<Seq<char>> {
    v.map_values(|s: String| s@)
}

/// Appends `n` in decimal.
fn append_number(s: &mut String, n: usize)
    ensures
        final(s)@ == old(s)@ + number_text(n as nat),
{
    append_decimal(s, n as u64);
}

/// Appends a limit: the number, or `Unlimited`.
fn append_limit(s: &mut String, l: Option<usize>)
    ensures
        final(s)@ == old(s)@ + limit_text(l),
{
    match l {
        Some(n) => append_number(s, n),
        None => s.append("Unlimited"),
    }
}

impl Config {
    fn tls_text(&self) -> (s: String)
        ensures
            s@ == tls_line(*self),
    {
        let mut s = String::new();
        s.append("Config: TLS: ");
        if self.tls_enabled() {
            s.append("true");
        } else {
            s.append("false");
        }
        assert(s@ =~= tls_line(*self));
        s
    }

    fn clients_text(&self, endpoints: usize) -> (s: String)
        ensures
            s@ == clients_line(*self, endpoints),
    {
        let mut s = String::new();
        s.append("Config: Clients: ");
        append_number(&mut s, self.general.clients);
        s.append(" Poolsize: ");
        append_number(&mut s, self.general.poolsize);
        s.append(" Endpoints: ");
        append_number(&mut s, endpoints);
        assert(s@ =~= clients_line(*self, endpoints));
        s
    }

    fn connections_text(&self, endpoints: usize) -> (s: Option<String>)
        ensures
            match s {
                Some(s) => s@ == connections_line(*self, endpoints),
                None => self.general.clients * self.general.poolsize > usize::MAX
                    || self.general.poolsize * endpoints > usize::MAX || self.general.clients
                    * self.general.poolsize * endpoints > usize::MAX,
            },
    {
        let counts = match self.connections(endpoints) {
            Some(c) => c,
            None => {
                return None;
            },
        };
        let mut s = String::new();
        s.append("Config: Connections: Per-Endpoint: ");
        append_number(&mut s, counts.per_endpoint);
        s.append(" Per-Client: ");
        append_number(&mut s, counts.per_client);
        s.append(" Total: ");
        append_number(&mut s, counts.total);
        assert(s@ =~= connections_line(*self, endpoints));
        Some(s)
    }

    fn ratelimit_text(&self) -> (s: String)
        ensures
            s@ == ratelimit_line(*self),
    {
        let mut s = String::new();
        s.append("Config: Ratelimit (/s): Connect: ");
        append_limit(&mut s, self.general.connect_ratelimit);
        s.append(" Request: ");
        append_limit(&mut s, self.general.request_ratelimit);
        assert(s@ =~= ratelimit_line(*self));
        s
    }

    fn timeout_text(&self) -> (s: String)
        ensures
            s@ == timeout_line(*self),
    {
        let mut s = String::new();
        s.append("Config: Timeout (us): Connect: ");
        append_number(&mut s, self.general.connect_timeout);
        s.append(" Request: ");
        append_number(&mut s, self.general.request_timeout);
        s.append(" Mode: ");
        if self.general.soft_timeout {
            s.append("Soft");
        } else {
            s.append("Hard");
        }
        assert(s@ =~= timeout_line(*self));
        s
    }

    fn interval_text(&self) -> (s: Option<String>)
        ensures
            match s {
                Some(s) => s@ == interval_line(*self),
                None => self.general.windows matches Some(w) && self.general.interval * w
                    > usize::MAX,
            },
    {
        let runtime = match self.runtime() {
            Ok(r) => r,
            Err(()) => {
                return None;
            },
        };
        let mut s = String::new();
        s.append("Config: Interval: ");
        append_number(&mut s, self.general.interval);
        s.append(" seconds Windows: ");
        append_limit(&mut s, self.general.windows);
        s.append(" Runtime: ");
        match runtime {
            Some(seconds) => {
                append_number(&mut s, seconds);
                s.append(" seconds");
            },
            None => {
                s.append("Unlimited");
            },
        }
        assert(s@ =~= interval_line(*self));
        Some(s)
    }

    /// The lines that describe the configuration for a run against
    /// `endpoints` endpoints (after the protocol and the endpoints
    /// themselves); `None` when the connection counts or the runtime do not
    /// fit in a `usize`.
    pub fn summary_lines(&self, endpoints: usize) -> (r: Option<Vec<String>>)
        ensures
            match r {
                Some(lines) => texts(lines@) == summary_lines_spec(*self, endpoints),
                None => self.connections_overflow(endpoints) || self.runtime_overflows(),
            },
    {
        let connections = match self.connections_text(endpoints) {
            Some(s) => s,
            None => {
                return None;
            },
        };
        let interval = match self.interval_text() {
            Some(s) => s,
            None => {
                return None;
            },
        };
        let mut lines: Vec<String> = Vec::new();
        lines.push(self.tls_text());
        lines.push(self.clients_text(endpoints));
        lines.push(connections);
        lines.push(self.ratelimit_text());
        lines.push(self.timeout_text());
        lines.push(interval);
        let ghost head = seq![
            tls_line(*self),
            clients_line(*self, endpoints),
            connections_line(*self, endpoints),
            ratelimit_line(*self),
            timeout_line(*self),
            interval_line(*self),
        ];
        assert(texts(lines@) =~= head);
        let mut i: usize = 0;
        while i < self.keyspace.len()
            invariant
                i <= self.keyspace@.len(),
                texts(lines@) == head + Seq::new(
                    i as nat,
                    |j: int| keyspace_line(self.keyspace@[j]),
                ),
            decreases self.keyspace@.len() - i,
        {
            let k = &self.keyspace[i];
            let mut s = String::new();
            s.append("Config: Keyspace: Length: ");
            append_number(&mut s, k.length);
            s.append(" Commands: ");
            append_number(&mut s, k.commands.len());
            s.append(" Value Sizes: ");
            append_number(&mut s, k.values.len());
            assert(s@ =~= keyspace_line(self.keyspace@[i as int]));
            let ghost before = lines@;
            lines.push(s);
            assert(texts(lines@) =~= texts(before).push(s@));
            i = i + 1;
            assert(texts(lines@) =~= head + Seq::new(
                i as nat,
                |j: int| keyspace_line(self.keyspace@[j]),
            ));
        }
        Some(lines)
    }

    /// One of the connection counts for `endpoints` endpoints does not fit
    /// in a `usize`.
    pub open spec fn connections_overflow(&self, endpoints: usize) -> bool {
        self.general.clients * self.general.poolsize > usize::MAX || self.general.poolsize
            * endpoints > usize::MAX || self.general.clients * self.general.poolsize * endpoints
            > usize::MAX
    }

    /// The runtime does not fit in a `usize`.
    pub open spec fn runtime_overflows(&self) -> bool {
        self.general.windows matches Some(w) && self.general.interval * w > usize::MAX
    }
}

/// `t` is a run of digits that reads as `n`.
pub open spec fn reads_as(t: Seq<char>, n: nat) -> bool {
    &&& t.len() > 0
    &&& all_digits(t)
    &&& digits_value(t) == n
}

/// `t` is how a limit `l` reads: `Unlimited` without one, digits reading as
/// the limit otherwise.
pub open spec fn limit_reads_as(t: Seq<char>, l: Option<usize>) -> bool {
    match l {
        None => t == "Unlimited"@,
        Some(n) => reads_as(t, n as nat),
    }
}

/// `line` describes keyspace `k`, read back: its length, number of commands
/// and number of value shapes.
pub open spec fn keyspace_line_reads(line: Seq<char>, k: Keyspace) -> bool {
    exists|a: Seq<char>, b: Seq<char>, d: Seq<char>|
        line == "Config: Keyspace: Length: "@ + a + " Commands: "@ + b + " Value Sizes: "@ + d
            && reads_as(a, k.length as nat) && reads_as(b, k.commands@.len()) && reads_as(
            d,
            k.values@.len(),
        )
}

/// Numbers are written as digits that read back as the number.
pub proof fn lemma_number_text_reads(n: nat)
    ensures
        reads_as(number_text(n), n),
{
    lemma_decimal_digits(n);
    lemma_digits_value_decimal(n);
}

/// Limits are written as `Unlimited` or as digits that read back as the
/// limit.
pub proof fn lemma_limit_text_reads(l: Option<usize>)
    ensures
        limit_reads_as(limit_text(l), l),
{
    if let Some(n) = l {
        lemma_number_text_reads(n as nat);
    }
}

/// What the lines describing `c` for `endpoints` endpoints say, read back:
/// six lines and then one per keyspace, in order; each number in them reads
/// back as the setting it stands for: TLS is `true` exactly when a key, a
/// certificate and a certificate authority are all given; the clients,
/// connections per endpoint and endpoints; the connections per endpoint
/// (`clients * poolsize`), per client (`poolsize * endpoints`) and in all;
/// the connect rate limit then the request rate limit; the connect timeout
/// then the request timeout, and `Soft` or `Hard`; the interval, the windows
/// and the runtime (`interval * windows` seconds, or `Unlimited`); and each
/// keyspace's length, number of commands and number of value shapes.
pub proof fn lemma_summary_lines(c: Config, endpoints: usize)
    ensures
        summary_lines_spec(c, endpoints).len() == 6 + c.keyspace@.len(),
        summary_lines_spec(c, endpoints)[0] == "Config: TLS: "@ + (if c.general.tls_ca is Some && c.general.tls_cert is Some
                && c.general.tls_key is Some {
                "true"@
            } else {
                "false"@
            }),
        exists|a: Seq<char>, b: Seq<char>, d: Seq<char>|
                summary_lines_spec(c, endpoints)[1] == "Config: Clients: "@ + a + " Poolsize: "@ + b + " Endpoints: "@ + d
                    && reads_as(a, c.general.clients as nat) && reads_as(b, c.general.poolsize as nat)
                    && reads_as(d, endpoints as nat),
        exists|a: Seq<char>, b: Seq<char>, d: Seq<char>|
                summary_lines_spec(c, endpoints)[2] == "Config: Connections: Per-Endpoint: "@ + a + " Per-Client: "@ + b
                    + " Total: "@ + d && reads_as(a, (c.general.clients * c.general.poolsize) as nat) && reads_as(
                    b,
                    (c.general.poolsize * endpoints) as nat,
                ) && reads_as(d, (c.general.clients * c.general.poolsize * endpoints) as nat),
        exists|a: Seq<char>, b: Seq<char>|
                summary_lines_spec(c, endpoints)[3] == "Config: Ratelimit (/s): Connect: "@ + a + " Request: "@ + b
                    && limit_reads_as(a, c.general.connect_ratelimit) && limit_reads_as(
                    b,
                    c.general.request_ratelimit,
                ),
        exists|a: Seq<char>, b: Seq<char>|
                summary_lines_spec(c, endpoints)[4] == "Config: Timeout (us): Connect: "@ + a + " Request: "@ + b
                    + " Mode: "@ + (if c.general.soft_timeout {
                    "Soft"@
                } else {
                    "Hard"@
                }) && reads_as(a, c.general.connect_timeout as nat) && reads_as(
                    b,
                    c.general.request_timeout as nat,
                ),
        exists|a: Seq<char>, b: Seq<char>, d: Seq<char>|
                summary_lines_spec(c, endpoints)[5] == "Config: Interval: "@ + a + " seconds Windows: "@ + b + " Runtime: "@
                    + d && reads_as(a, c.general.interval as nat) && limit_reads_as(b, c.general.windows) && match c.general.windows {
                    None => d == "Unlimited"@,
                    Some(w) => exists|e: Seq<char>|
                        d == e + " seconds"@ && reads_as(e, (c.general.interval * w) as nat),
                },
        forall|i: int|
            0 <= i < c.keyspace@.len() ==> keyspace_line_reads(
                #[trigger] summary_lines_spec(c, endpoints)[6 + i],
                c.keyspace@[i],
            ),
{
    let g = c.general;
    let lines = summary_lines_spec(c, endpoints);
    lemma_number_text_reads(g.clients as nat);
    lemma_number_text_reads(g.poolsize as nat);
    lemma_number_text_reads(endpoints as nat);
    lemma_number_text_reads((g.clients * g.poolsize) as nat);
    lemma_number_text_reads((g.poolsize * endpoints) as nat);
    lemma_number_text_reads((g.clients * g.poolsize * endpoints) as nat);
    lemma_limit_text_reads(g.connect_ratelimit);
    lemma_limit_text_reads(g.request_ratelimit);
    lemma_number_text_reads(g.connect_timeout as nat);
    lemma_number_text_reads(g.request_timeout as nat);
    lemma_number_text_reads(g.interval as nat);
    lemma_limit_text_reads(g.windows);
    assert(lines[1] == "Config: Clients: "@ + number_text(g.clients as nat) + " Poolsize: "@
        + number_text(g.poolsize as nat) + " Endpoints: "@ + number_text(endpoints as nat));
    assert(lines[4] == "Config: Timeout (us): Connect: "@ + number_text(g.connect_timeout as nat)
        + " Request: "@ + number_text(g.request_timeout as nat) + " Mode: "@ + (if g.soft_timeout {
        "Soft"@
    } else {
        "Hard"@
    }));
    if let Some(w) = g.windows {
        lemma_number_text_reads((g.interval * w) as nat);
        let e = number_text((g.interval * w) as nat);
        assert(lines[5] == "Config: Interval: "@ + number_text(g.interval as nat)
            + " seconds Windows: "@ + limit_text(g.windows) + " Runtime: "@ + (e
            + " seconds"@));
    } else {
        assert(lines[5] == "Config: Interval: "@ + number_text(g.interval as nat)
            + " seconds Windows: "@ + limit_text(g.windows) + " Runtime: "@ + "Unlimited"@);
    }
    assert forall|i: int| 0 <= i < c.keyspace@.len() implies keyspace_line_reads(
        #[trigger] summary_lines_spec(c, endpoints)[6 + i],
        c.keyspace@[i],
    ) by {
        let k = c.keyspace@[i];
        lemma_number_text_reads(k.length as nat);
        lemma_number_text_reads(k.commands@.len());
        lemma_number_text_reads(k.values@.len());
        assert(summary_lines_spec(c, endpoints)[6 + i] == keyspace_line(k));
    }
}

} // verus!
