//! Keyspace generators and the drawing of requests from them.

use rand::rngs::ThreadRng;
use vstd::prelude::*;

use super::workload::Action;
use super::workload::Class;
use super::workload::Command;
use super::workload::Keyspace;
use super::workload::Value;
use crate::codec;
use crate::random::alphanumeric_string;
use crate::random::choose_weighted_index;
use crate::random::gen_range_u64;
use crate::random::is_alphanumeric;
use crate::random::sample_below;
use crate::random::weight_sum;
use crate::random::weights_pickable;
use crate::text::all_digits;
use crate::text::decimal;
use crate::text::lemma_parse_zero_padded;
use crate::text::lemma_zero_padded_injective;
use crate::text::lemma_zero_padded_shape;
use crate::text::parse_usize_spec;
use crate::text::decimal_string;
use crate::text::pow10;
use crate::text::zero_padded;
use crate::text::zero_padded_string;

verus! {

/// Why a keyspace cannot be turned into a generator.
#[derive(Clone, Copy, Debug, PartialEq, Eq, Structural)]
pub enum KeyspaceError {
    /// `count` distinct keys need more digits than `length`.
    CountTooLarge { length: usize, count: usize },
    /// Without a count, every key of `length` digits is used, and there are
    /// more of them than a `usize` can count.
    LengthTooLarge { length: usize },
}

/// Why a value string cannot be drawn.
#[derive(Clone, Copy, Debug, PartialEq, Eq, Structural)]
pub enum ValueError {
    /// An integer value was picked whose length is not that of an unsigned
    /// integer (1, 2, 4 or 8 bytes).
    UnsupportedIntegerLength { length: usize },
}

/// A keyspace ready to draw keys, commands and values from.
///
/// Keys are the numbers below `key_count`, written in decimal and padded with
/// zeros to `length` characters.
pub struct KeyspaceGenerator {
    pub length: usize,
    pub weight: usize,
    pub key_count: usize,
    pub commands: Vec<Command>,
    pub values: Vec<Value>,
}

/// Draws requests from a set of keyspaces.
pub struct Generator {
    pub keyspaces: Vec<KeyspaceGenerator>,
}

// ---------------------------------------------------------------------------
// Model
// ---------------------------------------------------------------------------

/// The weights of a list of commands.
pub open spec fn command_weights(cs: Seq<Command>) -> Seq<usize> {
    cs.map_values(|c: Command| c.weight)
}

/// The weights of a list of values.
pub open spec fn value_weights(vs: Seq<Value>) -> Seq<usize> {
    vs.map_values(|v: Value| v.weight)
}

/// The weights of a list of keyspace generators.
pub open spec fn keyspace_weights(ks: Seq<KeyspaceGenerator>) -> Seq<usize> {
    ks.map_values(|k: KeyspaceGenerator| k.weight)
}

/// The number of distinct keys of a keyspace, or why there is none: with a
/// count, the count, provided it can be written in `length` digits (it is at
/// most `10^length`); without one, `10^length`, provided it fits in a `usize`.
/// Counts are compared with `10^length` exactly, in integer arithmetic, so a
/// count just above a power of ten is refused for that many digits.
pub open spec fn key_count_spec(ks: Keyspace) -> Result<usize, KeyspaceError> {
    match ks.count {
        Some(c) => if c > pow10(ks.length as nat) {
            Err(KeyspaceError::CountTooLarge { length: ks.length, count: c })
        } else {
            Ok(c)
        },
        None => if pow10(ks.length as nat) > usize::MAX {
            Err(KeyspaceError::LengthTooLarge { length: ks.length })
        } else {
            Ok(pow10(ks.length as nat) as usize)
        },
    }
}

/// `g` is the generator of keyspace `ks`: same length, weight, commands and
/// values, and the key count that `key_count_spec` gives.
pub open spec fn is_generator_of(g: KeyspaceGenerator, ks: Keyspace) -> bool {
    &&& key_count_spec(ks) == Ok::<usize, KeyspaceError>(g.key_count)
    &&& g.length == ks.length
    &&& g.weight == ks.weight
    &&& g.commands@ == ks.commands@
    &&& g.values@ == ks.values@
}

/// `k` is a key of `g`: the zero-padded decimal form of a number below its key
/// count.
pub open spec fn is_key(g: KeyspaceGenerator, k: Seq<char>) -> bool {
    exists|i: nat| i < g.key_count && k == #[trigger] zero_padded(i, g.length as nat)
}

/// The numbers an integer value of `length` bytes is drawn below: the largest
/// unsigned integer of that many bytes (itself excluded).
pub open spec fn integer_bound(length: usize) -> nat {
    if length == 1 {
        0xff
    } else if length == 2 {
        0xffff
    } else if length == 4 {
        0xffff_ffff
    } else {
        0xffff_ffff_ffff_ffff
    }
}

/// The byte lengths for which integer values exist.
pub open spec fn integer_length(length: usize) -> bool {
    length == 1 || length == 2 || length == 4 || length == 8
}

/// Strings can be drawn for value `v`: it is alphanumeric, or an integer of
/// 1, 2, 4 or 8 bytes.
pub open spec fn supported_value(v: Value) -> bool {
    v.class == Class::Alphanumeric || integer_length(v.length)
}

/// `s` has the shape of value `v`: `length` letters and digits for an
/// alphanumeric value; for an integer value of a supported length, the
/// decimal form of a number below the largest unsigned integer of that
/// length. No string has the shape of an integer value of another length.
pub open spec fn fits_value(v: Value, s: Seq<char>) -> bool {
    match v.class {
        Class::Alphanumeric => s.len() == v.length && forall|i: int|
            0 <= i < s.len() ==> is_alphanumeric(#[trigger] s[i]),
        Class::Integer => integer_length(v.length) && exists|n: nat|
            n < integer_bound(v.length) && s == #[trigger] decimal(n),
    }
}

/// `r` is what drawing a string for value `v` may give: a string of the
/// shape of `v` when strings can be drawn for it, and otherwise the error
/// naming its length.
pub open spec fn value_outcome(v: Value, r: Result<String, ValueError>) -> bool {
    &&& (r is Ok <==> supported_value(v))
    &&& match r {
        Ok(s) => fits_value(v, s@),
        Err(e) => e == ValueError::UnsupportedIntegerLength { length: v.length },
    }
}

/// `s` has the shape of one of the values in `vs` that can be picked.
pub open spec fn is_value_string(vs: Seq<Value>, s: Seq<char>) -> bool {
    exists|i: int| 0 <= i < vs.len() && #[trigger] vs[i].weight > 0 && fits_value(vs[i], s)
}

/// Every integer value of `vs` that can be picked has the length of an
/// unsigned integer.
pub open spec fn integers_fit(vs: Seq<Value>) -> bool {
    forall|i: int|
        0 <= i < vs.len() && #[trigger] vs[i].weight > 0 && vs[i].class == Class::Integer
            ==> integer_length(vs[i].length)
}

/// An integer value of `vs` that can be picked has `length`, which is not
/// the length of an unsigned integer.
pub open spec fn unsupported_integer(vs: Seq<Value>, length: usize) -> bool {
    &&& !integer_length(length)
    &&& exists|i: int|
        0 <= i < vs.len() && #[trigger] vs[i].weight > 0 && vs[i].class == Class::Integer
            && vs[i].length == length
}

/// What a failed draw of value strings from `vs` says: an integer value that
/// can be picked has an unsupported length.
pub open spec fn value_error_of(vs: Seq<Value>, e: ValueError) -> bool {
    match e {
        ValueError::UnsupportedIntegerLength { length } => unsupported_integer(vs, length),
    }
}

/// The `items` of a command, or `default` when it has none.
pub open spec fn items_or(c: Command, default: usize) -> usize {
    match c.items {
        Some(n) => n,
        None => default,
    }
}

/// How many value strings a command draws.
pub open spec fn value_draws(c: Command) -> nat {
    match c.action {
        Action::Hset | Action::Lpush | Action::Lpushx | Action::Rpush | Action::Rpushx
        | Action::SarrayInsert | Action::SarrayRemove => items_or(c, 1) as nat,
        Action::SetKey | Action::SarrayFind => 1,
        _ => 0,
    }
}

/// A request can be drawn for command `c` of `g` without a failed pick: a
/// value can be picked whenever the command draws values or value shapes.
pub open spec fn command_ready(g: KeyspaceGenerator, c: Command) -> bool {
    (value_draws(c) > 0 || c.action == Action::SarrayCreate) ==> weights_pickable(
        value_weights(g.values@),
    )
}

/// Every key drawn from `g` has a number below its count, and a command can be
/// picked from it, and any picked command can be served.
pub open spec fn keyspace_ready(g: KeyspaceGenerator) -> bool {
    &&& g.key_count > 0
    &&& weights_pickable(command_weights(g.commands@))
    &&& forall|j: int|
        0 <= j < g.commands@.len() && #[trigger] g.commands@[j].weight > 0 ==> command_ready(
            g,
            g.commands@[j],
        )
}

/// Every key in `ks` is a key of `g`, and there are `n` of them.
pub open spec fn keys_of(g: KeyspaceGenerator, ks: Seq<String>, n: nat) -> bool {
    &&& ks.len() == n
    &&& forall|i: int| 0 <= i < ks.len() ==> is_key(g, #[trigger] ks[i]@)
}

/// Every string in `vs` is a value string of `g`, and there are `n` of them.
pub open spec fn values_of(g: KeyspaceGenerator, vs: Seq<String>, n: nat) -> bool {
    &&& vs.len() == n
    &&& forall|i: int| 0 <= i < vs.len() ==> is_value_string(g.values@, #[trigger] vs[i]@)
}

/// A value of `vs` that can be picked has length `len`.
pub open spec fn is_value_length(vs: Seq<Value>, len: usize) -> bool {
    exists|i: int| 0 <= i < vs.len() && #[trigger] vs[i].weight > 0 && vs[i].length == len
}

/// `r` is a request that command `c` of `g` produces: the variant of its
/// action, a key of `g`, `items` fields and values (one when the command sets
/// none), the command's time-to-live and watermarks, and for ranges and
/// truncation the command's `items`.
pub open spec fn is_request(g: KeyspaceGenerator, c: Command, r: codec::Command) -> bool {
    let n = items_or(c, 1) as nat;
    match c.action {
        Action::Delete => r matches codec::Command::Delete { key } && is_key(g, key@),
        Action::Get => r matches codec::Command::Get { key } && is_key(g, key@),
        Action::Hdel => r matches codec::Command::Hdel { key, fields } && is_key(g, key@)
            && keys_of(g, fields@, n),
        Action::Hget => r matches codec::Command::Hget { key, fields } && is_key(g, key@)
            && keys_of(g, fields@, n),
        Action::Hset => r matches codec::Command::Hset { key, fields, values, ttl } && is_key(
            g,
            key@,
        ) && keys_of(g, fields@, n) && values_of(g, values@, n) && ttl == c.ttl,
        Action::Llen => r matches codec::Command::Llen { key } && is_key(g, key@),
        Action::Lpush => r matches codec::Command::Lpush { key, values } && is_key(g, key@)
            && values_of(g, values@, n),
        Action::Lpushx => r matches codec::Command::Lpushx { key, values } && is_key(g, key@)
            && values_of(g, values@, n),
        Action::Lrange => r matches codec::Command::Lrange { key, start, stop } && is_key(g, key@)
            && start == 0 && stop == items_or(c, 1),
        Action::Ltrim => r matches codec::Command::Ltrim { key, start, stop } && is_key(g, key@)
            && start == 0 && stop == items_or(c, 1),
        Action::Rpush => r matches codec::Command::Rpush { key, values } && is_key(g, key@)
            && values_of(g, values@, n),
        Action::Rpushx => r matches codec::Command::Rpushx { key, values } && is_key(g, key@)
            && values_of(g, values@, n),
        Action::SetKey => r matches codec::Command::SetKey { key, value, ttl } && is_key(g, key@)
            && is_value_string(g.values@, value@) && ttl == c.ttl,
        Action::SarrayCreate => r matches codec::Command::SarrayCreate {
            key,
            esize,
            watermark_low,
            watermark_high,
        } && is_key(g, key@) && is_value_length(g.values@, esize) && watermark_low
            == c.watermark_low && watermark_high == c.watermark_high,
        Action::SarrayDelete => r matches codec::Command::SarrayDelete { key } && is_key(g, key@),
        Action::SarrayFind => r matches codec::Command::SarrayFind { key, value } && is_key(
            g,
            key@,
        ) && is_value_string(g.values@, value@),
        Action::SarrayGet => r matches codec::Command::SarrayGet { key, index, count } && is_key(
            g,
            key@,
        ) && index is None && count == (match c.items {
            Some(v) => Some(v as u64),
            None => None,
        }),
        Action::SarrayInsert => r matches codec::Command::SarrayInsert { key, values } && is_key(
            g,
            key@,
        ) && values_of(g, values@, n),
        Action::SarrayLen => r matches codec::Command::SarrayLen { key } && is_key(g, key@),
        Action::SarrayRemove => r matches codec::Command::SarrayRemove { key, values } && is_key(
            g,
            key@,
        ) && values_of(g, values@, n),
        Action::SarrayTruncate => r matches codec::Command::SarrayTruncate { key, count }
            && is_key(g, key@) && count == items_or(c, 0) as u64,
    }
}

// ---------------------------------------------------------------------------
// Arithmetic on powers of ten
// ---------------------------------------------------------------------------

/// Powers of ten grow with the exponent.
pub proof fn lemma_pow10_monotonic(a: nat, b: nat)
    requires
        a <= b,
    ensures
        pow10(a) <= pow10(b),
    decreases b,
{
    if a < b {
        lemma_pow10_monotonic(a, (b - 1) as nat);
        assert(pow10(b) == 10 * pow10((b - 1) as nat));
    }
}

/// Whether `count` is at most `10^length`.
fn at_most_pow10(count: usize, length: usize) -> (r: bool)
    ensures
        r == (count <= pow10(length as nat)),
{
    let mut p: usize = 1;
    let mut k: usize = 0;
    while k < length && p < count
        invariant
            k <= length,
            p == pow10(k as nat),
        decreases length - k,
    {
        match p.checked_mul(10) {
            None => {
                proof {
                    assert(pow10((k + 1) as nat) == 10 * pow10(k as nat));
                    lemma_pow10_monotonic((k + 1) as nat, length as nat);
                }
                return true;
            },
            Some(q) => {
                proof {
                    assert(pow10((k + 1) as nat) == 10 * pow10(k as nat));
                }
                p = q;
                k = k + 1;
            },
        }
    }
    proof {
        lemma_pow10_monotonic(k as nat, length as nat);
    }
    count <= p
}

/// `10^length`, when it fits in a `usize`.
fn pow10_usize(length: usize) -> (r: Option<usize>)
    ensures
        r == (if pow10(length as nat) <= usize::MAX {
            Some(pow10(length as nat) as usize)
        } else {
            None::<usize>
        }),
{
    let mut p: usize = 1;
    let mut k: usize = 0;
    while k < length
        invariant
            k <= length,
            p == pow10(k as nat),
        decreases length - k,
    {
        proof {
            assert(pow10((k + 1) as nat) == 10 * pow10(k as nat));
        }
        match p.checked_mul(10) {
            None => {
                proof {
                    lemma_pow10_monotonic((k + 1) as nat, length as nat);
                }
                return None;
            },
            Some(q) => {
                p = q;
                k = k + 1;
            },
        }
    }
    Some(p)
}

/// A copy of a vector of copyable elements.
fn copy_vec<T: Copy>(v: &Vec<T>) -> (r: Vec<T>)
    ensures
        r@ == v@,
{
    let mut r: Vec<T> = Vec::new();
    let mut i: usize = 0;
    while i < v.len()
        invariant
            i <= v@.len(),
            r@ == v@.take(i as int),
        decreases v@.len() - i,
    {
        r.push(v[i]);
        i = i + 1;
        assert(r@ =~= v@.take(i as int));
    }
    assert(v@.take(i as int) =~= v@);
    r
}

impl Keyspace {
    /// Turns the keyspace into a generator, or says why its keys cannot be
    /// numbered: a count that needs more than `length` digits, or, without a
    /// count, more keys of `length` digits than a `usize` can count.
    pub fn generator(&self) -> (r: Result<KeyspaceGenerator, KeyspaceError>)
        requires
            self.count != Some(0usize),
        ensures
            match key_count_spec(*self) {
                Ok(n) => r matches Ok(g) && is_generator_of(g, *self),
                Err(e) => r matches Err(e2) && e2 == e,
            },
    {
        let key_count = match self.count {
            Some(count) => {
                if !at_most_pow10(count, self.length) {
                    return Err(KeyspaceError::CountTooLarge { length: self.length, count });
                }
                count
            },
            None => match pow10_usize(self.length) {
                Some(n) => n,
                None => {
                    return Err(KeyspaceError::LengthTooLarge { length: self.length });
                },
            },
        };
        Ok(
            KeyspaceGenerator {
                length: self.length,
                weight: self.weight,
                key_count,
                commands: copy_vec(&self.commands),
                values: copy_vec(&self.values),
            },
        )
    }
}

// ---------------------------------------------------------------------------
// Weighted choices
// ---------------------------------------------------------------------------

/// The weights of `cs`, in order.
fn command_weight_list(cs: &Vec<Command>) -> (ws: Vec<usize>)
    ensures
        ws@ == command_weights(cs@),
{
    let mut ws: Vec<usize> = Vec::new();
    let mut i: usize = 0;
    while i < cs.len()
        invariant
            i <= cs@.len(),
            ws@.len() == i,
            forall|j: int| 0 <= j < i ==> ws@[j] == #[trigger] cs@[j].weight,
        decreases cs@.len() - i,
    {
        ws.push(cs[i].weight);
        i = i + 1;
    }
    assert(ws@ =~= command_weights(cs@));
    ws
}

/// The weights of `vs`, in order.
fn value_weight_list(vs: &Vec<Value>) -> (ws: Vec<usize>)
    ensures
        ws@ == value_weights(vs@),
{
    let mut ws: Vec<usize> = Vec::new();
    let mut i: usize = 0;
    while i < vs.len()
        invariant
            i <= vs@.len(),
            ws@.len() == i,
            forall|j: int| 0 <= j < i ==> ws@[j] == #[trigger] vs@[j].weight,
        decreases vs@.len() - i,
    {
        ws.push(vs[i].weight);
        i = i + 1;
    }
    assert(ws@ =~= value_weights(vs@));
    ws
}

/// The weights of `ks`, in order.
fn keyspace_weight_list(ks: &Vec<KeyspaceGenerator>) -> (ws: Vec<usize>)
    ensures
        ws@ == keyspace_weights(ks@),
{
    let mut ws: Vec<usize> = Vec::new();
    let mut i: usize = 0;
    while i < ks.len()
        invariant
            i <= ks@.len(),
            ws@.len() == i,
            forall|j: int| 0 <= j < i ==> ws@[j] == #[trigger] ks@[j].weight,
        decreases ks@.len() - i,
    {
        ws.push(ks[i].weight);
        i = i + 1;
    }
    assert(ws@ =~= keyspace_weights(ks@));
    ws
}

/// Picks a position of `ws` with a probability proportional to its weight.
fn pick(rng: &mut ThreadRng, ws: &Vec<usize>) -> (i: usize)
    requires
        weights_pickable(ws@),
    ensures
        i < ws@.len(),
        ws@[i as int] > 0,
{
    match choose_weighted_index(rng, ws.as_slice()) {
        Ok(i) => i,
        Err(_) => {
            assert(false);
            0
        },
    }
}

impl KeyspaceGenerator {
    pub fn weight(&self) -> (r: usize)
        ensures
            r == self.weight,
    {
        self.weight
    }

    /// Picks a command, with a probability proportional to its weight.
    pub fn choose_command(&self, rng: &mut ThreadRng) -> (c: &Command)
        requires
            weights_pickable(command_weights(self.commands@)),
        ensures
            exists|j: int|
                0 <= j < self.commands@.len() && #[trigger] self.commands@[j].weight > 0
                    && *c == self.commands@[j],
    {
        let ws = command_weight_list(&self.commands);
        let j = pick(rng, &ws);
        assert(self.commands@[j as int].weight > 0);
        &self.commands[j]
    }

    /// Picks a value shape, with a probability proportional to its weight.
    pub fn choose_value(&self, rng: &mut ThreadRng) -> (v: &Value)
        requires
            weights_pickable(value_weights(self.values@)),
        ensures
            exists|j: int|
                0 <= j < self.values@.len() && #[trigger] self.values@[j].weight > 0 && *v
                    == self.values@[j],
    {
        let ws = value_weight_list(&self.values);
        let j = pick(rng, &ws);
        assert(self.values@[j as int].weight > 0);
        &self.values[j]
    }

    /// The key numbered `index`: its decimal form padded with zeros to
    /// `length` characters.
    pub fn key_for(&self, index: usize) -> (k: String)
        ensures
            k@ == zero_padded(index as nat, self.length as nat),
    {
        zero_padded_string(index as u64, self.length)
    }

    /// Draws a key: a number below the key count, uniformly, written in
    /// decimal and padded with zeros to `length` characters.
    pub fn choose_key(&self, rng: &mut ThreadRng) -> (k: String)
        requires
            self.key_count > 0,
        ensures
            is_key(*self, k@),
    {
        let index = sample_below(rng, self.key_count);
        let k = self.key_for(index);
        assert(zero_padded(index as nat, self.length as nat) == k@);
        k
    }

    /// Draws a string for value `v`: `length` letters and digits for an
    /// alphanumeric value, or the decimal form of an unsigned integer of
    /// `length` bytes (the largest one excluded) for an integer value. An
    /// integer value of any other length cannot be drawn, and is reported.
    pub fn value_string_for(&self, v: &Value, rng: &mut ThreadRng) -> (r: Result<
        String,
        ValueError,
    >)
        ensures
            value_outcome(*v, r),
    {
        match v.class {
            Class::Alphanumeric => Ok(alphanumeric_string(rng, v.length())),
            Class::Integer => {
                let len = v.length();
                if !(len == 1 || len == 2 || len == 4 || len == 8) {
                    return Err(ValueError::UnsupportedIntegerLength { length: len });
                }
                let n = gen_range_u64(rng, 0, integer_bound_u64(len));
                let s = decimal_string(n);
                assert(s@ == decimal(n as nat));
                Ok(s)
            },
        }
    }

    /// Draws a value string: picks a value shape by weight, then draws a
    /// string for it (see `value_string_for`).
    pub fn choose_value_string(&self, rng: &mut ThreadRng) -> (r: Result<String, ValueError>)
        requires
            weights_pickable(value_weights(self.values@)),
        ensures
            exists|j: int|
                0 <= j < self.values@.len() && #[trigger] self.values@[j].weight > 0
                    && value_outcome(self.values@[j], r),
            match r {
                Ok(s) => is_value_string(self.values@, s@),
                Err(e) => value_error_of(self.values@, e),
            },
            integers_fit(self.values@) ==> r is Ok,
    {
        let value = self.choose_value(rng);
        let ghost j = choose|j: int|
            0 <= j < self.values@.len() && #[trigger] self.values@[j].weight > 0 && *value
                == self.values@[j];
        let r = self.value_string_for(value, rng);
        assert(value_outcome(self.values@[j], r));
        r
    }
}

/// The bound below which integer values of `length` bytes are drawn: the
/// largest unsigned integer of that many bytes.
pub fn integer_bound_u64(length: usize) -> (b: u64)
    requires
        integer_length(length),
    ensures
        b == integer_bound(length),
{
    if length == 1 {
        0xff
    } else if length == 2 {
        0xffff
    } else if length == 4 {
        0xffff_ffff
    } else {
        0xffff_ffff_ffff_ffff
    }
}

impl KeyspaceGenerator {
    /// Draws `n` keys.
    fn draw_keys(&self, n: usize, rng: &mut ThreadRng) -> (ks: Vec<String>)
        requires
            self.key_count > 0,
        ensures
            keys_of(*self, ks@, n as nat),
    {
        let mut ks: Vec<String> = Vec::new();
        let mut i: usize = 0;
        while i < n
            invariant
                self.key_count > 0,
                i <= n,
                keys_of(*self, ks@, i as nat),
            decreases n - i,
        {
            let k = self.choose_key(rng);
            ks.push(k);
            i = i + 1;
        }
        ks
    }

    /// Draws `n` value strings.
    fn draw_values(&self, n: usize, rng: &mut ThreadRng) -> (r: Result<Vec<String>, ValueError>)
        requires
            n > 0 ==> weights_pickable(value_weights(self.values@)),
        ensures
            match r {
                Ok(vs) => values_of(*self, vs@, n as nat),
                Err(e) => n > 0 && value_error_of(self.values@, e),
            },
            integers_fit(self.values@) ==> r is Ok,
    {
        let mut vs: Vec<String> = Vec::new();
        let mut i: usize = 0;
        while i < n
            invariant
                n > 0 ==> weights_pickable(value_weights(self.values@)),
                i <= n,
                values_of(*self, vs@, i as nat),
            decreases n - i,
        {
            let v = self.choose_value_string(rng)?;
            vs.push(v);
            i = i + 1;
        }
        Ok(vs)
    }

    /// Draws the request of `command` against this keyspace: a key, and the
    /// fields, values and parameters that its action takes.
    fn draw_request(&self, command: &Command, rng: &mut ThreadRng) -> (r: Result<
        codec::Command,
        ValueError,
    >)
        requires
            self.key_count > 0,
            command_ready(*self, *command),
        ensures
            match r {
                Ok(req) => is_request(*self, *command, req),
                Err(e) => value_draws(*command) > 0 && value_error_of(self.values@, e),
            },
            integers_fit(self.values@) ==> r is Ok,
    {
        let items = match command.items() {
            Some(n) => n,
            None => 1,
        };
        let request = match command.action() {
            Action::Delete => codec::Command::Delete { key: self.choose_key(rng) },
            Action::Get => codec::Command::Get { key: self.choose_key(rng) },
            Action::Hdel => {
                let key = self.choose_key(rng);
                let fields = self.draw_keys(items, rng);
                codec::Command::Hdel { key, fields }
            },
            Action::Hget => {
                let key = self.choose_key(rng);
                let fields = self.draw_keys(items, rng);
                codec::Command::Hget { key, fields }
            },
            Action::Hset => {
                let key = self.choose_key(rng);
                let fields = self.draw_keys(items, rng);
                let values = self.draw_values(items, rng)?;
                codec::Command::Hset { key, fields, values, ttl: command.ttl() }
            },
            Action::Llen => codec::Command::Llen { key: self.choose_key(rng) },
            Action::Lpush => {
                let key = self.choose_key(rng);
                let values = self.draw_values(items, rng)?;
                codec::Command::Lpush { key, values }
            },
            Action::Lpushx => {
                let key = self.choose_key(rng);
                let values = self.draw_values(items, rng)?;
                codec::Command::Lpushx { key, values }
            },
            Action::Lrange => {
                let key = self.choose_key(rng);
                codec::Command::Lrange { key, start: 0, stop: items }
            },
            Action::Ltrim => {
                let key = self.choose_key(rng);
                codec::Command::Ltrim { key, start: 0, stop: items }
            },
            Action::Rpush => {
                let key = self.choose_key(rng);
                let values = self.draw_values(items, rng)?;
                codec::Command::Rpush { key, values }
            },
            Action::Rpushx => {
                let key = self.choose_key(rng);
                let values = self.draw_values(items, rng)?;
                codec::Command::Rpushx { key, values }
            },
            Action::SetKey => {
                let key = self.choose_key(rng);
                let value = self.choose_value_string(rng)?;
                codec::Command::SetKey { key, value, ttl: command.ttl() }
            },
            Action::SarrayCreate => {
                let key = self.choose_key(rng);
                let value = self.choose_value(rng);
                let esize = value.length();
                codec::Command::SarrayCreate {
                    key,
                    esize,
                    watermark_low: command.watermark_low(),
                    watermark_high: command.watermark_high(),
                }
            },
            Action::SarrayDelete => codec::Command::SarrayDelete { key: self.choose_key(rng) },
            Action::SarrayFind => {
                let key = self.choose_key(rng);
                let value = self.choose_value_string(rng)?;
                codec::Command::SarrayFind { key, value }
            },
            Action::SarrayGet => {
                let key = self.choose_key(rng);
                let count = match command.items() {
                    Some(v) => Some(v as u64),
                    None => None,
                };
                codec::Command::SarrayGet { key, index: None, count }
            },
            Action::SarrayInsert => {
                let key = self.choose_key(rng);
                let values = self.draw_values(items, rng)?;
                codec::Command::SarrayInsert { key, values }
            },
            Action::SarrayLen => codec::Command::SarrayLen { key: self.choose_key(rng) },
            Action::SarrayRemove => {
                let key = self.choose_key(rng);
                let values = self.draw_values(items, rng)?;
                codec::Command::SarrayRemove { key, values }
            },
            Action::SarrayTruncate => {
                let key = self.choose_key(rng);
                let count = match command.items() {
                    Some(v) => v as u64,
                    None => 0,
                };
                codec::Command::SarrayTruncate { key, count }
            },
        };
        Ok(request)
    }
}

impl Generator {
    /// A request can be drawn without a failed weighted pick: a keyspace can be
    /// picked, and every keyspace that can be picked is ready.
    pub open spec fn ready(&self) -> bool {
        &&& weights_pickable(keyspace_weights(self.keyspaces@))
        &&& forall|i: int|
            0 <= i < self.keyspaces@.len() && #[trigger] self.keyspaces@[i].weight > 0
                ==> keyspace_ready(self.keyspaces@[i])
    }

    /// `r` is a request that one of the commands that can be picked, of one of
    /// the keyspaces that can be picked, produces.
    pub open spec fn generates(&self, r: codec::Command) -> bool {
        exists|i: int, j: int|
            0 <= i < self.keyspaces@.len() && #[trigger] self.keyspaces@[i].weight > 0 && 0 <= j
                < self.keyspaces@[i].commands@.len()
                && #[trigger] self.keyspaces@[i].commands@[j].weight > 0 && is_request(
                self.keyspaces@[i],
                self.keyspaces@[i].commands@[j],
                r,
            )
    }

    /// Every integer value that a command that can be picked, of a keyspace
    /// that can be picked, may draw has the length of an unsigned integer.
    pub open spec fn integers_fit(&self) -> bool {
        forall|i: int, j: int|
            0 <= i < self.keyspaces@.len() && #[trigger] self.keyspaces@[i].weight > 0 && 0 <= j
                < self.keyspaces@[i].commands@.len()
                && #[trigger] self.keyspaces@[i].commands@[j].weight > 0 && value_draws(
                self.keyspaces@[i].commands@[j],
            ) > 0 ==> integers_fit(self.keyspaces@[i].values@)
    }

    /// `e` is what drawing a value string fails with for a command that can
    /// be picked, of a keyspace that can be picked.
    pub open spec fn fails_with(&self, e: ValueError) -> bool {
        exists|i: int, j: int|
            0 <= i < self.keyspaces@.len() && #[trigger] self.keyspaces@[i].weight > 0 && 0 <= j
                < self.keyspaces@[i].commands@.len()
                && #[trigger] self.keyspaces@[i].commands@[j].weight > 0 && value_draws(
                self.keyspaces@[i].commands@[j],
            ) > 0 && value_error_of(self.keyspaces@[i].values@, e)
    }

    /// Draws a request: picks a keyspace by weight, a command of it by
    /// weight, and draws the request of that command against the keyspace.
    /// Fails only when a drawn integer value has an unsupported length.
    pub fn generate(&self, rng: &mut ThreadRng) -> (r: Result<codec::Command, ValueError>)
        requires
            self.ready(),
        ensures
            match r {
                Ok(req) => self.generates(req),
                Err(e) => self.fails_with(e),
            },
            self.integers_fit() ==> r is Ok,
    {
        let ws = keyspace_weight_list(&self.keyspaces);
        let i = pick(rng, &ws);
        let keyspace = &self.keyspaces[i];
        assert(keyspace.weight > 0);
        let command = keyspace.choose_command(rng);
        let ghost j = choose|j: int|
            0 <= j < keyspace.commands@.len() && #[trigger] keyspace.commands@[j].weight > 0
                && *command == keyspace.commands@[j];
        let r = keyspace.draw_request(command, rng);
        assert(r is Ok ==> is_request(
            self.keyspaces@[i as int],
            self.keyspaces@[i as int].commands@[j],
            r->Ok_0,
        ));
        assert(r is Err ==> value_draws(self.keyspaces@[i as int].commands@[j]) > 0
            && value_error_of(self.keyspaces@[i as int].values@, r->Err_0));
        r
    }
}

// ---------------------------------------------------------------------------
// Readiness checks
// ---------------------------------------------------------------------------

/// A prefix of a list of weights sums to at most the whole list.
pub proof fn lemma_weight_sum_prefix(ws: Seq<usize>, j: int)
    requires
        0 <= j <= ws.len(),
    ensures
        weight_sum(ws.take(j)) <= weight_sum(ws),
    decreases ws.len() - j,
{
    if j < ws.len() {
        lemma_weight_sum_prefix(ws, j + 1);
        assert(ws.take(j + 1).drop_last() =~= ws.take(j));
    } else {
        assert(ws.take(j) =~= ws);
    }
}

/// Whether a weighted choice over `ws` succeeds.
fn pickable(ws: &Vec<usize>) -> (r: bool)
    ensures
        r == weights_pickable(ws@),
{
    let mut total: usize = 0;
    let mut i: usize = 0;
    assert(ws@.take(0).len() == 0);
    while i < ws.len()
        invariant
            i <= ws@.len(),
            total == weight_sum(ws@.take(i as int)),
        decreases ws@.len() - i,
    {
        assert(ws@.take(i + 1).drop_last() =~= ws@.take(i as int));
        match total.checked_add(ws[i]) {
            None => {
                proof {
                    lemma_weight_sum_prefix(ws@, i + 1);
                }
                return false;
            },
            Some(t) => {
                total = t;
            },
        }
        i = i + 1;
    }
    assert(ws@.take(i as int) =~= ws@);
    ws.len() > 0 && total > 0
}

impl KeyspaceGenerator {
    /// Whether a request can be drawn for `command` without a failed pick.
    fn check_command(&self, command: &Command) -> (r: bool)
        ensures
            r == command_ready(*self, *command),
    {
        let draws = match command.action {
            Action::Hset | Action::Lpush | Action::Lpushx | Action::Rpush | Action::Rpushx
            | Action::SarrayInsert | Action::SarrayRemove => match command.items {
                Some(n) => n > 0,
                None => true,
            },
            Action::SetKey | Action::SarrayFind => true,
            _ => false,
        };
        if draws || command.action == Action::SarrayCreate {
            let ws = value_weight_list(&self.values);
            return pickable(&ws);
        }
        true
    }

    /// Whether requests can be drawn from this keyspace without a failed weighted pick.
    pub fn is_ready(&self) -> (r: bool)
        ensures
            r == keyspace_ready(*self),
    {
        if self.key_count == 0 {
            return false;
        }
        let ws = command_weight_list(&self.commands);
        if !pickable(&ws) {
            return false;
        }
        let mut j: usize = 0;
        while j < self.commands.len()
            invariant
                j <= self.commands@.len(),
                forall|k: int|
                    0 <= k < j && #[trigger] self.commands@[k].weight > 0 ==> command_ready(
                        *self,
                        self.commands@[k],
                    ),
            decreases self.commands@.len() - j,
        {
            if self.commands[j].weight > 0 && !self.check_command(&self.commands[j]) {
                assert(self.commands@[j as int].weight > 0);
                return false;
            }
            j = j + 1;
        }
        true
    }
}

impl Generator {
    /// Whether requests can be drawn without a failed weighted pick.
    pub fn is_ready(&self) -> (r: bool)
        ensures
            r == self.ready(),
    {
        let ws = keyspace_weight_list(&self.keyspaces);
        if !pickable(&ws) {
            return false;
        }
        let mut i: usize = 0;
        while i < self.keyspaces.len()
            invariant
                i <= self.keyspaces@.len(),
                forall|k: int|
                    0 <= k < i && #[trigger] self.keyspaces@[k].weight > 0 ==> keyspace_ready(
                        self.keyspaces@[k],
                    ),
            decreases self.keyspaces@.len() - i,
        {
            if self.keyspaces[i].weight > 0 && !self.keyspaces[i].is_ready() {
                assert(self.keyspaces@[i as int].weight > 0);
                return false;
            }
            i = i + 1;
        }
        true
    }
}

// ---------------------------------------------------------------------------
// Laws of keys
// ---------------------------------------------------------------------------

/// A keyspace that can be numbered has at most `10^length` keys: every key
/// number can be written in `length` digits.
pub proof fn lemma_key_count_fits(ks: Keyspace)
    requires
        key_count_spec(ks) is Ok,
    ensures
        key_count_spec(ks)->Ok_0 <= pow10(ks.length as nat),
{
}

/// Every key of a generator whose key numbers fit in its length is a run of
/// exactly `length` digits (one digit for length zero), and reads back as a
/// number below the key count.
pub proof fn lemma_key_shape(g: KeyspaceGenerator, k: Seq<char>)
    requires
        g.key_count <= pow10(g.length as nat),
        is_key(g, k),
    ensures
        k.len() == if g.length == 0 { 1 } else { g.length as nat },
        all_digits(k),
        parse_usize_spec(k) matches Some(i) && i < g.key_count,
{
    let i = choose|i: nat| i < g.key_count && k == #[trigger] zero_padded(i, g.length as nat);
    lemma_zero_padded_shape(i, g.length as nat);
    lemma_parse_zero_padded(i as usize, g.length as nat);
}

/// Different key numbers give different keys.
pub proof fn lemma_keys_distinct(g: KeyspaceGenerator, i: nat, j: nat)
    requires
        i != j,
    ensures
        zero_padded(i, g.length as nat) != zero_padded(j, g.length as nat),
{
    if zero_padded(i, g.length as nat) == zero_padded(j, g.length as nat) {
        lemma_zero_padded_injective(i, j, g.length as nat);
    }
}

// ---------------------------------------------------------------------------
// Laws of requests
// ---------------------------------------------------------------------------

/// The action a request performs.
pub open spec fn request_action(r: codec::Command) -> Action {
    match r {
        codec::Command::Delete { .. } => Action::Delete,
        codec::Command::Get { .. } => Action::Get,
        codec::Command::Hdel { .. } => Action::Hdel,
        codec::Command::Hget { .. } => Action::Hget,
        codec::Command::Hset { .. } => Action::Hset,
        codec::Command::Llen { .. } => Action::Llen,
        codec::Command::Lpush { .. } => Action::Lpush,
        codec::Command::Lpushx { .. } => Action::Lpushx,
        codec::Command::Lrange { .. } => Action::Lrange,
        codec::Command::Ltrim { .. } => Action::Ltrim,
        codec::Command::Rpush { .. } => Action::Rpush,
        codec::Command::Rpushx { .. } => Action::Rpushx,
        codec::Command::SetKey { .. } => Action::SetKey,
        codec::Command::SarrayCreate { .. } => Action::SarrayCreate,
        codec::Command::SarrayDelete { .. } => Action::SarrayDelete,
        codec::Command::SarrayFind { .. } => Action::SarrayFind,
        codec::Command::SarrayGet { .. } => Action::SarrayGet,
        codec::Command::SarrayInsert { .. } => Action::SarrayInsert,
        codec::Command::SarrayLen { .. } => Action::SarrayLen,
        codec::Command::SarrayRemove { .. } => Action::SarrayRemove,
        codec::Command::SarrayTruncate { .. } => Action::SarrayTruncate,
    }
}

/// The key of a request.
pub open spec fn request_key(r: codec::Command) -> String {
    match r {
        codec::Command::Delete { key } => key,
        codec::Command::Get { key } => key,
        codec::Command::Hdel { key, .. } => key,
        codec::Command::Hget { key, .. } => key,
        codec::Command::Hset { key, .. } => key,
        codec::Command::Llen { key } => key,
        codec::Command::Lpush { key, .. } => key,
        codec::Command::Lpushx { key, .. } => key,
        codec::Command::Lrange { key, .. } => key,
        codec::Command::Ltrim { key, .. } => key,
        codec::Command::Rpush { key, .. } => key,
        codec::Command::Rpushx { key, .. } => key,
        codec::Command::SetKey { key, .. } => key,
        codec::Command::SarrayCreate { key, .. } => key,
        codec::Command::SarrayDelete { key } => key,
        codec::Command::SarrayFind { key, .. } => key,
        codec::Command::SarrayGet { key, .. } => key,
        codec::Command::SarrayInsert { key, .. } => key,
        codec::Command::SarrayLen { key } => key,
        codec::Command::SarrayRemove { key, .. } => key,
        codec::Command::SarrayTruncate { key, .. } => key,
    }
}

/// The fields of a request, for the requests that carry a list of them.
pub open spec fn request_fields(r: codec::Command) -> Option<Vec<String>> {
    match r {
        codec::Command::Hdel { fields, .. } => Some(fields),
        codec::Command::Hget { fields, .. } => Some(fields),
        codec::Command::Hset { fields, .. } => Some(fields),
        _ => None,
    }
}

/// The values of a request, for the requests that carry a list of them.
pub open spec fn request_values(r: codec::Command) -> Option<Vec<String>> {
    match r {
        codec::Command::Hset { values, .. } => Some(values),
        codec::Command::Lpush { values, .. } => Some(values),
        codec::Command::Lpushx { values, .. } => Some(values),
        codec::Command::Rpush { values, .. } => Some(values),
        codec::Command::Rpushx { values, .. } => Some(values),
        codec::Command::SarrayInsert { values, .. } => Some(values),
        codec::Command::SarrayRemove { values, .. } => Some(values),
        _ => None,
    }
}

/// The single value of a request, for the requests that carry one.
pub open spec fn request_value(r: codec::Command) -> Option<String> {
    match r {
        codec::Command::SetKey { value, .. } => Some(value),
        codec::Command::SarrayFind { value, .. } => Some(value),
        _ => None,
    }
}

/// The time-to-live of a request, for the requests that carry one.
pub open spec fn request_ttl(r: codec::Command) -> Option<Option<usize>> {
    match r {
        codec::Command::Hset { ttl, .. } => Some(ttl),
        codec::Command::SetKey { ttl, .. } => Some(ttl),
        _ => None,
    }
}

/// The range of a request, for list ranges and trims.
pub open spec fn request_range(r: codec::Command) -> Option<(usize, usize)> {
    match r {
        codec::Command::Lrange { start, stop, .. } => Some((start, stop)),
        codec::Command::Ltrim { start, stop, .. } => Some((start, stop)),
        _ => None,
    }
}

/// The index and count of a sorted-array get.
pub open spec fn request_get(r: codec::Command) -> Option<(Option<u64>, Option<u64>)> {
    match r {
        codec::Command::SarrayGet { index, count, .. } => Some((index, count)),
        _ => None,
    }
}

/// The count of a sorted-array truncation.
pub open spec fn request_truncation(r: codec::Command) -> Option<u64> {
    match r {
        codec::Command::SarrayTruncate { count, .. } => Some(count),
        _ => None,
    }
}

/// The element size and watermarks of a sorted-array creation.
pub open spec fn request_creation(r: codec::Command) -> Option<(usize, Option<usize>, Option<usize>)> {
    match r {
        codec::Command::SarrayCreate { esize, watermark_low, watermark_high, .. } => Some(
            (esize, watermark_low, watermark_high),
        ),
        _ => None,
    }
}

/// The actions whose requests carry a list of fields.
pub open spec fn carries_fields(a: Action) -> bool {
    a == Action::Hdel || a == Action::Hget || a == Action::Hset
}

/// The actions whose requests carry a list of values.
pub open spec fn carries_values(a: Action) -> bool {
    a == Action::Hset || a == Action::Lpush || a == Action::Lpushx || a == Action::Rpush
        || a == Action::Rpushx || a == Action::SarrayInsert || a == Action::SarrayRemove
}

/// The actions whose requests carry a single value.
pub open spec fn carries_value(a: Action) -> bool {
    a == Action::SetKey || a == Action::SarrayFind
}

/// What every request of command `c` against keyspace `g` is made of: the
/// command's action and a key of the keyspace; for the actions that carry
/// lists of fields or values, exactly `items` of them (one when the command
/// sets none), every field a key and every value a value string of the
/// keyspace; a single value string for set and find; and the command's
/// time-to-live for set and hash set.
pub proof fn lemma_request_shape(g: KeyspaceGenerator, c: Command, r: codec::Command)
    requires
        is_request(g, c, r),
    ensures
        request_action(r) == c.action,
        is_key(g, request_key(r)@),
        carries_fields(c.action) <==> request_fields(r) is Some,
        carries_values(c.action) <==> request_values(r) is Some,
        carries_value(c.action) <==> request_value(r) is Some,
        request_fields(r) matches Some(fs) ==> fs@.len() == (match c.items {
            Some(k) => k,
            None => 1usize,
        }) && forall|i: int| 0 <= i < fs@.len() ==> is_key(g, #[trigger] fs@[i]@),
        request_values(r) matches Some(vs) ==> vs@.len() == (match c.items {
            Some(k) => k,
            None => 1usize,
        }) && forall|i: int|
            0 <= i < vs@.len() ==> is_value_string(g.values@, #[trigger] vs@[i]@),
        request_value(r) matches Some(v) ==> is_value_string(g.values@, v@),
        request_ttl(r) matches Some(t) ==> t == c.ttl,
        (c.action == Action::Hset || c.action == Action::SetKey) ==> request_ttl(r) is Some,
        (c.action == Action::Lrange || c.action == Action::Ltrim) ==> request_range(r) == Some(
            (
                0usize,
                match c.items {
                    Some(k) => k,
                    None => 1usize,
                },
            ),
        ),
        c.action == Action::SarrayGet ==> request_get(r) == Some(
            (
                None::<u64>,
                match c.items {
                    Some(k) => Some(k as u64),
                    None => None::<u64>,
                },
            ),
        ),
        c.action == Action::SarrayTruncate ==> request_truncation(r) == Some(
            match c.items {
                Some(k) => k as u64,
                None => 0u64,
            },
        ),
        c.action == Action::SarrayCreate ==> (request_creation(r) matches Some(
            (esize, low, high),
        ) && low == c.watermark_low && high == c.watermark_high && exists|i: int|
            0 <= i < g.values@.len() && #[trigger] g.values@[i].weight > 0 && g.values@[i].length
                == esize),
{
}

/// Every request that a generator draws is a request of one of its
/// pickable commands, made as `lemma_request_shape` says.
pub proof fn lemma_generated_request_shape(gen: Generator, r: codec::Command)
    requires
        gen.generates(r),
    ensures
        exists|i: int, j: int|
            0 <= i < gen.keyspaces@.len() && #[trigger] gen.keyspaces@[i].weight > 0 && 0 <= j
                < gen.keyspaces@[i].commands@.len()
                && #[trigger] gen.keyspaces@[i].commands@[j].weight > 0 && request_action(r)
                == gen.keyspaces@[i].commands@[j].action && is_key(
                gen.keyspaces@[i],
                request_key(r)@,
            ) && (request_values(r) matches Some(vs) ==> vs@.len() == (match gen.keyspaces@[i].commands@[j].items {
                Some(k) => k,
                None => 1usize,
            })),
{
    let (i, j) = choose|i: int, j: int|
        0 <= i < gen.keyspaces@.len() && #[trigger] gen.keyspaces@[i].weight > 0 && 0 <= j
            < gen.keyspaces@[i].commands@.len()
            && #[trigger] gen.keyspaces@[i].commands@[j].weight > 0 && is_request(
            gen.keyspaces@[i],
            gen.keyspaces@[i].commands@[j],
            r,
        );
    lemma_request_shape(gen.keyspaces@[i], gen.keyspaces@[i].commands@[j], r);
}

/// A number at or above `10^k` (with `k >= 1`) needs more than `k` digits.
pub proof fn lemma_decimal_len_lower(n: nat, k: nat)
    requires
        k >= 1,
        n >= pow10(k),
    ensures
        decimal(n).len() > k,
    decreases k,
{
    assert(pow10(k) == 10 * pow10((k - 1) as nat));
    crate::text::lemma_decimal_digits(n / 10);
    if k > 1 {
        lemma_decimal_len_lower(n / 10, (k - 1) as nat);
    } else {
        assert(pow10(0) == 1);
    }
}

/// Which keyspaces can be numbered: with a count of at least two, exactly
/// those whose largest key number is written with at most `length` digits,
/// and then every key number is; with a count of one, every keyspace; without
/// a count, every keyspace whose `10^length` keys can be counted in a
/// `usize`, and then there are `10^length` keys. A keyspace that can be
/// numbered keeps its count.
pub proof fn lemma_key_count_law(ks: Keyspace)
    ensures
        match ks.count {
            Some(c) => c >= 2 ==> (key_count_spec(ks) is Ok <==> decimal((c - 1) as nat).len()
                <= ks.length),
            None => true,
        },
        ks.count == Some(1usize) ==> key_count_spec(ks) == Ok::<usize, KeyspaceError>(1),
        match ks.count {
            Some(c) => (key_count_spec(ks) is Ok ==> key_count_spec(ks) == Ok::<
                usize,
                KeyspaceError,
            >(c)) && (key_count_spec(ks) is Err ==> key_count_spec(ks) == Err::<
                usize,
                KeyspaceError,
            >(KeyspaceError::CountTooLarge { length: ks.length, count: c })),
            None => true,
        },
        ks.count is None ==> (key_count_spec(ks) is Ok <==> pow10(ks.length as nat)
            <= usize::MAX),
        ks.count is None ==> (key_count_spec(ks) is Ok ==> key_count_spec(ks)->Ok_0 == pow10(
            ks.length as nat,
        )),
        ks.count is None ==> (key_count_spec(ks) is Err ==> key_count_spec(ks) == Err::<
            usize,
            KeyspaceError,
        >(KeyspaceError::LengthTooLarge { length: ks.length })),
{
    if let Some(c) = ks.count {
        if c >= 2 {
            let m = (c - 1) as nat;
            if ks.length == 0 {
                crate::text::lemma_decimal_digits(m);
                assert(pow10(0) == 1);
            } else if c <= pow10(ks.length as nat) {
                crate::text::lemma_decimal_len_bound(m, ks.length as nat);
            } else {
                lemma_decimal_len_lower(m, ks.length as nat);
            }
        } else if c == 1 {
            lemma_pow10_monotonic(0, ks.length as nat);
            assert(pow10(0) == 1);
        }
    }
}

/// The number of distinct values of `k` bytes: `256^k`.
pub open spec fn byte_values(k: nat) -> nat
    decreases k,
{
    if k == 0 {
        1
    } else {
        256 * byte_values((k - 1) as nat)
    }
}

/// The bound below which integer values are drawn is the largest unsigned
/// integer of their length in bytes, `256^length - 1`.
pub proof fn lemma_integer_bound(length: usize)
    requires
        integer_length(length),
    ensures
        integer_bound(length) + 1 == byte_values(length as nat),
{
    reveal_with_fuel(byte_values, 9);
}

} // verus!
