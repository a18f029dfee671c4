//! What a workload is made of: keyspaces, the commands sent against them and
//! the shapes of the values they carry.

use vstd::prelude::*;

verus! {

/// The operation that a command performs.
#[derive(Clone, Copy, Debug, PartialEq, Eq, Structural)]
pub enum Action {
    Delete,
    Get,
    Hdel,
    Hget,
    Hset,
    Llen,
    Lpush,
    Lpushx,
    Lrange,
    Ltrim,
    Rpush,
    Rpushx,
    SarrayCreate,
    SarrayDelete,
    SarrayFind,
    SarrayGet,
    SarrayInsert,
    SarrayLen,
    SarrayRemove,
    SarrayTruncate,
    /// Stores a value under a key.
    SetKey,
}

/// What characters a value is made of.
#[derive(Clone, Copy, Debug, PartialEq, Eq, Structural)]
pub enum Class {
    /// ASCII letters and digits.
    Alphanumeric,
    /// The decimal representation of an unsigned integer of `length` bytes.
    Integer,
}

/// The class a value has when the configuration names none.
pub fn default_value_class() -> (c: Class)
    ensures
        c == Class::Alphanumeric,
{
    Class::Alphanumeric
}

/// The shape of the values of a keyspace, and how often it is picked.
#[derive(Clone, Copy, Debug)]
pub struct Value {
    pub length: usize,
    pub weight: usize,
    pub class: Class,
}

impl Value {
    pub fn length(&self) -> (r: usize)
        ensures
            r == self.length,
    {
        self.length
    }

    pub fn weight(&self) -> (r: usize)
        ensures
            r == self.weight,
    {
        self.weight
    }
}

/// A command of a keyspace: its action, how often it is picked, and the
/// parameters that the action reads.
#[derive(Clone, Copy, Debug)]
pub struct Command {
    pub action: Action,
    pub weight: usize,
    pub ttl: Option<usize>,
    pub items: Option<usize>,
    pub watermark_low: Option<usize>,
    pub watermark_high: Option<usize>,
}

impl Command {
    pub fn action(&self) -> (r: Action)
        ensures
            r == self.action,
    {
        self.action
    }

    pub fn weight(&self) -> (r: usize)
        ensures
            r == self.weight,
    {
        self.weight
    }

    pub fn ttl(&self) -> (r: Option<usize>)
        ensures
            r == self.ttl,
    {
        self.ttl
    }

    pub fn items(&self) -> (r: Option<usize>)
        ensures
            r == self.items,
    {
        self.items
    }

    pub fn watermark_low(&self) -> (r: Option<usize>)
        ensures
            r == self.watermark_low,
    {
        self.watermark_low
    }

    pub fn watermark_high(&self) -> (r: Option<usize>)
        ensures
            r == self.watermark_high,
    {
        self.watermark_high
    }
}

/// A set of keys of one length, the commands sent against it and the values
/// it holds.
///
/// `count` bounds the number of distinct keys; without it every key of
/// `length` digits is used.
#[derive(Clone, Debug)]
pub struct Keyspace {
    pub length: usize,
    pub weight: usize,
    pub count: Option<usize>,
    pub commands: Vec<Command>,
    pub values: Vec<Value>,
}

} // verus!
