//! Plain values exchanged with helper functions.
//!
//! A helper is a named function from keyword arguments to a value. This
//! module holds the value type those contracts speak of, and the keyword
//! argument map handed to every helper call.
use vstd::prelude::*;

verus! {

/// A plain value a helper can receive or produce.
///
/// Numbers are split into signed and unsigned variants so that bounds
/// contracts can be stated exactly. A value only the rendering engine can
/// read — a fractional number, a nested object — is carried through
/// opaquely rather than degraded, so that choosing among such values
/// returns them intact.
#[derive(Debug, PartialEq, Eq)]
pub enum PlainValue {
    /// No value.
    Null,
    /// A boolean.
    Bool(bool),
    /// A signed integer.
    Int(i64),
    /// An unsigned integer above `i64::MAX`, or a counter value.
    Uint(u64),
    /// A text value.
    Text(String),
    /// A sequence of values.
    List(Vec<PlainValue>),
    /// A value with no plain reading, carried through unchanged.
    Opaque(serde_json::Value),
}

/// The keyword arguments of one helper call: name/value pairs, where the
/// last entry for a name is the one in force.
pub struct Args {
    pairs: Vec<(String, PlainValue)>,
}

/// The value bound to `key` in `pairs`, taking the latest entry when a name
/// repeats.
pub open spec fn lookup_spec(pairs: Seq<(String, PlainValue)>, key: Seq<char>) -> Option<PlainValue>
    decreases pairs.len(),
{
    if pairs.len() == 0 {
        None
    } else if pairs.last().0@ == key {
        Some(pairs.last().1)
    } else {
        lookup_spec(pairs.drop_last(), key)
    }
}

/// The signed reading of an optional argument: a signed integer stands for
/// itself, an unsigned one for its value when it fits, and anything else
/// falls back to `default`.
pub open spec fn opt_i64_spec(v: Option<PlainValue>, default: i64) -> i64 {
    match v {
        Some(PlainValue::Int(i)) => i,
        Some(PlainValue::Uint(u)) => if u <= i64::MAX { u as i64 } else { default },
        _ => default,
    }
}

/// The unsigned reading of an optional argument, with `default` for missing
/// or non-representable values.
pub open spec fn opt_u64_spec(v: Option<PlainValue>, default: u64) -> u64 {
    match v {
        Some(PlainValue::Uint(u)) => u,
        Some(PlainValue::Int(i)) => if i >= 0 { i as u64 } else { default },
        _ => default,
    }
}

impl View for Args {
    type V = Seq<(String, PlainValue)>;

    closed spec fn view(&self) -> Seq<(String, PlainValue)> {
        self.pairs@
    }
}

impl Args {
    /// An empty argument map.
    pub fn new() -> (r: Args)
        ensures
            r@ == Seq::<(String, PlainValue)>::empty(),
    {
        Args { pairs: Vec::new() }
    }

    /// Binds `key` to `value`; a later binding for the same name wins.
    pub fn insert(&mut self, key: String, value: PlainValue)
        ensures
            final(self)@ == old(self)@.push((key, value)),
    {
        self.pairs.push((key, value));
    }

    /// The index of the entry in force for `key`, if any.
    fn find(&self, key: &String) -> (r: Option<usize>)
        ensures
            match r {
                Some(i) => i < self@.len() && self@[i as int].0@ == key@ && lookup_spec(
                    self@,
                    key@,
                ) == Some(self@[i as int].1),
                None => lookup_spec(self@, key@) is None,
            },
    {
        let mut i: usize = self.pairs.len();
        proof {
            assert(self.pairs@.take(i as int) =~= self.pairs@);
        }
        while i > 0
            invariant
                i <= self.pairs@.len(),
                lookup_spec(self.pairs@.take(i as int), key@) == lookup_spec(self.pairs@, key@),
            decreases i,
        {
            i = i - 1;
            if self.pairs[i].0 == *key {
                proof {
                    assert(self.pairs@.take(i + 1int).last() == self.pairs@[i as int]);
                }
                return Some(i);
            }
            proof {
                assert(self.pairs@.take(i + 1int).drop_last() =~= self.pairs@.take(i as int));
                assert(self.pairs@.take(i + 1int).last() == self.pairs@[i as int]);
            }
        }
        proof {
            assert(self.pairs@.take(0int) =~= Seq::<(String, PlainValue)>::empty());
        }
        None
    }

    /// Removes and returns the value in force for `key`: one entry bearing
    /// that key leaves the map, with the other entries kept in order.
    pub fn take_value(&mut self, key: &str) -> (r: Option<PlainValue>)
        ensures
            r == lookup_spec(old(self)@, key@),
            r is None ==> final(self)@ == old(self)@,
            r is Some ==> exists|i: int|
                0 <= i < old(self)@.len() && old(self)@[i].0@ == key@ && r == Some(
                    old(self)@[i].1,
                ) && final(self)@ == old(self)@.remove(i),
    {
        let owned = key.to_owned();
        match self.find(&owned) {
            Some(i) => {
                let p = self.pairs.remove(i);
                Some(p.1)
            },
            None => None,
        }
    }

    /// Reads the signed integer bound to `key`, with `default` when the
    /// argument is missing or not a signed-representable number.
    pub fn get_i64_or(&self, key: &str, default: i64) -> (r: i64)
        ensures
            r == opt_i64_spec(lookup_spec(self@, key@), default),
    {
        let owned = key.to_owned();
        match self.find(&owned) {
            Some(i) => match &self.pairs[i].1 {
                PlainValue::Int(v) => *v,
                PlainValue::Uint(u) => if *u <= i64::MAX as u64 {
                    *u as i64
                } else {
                    default
                },
                _ => default,
            },
            None => default,
        }
    }

    /// Reads the unsigned integer bound to `key`, with `default` when the
    /// argument is missing or negative.
    pub fn get_u64_or(&self, key: &str, default: u64) -> (r: u64)
        ensures
            r == opt_u64_spec(lookup_spec(self@, key@), default),
    {
        let owned = key.to_owned();
        match self.find(&owned) {
            Some(i) => match &self.pairs[i].1 {
                PlainValue::Uint(u) => *u,
                PlainValue::Int(v) => if *v >= 0 {
                    *v as u64
                } else {
                    default
                },
                _ => default,
            },
            None => default,
        }
    }
}

} // verus!
