//! The body of a request: an ordered list of named values.

use vstd::prelude::*;
use crate::members::{has_key, keys_distinct, lemma_value_of_at, position, value_of};
use crate::seconds::{encodes_finite, Seconds};

verus! {

/// What a value of a request body stands for.
pub enum WireModel {
    /// A string.
    Text(Seq<char>),
    /// A whole number.
    Integer(int),
    /// A number of seconds, by the bits of its binary64 encoding.
    Seconds(u64),
}

/// What a request body stands for: its members, in order, each a key and
/// its value.
pub type Members = Seq<(Seq<char>, WireModel)>;

/// Whether every duration among the values is a number.
pub open spec fn seconds_finite(members: Members) -> bool {
    forall|i: int|
        0 <= i < members.len() ==> ((#[trigger] members[i]).1 matches WireModel::Seconds(bits)
            ==> encodes_finite(bits))
}

/// A value of a request body.
#[derive(Clone, Debug, PartialEq, Eq)]
pub enum WireValue {
    /// A string.
    Text(String),
    /// A whole number.
    Integer(i64),
    /// A number of seconds.
    Seconds(Seconds),
}

impl View for WireValue {
    type V = WireModel;

    open spec fn view(&self) -> WireModel {
        match self {
            WireValue::Text(s) => WireModel::Text(s@),
            WireValue::Integer(i) => WireModel::Integer(*i as int),
            WireValue::Seconds(s) => WireModel::Seconds(s.bits),
        }
    }
}

/// The body of a request.
#[derive(Clone, Debug, PartialEq, Eq)]
pub struct Payload {
    members: Vec<(String, WireValue)>,
}

/// What a list of members stands for.
pub open spec fn members_view(members: Seq<(String, WireValue)>) -> Members {
    members.map_values(|m: (String, WireValue)| (m.0@, m.1@))
}

impl View for Payload {
    type V = Members;

    closed spec fn view(&self) -> Members {
        members_view(self.members@)
    }
}

impl Payload {
    /// Whether the body can go on the wire as a JSON object: no key occurs
    /// twice and every duration is a number.
    pub open spec fn wf(&self) -> bool {
        keys_distinct(self@) && seconds_finite(self@)
    }

    /// The body without members.
    pub fn new() -> (r: Payload)
        ensures
            r@ == Members::empty(),
            r.wf(),
    {
        let r = Payload { members: Vec::new() };
        assert(r@ =~= Members::empty());
        r
    }

    /// Appends the member `key`, `value`. The body stays fit for the wire
    /// where the key is new and the value, if it is a duration, is a number.
    pub fn push(&mut self, key: String, value: WireValue)
        ensures
            final(self)@ == old(self)@.push((key@, value@)),
            old(self).wf() && !has_key(old(self)@, key@) && (value@ matches WireModel::Seconds(bits)
                ==> encodes_finite(bits)) ==> final(self).wf(),
    {
        self.members.push((key, value));
        assert(self@ =~= old(self)@.push((key@, value@)));
    }

    /// The members, in order.
    pub fn members(&self) -> (r: &Vec<(String, WireValue)>)
        ensures
            members_view(r@) == self@,
    {
        &self.members
    }

    /// The number of members.
    pub fn len(&self) -> (r: usize)
        ensures
            r == self@.len(),
    {
        self.members.len()
    }

    /// The value of the first member with the key `key`.
    pub fn get(&self, key: &str) -> (r: Option<&WireValue>)
        ensures
            r is Some <==> has_key(self@, key@),
            r matches Some(v) ==> value_of(self@, key@) == Some(v@),
    {
        match position(&self.members, key) {
            Some(i) => {
                proof {
                    assert(self@[i as int].0 == key@);
                    assert forall|j: int| 0 <= j < i implies (#[trigger] self@[j]).0 != key@ by {
                        assert(self.members[j].0@ != key@);
                    }
                    lemma_value_of_at(self@, key@, i as int);
                }
                Some(&self.members[i].1)
            },
            None => {
                proof {
                    assert forall|j: int| 0 <= j < self@.len() implies (#[trigger] self@[j]).0
                        != key@ by {
                        assert(self.members[j].0@ != key@);
                    }
                }
                None
            },
        }
    }
}

} // verus!
