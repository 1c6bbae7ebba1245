//! The equivalence coordinator's skewed value queue: one per mapping,
//! holding whichever side of the cosimulation has run ahead.  A push from
//! the side that is ahead extends the queue; a push from the side that is
//! behind pops the oldest waiting value and must match it exactly, in FIFO
//! order — a mismatch reports the mapping's identity.

use vstd::prelude::*;

verus! {

use std::collections::VecDeque;
use crate::value::VALUE;

/// One equivalence mapping: a timed-side region, a hardware-side state,
/// the operation and primitive whose values must agree.
#[derive(Clone, Debug)]
pub struct Mapping {
    pub start: String,
    pub end: String,
    pub start_node: u64,
    pub end_node: u64,
    pub op: String,
    pub primitive: String,
}

impl Mapping {
    pub fn new(start: String, end: String, start_node: u64, end_node: u64, op: String,
        primitive: String) -> (r: Mapping)
        ensures
            r.start == start,
            r.end == end,
            r.start_node == start_node,
            r.end_node == end_node,
            r.op == op,
            r.primitive == primitive,
    {
        Mapping { start, end, start_node, end_node, op, primitive }
    }
}

/// A reported value mismatch, carrying the mapping's identity and the two
/// values that disagreed.
#[derive(Clone, Debug)]
pub struct Mismatch {
    pub op: String,
    pub state: String,
    pub primitive: String,
    pub expected: VALUE,
    pub got: VALUE,
}

/// The skewed queue of one mapping.  `high` says which side the stored
/// values belong to: true means the timed side is ahead by the queue's
/// length, false means the hardware side is.
#[derive(Clone, Debug)]
pub struct Compare {
    pub store: VecDeque<VALUE>,
    pub high: bool,
    pub op: String,
    pub state: String,
    pub primitive: String,
}

impl Compare {
    /// The values waiting to be matched, oldest first.
    pub open spec fn view(&self) -> Seq<VALUE> {
        self.store@
    }

    /// Whether the waiting values came from the timed (high) side.
    pub open spec fn spec_high(&self) -> bool {
        self.high
    }

    pub fn new(op: String, state: String, primitive: String) -> (r: Compare)
        ensures
            r@ == Seq::<VALUE>::empty(),
            r.spec_high() == true,
            r.op == op,
            r.state == state,
            r.primitive == primitive,
    {
        Compare { store: VecDeque::new(), high: true, op, state, primitive }
    }

    /// The signed backlog: positive when the timed side is ahead by that
    /// many values, negative when the hardware side is.
    pub fn size(&self) -> (r: i64)
        requires
            self@.len() <= i64::MAX,
        ensures
            self.spec_high() ==> r == self@.len(),
            !self.spec_high() ==> r == -(self@.len() as int),
    {
        if self.high {
            self.store.len() as i64
        } else {
            -(self.store.len() as i64)
        }
    }

    pub fn is_high(&self) -> (r: bool)
        ensures
            r == (self.spec_high() || self@.len() == 0),
    {
        self.high || self.store.len() == 0
    }

    pub fn is_low(&self) -> (r: bool)
        ensures
            r == (!self.spec_high() || self@.len() == 0),
    {
        !self.high || self.store.len() == 0
    }

    /// Record a value from the timed side.  If that side is ahead (or the
    /// queue is empty) the value waits; otherwise it must match the oldest
    /// waiting hardware value, which leaves the queue — in FIFO order,
    /// each value matched exactly once.
    pub fn push_high(&mut self, value: VALUE) -> (r: Option<Mismatch>)
        ensures
            final(self).op == old(self).op,
            final(self).state == old(self).state,
            final(self).primitive == old(self).primitive,
            old(self).spec_high() || old(self)@.len() == 0 ==> r is None && final(self)@ == old(
                self,
            )@.push(value) && final(self).spec_high() == true,
            !old(self).spec_high() && old(self)@.len() > 0 ==> final(self)@ == old(
                self,
            )@.drop_first() && final(self).spec_high() == old(self).spec_high() && (r is None <==> old(
                self,
            )@[0] == value),
            r matches Some(m) ==> !old(self).spec_high() && old(self)@.len() > 0 && m.expected
                == old(self)@[0] && m.got == value && m.op == old(self).op && m.state == old(
                self,
            ).state && m.primitive == old(self).primitive,
    {
        if self.high {
            self.store.push_back(value);
            None
        } else if self.store.len() == 0 {
            self.high = true;
            self.store.push_back(value);
            None
        } else {
            let head = match self.store.pop_front() {
                Some(h) => h,
                None => VALUE::ERROR,
            };
            proof {
                assert(final(self)@ =~= old(self)@.drop_first());
            }
            if head == value {
                None
            } else {
                Some(
                    Mismatch {
                        op: self.op.clone(),
                        state: self.state.clone(),
                        primitive: self.primitive.clone(),
                        expected: head,
                        got: value,
                    },
                )
            }
        }
    }

    /// Record a value from the hardware side; the mirror of `push_high`.
    pub fn push_low(&mut self, value: VALUE) -> (r: Option<Mismatch>)
        ensures
            final(self).op == old(self).op,
            final(self).state == old(self).state,
            final(self).primitive == old(self).primitive,
            !old(self).spec_high() || old(self)@.len() == 0 ==> r is None && final(self)@ == old(
                self,
            )@.push(value) && final(self).spec_high() == false,
            old(self).spec_high() && old(self)@.len() > 0 ==> final(self)@ == old(
                self,
            )@.drop_first() && final(self).spec_high() == old(self).spec_high() && (r is None <==> old(
                self,
            )@[0] == value),
            r matches Some(m) ==> old(self).spec_high() && old(self)@.len() > 0 && m.expected
                == old(self)@[0] && m.got == value && m.op == old(self).op && m.state == old(
                self,
            ).state && m.primitive == old(self).primitive,
    {
        if !self.high {
            self.store.push_back(value);
            None
        } else if self.store.len() == 0 {
            self.high = false;
            self.store.push_back(value);
            None
        } else {
            let head = match self.store.pop_front() {
                Some(h) => h,
                None => VALUE::ERROR,
            };
            proof {
                assert(final(self)@ =~= old(self)@.drop_first());
            }
            if head == value {
                None
            } else {
                Some(
                    Mismatch {
                        op: self.op.clone(),
                        state: self.state.clone(),
                        primitive: self.primitive.clone(),
                        expected: head,
                        got: value,
                    },
                )
            }
        }
    }

    /// Whether the queue has drained: every recorded value has been
    /// matched by exactly one value of the other side.
    pub fn is_drained(&self) -> (r: bool)
        ensures
            r == (self@.len() == 0),
    {
        self.store.len() == 0
    }
}

/// What the cosimulation loop does next, decided from the two engines'
/// finish flags and a mapping's signed backlog.
#[derive(Clone, Copy, PartialEq, Eq, Structural, Debug)]
pub struct CosimAction {
    pub finished: bool,
    pub run_high: bool,
    pub run_low: bool,
}

/// The coordinator's scheduling rule: when both sides report finish the
/// run is over; otherwise the timed side advances while its backlog is
/// under ten values ahead, and the hardware side advances while it is
/// under ten values ahead — so the slower side always catches up and
/// neither runs unboundedly ahead.
pub open spec fn spec_cosim_decide(high_done: bool, low_done: bool, size: i64) -> CosimAction {
    CosimAction {
        finished: high_done && low_done,
        run_high: !(high_done && low_done) && !high_done && size > -10,
        run_low: !(high_done && low_done) && !low_done && size < 10,
    }
}

/// Decide one iteration of the cosimulation loop; see `spec_cosim_decide`.
pub fn cosim_decide(high_done: bool, low_done: bool, size: i64) -> (r: CosimAction)
    ensures
        r == spec_cosim_decide(high_done, low_done, size),
{
    let finished = high_done && low_done;
    CosimAction {
        finished,
        run_high: !finished && !high_done && size > -10,
        run_low: !finished && !low_done && size < 10,
    }
}

} // verus!
