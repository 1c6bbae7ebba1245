//! The elastic handshake primitives: valid/ready back-pressured units that
//! form a dataflow network, run to a fixed point each cycle.
//!
//! Every primitive follows the same shape: `propagate` recomputes its
//! combinational outputs from its current inputs and registers and reports
//! which ports changed; `update` commits registers at end-of-cycle and
//! reports whether anything committed.  Each `propagate` is specified by a
//! pure function of the unit's state, so settledness — a re-propagation
//! reporting no change — is a provable property.

use vstd::prelude::*;

verus! {

use std::collections::VecDeque;
use crate::value::{VALUE, Ty};
use crate::value;

/// One handshake port: a data payload with its valid and ready wires.
/// Change detection for rescheduling compares `(valid, data)` on the
/// forward path and `ready` on the backward path.
#[derive(Clone, Copy, PartialEq, Eq, Structural, Debug)]
pub struct HandshakeValue {
    pub valid: bool,
    pub ready: bool,
    pub data: VALUE,
}

pub open spec fn hv_set_valid(hv: HandshakeValue, valid: bool, data: VALUE) -> (HandshakeValue,
    bool) {
    (
        HandshakeValue { valid, data, ready: hv.ready },
        hv.valid != valid || hv.data != data,
    )
}

pub open spec fn hv_set_ready(hv: HandshakeValue, ready: bool) -> (HandshakeValue, bool) {
    (HandshakeValue { ready, ..hv }, hv.ready != ready)
}

impl HandshakeValue {
    pub fn new(val: VALUE) -> (r: HandshakeValue)
        ensures
            r == (HandshakeValue { valid: false, ready: false, data: val }),
    {
        HandshakeValue { valid: false, ready: false, data: val }
    }

    pub fn empty() -> (r: HandshakeValue)
        ensures
            r == (HandshakeValue { valid: false, ready: false, data: VALUE::ERROR }),
    {
        HandshakeValue::new(VALUE::ERROR)
    }

    /// Drive the forward wires; reports whether `(valid, data)` changed.
    pub fn set_valid(&mut self, new_valid: bool, data: VALUE) -> (changed: bool)
        ensures
            (*final(self), changed) == hv_set_valid(*old(self), new_valid, data),
    {
        if self.valid != new_valid || self.data != data {
            self.valid = new_valid;
            self.data = data;
            true
        } else {
            false
        }
    }

    /// Copy another port's forward wires onto this one.
    pub fn set_valid_from(&mut self, token: HandshakeValue) -> (changed: bool)
        ensures
            (*final(self), changed) == hv_set_valid(*old(self), token.valid, token.data),
    {
        self.set_valid(token.valid, token.data)
    }

    /// Copy another port's valid wire, dropping the payload.
    pub fn set_valid_only(&mut self, token: HandshakeValue) -> (changed: bool)
        ensures
            (*final(self), changed) == hv_set_valid(*old(self), token.valid, VALUE::ERROR),
    {
        self.set_valid(token.valid, VALUE::ERROR)
    }

    /// Drive the backward wire; reports whether `ready` changed.
    pub fn set_ready(&mut self, new_ready: bool) -> (changed: bool)
        ensures
            (*final(self), changed) == hv_set_ready(*old(self), new_ready),
    {
        if self.ready != new_ready {
            self.ready = new_ready;
            true
        } else {
            false
        }
    }

    pub fn set_ready_from(&mut self, token: HandshakeValue) -> (changed: bool)
        ensures
            (*final(self), changed) == hv_set_ready(*old(self), token.ready),
    {
        self.set_ready(token.ready)
    }
}

/// A clocked register: `set_value`/`set_enable` stage a value for the next
/// cycle; `update` commits and reports whether the stored value changed.
#[derive(Clone, Copy, PartialEq, Eq, Structural, Debug)]
pub struct Reg {
    pub enable: Option<bool>,
    pub value: VALUE,
    pub new_value: VALUE,
}

pub open spec fn reg_set(r: Reg, v: VALUE) -> Reg {
    Reg { enable: Some(true), value: r.value, new_value: v }
}

pub open spec fn reg_set_enable(r: Reg, enable: bool, v: VALUE) -> Reg {
    Reg { enable: Some(enable), value: r.value, new_value: v }
}

pub open spec fn reg_update(r: Reg) -> (Reg, bool) {
    match r.enable {
        Some(true) => (
            Reg { enable: None, value: r.new_value, new_value: VALUE::ERROR },
            r.value != r.new_value,
        ),
        _ => (Reg { enable: None, value: r.value, new_value: VALUE::ERROR }, false),
    }
}

impl Reg {
    pub fn new() -> (r: Reg)
        ensures
            r == (Reg { enable: None, value: VALUE::ERROR, new_value: VALUE::ERROR }),
    {
        Reg { enable: None, value: VALUE::ERROR, new_value: VALUE::ERROR }
    }

    pub fn init(val: VALUE) -> (r: Reg)
        ensures
            r == (Reg { enable: None, value: val, new_value: VALUE::ERROR }),
    {
        Reg { enable: None, value: val, new_value: VALUE::ERROR }
    }

    pub fn set_value(&mut self, val: VALUE)
        ensures
            *final(self) == reg_set(*old(self), val),
    {
        self.enable = Some(true);
        self.new_value = val;
    }

    pub fn get_value(&self) -> (r: VALUE)
        ensures
            r == self.value,
    {
        self.value
    }

    pub fn set_enable(&mut self, enable: bool, val: VALUE)
        ensures
            *final(self) == reg_set_enable(*old(self), enable, val),
    {
        self.enable = Some(enable);
        self.new_value = val;
    }

    pub fn update(&mut self) -> (changed: bool)
        ensures
            (*final(self), changed) == reg_update(*old(self)),
    {
        match self.enable {
            Some(true) => {
                let flag = self.value != self.new_value;
                self.value = self.new_value;
                self.new_value = VALUE::ERROR;
                self.enable = None;
                flag
            },
            _ => {
                self.new_value = VALUE::ERROR;
                self.enable = None;
                false
            },
        }
    }
}

/// A named port of a handshake unit, pre-parsed from the textual form the
/// IR uses (`data_in.3` becomes `DataIn(3)`).
#[derive(Clone, Copy, PartialEq, Eq, Structural, Debug)]
pub enum PortId {
    DataIn(usize),
    DataOut(usize),
    Condition,
    AddressIn,
    AddressOut,
    Control,
    Operand(usize),
    Result,
    LoadAddress(usize),
    LoadData(usize),
    StoreAddress(usize),
    StoreData(usize),
}

/// The join algebra: the output is valid when every input is, and input
/// `i` is ready when the output is ready and every other input is valid.
#[derive(Clone, Debug)]
pub struct Join {
    pub data_in: Vec<HandshakeValue>,
    pub data_out: HandshakeValue,
}

pub open spec fn join_in_ready(ins: Seq<HandshakeValue>, out_ready: bool, idx: int) -> bool {
    forall|j: int| 0 <= j < ins.len() && j != idx ==> #[trigger] ins[j].valid
}

pub open spec fn join_all_valid(ins: Seq<HandshakeValue>) -> bool {
    forall|j: int| 0 <= j < ins.len() ==> #[trigger] ins[j].valid
}

impl Join {
    pub fn new() -> (r: Join)
        ensures
            r.data_in@.len() == 2,
            r.data_in@[0] == (HandshakeValue { valid: false, ready: false, data: VALUE::ERROR }),
            r.data_in@[1] == (HandshakeValue { valid: false, ready: false, data: VALUE::ERROR }),
            r.data_out == (HandshakeValue { valid: false, ready: false, data: VALUE::ERROR }),
    {
        Join::set(2)
    }

    pub fn set(size: usize) -> (r: Join)
        ensures
            r.data_in@.len() == size,
            forall|i: int|
                0 <= i < size ==> r.data_in@[i] == (HandshakeValue {
                    valid: false,
                    ready: false,
                    data: VALUE::ERROR,
                }),
            r.data_out == (HandshakeValue { valid: false, ready: false, data: VALUE::ERROR }),
    {
        let mut data_in: Vec<HandshakeValue> = Vec::new();
        let mut i: usize = 0;
        while i < size
            invariant
                i <= size,
                data_in@.len() == i,
                forall|j: int|
                    0 <= j < i ==> data_in@[j] == (HandshakeValue {
                        valid: false,
                        ready: false,
                        data: VALUE::ERROR,
                    }),
            decreases size - i,
        {
            data_in.push(HandshakeValue::empty());
            i = i + 1;
        }
        Join { data_in, data_out: HandshakeValue::empty() }
    }

    pub fn propagate(&mut self)
        ensures
            final(self).data_in@.len() == old(self).data_in@.len(),
            final(self).data_out == (HandshakeValue {
                valid: join_all_valid(old(self).data_in@),
                ..old(self).data_out
            }),
            forall|i: int|
                0 <= i < old(self).data_in@.len() ==> final(self).data_in@[i]
                    == (HandshakeValue {
                    ready: old(self).data_out.ready && join_in_ready(
                        old(self).data_in@,
                        old(self).data_out.ready,
                        i,
                    ),
                    ..old(self).data_in@[i]
                }),
    {
        let n = self.data_in.len();
        let mut all_valid = true;
        let mut i: usize = 0;
        while i < n
            invariant
                i <= n,
                n == self.data_in@.len(),
                all_valid == (forall|j: int| 0 <= j < i ==> #[trigger] self.data_in@[j].valid),
            decreases n - i,
        {
            if !self.data_in[i].valid {
                all_valid = false;
            }
            i = i + 1;
        }
        self.data_out.valid = all_valid;

        let ghost orig = old(self).data_in@;
        let out_ready = self.data_out.ready;
        let mut idx: usize = 0;
        while idx < n
            invariant
                idx <= n,
                n == self.data_in@.len(),
                n == orig.len(),
                out_ready == old(self).data_out.ready,
                self.data_out == (HandshakeValue {
                    valid: join_all_valid(orig),
                    ..old(self).data_out
                }),
                forall|j: int|
                    0 <= j < n ==> (#[trigger] self.data_in@[j]).valid == orig[j].valid
                        && self.data_in@[j].data == orig[j].data,
                forall|j: int|
                    idx <= j < n ==> (#[trigger] self.data_in@[j]).ready == orig[j].ready,
                forall|j: int|
                    0 <= j < idx ==> (#[trigger] self.data_in@[j]).ready == (out_ready
                        && join_in_ready(orig, out_ready, j)),
            decreases n - idx,
        {
            let mut others = true;
            let mut k: usize = 0;
            while k < n
                invariant
                    k <= n,
                    idx < n,
                    n == self.data_in@.len(),
                    n == orig.len(),
                    forall|j: int|
                        0 <= j < n ==> (#[trigger] self.data_in@[j]).valid == orig[j].valid,
                    others == (forall|j: int|
                        0 <= j < k && j != idx ==> #[trigger] orig[j].valid),
                decreases n - k,
            {
                if k != idx && !self.data_in[k].valid {
                    others = false;
                }
                k = k + 1;
            }
            let hv = self.data_in[idx];
            self.data_in.set(
                idx,
                HandshakeValue { ready: out_ready && others, ..hv },
            );
            idx = idx + 1;
        }
    }
}

/// The transparent elastic half-buffer: a one-deep back-pressure absorber.
/// Input ready is the negation of the full register; the output carries the
/// incoming token while empty and the latched token while full.
#[derive(Clone, Copy, PartialEq, Eq, Structural, Debug)]
pub struct TEHB {
    pub data_in: HandshakeValue,
    pub data_out: HandshakeValue,
    pub full_reg: Reg,
    pub data_reg: Reg,
}

/// The settled state one propagation computes from a TEHB state.
pub open spec fn tehb_propagate(t: TEHB) -> TEHB {
    let full = value::spec_as_bool(t.full_reg.value);
    let din = HandshakeValue { ready: !full, ..t.data_in };
    let reg_en = din.ready && din.valid && !t.data_out.ready;
    let data_reg = reg_set_enable(t.data_reg, reg_en, din.data);
    let out_valid = din.valid || full;
    let out_data = if full {
        data_reg.value
    } else {
        din.data
    };
    let dout = HandshakeValue { valid: out_valid, data: out_data, ready: t.data_out.ready };
    let full_reg = reg_set(t.full_reg, VALUE::Bool(out_valid && !t.data_out.ready));
    TEHB { data_in: din, data_out: dout, full_reg, data_reg }
}

impl TEHB {
    pub fn new() -> (r: TEHB)
        ensures
            r == (TEHB {
                data_in: HandshakeValue { valid: false, ready: false, data: VALUE::ERROR },
                data_out: HandshakeValue { valid: false, ready: false, data: VALUE::ERROR },
                full_reg: Reg { enable: None, value: VALUE::ERROR, new_value: VALUE::ERROR },
                data_reg: Reg { enable: None, value: VALUE::ERROR, new_value: VALUE::ERROR },
            }),
    {
        TEHB {
            data_in: HandshakeValue::empty(),
            data_out: HandshakeValue::empty(),
            full_reg: Reg::new(),
            data_reg: Reg::new(),
        }
    }

    pub fn get_ready(&self) -> (r: bool)
        ensures
            r == !value::spec_as_bool(self.full_reg.value),
    {
        !self.full_reg.get_value().as_bool()
    }

    pub fn init(&mut self)
        ensures
            *final(self) == tehb_propagate(
                TEHB {
                    full_reg: Reg { enable: None, value: VALUE::Bool(false), new_value: VALUE::ERROR },
                    data_reg: Reg { enable: None, value: VALUE::U32(0), new_value: VALUE::ERROR },
                    ..*old(self)
                },
            ),
    {
        self.full_reg = Reg::init(VALUE::Bool(false));
        self.data_reg = Reg::init(VALUE::U32(0));
        self.propagate();
    }

    /// Recompute outputs; reports whether `data_in.ready` and the forward
    /// pair of `data_out` changed.
    pub fn propagate(&mut self) -> (r: (bool, bool))
        ensures
            *final(self) == tehb_propagate(*old(self)),
            r.0 == (old(self).data_in.ready != final(self).data_in.ready),
            r.1 == (old(self).data_out.valid != final(self).data_out.valid || old(
                self,
            ).data_out.data != final(self).data_out.data),
    {
        let full_reg = self.full_reg.get_value().as_bool();
        let c_in = self.data_in.set_ready(!full_reg);
        let reg_en = self.data_in.ready && self.data_in.valid && !self.data_out.ready;
        self.data_reg.set_enable(reg_en, self.data_in.data);
        let c_out = self.data_out.set_valid(
            self.data_in.valid || full_reg,
            if full_reg {
                self.data_reg.get_value()
            } else {
                self.data_in.data
            },
        );
        self.full_reg.set_value(VALUE::Bool(self.data_out.valid && !self.data_out.ready));
        (c_in, c_out)
    }

    pub fn update(&mut self) -> (changed: bool)
        ensures
            final(self).data_in == old(self).data_in,
            final(self).data_out == old(self).data_out,
            (final(self).full_reg, final(self).data_reg) == (
                reg_update(old(self).full_reg).0,
                reg_update(old(self).data_reg).0,
            ),
            changed == (reg_update(old(self).full_reg).1 || reg_update(old(self).data_reg).1),
    {
        let a = self.full_reg.update();
        let b = self.data_reg.update();
        a || b
    }
}

/// The opaque elastic half-buffer: a one-deep forward register adding one
/// cycle of latency; the output always drives the latched value.
#[derive(Clone, Copy, PartialEq, Eq, Structural, Debug)]
pub struct OEHB {
    pub data_in: HandshakeValue,
    pub data_out: HandshakeValue,
    pub full_reg: Reg,
    pub data_reg: Reg,
}

pub open spec fn oehb_propagate(t: OEHB) -> OEHB {
    let full = value::spec_as_bool(t.full_reg.value);
    let din = HandshakeValue { ready: !full || t.data_out.ready, ..t.data_in };
    let reg_en = din.ready && din.valid;
    let data_reg = reg_set_enable(t.data_reg, reg_en, din.data);
    let full_reg = reg_set(t.full_reg, VALUE::Bool(din.valid || !din.ready));
    let dout = HandshakeValue { valid: full, data: data_reg.value, ready: t.data_out.ready };
    OEHB { data_in: din, data_out: dout, full_reg, data_reg }
}

impl OEHB {
    pub fn new() -> (r: OEHB)
        ensures
            r == (OEHB {
                data_in: HandshakeValue { valid: false, ready: false, data: VALUE::ERROR },
                data_out: HandshakeValue { valid: false, ready: false, data: VALUE::ERROR },
                full_reg: Reg { enable: None, value: VALUE::ERROR, new_value: VALUE::ERROR },
                data_reg: Reg { enable: None, value: VALUE::ERROR, new_value: VALUE::ERROR },
            }),
    {
        OEHB {
            data_in: HandshakeValue::empty(),
            data_out: HandshakeValue::empty(),
            full_reg: Reg::new(),
            data_reg: Reg::new(),
        }
    }

    pub fn get_ready(&self, out_ready: bool) -> (r: bool)
        ensures
            r == (!value::spec_as_bool(self.full_reg.value) || out_ready),
    {
        !self.full_reg.get_value().as_bool() || out_ready
    }

    pub fn init(&mut self)
        ensures
            *final(self) == oehb_propagate(
                OEHB {
                    full_reg: Reg { enable: None, value: VALUE::Bool(false), new_value: VALUE::ERROR },
                    data_reg: Reg { enable: None, value: VALUE::U32(0), new_value: VALUE::ERROR },
                    ..*old(self)
                },
            ),
    {
        self.full_reg = Reg::init(VALUE::Bool(false));
        self.data_reg = Reg::init(VALUE::U32(0));
        self.propagate();
    }

    pub fn propagate(&mut self) -> (r: (bool, bool))
        ensures
            *final(self) == oehb_propagate(*old(self)),
            r.0 == (old(self).data_in.ready != final(self).data_in.ready),
            r.1 == (old(self).data_out.valid != final(self).data_out.valid || old(
                self,
            ).data_out.data != final(self).data_out.data),
    {
        let full_reg = self.full_reg.get_value().as_bool();
        let c_in = self.data_in.set_ready(!full_reg || self.data_out.ready);
        let reg_en = self.data_in.ready && self.data_in.valid;
        self.data_reg.set_enable(reg_en, self.data_in.data);
        self.full_reg.set_value(VALUE::Bool(self.data_in.valid || !self.data_in.ready));
        let c_out = self.data_out.set_valid(full_reg, self.data_reg.get_value());
        (c_in, c_out)
    }

    pub fn update(&mut self) -> (changed: bool)
        ensures
            final(self).data_in == old(self).data_in,
            final(self).data_out == old(self).data_out,
            (final(self).full_reg, final(self).data_reg) == (
                reg_update(old(self).full_reg).0,
                reg_update(old(self).data_reg).0,
            ),
            changed == (reg_update(old(self).full_reg).1 || reg_update(old(self).data_reg).1),
    {
        let a = self.full_reg.update();
        let b = self.data_reg.update();
        a || b
    }
}

/// The committed form of a TEHB at end of cycle: both registers commit,
/// ports stay; the flag reports whether a stored value changed.
pub open spec fn tehb_commit(t: TEHB) -> (TEHB, bool) {
    let (fr, c1) = reg_update(t.full_reg);
    let (dr, c2) = reg_update(t.data_reg);
    (TEHB { full_reg: fr, data_reg: dr, ..t }, c1 || c2)
}

pub open spec fn oehb_commit(t: OEHB) -> (OEHB, bool) {
    let (fr, c1) = reg_update(t.full_reg);
    let (dr, c2) = reg_update(t.data_reg);
    (OEHB { full_reg: fr, data_reg: dr, ..t }, c1 || c2)
}

/// A full-rate decoupling buffer: a TEHB feeding an OEHB.
#[derive(Clone, Copy, PartialEq, Eq, Structural, Debug)]
pub struct ElasticBuffer {
    pub data_in: HandshakeValue,
    pub data_out: HandshakeValue,
    pub tehb: TEHB,
    pub oehb: OEHB,
}

pub open spec fn eb_propagate(b: ElasticBuffer) -> ElasticBuffer {
    let new_ready = !value::spec_as_bool(b.oehb.full_reg.value) || b.data_out.ready;
    let (tin, c1) = hv_set_valid(b.tehb.data_in, b.data_in.valid, b.data_in.data);
    let (tout, c2) = hv_set_ready(b.tehb.data_out, new_ready);
    let t1 = TEHB { data_in: tin, data_out: tout, ..b.tehb };
    let t2 = if c1 || c2 {
        tehb_propagate(t1)
    } else {
        t1
    };
    let (oout, c3) = hv_set_ready(b.oehb.data_out, b.data_out.ready);
    let (oin, c4) = hv_set_valid(b.oehb.data_in, t2.data_out.valid, t2.data_out.data);
    let o1 = OEHB { data_in: oin, data_out: oout, ..b.oehb };
    let o2 = if c3 || c4 {
        oehb_propagate(o1)
    } else {
        o1
    };
    let (din, _) = hv_set_ready(b.data_in, t2.data_in.ready);
    let (dout, _) = hv_set_valid(b.data_out, o2.data_out.valid, o2.data_out.data);
    ElasticBuffer { data_in: din, data_out: dout, tehb: t2, oehb: o2 }
}

impl ElasticBuffer {
    pub fn new() -> (r: ElasticBuffer)
        ensures
            r.data_in == (HandshakeValue { valid: false, ready: false, data: VALUE::ERROR }),
            r.data_out == (HandshakeValue { valid: false, ready: false, data: VALUE::ERROR }),
            r.tehb == (TEHB {
                data_in: HandshakeValue { valid: false, ready: false, data: VALUE::ERROR },
                data_out: HandshakeValue { valid: false, ready: false, data: VALUE::ERROR },
                full_reg: Reg { enable: None, value: VALUE::ERROR, new_value: VALUE::ERROR },
                data_reg: Reg { enable: None, value: VALUE::ERROR, new_value: VALUE::ERROR },
            }),
            r.oehb == (OEHB {
                data_in: HandshakeValue { valid: false, ready: false, data: VALUE::ERROR },
                data_out: HandshakeValue { valid: false, ready: false, data: VALUE::ERROR },
                full_reg: Reg { enable: None, value: VALUE::ERROR, new_value: VALUE::ERROR },
                data_reg: Reg { enable: None, value: VALUE::ERROR, new_value: VALUE::ERROR },
            }),
    {
        ElasticBuffer {
            data_in: HandshakeValue::empty(),
            data_out: HandshakeValue::empty(),
            tehb: TEHB::new(),
            oehb: OEHB::new(),
        }
    }

    /// A freshly initialised buffer, registers cleared and settled.
    pub fn set() -> (r: ElasticBuffer)
        ensures
            r.data_in == (HandshakeValue { valid: false, ready: false, data: VALUE::ERROR }),
            r.data_out == (HandshakeValue { valid: false, ready: false, data: VALUE::ERROR }),
            r.tehb == tehb_propagate(
                TEHB {
                    data_in: HandshakeValue { valid: false, ready: false, data: VALUE::ERROR },
                    data_out: HandshakeValue { valid: false, ready: false, data: VALUE::ERROR },
                    full_reg: Reg { enable: None, value: VALUE::Bool(false), new_value: VALUE::ERROR },
                    data_reg: Reg { enable: None, value: VALUE::U32(0), new_value: VALUE::ERROR },
                },
            ),
            r.oehb == oehb_propagate(
                OEHB {
                    data_in: HandshakeValue { valid: false, ready: false, data: VALUE::ERROR },
                    data_out: HandshakeValue { valid: false, ready: false, data: VALUE::ERROR },
                    full_reg: Reg { enable: None, value: VALUE::Bool(false), new_value: VALUE::ERROR },
                    data_reg: Reg { enable: None, value: VALUE::U32(0), new_value: VALUE::ERROR },
                },
            ),
    {
        let mut buffer = ElasticBuffer::new();
        buffer.init();
        buffer
    }

    pub fn init(&mut self)
        ensures
            final(self).data_in == old(self).data_in,
            final(self).data_out == old(self).data_out,
            final(self).tehb == tehb_propagate(
                TEHB {
                    full_reg: Reg { enable: None, value: VALUE::Bool(false), new_value: VALUE::ERROR },
                    data_reg: Reg { enable: None, value: VALUE::U32(0), new_value: VALUE::ERROR },
                    ..old(self).tehb
                },
            ),
            final(self).oehb == oehb_propagate(
                OEHB {
                    full_reg: Reg { enable: None, value: VALUE::Bool(false), new_value: VALUE::ERROR },
                    data_reg: Reg { enable: None, value: VALUE::U32(0), new_value: VALUE::ERROR },
                    ..old(self).oehb
                },
            ),
    {
        self.tehb.init();
        self.oehb.init();
    }

    pub fn propagate(&mut self) -> (r: (bool, bool))
        ensures
            *final(self) == eb_propagate(*old(self)),
            r.0 == (old(self).data_in.ready != final(self).data_in.ready),
            r.1 == (old(self).data_out.valid != final(self).data_out.valid || old(
                self,
            ).data_out.data != final(self).data_out.data),
    {
        let new_ready = self.oehb.get_ready(self.data_out.ready);
        let c1 = self.tehb.data_in.set_valid_from(self.data_in);
        let c2 = self.tehb.data_out.set_ready(new_ready);
        if c1 || c2 {
            self.tehb.propagate();
        }
        let c3 = self.oehb.data_out.set_ready_from(self.data_out);
        let c4 = self.oehb.data_in.set_valid_from(self.tehb.data_out);
        if c3 || c4 {
            self.oehb.propagate();
        }
        let r_in = self.data_in.set_ready_from(self.tehb.data_in);
        let r_out = self.data_out.set_valid_from(self.oehb.data_out);
        (r_in, r_out)
    }

    pub fn update(&mut self) -> (changed: bool)
        ensures
            final(self).data_in == old(self).data_in,
            final(self).data_out == old(self).data_out,
            ({
                let (t1, c1) = tehb_commit(old(self).tehb);
                let (o1, c2) = oehb_commit(old(self).oehb);
                &&& final(self).tehb == (if c1 {
                    tehb_propagate(t1)
                } else {
                    t1
                })
                &&& final(self).oehb == (if c2 {
                    oehb_propagate(o1)
                } else {
                    o1
                })
                &&& changed == (c1 || c2)
            }),
    {
        let mut flag = false;
        if self.tehb.update() {
            self.tehb.propagate();
            flag = true;
        }
        if self.oehb.update() {
            self.oehb.propagate();
            flag = true;
        }
        flag
    }
}

/// The first valid input of a merge, scanned in port order.
pub open spec fn first_valid(ins: Seq<HandshakeValue>) -> Option<VALUE>
    decreases ins.len(),
{
    if ins.len() == 0 {
        None
    } else if ins[0].valid {
        Some(ins[0].data)
    } else {
        first_valid(ins.drop_first())
    }
}

proof fn lemma_first_valid_skip(ins: Seq<HandshakeValue>, i: int)
    requires
        0 <= i <= ins.len(),
        forall|j: int| 0 <= j < i ==> !(#[trigger] ins[j].valid),
    ensures
        first_valid(ins) == first_valid(ins.skip(i)),
    decreases i,
{
    if i > 0 {
        lemma_first_valid_skip(ins, i - 1);
        assert(ins.skip(i - 1).drop_first() =~= ins.skip(i));
        assert(ins.skip(i - 1)[0] == ins[i - 1]);
    } else {
        assert(ins.skip(0) =~= ins);
    }
}

/// Scan for the first valid input; `(false, ERROR)` when none is valid.
fn pick_first_valid(ins: &Vec<HandshakeValue>) -> (r: (bool, VALUE))
    ensures
        r == (match first_valid(ins@) {
            Some(d) => (true, d),
            None => (false, VALUE::ERROR),
        }),
{
    let n = ins.len();
    let mut i: usize = 0;
    while i < n
        invariant
            i <= n,
            n == ins@.len(),
            forall|j: int| 0 <= j < i ==> !(#[trigger] ins@[j].valid),
        decreases n - i,
    {
        if ins[i].valid {
            proof {
                lemma_first_valid_skip(ins@, i as int);
                assert(ins@.skip(i as int)[0] == ins@[i as int]);
            }
            return (true, ins[i].data);
        }
        i = i + 1;
    }
    proof {
        lemma_first_valid_skip(ins@, n as int);
        assert(ins@.skip(n as int).len() == 0);
    }
    (false, VALUE::ERROR)
}

/// The combinational merge: the first valid input wins, and every input
/// sees the output's ready.
#[derive(Clone, Debug)]
pub struct MergeNoTehb {
    pub data_in: Vec<HandshakeValue>,
    pub data_out: HandshakeValue,
}

impl MergeNoTehb {
    pub fn new() -> (r: MergeNoTehb)
        ensures
            r.data_in@.len() == 0,
            r.data_out == (HandshakeValue { valid: false, ready: false, data: VALUE::ERROR }),
    {
        MergeNoTehb { data_in: Vec::new(), data_out: HandshakeValue::empty() }
    }

    pub fn set(size: usize) -> (r: MergeNoTehb)
        ensures
            r.data_in@.len() == size,
            forall|i: int|
                0 <= i < size ==> r.data_in@[i] == (HandshakeValue {
                    valid: false,
                    ready: false,
                    data: VALUE::ERROR,
                }),
            r.data_out == (HandshakeValue { valid: false, ready: false, data: VALUE::ERROR }),
    {
        let j = Join::set(size);
        MergeNoTehb { data_in: j.data_in, data_out: HandshakeValue::empty() }
    }

    pub fn propagate(&mut self) -> (changed: Vec<PortId>)
        ensures
            final(self).data_in@.len() == old(self).data_in@.len(),
            forall|i: int|
                0 <= i < old(self).data_in@.len() ==> final(self).data_in@[i]
                    == (HandshakeValue { ready: old(self).data_out.ready, ..old(self).data_in@[i] }),
            final(self).data_out == (match first_valid(old(self).data_in@) {
                Some(d) => HandshakeValue { valid: true, data: d, ready: old(self).data_out.ready },
                None => HandshakeValue {
                    valid: false,
                    data: VALUE::ERROR,
                    ready: old(self).data_out.ready,
                },
            }),
    {
        let (tmp_valid, tmp_data) = pick_first_valid(&self.data_in);
        let mut changed: Vec<PortId> = Vec::new();
        let n = self.data_in.len();
        let ghost orig = self.data_in@;
        let out_ready = self.data_out.ready;
        let mut i: usize = 0;
        while i < n
            invariant
                i <= n,
                n == self.data_in@.len(),
                n == orig.len(),
                out_ready == self.data_out.ready,
                self.data_out == old(self).data_out,
                forall|j: int|
                    0 <= j < n ==> (#[trigger] self.data_in@[j]).valid == orig[j].valid
                        && self.data_in@[j].data == orig[j].data,
                forall|j: int| i <= j < n ==> (#[trigger] self.data_in@[j]).ready == orig[j].ready,
                forall|j: int| 0 <= j < i ==> (#[trigger] self.data_in@[j]).ready == out_ready,
            decreases n - i,
        {
            let hv = self.data_in[i];
            let (nv, ch) = hv_ready_to(hv, out_ready);
            self.data_in.set(i, nv);
            if ch {
                changed.push(PortId::DataIn(i));
            }
            i = i + 1;
        }
        if self.data_out.set_valid(tmp_valid, tmp_data) {
            changed.push(PortId::DataOut(0));
        }
        changed
    }
}

fn hv_ready_to(hv: HandshakeValue, ready: bool) -> (r: (HandshakeValue, bool))
    ensures
        r == hv_set_ready(hv, ready),
{
    (HandshakeValue { valid: hv.valid, ready, data: hv.data }, hv.ready != ready)
}

/// The buffered merge: the first valid input wins, passed through a TEHB.
#[derive(Clone, Debug)]
pub struct Merge {
    pub data_in: Vec<HandshakeValue>,
    pub data_out: HandshakeValue,
    pub tehb: TEHB,
}

pub open spec fn merge_tehb_after(m_data_in: Seq<HandshakeValue>, m_data_out: HandshakeValue,
    tehb: TEHB) -> TEHB {
    let (tv, td) = (match first_valid(m_data_in) {
        Some(d) => (true, d),
        None => (false, VALUE::ERROR),
    });
    let (tin, c1) = hv_set_valid(tehb.data_in, tv, td);
    let (tout, c2) = hv_set_ready(tehb.data_out, m_data_out.ready);
    let t1 = TEHB { data_in: tin, data_out: tout, ..tehb };
    if c1 || c2 {
        tehb_propagate(t1)
    } else {
        t1
    }
}

impl Merge {
    pub fn new() -> (r: Merge)
        ensures
            r.data_in@.len() == 2,
            r.data_out == (HandshakeValue { valid: false, ready: false, data: VALUE::ERROR }),
            r.tehb == (TEHB {
                data_in: HandshakeValue { valid: false, ready: false, data: VALUE::ERROR },
                data_out: HandshakeValue { valid: false, ready: false, data: VALUE::ERROR },
                full_reg: Reg { enable: None, value: VALUE::ERROR, new_value: VALUE::ERROR },
                data_reg: Reg { enable: None, value: VALUE::ERROR, new_value: VALUE::ERROR },
            }),
    {
        let j = Join::set(2);
        Merge { data_in: j.data_in, data_out: HandshakeValue::empty(), tehb: TEHB::new() }
    }

    pub fn init(&mut self)
        ensures
            final(self).data_in == old(self).data_in,
            final(self).data_out == old(self).data_out,
    {
        self.tehb.init();
    }

    pub fn propagate(&mut self) -> (changed: Vec<PortId>)
        ensures
            ({
                let t2 = merge_tehb_after(old(self).data_in@, old(self).data_out, old(self).tehb);
                &&& final(self).tehb == t2
                &&& final(self).data_out == (HandshakeValue {
                    valid: t2.data_out.valid,
                    data: t2.data_out.data,
                    ready: old(self).data_out.ready,
                })
                &&& final(self).data_in@.len() == old(self).data_in@.len()
                &&& forall|i: int|
                    0 <= i < old(self).data_in@.len() ==> final(self).data_in@[i]
                        == (HandshakeValue { ready: t2.data_in.ready, ..old(self).data_in@[i] })
            }),
    {
        let (tmp_valid, tmp_data) = pick_first_valid(&self.data_in);
        let c1 = self.tehb.data_in.set_valid(tmp_valid, tmp_data);
        let c2 = self.tehb.data_out.set_ready_from(self.data_out);
        if c1 || c2 {
            self.tehb.propagate();
        }
        let mut changed: Vec<PortId> = Vec::new();
        if self.data_out.set_valid_from(self.tehb.data_out) {
            changed.push(PortId::DataOut(0));
        }
        let n = self.data_in.len();
        let ghost orig = old(self).data_in@;
        let in_ready = self.tehb.data_in.ready;
        let mut i: usize = 0;
        while i < n
            invariant
                i <= n,
                n == self.data_in@.len(),
                n == orig.len(),
                self.tehb == merge_tehb_after(orig, old(self).data_out, old(self).tehb),
                in_ready == self.tehb.data_in.ready,
                self.data_out == (HandshakeValue {
                    valid: self.tehb.data_out.valid,
                    data: self.tehb.data_out.data,
                    ready: old(self).data_out.ready,
                }),
                forall|j: int|
                    0 <= j < n ==> (#[trigger] self.data_in@[j]).valid == orig[j].valid
                        && self.data_in@[j].data == orig[j].data,
                forall|j: int| i <= j < n ==> (#[trigger] self.data_in@[j]).ready == orig[j].ready,
                forall|j: int| 0 <= j < i ==> (#[trigger] self.data_in@[j]).ready == in_ready,
            decreases n - i,
        {
            let hv = self.data_in[i];
            let (nv, ch) = hv_ready_to(hv, in_ready);
            self.data_in.set(i, nv);
            if ch {
                changed.push(PortId::DataIn(i));
            }
            i = i + 1;
        }
        changed
    }

    pub fn update(&mut self) -> (changed: bool)
        ensures
            final(self).data_in == old(self).data_in,
            final(self).data_out == old(self).data_out,
            ({
                let (t1, c1) = tehb_commit(old(self).tehb);
                &&& final(self).tehb == (if c1 {
                    tehb_propagate(t1)
                } else {
                    t1
                })
                &&& changed == c1
            }),
    {
        if self.tehb.update() {
            self.tehb.propagate();
            true
        } else {
            false
        }
    }
}

/// The eager fork: one sticky register per consumer gates its output; once
/// every consumer has accepted, all registers rearm; the input is ready
/// when no armed consumer is stalling.
#[derive(Clone, Debug)]
pub struct Fork {
    pub data_in: HandshakeValue,
    pub data_out: Vec<HandshakeValue>,
    pub sub_reg: Vec<Reg>,
}

pub open spec fn fork_wf(f: Fork) -> bool {
    f.data_out@.len() == f.sub_reg@.len()
}

pub open spec fn fork_reg(f: Fork, i: int) -> bool {
    value::spec_as_bool(f.sub_reg@[i].value)
}

pub open spec fn fork_block_stop(f: Fork, i: int) -> bool {
    fork_reg(f, i) && !f.data_out@[i].ready
}

pub open spec fn fork_any_stop(f: Fork) -> bool {
    exists|i: int| 0 <= i < f.sub_reg@.len() && fork_block_stop(f, i)
}

/// The value a propagation drives onto output `k` of a fork.
pub open spec fn fork_new_out(o: Fork, k: int) -> HandshakeValue {
    HandshakeValue {
        valid: fork_reg(o, k) && o.data_in.valid,
        data: o.data_in.data,
        ready: o.data_out@[k].ready,
    }
}

/// The staged value a propagation leaves in sticky register `k`.
pub open spec fn fork_new_reg(o: Fork, k: int) -> Reg {
    reg_set(
        o.sub_reg@[k],
        VALUE::Bool(fork_block_stop(o, k) || !(o.data_in.valid && fork_any_stop(o))),
    )
}

impl Fork {
    pub fn new() -> (r: Fork)
        ensures
            r.data_in == (HandshakeValue { valid: false, ready: false, data: VALUE::ERROR }),
            r.data_out@.len() == 0,
            r.sub_reg@.len() == 0,
    {
        Fork { data_in: HandshakeValue::empty(), data_out: Vec::new(), sub_reg: Vec::new() }
    }

    /// A fork with `size` consumers, every sticky register armed.
    pub fn set(size: usize) -> (r: Fork)
        ensures
            fork_wf(r),
            r.data_in == (HandshakeValue { valid: false, ready: false, data: VALUE::ERROR }),
            r.data_out@.len() == size,
            forall|i: int|
                0 <= i < size ==> r.data_out@[i] == (HandshakeValue {
                    valid: false,
                    ready: false,
                    data: VALUE::ERROR,
                }),
            forall|i: int|
                0 <= i < size ==> r.sub_reg@[i] == (Reg {
                    enable: None,
                    value: VALUE::Bool(true),
                    new_value: VALUE::ERROR,
                }),
    {
        let j = Join::set(size);
        let mut sub_reg: Vec<Reg> = Vec::new();
        let mut i: usize = 0;
        while i < size
            invariant
                i <= size,
                sub_reg@.len() == i,
                forall|k: int|
                    0 <= k < i ==> sub_reg@[k] == (Reg {
                        enable: None,
                        value: VALUE::Bool(true),
                        new_value: VALUE::ERROR,
                    }),
            decreases size - i,
        {
            sub_reg.push(Reg::init(VALUE::Bool(true)));
            i = i + 1;
        }
        Fork { data_in: HandshakeValue::empty(), data_out: j.data_in, sub_reg }
    }

    /// Rearm every sticky register.
    pub fn init(&mut self)
        ensures
            final(self).data_in == old(self).data_in,
            final(self).data_out == old(self).data_out,
            final(self).sub_reg@.len() == old(self).sub_reg@.len(),
            forall|i: int|
                0 <= i < old(self).sub_reg@.len() ==> final(self).sub_reg@[i] == (Reg {
                    enable: None,
                    value: VALUE::Bool(true),
                    new_value: VALUE::ERROR,
                }),
    {
        let n = self.sub_reg.len();
        let mut i: usize = 0;
        while i < n
            invariant
                i <= n,
                n == self.sub_reg@.len(),
                self.data_in == old(self).data_in,
                self.data_out == old(self).data_out,
                forall|k: int|
                    0 <= k < i ==> self.sub_reg@[k] == (Reg {
                        enable: None,
                        value: VALUE::Bool(true),
                        new_value: VALUE::ERROR,
                    }),
                forall|k: int| i <= k < n ==> self.sub_reg@[k] == old(self).sub_reg@[k],
            decreases n - i,
        {
            self.sub_reg.set(i, Reg::init(VALUE::Bool(true)));
            i = i + 1;
        }
    }

    pub fn propagate(&mut self) -> (changed: Vec<PortId>)
        requires
            fork_wf(*old(self)),
        ensures
            fork_wf(*final(self)),
            final(self).data_out@.len() == old(self).data_out@.len(),
            forall|i: int|
                0 <= i < old(self).data_out@.len() ==> final(self).data_out@[i]
                    == #[trigger] fork_new_out(*old(self), i),
            forall|i: int|
                0 <= i < old(self).sub_reg@.len() ==> final(self).sub_reg@[i]
                    == #[trigger] fork_new_reg(*old(self), i),
            final(self).data_in == (HandshakeValue {
                ready: !fork_any_stop(*old(self)),
                ..old(self).data_in
            }),
    {
        let mut changed: Vec<PortId> = Vec::new();
        let n = self.data_out.len();
        let ghost o = *old(self);
        let mut any_stop = false;
        let mut i: usize = 0;
        while i < n
            invariant
                i <= n,
                fork_wf(*self),
                n == self.data_out@.len(),
                n == o.data_out@.len(),
                self.data_in == o.data_in,
                self.sub_reg == o.sub_reg,
                forall|k: int| i <= k < n ==> self.data_out@[k] == o.data_out@[k],
                forall|k: int|
                    0 <= k < i ==> self.data_out@[k] == #[trigger] fork_new_out(o, k),
                any_stop == exists|k: int| 0 <= k < i && fork_block_stop(o, k),
            decreases n - i,
        {
            let ghost pre = self.data_out@;
            let reg = self.sub_reg[i].get_value().as_bool();
            let mut hv = self.data_out[i];
            let ch = hv.set_valid(reg && self.data_in.valid, self.data_in.data);
            self.data_out.set(i, hv);
            if ch {
                changed.push(PortId::DataOut(i));
            }
            if reg && !hv.ready {
                any_stop = true;
                proof {
                    assert(fork_block_stop(o, i as int));
                }
            } else {
                proof {
                    assert(hv.ready == o.data_out@[i as int].ready);
                    assert(!fork_block_stop(o, i as int));
                    assert forall|k: int| 0 <= k < i + 1 && fork_block_stop(o, k) implies (
                    exists|m: int| 0 <= m < i && fork_block_stop(o, m)) by {
                        if k < i {
                            assert(0 <= k < i && fork_block_stop(o, k));
                        }
                    };
                }
            }
            proof {
                assert forall|k: int| 0 <= k < i + 1 implies self.data_out@[k] == #[trigger]
                fork_new_out(o, k) by {
                    if k < i {
                        assert(self.data_out@[k] == pre[k]);
                    } else {
                        assert(self.data_out@[k] == hv);
                        assert(pre[k] == o.data_out@[k]);
                    }
                };
                assert forall|k: int| i + 1 <= k < n implies self.data_out@[k] == o.data_out@[k]
                    by {
                    assert(self.data_out@[k] == pre[k]);
                };
            }
            i = i + 1;
        }
        proof {
            assert(o.sub_reg@.len() == n);
            assert(any_stop == fork_any_stop(o));
        }
        let in_valid = self.data_in.valid;
        let mut i: usize = 0;
        while i < n
            invariant
                i <= n,
                fork_wf(*self),
                n == self.sub_reg@.len(),
                n == o.sub_reg@.len(),
                n == o.data_out@.len(),
                self.data_in == o.data_in,
                in_valid == o.data_in.valid,
                any_stop == fork_any_stop(o),
                forall|k: int|
                    0 <= k < n ==> self.data_out@[k] == #[trigger] fork_new_out(o, k),
                forall|k: int| i <= k < n ==> self.sub_reg@[k] == o.sub_reg@[k],
                forall|k: int|
                    0 <= k < i ==> self.sub_reg@[k] == #[trigger] fork_new_reg(o, k),
            decreases n - i,
        {
            let ghost pre = self.sub_reg@;
            let reg = self.sub_reg[i].get_value().as_bool();
            let block_stop = reg && !self.data_out[i].ready;
            proof {
                assert(self.data_out@[i as int] == fork_new_out(o, i as int));
                assert(self.sub_reg@[i as int] == o.sub_reg@[i as int]);
                assert(block_stop == fork_block_stop(o, i as int));
            }
            let mut r = self.sub_reg[i];
            r.set_value(VALUE::Bool(block_stop || !(in_valid && any_stop)));
            self.sub_reg.set(i, r);
            proof {
                assert forall|k: int| 0 <= k < i + 1 implies self.sub_reg@[k] == #[trigger]
                fork_new_reg(o, k) by {
                    if k < i {
                        assert(self.sub_reg@[k] == pre[k]);
                    }
                };
                assert forall|k: int| i + 1 <= k < n implies self.sub_reg@[k] == o.sub_reg@[k] by {
                    assert(self.sub_reg@[k] == pre[k]);
                };
            }
            i = i + 1;
        }
        if self.data_in.set_ready(!any_stop) {
            changed.push(PortId::DataIn(0));
        }
        changed
    }

    /// Commit every sticky register; reports whether any register's stored
    /// value changed.  In a settled cycle — every consumer accepted, all
    /// registers rearming to true — nothing changes and the result is
    /// false.
    pub fn update(&mut self) -> (changed: bool)
        ensures
            final(self).data_in == old(self).data_in,
            final(self).data_out == old(self).data_out,
            final(self).sub_reg@.len() == old(self).sub_reg@.len(),
            forall|i: int|
                0 <= i < old(self).sub_reg@.len() ==> final(self).sub_reg@[i] == reg_update(
                    old(self).sub_reg@[i],
                ).0,
            changed == exists|i: int|
                0 <= i < old(self).sub_reg@.len() && reg_update(old(self).sub_reg@[i]).1,
    {
        let n = self.sub_reg.len();
        let mut any = false;
        let mut i: usize = 0;
        while i < n
            invariant
                i <= n,
                n == self.sub_reg@.len(),
                self.data_in == old(self).data_in,
                self.data_out == old(self).data_out,
                forall|k: int| i <= k < n ==> self.sub_reg@[k] == old(self).sub_reg@[k],
                forall|k: int|
                    0 <= k < i ==> self.sub_reg@[k] == reg_update(old(self).sub_reg@[k]).0,
                any == exists|k: int| 0 <= k < i && reg_update(old(self).sub_reg@[k]).1,
            decreases n - i,
        {
            let mut r = self.sub_reg[i];
            let ch = r.update();
            self.sub_reg.set(i, r);
            if ch {
                any = true;
                proof {
                    assert(reg_update(old(self).sub_reg@[i as int]).1);
                }
            } else {
                proof {
                    assert(!reg_update(old(self).sub_reg@[i as int]).1);
                    assert forall|k: int| 0 <= k < i + 1 && reg_update(old(self).sub_reg@[k]).1
                        implies (exists|m: int|
                        0 <= m < i && reg_update(old(self).sub_reg@[m]).1) by {
                        if k < i {
                            assert(0 <= k < i && reg_update(old(self).sub_reg@[k]).1);
                        }
                    };
                }
            }
            i = i + 1;
        }
        any
    }
}

/// The two-way branch: a join of condition and data gates two outputs, the
/// true-port at index 0 and the false-port at index 1.
#[derive(Clone, Debug)]
pub struct Branch {
    pub data_in: HandshakeValue,
    pub data_out: Vec<HandshakeValue>,
    pub condition: HandshakeValue,
    pub join: Join,
}

pub open spec fn branch_wf(b: Branch) -> bool {
    b.data_out@.len() == 2 && b.join.data_in@.len() == 2
}

impl Branch {
    pub fn new() -> (r: Branch)
        ensures
            r.data_in == (HandshakeValue { valid: false, ready: false, data: VALUE::ERROR }),
            r.condition == (HandshakeValue { valid: false, ready: false, data: VALUE::ERROR }),
            r.data_out@.len() == 2,
            r.join.data_in@.len() == 2,
            forall|i: int| 0 <= i < 2 ==> r.data_out@[i] == (HandshakeValue { valid: false, ready: false, data: VALUE::ERROR }),
            forall|i: int| 0 <= i < 2 ==> r.join.data_in@[i] == (HandshakeValue { valid: false, ready: false, data: VALUE::ERROR }),
            r.join.data_out == (HandshakeValue { valid: false, ready: false, data: VALUE::ERROR }),
            branch_wf(r),
    {
        Branch {
            data_in: HandshakeValue::empty(),
            data_out: Join::set(2).data_in,
            condition: HandshakeValue::empty(),
            join: Join::set(2),
        }
    }

    /// A fresh branch: every port empty, the inner join settled.
    pub fn set() -> (r: Branch)
        ensures
            branch_wf(r),
            r.data_in == (HandshakeValue { valid: false, ready: false, data: VALUE::ERROR }),
            r.condition == (HandshakeValue { valid: false, ready: false, data: VALUE::ERROR }),
            forall|i: int| 0 <= i < 2 ==> r.data_out@[i] == (HandshakeValue { valid: false, ready: false, data: VALUE::ERROR }),
            forall|i: int| 0 <= i < 2 ==> r.join.data_in@[i] == (HandshakeValue { valid: false, ready: false, data: VALUE::ERROR }),
            r.join.data_out == (HandshakeValue { valid: false, ready: false, data: VALUE::ERROR }),
    {
        let mut branch = Branch::new();
        branch.join.propagate();
        proof {
            assert(!branch.join.data_in@[0].valid);
        }
        branch
    }

    pub fn propagate(&mut self) -> (changed: Vec<PortId>)
        requires
            branch_wf(*old(self)),
        ensures
            branch_wf(*final(self)),
            ({
                let cond = value::spec_as_bool(old(self).condition.data);
                let jin0 = HandshakeValue {
                    valid: old(self).condition.valid,
                    data: VALUE::ERROR,
                    ready: old(self).join.data_in@[0].ready,
                };
                let jin1 = HandshakeValue {
                    valid: old(self).data_in.valid,
                    data: VALUE::ERROR,
                    ready: old(self).join.data_in@[1].ready,
                };
                let jout_ready = (old(self).data_out@[1].ready && !cond) || (old(
                    self,
                ).data_out@[0].ready && cond);
                let jvalid = jin0.valid && jin1.valid;
                &&& final(self).join.data_out == (HandshakeValue {
                    valid: jvalid,
                    data: old(self).join.data_out.data,
                    ready: jout_ready,
                })
                &&& final(self).join.data_in@.len() == 2
                &&& final(self).join.data_in@[0] == (HandshakeValue {
                    ready: jout_ready && jin1.valid,
                    ..jin0
                })
                &&& final(self).join.data_in@[1] == (HandshakeValue {
                    ready: jout_ready && jin0.valid,
                    ..jin1
                })
                &&& final(self).data_out@[0] == (HandshakeValue {
                    valid: cond && jvalid,
                    data: old(self).data_in.data,
                    ready: old(self).data_out@[0].ready,
                })
                &&& final(self).data_out@[1] == (HandshakeValue {
                    valid: !cond && jvalid,
                    data: old(self).data_in.data,
                    ready: old(self).data_out@[1].ready,
                })
                &&& final(self).condition == (HandshakeValue {
                    ready: jout_ready && jin1.valid,
                    ..old(self).condition
                })
                &&& final(self).data_in == (HandshakeValue {
                    ready: jout_ready && jin0.valid,
                    ..old(self).data_in
                })
            }),
    {
        let mut changed: Vec<PortId> = Vec::new();
        let condition = self.condition.data.as_bool();
        let mut jin0 = self.join.data_in[0];
        jin0.set_valid_only(self.condition);
        self.join.data_in.set(0, jin0);
        let mut jin1 = self.join.data_in[1];
        jin1.set_valid_only(self.data_in);
        self.join.data_in.set(1, jin1);
        self.join.data_out.set_ready(
            (self.data_out[1].ready && !condition) || (self.data_out[0].ready && condition),
        );
        self.join.propagate();

        let mut out0 = self.data_out[0];
        if out0.set_valid(condition && self.join.data_out.valid, self.data_in.data) {
            changed.push(PortId::DataOut(0));
        }
        self.data_out.set(0, out0);
        let mut out1 = self.data_out[1];
        if out1.set_valid(!condition && self.join.data_out.valid, self.data_in.data) {
            changed.push(PortId::DataOut(1));
        }
        self.data_out.set(1, out1);
        if self.condition.set_ready_from(self.join.data_in[0]) {
            changed.push(PortId::Condition);
        }
        if self.data_in.set_ready_from(self.join.data_in[1]) {
            changed.push(PortId::DataIn(0));
        }
        changed
    }
}

/// The select unit: a three-way join of the two data inputs and the
/// condition; the output carries the input the condition picks.
#[derive(Clone, Debug)]
pub struct Select {
    pub data_in: Vec<HandshakeValue>,
    pub data_out: HandshakeValue,
    pub condition: HandshakeValue,
    pub join: Join,
}

pub open spec fn select_wf(s: Select) -> bool {
    s.data_in@.len() == 2 && s.join.data_in@.len() == 3
}

impl Select {
    pub fn new() -> (r: Select)
        ensures
            select_wf(r),
            r.data_out == (HandshakeValue { valid: false, ready: false, data: VALUE::ERROR }),
            r.condition == (HandshakeValue { valid: false, ready: false, data: VALUE::ERROR }),
            forall|i: int| 0 <= i < 2 ==> r.data_in@[i] == (HandshakeValue { valid: false, ready: false, data: VALUE::ERROR }),
            forall|i: int| 0 <= i < 3 ==> r.join.data_in@[i] == (HandshakeValue { valid: false, ready: false, data: VALUE::ERROR }),
            r.join.data_out == (HandshakeValue { valid: false, ready: false, data: VALUE::ERROR }),
    {
        Select {
            data_in: Join::set(2).data_in,
            data_out: HandshakeValue::empty(),
            condition: HandshakeValue::empty(),
            join: Join::set(3),
        }
    }

    /// A fresh select unit: every port empty, the inner join settled.
    pub fn set() -> (r: Select)
        ensures
            select_wf(r),
            r.data_out == (HandshakeValue { valid: false, ready: false, data: VALUE::ERROR }),
            r.condition == (HandshakeValue { valid: false, ready: false, data: VALUE::ERROR }),
            forall|i: int| 0 <= i < 2 ==> r.data_in@[i] == (HandshakeValue { valid: false, ready: false, data: VALUE::ERROR }),
            forall|i: int| 0 <= i < 3 ==> r.join.data_in@[i] == (HandshakeValue { valid: false, ready: false, data: VALUE::ERROR }),
            r.join.data_out == (HandshakeValue { valid: false, ready: false, data: VALUE::ERROR }),
    {
        let mut select = Select::new();
        select.join.propagate();
        proof {
            assert(!select.join.data_in@[0].valid);
        }
        select
    }

    pub fn propagate(&mut self) -> (changed: Vec<PortId>)
        requires
            select_wf(*old(self)),
        ensures
            select_wf(*final(self)),
            ({
                let v0 = old(self).data_in@[0].valid;
                let v1 = old(self).data_in@[1].valid;
                let vc = old(self).condition.valid;
                let jout_ready = old(self).data_out.ready;
                let jvalid = v0 && v1 && vc;
                let picked = if value::spec_as_bool(old(self).condition.data) {
                    old(self).data_in@[0].data
                } else {
                    old(self).data_in@[1].data
                };
                &&& final(self).data_in@[0] == (HandshakeValue {
                    ready: jout_ready && v1 && vc,
                    ..old(self).data_in@[0]
                })
                &&& final(self).data_in@[1] == (HandshakeValue {
                    ready: jout_ready && v0 && vc,
                    ..old(self).data_in@[1]
                })
                &&& final(self).condition == (HandshakeValue {
                    ready: jout_ready && v0 && v1,
                    ..old(self).condition
                })
                &&& final(self).data_out == (HandshakeValue {
                    valid: jvalid,
                    data: if vc {
                        picked
                    } else {
                        VALUE::ERROR
                    },
                    ready: old(self).data_out.ready,
                })
            }),
    {
        let mut changed: Vec<PortId> = Vec::new();
        let mut jin0 = self.join.data_in[0];
        jin0.set_valid_only(self.data_in[0]);
        self.join.data_in.set(0, jin0);
        let mut jin1 = self.join.data_in[1];
        jin1.set_valid_only(self.data_in[1]);
        self.join.data_in.set(1, jin1);
        let mut jin2 = self.join.data_in[2];
        jin2.set_valid_only(self.condition);
        self.join.data_in.set(2, jin2);
        self.join.data_out.set_ready_from(self.data_out);
        self.join.propagate();

        let mut in0 = self.data_in[0];
        if in0.set_ready_from(self.join.data_in[0]) {
            changed.push(PortId::DataIn(0));
        }
        self.data_in.set(0, in0);
        let mut in1 = self.data_in[1];
        if in1.set_ready_from(self.join.data_in[1]) {
            changed.push(PortId::DataIn(1));
        }
        self.data_in.set(1, in1);
        if self.condition.set_ready_from(self.join.data_in[2]) {
            changed.push(PortId::Condition);
        }
        let picked = if self.condition.valid {
            if self.condition.data.as_bool() {
                self.data_in[0].data
            } else {
                self.data_in[1].data
            }
        } else {
            VALUE::ERROR
        };
        if self.data_out.set_valid(self.join.data_out.valid, picked) {
            changed.push(PortId::DataOut(0));
        }
        changed
    }
}

/// The load passthrough: the request address flows to the memory side, the
/// memory's data flows back, and the control token is always accepted.
#[derive(Clone, Copy, PartialEq, Eq, Structural, Debug)]
pub struct Load {
    pub address_in: HandshakeValue,
    pub data_out: HandshakeValue,
    pub address_out: HandshakeValue,
    pub data_in: HandshakeValue,
    pub control: HandshakeValue,
}

impl Load {
    pub fn new() -> (r: Load)
        ensures
            r == (Load {
                address_in: HandshakeValue { valid: false, ready: false, data: VALUE::ERROR },
                data_out: HandshakeValue { valid: false, ready: false, data: VALUE::ERROR },
                address_out: HandshakeValue { valid: false, ready: false, data: VALUE::ERROR },
                data_in: HandshakeValue { valid: false, ready: false, data: VALUE::ERROR },
                control: HandshakeValue { valid: false, ready: false, data: VALUE::ERROR },
            }),
    {
        Load {
            address_in: HandshakeValue::empty(),
            data_out: HandshakeValue::empty(),
            address_out: HandshakeValue::empty(),
            data_in: HandshakeValue::empty(),
            control: HandshakeValue::empty(),
        }
    }

    pub fn propagate(&mut self) -> (changed: Vec<PortId>)
        ensures
            final(self).address_out == (HandshakeValue {
                valid: old(self).address_in.valid,
                data: old(self).address_in.data,
                ready: old(self).address_out.ready,
            }),
            final(self).address_in == (HandshakeValue {
                ready: old(self).address_out.ready,
                ..old(self).address_in
            }),
            final(self).data_out == (HandshakeValue {
                valid: old(self).data_in.valid,
                data: old(self).data_in.data,
                ready: old(self).data_out.ready,
            }),
            final(self).data_in == (HandshakeValue {
                ready: old(self).data_out.ready,
                ..old(self).data_in
            }),
            final(self).control == (HandshakeValue { ready: true, ..old(self).control }),
    {
        let mut changed: Vec<PortId> = Vec::new();
        if self.address_out.set_valid_from(self.address_in) {
            changed.push(PortId::AddressOut);
        }
        if self.address_in.set_ready_from(self.address_out) {
            changed.push(PortId::AddressIn);
        }
        if self.data_out.set_valid_from(self.data_in) {
            changed.push(PortId::DataOut(0));
        }
        if self.data_in.set_ready_from(self.data_out) {
            changed.push(PortId::DataIn(0));
        }
        if self.control.set_ready(true) {
            changed.push(PortId::Control);
        }
        changed
    }
}

/// The truncation passthrough: narrows its operand to a boolean.
#[derive(Clone, Copy, PartialEq, Eq, Structural, Debug)]
pub struct Trunc {
    pub operand: HandshakeValue,
    pub result: HandshakeValue,
}

impl Trunc {
    pub fn new() -> (r: Trunc)
        ensures
            r == (Trunc {
                operand: HandshakeValue { valid: false, ready: false, data: VALUE::ERROR },
                result: HandshakeValue { valid: false, ready: false, data: VALUE::ERROR },
            }),
    {
        Trunc { operand: HandshakeValue::empty(), result: HandshakeValue::empty() }
    }

    pub fn propagate(&mut self) -> (changed: Vec<PortId>)
        ensures
            final(self).operand == (HandshakeValue {
                ready: old(self).result.ready,
                ..old(self).operand
            }),
            final(self).result == (HandshakeValue {
                valid: old(self).operand.valid,
                data: VALUE::Bool(value::spec_as_bool(old(self).operand.data)),
                ready: old(self).result.ready,
            }),
    {
        let mut changed: Vec<PortId> = Vec::new();
        if self.operand.set_ready_from(self.result) {
            changed.push(PortId::Operand(0));
        }
        if self.result.set_valid(self.operand.valid, VALUE::Bool(self.operand.data.as_bool())) {
            changed.push(PortId::Result);
        }
        changed
    }
}

/// A constant source: emits its value whenever the gating control token is
/// valid.
#[derive(Clone, Copy, PartialEq, Eq, Structural, Debug)]
pub struct ConstantElastic {
    pub control: HandshakeValue,
    pub data_in: VALUE,
    pub data_out: HandshakeValue,
}

impl ConstantElastic {
    pub fn new() -> (r: ConstantElastic)
        ensures
            r == (ConstantElastic {
                control: HandshakeValue { valid: false, ready: false, data: VALUE::ERROR },
                data_in: VALUE::ERROR,
                data_out: HandshakeValue { valid: false, ready: false, data: VALUE::ERROR },
            }),
    {
        ConstantElastic {
            control: HandshakeValue::empty(),
            data_in: VALUE::ERROR,
            data_out: HandshakeValue::empty(),
        }
    }

    pub fn propagate(&mut self) -> (changed: Vec<PortId>)
        ensures
            final(self).data_in == old(self).data_in,
            final(self).control == (HandshakeValue {
                ready: old(self).data_out.ready,
                ..old(self).control
            }),
            final(self).data_out == (HandshakeValue {
                valid: old(self).control.valid,
                data: old(self).data_in,
                ready: old(self).data_out.ready,
            }),
    {
        let mut changed: Vec<PortId> = Vec::new();
        if self.control.set_ready_from(self.data_out) {
            changed.push(PortId::Control);
        }
        if self.data_out.set_valid(self.control.valid, self.data_in) {
            changed.push(PortId::DataOut(0));
        }
        changed
    }
}

/// The operator a combinational or sequential binary unit applies; the
/// first operand's type decides the arithmetic width.
#[derive(Clone, Copy, PartialEq, Eq, Structural, Debug)]
pub enum BinOp {
    Add,
    Sub,
    Mul,
    Div,
    ShiftLeft,
    And,
    CmpSle,
    CmpNe,
    CmpGt,
}

pub open spec fn spec_apply_binop(op: BinOp, a: VALUE, b: VALUE) -> VALUE {
    match op {
        BinOp::Add => value::spec_add(crate::value::ty_of(a), a, b),
        BinOp::Sub => value::spec_sub(crate::value::ty_of(a), a, b),
        BinOp::Mul => value::spec_mul(crate::value::ty_of(a), a, b),
        BinOp::Div => value::spec_div(crate::value::ty_of(a), a, b),
        BinOp::ShiftLeft => value::spec_shift_left(crate::value::ty_of(a), a, b),
        BinOp::And => value::spec_and(crate::value::ty_of(a), a, b),
        BinOp::CmpSle => value::spec_cmp(crate::value::CmpKind::Lte, a, b),
        BinOp::CmpNe => value::spec_cmp(crate::value::CmpKind::Ne, a, b),
        BinOp::CmpGt => value::spec_cmp(crate::value::CmpKind::Gt, a, b),
    }
}

pub fn apply_binop(op: BinOp, a: VALUE, b: VALUE) -> (r: VALUE)
    ensures
        r == spec_apply_binop(op, a, b),
{
    let mut values: Vec<VALUE> = Vec::new();
    values.push(a);
    values.push(b);
    let t = a.get_type();
    match op {
        BinOp::Add => value::add(t, &values),
        BinOp::Sub => value::sub(t, &values),
        BinOp::Mul => value::mul(t, &values),
        BinOp::Div => value::div(t, &values),
        BinOp::ShiftLeft => value::shift_left(t, &values),
        BinOp::And => value::and(t, &values),
        BinOp::CmpSle => value::compare(crate::value::CmpKind::Lte, &values),
        BinOp::CmpNe => value::compare(crate::value::CmpKind::Ne, &values),
        BinOp::CmpGt => value::compare(crate::value::CmpKind::Gt, &values),
    }
}

/// A combinational binary unit: the result is valid when both operands
/// are, and each operand is ready when the other is valid and the result
/// side is ready.
#[derive(Clone, Copy, PartialEq, Eq, Structural, Debug)]
pub struct BinaryUnit {
    pub operand0: HandshakeValue,
    pub operand1: HandshakeValue,
    pub result: HandshakeValue,
    pub func: BinOp,
}

impl BinaryUnit {
    pub fn set(func: BinOp) -> (r: BinaryUnit)
        ensures
            r == (BinaryUnit {
                operand0: HandshakeValue { valid: false, ready: false, data: VALUE::ERROR },
                operand1: HandshakeValue { valid: false, ready: false, data: VALUE::ERROR },
                result: HandshakeValue { valid: false, ready: false, data: VALUE::ERROR },
                func,
            }),
    {
        BinaryUnit {
            operand0: HandshakeValue::empty(),
            operand1: HandshakeValue::empty(),
            result: HandshakeValue::empty(),
            func,
        }
    }

    pub fn propagate(&mut self) -> (changed: Vec<PortId>)
        ensures
            final(self).func == old(self).func,
            final(self).operand0 == (HandshakeValue {
                ready: old(self).operand1.valid && old(self).result.ready,
                ..old(self).operand0
            }),
            final(self).operand1 == (HandshakeValue {
                ready: old(self).operand0.valid && old(self).result.ready,
                ..old(self).operand1
            }),
            final(self).result == (HandshakeValue {
                valid: old(self).operand0.valid && old(self).operand1.valid,
                data: spec_apply_binop(
                    old(self).func,
                    old(self).operand0.data,
                    old(self).operand1.data,
                ),
                ready: old(self).result.ready,
            }),
    {
        let mut changed: Vec<PortId> = Vec::new();
        if self.operand0.set_ready(self.operand1.valid && self.result.ready) {
            changed.push(PortId::Operand(0));
        }
        if self.operand1.set_ready(self.operand0.valid && self.result.ready) {
            changed.push(PortId::Operand(1));
        }
        let v = apply_binop(self.func, self.operand0.data, self.operand1.data);
        if self.result.set_valid(self.operand0.valid && self.operand1.valid, v) {
            changed.push(PortId::Result);
        }
        changed
    }
}

/// A FIFO with handshake ports: enqueues when input valid meets input
/// ready, dequeues when output valid meets output ready, both at `update`.
#[derive(Clone, Debug)]
pub struct ElasticFIFO {
    pub data_in: HandshakeValue,
    pub data_out: HandshakeValue,
    pub depth: usize,
    pub queue: VecDeque<VALUE>,
    pub new_value: VALUE,
}

impl ElasticFIFO {
    pub fn set(depth: usize) -> (r: ElasticFIFO)
        ensures
            r.data_in == (HandshakeValue { valid: false, ready: false, data: VALUE::ERROR }),
            r.data_out == (HandshakeValue { valid: false, ready: false, data: VALUE::ERROR }),
            r.depth == depth,
            r.queue@ == Seq::<VALUE>::empty(),
            r.new_value == VALUE::ERROR,
    {
        ElasticFIFO {
            data_in: HandshakeValue::empty(),
            data_out: HandshakeValue::empty(),
            depth,
            queue: VecDeque::new(),
            new_value: VALUE::ERROR,
        }
    }

    pub fn propagate(&mut self) -> (changed: Vec<PortId>)
        ensures
            final(self).queue == old(self).queue,
            final(self).depth == old(self).depth,
            final(self).data_in == (HandshakeValue {
                ready: old(self).queue@.len() < old(self).depth,
                ..old(self).data_in
            }),
            final(self).data_out == (HandshakeValue {
                valid: old(self).queue@.len() > 0,
                data: if old(self).queue@.len() > 0 {
                    old(self).queue@[0]
                } else {
                    VALUE::ERROR
                },
                ready: old(self).data_out.ready,
            }),
            final(self).new_value == old(self).data_in.data,
    {
        let mut changed: Vec<PortId> = Vec::new();
        if self.data_in.set_ready(self.queue.len() < self.depth) {
            changed.push(PortId::DataIn(0));
        }
        let front = if self.queue.len() > 0 {
            self.queue[0]
        } else {
            VALUE::ERROR
        };
        if self.data_out.set_valid(self.queue.len() > 0, front) {
            changed.push(PortId::DataOut(0));
        }
        self.new_value = self.data_in.data;
        changed
    }

    pub fn update(&mut self) -> (changed: bool)
        ensures
            final(self).data_in == old(self).data_in,
            final(self).data_out == old(self).data_out,
            final(self).depth == old(self).depth,
            final(self).new_value == old(self).new_value,
            ({
                let do_enq = old(self).data_in.valid && old(self).data_in.ready;
                let do_deq = old(self).data_out.valid && old(self).data_out.ready;
                let mid: Seq<VALUE> = if do_enq {
                    old(self).queue@.push(old(self).new_value)
                } else {
                    old(self).queue@
                };
                &&& final(self).queue@ == (if do_deq && mid.len() > 0 {
                    mid.drop_first()
                } else {
                    mid
                })
                &&& changed == (do_enq || do_deq)
            }),
    {
        let do_enq = self.data_in.valid && self.data_in.ready;
        let do_deq = self.data_out.valid && self.data_out.ready;
        if do_enq {
            self.queue.push_back(self.new_value);
        }
        if do_deq {
            if self.queue.len() > 0 {
                self.queue.pop_front();
                proof {
                    let do_enq_g = old(self).data_in.valid && old(self).data_in.ready;
                    let mid: Seq<VALUE> = if do_enq_g {
                        old(self).queue@.push(old(self).new_value)
                    } else {
                        old(self).queue@
                    };
                    assert(self.queue@ =~= mid.drop_first());
                }
            }
        }
        do_enq || do_deq
    }
}

/// The dynamic mux: when the condition token is valid it forwards the
/// selected input through a TEHB; unselected inputs are drained by being
/// made ready whenever they hold no valid token.
#[derive(Clone, Debug)]
pub struct MuxDynamic {
    pub data_in: Vec<HandshakeValue>,
    pub data_out: HandshakeValue,
    pub condition: HandshakeValue,
    pub tehb: TEHB,
}

/// The forward token a propagation selects: valid only when the condition
/// is valid and the selected input (in range) is valid.
pub open spec fn mux_selected(m: MuxDynamic) -> (bool, VALUE) {
    let idx = value::spec_as_u32(m.condition.data) as int;
    if m.condition.valid && 0 <= idx < m.data_in@.len() && m.data_in@[idx].valid {
        (true, m.data_in@[idx].data)
    } else {
        (false, VALUE::ERROR)
    }
}

pub open spec fn mux_tehb_after(m: MuxDynamic) -> TEHB {
    let (tv, td) = mux_selected(m);
    let (tin, c1) = hv_set_valid(m.tehb.data_in, tv, td);
    let (tout, c2) = hv_set_ready(m.tehb.data_out, m.data_out.ready);
    let t1 = TEHB { data_in: tin, data_out: tout, ..m.tehb };
    if c1 || c2 {
        tehb_propagate(t1)
    } else {
        t1
    }
}

/// The ready a propagation drives onto input `k` of the mux.
pub open spec fn mux_new_in(o: MuxDynamic, k: int) -> HandshakeValue {
    let idx = value::spec_as_u32(o.condition.data) as int;
    HandshakeValue {
        ready: (idx == k && o.condition.valid && o.data_in@[k].valid && mux_tehb_after(
            o,
        ).data_in.ready) || !o.data_in@[k].valid,
        ..o.data_in@[k]
    }
}

impl MuxDynamic {
    pub fn new() -> (r: MuxDynamic)
        ensures
            r.data_in@.len() == 0,
            r.data_out == (HandshakeValue { valid: false, ready: false, data: VALUE::ERROR }),
            r.condition == (HandshakeValue { valid: false, ready: false, data: VALUE::ERROR }),
            r.tehb == (TEHB {
                data_in: HandshakeValue { valid: false, ready: false, data: VALUE::ERROR },
                data_out: HandshakeValue { valid: false, ready: false, data: VALUE::ERROR },
                full_reg: Reg { enable: None, value: VALUE::ERROR, new_value: VALUE::ERROR },
                data_reg: Reg { enable: None, value: VALUE::ERROR, new_value: VALUE::ERROR },
            }),
    {
        MuxDynamic {
            data_in: Vec::new(),
            data_out: HandshakeValue::empty(),
            condition: HandshakeValue::empty(),
            tehb: TEHB::new(),
        }
    }

    /// A fresh two-way mux: ports empty, the inner TEHB cleared and settled.
    pub fn set() -> (r: MuxDynamic)
        ensures
            r.data_in@.len() == 2,
            r.data_out == (HandshakeValue { valid: false, ready: false, data: VALUE::ERROR }),
            r.condition == (HandshakeValue { valid: false, ready: false, data: VALUE::ERROR }),
            forall|i: int| 0 <= i < 2 ==> r.data_in@[i] == (HandshakeValue { valid: false, ready: false, data: VALUE::ERROR }),
            r.tehb == tehb_propagate(
                TEHB {
                    data_in: HandshakeValue { valid: false, ready: false, data: VALUE::ERROR },
                    data_out: HandshakeValue { valid: false, ready: false, data: VALUE::ERROR },
                    full_reg: Reg { enable: None, value: VALUE::Bool(false), new_value: VALUE::ERROR },
                    data_reg: Reg { enable: None, value: VALUE::U32(0), new_value: VALUE::ERROR },
                },
            ),
    {
        let mut unit = MuxDynamic::new();
        unit.data_in = Join::set(2).data_in;
        unit.tehb.init();
        unit
    }

    #[verifier::rlimit(60)]
    pub fn propagate(&mut self) -> (changed: Vec<PortId>)
        ensures
            final(self).data_in@.len() == old(self).data_in@.len(),
            final(self).tehb == mux_tehb_after(*old(self)),
            final(self).data_out == (HandshakeValue {
                valid: mux_tehb_after(*old(self)).data_out.valid,
                data: mux_tehb_after(*old(self)).data_out.data,
                ready: old(self).data_out.ready,
            }),
            forall|k: int|
                0 <= k < old(self).data_in@.len() ==> final(self).data_in@[k] == #[trigger]
                mux_new_in(*old(self), k),
            final(self).condition == (HandshakeValue {
                ready: !old(self).condition.valid || (mux_selected(*old(self)).0 && mux_tehb_after(
                    *old(self),
                ).data_in.ready),
                ..old(self).condition
            }),
    {
        let ghost o = *old(self);
        let mut changed: Vec<PortId> = Vec::new();
        let condition_idx_u32 = self.condition.data.as_u32();
        let condition_idx = condition_idx_u32 as usize;
        let mut tmp_valid = false;
        let mut tmp_data = VALUE::ERROR;
        if self.condition.valid && condition_idx < self.data_in.len() {
            if self.data_in[condition_idx].valid {
                tmp_valid = true;
                tmp_data = self.data_in[condition_idx].data;
            }
        }
        proof {
            assert((tmp_valid, tmp_data) == mux_selected(o));
        }
        let c1 = self.tehb.data_in.set_valid(tmp_valid, tmp_data);
        let c2 = self.tehb.data_out.set_ready_from(self.data_out);
        if c1 || c2 {
            self.tehb.propagate();
        }
        proof {
            assert(self.tehb == mux_tehb_after(o));
        }
        if self.data_out.set_valid_from(self.tehb.data_out) {
            changed.push(PortId::DataOut(0));
        }
        let n = self.data_in.len();
        let in_ready = self.tehb.data_in.ready;
        let mut i: usize = 0;
        while i < n
            invariant
                i <= n,
                n == self.data_in@.len(),
                n == o.data_in@.len(),
                self.tehb == mux_tehb_after(o),
                in_ready == self.tehb.data_in.ready,
                self.data_out == (HandshakeValue {
                    valid: mux_tehb_after(o).data_out.valid,
                    data: mux_tehb_after(o).data_out.data,
                    ready: o.data_out.ready,
                }),
                self.condition == o.condition,
                condition_idx_u32 == value::spec_as_u32(o.condition.data),
                condition_idx == condition_idx_u32 as usize,
                forall|k: int| i <= k < n ==> self.data_in@[k] == o.data_in@[k],
                forall|k: int| 0 <= k < i ==> self.data_in@[k] == #[trigger] mux_new_in(o, k),
            decreases n - i,
        {
            let ghost pre = self.data_in@;
            let mut hv = self.data_in[i];
            let new_ready = (condition_idx == i && self.condition.valid && hv.valid && in_ready)
                || !hv.valid;
            let ch = hv.set_ready(new_ready);
            self.data_in.set(i, hv);
            if ch {
                changed.push(PortId::DataIn(i));
            }
            proof {
                assert forall|k: int| 0 <= k < i + 1 implies self.data_in@[k] == #[trigger]
                mux_new_in(o, k) by {
                    if k < i {
                        assert(self.data_in@[k] == pre[k]);
                    } else {
                        assert(pre[k] == o.data_in@[k]);
                    }
                };
                assert forall|k: int| i + 1 <= k < n implies self.data_in@[k] == o.data_in@[k] by {
                    assert(self.data_in@[k] == pre[k]);
                };
            }
            i = i + 1;
        }
        if self.condition.set_ready(!self.condition.valid || (tmp_valid && in_ready)) {
            changed.push(PortId::Condition);
        }
        changed
    }

    pub fn update(&mut self) -> (changed: bool)
        ensures
            final(self).data_in == old(self).data_in,
            final(self).data_out == old(self).data_out,
            final(self).condition == old(self).condition,
            final(self).tehb == tehb_commit(old(self).tehb).0,
            changed == tehb_commit(old(self).tehb).1,
    {
        self.tehb.update()
    }
}

/// The store passthrough: address and data each flow through their own
/// elastic buffer toward the memory side; the control token is always
/// accepted.
#[derive(Clone, Copy, PartialEq, Eq, Structural, Debug)]
pub struct Store {
    pub address_in: HandshakeValue,
    pub data_out: HandshakeValue,
    pub address_out: HandshakeValue,
    pub data_in: HandshakeValue,
    pub control: HandshakeValue,
    pub addr: ElasticBuffer,
    pub data: ElasticBuffer,
}

pub open spec fn store_addr_after(s: Store) -> ElasticBuffer {
    let (ain, c1) = hv_set_valid(s.addr.data_in, s.address_in.valid, s.address_in.data);
    let (aout, c2) = hv_set_ready(s.addr.data_out, s.address_out.ready);
    let a1 = ElasticBuffer { data_in: ain, data_out: aout, ..s.addr };
    if c1 || c2 {
        eb_propagate(a1)
    } else {
        a1
    }
}

pub open spec fn store_data_after(s: Store) -> ElasticBuffer {
    let (din, c1) = hv_set_valid(s.data.data_in, s.data_in.valid, s.data_in.data);
    let (dout, c2) = hv_set_ready(s.data.data_out, s.data_out.ready);
    let d1 = ElasticBuffer { data_in: din, data_out: dout, ..s.data };
    if c1 || c2 {
        eb_propagate(d1)
    } else {
        d1
    }
}

impl Store {
    pub fn new() -> (r: Store)
        ensures
            r.address_in == (HandshakeValue { valid: false, ready: false, data: VALUE::ERROR }),
            r.data_in == (HandshakeValue { valid: false, ready: false, data: VALUE::ERROR }),
            r.control == (HandshakeValue { valid: false, ready: false, data: VALUE::ERROR }),
    {
        Store {
            address_in: HandshakeValue::empty(),
            data_out: HandshakeValue::empty(),
            address_out: HandshakeValue::empty(),
            data_in: HandshakeValue::empty(),
            control: HandshakeValue::empty(),
            addr: ElasticBuffer::new(),
            data: ElasticBuffer::new(),
        }
    }

    pub fn init(&mut self)
        ensures
            final(self).address_in == old(self).address_in,
            final(self).data_in == old(self).data_in,
            final(self).address_out == old(self).address_out,
            final(self).data_out == old(self).data_out,
            final(self).control == old(self).control,
    {
        self.addr.init();
        self.addr.propagate();
        self.data.init();
        self.data.propagate();
    }

    #[verifier::rlimit(60)]
    pub fn propagate(&mut self) -> (changed: Vec<PortId>)
        ensures
            ({
                let a2 = store_addr_after(*old(self));
                let d2 = store_data_after(*old(self));
                &&& final(self).addr == a2
                &&& final(self).data == d2
                &&& final(self).address_out == (HandshakeValue {
                    valid: a2.data_out.valid,
                    data: a2.data_out.data,
                    ready: old(self).address_out.ready,
                })
                &&& final(self).address_in == (HandshakeValue {
                    ready: a2.data_in.ready,
                    ..old(self).address_in
                })
                &&& final(self).data_out == (HandshakeValue {
                    valid: d2.data_out.valid,
                    data: d2.data_out.data,
                    ready: old(self).data_out.ready,
                })
                &&& final(self).data_in == (HandshakeValue {
                    ready: d2.data_in.ready,
                    ..old(self).data_in
                })
                &&& final(self).control == (HandshakeValue { ready: true, ..old(self).control })
            }),
    {
        let mut changed: Vec<PortId> = Vec::new();
        let c1 = self.addr.data_in.set_valid_from(self.address_in);
        let c2 = self.addr.data_out.set_ready_from(self.address_out);
        if c1 || c2 {
            self.addr.propagate();
        }
        if self.address_out.set_valid_from(self.addr.data_out) {
            changed.push(PortId::AddressOut);
        }
        if self.address_in.set_ready_from(self.addr.data_in) {
            changed.push(PortId::AddressIn);
        }
        let c3 = self.data.data_in.set_valid_from(self.data_in);
        let c4 = self.data.data_out.set_ready_from(self.data_out);
        if c3 || c4 {
            self.data.propagate();
        }
        if self.data_out.set_valid_from(self.data.data_out) {
            changed.push(PortId::DataOut(0));
        }
        if self.data_in.set_ready_from(self.data.data_in) {
            changed.push(PortId::DataIn(0));
        }
        if self.control.set_ready(true) {
            changed.push(PortId::Control);
        }
        changed
    }

    #[verifier::rlimit(100)]
    #[verifier::spinoff_prover]
    pub fn update(&mut self) -> (changed: bool)
        ensures
            final(self).address_in == old(self).address_in,
            final(self).address_out == old(self).address_out,
            final(self).data_in == old(self).data_in,
            final(self).data_out == old(self).data_out,
            final(self).control == old(self).control,
            ({
                let (ta, ca1) = tehb_commit(old(self).addr.tehb);
                let (oa, ca2) = oehb_commit(old(self).addr.oehb);
                let (td, cd1) = tehb_commit(old(self).data.tehb);
                let (od, cd2) = oehb_commit(old(self).data.oehb);
                let a1 = ElasticBuffer {
                    tehb: (if ca1 {
                        tehb_propagate(ta)
                    } else {
                        ta
                    }),
                    oehb: (if ca2 {
                        oehb_propagate(oa)
                    } else {
                        oa
                    }),
                    ..old(self).addr
                };
                let d1 = ElasticBuffer {
                    tehb: (if cd1 {
                        tehb_propagate(td)
                    } else {
                        td
                    }),
                    oehb: (if cd2 {
                        oehb_propagate(od)
                    } else {
                        od
                    }),
                    ..old(self).data
                };
                &&& final(self).addr == (if ca1 || ca2 {
                    eb_propagate(a1)
                } else {
                    a1
                })
                &&& final(self).data == (if cd1 || cd2 {
                    eb_propagate(d1)
                } else {
                    d1
                })
                &&& changed == (ca1 || ca2 || cd1 || cd2)
            }),
    {
        let mut flag = false;
        if self.addr.update() {
            self.addr.propagate();
            flag = true;
        }
        if self.data.update() {
            self.data.propagate();
            flag = true;
        }
        flag
    }
}

/// A sequential binary unit: a join feeds a shift register of length
/// `latency - 1` whose tail drains through an OEHB, giving the declared
/// latency in cycles.
#[derive(Clone, Debug)]
pub struct BinaryUnitSeq {
    pub operand0: HandshakeValue,
    pub operand1: HandshakeValue,
    pub result: HandshakeValue,
    pub join: Join,
    pub delay: VecDeque<(bool, VALUE)>,
    pub oehb: OEHB,
    pub func: BinOp,
}

pub open spec fn buseq_wf(u: BinaryUnitSeq) -> bool {
    u.join.data_in@.len() == 2 && u.delay@.len() >= 1
}

pub open spec fn buseq_oehb_after(u: BinaryUnitSeq) -> OEHB {
    let back = u.delay@.last();
    let (oin, c1) = hv_set_valid(u.oehb.data_in, back.0, back.1);
    let (oout, c2) = hv_set_ready(u.oehb.data_out, u.result.ready);
    let o1 = OEHB { data_in: oin, data_out: oout, ..u.oehb };
    if c1 || c2 {
        oehb_propagate(o1)
    } else {
        o1
    }
}

impl BinaryUnitSeq {
    /// A unit of the given operator and latency (at least two cycles): an
    /// empty delay line, a cleared OEHB and a settled join.
    pub fn set(func: BinOp, latency: usize) -> (r: BinaryUnitSeq)
        requires
            latency >= 2,
        ensures
            buseq_wf(r),
            r.func == func,
            r.delay@.len() == latency - 1,
            forall|i: int| 0 <= i < r.delay@.len() ==> r.delay@[i] == (false, VALUE::ERROR),
            r.operand0 == (HandshakeValue { valid: false, ready: false, data: VALUE::ERROR }),
            r.operand1 == (HandshakeValue { valid: false, ready: false, data: VALUE::ERROR }),
            r.result == (HandshakeValue { valid: false, ready: false, data: VALUE::ERROR }),
            r.oehb == oehb_propagate(
                OEHB {
                    data_in: HandshakeValue { valid: false, ready: false, data: VALUE::ERROR },
                    data_out: HandshakeValue { valid: false, ready: false, data: VALUE::ERROR },
                    full_reg: Reg { enable: None, value: VALUE::Bool(false), new_value: VALUE::ERROR },
                    data_reg: Reg { enable: None, value: VALUE::ERROR, new_value: VALUE::ERROR },
                },
            ),
            forall|i: int| 0 <= i < 2 ==> r.join.data_in@[i] == (HandshakeValue { valid: false, ready: false, data: VALUE::ERROR }),
            r.join.data_out == (HandshakeValue { valid: false, ready: false, data: VALUE::ERROR }),
    {
        let mut delay: VecDeque<(bool, VALUE)> = VecDeque::new();
        let mut i: usize = 0;
        while i < latency - 1
            invariant
                i <= latency - 1,
                delay@.len() == i,
                forall|k: int| 0 <= k < i ==> delay@[k] == (false, VALUE::ERROR),
            decreases latency - 1 - i,
        {
            delay.push_back((false, VALUE::ERROR));
            i = i + 1;
        }
        let mut oehb = OEHB::new();
        oehb.full_reg = Reg::init(VALUE::Bool(false));
        oehb.data_reg = Reg::init(VALUE::ERROR);
        oehb.propagate();
        let mut join = Join::set(2);
        join.propagate();
        proof {
            assert(!join.data_in@[0].valid);
        }
        BinaryUnitSeq {
            operand0: HandshakeValue::empty(),
            operand1: HandshakeValue::empty(),
            result: HandshakeValue::empty(),
            join,
            delay,
            oehb,
            func,
        }
    }

    #[verifier::rlimit(100)]
    #[verifier::spinoff_prover]
    pub fn propagate(&mut self) -> (changed: Vec<PortId>)
        requires
            buseq_wf(*old(self)),
        ensures
            buseq_wf(*final(self)),
            final(self).delay == old(self).delay,
            final(self).func == old(self).func,
            ({
                let o2 = buseq_oehb_after(*old(self));
                let (ji0, c1) = hv_set_valid(
                    old(self).join.data_in@[0],
                    old(self).operand0.valid,
                    VALUE::ERROR,
                );
                let (ji1, c2) = hv_set_valid(
                    old(self).join.data_in@[1],
                    old(self).operand1.valid,
                    VALUE::ERROR,
                );
                let (jo, c3) = hv_set_ready(old(self).join.data_out, o2.data_in.ready);
                let jprop = c1 || c2 || c3;
                let jin0 = if jprop {
                    HandshakeValue { ready: jo.ready && ji1.valid, ..ji0 }
                } else {
                    ji0
                };
                let jin1 = if jprop {
                    HandshakeValue { ready: jo.ready && ji0.valid, ..ji1 }
                } else {
                    ji1
                };
                let jout = if jprop {
                    HandshakeValue { valid: ji0.valid && ji1.valid, ..jo }
                } else {
                    jo
                };
                &&& final(self).oehb == o2
                &&& final(self).join.data_in@.len() == 2
                &&& final(self).join.data_in@[0] == jin0
                &&& final(self).join.data_in@[1] == jin1
                &&& final(self).join.data_out == jout
                &&& final(self).operand0 == (HandshakeValue {
                    ready: jin0.ready,
                    ..old(self).operand0
                })
                &&& final(self).operand1 == (HandshakeValue {
                    ready: jin1.ready,
                    ..old(self).operand1
                })
                &&& final(self).result == (HandshakeValue {
                    valid: o2.data_out.valid,
                    data: o2.data_out.data,
                    ready: old(self).result.ready,
                })
            }),
    {
        let mut changed: Vec<PortId> = Vec::new();
        let back = self.delay[self.delay.len() - 1];
        proof {
            assert(back == old(self).delay@.last());
        }
        let c1 = self.oehb.data_in.set_valid(back.0, back.1);
        let c2 = self.oehb.data_out.set_ready_from(self.result);
        if c1 || c2 {
            self.oehb.propagate();
        }
        let mut ji0 = self.join.data_in[0];
        let d1 = ji0.set_valid_only(self.operand0);
        self.join.data_in.set(0, ji0);
        let mut ji1 = self.join.data_in[1];
        let d2 = ji1.set_valid_only(self.operand1);
        self.join.data_in.set(1, ji1);
        let d3 = self.join.data_out.set_ready_from(self.oehb.data_in);
        if d1 || d2 || d3 {
            self.join.propagate();
        }
        if self.operand0.set_ready_from(self.join.data_in[0]) {
            changed.push(PortId::Operand(0));
        }
        if self.operand1.set_ready_from(self.join.data_in[1]) {
            changed.push(PortId::Operand(1));
        }
        if self.result.set_valid_from(self.oehb.data_out) {
            changed.push(PortId::Result);
        }
        changed
    }

    /// Advance the shift register when the OEHB accepts, computing the
    /// operator on the current operands at the head.
    pub fn update(&mut self) -> (changed: bool)
        requires
            buseq_wf(*old(self)),
        ensures
            buseq_wf(*final(self)),
            final(self).operand0 == old(self).operand0,
            final(self).operand1 == old(self).operand1,
            final(self).result == old(self).result,
            final(self).delay@.len() == old(self).delay@.len(),
            old(self).oehb.data_in.ready ==> final(self).delay@[0] == (
                old(self).join.data_out.valid,
                spec_apply_binop(
                    old(self).func,
                    old(self).operand0.data,
                    old(self).operand1.data,
                ),
            ) && (forall|i: int|
                1 <= i < old(self).delay@.len() ==> final(self).delay@[i] == old(self).delay@[i
                    - 1]),
            !old(self).oehb.data_in.ready ==> final(self).delay == old(self).delay,
            final(self).join == old(self).join,
            final(self).func == old(self).func,
            ({
                let (o1, c) = oehb_commit(old(self).oehb);
                &&& final(self).oehb == (if c {
                    oehb_propagate(o1)
                } else {
                    o1
                })
                &&& changed == (old(self).oehb.data_in.ready || c)
            }),
    {
        let mut flag = false;
        if self.oehb.data_in.ready {
            flag = true;
            let v = apply_binop(self.func, self.operand0.data, self.operand1.data);
            self.delay.push_front((self.join.data_out.valid, v));
            self.delay.pop_back();
            proof {
                assert(self.delay@[0] == (
                    old(self).join.data_out.valid,
                    spec_apply_binop(
                        old(self).func,
                        old(self).operand0.data,
                        old(self).operand1.data,
                    ),
                ));
                assert forall|i: int| 1 <= i < self.delay@.len() implies self.delay@[i] == old(
                    self,
                ).delay@[i - 1] by {}
            }
        }
        if self.oehb.update() {
            flag = true;
            self.oehb.propagate();
        }
        flag
    }
}

/// The control merge: a two-way combinational merge feeds a TEHB whose
/// token forks to the data output and a condition output reporting which
/// input was selected (false for input 0, true for input 1).
#[derive(Clone, Debug)]
pub struct ControlMerge {
    pub data_in: Vec<HandshakeValue>,
    pub data_out: HandshakeValue,
    pub condition: HandshakeValue,
    pub phi_c: MergeNoTehb,
    pub tehb: TEHB,
    pub fork_c: Fork,
}

pub open spec fn cmerge_wf(c: ControlMerge) -> bool {
    c.data_in@.len() == 2 && c.phi_c.data_in@.len() == 2 && c.fork_c.data_out@.len() == 2
        && c.fork_c.sub_reg@.len() == 2
}

impl ControlMerge {
    pub fn new() -> (r: ControlMerge)
        ensures
            cmerge_wf(r),
    {
        ControlMerge {
            data_in: Join::set(2).data_in,
            data_out: HandshakeValue::empty(),
            condition: HandshakeValue::empty(),
            phi_c: MergeNoTehb::set(2),
            tehb: TEHB::new(),
            fork_c: Fork::set(2),
        }
    }

    pub fn set() -> (r: ControlMerge)
        ensures
            cmerge_wf(r),
    {
        let mut unit = ControlMerge::new();
        unit.init();
        unit
    }

    pub fn init(&mut self)
        requires
            cmerge_wf(*old(self)),
        ensures
            cmerge_wf(*final(self)),
            final(self).data_in == old(self).data_in,
            final(self).data_out == old(self).data_out,
            final(self).condition == old(self).condition,
    {
        self.tehb.full_reg = Reg::init(VALUE::Bool(false));
        self.tehb.data_reg = Reg::init(VALUE::Bool(false));
        self.tehb.propagate();
        self.fork_c.init();
        self.fork_c.propagate();
        self.phi_c.propagate();
    }

    /// The merge stage: drive the inner merge from the inputs and hand its
    /// per-input readies outward.
    fn propagate_merge_stage(&mut self) -> (changed: (bool, bool))
        requires
            cmerge_wf(*old(self)),
        ensures
            cmerge_wf(*final(self)),
            final(self).tehb == old(self).tehb,
            final(self).fork_c == old(self).fork_c,
            final(self).condition == old(self).condition,
            final(self).data_out == old(self).data_out,
            forall|i: int|
                0 <= i < 2 ==> final(self).data_in@[i] == (HandshakeValue {
                    ready: final(self).phi_c.data_in@[i].ready,
                    ..old(self).data_in@[i]
                }),
            forall|i: int|
                0 <= i < 2 ==> final(self).data_in@[i].valid == old(self).data_in@[i].valid,
            changed.0 == (old(self).data_in@[0].ready != final(self).data_in@[0].ready),
            changed.1 == (old(self).data_in@[1].ready != final(self).data_in@[1].ready),
    {
        let phi_c_nready = self.tehb.get_ready();
        let c1 = self.phi_c.data_out.set_ready(phi_c_nready);
        let mut pi0 = self.phi_c.data_in[0];
        let c2 = pi0.set_valid_from(self.data_in[0]);
        self.phi_c.data_in.set(0, pi0);
        let mut pi1 = self.phi_c.data_in[1];
        let c3 = pi1.set_valid_from(self.data_in[1]);
        self.phi_c.data_in.set(1, pi1);
        if c1 || c2 || c3 {
            self.phi_c.propagate();
        }
        let mut in0 = self.data_in[0];
        let r0 = in0.set_ready_from(self.phi_c.data_in[0]);
        self.data_in.set(0, in0);
        let mut in1 = self.data_in[1];
        let r1 = in1.set_ready_from(self.phi_c.data_in[1]);
        self.data_in.set(1, in1);
        (r0, r1)
    }

    /// The fork stage: pass the merged token through the TEHB and fork it
    /// to the condition and data outputs.
    #[verifier::rlimit(100)]
    fn propagate_fork_stage(&mut self) -> (changed: (bool, bool))
        requires
            cmerge_wf(*old(self)),
        ensures
            cmerge_wf(*final(self)),
            final(self).phi_c == old(self).phi_c,
            final(self).data_in == old(self).data_in,
            final(self).condition == (HandshakeValue {
                valid: final(self).fork_c.data_out@[0].valid,
                data: final(self).tehb.data_out.data,
                ready: old(self).condition.ready,
            }),
            final(self).data_out == (HandshakeValue {
                valid: final(self).fork_c.data_out@[1].valid,
                data: final(self).tehb.data_out.data,
                ready: old(self).data_out.ready,
            }),
            final(self).tehb.data_in.data == VALUE::Bool(!old(self).data_in@[0].valid),
    {
        let r0 = self.fork_c.sub_reg[0].get_value().as_bool();
        let r1 = self.fork_c.sub_reg[1].get_value().as_bool();
        let tehb_nready = !((r0 && !self.condition.ready) || (r1 && !self.data_out.ready));
        let d1 = self.tehb.data_out.set_ready(tehb_nready);
        let d2 = self.tehb.data_in.set_valid(
            self.phi_c.data_out.valid,
            VALUE::Bool(!self.data_in[0].valid),
        );
        if d1 || d2 {
            self.tehb.propagate();
        }
        let e1 = self.fork_c.data_in.set_valid(self.tehb.data_out.valid, VALUE::Bool(true));
        let mut fo0 = self.fork_c.data_out[0];
        let e2 = fo0.set_ready_from(self.condition);
        self.fork_c.data_out.set(0, fo0);
        let mut fo1 = self.fork_c.data_out[1];
        let e3 = fo1.set_ready_from(self.data_out);
        self.fork_c.data_out.set(1, fo1);
        if e1 || e2 || e3 {
            self.fork_c.propagate();
        }
        let ch0 = self.condition.set_valid(self.fork_c.data_out[0].valid, self.tehb.data_out.data);
        let ch1 = self.data_out.set_valid(self.fork_c.data_out[1].valid, self.tehb.data_out.data);
        (ch0, ch1)
    }

    /// One propagation pass.  The outward wires follow the internal
    /// composition: each input's ready mirrors the merge stage, and the
    /// condition and data outputs carry the forked TEHB token, whose
    /// payload records whether input 0 was absent.
    pub fn propagate(&mut self) -> (changed: Vec<PortId>)
        requires
            cmerge_wf(*old(self)),
        ensures
            cmerge_wf(*final(self)),
            forall|i: int|
                0 <= i < 2 ==> final(self).data_in@[i] == (HandshakeValue {
                    ready: final(self).phi_c.data_in@[i].ready,
                    ..old(self).data_in@[i]
                }),
            final(self).condition == (HandshakeValue {
                valid: final(self).fork_c.data_out@[0].valid,
                data: final(self).tehb.data_out.data,
                ready: old(self).condition.ready,
            }),
            final(self).data_out == (HandshakeValue {
                valid: final(self).fork_c.data_out@[1].valid,
                data: final(self).tehb.data_out.data,
                ready: old(self).data_out.ready,
            }),
            final(self).tehb.data_in.data == VALUE::Bool(!old(self).data_in@[0].valid),
    {
        let mut changed: Vec<PortId> = Vec::new();
        let (r0, r1) = self.propagate_merge_stage();
        if r0 {
            changed.push(PortId::DataIn(0));
        }
        if r1 {
            changed.push(PortId::DataIn(1));
        }
        let (ch0, ch1) = self.propagate_fork_stage();
        if ch0 {
            changed.push(PortId::Condition);
        }
        if ch1 {
            changed.push(PortId::DataOut(0));
        }
        changed
    }

    pub fn update(&mut self) -> (changed: bool)
        requires
            cmerge_wf(*old(self)),
        ensures
            cmerge_wf(*final(self)),
            final(self).data_in == old(self).data_in,
            final(self).data_out == old(self).data_out,
            final(self).condition == old(self).condition,
            final(self).phi_c == old(self).phi_c,
            ({
                let (t1, c1) = tehb_commit(old(self).tehb);
                let fork_changed = exists|i: int|
                    0 <= i < old(self).fork_c.sub_reg@.len() && reg_update(
                        old(self).fork_c.sub_reg@[i],
                    ).1;
                &&& final(self).tehb == (if c1 {
                    tehb_propagate(t1)
                } else {
                    t1
                })
                &&& changed == (c1 || fork_changed)
            }),
    {
        let mut flag = false;
        if self.tehb.update() {
            flag = true;
            self.tehb.propagate();
        }
        if self.fork_c.update() {
            flag = true;
            self.fork_c.propagate();
        }
        flag
    }
}

/// The empty unit: no ports, nothing to do.
#[derive(Clone, Copy, PartialEq, Eq, Structural, Debug)]
pub struct Empty {}

impl Empty {
    pub fn new() -> (r: Empty) {
        Empty {  }
    }
}

/// The shared dynamic memory: either a single store port (one write per
/// cycle, committed at `update`) or a read-only bank of load ports with
/// lowest-index-first arbitration; the selected address is registered and
/// the loaded word leaves through a per-port TEHB one cycle later.
#[derive(Clone, Debug)]
pub struct DynMem {
    pub load_address: Vec<HandshakeValue>,
    pub load_data: Vec<HandshakeValue>,
    pub store_address: Vec<HandshakeValue>,
    pub store_data: Vec<HandshakeValue>,
    pub mem: Vec<VALUE>,
    pub w_en: bool,
    pub r_en: bool,
    pub addr: usize,
    pub w_data: VALUE,
    pub buffer: Vec<TEHB>,
    pub arb_out_valid: Reg,
    pub address: Reg,
}

pub open spec fn dynmem_wf(d: DynMem) -> bool {
    d.load_address@.len() == d.load_data@.len() && d.load_data@.len() == d.buffer@.len()
        && d.store_address@.len() == d.store_data@.len()
}

/// Whether load port `i` bids for arbitration: its buffer can accept and
/// its address token is valid.
pub open spec fn dynmem_arb_in_valid(d: DynMem, i: int) -> bool {
    !value::spec_as_bool(d.buffer@[i].full_reg.value) && d.load_address@[i].valid
}

pub open spec fn dynmem_no_arb_before(d: DynMem, i: int) -> bool {
    forall|j: int| 0 <= j < i ==> !dynmem_arb_in_valid(d, j)
}

/// The lowest load port at or after `i` that bids for arbitration.
pub open spec fn dynmem_first_arb(d: DynMem, i: int) -> Option<int>
    decreases (if i < d.load_address@.len() {
        d.load_address@.len() - i
    } else {
        0
    }),
{
    if i < 0 || i >= d.load_address@.len() {
        None
    } else if dynmem_arb_in_valid(d, i) {
        Some(i)
    } else {
        dynmem_first_arb(d, i + 1)
    }
}

proof fn lemma_first_arb_skip(d: DynMem, i: int)
    requires
        0 <= i,
        dynmem_no_arb_before(d, i),
    ensures
        dynmem_first_arb(d, 0) == dynmem_first_arb(d, i),
    decreases i,
{
    if i > 0 && i <= d.load_address@.len() {
        lemma_first_arb_skip(d, i - 1);
    } else if i > d.load_address@.len() {
        lemma_first_arb_skip(d, d.load_address@.len() as int);
    }
}

/// The value staged into the arbitration register: the winning port's
/// index, or the out-of-range marker when no port bids.
pub open spec fn dynmem_arb_reg(d: DynMem) -> VALUE {
    match dynmem_first_arb(d, 0) {
        Some(p) => VALUE::U64(p as u64),
        None => VALUE::U64(100000000),
    }
}

/// The per-port buffer after one propagation: its output takes the load
/// port's ready, and its input carries the word selected on the previous
/// cycle when this port won that arbitration.
pub open spec fn dynmem_buffer_after(d: DynMem, i: int) -> TEHB {
    let (bout, c1) = hv_set_ready(d.buffer@[i].data_out, d.load_data@[i].ready);
    let nv = value::spec_as_u64(d.arb_out_valid.value) == i as u64;
    let nd = if nv {
        if value::spec_as_u64(d.address.value) < d.mem@.len() {
            d.mem@[value::spec_as_u64(d.address.value) as int]
        } else {
            VALUE::ERROR
        }
    } else {
        VALUE::ERROR
    };
    let (bin, c2) = hv_set_valid(d.buffer@[i].data_in, nv, nd);
    let b1 = TEHB { data_in: bin, data_out: bout, ..d.buffer@[i] };
    if c1 || c2 {
        tehb_propagate(b1)
    } else {
        b1
    }
}

impl DynMem {
    /// A memory with the given port counts and a zeroed store of `size`
    /// cells of one element type.
    pub fn set(load: usize, store: usize, size: usize, data_type: Ty) -> (r: DynMem)
        ensures
            dynmem_wf(r),
            r.load_address@.len() == load,
            r.load_data@.len() == load,
            r.buffer@.len() == load,
            r.store_address@.len() == store,
            r.store_data@.len() == store,
            r.mem@.len() == size,
            forall|i: int|
                0 <= i < size ==> r.mem@[i] == crate::storage::Memory::zero_of(data_type),
            forall|i: int| 0 <= i < load ==> r.load_address@[i] == (HandshakeValue { valid: false, ready: false, data: VALUE::ERROR }),
            forall|i: int| 0 <= i < load ==> r.load_data@[i] == (HandshakeValue { valid: false, ready: false, data: VALUE::ERROR }),
            forall|i: int| 0 <= i < store ==> r.store_address@[i] == (HandshakeValue { valid: false, ready: false, data: VALUE::ERROR }),
            forall|i: int| 0 <= i < store ==> r.store_data@[i] == (HandshakeValue { valid: false, ready: false, data: VALUE::ERROR }),
            forall|i: int|
                0 <= i < load ==> r.buffer@[i] == (TEHB {
                    data_in: HandshakeValue { valid: false, ready: false, data: VALUE::ERROR },
                    data_out: HandshakeValue { valid: false, ready: false, data: VALUE::ERROR },
                    full_reg: Reg { enable: None, value: VALUE::ERROR, new_value: VALUE::ERROR },
                    data_reg: Reg { enable: None, value: VALUE::ERROR, new_value: VALUE::ERROR },
                }),
            r.arb_out_valid == (Reg {
                enable: None,
                value: VALUE::U64(10000000),
                new_value: VALUE::ERROR,
            }),
            r.address == (Reg { enable: None, value: VALUE::ERROR, new_value: VALUE::ERROR }),
            r.w_en == false,
    {
        let mut buffer: Vec<TEHB> = Vec::new();
        let mut i: usize = 0;
        while i < load
            invariant
                i <= load,
                buffer@.len() == i,
                forall|k: int|
                    0 <= k < i ==> buffer@[k] == (TEHB {
                    data_in: HandshakeValue { valid: false, ready: false, data: VALUE::ERROR },
                    data_out: HandshakeValue { valid: false, ready: false, data: VALUE::ERROR },
                    full_reg: Reg { enable: None, value: VALUE::ERROR, new_value: VALUE::ERROR },
                    data_reg: Reg { enable: None, value: VALUE::ERROR, new_value: VALUE::ERROR },
                }),
            decreases load - i,
        {
            buffer.push(TEHB::new());
            i = i + 1;
        }
        let mut mem: Vec<VALUE> = Vec::new();
        let z = crate::storage::Memory::zero_value(data_type);
        let mut k: usize = 0;
        while k < size
            invariant
                k <= size,
                mem@.len() == k,
                z == crate::storage::Memory::zero_of(data_type),
                forall|j: int| 0 <= j < k ==> mem@[j] == crate::storage::Memory::zero_of(data_type),
            decreases size - k,
        {
            mem.push(z);
            k = k + 1;
        }
        DynMem {
            load_address: Join::set(load).data_in,
            load_data: Join::set(load).data_in,
            store_address: Join::set(store).data_in,
            store_data: Join::set(store).data_in,
            mem,
            w_en: false,
            r_en: false,
            addr: 0,
            w_data: VALUE::ERROR,
            buffer,
            arb_out_valid: Reg::init(VALUE::U64(10000000)),
            address: Reg::new(),
        }
    }

    /// Bulk-populate the backing store from literal strings at the element
    /// type of the first cell.
    pub fn set_mem(&mut self, store: &Vec<String>)
        ensures
            final(self).mem@.len() == old(self).mem@.len(),
            final(self).load_address == old(self).load_address,
            final(self).load_data == old(self).load_data,
            forall|i: int|
                0 <= i < old(self).mem@.len() ==> final(self).mem@[i] == (if i < store@.len()
                    && old(self).mem@.len() > 0 {
                    crate::ops::spec_build_value(crate::value::ty_of(old(self).mem@[0]), store@[i]@)
                } else {
                    old(self).mem@[i]
                }),
    {
        if self.mem.len() == 0 {
            return ;
        }
        let data_type = self.mem[0].get_type();
        let n = if store.len() < self.mem.len() {
            store.len()
        } else {
            self.mem.len()
        };
        let ghost orig = self.mem@;
        let mut i: usize = 0;
        while i < n
            invariant
                i <= n,
                n <= store@.len(),
                n <= self.mem@.len(),
                self.mem@.len() == orig.len(),
                orig.len() > 0,
                data_type == crate::value::ty_of(orig[0]),
                self.load_address == old(self).load_address,
                self.load_data == old(self).load_data,
                self.store_address == old(self).store_address,
                self.store_data == old(self).store_data,
                self.buffer == old(self).buffer,
                self.arb_out_valid == old(self).arb_out_valid,
                self.address == old(self).address,
                self.w_en == old(self).w_en,
                self.r_en == old(self).r_en,
                self.addr == old(self).addr,
                self.w_data == old(self).w_data,
                forall|j: int|
                    0 <= j < orig.len() ==> self.mem@[j] == (if j < i {
                        crate::ops::spec_build_value(crate::value::ty_of(orig[0]), store@[j]@)
                    } else {
                        orig[j]
                    }),
            decreases n - i,
        {
            let v = crate::ops::build_value(data_type, store[i].as_str());
            self.mem.set(i, v);
            i = i + 1;
        }
    }

    /// One propagation pass.  With a single store port, the write enable is
    /// the conjunction of both store tokens' valids and each store token's
    /// ready mirrors the other's valid.  With load ports only, the bidding
    /// port with the lowest index is registered for arbitration, the word
    /// selected on the previous cycle leaves through its port's buffer, and
    /// a load address is ready only when no lower port bids and its buffer
    /// accepts.
    #[verifier::rlimit(100)]
    pub fn propagate(&mut self) -> (changed: Vec<PortId>)
        requires
            dynmem_wf(*old(self)),
        ensures
            dynmem_wf(*final(self)),
            final(self).mem == old(self).mem,
            final(self).load_address@.len() == old(self).load_address@.len(),
            final(self).store_address@.len() == old(self).store_address@.len(),
            final(self).store_data@.len() == old(self).store_data@.len(),
            old(self).load_address@.len() == 0 && old(self).store_address@.len() == 1 ==> ({
                let v0 = old(self).store_address@[0].valid;
                let v1 = old(self).store_data@[0].valid;
                &&& final(self).w_en == (v0 && v1)
                &&& final(self).addr == value::spec_as_u64(old(self).store_address@[0].data)
                    as usize
                &&& final(self).w_data == old(self).store_data@[0].data
                &&& final(self).store_address@[0] == (HandshakeValue {
                    ready: v1,
                    ..old(self).store_address@[0]
                })
                &&& final(self).store_data@[0] == (HandshakeValue {
                    ready: v0,
                    ..old(self).store_data@[0]
                })
            }),
            old(self).store_address@.len() == 0 ==> ({
                &&& final(self).w_en == false
                &&& final(self).r_en == false
                &&& forall|i: int|
                    0 <= i < old(self).load_address@.len()
                        ==> (#[trigger] final(self).buffer@[i]) == dynmem_buffer_after(
                        *old(self),
                        i,
                    )
                &&& forall|i: int|
                    0 <= i < old(self).load_address@.len()
                        ==> (#[trigger] final(self).load_data@[i]) == (HandshakeValue {
                        valid: dynmem_buffer_after(*old(self), i).data_out.valid,
                        data: dynmem_buffer_after(*old(self), i).data_out.data,
                        ready: old(self).load_data@[i].ready,
                    })
                &&& final(self).arb_out_valid == reg_set(
                    old(self).arb_out_valid,
                    dynmem_arb_reg(*old(self)),
                )
                &&& final(self).address == (match dynmem_first_arb(*old(self), 0) {
                    Some(p) => reg_set(old(self).address, old(self).load_address@[p].data),
                    None => old(self).address,
                })
                &&& forall|i: int|
                    0 <= i < old(self).load_address@.len()
                        ==> (#[trigger] final(self).load_address@[i]) == (HandshakeValue {
                        ready: dynmem_no_arb_before(*old(self), i)
                            && final(self).buffer@[i].data_in.ready,
                        ..old(self).load_address@[i]
                    })
            }),
            old(self).store_address@.len() > 0 && !(old(self).load_address@.len() == 0
                && old(self).store_address@.len() == 1) ==> *final(self) == *old(self)
                && changed@.len() == 0,
    {
        let mut changed: Vec<PortId> = Vec::new();
        let load_num = self.load_address.len();
        let store_num = self.store_address.len();
        if load_num == 0 && store_num == 1 {
            let v0 = self.store_address[0].valid;
            let v1 = self.store_data[0].valid;
            self.w_en = v0 && v1;
            self.addr = self.store_address[0].data.as_u64() as usize;
            self.w_data = self.store_data[0].data;
            let mut sa = self.store_address[0];
            if sa.set_ready(v1) {
                changed.push(PortId::StoreAddress(0));
            }
            self.store_address.set(0, sa);
            let mut sd = self.store_data[0];
            if sd.set_ready(v0) {
                changed.push(PortId::StoreData(0));
            }
            self.store_data.set(0, sd);
        } else if store_num == 0 {
            self.w_en = false;
            self.r_en = false;
            let ghost o = *old(self);
            let sel = self.arb_out_valid.get_value().as_u64();
            let reg_addr = self.address.get_value().as_u64();
            let mut i: usize = 0;
            while i < load_num
                invariant
                    i <= load_num,
                    dynmem_wf(*self),
                    load_num == self.load_address@.len(),
                    load_num == o.load_address@.len(),
                    self.load_address == o.load_address,
                    self.store_address@.len() == o.store_address@.len(),
                    self.store_data@.len() == o.store_data@.len(),
                    self.mem == o.mem,
                    self.w_en == false,
                    self.r_en == false,
                    sel == value::spec_as_u64(o.arb_out_valid.value),
                    reg_addr == value::spec_as_u64(o.address.value),
                    self.arb_out_valid == o.arb_out_valid,
                    self.address == o.address,
                    forall|k: int| i <= k < load_num ==> self.buffer@[k] == o.buffer@[k],
                    forall|k: int|
                        0 <= k < i ==> (#[trigger] self.buffer@[k]) == dynmem_buffer_after(o, k),
                    forall|k: int|
                        0 <= k < i ==> (#[trigger] self.buffer@[k]).full_reg.value
                            == o.buffer@[k].full_reg.value,
                    forall|k: int| i <= k < load_num ==> self.load_data@[k] == o.load_data@[k],
                    forall|k: int|
                        0 <= k < i ==> (#[trigger] self.load_data@[k]) == (HandshakeValue {
                            valid: dynmem_buffer_after(o, k).data_out.valid,
                            data: dynmem_buffer_after(o, k).data_out.data,
                            ready: o.load_data@[k].ready,
                        }),
                decreases load_num - i,
            {
                let ghost pre_buf = self.buffer@;
                let ghost pre_ld = self.load_data@;
                let new_valid = sel == i as u64;
                let new_data = if new_valid {
                    if reg_addr < self.mem.len() as u64 {
                        self.mem[reg_addr as usize]
                    } else {
                        VALUE::ERROR
                    }
                } else {
                    VALUE::ERROR
                };
                let mut buf = self.buffer[i];
                let c1 = buf.data_out.set_ready(self.load_data[i].ready);
                let c2 = buf.data_in.set_valid(new_valid, new_data);
                if c1 || c2 {
                    buf.propagate();
                }
                self.buffer.set(i, buf);
                let mut ld = self.load_data[i];
                if ld.set_valid_from(buf.data_out) {
                    changed.push(PortId::LoadData(i));
                }
                self.load_data.set(i, ld);
                proof {
                    assert forall|k: int| 0 <= k < i + 1 implies (#[trigger] self.buffer@[k])
                        == dynmem_buffer_after(o, k) by {
                        if k < i {
                            assert(self.buffer@[k] == pre_buf[k]);
                        } else {
                            assert(pre_buf[k] == o.buffer@[k]);
                            assert(pre_ld[k] == o.load_data@[k]);
                        }
                    };
                    assert forall|k: int| 0 <= k < i + 1 implies (#[trigger] self.load_data@[k])
                        == (HandshakeValue {
                        valid: dynmem_buffer_after(o, k).data_out.valid,
                        data: dynmem_buffer_after(o, k).data_out.data,
                        ready: o.load_data@[k].ready,
                    }) by {
                        if k < i {
                            assert(self.load_data@[k] == pre_ld[k]);
                        }
                    };
                    assert forall|k: int| 0 <= k < i + 1 implies (#[trigger] self.buffer@[k]).full_reg.value
                        == o.buffer@[k].full_reg.value by {}
                    assert forall|k: int| i + 1 <= k < load_num implies self.buffer@[k]
                        == o.buffer@[k] by {
                        assert(self.buffer@[k] == pre_buf[k]);
                    };
                    assert forall|k: int| i + 1 <= k < load_num implies self.load_data@[k]
                        == o.load_data@[k] by {
                        assert(self.load_data@[k] == pre_ld[k]);
                    };
                }
                i = i + 1;
            }
            let ghost lds = self.load_data@;
            let ghost bufs = self.buffer@;
            proof {
                assert forall|k: int| 0 <= k < load_num implies (#[trigger] bufs[k]).full_reg.value
                    == o.buffer@[k].full_reg.value by {}
            }
            let mut arb_pick: Option<u64> = None;
            let mut i: usize = 0;
            while i < load_num
                invariant
                    i <= load_num,
                    dynmem_wf(*self),
                    load_num == self.load_address@.len(),
                    load_num == o.load_address@.len(),
                    self.load_address == o.load_address,
                    self.load_data@.len() == o.load_data@.len(),
                    self.store_address@.len() == o.store_address@.len(),
                    self.store_data@.len() == o.store_data@.len(),
                    self.mem == o.mem,
                    self.w_en == false,
                    self.r_en == false,
                    self.buffer@ == bufs,
                    self.load_data@ == lds,
                    self.arb_out_valid == o.arb_out_valid,
                    self.address == o.address,
                    forall|k: int|
                        0 <= k < load_num ==> (#[trigger] self.buffer@[k]).full_reg.value
                            == o.buffer@[k].full_reg.value,
                    match arb_pick {
                        Some(p) => 0 <= p < i && dynmem_arb_in_valid(o, p as int)
                            && dynmem_no_arb_before(o, p as int),
                        None => dynmem_no_arb_before(o, i as int),
                    },
                decreases load_num - i,
            {
                if arb_pick.is_none() {
                    let bid = !self.buffer[i].full_reg.get_value().as_bool()
                        && self.load_address[i].valid;
                    if bid {
                        arb_pick = Some(i as u64);
                    }
                }
                i = i + 1;
            }
            proof {
                match arb_pick {
                    Some(p) => {
                        lemma_first_arb_skip(o, p as int);
                        assert(dynmem_first_arb(o, 0) == Some(p as int));
                    },
                    None => {
                        lemma_first_arb_skip(o, load_num as int);
                        assert(dynmem_first_arb(o, 0) is None);
                    },
                }
            }
            match arb_pick {
                Some(p) => {
                    self.arb_out_valid.set_value(VALUE::U64(p));
                    let a = self.load_address[p as usize].data;
                    self.address.set_value(a);
                },
                None => {
                    self.arb_out_valid.set_value(VALUE::U64(100000000));
                },
            }
            let mut seen_bid = false;
            let mut i: usize = 0;
            while i < load_num
                invariant
                    i <= load_num,
                    dynmem_wf(*self),
                    load_num == self.load_address@.len(),
                    load_num == o.load_address@.len(),
                    self.load_data@.len() == o.load_data@.len(),
                    self.store_address@.len() == o.store_address@.len(),
                    self.store_data@.len() == o.store_data@.len(),
                    self.mem == o.mem,
                    self.w_en == false,
                    self.r_en == false,
                    self.load_data@ == lds,
                    self.arb_out_valid == reg_set(o.arb_out_valid, dynmem_arb_reg(o)),
                    self.address == (match dynmem_first_arb(o, 0) {
                        Some(p) => reg_set(o.address, o.load_address@[p].data),
                        None => o.address,
                    }),
                    forall|k: int|
                        0 <= k < load_num ==> (#[trigger] self.buffer@[k]).full_reg.value
                            == o.buffer@[k].full_reg.value,
                    forall|k: int| 0 <= k < load_num ==> (#[trigger] self.load_address@[k]).valid
                        == o.load_address@[k].valid,
                    forall|k: int| 0 <= k < load_num ==> (#[trigger] self.load_address@[k]).data
                        == o.load_address@[k].data,
                    seen_bid == !dynmem_no_arb_before(o, i as int),
                    forall|k: int|
                        0 <= k < i ==> (#[trigger] self.load_address@[k]) == (HandshakeValue {
                            ready: dynmem_no_arb_before(o, k) && self.buffer@[k].data_in.ready,
                            ..o.load_address@[k]
                        }),
                    self.buffer@ == bufs,
                decreases load_num - i,
            {
                let ghost pre = self.load_address@;
                let bid = !self.buffer[i].full_reg.get_value().as_bool()
                    && self.load_address[i].valid;
                proof {
                    assert(bid == dynmem_arb_in_valid(o, i as int));
                }
                let new_ready = !seen_bid && self.buffer[i].data_in.ready;
                let mut la = self.load_address[i];
                if la.set_ready(new_ready) {
                    changed.push(PortId::LoadAddress(i));
                }
                self.load_address.set(i, la);
                if bid {
                    seen_bid = true;
                }
                proof {
                    assert forall|k: int| 0 <= k < i + 1 implies (#[trigger] self.load_address@[k])
                    == (HandshakeValue {
                    ready: dynmem_no_arb_before(o, k) && self.buffer@[k].data_in.ready,
                    ..o.load_address@[k]
                }) by {
                    if k < i {
                        assert(self.load_address@[k] == pre[k]);
                    }
                };
                assert forall|k: int| i + 1 <= k < load_num implies self.load_address@[k]
                    == pre[k] by {}
                }
                i = i + 1;
            }
        }
        changed
    }

    /// Commit the cycle: perform the pending write (out-of-range writes
    /// are dropped), then commit every buffer and both registers.
    pub fn update(&mut self) -> (changed: bool)
        requires
            dynmem_wf(*old(self)),
        ensures
            dynmem_wf(*final(self)),
            final(self).mem@.len() == old(self).mem@.len(),
            old(self).w_en && old(self).addr < old(self).mem@.len() ==> final(self).mem@ == old(
                self,
            ).mem@.update(old(self).addr as int, old(self).w_data),
            old(self).w_en && old(self).addr >= old(self).mem@.len() ==> final(self).mem@ == old(
                self,
            ).mem@,
            !old(self).w_en ==> final(self).mem@ == old(self).mem@,
            final(self).arb_out_valid == reg_update(old(self).arb_out_valid).0,
            final(self).address == reg_update(old(self).address).0,
            final(self).load_address == old(self).load_address,
            final(self).load_data == old(self).load_data,
            final(self).store_address == old(self).store_address,
            final(self).store_data == old(self).store_data,
            forall|i: int|
                0 <= i < old(self).buffer@.len() ==> final(self).buffer@[i] == tehb_commit(
                    old(self).buffer@[i],
                ).0,
            changed == ((exists|i: int|
                0 <= i < old(self).buffer@.len() && tehb_commit(old(self).buffer@[i]).1)
                || reg_update(old(self).address).1 || reg_update(old(self).arb_out_valid).1),
    {
        let mut flag = false;
        if self.w_en {
            if self.addr < self.mem.len() {
                let v = self.w_data;
                self.mem.set(self.addr, v);
            }
        }
        let n = self.buffer.len();
        let mut i: usize = 0;
        while i < n
            invariant
                i <= n,
                n == self.buffer@.len(),
                n == old(self).buffer@.len(),
                self.load_address == old(self).load_address,
                self.load_data == old(self).load_data,
                self.store_address == old(self).store_address,
                self.store_data == old(self).store_data,
                self.arb_out_valid == old(self).arb_out_valid,
                self.address == old(self).address,
                self.mem@.len() == old(self).mem@.len(),
                self.mem@ == (if old(self).w_en && old(self).addr < old(self).mem@.len() {
                    old(self).mem@.update(old(self).addr as int, old(self).w_data)
                } else {
                    old(self).mem@
                }),
                forall|k: int| i <= k < n ==> self.buffer@[k] == old(self).buffer@[k],
                forall|k: int|
                    0 <= k < i ==> self.buffer@[k] == tehb_commit(old(self).buffer@[k]).0,
                flag == exists|k: int| 0 <= k < i && tehb_commit(old(self).buffer@[k]).1,
            decreases n - i,
        {
            let mut buf = self.buffer[i];
            if buf.update() {
                flag = true;
                proof {
                    assert(tehb_commit(old(self).buffer@[i as int]).1);
                }
            } else {
                proof {
                    assert(!tehb_commit(old(self).buffer@[i as int]).1);
                    assert forall|k: int|
                        0 <= k < i + 1 && tehb_commit(old(self).buffer@[k]).1 implies (exists|
                        m: int,
                    |
                        0 <= m < i && tehb_commit(old(self).buffer@[m]).1) by {
                        if k < i {
                            assert(0 <= k < i && tehb_commit(old(self).buffer@[k]).1);
                        }
                    };
                }
            }
            self.buffer.set(i, buf);
            i = i + 1;
        }
        if self.address.update() {
            flag = true;
        }
        if self.arb_out_valid.update() {
            flag = true;
        }
        flag
    }
}

/// Construction from nothing, as every primitive offers it.
pub trait New: Sized {
    fn new() -> Self;
}

/// The capability set of a handshake primitive: port access, a validity
/// scan, initialisation, propagation and the end-of-cycle commit.
pub trait IsHandshake {
    fn set_value(&mut self, port: PortId, val: HandshakeValue);

    fn get_value(&self, port: PortId) -> HandshakeValue;

    fn is_valid(&self) -> bool;

    fn init(&mut self);

    fn propagate(&mut self) -> Vec<PortId>;

    fn update(&mut self) -> bool;
}

/// One primitive of the network, as a closed tagged variant.
#[derive(Clone, Debug)]
pub enum HandshakeUnit {
    Nothing(Empty),
    Branch(Branch),
    Buffer(ElasticBuffer),
    Constant(ConstantElastic),
    Mux(MuxDynamic),
    CMerge(ControlMerge),
    Merge(Merge),
    MergeNoTehb(MergeNoTehb),
    ForkUnit(Fork),
    FifoUnit(ElasticFIFO),
    Mem(DynMem),
    LoadUnit(Load),
    StoreUnit(Store),
    Binary(BinaryUnit),
    BinarySeq(BinaryUnitSeq),
    TruncUnit(Trunc),
    SelectUnit(Select),
}

/// The structural invariant each variant carries.
pub open spec fn unit_wf(u: HandshakeUnit) -> bool {
    match u {
        HandshakeUnit::Branch(b) => branch_wf(b),
        HandshakeUnit::CMerge(c) => cmerge_wf(c),
        HandshakeUnit::ForkUnit(f) => fork_wf(f),
        HandshakeUnit::Mem(d) => dynmem_wf(d),
        HandshakeUnit::BinarySeq(b) => buseq_wf(b),
        HandshakeUnit::SelectUnit(s) => select_wf(s),
        _ => true,
    }
}

fn vec_port_get(v: &Vec<HandshakeValue>, i: usize) -> (r: HandshakeValue)
    ensures
        i < v@.len() ==> r == v@[i as int],
        i >= v@.len() ==> r == (HandshakeValue { valid: false, ready: false, data: VALUE::ERROR }),
{
    if i < v.len() {
        v[i]
    } else {
        HandshakeValue::empty()
    }
}

fn vec_port_set(v: &mut Vec<HandshakeValue>, i: usize, val: HandshakeValue)
    ensures
        i < old(v)@.len() ==> final(v)@ == old(v)@.update(i as int, val),
        i >= old(v)@.len() ==> final(v)@ == old(v)@,
{
    if i < v.len() {
        v.set(i, val);
    }
}

/// The committed form of an elastic buffer at end of cycle, with its
/// re-propagation when a register changed, and the commit flag.
pub open spec fn eb_commit(b: ElasticBuffer) -> (ElasticBuffer, bool) {
    let (t1, c1) = tehb_commit(b.tehb);
    let (o1, c2) = oehb_commit(b.oehb);
    (
        ElasticBuffer {
            tehb: if c1 {
                tehb_propagate(t1)
            } else {
                t1
            },
            oehb: if c2 {
                oehb_propagate(o1)
            } else {
                o1
            },
            ..b
        },
        c1 || c2,
    )
}

/// Whether a unit's end-of-cycle commit changes any stored register — a
/// function of the pre-commit state alone.
pub open spec fn unit_update_changed(u: HandshakeUnit) -> bool {
    match u {
        HandshakeUnit::Buffer(b) => eb_commit(b).1,
        HandshakeUnit::Mux(m) => tehb_commit(m.tehb).1,
        HandshakeUnit::CMerge(c) => cmerge_wf(c) && (tehb_commit(c.tehb).1 || exists|i: int|
            0 <= i < c.fork_c.sub_reg@.len() && reg_update(c.fork_c.sub_reg@[i]).1),
        HandshakeUnit::Merge(m) => tehb_commit(m.tehb).1,
        HandshakeUnit::ForkUnit(f) => exists|i: int|
            0 <= i < f.sub_reg@.len() && reg_update(f.sub_reg@[i]).1,
        HandshakeUnit::FifoUnit(q) => (q.data_in.valid && q.data_in.ready) || (q.data_out.valid
            && q.data_out.ready),
        HandshakeUnit::Mem(d) => dynmem_wf(d) && ((exists|i: int|
            0 <= i < d.buffer@.len() && tehb_commit(d.buffer@[i]).1) || reg_update(d.address).1
            || reg_update(d.arb_out_valid).1),
        HandshakeUnit::StoreUnit(s) => eb_commit(s.addr).1 || eb_commit(s.data).1,
        HandshakeUnit::BinarySeq(b) => buseq_wf(b) && (b.oehb.data_in.ready || oehb_commit(
            b.oehb,
        ).1),
        _ => false,
    }
}

/// How a unit's end-of-cycle commit relates its state before and after:
/// the addressable ports are untouched and every internal register takes
/// its committed (and, where the unit re-propagates, settled) form.
pub open spec fn unit_update_rel(pre: HandshakeUnit, post: HandshakeUnit) -> bool {
    match pre {
        HandshakeUnit::Buffer(b) => post matches HandshakeUnit::Buffer(b2) && b2.data_in
            == b.data_in && b2.data_out == b.data_out && b2.tehb == eb_commit(b).0.tehb
            && b2.oehb == eb_commit(b).0.oehb,
        HandshakeUnit::Mux(m) => post matches HandshakeUnit::Mux(m2) && m2.data_in == m.data_in
            && m2.data_out == m.data_out && m2.condition == m.condition && m2.tehb == tehb_commit(
            m.tehb,
        ).0,
        HandshakeUnit::CMerge(c) => if cmerge_wf(c) {
            post matches HandshakeUnit::CMerge(c2) && cmerge_wf(c2) && c2.data_in == c.data_in
                && c2.data_out == c.data_out && c2.condition == c.condition && c2.phi_c == c.phi_c
                && ({
                let (t1, c1) = tehb_commit(c.tehb);
                c2.tehb == if c1 {
                    tehb_propagate(t1)
                } else {
                    t1
                }
            })
        } else {
            post == pre
        },
        HandshakeUnit::Merge(m) => post matches HandshakeUnit::Merge(m2) && m2.data_in
            == m.data_in && m2.data_out == m.data_out && ({
            let (t1, c1) = tehb_commit(m.tehb);
            m2.tehb == if c1 {
                tehb_propagate(t1)
            } else {
                t1
            }
        }),
        HandshakeUnit::ForkUnit(f) => post matches HandshakeUnit::ForkUnit(f2) && f2.data_in
            == f.data_in && f2.data_out == f.data_out && f2.sub_reg@.len() == f.sub_reg@.len()
            && (forall|i: int|
            0 <= i < f.sub_reg@.len() ==> f2.sub_reg@[i] == reg_update(
                #[trigger] f.sub_reg@[i],
            ).0),
        HandshakeUnit::FifoUnit(q) => post matches HandshakeUnit::FifoUnit(q2) && q2.data_in
            == q.data_in && q2.data_out == q.data_out && q2.depth == q.depth && q2.new_value
            == q.new_value && ({
            let do_enq = q.data_in.valid && q.data_in.ready;
            let do_deq = q.data_out.valid && q.data_out.ready;
            let mid: Seq<VALUE> = if do_enq {
                q.queue@.push(q.new_value)
            } else {
                q.queue@
            };
            q2.queue@ == if do_deq && mid.len() > 0 {
                mid.drop_first()
            } else {
                mid
            }
        }),
        HandshakeUnit::Mem(d) => if dynmem_wf(d) {
            post matches HandshakeUnit::Mem(d2) && d2.load_address == d.load_address
                && d2.load_data == d.load_data && d2.store_address == d.store_address
                && d2.store_data == d.store_data && d2.arb_out_valid == reg_update(
                d.arb_out_valid,
            ).0 && d2.address == reg_update(d.address).0 && d2.mem@ == (if d.w_en && d.addr
                < d.mem@.len() {
                d.mem@.update(d.addr as int, d.w_data)
            } else {
                d.mem@
            }) && d2.buffer@.len() == d.buffer@.len() && (forall|i: int|
                0 <= i < d.buffer@.len() ==> d2.buffer@[i] == tehb_commit(
                    #[trigger] d.buffer@[i],
                ).0)
        } else {
            post == pre
        },
        HandshakeUnit::StoreUnit(s) => post matches HandshakeUnit::StoreUnit(s2) && s2.address_in
            == s.address_in && s2.address_out == s.address_out && s2.data_in == s.data_in
            && s2.data_out == s.data_out && s2.control == s.control && ({
            let (a1, ca) = eb_commit(s.addr);
            let (d1, cd) = eb_commit(s.data);
            s2.addr == (if ca {
                eb_propagate(a1)
            } else {
                a1
            }) && s2.data == (if cd {
                eb_propagate(d1)
            } else {
                d1
            })
        }),
        HandshakeUnit::BinarySeq(b) => if buseq_wf(b) {
            post matches HandshakeUnit::BinarySeq(b2) && b2.operand0 == b.operand0 && b2.operand1
                == b.operand1 && b2.result == b.result && b2.join == b.join && b2.func == b.func
                && b2.delay@.len() == b.delay@.len() && (b.oehb.data_in.ready ==> b2.delay@[0]
                == (b.join.data_out.valid, spec_apply_binop(b.func, b.operand0.data, b.operand1.data))
                && (forall|i: int|
                1 <= i < b.delay@.len() ==> b2.delay@[i] == b.delay@[i - 1])) && (
            !b.oehb.data_in.ready ==> b2.delay == b.delay) && ({
                let (o1, c) = oehb_commit(b.oehb);
                b2.oehb == if c {
                    oehb_propagate(o1)
                } else {
                    o1
                }
            })
        } else {
            post == pre
        },
        _ => post == pre,
    }
}

/// Whether any addressable port of a unit holds a valid token: the
/// quiescence scan of a network run.
pub open spec fn unit_valid(u: HandshakeUnit) -> bool {
    match u {
        HandshakeUnit::Nothing(_) => false,
        HandshakeUnit::Branch(b) => b.data_in.valid || b.condition.valid || seq_any_valid(
            b.data_out@,
        ),
        HandshakeUnit::Buffer(b) => b.data_in.valid || b.data_out.valid,
        HandshakeUnit::Constant(c) => c.control.valid || c.data_out.valid,
        HandshakeUnit::Mux(m) => seq_any_valid(m.data_in@) || m.data_out.valid
            || m.condition.valid,
        HandshakeUnit::CMerge(c) => seq_any_valid(c.data_in@) || c.data_out.valid
            || c.condition.valid,
        HandshakeUnit::Merge(m) => seq_any_valid(m.data_in@) || m.data_out.valid,
        HandshakeUnit::MergeNoTehb(m) => seq_any_valid(m.data_in@) || m.data_out.valid,
        HandshakeUnit::ForkUnit(f) => f.data_in.valid || seq_any_valid(f.data_out@),
        HandshakeUnit::FifoUnit(q) => q.data_in.valid || q.data_out.valid,
        HandshakeUnit::Mem(d) => seq_any_valid(d.load_address@) || seq_any_valid(d.load_data@)
            || seq_any_valid(d.store_address@) || seq_any_valid(d.store_data@),
        HandshakeUnit::LoadUnit(l) => l.address_in.valid || l.address_out.valid
            || l.data_in.valid || l.data_out.valid || l.control.valid,
        HandshakeUnit::StoreUnit(s) => s.address_in.valid || s.address_out.valid
            || s.data_in.valid || s.data_out.valid || s.control.valid,
        HandshakeUnit::Binary(b) => b.operand0.valid || b.operand1.valid || b.result.valid,
        HandshakeUnit::BinarySeq(b) => b.operand0.valid || b.operand1.valid || b.result.valid,
        HandshakeUnit::TruncUnit(t) => t.operand.valid || t.result.valid,
        HandshakeUnit::SelectUnit(s) => seq_any_valid(s.data_in@) || s.data_out.valid
            || s.condition.valid,
    }
}

pub open spec fn seq_any_valid(s: Seq<HandshakeValue>) -> bool {
    exists|i: int| 0 <= i < s.len() && s[i].valid
}

impl HandshakeUnit {
    /// Commit the unit's registers at end of cycle; see `unit_update_rel`
    /// for the state relation and `unit_update_changed` for the flag.
    pub fn commit(&mut self) -> (changed: bool)
        ensures
            unit_update_rel(*old(self), *final(self)),
            changed == unit_update_changed(*old(self)),
    {
        match self {
            HandshakeUnit::Nothing(_) => false,
            HandshakeUnit::Branch(_) => false,
            HandshakeUnit::Buffer(u) => u.update(),
            HandshakeUnit::Constant(_) => false,
            HandshakeUnit::Mux(u) => u.update(),
            HandshakeUnit::CMerge(u) => {
                if u.data_in.len() == 2 && u.phi_c.data_in.len() == 2 && u.fork_c.data_out.len()
                    == 2 && u.fork_c.sub_reg.len() == 2 {
                    u.update()
                } else {
                    false
                }
            },
            HandshakeUnit::Merge(u) => u.update(),
            HandshakeUnit::MergeNoTehb(_) => false,
            HandshakeUnit::ForkUnit(u) => u.update(),
            HandshakeUnit::FifoUnit(u) => u.update(),
            HandshakeUnit::Mem(u) => {
                if u.load_address.len() == u.load_data.len() && u.load_data.len()
                    == u.buffer.len() && u.store_address.len() == u.store_data.len() {
                    u.update()
                } else {
                    false
                }
            },
            HandshakeUnit::LoadUnit(_) => false,
            HandshakeUnit::StoreUnit(u) => u.update(),
            HandshakeUnit::Binary(_) => false,
            HandshakeUnit::BinarySeq(u) => {
                if u.join.data_in.len() == 2 && u.delay.len() >= 1 {
                    u.update()
                } else {
                    false
                }
            },
            HandshakeUnit::TruncUnit(_) => false,
            HandshakeUnit::SelectUnit(_) => false,
        }
    }
    /// Whether any addressable port holds a valid token; see `unit_valid`.
    pub fn check_valid(&self) -> (r: bool)
        ensures
            r == unit_valid(*self),
    {
        match self {
            HandshakeUnit::Nothing(_) => false,
            HandshakeUnit::Branch(u) => u.data_in.valid || u.condition.valid || any_port_valid(
                &u.data_out,
            ),
            HandshakeUnit::Buffer(u) => u.data_in.valid || u.data_out.valid,
            HandshakeUnit::Constant(u) => u.control.valid || u.data_out.valid,
            HandshakeUnit::Mux(u) => any_port_valid(&u.data_in) || u.data_out.valid
                || u.condition.valid,
            HandshakeUnit::CMerge(u) => any_port_valid(&u.data_in) || u.data_out.valid
                || u.condition.valid,
            HandshakeUnit::Merge(u) => any_port_valid(&u.data_in) || u.data_out.valid,
            HandshakeUnit::MergeNoTehb(u) => any_port_valid(&u.data_in) || u.data_out.valid,
            HandshakeUnit::ForkUnit(u) => u.data_in.valid || any_port_valid(&u.data_out),
            HandshakeUnit::FifoUnit(u) => u.data_in.valid || u.data_out.valid,
            HandshakeUnit::Mem(u) => any_port_valid(&u.load_address) || any_port_valid(
                &u.load_data,
            ) || any_port_valid(&u.store_address) || any_port_valid(&u.store_data),
            HandshakeUnit::LoadUnit(u) => u.address_in.valid || u.address_out.valid
                || u.data_in.valid || u.data_out.valid || u.control.valid,
            HandshakeUnit::StoreUnit(u) => u.address_in.valid || u.address_out.valid
                || u.data_in.valid || u.data_out.valid || u.control.valid,
            HandshakeUnit::Binary(u) => u.operand0.valid || u.operand1.valid || u.result.valid,
            HandshakeUnit::BinarySeq(u) => u.operand0.valid || u.operand1.valid
                || u.result.valid,
            HandshakeUnit::TruncUnit(u) => u.operand.valid || u.result.valid,
            HandshakeUnit::SelectUnit(u) => any_port_valid(&u.data_in) || u.data_out.valid
                || u.condition.valid,
        }
    }
}

impl IsHandshake for HandshakeUnit {
    /// Overwrite one addressable port; unknown ports are ignored.
    fn set_value(&mut self, port: PortId, val: HandshakeValue) {
        match self {
            HandshakeUnit::Nothing(_) => (),
            HandshakeUnit::Branch(u) => match port {
                PortId::DataIn(_) => u.data_in = val,
                PortId::DataOut(i) => vec_port_set(&mut u.data_out, i, val),
                PortId::Condition => u.condition = val,
                _ => (),
            },
            HandshakeUnit::Buffer(u) => match port {
                PortId::DataIn(_) => u.data_in = val,
                PortId::DataOut(_) => u.data_out = val,
                _ => (),
            },
            HandshakeUnit::Constant(u) => match port {
                PortId::Control => u.control = val,
                PortId::DataOut(_) => u.data_out = val,
                _ => (),
            },
            HandshakeUnit::Mux(u) => match port {
                PortId::DataIn(i) => vec_port_set(&mut u.data_in, i, val),
                PortId::DataOut(_) => u.data_out = val,
                PortId::Condition => u.condition = val,
                _ => (),
            },
            HandshakeUnit::CMerge(u) => match port {
                PortId::DataIn(i) => vec_port_set(&mut u.data_in, i, val),
                PortId::DataOut(_) => u.data_out = val,
                PortId::Condition => u.condition = val,
                _ => (),
            },
            HandshakeUnit::Merge(u) => match port {
                PortId::DataIn(i) => vec_port_set(&mut u.data_in, i, val),
                PortId::DataOut(_) => u.data_out = val,
                _ => (),
            },
            HandshakeUnit::MergeNoTehb(u) => match port {
                PortId::DataIn(i) => vec_port_set(&mut u.data_in, i, val),
                PortId::DataOut(_) => u.data_out = val,
                _ => (),
            },
            HandshakeUnit::ForkUnit(u) => match port {
                PortId::DataIn(_) => u.data_in = val,
                PortId::DataOut(i) => vec_port_set(&mut u.data_out, i, val),
                _ => (),
            },
            HandshakeUnit::FifoUnit(u) => match port {
                PortId::DataIn(_) => u.data_in = val,
                PortId::DataOut(_) => u.data_out = val,
                _ => (),
            },
            HandshakeUnit::Mem(u) => match port {
                PortId::LoadAddress(i) => vec_port_set(&mut u.load_address, i, val),
                PortId::LoadData(i) => vec_port_set(&mut u.load_data, i, val),
                PortId::StoreAddress(i) => vec_port_set(&mut u.store_address, i, val),
                PortId::StoreData(i) => vec_port_set(&mut u.store_data, i, val),
                _ => (),
            },
            HandshakeUnit::LoadUnit(u) => match port {
                PortId::AddressIn => u.address_in = val,
                PortId::AddressOut => u.address_out = val,
                PortId::DataIn(_) => u.data_in = val,
                PortId::DataOut(_) => u.data_out = val,
                PortId::Control => u.control = val,
                _ => (),
            },
            HandshakeUnit::StoreUnit(u) => match port {
                PortId::AddressIn => u.address_in = val,
                PortId::AddressOut => u.address_out = val,
                PortId::DataIn(_) => u.data_in = val,
                PortId::DataOut(_) => u.data_out = val,
                PortId::Control => u.control = val,
                _ => (),
            },
            HandshakeUnit::Binary(u) => match port {
                PortId::Operand(0) => u.operand0 = val,
                PortId::Operand(1) => u.operand1 = val,
                PortId::Result => u.result = val,
                _ => (),
            },
            HandshakeUnit::BinarySeq(u) => match port {
                PortId::Operand(0) => u.operand0 = val,
                PortId::Operand(1) => u.operand1 = val,
                PortId::Result => u.result = val,
                _ => (),
            },
            HandshakeUnit::TruncUnit(u) => match port {
                PortId::Operand(_) => u.operand = val,
                PortId::Result => u.result = val,
                _ => (),
            },
            HandshakeUnit::SelectUnit(u) => match port {
                PortId::DataIn(i) => vec_port_set(&mut u.data_in, i, val),
                PortId::DataOut(_) => u.data_out = val,
                PortId::Condition => u.condition = val,
                _ => (),
            },
        }
    }

    /// Read one addressable port; unknown ports read as an empty token.
    fn get_value(&self, port: PortId) -> HandshakeValue {
        match self {
            HandshakeUnit::Nothing(_) => HandshakeValue::empty(),
            HandshakeUnit::Branch(u) => match port {
                PortId::DataIn(_) => u.data_in,
                PortId::DataOut(i) => vec_port_get(&u.data_out, i),
                PortId::Condition => u.condition,
                _ => HandshakeValue::empty(),
            },
            HandshakeUnit::Buffer(u) => match port {
                PortId::DataIn(_) => u.data_in,
                PortId::DataOut(_) => u.data_out,
                _ => HandshakeValue::empty(),
            },
            HandshakeUnit::Constant(u) => match port {
                PortId::Control => u.control,
                PortId::DataOut(_) => u.data_out,
                _ => HandshakeValue::empty(),
            },
            HandshakeUnit::Mux(u) => match port {
                PortId::DataIn(i) => vec_port_get(&u.data_in, i),
                PortId::DataOut(_) => u.data_out,
                PortId::Condition => u.condition,
                _ => HandshakeValue::empty(),
            },
            HandshakeUnit::CMerge(u) => match port {
                PortId::DataIn(i) => vec_port_get(&u.data_in, i),
                PortId::DataOut(_) => u.data_out,
                PortId::Condition => u.condition,
                _ => HandshakeValue::empty(),
            },
            HandshakeUnit::Merge(u) => match port {
                PortId::DataIn(i) => vec_port_get(&u.data_in, i),
                PortId::DataOut(_) => u.data_out,
                _ => HandshakeValue::empty(),
            },
            HandshakeUnit::MergeNoTehb(u) => match port {
                PortId::DataIn(i) => vec_port_get(&u.data_in, i),
                PortId::DataOut(_) => u.data_out,
                _ => HandshakeValue::empty(),
            },
            HandshakeUnit::ForkUnit(u) => match port {
                PortId::DataIn(_) => u.data_in,
                PortId::DataOut(i) => vec_port_get(&u.data_out, i),
                _ => HandshakeValue::empty(),
            },
            HandshakeUnit::FifoUnit(u) => match port {
                PortId::DataIn(_) => u.data_in,
                PortId::DataOut(_) => u.data_out,
                _ => HandshakeValue::empty(),
            },
            HandshakeUnit::Mem(u) => match port {
                PortId::LoadAddress(i) => vec_port_get(&u.load_address, i),
                PortId::LoadData(i) => vec_port_get(&u.load_data, i),
                PortId::StoreAddress(i) => vec_port_get(&u.store_address, i),
                PortId::StoreData(i) => vec_port_get(&u.store_data, i),
                _ => HandshakeValue::empty(),
            },
            HandshakeUnit::LoadUnit(u) => match port {
                PortId::AddressIn => u.address_in,
                PortId::AddressOut => u.address_out,
                PortId::DataIn(_) => u.data_in,
                PortId::DataOut(_) => u.data_out,
                PortId::Control => u.control,
                _ => HandshakeValue::empty(),
            },
            HandshakeUnit::StoreUnit(u) => match port {
                PortId::AddressIn => u.address_in,
                PortId::AddressOut => u.address_out,
                PortId::DataIn(_) => u.data_in,
                PortId::DataOut(_) => u.data_out,
                PortId::Control => u.control,
                _ => HandshakeValue::empty(),
            },
            HandshakeUnit::Binary(u) => match port {
                PortId::Operand(0) => u.operand0,
                PortId::Operand(1) => u.operand1,
                PortId::Result => u.result,
                _ => HandshakeValue::empty(),
            },
            HandshakeUnit::BinarySeq(u) => match port {
                PortId::Operand(0) => u.operand0,
                PortId::Operand(1) => u.operand1,
                PortId::Result => u.result,
                _ => HandshakeValue::empty(),
            },
            HandshakeUnit::TruncUnit(u) => match port {
                PortId::Operand(_) => u.operand,
                PortId::Result => u.result,
                _ => HandshakeValue::empty(),
            },
            HandshakeUnit::SelectUnit(u) => match port {
                PortId::DataIn(i) => vec_port_get(&u.data_in, i),
                PortId::DataOut(_) => u.data_out,
                PortId::Condition => u.condition,
                _ => HandshakeValue::empty(),
            },
        }
    }

    /// Whether any addressable port of the unit holds a valid token; the
    /// quiescence scan that terminates a run.
    fn is_valid(&self) -> bool {
        self.check_valid()
    }

    fn init(&mut self) {
        match self {
            HandshakeUnit::Buffer(u) => u.init(),
            HandshakeUnit::Merge(u) => u.init(),
            HandshakeUnit::CMerge(u) => {
                if u.data_in.len() == 2 && u.phi_c.data_in.len() == 2 && u.fork_c.data_out.len()
                    == 2 && u.fork_c.sub_reg.len() == 2 {
                    u.init();
                }
            },
            HandshakeUnit::ForkUnit(u) => u.init(),
            HandshakeUnit::Mux(u) => u.tehb.init(),
            HandshakeUnit::StoreUnit(u) => u.init(),
            _ => (),
        }
    }

    /// One combinational pass; reports which ports changed.  A unit whose
    /// structural invariant does not hold reports nothing.
    fn propagate(&mut self) -> Vec<PortId> {
        match self {
            HandshakeUnit::Nothing(_) => Vec::new(),
            HandshakeUnit::Branch(u) => {
                if u.data_out.len() == 2 && u.join.data_in.len() == 2 {
                    u.propagate()
                } else {
                    Vec::new()
                }
            },
            HandshakeUnit::Buffer(u) => {
                let (a, b) = u.propagate();
                let mut changed: Vec<PortId> = Vec::new();
                if a {
                    changed.push(PortId::DataIn(0));
                }
                if b {
                    changed.push(PortId::DataOut(0));
                }
                changed
            },
            HandshakeUnit::Constant(u) => u.propagate(),
            HandshakeUnit::Mux(u) => u.propagate(),
            HandshakeUnit::CMerge(u) => {
                if u.data_in.len() == 2 && u.phi_c.data_in.len() == 2 && u.fork_c.data_out.len()
                    == 2 && u.fork_c.sub_reg.len() == 2 {
                    u.propagate()
                } else {
                    Vec::new()
                }
            },
            HandshakeUnit::Merge(u) => u.propagate(),
            HandshakeUnit::MergeNoTehb(u) => u.propagate(),
            HandshakeUnit::ForkUnit(u) => {
                if u.data_out.len() == u.sub_reg.len() {
                    u.propagate()
                } else {
                    Vec::new()
                }
            },
            HandshakeUnit::FifoUnit(u) => u.propagate(),
            HandshakeUnit::Mem(u) => {
                if u.load_address.len() == u.load_data.len() && u.load_data.len()
                    == u.buffer.len() && u.store_address.len() == u.store_data.len() {
                    u.propagate()
                } else {
                    Vec::new()
                }
            },
            HandshakeUnit::LoadUnit(u) => u.propagate(),
            HandshakeUnit::StoreUnit(u) => u.propagate(),
            HandshakeUnit::Binary(u) => u.propagate(),
            HandshakeUnit::BinarySeq(u) => {
                if u.join.data_in.len() == 2 && u.delay.len() >= 1 {
                    u.propagate()
                } else {
                    Vec::new()
                }
            },
            HandshakeUnit::TruncUnit(u) => u.propagate(),
            HandshakeUnit::SelectUnit(u) => {
                if u.data_in.len() == 2 && u.join.data_in.len() == 3 {
                    u.propagate()
                } else {
                    Vec::new()
                }
            },
        }
    }

    /// The end-of-cycle commit; reports whether any register changed.
    fn update(&mut self) -> bool {
        self.commit()
    }
}

fn any_port_valid(v: &Vec<HandshakeValue>) -> (r: bool)
    ensures
        r == exists|i: int| 0 <= i < v@.len() && v@[i].valid,
{
    let n = v.len();
    let mut i: usize = 0;
    while i < n
        invariant
            i <= n,
            n == v@.len(),
            forall|j: int| 0 <= j < i ==> !(#[trigger] v@[j].valid),
        decreases n - i,
    {
        if v[i].valid {
            return true;
        }
        i = i + 1;
    }
    false
}

/// Propagation settles: applying the TEHB's propagation function twice
/// gives the state one application gives, so a settled buffer reports no
/// newly changed port when re-propagated.
pub proof fn lemma_tehb_propagate_idempotent(t: TEHB)
    ensures
        tehb_propagate(tehb_propagate(t)) == tehb_propagate(t),
{
}

/// The same settling law for the opaque half-buffer.
pub proof fn lemma_oehb_propagate_idempotent(t: OEHB)
    ensures
        oehb_propagate(oehb_propagate(t)) == oehb_propagate(t),
{
}

/// The settling law for the fork: a state just produced by a propagation
/// drives, on re-propagation, exactly the port values it already holds —
/// the sticky registers' stored values are untouched by staging, so every
/// output and the input ready recompute unchanged.
pub proof fn lemma_fork_propagate_idempotent(f: Fork, f2: Fork)
    requires
        fork_wf(f),
        fork_wf(f2),
        f2.data_out@.len() == f.data_out@.len(),
        f2.sub_reg@.len() == f.sub_reg@.len(),
        f2.data_in == (HandshakeValue { ready: !fork_any_stop(f), ..f.data_in }),
        forall|i: int|
            0 <= i < f.data_out@.len() ==> f2.data_out@[i] == #[trigger] fork_new_out(f, i),
        forall|i: int|
            0 <= i < f.sub_reg@.len() ==> f2.sub_reg@[i] == #[trigger] fork_new_reg(f, i),
    ensures
        forall|i: int|
            0 <= i < f2.data_out@.len() ==> #[trigger] fork_new_out(f2, i) == f2.data_out@[i],
        f2.data_in == (HandshakeValue { ready: !fork_any_stop(f2), ..f2.data_in }),
{
    assert forall|i: int| 0 <= i < f2.sub_reg@.len() implies fork_reg(f2, i) == fork_reg(f, i)
        && (fork_block_stop(f2, i) == fork_block_stop(f, i)) by {
        assert(f2.sub_reg@[i] == fork_new_reg(f, i));
        assert(f2.data_out@[i] == fork_new_out(f, i));
    };
    assert(fork_any_stop(f2) == fork_any_stop(f)) by {
        if fork_any_stop(f2) {
            let w = choose|i: int| 0 <= i < f2.sub_reg@.len() && fork_block_stop(f2, i);
            assert(fork_block_stop(f, w));
        }
        if fork_any_stop(f) {
            let w = choose|i: int| 0 <= i < f.sub_reg@.len() && fork_block_stop(f, i);
            assert(fork_block_stop(f2, w));
        }
    };
    assert forall|i: int| 0 <= i < f2.data_out@.len() implies #[trigger] fork_new_out(f2, i)
        == f2.data_out@[i] by {
        assert(f2.data_out@[i] == fork_new_out(f, i));
    };
}

/// The same settling law for the composed elastic buffer: once settled, a
/// further propagation leaves every port unchanged.
#[verifier::rlimit(100)]
pub proof fn lemma_eb_propagate_idempotent(b: ElasticBuffer)
    ensures
        eb_propagate(eb_propagate(b)) == eb_propagate(b),
{
    let b1 = eb_propagate(b);
    lemma_tehb_propagate_idempotent(b.tehb);
    lemma_oehb_propagate_idempotent(b.oehb);
    assert(eb_propagate(b1).tehb == b1.tehb);
    assert(eb_propagate(b1).oehb == b1.oehb);
}

} // verus!
