//! Storage primitives: byte-addressable memories, bounded streams, the
//! dual-port hardware memory and the hardware FIFO, and the fixed-latency
//! register chain (`ValueTiming`) that models multi-cycle units.
//!
//! Out-of-range accesses never abort: a read outside a memory yields
//! `VALUE::ERROR` and a write outside it is dropped.

use vstd::prelude::*;

verus! {

use std::collections::VecDeque;
use crate::value::{VALUE, Ty, ty_of};
use crate::value;
use crate::ops::{build_value, spec_build_value};

/// A software-level memory: a fixed-length vector of uniformly typed values.
#[derive(Debug)]
pub struct Memory {
    store: Vec<VALUE>,
}

impl Memory {
    pub closed spec fn view(&self) -> Seq<VALUE> {
        self.store@
    }

    pub fn new(store: Vec<VALUE>) -> (r: Memory)
        ensures
            r@ == store@,
    {
        Memory { store }
    }

    /// Construct a zero-filled memory of one element type.
    pub fn zeroed(data_type: Ty, size: usize) -> (r: Memory)
        ensures
            r@.len() == size,
            forall|i: int| 0 <= i < size ==> r@[i] == Memory::zero_of(data_type),
    {
        let z = Self::zero_value(data_type);
        let mut store: Vec<VALUE> = Vec::new();
        let mut i: usize = 0;
        while i < size
            invariant
                i <= size,
                store@.len() == i,
                z == Memory::zero_of(data_type),
                forall|j: int| 0 <= j < i ==> store@[j] == Memory::zero_of(data_type),
            decreases size - i,
        {
            store.push(z);
            i = i + 1;
        }
        Memory { store }
    }

    /// The zero value of an element type; float memories hold the zero bit
    /// pattern, and an unknown type holds `ERROR`.
    pub open spec fn zero_of(t: Ty) -> VALUE {
        match t {
            Ty::I32 => VALUE::I32(0),
            Ty::I64 => VALUE::I64(0),
            Ty::U32 => VALUE::U32(0),
            Ty::U64 => VALUE::U64(0),
            Ty::Bool => VALUE::Bool(false),
            Ty::F32 => VALUE::F32(0u32),
            Ty::F64 => VALUE::F64(0u64),
            _ => VALUE::ERROR,
        }
    }

    pub fn zero_value(t: Ty) -> (r: VALUE)
        ensures
            r == Memory::zero_of(t),
    {
        match t {
            Ty::I32 => VALUE::I32(0),
            Ty::I64 => VALUE::I64(0),
            Ty::U32 => VALUE::U32(0),
            Ty::U64 => VALUE::U64(0),
            Ty::Bool => VALUE::Bool(false),
            Ty::F32 => VALUE::F32(0u32),
            Ty::F64 => VALUE::F64(0u64),
            _ => VALUE::ERROR,
        }
    }

    /// Store a value at an index; a write outside the memory is dropped.
    pub fn update(&mut self, index: usize, value: VALUE)
        ensures
            index < old(self)@.len() ==> final(self)@ == old(self)@.update(index as int, value),
            index >= old(self)@.len() ==> final(self)@ == old(self)@,
    {
        if index < self.store.len() {
            self.store.set(index, value);
        }
    }

    /// Load the value at an index; a read outside the memory yields `ERROR`.
    pub fn get_value(&self, index: usize) -> (r: VALUE)
        ensures
            index < self@.len() ==> r == self@[index as int],
            index >= self@.len() ==> r == VALUE::ERROR,
    {
        if index < self.store.len() {
            self.store[index]
        } else {
            VALUE::ERROR
        }
    }

    pub open spec fn elem_type(&self) -> Ty {
        if self@.len() > 0 {
            ty_of(self@[0])
        } else {
            Ty::Error
        }
    }

    /// Bulk-populate from literal strings, decoding each at the element type
    /// of the memory (taken from its first cell).  Cells beyond the supplied
    /// literals keep their old values.
    pub fn set(&mut self, store: &Vec<String>)
        ensures
            final(self)@.len() == old(self)@.len(),
            forall|i: int|
                0 <= i < old(self)@.len() ==> final(self)@[i] == (if i < store@.len() {
                    spec_build_value(old(self).elem_type(), store@[i]@)
                } else {
                    old(self)@[i]
                }),
    {
        if self.store.len() == 0 {
            return ;
        }
        let data_type = self.store[0].get_type();
        let n = if store.len() < self.store.len() {
            store.len()
        } else {
            self.store.len()
        };
        let ghost orig = self@;
        let mut i: usize = 0;
        while i < n
            invariant
                i <= n,
                n <= store@.len(),
                n <= self.store@.len(),
                self.store@.len() == orig.len(),
                data_type == (if orig.len() > 0 { ty_of(orig[0]) } else { Ty::Error }),
                orig.len() > 0,
                forall|j: int|
                    0 <= j < orig.len() ==> self.store@[j] == (if j < i {
                        spec_build_value(ty_of(orig[0]), store@[j]@)
                    } else {
                        orig[j]
                    }),
            decreases n - i,
        {
            let v = build_value(data_type, store[i].as_str());
            self.store.set(i, v);
            i = i + 1;
        }
    }
}

/// A bounded stream FIFO connecting timed regions; `is_full` reports the
/// declared capacity, which guards consult before pushing.
#[derive(Debug)]
pub struct Stream {
    store: VecDeque<VALUE>,
    depth: usize,
}

impl Stream {
    pub closed spec fn view(&self) -> Seq<VALUE> {
        self.store@
    }

    pub closed spec fn spec_depth(&self) -> usize {
        self.depth
    }

    pub fn new(depth: usize) -> (r: Stream)
        ensures
            r@ == Seq::<VALUE>::empty(),
            r.spec_depth() == depth,
    {
        Stream { store: VecDeque::new(), depth }
    }

    pub fn is_empty(&self) -> (r: bool)
        ensures
            r == (self@.len() == 0),
    {
        self.store.len() == 0
    }

    pub fn is_full(&self) -> (r: bool)
        ensures
            r == (self@.len() >= self.spec_depth()),
    {
        self.store.len() >= self.depth
    }

    pub fn push(&mut self, value: VALUE)
        ensures
            final(self)@ == old(self)@.push(value),
            final(self).spec_depth() == old(self).spec_depth(),
    {
        self.store.push_back(value)
    }

    /// Pop the oldest value; an empty stream yields `ERROR`.
    pub fn pop(&mut self) -> (r: VALUE)
        ensures
            old(self)@.len() > 0 ==> r == old(self)@[0] && final(self)@ == old(self)@.drop_first(),
            old(self)@.len() == 0 ==> r == VALUE::ERROR && final(self)@ == old(self)@,
            final(self).spec_depth() == old(self).spec_depth(),
    {
        match self.store.pop_front() {
            Some(v) => {
                proof {
                    assert(final(self)@ =~= old(self)@.drop_first());
                }
                v
            },
            None => VALUE::ERROR,
        }
    }
}

/// A fixed-latency register chain: `set_value` stages a value, `get_value`
/// reads the head of the chain (or the staged value when the depth is 0),
/// and `update` shifts the chain by one cycle and clears the staging slot.
#[derive(Debug, Clone)]
pub struct ValueTiming {
    depth: usize,
    data_type: Ty,
    queue: VecDeque<VALUE>,
    new_value: VALUE,
}

impl ValueTiming {
    /// The chain always holds exactly `depth` registers.
    pub closed spec fn wf(&self) -> bool {
        self.queue@.len() == self.depth
    }

    pub closed spec fn view(&self) -> Seq<VALUE> {
        self.queue@
    }

    pub closed spec fn staged(&self) -> VALUE {
        self.new_value
    }

    pub closed spec fn spec_depth(&self) -> usize {
        self.depth
    }

    pub closed spec fn spec_type(&self) -> Ty {
        self.data_type
    }

    pub fn new(depth: usize, data_type: Ty) -> (r: ValueTiming)
        ensures
            r.wf(),
            r.spec_depth() == depth,
            r.spec_type() == data_type,
            r.staged() == VALUE::ERROR,
            r@ == Seq::new(depth as nat, |i: int| VALUE::ERROR),
    {
        let mut queue: VecDeque<VALUE> = VecDeque::new();
        let mut i: usize = 0;
        while i < depth
            invariant
                i <= depth,
                queue@ == Seq::new(i as nat, |j: int| VALUE::ERROR),
            decreases depth - i,
        {
            queue.push_back(VALUE::ERROR);
            proof {
                assert(queue@ =~= Seq::new((i + 1) as nat, |j: int| VALUE::ERROR));
            }
            i = i + 1;
        }
        ValueTiming { depth, data_type, queue, new_value: VALUE::ERROR }
    }

    pub fn set_value(&mut self, val: VALUE)
        ensures
            final(self).staged() == val,
            final(self)@ == old(self)@,
            final(self).spec_depth() == old(self).spec_depth(),
            final(self).spec_type() == old(self).spec_type(),
            final(self).wf() == old(self).wf(),
    {
        self.new_value = val;
    }

    pub fn get_value(&self) -> (r: VALUE)
        requires
            self.wf(),
        ensures
            self.spec_depth() > 0 ==> r == self@[0],
            self.spec_depth() == 0 ==> r == self.staged(),
    {
        if self.depth > 0 {
            self.queue[0]
        } else {
            self.new_value
        }
    }

    pub fn get_type(&self) -> (t: Ty)
        ensures
            t == self.spec_type(),
    {
        self.data_type
    }

    pub fn get_new_value(&self) -> (r: VALUE)
        ensures
            r == self.staged(),
    {
        self.new_value
    }

    /// Advance one cycle: the chain shifts, the staged value enters the
    /// tail, and the staging slot clears.
    pub fn update(&mut self)
        requires
            old(self).wf(),
        ensures
            final(self).wf(),
            final(self).spec_depth() == old(self).spec_depth(),
            final(self).spec_type() == old(self).spec_type(),
            final(self).staged() == VALUE::ERROR,
            old(self).spec_depth() > 0 ==> final(self)@ == old(self)@.drop_first().push(
                old(self).staged(),
            ),
            old(self).spec_depth() == 0 ==> final(self)@ == old(self)@,
    {
        if self.depth > 0 {
            self.queue.pop_front();
            self.queue.push_back(self.new_value);
            self.new_value = VALUE::ERROR;
            proof {
                assert(self.queue@ =~= old(self).queue@.drop_first().push(old(self).new_value));
            }
        } else {
            self.new_value = VALUE::ERROR;
        }
    }

    /// Clear every register and the staging slot to `ERROR`.
    pub fn clear(&mut self)
        requires
            old(self).wf(),
        ensures
            final(self).wf(),
            final(self).spec_depth() == old(self).spec_depth(),
            final(self).spec_type() == old(self).spec_type(),
            final(self).staged() == VALUE::ERROR,
            final(self)@ == Seq::new(old(self).spec_depth() as nat, |i: int| VALUE::ERROR),
    {
        self.new_value = VALUE::ERROR;
        let n = self.queue.len();
        let mut i: usize = 0;
        while i < n
            invariant
                i <= n,
                n == self.depth,
                self.queue@.len() == n,
                self.depth == old(self).depth,
                self.data_type == old(self).data_type,
                self.new_value == VALUE::ERROR,
                forall|j: int| 0 <= j < n - i ==> self.queue@[j] == old(self).queue@[i + j],
                forall|j: int| n - i <= j < n ==> self.queue@[j] == VALUE::ERROR,
            decreases n - i,
        {
            self.queue.pop_front();
            self.queue.push_back(VALUE::ERROR);
            i = i + 1;
        }
        proof {
            assert(self.queue@ =~= Seq::new(old(self).spec_depth() as nat, |i: int| VALUE::ERROR));
        }
    }

    /// Whether any register (not the staging slot) holds a real value.
    pub fn has_value(&self) -> (r: bool)
        ensures
            r == exists|i: int| 0 <= i < self@.len() && self@[i] != VALUE::ERROR,
    {
        let n = self.queue.len();
        let mut i: usize = 0;
        while i < n
            invariant
                i <= n,
                n == self.queue@.len(),
                forall|j: int| 0 <= j < i ==> self.queue@[j] == VALUE::ERROR,
            decreases n - i,
        {
            if self.queue[i] != VALUE::ERROR {
                return true;
            }
            i = i + 1;
        }
        false
    }
}

/// A hardware stream FIFO with registered enable ports.  `set_port` stages
/// `r_en`, `w_en` or `w_data` for the cycle; `update` commits: an asserted
/// read enable pops the head into `r_data` (or `ERROR` when empty), an
/// asserted write enable pushes the staged write data.
#[derive(Debug)]
pub struct FIFO {
    store: VecDeque<VALUE>,
    depth: usize,
    r_en: ValueTiming,
    w_en: ValueTiming,
    r_data: VALUE,
    w_data: ValueTiming,
}

impl FIFO {
    pub closed spec fn wf(&self) -> bool {
        self.r_en.wf() && self.w_en.wf() && self.w_data.wf() && self.r_en.spec_depth() == 0
            && self.w_en.spec_depth() == 0 && self.w_data.spec_depth() == 0
    }

    pub closed spec fn view(&self) -> Seq<VALUE> {
        self.store@
    }

    pub closed spec fn spec_depth(&self) -> usize {
        self.depth
    }

    pub closed spec fn spec_r_data(&self) -> VALUE {
        self.r_data
    }

    pub closed spec fn staged_r_en(&self) -> VALUE {
        self.r_en.staged()
    }

    pub closed spec fn staged_w_en(&self) -> VALUE {
        self.w_en.staged()
    }

    pub closed spec fn staged_w_data(&self) -> VALUE {
        self.w_data.staged()
    }

    pub fn new(depth: usize, data_type: Ty) -> (r: FIFO)
        ensures
            r.wf(),
            r@ == Seq::<VALUE>::empty(),
            r.spec_depth() == depth,
            r.spec_r_data() == VALUE::ERROR,
            r.staged_r_en() == VALUE::ERROR,
            r.staged_w_en() == VALUE::ERROR,
            r.staged_w_data() == VALUE::ERROR,
    {
        FIFO {
            store: VecDeque::new(),
            depth,
            r_en: ValueTiming::new(0, Ty::Bool),
            w_en: ValueTiming::new(0, Ty::Bool),
            r_data: VALUE::ERROR,
            w_data: ValueTiming::new(0, data_type),
        }
    }

    pub fn is_empty(&self) -> (r: bool)
        ensures
            r == (self@.len() == 0),
    {
        self.store.len() == 0
    }

    pub fn is_full(&self) -> (r: bool)
        ensures
            r == (self@.len() >= self.spec_depth()),
    {
        self.store.len() >= self.depth
    }

    /// The value most recently popped into the read register.
    pub fn get_value(&self) -> (r: VALUE)
        ensures
            r == self.spec_r_data(),
    {
        self.r_data
    }

    /// Stage a port for this cycle; unknown port names are ignored.
    pub fn set_port(&mut self, port: &String, val: VALUE)
        requires
            old(self).wf(),
        ensures
            final(self).wf(),
            final(self)@ == old(self)@,
            final(self).spec_depth() == old(self).spec_depth(),
            final(self).spec_r_data() == old(self).spec_r_data(),
            final(self).staged_r_en() == (if port@ == "r_en"@ {
                val
            } else {
                old(self).staged_r_en()
            }),
            final(self).staged_w_en() == (if port@ == "w_en"@ {
                val
            } else {
                old(self).staged_w_en()
            }),
            final(self).staged_w_data() == (if port@ == "w_data"@ {
                val
            } else {
                old(self).staged_w_data()
            }),
    {
        if crate::ops::str_is(port, "r_en") {
            self.r_en.set_value(val);
            proof {
                reveal_strlit("r_en");
                reveal_strlit("w_en");
                reveal_strlit("w_data");
                assert("r_en"@[0] == 'r' && "w_en"@[0] == 'w' && "w_data"@[0] == 'w');
                assert(!(port@ == "w_en"@) && !(port@ == "w_data"@));
            }
        } else if crate::ops::str_is(port, "w_en") {
            self.w_en.set_value(val);
            proof {
                reveal_strlit("w_en");
                reveal_strlit("w_data");
                assert("w_en"@.len() == 4 && "w_data"@.len() == 6);
                assert(!(port@ == "w_data"@));
            }
        } else if crate::ops::str_is(port, "w_data") {
            self.w_data.set_value(val);
        }
    }

    /// Commit the cycle: pop on an asserted read enable, push the staged
    /// write data on an asserted write enable, and clear the staging slots.
    pub fn update(&mut self)
        requires
            old(self).wf(),
        ensures
            final(self).wf(),
            final(self).spec_depth() == old(self).spec_depth(),
            final(self).staged_r_en() == VALUE::ERROR,
            final(self).staged_w_en() == VALUE::ERROR,
            final(self).staged_w_data() == VALUE::ERROR,
            ({
                let read = old(self).staged_r_en() == VALUE::Bool(true);
                let write = old(self).staged_w_en() == VALUE::Bool(true);
                let after_read: Seq<VALUE> = if read && old(self)@.len() > 0 {
                    old(self)@.drop_first()
                } else {
                    old(self)@
                };
                &&& final(self).spec_r_data() == (if read {
                    if old(self)@.len() > 0 {
                        old(self)@[0]
                    } else {
                        VALUE::ERROR
                    }
                } else {
                    old(self).spec_r_data()
                })
                &&& final(self)@ == (if write {
                    after_read.push(old(self).staged_w_data())
                } else {
                    after_read
                })
            }),
    {
        if self.r_en.get_value() == VALUE::Bool(true) {
            match self.store.pop_front() {
                Some(v) => {
                    self.r_data = v;
                    proof {
                        assert(self.store@ =~= old(self)@.drop_first());
                    }
                },
                None => {
                    self.r_data = VALUE::ERROR;
                },
            }
        }
        if self.w_en.get_value() == VALUE::Bool(true) {
            let v = self.w_data.get_value();
            self.store.push_back(v);
        }
        self.r_en.update();
        self.w_en.update();
        self.w_data.update();
    }
}

/// The observable port state of a dual-port hardware memory: the latched
/// (current) and staged value of each registered chain, and the staged
/// value of each combinational port.
#[derive(Clone, Copy, PartialEq, Eq, Structural, Debug)]
pub struct HwPorts {
    pub r_en_cur: VALUE,
    pub r_en_staged: VALUE,
    pub w_en_staged: VALUE,
    pub addr_cur: VALUE,
    pub addr_staged: VALUE,
    pub w_data_staged: VALUE,
    pub r_en2_cur: VALUE,
    pub r_en2_staged: VALUE,
    pub w_en2_staged: VALUE,
    pub addr2_cur: VALUE,
    pub addr2_staged: VALUE,
    pub w_data2_staged: VALUE,
}

/// What staging one named port does to the port state; unknown names stage
/// nothing.
pub open spec fn hw_stage(p: HwPorts, port: Seq<char>, val: VALUE) -> HwPorts {
    if port == "r_en"@ {
        HwPorts { r_en_staged: val, ..p }
    } else if port == "w_en"@ {
        HwPorts { w_en_staged: val, ..p }
    } else if port == "addr"@ {
        HwPorts { addr_staged: val, ..p }
    } else if port == "w_data"@ {
        HwPorts { w_data_staged: val, ..p }
    } else if port == "r_en2"@ {
        HwPorts { r_en2_staged: val, ..p }
    } else if port == "w_en2"@ {
        HwPorts { w_en2_staged: val, ..p }
    } else if port == "addr2"@ {
        HwPorts { addr2_staged: val, ..p }
    } else if port == "w_data2"@ {
        HwPorts { w_data2_staged: val, ..p }
    } else {
        p
    }
}

/// The end-of-cycle shift of the port state: the registered chains latch
/// their staged values, and every staging slot clears.
pub open spec fn hw_commit(p: HwPorts) -> HwPorts {
    HwPorts {
        r_en_cur: p.r_en_staged,
        r_en_staged: VALUE::ERROR,
        w_en_staged: VALUE::ERROR,
        addr_cur: p.addr_staged,
        addr_staged: VALUE::ERROR,
        w_data_staged: VALUE::ERROR,
        r_en2_cur: p.r_en2_staged,
        r_en2_staged: VALUE::ERROR,
        w_en2_staged: VALUE::ERROR,
        addr2_cur: p.addr2_staged,
        addr2_staged: VALUE::ERROR,
        w_data2_staged: VALUE::ERROR,
    }
}

/// What a port's pending write does to the memory contents: an asserted
/// staged write enable stores the staged data at the staged address;
/// out-of-range writes are dropped.
pub open spec fn hw_write(mem: Seq<VALUE>, w_en: VALUE, addr: VALUE, data: VALUE) -> Seq<VALUE> {
    if w_en == VALUE::Bool(true) && value::spec_as_u64(addr) < mem.len() {
        mem.update(value::spec_as_u64(addr) as int, data)
    } else {
        mem
    }
}

/// A dual-port hardware memory.  Each port has registered read enable and
/// address chains of depth one and combinational write enable and data;
/// `get_value` reads the cell at the currently latched address, and writes
/// commit at `update` using the staged address.
#[derive(Debug)]
pub struct HardwareMemory {
    store: Vec<VALUE>,
    r_en: ValueTiming,
    w_en: ValueTiming,
    addr: ValueTiming,
    data: ValueTiming,
    r_en2: ValueTiming,
    w_en2: ValueTiming,
    addr2: ValueTiming,
    data2: ValueTiming,
}

impl HardwareMemory {
    pub closed spec fn wf(&self) -> bool {
        &&& self.r_en.wf() && self.r_en.spec_depth() == 1
        &&& self.w_en.wf() && self.w_en.spec_depth() == 0
        &&& self.addr.wf() && self.addr.spec_depth() == 1
        &&& self.data.wf() && self.data.spec_depth() == 0
        &&& self.r_en2.wf() && self.r_en2.spec_depth() == 1
        &&& self.w_en2.wf() && self.w_en2.spec_depth() == 0
        &&& self.addr2.wf() && self.addr2.spec_depth() == 1
        &&& self.data2.wf() && self.data2.spec_depth() == 0
    }

    pub closed spec fn view(&self) -> Seq<VALUE> {
        self.store@
    }

    /// The observable port state.
    pub closed spec fn ports(&self) -> HwPorts {
        HwPorts {
            r_en_cur: self.r_en@[0],
            r_en_staged: self.r_en.staged(),
            w_en_staged: self.w_en.staged(),
            addr_cur: self.addr@[0],
            addr_staged: self.addr.staged(),
            w_data_staged: self.data.staged(),
            r_en2_cur: self.r_en2@[0],
            r_en2_staged: self.r_en2.staged(),
            w_en2_staged: self.w_en2.staged(),
            addr2_cur: self.addr2@[0],
            addr2_staged: self.addr2.staged(),
            w_data2_staged: self.data2.staged(),
        }
    }

    /// The address latched on the first port.
    pub open spec fn latched_addr(&self) -> VALUE {
        self.ports().addr_cur
    }

    pub open spec fn latched_addr2(&self) -> VALUE {
        self.ports().addr2_cur
    }

    pub fn new(store: Vec<VALUE>, data_type: Ty) -> (r: HardwareMemory)
        ensures
            r.wf(),
            r@ == store@,
            r.latched_addr() == VALUE::ERROR,
            r.latched_addr2() == VALUE::ERROR,
    {
        HardwareMemory {
            store,
            r_en: ValueTiming::new(1, Ty::Bool),
            w_en: ValueTiming::new(0, Ty::Bool),
            addr: ValueTiming::new(1, Ty::U32),
            data: ValueTiming::new(0, data_type),
            r_en2: ValueTiming::new(1, Ty::Bool),
            w_en2: ValueTiming::new(0, Ty::Bool),
            addr2: ValueTiming::new(1, Ty::U32),
            data2: ValueTiming::new(0, data_type),
        }
    }

    /// Stage a port for the cycle; unknown names are ignored.
    pub fn set_port(&mut self, port: &String, val: VALUE)
        requires
            old(self).wf(),
        ensures
            final(self).wf(),
            final(self)@ == old(self)@,
            final(self).ports() == hw_stage(old(self).ports(), port@, val),
    {
        if crate::ops::str_is(port, "r_en") {
            self.r_en.set_value(val);
        } else if crate::ops::str_is(port, "w_en") {
            self.w_en.set_value(val);
        } else if crate::ops::str_is(port, "addr") {
            self.addr.set_value(val);
        } else if crate::ops::str_is(port, "w_data") {
            self.data.set_value(val);
        } else if crate::ops::str_is(port, "r_en2") {
            self.r_en2.set_value(val);
        } else if crate::ops::str_is(port, "w_en2") {
            self.w_en2.set_value(val);
        } else if crate::ops::str_is(port, "addr2") {
            self.addr2.set_value(val);
        } else if crate::ops::str_is(port, "w_data2") {
            self.data2.set_value(val);
        }
    }

    /// Read the cell selected by a port's latched address; `r_data` reads
    /// through port one, `r_data2` through port two; any other name — or an
    /// address outside the memory — yields `ERROR`.
    pub fn get_value(&self, port: &String) -> (r: VALUE)
        requires
            self.wf(),
        ensures
            port@ == "r_data"@ ==> r == (if value::spec_as_u64(self.latched_addr()) < self@.len() {
                self@[value::spec_as_u64(self.latched_addr()) as int]
            } else {
                VALUE::ERROR
            }),
            port@ == "r_data2"@ ==> r == (if value::spec_as_u64(self.latched_addr2())
                < self@.len() {
                self@[value::spec_as_u64(self.latched_addr2()) as int]
            } else {
                VALUE::ERROR
            }),
            port@ != "r_data"@ && port@ != "r_data2"@ ==> r == VALUE::ERROR,
    {
        if crate::ops::str_is(port, "r_data") {
            proof {
                reveal_strlit("r_data");
                reveal_strlit("r_data2");
                assert("r_data"@.len() == 6 && "r_data2"@.len() == 7);
                assert(!(port@ == "r_data2"@));
            }
            let a = self.addr.get_value().as_u64();
            if a < self.store.len() as u64 {
                self.store[a as usize]
            } else {
                VALUE::ERROR
            }
        } else if crate::ops::str_is(port, "r_data2") {
            let a = self.addr2.get_value().as_u64();
            if a < self.store.len() as u64 {
                self.store[a as usize]
            } else {
                VALUE::ERROR
            }
        } else {
            VALUE::ERROR
        }
    }

    /// Commit the cycle: an asserted write enable stores its staged data at
    /// the staged address (out-of-range writes are dropped), then every
    /// port chain shifts so that the staged addresses and read enables
    /// become current.
    pub fn update(&mut self)
        requires
            old(self).wf(),
        ensures
            final(self).wf(),
            final(self).ports() == hw_commit(old(self).ports()),
            final(self)@ == hw_write(
                hw_write(
                    old(self)@,
                    old(self).ports().w_en_staged,
                    old(self).ports().addr_staged,
                    old(self).ports().w_data_staged,
                ),
                old(self).ports().w_en2_staged,
                old(self).ports().addr2_staged,
                old(self).ports().w_data2_staged,
            ),
    {
        if self.w_en.get_value() == VALUE::Bool(true) {
            let a = self.addr.get_new_value().as_u64();
            if a < self.store.len() as u64 {
                let v = self.data.get_value();
                self.store.set(a as usize, v);
            }
        }
        if self.w_en2.get_value() == VALUE::Bool(true) {
            let a = self.addr2.get_new_value().as_u64();
            if a < self.store.len() as u64 {
                let v = self.data2.get_value();
                self.store.set(a as usize, v);
            }
        }
        self.r_en.update();
        self.w_en.update();
        self.addr.update();
        self.data.update();
        self.r_en2.update();
        self.w_en2.update();
        self.addr2.update();
        self.data2.update();
    }

    /// Bulk-populate from literal strings at the element type of the first
    /// cell, as `Memory::set` does.
    pub fn set(&mut self, store: &Vec<String>)
        requires
            old(self).wf(),
        ensures
            final(self).wf(),
            final(self)@.len() == old(self)@.len(),
            forall|i: int|
                0 <= i < old(self)@.len() ==> final(self)@[i] == (if i < store@.len()
                    && old(self)@.len() > 0 {
                    spec_build_value(ty_of(old(self)@[0]), store@[i]@)
                } else {
                    old(self)@[i]
                }),
    {
        if self.store.len() == 0 {
            return ;
        }
        let data_type = self.store[0].get_type();
        let n = if store.len() < self.store.len() {
            store.len()
        } else {
            self.store.len()
        };
        let ghost orig = self@;
        let mut i: usize = 0;
        while i < n
            invariant
                i <= n,
                n <= store@.len(),
                n <= self.store@.len(),
                self.store@.len() == orig.len(),
                orig.len() > 0,
                data_type == ty_of(orig[0]),
                self.r_en == old(self).r_en,
                self.w_en == old(self).w_en,
                self.addr == old(self).addr,
                self.data == old(self).data,
                self.r_en2 == old(self).r_en2,
                self.w_en2 == old(self).w_en2,
                self.addr2 == old(self).addr2,
                self.data2 == old(self).data2,
                forall|j: int|
                    0 <= j < orig.len() ==> self.store@[j] == (if j < i {
                        spec_build_value(ty_of(orig[0]), store@[j]@)
                    } else {
                        orig[j]
                    }),
            decreases n - i,
        {
            let v = build_value(data_type, store[i].as_str());
            self.store.set(i, v);
            i = i + 1;
        }
    }
}

} // verus!
