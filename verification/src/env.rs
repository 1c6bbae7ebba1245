//! The handshake network: named unit instances wired by pre-parsed
//! assignments, scheduled by a work-list to a per-cycle fixed point.

use vstd::prelude::*;

verus! {

use std::collections::VecDeque;
use crate::value::{VALUE, Ty};
use crate::elastic::{
    HandshakeUnit,
    HandshakeValue,
    PortId,
    IsHandshake,
    Empty,
    Branch,
    ElasticBuffer,
    ConstantElastic,
    MuxDynamic,
    ControlMerge,
    Fork,
    ElasticFIFO,
    DynMem,
    Load,
    Store,
    BinaryUnit,
    BinaryUnitSeq,
    Trunc,
    Select,
    BinOp,
};
use crate::elastic::{branch_wf, cmerge_wf, buseq_wf, select_wf, fork_wf, dynmem_wf};
use vstd::string::StrSliceExecFns;

/// The declaration of one unit of a module: its operator name, instance
/// name, and the element types of its ports.
#[derive(Clone, Debug)]
pub struct Unit {
    pub op_type: String,
    pub name: String,
    pub types: Vec<Ty>,
}

impl Unit {
    pub fn new(op_type: String, name: String, types: Vec<Ty>) -> (r: Unit)
        ensures
            r.op_type == op_type,
            r.name == name,
            r.types == types,
    {
        Unit { op_type, name, types }
    }
}

/// Find the first `:` of a name; the parameterised unit forms are
/// `fork:3`, `fifo:4` and `dyn_Mem:loads,stores#size`.
fn find_char(s: &str, c: char) -> (r: Option<usize>)
    ensures
        r matches Some(i) ==> i < s@.len() && crate::ops::first_idx(s@, c) == Some(i as int),
        r is None ==> crate::ops::first_idx(s@, c) is None,
{
    let n = s.unicode_len();
    let mut i: usize = 0;
    while i < n
        invariant
            i <= n,
            n == s@.len(),
            forall|k: int| 0 <= k < i ==> s@[k] != c,
        decreases n - i,
    {
        if s.get_char(i) == c {
            proof {
                crate::ops::lemma_first_idx_found(s@, c, i as int);
            }
            return Some(i);
        }
        i = i + 1;
    }
    proof {
        crate::ops::lemma_first_idx_found(s@, c, n as int);
    }
    None
}

fn parse_usize_range(s: &str, start: usize, end: usize) -> (r: Option<usize>)
    ensures
        r matches Some(v) ==> start <= end <= s@.len() && crate::ops::spec_parse_u64(
            s@.subrange(start as int, end as int),
        ) == Some(v as u64),
{
    if start > end || end > s.unicode_len() {
        return None;
    }
    let sub = s.substring_char(start, end);
    let n = sub.unicode_len();
    match crate::ops::parse_u64_pub(sub, 0, n) {
        Some(v) => {
            proof {
                assert(sub@.skip(0) =~= s@.subrange(start as int, end as int));
            }
            if v <= usize::MAX as u64 {
                Some(v as usize)
            } else {
                None
            }
        },
        None => None,
    }
}

/// The primitive kind, with its operator and latency where the catalog
/// fixes them, that a unit declaration's operator string names.
#[derive(Clone, Copy, PartialEq, Eq, Structural, Debug)]
pub enum UnitTag {
    TagBranch,
    TagBuffer,
    TagConstant,
    TagMux,
    TagCMerge,
    TagBinarySeq(BinOp, usize),
    TagTrunc,
    TagSelect,
    TagBinary(BinOp),
    TagFork,
    TagFifo,
    TagMem,
    TagLoad,
    TagStore,
    TagUnknown,
}

/// Which primitive an operator string names; the parameterised families
/// (`fork…`, `fifo…`, `dyn_Mem…`, `load…`, `store…`) go by prefix.
pub open spec fn spec_unit_tag(s: Seq<char>) -> UnitTag {
    if s == "branch"@ {
        UnitTag::TagBranch
    } else if s == "buffer"@ {
        UnitTag::TagBuffer
    } else if s == "constant"@ {
        UnitTag::TagConstant
    } else if s == "mux_dynamic"@ {
        UnitTag::TagMux
    } else if s == "control_merge"@ {
        UnitTag::TagCMerge
    } else if s == "mul_integer"@ {
        UnitTag::TagBinarySeq(BinOp::Mul, 4)
    } else if s == "div_float"@ {
        UnitTag::TagBinarySeq(BinOp::Div, 9)
    } else if s == "mul_float"@ {
        UnitTag::TagBinarySeq(BinOp::Mul, 9)
    } else if s == "sub_float"@ {
        UnitTag::TagBinarySeq(BinOp::Sub, 13)
    } else if s == "add_float"@ {
        UnitTag::TagBinarySeq(BinOp::Add, 13)
    } else if s == "cmp_float_ugt"@ {
        UnitTag::TagBinarySeq(BinOp::CmpGt, 2)
    } else if s == "trunc_integer"@ {
        UnitTag::TagTrunc
    } else if s == "select"@ {
        UnitTag::TagSelect
    } else if s == "add_integer"@ {
        UnitTag::TagBinary(BinOp::Add)
    } else if s == "sub_integer"@ {
        UnitTag::TagBinary(BinOp::Sub)
    } else if s == "shift_left"@ {
        UnitTag::TagBinary(BinOp::ShiftLeft)
    } else if s == "cmp_integer_sle"@ {
        UnitTag::TagBinary(BinOp::CmpSle)
    } else if s == "cmp_integer_ne"@ {
        UnitTag::TagBinary(BinOp::CmpNe)
    } else if s == "and"@ {
        UnitTag::TagBinary(BinOp::And)
    } else if s == "fork"@ {
        UnitTag::TagFork
    } else if s == "fifo"@ {
        UnitTag::TagFifo
    } else if s.len() >= 4 && s[0] == 'f' && s[1] == 'o' && s[2] == 'r' && s[3] == 'k' {
        UnitTag::TagFork
    } else if s.len() >= 4 && s[0] == 'f' && s[1] == 'i' && s[2] == 'f' && s[3] == 'o' {
        UnitTag::TagFifo
    } else if s.len() >= 7 && s[0] == 'd' && s[1] == 'y' && s[2] == 'n' && s[3] == '_' && s[4]
        == 'M' && s[5] == 'e' && s[6] == 'm' {
        UnitTag::TagMem
    } else if s.len() >= 4 && s[0] == 'l' && s[1] == 'o' && s[2] == 'a' && s[3] == 'd' {
        UnitTag::TagLoad
    } else if s.len() >= 5 && s[0] == 's' && s[1] == 't' && s[2] == 'o' && s[3] == 'r' && s[4]
        == 'e' {
        UnitTag::TagStore
    } else {
        UnitTag::TagUnknown
    }
}

/// Whether a built primitive matches what its declaration's tag promises:
/// the right variant, well-formed, with the catalog's operator and latency.
pub open spec fn unit_matches_tag(u: HandshakeUnit, tag: UnitTag) -> bool {
    match tag {
        UnitTag::TagBranch => u matches HandshakeUnit::Branch(b) && branch_wf(b),
        UnitTag::TagBuffer => u is Buffer,
        UnitTag::TagConstant => u is Constant,
        UnitTag::TagMux => u matches HandshakeUnit::Mux(m) && m.data_in@.len() == 2,
        UnitTag::TagCMerge => u matches HandshakeUnit::CMerge(c) && cmerge_wf(c),
        UnitTag::TagBinarySeq(op, lat) => u matches HandshakeUnit::BinarySeq(b) && buseq_wf(b)
            && b.func == op && b.delay@.len() == lat - 1,
        UnitTag::TagTrunc => u is TruncUnit,
        UnitTag::TagSelect => u matches HandshakeUnit::SelectUnit(s) && select_wf(s),
        UnitTag::TagBinary(op) => u matches HandshakeUnit::Binary(b) && b.func == op,
        UnitTag::TagFork => u matches HandshakeUnit::ForkUnit(f) && fork_wf(f),
        UnitTag::TagFifo => u matches HandshakeUnit::FifoUnit(q) && q.queue@.len() == 0,
        UnitTag::TagMem => u matches HandshakeUnit::Mem(d) && dynmem_wf(d),
        UnitTag::TagLoad => u is LoadUnit,
        UnitTag::TagStore => u is StoreUnit,
        UnitTag::TagUnknown => false,
    }
}

/// Build the primitive a unit declaration names, as the reference catalog
/// fixes it: named units with their latencies (a sequential integer
/// multiplier of latency 4, float units of latencies 9 and 13, a float
/// compare of latency 2), parameterised forks, FIFOs and dynamic
/// memories, and combinational binary units for everything else known.
/// An unknown operator — or a parameterised form whose parameters do not
/// parse — yields `None`.
pub fn create_handshake(unit: &Unit) -> (r: Option<HandshakeUnit>)
    ensures
        r matches Some(u) ==> unit_matches_tag(u, spec_unit_tag(unit.op_type@)),
        spec_unit_tag(unit.op_type@) is TagUnknown ==> r is None,
        !(spec_unit_tag(unit.op_type@) is TagUnknown) && !(spec_unit_tag(unit.op_type@)
            is TagFork) && !(spec_unit_tag(unit.op_type@) is TagFifo) && !(spec_unit_tag(
            unit.op_type@,
        ) is TagMem) && !(spec_unit_tag(unit.op_type@) is TagLoad) && !(spec_unit_tag(
            unit.op_type@,
        ) is TagStore) ==> r is Some,
        r matches Some(HandshakeUnit::ForkUnit(f)) ==> (unit.op_type@ == "fork"@
            && f.data_out@.len() == 2) || (crate::ops::first_idx(unit.op_type@, ':') is None
            && f.data_out@.len() == 2) || (crate::ops::first_idx(unit.op_type@, ':') matches Some(
            c,
        ) && crate::ops::spec_parse_u64(unit.op_type@.skip(c + 1)) == Some(
            f.data_out@.len() as u64,
        )),
        r matches Some(HandshakeUnit::FifoUnit(q)) ==> (unit.op_type@ == "fifo"@ && q.depth == 2)
            || (crate::ops::first_idx(unit.op_type@, ':') is None && q.depth == 2) || (
        crate::ops::first_idx(unit.op_type@, ':') matches Some(c) && crate::ops::spec_parse_u64(
            unit.op_type@.skip(c + 1),
        ) == Some(q.depth as u64)),
        r matches Some(HandshakeUnit::Mem(d)) ==> ({
            let s = unit.op_type@;
            &&& crate::ops::first_idx(s, ':') matches Some(c) && (
            crate::ops::first_idx(s, ',') matches Some(cm) && (crate::ops::first_idx(s, '#')
                matches Some(h) && c < cm < h && crate::ops::spec_parse_u64(
                s.subrange(c + 1, cm),
            ) == Some(d.load_address@.len() as u64) && crate::ops::spec_parse_u64(
                s.subrange(cm + 1, h),
            ) == Some(d.store_address@.len() as u64) && crate::ops::spec_parse_u64(
                s.skip(h + 1),
            ) == Some(d.mem@.len() as u64)))
        }),
{
    let s = unit.op_type.as_str();
    if crate::ops::str_is(&unit.op_type, "branch") {
        Some(HandshakeUnit::Branch(Branch::set()))
    } else if crate::ops::str_is(&unit.op_type, "buffer") {
        Some(HandshakeUnit::Buffer(ElasticBuffer::set()))
    } else if crate::ops::str_is(&unit.op_type, "constant") {
        Some(HandshakeUnit::Constant(ConstantElastic::new()))
    } else if crate::ops::str_is(&unit.op_type, "mux_dynamic") {
        Some(HandshakeUnit::Mux(MuxDynamic::set()))
    } else if crate::ops::str_is(&unit.op_type, "control_merge") {
        Some(HandshakeUnit::CMerge(ControlMerge::set()))
    } else if crate::ops::str_is(&unit.op_type, "mul_integer") {
        Some(HandshakeUnit::BinarySeq(BinaryUnitSeq::set(BinOp::Mul, 4)))
    } else if crate::ops::str_is(&unit.op_type, "div_float") {
        Some(HandshakeUnit::BinarySeq(BinaryUnitSeq::set(BinOp::Div, 9)))
    } else if crate::ops::str_is(&unit.op_type, "mul_float") {
        Some(HandshakeUnit::BinarySeq(BinaryUnitSeq::set(BinOp::Mul, 9)))
    } else if crate::ops::str_is(&unit.op_type, "sub_float") {
        Some(HandshakeUnit::BinarySeq(BinaryUnitSeq::set(BinOp::Sub, 13)))
    } else if crate::ops::str_is(&unit.op_type, "add_float") {
        Some(HandshakeUnit::BinarySeq(BinaryUnitSeq::set(BinOp::Add, 13)))
    } else if crate::ops::str_is(&unit.op_type, "cmp_float_ugt") {
        Some(HandshakeUnit::BinarySeq(BinaryUnitSeq::set(BinOp::CmpGt, 2)))
    } else if crate::ops::str_is(&unit.op_type, "trunc_integer") {
        Some(HandshakeUnit::TruncUnit(Trunc::new()))
    } else if crate::ops::str_is(&unit.op_type, "select") {
        Some(HandshakeUnit::SelectUnit(Select::set()))
    } else if crate::ops::str_is(&unit.op_type, "add_integer") {
        Some(HandshakeUnit::Binary(BinaryUnit::set(BinOp::Add)))
    } else if crate::ops::str_is(&unit.op_type, "sub_integer") {
        Some(HandshakeUnit::Binary(BinaryUnit::set(BinOp::Sub)))
    } else if crate::ops::str_is(&unit.op_type, "shift_left") {
        Some(HandshakeUnit::Binary(BinaryUnit::set(BinOp::ShiftLeft)))
    } else if crate::ops::str_is(&unit.op_type, "cmp_integer_sle") {
        Some(HandshakeUnit::Binary(BinaryUnit::set(BinOp::CmpSle)))
    } else if crate::ops::str_is(&unit.op_type, "cmp_integer_ne") {
        Some(HandshakeUnit::Binary(BinaryUnit::set(BinOp::CmpNe)))
    } else if crate::ops::str_is(&unit.op_type, "and") {
        Some(HandshakeUnit::Binary(BinaryUnit::set(BinOp::And)))
    } else if crate::ops::str_is(&unit.op_type, "fork") {
        Some(HandshakeUnit::ForkUnit(Fork::set(2)))
    } else if crate::ops::str_is(&unit.op_type, "fifo") {
        Some(HandshakeUnit::FifoUnit(ElasticFIFO::set(2)))
    } else {
        let n = s.unicode_len();
        match find_char(s, ':') {
            None => {
                if n >= 4 && s.get_char(0) == 'f' && s.get_char(1) == 'o' && s.get_char(2) == 'r'
                    && s.get_char(3) == 'k' {
                    Some(HandshakeUnit::ForkUnit(Fork::set(2)))
                } else if n >= 4 && s.get_char(0) == 'f' && s.get_char(1) == 'i' && s.get_char(2)
                    == 'f' && s.get_char(3) == 'o' {
                    Some(HandshakeUnit::FifoUnit(ElasticFIFO::set(2)))
                } else if n >= 4 && s.get_char(0) == 'l' && s.get_char(1) == 'o' && s.get_char(2)
                    == 'a' && s.get_char(3) == 'd' {
                    Some(HandshakeUnit::LoadUnit(Load::new()))
                } else if n >= 5 && s.get_char(0) == 's' && s.get_char(1) == 't' && s.get_char(2)
                    == 'o' && s.get_char(3) == 'r' && s.get_char(4) == 'e' {
                    Some(HandshakeUnit::StoreUnit(Store::new()))
                } else {
                    None
                }
            },
            Some(colon) => {
                if n >= 4 && s.get_char(0) == 'f' && s.get_char(1) == 'o' && s.get_char(2) == 'r'
                    && s.get_char(3) == 'k' {
                    match parse_usize_range(s, colon + 1, n) {
                        Some(size) => Some(HandshakeUnit::ForkUnit(Fork::set(size))),
                        None => None,
                    }
                } else if n >= 4 && s.get_char(0) == 'f' && s.get_char(1) == 'i' && s.get_char(2)
                    == 'f' && s.get_char(3) == 'o' {
                    match parse_usize_range(s, colon + 1, n) {
                        Some(depth) => Some(HandshakeUnit::FifoUnit(ElasticFIFO::set(depth))),
                        None => None,
                    }
                } else if n >= 7 && s.get_char(0) == 'd' && s.get_char(1) == 'y' && s.get_char(2)
                    == 'n' && s.get_char(3) == '_' && s.get_char(4) == 'M' && s.get_char(5) == 'e'
                    && s.get_char(6) == 'm' {
                    let comma = find_char(s, ',');
                    let hash = find_char(s, '#');
                    match (comma, hash) {
                        (Some(cm), Some(h)) => {
                            if colon + 1 <= cm && cm + 1 <= h && h + 1 <= n {
                                let loads = parse_usize_range(s, colon + 1, cm);
                                let stores = parse_usize_range(s, cm + 1, h);
                                let size = parse_usize_range(s, h + 1, n);
                                match (loads, stores, size) {
                                    (Some(l), Some(st), Some(sz)) => {
                                        let t = if unit.types.len() > 1 {
                                            unit.types[1]
                                        } else {
                                            Ty::I32
                                        };
                                        Some(HandshakeUnit::Mem(DynMem::set(l, st, sz, t)))
                                    },
                                    _ => None,
                                }
                            } else {
                                None
                            }
                        },
                        _ => None,
                    }
                } else {
                    None
                }
            },
        }
    }
}

/// Whether some wire leads from a named top-level port into unit `i`.
pub open spec fn name_drives_unit(links: Seq<Link>, name: Seq<char>, i: int) -> bool {
    exists|j: int|
        0 <= j < links.len() && ((#[trigger] links[j].src) matches EndPoint::Top(n) && n@ == name)
            && (links[j].dst matches EndPoint::Port(u, _) && u == i)
}

/// One side of a wire: a port of a unit (by index) or a named top-level
/// port of the module.
#[derive(Clone, Debug)]
pub enum EndPoint {
    Port(usize, PortId),
    Top(String),
}

/// A directed wire of the network; the builder records both directions so
/// that any changed port forwards its value to every connected peer.
#[derive(Clone, Debug)]
pub struct Link {
    pub src: EndPoint,
    pub dst: EndPoint,
}

/// A named instance of a primitive.
#[derive(Clone, Debug)]
pub struct NamedUnit {
    pub name: String,
    pub unit: HandshakeUnit,
}

/// The elastic network: units, wires, the work-list of units whose inputs
/// may have changed, and the log of values that reached top-level ports.
#[derive(Debug)]
pub struct HandshakeEnv {
    pub units: Vec<NamedUnit>,
    pub links: Vec<Link>,
    pub queue: VecDeque<usize>,
    pub visit: Vec<bool>,
    pub outputs: Vec<(String, VALUE)>,
}

impl HandshakeEnv {
    pub open spec fn wf(&self) -> bool {
        &&& self.visit@.len() == self.units@.len()
        &&& forall|i: int|
            0 <= i < self.queue@.len() ==> (#[trigger] self.queue@[i]) < self.units@.len()
    }

    /// A network over the given units and wires, every unit queued for the
    /// first propagation.
    pub fn create_env(units: Vec<NamedUnit>, links: Vec<Link>) -> (r: HandshakeEnv)
        ensures
            r.wf(),
            r.units == units,
            r.links == links,
            r.outputs@.len() == 0,
            r.queue@.len() == units@.len(),
            forall|i: int| 0 <= i < units@.len() ==> (#[trigger] r.queue@[i]) == i,
            forall|i: int| 0 <= i < units@.len() ==> (#[trigger] r.visit@[i]) == true,
    {
        let n = units.len();
        let mut queue: VecDeque<usize> = VecDeque::new();
        let mut visit: Vec<bool> = Vec::new();
        let mut i: usize = 0;
        while i < n
            invariant
                i <= n,
                visit@.len() == i,
                queue@.len() == i,
                forall|k: int| 0 <= k < i ==> (#[trigger] queue@[k]) == k,
                forall|k: int| 0 <= k < i ==> (#[trigger] visit@[k]) == true,
            decreases n - i,
        {
            queue.push_back(i);
            visit.push(true);
            i = i + 1;
        }
        HandshakeEnv { units, links, queue, visit, outputs: Vec::new() }
    }

    fn enqueue(&mut self, idx: usize)
        requires
            old(self).wf(),
            idx < old(self).units@.len(),
        ensures
            final(self).wf(),
            final(self).units == old(self).units,
            final(self).links == old(self).links,
            final(self).outputs == old(self).outputs,
            final(self).visit@.len() == old(self).visit@.len(),
            final(self).visit@[idx as int] == true,
            forall|j: int|
                0 <= j < old(self).visit@.len() && j != idx ==> final(self).visit@[j] == old(
                    self,
                ).visit@[j],
    {
        if !self.visit[idx] {
            self.queue.push_back(idx);
            self.visit.set(idx, true);
        }
    }

    /// Write a value to a unit port or log it at a top-level name, and
    /// queue the touched unit.
    fn deliver(&mut self, target_unit: usize, port: PortId, val: HandshakeValue)
        requires
            old(self).wf(),
        ensures
            final(self).wf(),
            final(self).units@.len() == old(self).units@.len(),
            final(self).links == old(self).links,
            forall|i: int|
                0 <= i < old(self).units@.len() ==> (#[trigger] final(self).units@[i]).name == old(
                    self,
                ).units@[i].name,
    {
        if target_unit < self.units.len() {
            let ghost pre = self.units@;
            let mut nu = self.units.remove(target_unit);
            nu.unit.set_value(port, val);
            self.units.insert(target_unit, nu);
            proof {
                assert(self.units@ =~= pre.update(
                    target_unit as int,
                    self.units@[target_unit as int],
                ));
                assert(self.units@.len() == old(self).units@.len());
            }
            self.enqueue(target_unit);
        }
    }

    /// Forward a changed port's value along every wire that leaves it.
    fn forward(&mut self, from_unit: usize, port: PortId, val: HandshakeValue)
        requires
            old(self).wf(),
        ensures
            final(self).wf(),
            final(self).units@.len() == old(self).units@.len(),
            final(self).links == old(self).links,
            forall|i: int|
                0 <= i < old(self).units@.len() ==> (#[trigger] final(self).units@[i]).name == old(
                    self,
                ).units@[i].name,
    {
        let m = self.links.len();
        let mut j: usize = 0;
        while j < m
            invariant
                self.wf(),
                j <= m,
                self.units@.len() == old(self).units@.len(),
                self.links == old(self).links,
                m == self.links@.len(),
                forall|i: int|
                    0 <= i < old(self).units@.len() ==> (#[trigger] self.units@[i]).name == old(
                        self,
                    ).units@[i].name,
            decreases m - j,
        {
            let matched: Option<EndPoint> = {
                let link = &self.links[j];
                match &link.src {
                    EndPoint::Port(u, p) => {
                        if *u == from_unit && *p == port {
                            Some(link.dst.clone())
                        } else {
                            None
                        }
                    },
                    EndPoint::Top(_) => None,
                }
            };
            match matched {
                Some(EndPoint::Port(tu, tp)) => {
                    let ghost links_before = self.links@;
                    self.deliver(tu, tp, val);
                    proof {
                        assert(self.links@ == links_before);
                    }
                },
                Some(EndPoint::Top(name)) => {
                    if val.valid {
                        self.outputs.push((name, val.data));
                    }
                },
                None => (),
            }
            j = j + 1;
        }
    }

    /// Run the work-list to a fixed point, within a step budget.  Returns
    /// whether the list drained: every unit then propagated after its last
    /// input change, so a further propagation reports no new change.  The
    /// wires and unit names are untouched; only port values move.
    pub fn propagate(&mut self) -> (settled: bool)
        requires
            old(self).wf(),
        ensures
            final(self).wf(),
            final(self).units@.len() == old(self).units@.len(),
            final(self).links == old(self).links,
            forall|i: int|
                0 <= i < old(self).units@.len() ==> (#[trigger] final(self).units@[i]).name == old(
                    self,
                ).units@[i].name,
            settled ==> final(self).queue@.len() == 0,
    {
        let mut fuel: usize = 100000;
        while fuel > 0 && self.queue.len() > 0
            invariant
                self.wf(),
                self.units@.len() == old(self).units@.len(),
                self.links == old(self).links,
                forall|i: int|
                    0 <= i < old(self).units@.len() ==> (#[trigger] self.units@[i]).name == old(
                        self,
                    ).units@[i].name,
            decreases fuel,
        {
            let idx = match self.queue.pop_front() {
                Some(i) => i,
                None => {
                    return true;
                },
            };
            if idx < self.visit.len() {
                self.visit.set(idx, false);
            }
            if idx < self.units.len() {
                let ghost pre = self.units@;
                let mut nu = self.units.remove(idx);
                let ghost removed_name = nu.name@;
                let changed = nu.unit.propagate();
                let mut vals: Vec<(PortId, HandshakeValue)> = Vec::new();
                let mut k: usize = 0;
                while k < changed.len()
                    invariant
                        k <= changed@.len(),
                        nu.name@ == removed_name,
                    decreases changed@.len() - k,
                {
                    let p = changed[k];
                    let v = nu.unit.get_value(p);
                    vals.push((p, v));
                    k = k + 1;
                }
                self.units.insert(idx, nu);
                proof {
                    assert(self.units@ =~= pre.update(idx as int, self.units@[idx as int]));
                    assert(self.units@.len() == old(self).units@.len());
                }
                let mut k: usize = 0;
                while k < vals.len()
                    invariant
                        self.wf(),
                        k <= vals@.len(),
                        self.units@.len() == old(self).units@.len(),
                        self.links == old(self).links,
                        forall|i: int|
                            0 <= i < old(self).units@.len() ==> (#[trigger] self.units@[i]).name
                                == old(self).units@[i].name,
                    decreases vals@.len() - k,
                {
                    let (p, v) = vals[k];
                    self.forward(idx, p, v);
                    k = k + 1;
                }
            }
            fuel = fuel - 1;
        }
        self.queue.len() == 0
    }

    /// Commit every unit's registers at end of cycle, exactly once per
    /// unit; every unit whose commit changed a register is marked pending
    /// so the next cycle's propagation re-evaluates it.
    pub fn update(&mut self)
        requires
            old(self).wf(),
        ensures
            final(self).wf(),
            final(self).units@.len() == old(self).units@.len(),
            final(self).links == old(self).links,
            final(self).outputs == old(self).outputs,
            forall|i: int|
                0 <= i < old(self).units@.len() ==> (#[trigger] final(self).units@[i]).name == old(
                    self,
                ).units@[i].name,
            forall|i: int|
                0 <= i < old(self).units@.len() ==> crate::elastic::unit_update_rel(
                    old(self).units@[i].unit,
                    (#[trigger] final(self).units@[i]).unit,
                ),
            forall|i: int|
                0 <= i < old(self).units@.len() ==> (crate::elastic::unit_update_changed(
                    (#[trigger] old(self).units@[i]).unit,
                ) ==> final(self).visit@[i] == true),
            forall|i: int|
                0 <= i < old(self).units@.len() && !crate::elastic::unit_update_changed(
                    (#[trigger] old(self).units@[i]).unit,
                ) ==> final(self).visit@[i] == old(self).visit@[i],
    {
        let n = self.units.len();
        let mut i: usize = 0;
        while i < n
            invariant
                self.wf(),
                i <= n,
                self.units@.len() == old(self).units@.len(),
                n == self.units@.len(),
                self.links == old(self).links,
                self.outputs == old(self).outputs,
                forall|k: int| i <= k < n ==> self.units@[k] == old(self).units@[k],
                forall|k: int|
                    0 <= k < n ==> (#[trigger] self.units@[k]).name == old(self).units@[k].name,
                forall|k: int|
                    0 <= k < i ==> crate::elastic::unit_update_rel(
                        old(self).units@[k].unit,
                        (#[trigger] self.units@[k]).unit,
                    ),
                forall|k: int|
                    0 <= k < i ==> (crate::elastic::unit_update_changed(
                        (#[trigger] old(self).units@[k]).unit,
                    ) ==> self.visit@[k] == true),
                forall|k: int|
                    0 <= k < n && !(k < i && crate::elastic::unit_update_changed(
                        old(self).units@[k].unit,
                    )) ==> (#[trigger] self.visit@[k]) == old(self).visit@[k],
            decreases n - i,
        {
            let ghost pre = self.units@;
            let mut nu = self.units.remove(i);
            let changed = nu.unit.commit();
            self.units.insert(i, nu);
            proof {
                assert(self.units@ =~= pre.update(i as int, self.units@[i as int]));
                assert(self.units@.len() == old(self).units@.len());
            }
            if changed {
                self.enqueue(i);
            }
            i = i + 1;
        }
    }

    /// Whether any unit still holds a valid token anywhere; the quiescence
    /// test of a run.
    pub fn any_valid(&self) -> (r: bool)
        ensures
            r == exists|i: int|
                0 <= i < self.units@.len() && crate::elastic::unit_valid(
                    (#[trigger] self.units@[i]).unit,
                ),
    {
        let n = self.units.len();
        let mut i: usize = 0;
        while i < n
            invariant
                i <= n,
                n == self.units@.len(),
                forall|k: int|
                    0 <= k < i ==> !crate::elastic::unit_valid((#[trigger] self.units@[k]).unit),
            decreases n - i,
        {
            if self.units[i].unit.check_valid() {
                return true;
            }
            i = i + 1;
        }
        false
    }

    fn find_unit(&self, name: &String) -> (r: Option<usize>)
        ensures
            r matches Some(i) ==> i < self.units@.len(),
    {
        let n = self.units.len();
        let mut i: usize = 0;
        while i < n
            invariant
                i <= n,
                n == self.units@.len(),
            decreases n - i,
        {
            if self.units[i].name == *name {
                return Some(i);
            }
            i = i + 1;
        }
        None
    }

    /// Drive the ready wire of every port a top-level name is wired to;
    /// units the name's wires do not reach are untouched.
    pub fn set_ready(&mut self, port: &String, ready: bool)
        requires
            old(self).wf(),
        ensures
            final(self).wf(),
            final(self).units@.len() == old(self).units@.len(),
            final(self).links == old(self).links,
            final(self).outputs == old(self).outputs,
            forall|i: int|
                0 <= i < old(self).units@.len() && !name_drives_unit(
                    old(self).links@,
                    port@,
                    i,
                ) ==> final(self).units@[i] == old(self).units@[i],
    {
        let m = self.links.len();
        let ghost links0 = self.links@;
        let mut targets: Vec<(usize, PortId)> = Vec::new();
        let mut j: usize = 0;
        while j < m
            invariant
                j <= m,
                m == self.links@.len(),
                self.links == old(self).links,
                self.units == old(self).units,
                self.outputs == old(self).outputs,
                self.links@ == links0,
                forall|k: int|
                    0 <= k < targets@.len() ==> name_drives_unit(
                        links0,
                        port@,
                        (#[trigger] targets@[k]).0 as int,
                    ),
            decreases m - j,
        {
            let link = &self.links[j];
            let matched: Option<(usize, PortId)> = match (&link.src, &link.dst) {
                (EndPoint::Top(name), EndPoint::Port(u, p)) => {
                    if *name == *port {
                        Some((*u, *p))
                    } else {
                        None
                    }
                },
                _ => None,
            };
            match matched {
                Some(tgt) => {
                    proof {
                        assert(name_drives_unit(links0, port@, tgt.0 as int)) by {
                            assert((links0[j as int].src matches EndPoint::Top(n) && n@ == port@)
                                && (links0[j as int].dst matches EndPoint::Port(u, _) && u
                                == tgt.0));
                        };
                    }
                    targets.push(tgt);
                },
                None => (),
            }
            j = j + 1;
        }
        let mut k: usize = 0;
        while k < targets.len()
            invariant
                self.wf(),
                k <= targets@.len(),
                self.units@.len() == old(self).units@.len(),
                self.links == old(self).links,
                self.links@ == links0,
                self.outputs == old(self).outputs,
                forall|t: int|
                    0 <= t < targets@.len() ==> name_drives_unit(
                        links0,
                        port@,
                        (#[trigger] targets@[t]).0 as int,
                    ),
                forall|i: int|
                    0 <= i < old(self).units@.len() && !name_drives_unit(links0, port@, i)
                        ==> self.units@[i] == old(self).units@[i],
            decreases targets@.len() - k,
        {
            let ghost pre_units = self.units@;
            let (u, p) = targets[k];
            if u < self.units.len() {
                let mut nu = self.units.remove(u);
                let mut hv = nu.unit.get_value(p);
                let ch = hv.set_ready(ready);
                if ch {
                    nu.unit.set_value(p, hv);
                }
                self.units.insert(u, nu);
                proof {
                    assert(self.units@ =~= pre_units.update(u as int, self.units@[u as int]));
                }
                if ch {
                    self.enqueue(u);
                }
            }
            k = k + 1;
        }
    }

    /// Drive the valid wire and payload of every port a top-level name is
    /// wired to; units the name's wires do not reach are untouched.
    pub fn set_valid(&mut self, port: &String, data: VALUE, valid: bool)
        requires
            old(self).wf(),
        ensures
            final(self).wf(),
            final(self).units@.len() == old(self).units@.len(),
            final(self).links == old(self).links,
            final(self).outputs == old(self).outputs,
            forall|i: int|
                0 <= i < old(self).units@.len() && !name_drives_unit(
                    old(self).links@,
                    port@,
                    i,
                ) ==> final(self).units@[i] == old(self).units@[i],
    {
        let m = self.links.len();
        let ghost links0 = self.links@;
        let mut targets: Vec<(usize, PortId)> = Vec::new();
        let mut j: usize = 0;
        while j < m
            invariant
                j <= m,
                m == self.links@.len(),
                self.links == old(self).links,
                self.units == old(self).units,
                self.outputs == old(self).outputs,
                self.links@ == links0,
                forall|k: int|
                    0 <= k < targets@.len() ==> name_drives_unit(
                        links0,
                        port@,
                        (#[trigger] targets@[k]).0 as int,
                    ),
            decreases m - j,
        {
            let link = &self.links[j];
            let matched: Option<(usize, PortId)> = match (&link.src, &link.dst) {
                (EndPoint::Top(name), EndPoint::Port(u, p)) => {
                    if *name == *port {
                        Some((*u, *p))
                    } else {
                        None
                    }
                },
                _ => None,
            };
            match matched {
                Some(tgt) => {
                    proof {
                        assert(name_drives_unit(links0, port@, tgt.0 as int)) by {
                            assert((links0[j as int].src matches EndPoint::Top(n) && n@ == port@)
                                && (links0[j as int].dst matches EndPoint::Port(u, _) && u
                                == tgt.0));
                        };
                    }
                    targets.push(tgt);
                },
                None => (),
            }
            j = j + 1;
        }
        let mut k: usize = 0;
        while k < targets.len()
            invariant
                self.wf(),
                k <= targets@.len(),
                self.units@.len() == old(self).units@.len(),
                self.links == old(self).links,
                self.links@ == links0,
                self.outputs == old(self).outputs,
                forall|t: int|
                    0 <= t < targets@.len() ==> name_drives_unit(
                        links0,
                        port@,
                        (#[trigger] targets@[t]).0 as int,
                    ),
                forall|i: int|
                    0 <= i < old(self).units@.len() && !name_drives_unit(links0, port@, i)
                        ==> self.units@[i] == old(self).units@[i],
            decreases targets@.len() - k,
        {
            let ghost pre_units = self.units@;
            let (u, p) = targets[k];
            if u < self.units.len() {
                let mut nu = self.units.remove(u);
                let mut hv = nu.unit.get_value(p);
                let ch = hv.set_valid(valid, data);
                if ch {
                    nu.unit.set_value(p, hv);
                }
                self.units.insert(u, nu);
                proof {
                    assert(self.units@ =~= pre_units.update(u as int, self.units@[u as int]));
                }
                if ch {
                    self.enqueue(u);
                }
            }
            k = k + 1;
        }
    }

    /// Advance `depth` cycles: propagate to a fixed point, commit, and
    /// stop early when no unit holds a valid token.  Returns the number of
    /// cycles run; a cycle whose propagation exhausted its work budget
    /// before settling also stops the run, so an unsettled propagation is
    /// never mistaken for a finished cycle.
    pub fn step(&mut self, depth: usize) -> (cycles: usize)
        requires
            old(self).wf(),
        ensures
            final(self).wf(),
            cycles <= depth,
            final(self).units@.len() == old(self).units@.len(),
            final(self).links == old(self).links,
            forall|i: int|
                0 <= i < old(self).units@.len() ==> (#[trigger] final(self).units@[i]).name == old(
                    self,
                ).units@[i].name,
    {
        let mut cycle: usize = 0;
        while cycle < depth
            invariant
                self.wf(),
                cycle <= depth,
                self.units@.len() == old(self).units@.len(),
                self.links == old(self).links,
                forall|i: int|
                    0 <= i < old(self).units@.len() ==> (#[trigger] self.units@[i]).name == old(
                        self,
                    ).units@[i].name,
            decreases depth - cycle,
        {
            let settled = self.propagate();
            self.update();
            cycle = cycle + 1;
            if !settled {
                return cycle;
            }
            if cycle < depth {
                if !self.any_valid() {
                    return cycle;
                }
            }
        }
        cycle
    }
}

/// Run the current network until it quiesces (bounded by a large cycle
/// budget), as the continue command does.
pub fn execute_continue(env: &mut HandshakeEnv)
    requires
        old(env).wf(),
    ensures
        final(env).wf(),
        final(env).units@.len() == old(env).units@.len(),
        final(env).links == old(env).links,
        forall|i: int|
            0 <= i < old(env).units@.len() ==> (#[trigger] final(env).units@[i]).name == old(
                env,
            ).units@[i].name,
{
    env.step(1000000);
}

/// Report stalled instances; stall display is retired, so there is
/// nothing to report.
pub fn show_stall() {
}

} // verus!
