use hector::value::{self, Ty, VALUE, CmpKind};
use hector::ops::{self, Computation, Constant, OpKind, IsEnv, Env};
use hector::storage::{Memory, Stream, ValueTiming};
use hector::elastic::{Fork, HandshakeValue, ElasticFIFO, DynMem, TEHB, HandshakeUnit};
use hector::env::{Unit, create_handshake};
use hector::equal::{Compare, cosim_decide};

#[test]
fn add_wraps_at_the_result_type() {
    let vals = vec![VALUE::U32(4294967295), VALUE::U32(1)];
    assert_eq!(value::add(Ty::U32, &vals), VALUE::U32(0));
    let vals = vec![VALUE::I32(5), VALUE::I32(7)];
    assert_eq!(value::add(Ty::I32, &vals), VALUE::I32(12));
}

#[test]
fn float_arithmetic_is_outside_the_kernel() {
    let vals = vec![VALUE::F32(0x3f800000), VALUE::F32(0x3f800000)];
    assert_eq!(value::add(Ty::F32, &vals), VALUE::ERROR);
}

#[test]
fn division_by_zero_reads_as_error() {
    let vals = vec![VALUE::I32(9), VALUE::I32(0)];
    assert_eq!(value::div(Ty::I32, &vals), VALUE::ERROR);
    let vals = vec![VALUE::I32(9), VALUE::I32(2)];
    assert_eq!(value::divsi(Ty::I32, &vals), VALUE::I32(4));
}

#[test]
fn comparisons_merge_types() {
    let vals = vec![VALUE::U32(3), VALUE::U64(4)];
    assert_eq!(value::compare(CmpKind::Lt, &vals), VALUE::Bool(true));
    let mixed = vec![VALUE::U32(3), VALUE::I32(4)];
    assert_eq!(value::compare(CmpKind::Lt, &mixed), VALUE::ERROR);
    let signed = vec![VALUE::I32(-5), VALUE::I64(1)];
    assert_eq!(value::cmp_lte(&signed), VALUE::Bool(true));
}

#[test]
fn convert_round_trip_through_widening() {
    let v = VALUE::U32(7);
    let via = value::convert(value::convert(v, Ty::U64), Ty::U64);
    assert_eq!(via, value::convert(v, Ty::U64));
    assert_eq!(value::convert(v, Ty::U64), VALUE::U64(7));
    let f = VALUE::F32(0x40490fdb);
    assert_eq!(value::convert(f, Ty::F32), f);
}

#[test]
fn build_value_decodes_literals() {
    assert_eq!(ops::build_value(Ty::I32, "-12"), VALUE::I32(-12));
    assert_eq!(ops::build_value(Ty::U64, "123456789"), VALUE::U64(123456789));
    assert_eq!(ops::build_value(Ty::Bool, "1"), VALUE::Bool(true));
    assert_eq!(ops::build_value(Ty::Bool, "false"), VALUE::Bool(false));
    assert_eq!(ops::build_value(Ty::U32, "notanumber"), VALUE::ERROR);
    assert_eq!(ops::build_value(Ty::U32, "-3"), VALUE::ERROR);
}

#[test]
fn constant_decodes_once() {
    let c = Constant::new("c0".to_string(), "42".to_string(), Ty::I32);
    assert_eq!(c.decode(), VALUE::I32(42));
}

#[test]
fn erf_is_the_zero_float_stub() {
    assert_eq!(value::erf(&vec![VALUE::F32(0x3f800000)]), VALUE::F32(0));
    assert_eq!(value::erf(&vec![VALUE::I32(3)]), VALUE::ERROR);
}

#[test]
fn operation_env_writes_the_named_result() {
    let mut env = Env::new();
    env.set_value(&"a".to_string(), VALUE::I32(6));
    env.set_value(&"b".to_string(), VALUE::I32(7));
    let mul = Computation::new(
        "p".to_string(),
        OpKind::Mul,
        Ty::I32,
        vec!["a".to_string(), "b".to_string()],
    );
    ops::operation_env(&mul, &mut env);
    assert_eq!(env.get_value(&"p".to_string()), VALUE::I32(42));
    let c = Computation::new("k".to_string(), OpKind::Constant, Ty::U32, vec!["9".to_string()]);
    ops::operation_env(&c, &mut env);
    assert_eq!(env.get_value(&"k".to_string()), VALUE::U32(9));
}

#[test]
fn memory_loads_and_stores() {
    let mut m = Memory::zeroed(Ty::I32, 4);
    for i in 0..4usize {
        m.update(i, VALUE::I32((i * i) as i32));
    }
    assert_eq!(m.get_value(2), VALUE::I32(4));
    assert_eq!(m.get_value(9), VALUE::ERROR);
}

#[test]
fn stream_is_a_bounded_fifo() {
    let mut s = Stream::new(2);
    assert!(s.is_empty());
    s.push(VALUE::U32(1));
    s.push(VALUE::U32(2));
    assert!(s.is_full());
    assert_eq!(s.pop(), VALUE::U32(1));
    assert_eq!(s.pop(), VALUE::U32(2));
    assert_eq!(s.pop(), VALUE::ERROR);
}

#[test]
fn value_timing_models_latency() {
    let mut t = ValueTiming::new(2, Ty::I32);
    t.set_value(VALUE::I32(5));
    assert_eq!(t.get_value(), VALUE::ERROR);
    t.update();
    t.update();
    assert_eq!(t.get_value(), VALUE::I32(5));
    assert!(t.has_value());
    t.clear();
    assert!(!t.has_value());
}

#[test]
fn fork_feeds_two_ready_sinks_in_one_pass() {
    let mut f = Fork::set(2);
    // the producer drives a valid token; both sinks are ready
    f.data_in = HandshakeValue { valid: true, ready: false, data: VALUE::U32(7) };
    let mut out0 = f.data_out[0];
    out0.ready = true;
    f.data_out[0] = out0;
    let mut out1 = f.data_out[1];
    out1.ready = true;
    f.data_out[1] = out1;
    f.propagate();
    assert!(f.data_out[0].valid && f.data_out[1].valid);
    assert_eq!(f.data_out[0].data, VALUE::U32(7));
    assert!(f.data_in.ready);
    f.update();
    // both sub-registers rearm once every consumer accepted
    f.propagate();
    assert!(f.data_in.ready);
}

#[test]
fn elastic_fifo_enqueues_on_both_valid_and_ready() {
    let mut q = ElasticFIFO::set(2);
    q.data_in = HandshakeValue { valid: true, ready: false, data: VALUE::U32(3) };
    q.propagate();
    assert!(q.data_in.ready);
    assert!(!q.data_out.valid);
    q.update();
    q.propagate();
    assert!(q.data_out.valid);
    assert_eq!(q.data_out.data, VALUE::U32(3));
}

#[test]
fn dynmem_store_port_writes_on_update() {
    let mut d = DynMem::set(0, 1, 4, Ty::I32);
    d.store_address[0] = HandshakeValue { valid: true, ready: false, data: VALUE::U32(2) };
    d.store_data[0] = HandshakeValue { valid: true, ready: false, data: VALUE::I32(99) };
    d.propagate();
    assert!(d.w_en);
    assert!(d.store_address[0].ready && d.store_data[0].ready);
    d.update();
    assert_eq!(d.mem[2], VALUE::I32(99));
}

#[test]
fn dynmem_load_arbitrates_lowest_index_first() {
    let mut d = DynMem::set(2, 0, 4, Ty::I32);
    let words = vec!["10".to_string(), "20".to_string(), "30".to_string(), "40".to_string()];
    d.set_mem(&words);
    d.load_address[0] = HandshakeValue { valid: true, ready: false, data: VALUE::U32(3) };
    d.load_address[1] = HandshakeValue { valid: true, ready: false, data: VALUE::U32(1) };
    let mut ld0 = d.load_data[0];
    ld0.ready = true;
    d.load_data[0] = ld0;
    let mut ld1 = d.load_data[1];
    ld1.ready = true;
    d.load_data[1] = ld1;
    // first cycle: port 0 (address 3) wins arbitration
    d.propagate();
    assert!(d.load_address[0].ready);
    assert!(!d.load_address[1].ready);
    d.update();
    // second cycle: the word for port 0 arrives; port 1 arbitrates
    d.load_address[0] = HandshakeValue { valid: false, ready: true, data: VALUE::ERROR };
    d.propagate();
    assert!(d.load_data[0].valid);
    assert_eq!(d.load_data[0].data, VALUE::I32(40));
    d.update();
    // third cycle: the word for port 1 arrives
    d.load_address[1] = HandshakeValue { valid: false, ready: true, data: VALUE::ERROR };
    d.propagate();
    assert!(d.load_data[1].valid);
    assert_eq!(d.load_data[1].data, VALUE::I32(20));
}

#[test]
fn tehb_settles_after_one_propagation() {
    let mut t = TEHB::new();
    t.init();
    t.data_in = HandshakeValue { valid: true, ready: t.data_in.ready, data: VALUE::U32(5) };
    t.propagate();
    let snapshot = t;
    let mut again = t;
    let (in_changed, out_changed) = again.propagate();
    assert!(!in_changed && !out_changed);
    assert_eq!(again.data_out, snapshot.data_out);
}

#[test]
fn create_handshake_builds_the_catalog() {
    let fork = Unit::new("fork:3".to_string(), "f".to_string(), vec![]);
    match create_handshake(&fork) {
        Some(HandshakeUnit::ForkUnit(f)) => assert_eq!(f.data_out.len(), 3),
        _ => panic!("expected a fork"),
    }
    let mem = Unit::new("dyn_Mem:2,0#4".to_string(), "m".to_string(), vec![Ty::I32, Ty::I32]);
    match create_handshake(&mem) {
        Some(HandshakeUnit::Mem(d)) => {
            assert_eq!(d.load_address.len(), 2);
            assert_eq!(d.mem.len(), 4);
        },
        _ => panic!("expected a memory"),
    }
    let unknown = Unit::new("nonsense".to_string(), "x".to_string(), vec![]);
    assert!(create_handshake(&unknown).is_none());
}

#[test]
fn convert_encodes_integers_as_floats() {
    // 7 as f64: exponent 1025, fraction 3 << 50
    assert_eq!(value::convert(VALUE::U64(7), Ty::F64), VALUE::F64(0x401C000000000000));
    assert_eq!(value::convert(VALUE::I32(-1), Ty::F64), VALUE::F64(0xBFF0000000000000));
    assert_eq!(value::convert(VALUE::U32(7), Ty::F32), VALUE::F32(0x40E00000));
    assert_eq!(value::convert(VALUE::I64(i64::MIN), Ty::F64), VALUE::F64(0xC3E0000000000000));
    // u64::MAX rounds up to 2^64 at f32
    assert_eq!(value::convert(VALUE::U64(u64::MAX), Ty::F32), VALUE::F32(0x5F800000));
    // and to 2^64 at f64 as well (ties-to-even on the truncated bits)
    assert_eq!(value::convert(VALUE::U64(u64::MAX), Ty::F64), VALUE::F64(0x43F0000000000000));
    // a non-numeric source reads as zero
    assert_eq!(value::convert(VALUE::Control, Ty::F64), VALUE::F64(0));
    assert_eq!(value::convert(VALUE::ERROR, Ty::F32), VALUE::F32(0));
    // exactly representable large values stay exact
    assert_eq!(
        value::convert(VALUE::U64(1u64 << 60), Ty::F64),
        VALUE::F64(((1023u64 + 60) << 52)),
    );
}

#[test]
fn fork_update_reports_no_commit_in_a_settled_cycle() {
    let mut f = Fork::set(2);
    f.data_in = HandshakeValue { valid: true, ready: false, data: VALUE::U32(7) };
    let mut out0 = f.data_out[0];
    out0.ready = true;
    f.data_out[0] = out0;
    let mut out1 = f.data_out[1];
    out1.ready = true;
    f.data_out[1] = out1;
    f.propagate();
    // every consumer accepted: the registers rearm to true, their stored
    // values do not change, so the commit reports false
    assert!(!f.update());
}

#[test]
fn compare_matches_in_fifo_order() {
    let mut c = Compare::new("mul_0".to_string(), "s4".to_string(), "mul".to_string());
    assert!(c.push_high(VALUE::I32(6)).is_none());
    assert!(c.push_high(VALUE::I32(7)).is_none());
    assert_eq!(c.size(), 2);
    assert!(c.push_low(VALUE::I32(6)).is_none());
    assert!(c.push_low(VALUE::I32(7)).is_none());
    assert!(c.is_drained());
    // the low side runs ahead, then a high value mismatches
    assert!(c.push_low(VALUE::I32(9)).is_none());
    assert_eq!(c.size(), -1);
    let m = c.push_high(VALUE::I32(8)).expect("mismatch");
    assert_eq!(m.expected, VALUE::I32(9));
    assert_eq!(m.got, VALUE::I32(8));
    assert_eq!(m.op, "mul_0");
}

#[test]
fn create_handshake_fixes_operator_and_latency() {
    let m = Unit::new("mul_integer".to_string(), "m".to_string(), vec![]);
    match create_handshake(&m) {
        Some(HandshakeUnit::BinarySeq(b)) => assert_eq!(b.delay.len(), 3),
        _ => panic!("expected a sequential unit"),
    }
    let d = Unit::new("div_float".to_string(), "d".to_string(), vec![]);
    assert!(matches!(create_handshake(&d), Some(HandshakeUnit::BinarySeq(_))));
    let plain_fork = Unit::new("fork_x".to_string(), "f".to_string(), vec![]);
    match create_handshake(&plain_fork) {
        Some(HandshakeUnit::ForkUnit(f)) => assert_eq!(f.data_out.len(), 2),
        _ => panic!("expected the default fork"),
    }
}

#[test]
fn sitofp_converts_integers() {
    let mut env = Env::new();
    env.set_value(&"n".to_string(), VALUE::I32(7));
    let cast = Computation::new(
        "x".to_string(),
        OpKind::SiToFp,
        Ty::F64,
        vec!["n".to_string()],
    );
    ops::operation_env(&cast, &mut env);
    assert_eq!(env.get_value(&"x".to_string()), VALUE::F64(0x401C000000000000));
    let neg = Computation::new(
        "y".to_string(),
        OpKind::SiToFp,
        Ty::F32,
        vec!["m".to_string()],
    );
    env.set_value(&"m".to_string(), VALUE::I32(-1));
    ops::operation_env(&neg, &mut env);
    assert_eq!(env.get_value(&"y".to_string()), VALUE::F32(0xBF800000));
}

#[test]
fn float_literals_decode_to_bit_patterns() {
    // 1.5 = 0x3FF8000000000000; 0.25; a plain integer literal; signed zero
    assert_eq!(ops::build_value(Ty::F64, "1.5"), VALUE::F64(0x3FF8000000000000));
    assert_eq!(ops::build_value(Ty::F64, "0.25"), VALUE::F64(0x3FD0000000000000));
    assert_eq!(ops::build_value(Ty::F64, "3"), VALUE::F64(0x4008000000000000));
    assert_eq!(ops::build_value(Ty::F32, "1.5"), VALUE::F32(0x3FC00000));
    assert_eq!(ops::build_value(Ty::F64, "-0.5"), VALUE::F64(0xBFE0000000000000));
    assert_eq!(ops::build_value(Ty::F64, "0.0"), VALUE::F64(0));
    assert_eq!(ops::build_value(Ty::F64, "2.000000"), VALUE::F64(0x4000000000000000));
    // an inexact fraction is left to the loader's host decode
    assert_eq!(ops::build_value(Ty::F64, "0.3"), VALUE::ERROR);
}

#[test]
fn cosim_decide_balances_the_backlog() {
    let done = cosim_decide(true, true, 0);
    assert!(done.finished && !done.run_high && !done.run_low);
    let balanced = cosim_decide(false, false, 0);
    assert!(balanced.run_high && balanced.run_low);
    let high_ahead = cosim_decide(false, false, 10);
    assert!(high_ahead.run_high && !high_ahead.run_low);
    let low_ahead = cosim_decide(false, false, -10);
    assert!(!low_ahead.run_high && low_ahead.run_low);
    let high_finished = cosim_decide(true, false, 0);
    assert!(!high_finished.finished && !high_finished.run_high && high_finished.run_low);
}

#[test]
fn fork_repropagation_reports_no_new_change() {
    let mut f = Fork::set(2);
    f.data_in = HandshakeValue { valid: true, ready: false, data: VALUE::U32(7) };
    let mut out0 = f.data_out[0];
    out0.ready = true;
    f.data_out[0] = out0;
    f.propagate();
    // the state has settled: a second pass drives every port with the
    // value it already holds and reports nothing
    let changed = f.propagate();
    assert!(changed.is_empty());
}

#[test]
fn dynmem_mixed_port_configuration_is_inert() {
    let mut d = DynMem::set(1, 1, 4, Ty::I32);
    d.load_address[0] = HandshakeValue { valid: true, ready: false, data: VALUE::U32(1) };
    let changed = d.propagate();
    assert!(changed.is_empty());
    assert!(!d.w_en);
}
