//! Tagged simulation values and the arithmetic kernel.
//!
//! Every operand and result that flows through the simulator is a `VALUE`:
//! a tagged variant over booleans, 32/64-bit integers of either signedness,
//! floating-point payloads, the control token, and the `ERROR` sentinel that
//! stands for "no value".  Floating-point payloads are carried as their IEEE
//! bit patterns and are opaque to the kernel: operations whose result would
//! require host floating-point arithmetic yield `VALUE::ERROR` here.
//!
//! Where the reference behaviour of an operator is undefined on an operand
//! class (a float where an integer is read, a shift count out of range, a
//! zero divisor), the kernel is total: it reads `0`/`false` or yields
//! `VALUE::ERROR` rather than aborting.

use vstd::prelude::*;

verus! {

use vstd::wrapping::{u32_specs, u64_specs, i32_specs, i64_specs};

/// The closed set of element types the simulator knows.
#[derive(Clone, Copy, PartialEq, Eq, Structural, Debug)]
pub enum Ty {
    Bool,
    U32,
    I32,
    U64,
    I64,
    F32,
    F64,
    Control,
    Error,
}

/// A tagged simulation value.  `F32`/`F64` carry IEEE-754 bit patterns.
#[derive(Clone, Copy, PartialEq, Eq, Structural, Debug)]
pub enum VALUE {
    Bool(bool),
    U32(u32),
    I32(i32),
    U64(u64),
    I64(i64),
    F32(u32),
    F64(u64),
    Control,
    ERROR,
}

pub open spec fn ty_of(v: VALUE) -> Ty {
    match v {
        VALUE::Bool(_) => Ty::Bool,
        VALUE::U32(_) => Ty::U32,
        VALUE::I32(_) => Ty::I32,
        VALUE::U64(_) => Ty::U64,
        VALUE::I64(_) => Ty::I64,
        VALUE::F32(_) => Ty::F32,
        VALUE::F64(_) => Ty::F64,
        VALUE::Control => Ty::Control,
        VALUE::ERROR => Ty::Error,
    }
}

pub open spec fn spec_as_u32(v: VALUE) -> u32 {
    match v {
        VALUE::U32(x) => x,
        VALUE::I32(x) => x as u32,
        VALUE::U64(x) => x as u32,
        VALUE::I64(x) => x as u32,
        VALUE::Bool(b) => if b { 1u32 } else { 0u32 },
        _ => 0u32,
    }
}

pub open spec fn spec_as_u64(v: VALUE) -> u64 {
    match v {
        VALUE::U32(x) => x as u64,
        VALUE::I32(x) => x as u64,
        VALUE::U64(x) => x,
        VALUE::I64(x) => x as u64,
        VALUE::Bool(b) => if b { 1u64 } else { 0u64 },
        _ => 0u64,
    }
}

pub open spec fn spec_as_i32(v: VALUE) -> i32 {
    match v {
        VALUE::U32(x) => x as i32,
        VALUE::I32(x) => x,
        VALUE::U64(x) => x as i32,
        VALUE::I64(x) => x as i32,
        VALUE::Bool(b) => if b { 1i32 } else { 0i32 },
        _ => 0i32,
    }
}

pub open spec fn spec_as_i64(v: VALUE) -> i64 {
    match v {
        VALUE::U32(x) => x as i64,
        VALUE::I32(x) => x as i64,
        VALUE::U64(x) => x as i64,
        VALUE::I64(x) => x,
        VALUE::Bool(b) => if b { 1i64 } else { 0i64 },
        _ => 0i64,
    }
}

pub open spec fn spec_as_bool(v: VALUE) -> bool {
    match v {
        VALUE::U32(x) => x != 0,
        VALUE::I32(x) => x != 0,
        VALUE::U64(x) => x != 0,
        VALUE::I64(x) => x != 0,
        VALUE::Bool(b) => b,
        _ => false,
    }
}

impl VALUE {
    /// The type tag of this value; the control token reports `Ty::Control`.
    pub fn get_type(&self) -> (t: Ty)
        ensures
            t == ty_of(*self),
    {
        match self {
            VALUE::Bool(_) => Ty::Bool,
            VALUE::U32(_) => Ty::U32,
            VALUE::I32(_) => Ty::I32,
            VALUE::U64(_) => Ty::U64,
            VALUE::I64(_) => Ty::I64,
            VALUE::F32(_) => Ty::F32,
            VALUE::F64(_) => Ty::F64,
            VALUE::Control => Ty::Control,
            VALUE::ERROR => Ty::Error,
        }
    }

    /// Reinterpret as a `u32`, truncating wider payloads; non-integer
    /// payloads read as 0.
    pub fn as_u32(&self) -> (r: u32)
        ensures
            r == spec_as_u32(*self),
    {
        match self {
            VALUE::U32(x) => *x,
            VALUE::I32(x) => #[verifier::truncate] (*x as u32),
            VALUE::U64(x) => #[verifier::truncate] (*x as u32),
            VALUE::I64(x) => #[verifier::truncate] (*x as u32),
            VALUE::Bool(b) => if *b { 1u32 } else { 0u32 },
            _ => 0u32,
        }
    }

    /// Reinterpret as a `u64`; signed payloads are sign-extended then
    /// reinterpreted; non-integer payloads read as 0.
    pub fn as_u64(&self) -> (r: u64)
        ensures
            r == spec_as_u64(*self),
    {
        match self {
            VALUE::U32(x) => *x as u64,
            VALUE::I32(x) => #[verifier::truncate] (*x as u64),
            VALUE::U64(x) => *x,
            VALUE::I64(x) => #[verifier::truncate] (*x as u64),
            VALUE::Bool(b) => if *b { 1u64 } else { 0u64 },
            _ => 0u64,
        }
    }

    /// Reinterpret as an `i32`, truncating wider payloads.
    pub fn as_i32(&self) -> (r: i32)
        ensures
            r == spec_as_i32(*self),
    {
        match self {
            VALUE::U32(x) => #[verifier::truncate] (*x as i32),
            VALUE::I32(x) => *x,
            VALUE::U64(x) => #[verifier::truncate] (*x as i32),
            VALUE::I64(x) => #[verifier::truncate] (*x as i32),
            VALUE::Bool(b) => if *b { 1i32 } else { 0i32 },
            _ => 0i32,
        }
    }

    /// Reinterpret as an `i64`.
    pub fn as_i64(&self) -> (r: i64)
        ensures
            r == spec_as_i64(*self),
    {
        match self {
            VALUE::U32(x) => *x as i64,
            VALUE::I32(x) => *x as i64,
            VALUE::U64(x) => #[verifier::truncate] (*x as i64),
            VALUE::I64(x) => *x,
            VALUE::Bool(b) => if *b { 1i64 } else { 0i64 },
            _ => 0i64,
        }
    }

    /// Read as a boolean: non-zero integers are true; non-integer payloads
    /// read as false.
    pub fn as_bool(&self) -> (r: bool)
        ensures
            r == spec_as_bool(*self),
    {
        match self {
            VALUE::U32(x) => *x != 0,
            VALUE::I32(x) => *x != 0,
            VALUE::U64(x) => *x != 0,
            VALUE::I64(x) => *x != 0,
            VALUE::Bool(b) => *b,
            _ => false,
        }
    }
}

pub open spec fn spec_convert(v: VALUE, t: Ty) -> VALUE {
    match t {
        Ty::Bool => VALUE::Bool(spec_as_bool(v)),
        Ty::I32 => VALUE::I32(spec_as_i32(v)),
        Ty::U32 => VALUE::U32(spec_as_u32(v)),
        Ty::I64 => VALUE::I64(spec_as_i64(v)),
        Ty::U64 => VALUE::U64(spec_as_u64(v)),
        Ty::F32 => match v {
            VALUE::F32(_) => v,
            VALUE::F64(_) => VALUE::ERROR,
            _ => VALUE::F32(
                spec_f32_of(spec_float_reading(v).0, spec_float_reading(v).1),
            ),
        },
        Ty::F64 => match v {
            VALUE::F64(_) => v,
            VALUE::F32(_) => VALUE::ERROR,
            _ => VALUE::F64(
                spec_f64_of(spec_float_reading(v).0, spec_float_reading(v).1),
            ),
        },
        _ => VALUE::ERROR,
    }
}

/// Cast a value to a new element type.  Integer and boolean targets follow
/// the reinterpretation rules above.  A float target encodes an integer or
/// boolean reading into the IEEE-754 bit pattern of that width, rounding
/// ties to even as the host cast does, and reads a non-numeric source as
/// zero; only the cross-width float casts, which need the host's format
/// change, yield `ERROR` here.
pub fn convert(old_value: VALUE, new_type: Ty) -> (r: VALUE)
    ensures
        r == spec_convert(old_value, new_type),
{
    match new_type {
        Ty::Bool => VALUE::Bool(old_value.as_bool()),
        Ty::I32 => VALUE::I32(old_value.as_i32()),
        Ty::U32 => VALUE::U32(old_value.as_u32()),
        Ty::I64 => VALUE::I64(old_value.as_i64()),
        Ty::U64 => VALUE::U64(old_value.as_u64()),
        Ty::F32 => match old_value {
            VALUE::F32(_) => old_value,
            VALUE::F64(_) => VALUE::ERROR,
            _ => {
                let (m, neg) = float_reading(old_value);
                let bits = encode_float_bits(m, neg, 23, 127, 31);
                VALUE::F32(#[verifier::truncate] (bits as u32))
            },
        },
        Ty::F64 => match old_value {
            VALUE::F64(_) => old_value,
            VALUE::F32(_) => VALUE::ERROR,
            _ => {
                let (m, neg) = float_reading(old_value);
                VALUE::F64(encode_float_bits(m, neg, 52, 1023, 63))
            },
        },
        _ => VALUE::ERROR,
    }
}

/// The common type used to compare two operands: equal signedness widens to
/// the larger width; mixed signedness, floats of unequal width, booleans and
/// control tokens do not compare.
pub open spec fn spec_merge_type(x: VALUE, y: VALUE) -> Ty {
    match x {
        VALUE::U32(_) => match y {
            VALUE::U32(_) => Ty::U32,
            VALUE::U64(_) => Ty::U64,
            _ => Ty::Error,
        },
        VALUE::U64(_) => match y {
            VALUE::U32(_) | VALUE::U64(_) => Ty::U64,
            _ => Ty::Error,
        },
        VALUE::I32(_) => match y {
            VALUE::I32(_) => Ty::I32,
            VALUE::I64(_) => Ty::I64,
            _ => Ty::Error,
        },
        VALUE::I64(_) => match y {
            VALUE::I32(_) | VALUE::I64(_) => Ty::I64,
            _ => Ty::Error,
        },
        VALUE::F32(_) => match y {
            VALUE::F32(_) => Ty::F32,
            _ => Ty::Error,
        },
        VALUE::F64(_) => match y {
            VALUE::F64(_) => Ty::F64,
            _ => Ty::Error,
        },
        _ => Ty::Error,
    }
}

pub fn merge_type(x: VALUE, y: VALUE) -> (t: Ty)
    ensures
        t == spec_merge_type(x, y),
{
    match x {
        VALUE::U32(_) => match y {
            VALUE::U32(_) => Ty::U32,
            VALUE::U64(_) => Ty::U64,
            _ => Ty::Error,
        },
        VALUE::U64(_) => match y {
            VALUE::U32(_) | VALUE::U64(_) => Ty::U64,
            _ => Ty::Error,
        },
        VALUE::I32(_) => match y {
            VALUE::I32(_) => Ty::I32,
            VALUE::I64(_) => Ty::I64,
            _ => Ty::Error,
        },
        VALUE::I64(_) => match y {
            VALUE::I32(_) | VALUE::I64(_) => Ty::I64,
            _ => Ty::Error,
        },
        VALUE::F32(_) => match y {
            VALUE::F32(_) => Ty::F32,
            _ => Ty::Error,
        },
        VALUE::F64(_) => match y {
            VALUE::F64(_) => Ty::F64,
            _ => Ty::Error,
        },
        _ => Ty::Error,
    }
}

/// Two's-complement addition at the result type; float sums need host
/// arithmetic and yield `ERROR` here.
pub open spec fn spec_add(t: Ty, a: VALUE, b: VALUE) -> VALUE {
    match t {
        Ty::U32 => VALUE::U32(u32_specs::wrapping_add(spec_as_u32(a), spec_as_u32(b))),
        Ty::U64 => VALUE::U64(u64_specs::wrapping_add(spec_as_u64(a), spec_as_u64(b))),
        Ty::I32 => VALUE::I32(i32_specs::wrapping_add(spec_as_i32(a), spec_as_i32(b))),
        Ty::I64 => VALUE::I64(i64_specs::wrapping_add(spec_as_i64(a), spec_as_i64(b))),
        _ => VALUE::ERROR,
    }
}

pub open spec fn spec_sub(t: Ty, a: VALUE, b: VALUE) -> VALUE {
    match t {
        Ty::U32 => VALUE::U32(u32_specs::wrapping_sub(spec_as_u32(a), spec_as_u32(b))),
        Ty::U64 => VALUE::U64(u64_specs::wrapping_sub(spec_as_u64(a), spec_as_u64(b))),
        Ty::I32 => VALUE::I32(i32_specs::wrapping_sub(spec_as_i32(a), spec_as_i32(b))),
        Ty::I64 => VALUE::I64(i64_specs::wrapping_sub(spec_as_i64(a), spec_as_i64(b))),
        _ => VALUE::ERROR,
    }
}

pub open spec fn spec_mul(t: Ty, a: VALUE, b: VALUE) -> VALUE {
    match t {
        Ty::U32 => VALUE::U32(u32_specs::wrapping_mul(spec_as_u32(a), spec_as_u32(b))),
        Ty::U64 => VALUE::U64(u64_specs::wrapping_mul(spec_as_u64(a), spec_as_u64(b))),
        Ty::I32 => VALUE::I32(i32_specs::wrapping_mul(spec_as_i32(a), spec_as_i32(b))),
        Ty::I64 => VALUE::I64(i64_specs::wrapping_mul(spec_as_i64(a), spec_as_i64(b))),
        _ => VALUE::ERROR,
    }
}

/// Truncated division; a zero divisor (or `iN::MIN / -1`) yields `ERROR`.
pub open spec fn spec_div(t: Ty, a: VALUE, b: VALUE) -> VALUE {
    match t {
        Ty::U32 => match u32::checked_div(spec_as_u32(a), spec_as_u32(b)) {
            Some(q) => VALUE::U32(q),
            None => VALUE::ERROR,
        },
        Ty::U64 => match u64::checked_div(spec_as_u64(a), spec_as_u64(b)) {
            Some(q) => VALUE::U64(q),
            None => VALUE::ERROR,
        },
        Ty::I32 => match i32::checked_div(spec_as_i32(a), spec_as_i32(b)) {
            Some(q) => VALUE::I32(q),
            None => VALUE::ERROR,
        },
        Ty::I64 => match i64::checked_div(spec_as_i64(a), spec_as_i64(b)) {
            Some(q) => VALUE::I64(q),
            None => VALUE::ERROR,
        },
        _ => VALUE::ERROR,
    }
}

/// Left shift at the result type; a shift count at or beyond the width has
/// no reading and yields `ERROR`.
pub open spec fn spec_shift_left(t: Ty, a: VALUE, b: VALUE) -> VALUE {
    match t {
        Ty::U32 => {
            let sh = spec_as_u32(b);
            if sh < 32 { VALUE::U32(spec_as_u32(a) << sh) } else { VALUE::ERROR }
        },
        Ty::U64 => {
            let sh = spec_as_u64(b);
            if sh < 64 { VALUE::U64(spec_as_u64(a) << sh) } else { VALUE::ERROR }
        },
        Ty::I32 => {
            let sh = spec_as_i32(b);
            if 0 <= sh < 32 { VALUE::I32(spec_as_i32(a) << sh) } else { VALUE::ERROR }
        },
        Ty::I64 => {
            let sh = spec_as_i64(b);
            if 0 <= sh < 64 { VALUE::I64(spec_as_i64(a) << sh) } else { VALUE::ERROR }
        },
        _ => VALUE::ERROR,
    }
}

/// Right shift at the result type: logical on unsigned, arithmetic on
/// signed; out-of-range counts yield `ERROR`.
pub open spec fn spec_shift_right(t: Ty, a: VALUE, b: VALUE) -> VALUE {
    match t {
        Ty::U32 => {
            let sh = spec_as_u32(b);
            if sh < 32 { VALUE::U32(spec_as_u32(a) >> sh) } else { VALUE::ERROR }
        },
        Ty::U64 => {
            let sh = spec_as_u64(b);
            if sh < 64 { VALUE::U64(spec_as_u64(a) >> sh) } else { VALUE::ERROR }
        },
        Ty::I32 => {
            let sh = spec_as_i32(b);
            if 0 <= sh < 32 { VALUE::I32(spec_as_i32(a) >> sh) } else { VALUE::ERROR }
        },
        Ty::I64 => {
            let sh = spec_as_i64(b);
            if 0 <= sh < 64 { VALUE::I64(spec_as_i64(a) >> sh) } else { VALUE::ERROR }
        },
        _ => VALUE::ERROR,
    }
}

/// Bitwise AND at the result type; booleans conjoin.
pub open spec fn spec_and(t: Ty, a: VALUE, b: VALUE) -> VALUE {
    match t {
        Ty::U32 => VALUE::U32(spec_as_u32(a) & spec_as_u32(b)),
        Ty::U64 => VALUE::U64(spec_as_u64(a) & spec_as_u64(b)),
        Ty::I32 => VALUE::I32(spec_as_i32(a) & spec_as_i32(b)),
        Ty::I64 => VALUE::I64(spec_as_i64(a) & spec_as_i64(b)),
        Ty::Bool => VALUE::Bool(spec_as_bool(a) && spec_as_bool(b)),
        _ => VALUE::ERROR,
    }
}

pub open spec fn spec_or(t: Ty, a: VALUE, b: VALUE) -> VALUE {
    match t {
        Ty::U32 => VALUE::U32(spec_as_u32(a) | spec_as_u32(b)),
        Ty::U64 => VALUE::U64(spec_as_u64(a) | spec_as_u64(b)),
        Ty::I32 => VALUE::I32(spec_as_i32(a) | spec_as_i32(b)),
        Ty::I64 => VALUE::I64(spec_as_i64(a) | spec_as_i64(b)),
        Ty::Bool => VALUE::Bool(spec_as_bool(a) || spec_as_bool(b)),
        _ => VALUE::ERROR,
    }
}

/// The kind of a two-operand comparison.
#[derive(Clone, Copy, PartialEq, Eq, Structural, Debug)]
pub enum CmpKind {
    Lt,
    Lte,
    Gt,
    Gte,
    Eq,
    Ne,
}

pub open spec fn spec_cmp_int(k: CmpKind, a: int, b: int) -> bool {
    match k {
        CmpKind::Lt => a < b,
        CmpKind::Lte => a <= b,
        CmpKind::Gt => a > b,
        CmpKind::Gte => a >= b,
        CmpKind::Eq => a == b,
        CmpKind::Ne => a != b,
    }
}

/// Comparison under the merged operand type; mixed classes (and floats,
/// whose ordering needs host arithmetic) yield `ERROR`.
pub open spec fn spec_cmp(k: CmpKind, a: VALUE, b: VALUE) -> VALUE {
    match spec_merge_type(a, b) {
        Ty::U32 => VALUE::Bool(spec_cmp_int(k, spec_as_u32(a) as int, spec_as_u32(b) as int)),
        Ty::U64 => VALUE::Bool(spec_cmp_int(k, spec_as_u64(a) as int, spec_as_u64(b) as int)),
        Ty::I32 => VALUE::Bool(spec_cmp_int(k, spec_as_i32(a) as int, spec_as_i32(b) as int)),
        Ty::I64 => VALUE::Bool(spec_cmp_int(k, spec_as_i64(a) as int, spec_as_i64(b) as int)),
        _ => VALUE::ERROR,
    }
}

pub open spec fn spec_not(a: VALUE) -> VALUE {
    VALUE::Bool(!spec_as_bool(a))
}

pub open spec fn spec_select(c: VALUE, a: VALUE, b: VALUE) -> VALUE {
    if spec_as_bool(c) { a } else { b }
}

/// The error-function stub: the zero float of the operand's width.
pub open spec fn spec_erf(a: VALUE) -> VALUE {
    match a {
        VALUE::F32(_) => VALUE::F32(0u32),
        VALUE::F64(_) => VALUE::F64(0u64),
        _ => VALUE::ERROR,
    }
}

fn first_two(values: &Vec<VALUE>) -> (r: Option<(VALUE, VALUE)>)
    ensures
        values@.len() >= 2 <==> r == Some((values@[0], values@[1])),
        values@.len() < 2 <==> r is None,
{
    if values.len() >= 2 {
        Some((values[0], values[1]))
    } else {
        None
    }
}

/// Addition; callers pass the declared result type and the operand list.
pub fn add(ret_type: Ty, values: &Vec<VALUE>) -> (r: VALUE)
    ensures
        values@.len() >= 2 ==> r == spec_add(ret_type, values@[0], values@[1]),
        values@.len() < 2 ==> r == VALUE::ERROR,
{
    match first_two(values) {
        None => VALUE::ERROR,
        Some((a, b)) => match ret_type {
            Ty::U32 => VALUE::U32(a.as_u32().wrapping_add(b.as_u32())),
            Ty::U64 => VALUE::U64(a.as_u64().wrapping_add(b.as_u64())),
            Ty::I32 => VALUE::I32(a.as_i32().wrapping_add(b.as_i32())),
            Ty::I64 => VALUE::I64(a.as_i64().wrapping_add(b.as_i64())),
            _ => VALUE::ERROR,
        },
    }
}

pub fn sub(ret_type: Ty, values: &Vec<VALUE>) -> (r: VALUE)
    ensures
        values@.len() >= 2 ==> r == spec_sub(ret_type, values@[0], values@[1]),
        values@.len() < 2 ==> r == VALUE::ERROR,
{
    match first_two(values) {
        None => VALUE::ERROR,
        Some((a, b)) => match ret_type {
            Ty::U32 => VALUE::U32(a.as_u32().wrapping_sub(b.as_u32())),
            Ty::U64 => VALUE::U64(a.as_u64().wrapping_sub(b.as_u64())),
            Ty::I32 => VALUE::I32(a.as_i32().wrapping_sub(b.as_i32())),
            Ty::I64 => VALUE::I64(a.as_i64().wrapping_sub(b.as_i64())),
            _ => VALUE::ERROR,
        },
    }
}

pub fn mul(ret_type: Ty, values: &Vec<VALUE>) -> (r: VALUE)
    ensures
        values@.len() >= 2 ==> r == spec_mul(ret_type, values@[0], values@[1]),
        values@.len() < 2 ==> r == VALUE::ERROR,
{
    match first_two(values) {
        None => VALUE::ERROR,
        Some((a, b)) => match ret_type {
            Ty::U32 => VALUE::U32(a.as_u32().wrapping_mul(b.as_u32())),
            Ty::U64 => VALUE::U64(a.as_u64().wrapping_mul(b.as_u64())),
            Ty::I32 => VALUE::I32(a.as_i32().wrapping_mul(b.as_i32())),
            Ty::I64 => VALUE::I64(a.as_i64().wrapping_mul(b.as_i64())),
            _ => VALUE::ERROR,
        },
    }
}

pub fn div(ret_type: Ty, values: &Vec<VALUE>) -> (r: VALUE)
    ensures
        values@.len() >= 2 ==> r == spec_div(ret_type, values@[0], values@[1]),
        values@.len() < 2 ==> r == VALUE::ERROR,
{
    match first_two(values) {
        None => VALUE::ERROR,
        Some((a, b)) => match ret_type {
            Ty::U32 => match a.as_u32().checked_div(b.as_u32()) {
                Some(q) => VALUE::U32(q),
                None => VALUE::ERROR,
            },
            Ty::U64 => match a.as_u64().checked_div(b.as_u64()) {
                Some(q) => VALUE::U64(q),
                None => VALUE::ERROR,
            },
            Ty::I32 => match a.as_i32().checked_div(b.as_i32()) {
                Some(q) => VALUE::I32(q),
                None => VALUE::ERROR,
            },
            Ty::I64 => match a.as_i64().checked_div(b.as_i64()) {
                Some(q) => VALUE::I64(q),
                None => VALUE::ERROR,
            },
            _ => VALUE::ERROR,
        },
    }
}

/// Signed division as dispatched by result type; on an unsigned result type
/// it divides the unsigned readings.
pub fn divsi(ret_type: Ty, values: &Vec<VALUE>) -> (r: VALUE)
    ensures
        values@.len() >= 2 ==> r == spec_div(ret_type, values@[0], values@[1]),
        values@.len() < 2 ==> r == VALUE::ERROR,
{
    div(ret_type, values)
}

pub fn shift_left(ret_type: Ty, values: &Vec<VALUE>) -> (r: VALUE)
    ensures
        values@.len() >= 2 ==> r == spec_shift_left(ret_type, values@[0], values@[1]),
        values@.len() < 2 ==> r == VALUE::ERROR,
{
    match first_two(values) {
        None => VALUE::ERROR,
        Some((a, b)) => match ret_type {
            Ty::U32 => {
                let sh = b.as_u32();
                if sh < 32 { VALUE::U32(a.as_u32() << sh) } else { VALUE::ERROR }
            },
            Ty::U64 => {
                let sh = b.as_u64();
                if sh < 64 { VALUE::U64(a.as_u64() << sh) } else { VALUE::ERROR }
            },
            Ty::I32 => {
                let sh = b.as_i32();
                if 0 <= sh && sh < 32 { VALUE::I32(a.as_i32() << sh) } else { VALUE::ERROR }
            },
            Ty::I64 => {
                let sh = b.as_i64();
                if 0 <= sh && sh < 64 { VALUE::I64(a.as_i64() << sh) } else { VALUE::ERROR }
            },
            _ => VALUE::ERROR,
        },
    }
}

pub fn shift_right(ret_type: Ty, values: &Vec<VALUE>) -> (r: VALUE)
    ensures
        values@.len() >= 2 ==> r == spec_shift_right(ret_type, values@[0], values@[1]),
        values@.len() < 2 ==> r == VALUE::ERROR,
{
    match first_two(values) {
        None => VALUE::ERROR,
        Some((a, b)) => match ret_type {
            Ty::U32 => {
                let sh = b.as_u32();
                if sh < 32 { VALUE::U32(a.as_u32() >> sh) } else { VALUE::ERROR }
            },
            Ty::U64 => {
                let sh = b.as_u64();
                if sh < 64 { VALUE::U64(a.as_u64() >> sh) } else { VALUE::ERROR }
            },
            Ty::I32 => {
                let sh = b.as_i32();
                if 0 <= sh && sh < 32 { VALUE::I32(a.as_i32() >> sh) } else { VALUE::ERROR }
            },
            Ty::I64 => {
                let sh = b.as_i64();
                if 0 <= sh && sh < 64 { VALUE::I64(a.as_i64() >> sh) } else { VALUE::ERROR }
            },
            _ => VALUE::ERROR,
        },
    }
}

pub fn and(ret_type: Ty, values: &Vec<VALUE>) -> (r: VALUE)
    ensures
        values@.len() >= 2 ==> r == spec_and(ret_type, values@[0], values@[1]),
        values@.len() < 2 ==> r == VALUE::ERROR,
{
    match first_two(values) {
        None => VALUE::ERROR,
        Some((a, b)) => match ret_type {
            Ty::U32 => VALUE::U32(a.as_u32() & b.as_u32()),
            Ty::U64 => VALUE::U64(a.as_u64() & b.as_u64()),
            Ty::I32 => VALUE::I32(a.as_i32() & b.as_i32()),
            Ty::I64 => VALUE::I64(a.as_i64() & b.as_i64()),
            Ty::Bool => VALUE::Bool(a.as_bool() && b.as_bool()),
            _ => VALUE::ERROR,
        },
    }
}

pub fn or(ret_type: Ty, values: &Vec<VALUE>) -> (r: VALUE)
    ensures
        values@.len() >= 2 ==> r == spec_or(ret_type, values@[0], values@[1]),
        values@.len() < 2 ==> r == VALUE::ERROR,
{
    match first_two(values) {
        None => VALUE::ERROR,
        Some((a, b)) => match ret_type {
            Ty::U32 => VALUE::U32(a.as_u32() | b.as_u32()),
            Ty::U64 => VALUE::U64(a.as_u64() | b.as_u64()),
            Ty::I32 => VALUE::I32(a.as_i32() | b.as_i32()),
            Ty::I64 => VALUE::I64(a.as_i64() | b.as_i64()),
            Ty::Bool => VALUE::Bool(a.as_bool() || b.as_bool()),
            _ => VALUE::ERROR,
        },
    }
}

/// One comparison over the merged operand type.
pub fn compare(kind: CmpKind, values: &Vec<VALUE>) -> (r: VALUE)
    ensures
        values@.len() >= 2 ==> r == spec_cmp(kind, values@[0], values@[1]),
        values@.len() < 2 ==> r == VALUE::ERROR,
{
    match first_two(values) {
        None => VALUE::ERROR,
        Some((a, b)) => match merge_type(a, b) {
            Ty::U32 => {
                let x = a.as_u32();
                let y = b.as_u32();
                VALUE::Bool(match kind {
                    CmpKind::Lt => x < y,
                    CmpKind::Lte => x <= y,
                    CmpKind::Gt => x > y,
                    CmpKind::Gte => x >= y,
                    CmpKind::Eq => x == y,
                    CmpKind::Ne => x != y,
                })
            },
            Ty::U64 => {
                let x = a.as_u64();
                let y = b.as_u64();
                VALUE::Bool(match kind {
                    CmpKind::Lt => x < y,
                    CmpKind::Lte => x <= y,
                    CmpKind::Gt => x > y,
                    CmpKind::Gte => x >= y,
                    CmpKind::Eq => x == y,
                    CmpKind::Ne => x != y,
                })
            },
            Ty::I32 => {
                let x = a.as_i32();
                let y = b.as_i32();
                VALUE::Bool(match kind {
                    CmpKind::Lt => x < y,
                    CmpKind::Lte => x <= y,
                    CmpKind::Gt => x > y,
                    CmpKind::Gte => x >= y,
                    CmpKind::Eq => x == y,
                    CmpKind::Ne => x != y,
                })
            },
            Ty::I64 => {
                let x = a.as_i64();
                let y = b.as_i64();
                VALUE::Bool(match kind {
                    CmpKind::Lt => x < y,
                    CmpKind::Lte => x <= y,
                    CmpKind::Gt => x > y,
                    CmpKind::Gte => x >= y,
                    CmpKind::Eq => x == y,
                    CmpKind::Ne => x != y,
                })
            },
            _ => VALUE::ERROR,
        },
    }
}

pub fn cmp_lt(values: &Vec<VALUE>) -> (r: VALUE)
    ensures
        values@.len() >= 2 ==> r == spec_cmp(CmpKind::Lt, values@[0], values@[1]),
        values@.len() < 2 ==> r == VALUE::ERROR,
{
    compare(CmpKind::Lt, values)
}

pub fn cmp_lte(values: &Vec<VALUE>) -> (r: VALUE)
    ensures
        values@.len() >= 2 ==> r == spec_cmp(CmpKind::Lte, values@[0], values@[1]),
        values@.len() < 2 ==> r == VALUE::ERROR,
{
    compare(CmpKind::Lte, values)
}

pub fn cmp_gt(values: &Vec<VALUE>) -> (r: VALUE)
    ensures
        values@.len() >= 2 ==> r == spec_cmp(CmpKind::Gt, values@[0], values@[1]),
        values@.len() < 2 ==> r == VALUE::ERROR,
{
    compare(CmpKind::Gt, values)
}

pub fn cmp_gte(values: &Vec<VALUE>) -> (r: VALUE)
    ensures
        values@.len() >= 2 ==> r == spec_cmp(CmpKind::Gte, values@[0], values@[1]),
        values@.len() < 2 ==> r == VALUE::ERROR,
{
    compare(CmpKind::Gte, values)
}

pub fn cmp_eq(values: &Vec<VALUE>) -> (r: VALUE)
    ensures
        values@.len() >= 2 ==> r == spec_cmp(CmpKind::Eq, values@[0], values@[1]),
        values@.len() < 2 ==> r == VALUE::ERROR,
{
    compare(CmpKind::Eq, values)
}

pub fn cmp_ne(values: &Vec<VALUE>) -> (r: VALUE)
    ensures
        values@.len() >= 2 ==> r == spec_cmp(CmpKind::Ne, values@[0], values@[1]),
        values@.len() < 2 ==> r == VALUE::ERROR,
{
    compare(CmpKind::Ne, values)
}

/// `sle` as emitted by the scheduler; the merged type decides the reading.
pub fn cmp_sle(values: &Vec<VALUE>) -> (r: VALUE)
    ensures
        values@.len() >= 2 ==> r == spec_cmp(CmpKind::Lte, values@[0], values@[1]),
        values@.len() < 2 ==> r == VALUE::ERROR,
{
    compare(CmpKind::Lte, values)
}

pub fn not(values: &Vec<VALUE>) -> (r: VALUE)
    ensures
        values@.len() >= 1 ==> r == spec_not(values@[0]),
        values@.len() < 1 ==> r == VALUE::ERROR,
{
    if values.len() >= 1 {
        VALUE::Bool(!values[0].as_bool())
    } else {
        VALUE::ERROR
    }
}

pub fn select(values: &Vec<VALUE>) -> (r: VALUE)
    ensures
        values@.len() >= 3 ==> r == spec_select(values@[0], values@[1], values@[2]),
        values@.len() < 3 ==> r == VALUE::ERROR,
{
    if values.len() >= 3 {
        if values[0].as_bool() {
            values[1]
        } else {
            values[2]
        }
    } else {
        VALUE::ERROR
    }
}

/// The error-function stub of the reference: the zero float of the operand's
/// width, `ERROR` on anything that is not a float.
pub fn erf(values: &Vec<VALUE>) -> (r: VALUE)
    ensures
        values@.len() >= 1 ==> r == spec_erf(values@[0]),
        values@.len() < 1 ==> r == VALUE::ERROR,
{
    if values.len() >= 1 {
        match values[0] {
            VALUE::F32(_) => VALUE::F32(0u32),
            VALUE::F64(_) => VALUE::F64(0u64),
            _ => VALUE::ERROR,
        }
    } else {
        VALUE::ERROR
    }
}

pub open spec fn pow2(k: nat) -> int
    decreases k,
{
    if k == 0 {
        1
    } else {
        2 * pow2((k - 1) as nat)
    }
}

proof fn lemma_pow2_pos(k: nat)
    ensures
        pow2(k) >= 1,
    decreases k,
{
    if k > 0 {
        lemma_pow2_pos((k - 1) as nat);
    }
}

proof fn lemma_pow2_adds(a: nat, b: nat)
    ensures
        pow2(a) * pow2(b) == pow2(a + b),
    decreases a,
{
    if a == 0 {
    } else {
        lemma_pow2_adds((a - 1) as nat, b);
        assert(pow2(a) * pow2(b) == 2 * (pow2((a - 1) as nat) * pow2(b))) by (nonlinear_arith)
            requires
                pow2(a) == 2 * pow2((a - 1) as nat),
        ;
    }
}

/// The number of bits needed to write a natural number.
pub open spec fn bit_width(x: int) -> nat
    decreases (if x > 0 {
        x
    } else {
        0
    }),
{
    if x <= 0 {
        0
    } else {
        1 + bit_width(x / 2)
    }
}

proof fn lemma_bit_width_bounds(x: int)
    requires
        x > 0,
    ensures
        bit_width(x) >= 1,
        pow2((bit_width(x) - 1) as nat) <= x < pow2(bit_width(x)),
    decreases x,
{
    if x / 2 > 0 {
        lemma_bit_width_bounds(x / 2);
        let bw = bit_width(x);
        assert(bw == 1 + bit_width(x / 2));
        assert(pow2((bw - 1) as nat) == 2 * pow2((bw - 2) as nat));
        assert(pow2(bw) == 2 * pow2((bw - 1) as nat));
        assert(x >= 2 * (x / 2));
        assert(x <= 2 * (x / 2) + 1);
    } else {
        assert(x == 1);
        assert(bit_width(1) == 1 + bit_width(0));
        assert(pow2(0) == 1);
        assert(pow2(1) == 2);
    }
}

fn exec_pow2(k: u32) -> (r: u64)
    requires
        k < 64,
    ensures
        r == pow2(k as nat),
        r >= 1,
{
    let mut r: u64 = 1;
    let mut i: u32 = 0;
    while i < k
        invariant
            i <= k,
            k < 64,
            r == pow2(i as nat),
            r >= 1,
        decreases k - i,
    {
        proof {
            lemma_pow2_le_max(k as nat);
            lemma_pow2_mono(i as nat + 1, k as nat);
        }
        r = r * 2;
        i = i + 1;
    }
    r
}

proof fn lemma_pow2_mono(a: nat, b: nat)
    requires
        a <= b,
    ensures
        pow2(a) <= pow2(b),
    decreases b,
{
    if a < b {
        lemma_pow2_mono(a, (b - 1) as nat);
        lemma_pow2_pos((b - 1) as nat);
    }
}

proof fn lemma_pow2_le_max(k: nat)
    requires
        k <= 63,
    ensures
        pow2(k) <= 0x8000_0000_0000_0000,
{
    lemma_pow2_mono(k, 63);
    reveal_with_fuel(pow2, 64);
}

fn exec_bit_width(x: u64) -> (r: u32)
    ensures
        r == bit_width(x as int),
        r <= 64,
{
    proof {
        assert(pow2(64) == 0x1_0000_0000_0000_0000) by {
            reveal_with_fuel(pow2, 65);
        }
        lemma_bit_width_le(x as int, 64);
    }
    let mut v: u64 = x;
    let mut w: u32 = 0;
    while v > 0
        invariant
            w + bit_width(v as int) == bit_width(x as int),
            bit_width(x as int) <= 64,
        decreases v,
    {
        v = v / 2;
        w = w + 1;
    }
    w
}

proof fn lemma_bit_width_le(x: int, k: nat)
    requires
        0 <= x < pow2(k),
    ensures
        bit_width(x) <= k,
    decreases k,
{
    if x > 0 {
        assert(k >= 1) by {
            if k == 0 {
                assert(pow2(0) == 1);
            }
        }
        lemma_bit_width_le(x / 2, (k - 1) as nat);
    }
}

/// The IEEE-754 bit pattern that encodes an integer magnitude with a sign,
/// at a format with `mant` mantissa bits, exponent bias `bias` and the
/// sign at bit `sign_pos`; ties round to even, as the host cast does.
pub open spec fn spec_float_bits(mag: int, neg: bool, mant: nat, bias: int, sign_pos: nat) -> int {
    let sign = if neg {
        pow2(sign_pos)
    } else {
        0
    };
    if mag == 0 {
        sign
    } else {
        let e = (bit_width(mag) - 1) as nat;
        if e <= mant {
            sign + (bias + e) * pow2(mant) + (mag - pow2(e)) * pow2((mant - e) as nat)
        } else {
            let shift = (e - mant) as nat;
            let q = mag / pow2(shift);
            let r = mag % pow2(shift);
            let half = pow2((shift - 1) as nat);
            let q2 = if r > half || (r == half && q % 2 == 1) {
                q + 1
            } else {
                q
            };
            if q2 == pow2(mant + 1) {
                sign + (bias + e + 1) * pow2(mant)
            } else {
                sign + (bias + e) * pow2(mant) + (q2 - pow2(mant))
            }
        }
    }
}

/// Encode a signed integer magnitude at a float format; the two formats
/// used are (52, 1023, 63) for f64 and (23, 127, 31) for f32.
#[verifier::rlimit(100)]
fn encode_float_bits(mag: u64, neg: bool, mant: u32, bias: u64, sign_pos: u32) -> (r: u64)
    requires
        (mant == 52 && bias == 1023 && sign_pos == 63) || (mant == 23 && bias == 127 && sign_pos
            == 31),
    ensures
        r == spec_float_bits(mag as int, neg, mant as nat, bias as int, sign_pos as nat),
        !neg ==> r < pow2(sign_pos as nat),
{
    proof {
        reveal_with_fuel(pow2, 65);
        assert(pow2(63) == 0x8000_0000_0000_0000);
        assert(pow2(52) == 0x10_0000_0000_0000);
        assert(pow2(53) == 0x20_0000_0000_0000);
        assert(pow2(31) == 0x8000_0000);
        assert(pow2(23) == 0x80_0000);
        assert(pow2(24) == 0x100_0000);
    }
    let sign: u64 = if neg {
        exec_pow2(sign_pos)
    } else {
        0
    };
    if mag == 0 {
        return sign;
    }
    let w = exec_bit_width(mag);
    let e = w - 1;
    proof {
        lemma_bit_width_bounds(mag as int);
    }
    if e <= mant {
        let p_mant = exec_pow2(mant);
        let p_e = exec_pow2(e);
        let p_shift = exec_pow2(mant - e);
        proof {
            lemma_pow2_adds((e) as nat, (mant - e) as nat);
            assert((mag - p_e) * p_shift < pow2(mant as nat)) by (nonlinear_arith)
                requires
                    0 <= mag - p_e < p_e,
                    p_e * p_shift == pow2(mant as nat),
                    p_shift >= 1,
            ;
            assert((mag - p_e) * p_shift >= 0) by (nonlinear_arith)
                requires
                    mag - p_e >= 0,
                    p_shift >= 1,
            ;
        }
        let frac = (mag - p_e) * p_shift;
        sign + (bias + e as u64) * p_mant + frac
    } else {
        let shift = e - mant;
        let p_shift = exec_pow2(shift);
        let p_mant = exec_pow2(mant);
        let p_mant1 = exec_pow2(mant + 1);
        let q = mag / p_shift;
        let r = mag % p_shift;
        let half = exec_pow2(shift - 1);
        proof {
            lemma_pow2_adds(mant as nat + 1, (shift - 1) as nat);
            lemma_pow2_adds(mant as nat, shift as nat);
            lemma_pow2_adds((e) as nat, 0);
            assert(mag / p_shift < pow2(mant as nat + 1)) by (nonlinear_arith)
                requires
                    p_shift >= 1,
                    0 < mag < pow2((e + 1) as nat),
                    pow2((e + 1) as nat) == pow2(mant as nat + 1) * (p_shift as int),
            ;
            assert(mag / p_shift >= pow2(mant as nat)) by (nonlinear_arith)
                requires
                    p_shift >= 1,
                    mag >= pow2(e as nat),
                    pow2(e as nat) == pow2(mant as nat) * (p_shift as int),
            ;
        }
        let q2 = if r > half || (r == half && q % 2 == 1) {
            q + 1
        } else {
            q
        };
        if q2 == p_mant1 {
            sign + (bias + e as u64 + 1) * p_mant
        } else {
            sign + (bias + e as u64) * p_mant + (q2 - p_mant)
        }
    }
}

/// The power of two as a machine word.
pub fn exec_pow2_of(k: u32) -> (r: u64)
    requires
        k < 64,
    ensures
        r == pow2(k as nat),
        r >= 1,
{
    exec_pow2(k)
}

/// Encode a signed integer magnitude at a float format; the public face
/// of the kernel's IEEE encoder, for the literal decoder.
pub fn encode_float_bits_pub(mag: u64, neg: bool, mant: u32, bias: u64, sign_pos: u32) -> (r: u64)
    requires
        (mant == 52 && bias == 1023 && sign_pos == 63) || (mant == 23 && bias == 127 && sign_pos
            == 31),
    ensures
        r == spec_float_bits(mag as int, neg, mant as nat, bias as int, sign_pos as nat),
        !neg ==> r < pow2(sign_pos as nat),
{
    encode_float_bits(mag, neg, mant, bias, sign_pos)
}

/// The f64 bit pattern of a signed 64-bit magnitude.
pub open spec fn spec_f64_of(mag: int, neg: bool) -> u64 {
    spec_float_bits(mag, neg, 52, 1023, 63) as u64
}

/// The f32 bit pattern of a signed 64-bit magnitude.
pub open spec fn spec_f32_of(mag: int, neg: bool) -> u32 {
    spec_float_bits(mag, neg, 23, 127, 31) as u32
}

/// The magnitude and sign an integer or boolean value reads as; the
/// non-numeric values read as zero, as the reference's float reads do.
pub open spec fn spec_float_reading(v: VALUE) -> (int, bool) {
    match v {
        VALUE::Bool(b) => (if b {
            1int
        } else {
            0int
        }, false),
        VALUE::U32(x) => (x as int, false),
        VALUE::U64(x) => (x as int, false),
        VALUE::I32(x) => if x < 0 {
            (-(x as int), true)
        } else {
            (x as int, false)
        },
        VALUE::I64(x) => if x < 0 {
            (-(x as int), true)
        } else {
            (x as int, false)
        },
        _ => (0int, false),
    }
}

/// Read a value as a magnitude and sign for float encoding.
fn float_reading(v: VALUE) -> (r: (u64, bool))
    requires
        !(v is F32),
        !(v is F64),
    ensures
        (r.0 as int, r.1) == spec_float_reading(v),
{
    match v {
        VALUE::Bool(b) => (if b {
            1u64
        } else {
            0u64
        }, false),
        VALUE::U32(x) => (x as u64, false),
        VALUE::U64(x) => (x, false),
        VALUE::I32(x) => if x < 0 {
            (((-(x as i64)) as u64), true)
        } else {
            (x as u64, false)
        },
        VALUE::I64(x) => if x < 0 {
            if x == i64::MIN {
                (0x8000_0000_0000_0000u64, true)
            } else {
                ((-x) as u64, true)
            }
        } else {
            (x as u64, false)
        },
        _ => (0u64, false),
    }
}

/// Whether casting `v` to `t` loses nothing: integer widening within the
/// same signedness, any cast of a value to its own type, boolean to any
/// integer, and a float to the float type of its own width.
pub open spec fn lossless_cast(v: VALUE, t: Ty) -> bool {
    match (v, t) {
        (VALUE::Bool(_), Ty::Bool) => true,
        (VALUE::Bool(_), Ty::U32) => true,
        (VALUE::Bool(_), Ty::U64) => true,
        (VALUE::Bool(_), Ty::I32) => true,
        (VALUE::Bool(_), Ty::I64) => true,
        (VALUE::U32(_), Ty::U32) => true,
        (VALUE::U32(_), Ty::U64) => true,
        (VALUE::U32(x), Ty::I64) => true,
        (VALUE::I32(_), Ty::I32) => true,
        (VALUE::I32(_), Ty::I64) => true,
        (VALUE::U64(_), Ty::U64) => true,
        (VALUE::I64(_), Ty::I64) => true,
        (VALUE::F32(_), Ty::F32) => true,
        (VALUE::F64(_), Ty::F64) => true,
        _ => false,
    }
}

/// Round trip of conversions: when the cast of `v` to `t` is lossless and
/// the cast of that result to `u` is lossless too, converting through `t`
/// gives exactly what converting to `u` directly gives.
pub proof fn lemma_convert_round_trip(v: VALUE, t: Ty, u: Ty)
    requires
        lossless_cast(v, t),
        lossless_cast(spec_convert(v, t), u),
    ensures
        spec_convert(spec_convert(v, t), u) == spec_convert(v, u),
{
}

} // verus!
