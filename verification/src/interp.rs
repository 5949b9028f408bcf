use vstd::prelude::*;

use crate::ast::Pos;
use crate::ir::{BooleanOperator, ComparisonOperator, IRNode, IRNodeData, MathOperator, spec_typ};
use crate::stack::IR;
use crate::types::{TypeData, lemma_concrete_idempotent};

verus! {

/// A runtime value of one of the four primitive types, plus the unit result
/// of statements. A floating-point value is carried as its IEEE double bit
/// pattern: the library decides on the bits what it can (which divisor is a
/// zero, how values flow) and leaves the arithmetic itself to the embedder,
/// through `FloatOps`.
#[derive(Clone, Copy, PartialEq, Eq, Structural, Debug)]
pub enum Value {
    Void,
    Int(i64),
    Float(u64),
    Bool(bool),
    Char(u8),
}

/// A runtime failure. Division by zero is the one reportable runtime error;
/// `Internal` marks an internal invariant violation — an operand shape the
/// builder is required never to produce — reported loudly rather than left
/// undefined.
#[derive(Clone, Copy, PartialEq, Eq, Structural, Debug)]
pub enum InterpError {
    DivideByZero(Pos),
    Internal(Pos),
}

/// What evaluating a node comes to, in the model: an exact value, an exact
/// runtime error, or `Unknown` where the outcome passes through
/// floating-point arithmetic, which the library does not interpret.
pub ghost enum Ev {
    Val(Value),
    Div(Pos),
    Fatal(Pos),
    Unknown,
}

/// Whether an execution result is what the model says: exact where the model
/// is exact, unconstrained where the model says `Unknown`.
pub open spec fn res_matches(r: Result<Value, InterpError>, ev: Ev) -> bool {
    match ev {
        Ev::Val(v) => r == Result::<Value, InterpError>::Ok(v),
        Ev::Div(p) => r == Result::<Value, InterpError>::Err(InterpError::DivideByZero(p)),
        Ev::Fatal(p) => r == Result::<Value, InterpError>::Err(InterpError::Internal(p)),
        Ev::Unknown => true,
    }
}

/// The two IEEE bit patterns that compare equal to zero; a floating-point
/// divisor is rejected exactly when its bits are one of these.
pub open spec fn float_bits_zero(b: u64) -> bool {
    b == 0u64 || b == 0x8000_0000_0000_0000u64
}

/// Iterated checked multiplication: the exact model of raising an integer to
/// a power, trapping on overflow.
pub open spec fn pow_checked(base: i64, e: nat) -> Option<i64>
    decreases e,
{
    if e == 0 {
        Option::Some(1i64)
    } else {
        match pow_checked(base, (e - 1) as nat) {
            Option::None => Option::None,
            Option::Some(p) => p.checked_mul(base),
        }
    }
}

/// Iterated wrapping multiplication: raising a one-byte value to a power
/// wraps within the byte, like the rest of one-byte arithmetic.
pub open spec fn pow_wrap(base: u8, e: nat) -> u8
    decreases e,
{
    if e == 0 {
        1u8
    } else {
        pow_wrap(base, (e - 1) as nat).wrapping_mul(base)
    }
}

/// The exponent the power and shift operators use: the right operand
/// truncated to its low 32 bits.
pub open spec fn exp_of(b: i64) -> nat {
    (b as u32) as nat
}

/// The value of an integer-truncating conversion to one byte: the low eight
/// bits of the two's-complement representation.
pub open spec fn trunc_u8(x: i64) -> u8 {
    x as u8
}

/// Integer and one-byte comparison truth.
pub open spec fn comp_int(op: ComparisonOperator, a: int, b: int) -> bool {
    match op {
        ComparisonOperator::EQUAL => a == b,
        ComparisonOperator::NOTEQUAL => a != b,
        ComparisonOperator::GREATER => a > b,
        ComparisonOperator::LESS => a < b,
        ComparisonOperator::GREATEREQUAL => a >= b,
        ComparisonOperator::LESSEQUAL => a <= b,
    }
}

/// Integer arithmetic: add and multiply wrap (two's complement); subtract
/// traps on overflow; divide and modulo report division by zero and trap on
/// the one overflowing quotient; power is iterated checked multiplication
/// with the exponent truncated to 32 bits; the bitwise operators work on the
/// two's-complement representation, with shift amounts taken modulo the
/// width.
pub open spec fn eval_math_int(pos: Pos, op: MathOperator, a: i64, b: i64) -> Ev {
    match op {
        MathOperator::ADD => Ev::Val(Value::Int(a.wrapping_add(b))),
        MathOperator::SUBTRACT => match a.checked_sub(b) {
            Option::Some(v) => Ev::Val(Value::Int(v)),
            Option::None => Ev::Fatal(pos),
        },
        MathOperator::MULTIPLY => Ev::Val(Value::Int(a.wrapping_mul(b))),
        MathOperator::DIVIDE => if b == 0 {
            Ev::Div(pos)
        } else {
            match a.checked_div(b) {
                Option::Some(v) => Ev::Val(Value::Int(v)),
                Option::None => Ev::Fatal(pos),
            }
        },
        MathOperator::MODULO => if b == 0 {
            Ev::Div(pos)
        } else {
            match a.checked_rem(b) {
                Option::Some(v) => Ev::Val(Value::Int(v)),
                Option::None => Ev::Fatal(pos),
            }
        },
        MathOperator::POWER => match pow_checked(a, exp_of(b)) {
            Option::Some(v) => Ev::Val(Value::Int(v)),
            Option::None => Ev::Fatal(pos),
        },
        MathOperator::XOR => Ev::Val(Value::Int(a ^ b)),
        MathOperator::SHIFT => Ev::Val(Value::Int(a.wrapping_shl(exp_of(b) as u32))),
        MathOperator::BOR => Ev::Val(Value::Int(a | b)),
    }
}

/// One-byte arithmetic: every operation wraps within the byte; divide and
/// modulo report division by zero.
pub open spec fn eval_math_char(pos: Pos, op: MathOperator, a: u8, b: u8) -> Ev {
    match op {
        MathOperator::ADD => Ev::Val(Value::Char(a.wrapping_add(b))),
        MathOperator::SUBTRACT => Ev::Val(Value::Char(a.wrapping_sub(b))),
        MathOperator::MULTIPLY => Ev::Val(Value::Char(a.wrapping_mul(b))),
        MathOperator::DIVIDE => if b == 0 {
            Ev::Div(pos)
        } else {
            Ev::Val(Value::Char(a / b))
        },
        MathOperator::MODULO => if b == 0 {
            Ev::Div(pos)
        } else {
            Ev::Val(Value::Char(a % b))
        },
        MathOperator::POWER => Ev::Val(Value::Char(pow_wrap(a, b as nat))),
        MathOperator::XOR => Ev::Val(Value::Char(a ^ b)),
        MathOperator::SHIFT => Ev::Val(Value::Char(a.wrapping_shl(b as u32))),
        MathOperator::BOR => Ev::Val(Value::Char(a | b)),
    }
}

/// Floating-point arithmetic: a zero divisor is reported on the bits alone;
/// everything else goes through the embedder's operations, so the outcome is
/// not interpreted here.
pub open spec fn eval_math_float(pos: Pos, op: MathOperator, a: u64, b: u64) -> Ev {
    match op {
        MathOperator::DIVIDE => if float_bits_zero(b) {
            Ev::Div(pos)
        } else {
            Ev::Unknown
        },
        MathOperator::MODULO => if float_bits_zero(b) {
            Ev::Div(pos)
        } else {
            Ev::Unknown
        },
        _ => Ev::Unknown,
    }
}

/// Arithmetic on a pair of operand values: both must be of one primitive
/// numeric type; anything else is an invariant violation.
pub open spec fn eval_math_vals(pos: Pos, op: MathOperator, lv: Value, rv: Value) -> Ev {
    match (lv, rv) {
        (Value::Int(a), Value::Int(b)) => eval_math_int(pos, op, a, b),
        (Value::Float(a), Value::Float(b)) => eval_math_float(pos, op, a, b),
        (Value::Char(a), Value::Char(b)) => eval_math_char(pos, op, a, b),
        _ => Ev::Fatal(pos),
    }
}

/// Operand sequencing shared by the strict binary operators: the left
/// operand's failure wins, then the right's, then the operation applies.
pub open spec fn seq_ev(le: Ev, re: Ev, app: Ev) -> Ev {
    match le {
        Ev::Div(p) => Ev::Div(p),
        Ev::Fatal(p) => Ev::Fatal(p),
        Ev::Unknown => Ev::Unknown,
        Ev::Val(_) => match re {
            Ev::Div(p) => Ev::Div(p),
            Ev::Fatal(p) => Ev::Fatal(p),
            Ev::Unknown => Ev::Unknown,
            Ev::Val(_) => app,
        },
    }
}

pub open spec fn eval_math_ev(pos: Pos, op: MathOperator, le: Ev, re: Ev) -> Ev {
    seq_ev(
        le,
        re,
        match (le, re) {
            (Ev::Val(lv), Ev::Val(rv)) => eval_math_vals(pos, op, lv, rv),
            _ => Ev::Unknown,
        },
    )
}

/// Comparison of a pair of operand values: ordering and equality for the
/// three numeric primitives, equality only for booleans (the builder never
/// asks for an ordering of booleans), floating point through the embedder.
pub open spec fn eval_comp_vals(pos: Pos, op: ComparisonOperator, lv: Value, rv: Value) -> Ev {
    match (lv, rv) {
        (Value::Char(a), Value::Char(b)) => Ev::Val(Value::Bool(comp_int(op, a as int, b as int))),
        (Value::Int(a), Value::Int(b)) => Ev::Val(Value::Bool(comp_int(op, a as int, b as int))),
        (Value::Float(_), Value::Float(_)) => Ev::Unknown,
        (Value::Bool(a), Value::Bool(b)) => match op {
            ComparisonOperator::EQUAL => Ev::Val(Value::Bool(a == b)),
            ComparisonOperator::NOTEQUAL => Ev::Val(Value::Bool(a != b)),
            _ => Ev::Fatal(pos),
        },
        _ => Ev::Fatal(pos),
    }
}

pub open spec fn eval_comp_ev(pos: Pos, op: ComparisonOperator, le: Ev, re: Ev) -> Ev {
    seq_ev(
        le,
        re,
        match (le, re) {
            (Ev::Val(lv), Ev::Val(rv)) => eval_comp_vals(pos, op, lv, rv),
            _ => Ev::Unknown,
        },
    )
}

/// The boolean operators. `NOT` uses only the left operand. `AND` and `OR`
/// evaluate the left operand first and short-circuit on it: when the left
/// operand already decides the outcome, the right operand's effects — its
/// errors included — do not happen.
pub open spec fn eval_bool_ev(pos: Pos, op: BooleanOperator, le: Ev, re: Ev) -> Ev {
    match op {
        BooleanOperator::NOT => match le {
            Ev::Val(Value::Bool(b)) => Ev::Val(Value::Bool(!b)),
            Ev::Val(_) => Ev::Fatal(pos),
            Ev::Div(p) => Ev::Div(p),
            Ev::Fatal(p) => Ev::Fatal(p),
            Ev::Unknown => Ev::Unknown,
        },
        _ => match le {
            Ev::Div(p) => Ev::Div(p),
            Ev::Fatal(p) => Ev::Fatal(p),
            Ev::Unknown => Ev::Unknown,
            Ev::Val(Value::Bool(lb)) => {
                if (op is OR && lb) || (op is AND && !lb) {
                    Ev::Val(Value::Bool(lb))
                } else {
                    match re {
                        Ev::Val(Value::Bool(rb)) => Ev::Val(Value::Bool(rb)),
                        Ev::Val(_) => Ev::Fatal(pos),
                        Ev::Div(p) => Ev::Div(p),
                        Ev::Fatal(p) => Ev::Fatal(p),
                        Ev::Unknown => Ev::Unknown,
                    }
                }
            },
            Ev::Val(_) => Ev::Fatal(pos),
        },
    }
}

/// Casting a value to a primitive target: floating point to integer
/// truncates toward zero (through the embedder); integer to one byte
/// truncates; one byte to integer extends exactly; integer or byte to
/// floating point converts through the embedder. A cast that neither
/// changes nor can make the target type is an invariant violation.
pub open spec fn eval_cast_val(pos: Pos, v: Value, target: TypeData) -> Ev {
    match target {
        TypeData::CHAR => match v {
            Value::Int(x) => Ev::Val(Value::Char(trunc_u8(x))),
            Value::Float(_) => Ev::Unknown,
            _ => Ev::Fatal(pos),
        },
        TypeData::INT => match v {
            Value::Char(c) => Ev::Val(Value::Int(c as i64)),
            Value::Float(_) => Ev::Unknown,
            _ => Ev::Fatal(pos),
        },
        TypeData::FLOAT => match v {
            Value::Char(_) => Ev::Unknown,
            Value::Int(_) => Ev::Unknown,
            _ => Ev::Fatal(pos),
        },
        TypeData::DEF(_) => Ev::Unknown,
        _ => Ev::Fatal(pos),
    }
}

pub open spec fn eval_cast_ev(pos: Pos, le: Ev, target: TypeData) -> Ev {
    match le {
        Ev::Div(p) => Ev::Div(p),
        Ev::Fatal(p) => Ev::Fatal(p),
        Ev::Unknown => Ev::Unknown,
        Ev::Val(v) => eval_cast_val(pos, v, target),
    }
}

/// The right operand of a binary boolean operator; a missing operand is an
/// invariant violation when it is reached.
pub open spec fn eval_opt(r: Option<Box<IRNode>>, pos: Pos) -> Ev
    decreases r,
{
    match r {
        Option::None => Ev::Fatal(pos),
        Option::Some(rb) => eval(*rb),
    }
}

/// The evaluation model: literals are themselves; the expression nodes
/// follow the operator rules above; every other node shape is outside the
/// expression core and evaluates to an invariant violation.
pub open spec fn eval(n: IRNode) -> Ev
    decreases n,
{
    match n.data {
        IRNodeData::Int(v) => Ev::Val(Value::Int(v)),
        IRNodeData::Float(b) => Ev::Val(Value::Float(b)),
        IRNodeData::Char(c) => Ev::Val(Value::Char(c)),
        IRNodeData::Bool(b) => Ev::Val(Value::Bool(b)),
        IRNodeData::Void => Ev::Val(Value::Void),
        IRNodeData::Math(l, op, r) => eval_math_ev(n.pos, op, eval(*l), eval(*r)),
        IRNodeData::Comparison(l, op, r) => eval_comp_ev(n.pos, op, eval(*l), eval(*r)),
        IRNodeData::Boolean(l, op, r) => eval_bool_ev(n.pos, op, eval(*l), eval_opt(r, n.pos)),
        IRNodeData::Cast(a, t) => eval_cast_ev(a.pos, eval(*a), t.data),
        _ => Ev::Fatal(n.pos),
    }
}

/// Whether a value belongs to a (concrete) type tag.
pub open spec fn fits(v: Value, td: TypeData) -> bool {
    match td {
        TypeData::INT => v is Int,
        TypeData::FLOAT => v is Float,
        TypeData::CHAR => v is Char,
        TypeData::BOOL => v is Bool,
        TypeData::VOID => v is Void,
        _ => false,
    }
}

/// Operand tags an arithmetic node may combine.
pub open spec fn math_tags_ok(lt: TypeData, rt: TypeData) -> bool {
    (lt is INT && rt is INT) || (lt is FLOAT && rt is FLOAT) || (lt is CHAR && rt is CHAR)
}

/// Operand tags a comparison may combine: the arithmetic pairs for every
/// operator, booleans only under equality and inequality.
pub open spec fn comp_tags_ok(lt: TypeData, rt: TypeData, op: ComparisonOperator) -> bool {
    math_tags_ok(lt, rt) || (lt is BOOL && rt is BOOL && (op is EQUAL || op is NOTEQUAL))
}

/// Well-typedness of an expression node: what the builder guarantees for
/// every node it hands out, and all the interpreter relies on. Under it,
/// evaluation never runs into an invariant violation of its own making, and
/// a produced value fits the node's static type.
pub open spec fn wf(n: IRNode) -> bool
    decreases n,
{
    match n.data {
        IRNodeData::Int(_) => true,
        IRNodeData::Float(_) => true,
        IRNodeData::Char(_) => true,
        IRNodeData::Bool(_) => true,
        IRNodeData::Void => true,
        IRNodeData::Math(l, _, r) => wf(*l) && wf(*r) && math_tags_ok(
            spec_typ(*l).data,
            spec_typ(*r).data,
        ),
        IRNodeData::Comparison(l, op, r) => wf(*l) && wf(*r) && comp_tags_ok(
            spec_typ(*l).data,
            spec_typ(*r).data,
            op,
        ),
        IRNodeData::Boolean(l, op, r) => wf(*l) && spec_typ(*l).data is BOOL && (match r {
            Option::None => op is NOT,
            Option::Some(rb) => !(op is NOT) && wf(*rb) && spec_typ(*rb).data is BOOL,
        }),
        IRNodeData::Cast(a, t) => wf(*a) && (t.data is CHAR || t.data is INT || t.data is FLOAT)
            && (spec_typ(*a).data is CHAR || spec_typ(*a).data is INT || spec_typ(*a).data
            is FLOAT),
        _ => false,
    }
}

/// The IEEE double-precision operations on bit patterns that the library
/// does not interpret. The embedder — and the tests — implement them with
/// real floating-point arithmetic, which cannot live in the verified
/// library; nothing is assumed about the bits that come back, so every
/// contract above holds for any implementation.
pub trait FloatOps {
    /// The bits of `a op b` under IEEE double arithmetic; for the bitwise
    /// operators, under the documented truncate-to-integer approximation.
    fn arith(&self, op: MathOperator, a: u64, b: u64) -> u64;

    /// The truth of `a op b` under IEEE comparison.
    fn compare(&self, op: ComparisonOperator, a: u64, b: u64) -> bool;

    /// Conversion to an integer, truncating toward zero.
    fn to_int(&self, a: u64) -> i64;

    /// Conversion to one byte, truncating.
    fn to_char(&self, a: u64) -> u8;

    /// The floating-point value of an integer.
    fn of_int(&self, v: i64) -> u64;

    /// The floating-point value of a one-byte value.
    fn of_char(&self, v: u8) -> u64;
}

proof fn lemma_pow_none_sticks(base: i64, k: nat, e: nat)
    requires
        k <= e,
        pow_checked(base, k) is None,
    ensures
        pow_checked(base, e) is None,
    decreases e,
{
    if e > k {
        lemma_pow_none_sticks(base, k, (e - 1) as nat);
    }
}

proof fn lemma_pow_zero(e: nat)
    requires
        e > 0,
    ensures
        pow_checked(0i64, e) == Option::Some(0i64),
    decreases e,
{
    if e == 1 {
        assert(pow_checked(0i64, 0) == Option::Some(1i64));
    } else {
        lemma_pow_zero((e - 1) as nat);
    }
}

proof fn lemma_pow_one(e: nat)
    ensures
        pow_checked(1i64, e) == Option::Some(1i64),
    decreases e,
{
    if e > 0 {
        lemma_pow_one((e - 1) as nat);
    }
}

proof fn lemma_pow_neg_one(e: nat)
    ensures
        pow_checked(-1i64, e) == Option::Some(
            if e % 2 == 0 {
                1i64
            } else {
                -1i64
            },
        ),
    decreases e,
{
    if e > 0 {
        lemma_pow_neg_one((e - 1) as nat);
    }
}

/// Raises an integer to a power by checked multiplication; `None` on
/// overflow. The bases whose powers never grow are computed directly, so
/// the loop runs only while the magnitude grows and stops at the first
/// overflow.
fn int_pow(base: i64, e: u32) -> (r: Option<i64>)
    ensures
        r == pow_checked(base, e as nat),
{
    if base == 0 {
        if e == 0 {
            Option::Some(1)
        } else {
            proof {
                lemma_pow_zero(e as nat);
            }
            Option::Some(0)
        }
    } else if base == 1 {
        proof {
            lemma_pow_one(e as nat);
        }
        Option::Some(1)
    } else if base == -1 {
        proof {
            lemma_pow_neg_one(e as nat);
        }
        if e % 2 == 0 {
            Option::Some(1)
        } else {
            Option::Some(-1)
        }
    } else {
        let mut acc: i64 = 1;
        let mut i: u32 = 0;
        while i < e
            invariant
                i <= e,
                pow_checked(base, i as nat) == Option::Some(acc),
            decreases e - i,
        {
            match acc.checked_mul(base) {
                Option::Some(v) => {
                    acc = v;
                },
                Option::None => {
                    proof {
                        lemma_pow_none_sticks(base, (i + 1) as nat, e as nat);
                    }
                    return Option::None;
                },
            }
            i = i + 1;
        }
        Option::Some(acc)
    }
}

/// Raises a one-byte value to a power by wrapping multiplication.
fn char_pow(base: u8, e: u8) -> (r: u8)
    ensures
        r == pow_wrap(base, e as nat),
{
    let mut acc: u8 = 1;
    let mut i: u8 = 0;
    while i < e
        invariant
            i <= e,
            acc == pow_wrap(base, i as nat),
        decreases e - i,
    {
        acc = acc.wrapping_mul(base);
        i = i + 1;
    }
    acc
}

/// The tree-walking interpreter: the built context (to resolve type
/// references met in casts) and the embedder's floating-point operations.
pub struct Interp<F: FloatOps> {
    pub ir: IR,
    pub ops: F,
}

impl<F: FloatOps> Interp<F> {
    pub fn new(ir: IR, ops: F) -> (r: Self)
        ensures
            r.ir == ir,
    {
        Interp { ir, ops }
    }

    /// Arithmetic on two already evaluated operands.
    fn math_values(&self, pos: Pos, op: MathOperator, lv: Value, rv: Value) -> (r: Result<
        Value,
        InterpError,
    >)
        ensures
            res_matches(r, eval_math_vals(pos, op, lv, rv)),
            r matches Ok(v) ==> ((lv is Int ==> v is Int) && (lv is Float ==> v is Float) && (
            lv is Char ==> v is Char)),
            lv is Float ==> (rv matches Value::Float(b) ==> (!((op is DIVIDE || op is MODULO)
                && float_bits_zero(b)) ==> r is Ok)),
    {
        match (lv, rv) {
            (Value::Int(a), Value::Int(b)) => match op {
                MathOperator::ADD => Ok(Value::Int(a.wrapping_add(b))),
                MathOperator::SUBTRACT => match a.checked_sub(b) {
                    Option::Some(v) => Ok(Value::Int(v)),
                    Option::None => Err(InterpError::Internal(pos)),
                },
                MathOperator::MULTIPLY => Ok(Value::Int(a.wrapping_mul(b))),
                MathOperator::DIVIDE => {
                    if b == 0 {
                        return Err(InterpError::DivideByZero(pos));
                    }
                    match a.checked_div(b) {
                        Option::Some(v) => Ok(Value::Int(v)),
                        Option::None => Err(InterpError::Internal(pos)),
                    }
                },
                MathOperator::MODULO => {
                    if b == 0 {
                        return Err(InterpError::DivideByZero(pos));
                    }
                    match a.checked_rem(b) {
                        Option::Some(v) => Ok(Value::Int(v)),
                        Option::None => Err(InterpError::Internal(pos)),
                    }
                },
                MathOperator::POWER => {
                    let e = #[verifier::truncate] (b as u32);
                    match int_pow(a, e) {
                        Option::Some(v) => Ok(Value::Int(v)),
                        Option::None => Err(InterpError::Internal(pos)),
                    }
                },
                MathOperator::XOR => Ok(Value::Int(a ^ b)),
                MathOperator::SHIFT => {
                    let e = #[verifier::truncate] (b as u32);
                    Ok(Value::Int(a.wrapping_shl(e)))
                },
                MathOperator::BOR => Ok(Value::Int(a | b)),
            },
            (Value::Float(a), Value::Float(b)) => match op {
                MathOperator::DIVIDE | MathOperator::MODULO => {
                    if b == 0u64 || b == 0x8000_0000_0000_0000u64 {
                        return Err(InterpError::DivideByZero(pos));
                    }
                    Ok(Value::Float(self.ops.arith(op, a, b)))
                },
                _ => Ok(Value::Float(self.ops.arith(op, a, b))),
            },
            (Value::Char(a), Value::Char(b)) => match op {
                MathOperator::ADD => Ok(Value::Char(a.wrapping_add(b))),
                MathOperator::SUBTRACT => Ok(Value::Char(a.wrapping_sub(b))),
                MathOperator::MULTIPLY => Ok(Value::Char(a.wrapping_mul(b))),
                MathOperator::DIVIDE => {
                    if b == 0 {
                        return Err(InterpError::DivideByZero(pos));
                    }
                    Ok(Value::Char(a / b))
                },
                MathOperator::MODULO => {
                    if b == 0 {
                        return Err(InterpError::DivideByZero(pos));
                    }
                    Ok(Value::Char(a % b))
                },
                MathOperator::POWER => Ok(Value::Char(char_pow(a, b))),
                MathOperator::XOR => Ok(Value::Char(a ^ b)),
                MathOperator::SHIFT => Ok(Value::Char(a.wrapping_shl(b as u32))),
                MathOperator::BOR => Ok(Value::Char(a | b)),
            },
            _ => Err(InterpError::Internal(pos)),
        }
    }

    /// Comparison of two already evaluated operands.
    fn comp_values(&self, pos: Pos, op: ComparisonOperator, lv: Value, rv: Value) -> (r: Result<
        Value,
        InterpError,
    >)
        ensures
            res_matches(r, eval_comp_vals(pos, op, lv, rv)),
            r matches Ok(v) ==> v is Bool,
            lv is Float && rv is Float ==> r is Ok,
    {
        match (lv, rv) {
            (Value::Char(a), Value::Char(b)) => match op {
                ComparisonOperator::GREATER => Ok(Value::Bool(a > b)),
                ComparisonOperator::LESS => Ok(Value::Bool(a < b)),
                ComparisonOperator::GREATEREQUAL => Ok(Value::Bool(a >= b)),
                ComparisonOperator::LESSEQUAL => Ok(Value::Bool(a <= b)),
                ComparisonOperator::EQUAL => Ok(Value::Bool(a == b)),
                ComparisonOperator::NOTEQUAL => Ok(Value::Bool(a != b)),
            },
            (Value::Int(a), Value::Int(b)) => match op {
                ComparisonOperator::GREATER => Ok(Value::Bool(a > b)),
                ComparisonOperator::LESS => Ok(Value::Bool(a < b)),
                ComparisonOperator::GREATEREQUAL => Ok(Value::Bool(a >= b)),
                ComparisonOperator::LESSEQUAL => Ok(Value::Bool(a <= b)),
                ComparisonOperator::EQUAL => Ok(Value::Bool(a == b)),
                ComparisonOperator::NOTEQUAL => Ok(Value::Bool(a != b)),
            },
            (Value::Float(a), Value::Float(b)) => Ok(Value::Bool(self.ops.compare(op, a, b))),
            (Value::Bool(a), Value::Bool(b)) => match op {
                ComparisonOperator::EQUAL => Ok(Value::Bool(a == b)),
                ComparisonOperator::NOTEQUAL => Ok(Value::Bool(a != b)),
                _ => Err(InterpError::Internal(pos)),
            },
            _ => Err(InterpError::Internal(pos)),
        }
    }

    /// Evaluates an expression node. The contract: where the model is exact —
    /// everywhere no floating-point arithmetic is involved — the result is
    /// exactly the model's value or error; and on a well-typed node a
    /// produced value fits the node's static type, whatever the embedder's
    /// floating-point operations do.
    pub fn exec(&self, n: &IRNode) -> (r: Result<Value, InterpError>)
        ensures
            res_matches(r, eval(*n)),
            wf(*n) ==> (r matches Ok(v) ==> fits(v, spec_typ(*n).data)),
        decreases *n,
    {
        match &n.data {
            IRNodeData::Int(v) => Ok(Value::Int(*v)),
            IRNodeData::Float(b) => Ok(Value::Float(*b)),
            IRNodeData::Char(c) => Ok(Value::Char(*c)),
            IRNodeData::Bool(b) => Ok(Value::Bool(*b)),
            IRNodeData::Void => Ok(Value::Void),
            IRNodeData::Math(l, op, r2) => {
                let lv = match self.exec(l) {
                    Ok(v) => v,
                    Err(e) => return Err(e),
                };
                let rv = match self.exec(r2) {
                    Ok(v) => v,
                    Err(e) => return Err(e),
                };
                self.math_values(n.pos, *op, lv, rv)
            },
            IRNodeData::Comparison(l, op, r2) => {
                let lv = match self.exec(l) {
                    Ok(v) => v,
                    Err(e) => return Err(e),
                };
                let rv = match self.exec(r2) {
                    Ok(v) => v,
                    Err(e) => return Err(e),
                };
                self.comp_values(n.pos, *op, lv, rv)
            },
            IRNodeData::Boolean(l, op, r2) => {
                proof {
                    assert(eval(*n) == eval_bool_ev(n.pos, *op, eval(**l), eval_opt(*r2, n.pos)));
                }
                let lv = match self.exec(l) {
                    Ok(v) => v,
                    Err(e) => return Err(e),
                };
                if *op == BooleanOperator::NOT {
                    match lv {
                        Value::Bool(b) => Ok(Value::Bool(!b)),
                        _ => Err(InterpError::Internal(n.pos)),
                    }
                } else {
                    let lb = match lv {
                        Value::Bool(b) => b,
                        _ => return Err(InterpError::Internal(n.pos)),
                    };
                    if (*op == BooleanOperator::OR && lb) || (*op == BooleanOperator::AND && !lb) {
                        return Ok(Value::Bool(lb));
                    }
                    match r2 {
                        Option::None => Err(InterpError::Internal(n.pos)),
                        Option::Some(rb) => {
                            let rv = match self.exec(rb) {
                                Ok(v) => v,
                                Err(e) => return Err(e),
                            };
                            match rv {
                                Value::Bool(b) => Ok(Value::Bool(b)),
                                _ => Err(InterpError::Internal(n.pos)),
                            }
                        },
                    }
                }
            },
            IRNodeData::Cast(a, t) => {
                let av = match self.exec(a) {
                    Ok(v) => v,
                    Err(e) => return Err(e),
                };
                self.cast_value(a.pos, av, t)
            },
            _ => Err(InterpError::Internal(n.pos)),
        }
    }

    /// Casts an already evaluated value to the target type, resolving a
    /// definition reference through the build context first.
    fn cast_value(&self, pos: Pos, av: Value, target: &crate::types::Type) -> (r: Result<
        Value,
        InterpError,
    >)
        ensures
            res_matches(r, eval_cast_val(pos, av, target.data)),
            r matches Ok(v) ==> ((target.data is CHAR ==> v is Char) && (target.data is INT
                ==> v is Int) && (target.data is FLOAT ==> v is Float)),
            av is Float && (target.data is INT || target.data is CHAR) ==> r is Ok,
            (av is Int || av is Char) && target.data is FLOAT ==> r is Ok,
    {
        let td = target.data.concrete(&self.ir);
        proof {
            lemma_concrete_idempotent(target.data, self.ir.types@);
        }
        match td {
            TypeData::CHAR => match av {
                Value::Int(x) => Ok(Value::Char(#[verifier::truncate] (x as u8))),
                Value::Float(f) => Ok(Value::Char(self.ops.to_char(f))),
                _ => Err(InterpError::Internal(pos)),
            },
            TypeData::INT => match av {
                Value::Char(c) => Ok(Value::Int(c as i64)),
                Value::Float(f) => Ok(Value::Int(self.ops.to_int(f))),
                _ => Err(InterpError::Internal(pos)),
            },
            TypeData::FLOAT => match av {
                Value::Char(c) => Ok(Value::Float(self.ops.of_char(c))),
                Value::Int(x) => Ok(Value::Float(self.ops.of_int(x))),
                _ => Err(InterpError::Internal(pos)),
            },
            _ => Err(InterpError::Internal(pos)),
        }
    }

    /// Evaluates a boolean operation over its operand nodes: `NOT` uses the
    /// left operand only; `AND` and `OR` evaluate the left operand and
    /// short-circuit without touching the right one when it already decides.
    pub fn exec_boolop(&self, pos: Pos, op: BooleanOperator, left: &IRNode, right: &Option<
        Box<IRNode>,
    >) -> (r: Result<Value, InterpError>)
        ensures
            res_matches(r, eval_bool_ev(pos, op, eval(*left), eval_opt(*right, pos))),
            r matches Ok(v) ==> v is Bool,
    {
        let lv = match self.exec(left) {
            Ok(v) => v,
            Err(e) => return Err(e),
        };
        if op == BooleanOperator::NOT {
            match lv {
                Value::Bool(b) => Ok(Value::Bool(!b)),
                _ => Err(InterpError::Internal(pos)),
            }
        } else {
            let lb = match lv {
                Value::Bool(b) => b,
                _ => return Err(InterpError::Internal(pos)),
            };
            if (op == BooleanOperator::OR && lb) || (op == BooleanOperator::AND && !lb) {
                return Ok(Value::Bool(lb));
            }
            match right {
                Option::None => Err(InterpError::Internal(pos)),
                Option::Some(rb) => {
                    let rv = match self.exec(rb) {
                        Ok(v) => v,
                        Err(e) => return Err(e),
                    };
                    match rv {
                        Value::Bool(b) => Ok(Value::Bool(b)),
                        _ => Err(InterpError::Internal(pos)),
                    }
                },
            }
        }
    }

    /// Evaluates a comparison over its operand nodes, left before right.
    pub fn exec_comp(&self, pos: Pos, op: ComparisonOperator, left: &IRNode, right: &IRNode) -> (r:
        Result<Value, InterpError>)
        ensures
            res_matches(r, eval_comp_ev(pos, op, eval(*left), eval(*right))),
            r matches Ok(v) ==> v is Bool,
            eval(*left) matches Ev::Val(lv) ==> (lv is Float ==> (eval(*right) matches Ev::Val(
                rv,
            ) ==> (rv is Float ==> r is Ok))),
    {
        let lv = match self.exec(left) {
            Ok(v) => v,
            Err(e) => return Err(e),
        };
        let rv = match self.exec(right) {
            Ok(v) => v,
            Err(e) => return Err(e),
        };
        self.comp_values(pos, op, lv, rv)
    }

    /// Evaluates an arithmetic operation over its operand nodes, left before
    /// right: wrapping add and multiply, trapping subtract, divide and
    /// modulo with a reported division by zero, power, and the bitwise
    /// operators — per operand type as the model above states.
    pub fn exec_math(&self, pos: Pos, op: MathOperator, left: &IRNode, right: &IRNode) -> (r:
        Result<Value, InterpError>)
        ensures
            res_matches(r, eval_math_ev(pos, op, eval(*left), eval(*right))),
            wf(*left) && wf(*right) && math_tags_ok(spec_typ(*left).data, spec_typ(*right).data)
                ==> (r matches Ok(v) ==> fits(v, spec_typ(*left).data)),
            eval(*left) matches Ev::Val(lv) ==> (lv is Float ==> (eval(*right) matches Ev::Val(
                rv,
            ) ==> (rv matches Value::Float(b) ==> (!((op is DIVIDE || op is MODULO)
                && float_bits_zero(b)) ==> (r matches Ok(v) && v is Float))))),
    {
        let lv = match self.exec(left) {
            Ok(v) => v,
            Err(e) => return Err(e),
        };
        let rv = match self.exec(right) {
            Ok(v) => v,
            Err(e) => return Err(e),
        };
        self.math_values(pos, op, lv, rv)
    }

    /// Evaluates a cast of the argument node to the target type.
    pub fn exec_cast(&self, arg: &IRNode, target: &crate::types::Type) -> (r: Result<
        Value,
        InterpError,
    >)
        ensures
            res_matches(r, eval_cast_ev(arg.pos, eval(*arg), target.data)),
            r matches Ok(v) ==> ((target.data is CHAR ==> v is Char) && (target.data is INT
                ==> v is Int) && (target.data is FLOAT ==> v is Float)),
            eval(*arg) matches Ev::Val(av) ==> (av is Float && (target.data is INT
                || target.data is CHAR) ==> r is Ok),
            eval(*arg) matches Ev::Val(av) ==> ((av is Int || av is Char) && target.data
                is FLOAT ==> r is Ok),
    {
        let av = match self.exec(arg) {
            Ok(v) => v,
            Err(e) => return Err(e),
        };
        self.cast_value(arg.pos, av, target)
    }
}

} // verus!
