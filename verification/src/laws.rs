use vstd::prelude::*;

use crate::ast::Pos;
use crate::interp::{Ev, Value, eval, float_bits_zero, trunc_u8};
use crate::ir::{
    BooleanOperator, ComparisonOperator, IRNode, IRNodeData, MathOperator, field_declared,
    field_lookup,
};
use crate::stack::{Scope, lookup, spec_resolve};
use crate::types::{Field, Type, TypeData};

verus! {

pub open spec fn int_lit(v: i64, p: Pos) -> IRNode {
    IRNode { data: IRNodeData::Int(v), pos: p }
}

pub open spec fn float_lit(b: u64, p: Pos) -> IRNode {
    IRNode { data: IRNodeData::Float(b), pos: p }
}

pub open spec fn bool_lit(b: bool, p: Pos) -> IRNode {
    IRNode { data: IRNodeData::Bool(b), pos: p }
}

/// The literal node carrying a given primitive value.
pub open spec fn lit(v: Value, p: Pos) -> IRNode {
    match v {
        Value::Int(x) => IRNode { data: IRNodeData::Int(x), pos: p },
        Value::Float(x) => IRNode { data: IRNodeData::Float(x), pos: p },
        Value::Bool(x) => IRNode { data: IRNodeData::Bool(x), pos: p },
        Value::Char(x) => IRNode { data: IRNodeData::Char(x), pos: p },
        Value::Void => IRNode { data: IRNodeData::Void, pos: p },
    }
}

pub open spec fn math2(l: IRNode, op: MathOperator, r: IRNode, p: Pos) -> IRNode {
    IRNode { data: IRNodeData::Math(Box::new(l), op, Box::new(r)), pos: p }
}

pub open spec fn comp2(l: IRNode, op: ComparisonOperator, r: IRNode, p: Pos) -> IRNode {
    IRNode { data: IRNodeData::Comparison(Box::new(l), op, Box::new(r)), pos: p }
}

pub open spec fn bool2(l: IRNode, op: BooleanOperator, r: IRNode, p: Pos) -> IRNode {
    IRNode { data: IRNodeData::Boolean(Box::new(l), op, Some(Box::new(r))), pos: p }
}

pub open spec fn cast_to(v: IRNode, t: TypeData, p: Pos) -> IRNode {
    IRNode { data: IRNodeData::Cast(Box::new(v), Type { data: t }), pos: p }
}

/// Integer add and multiply never abort: for every pair of operands they
/// evaluate to the two's-complement wraparound result. Integer divide and
/// modulo by zero evaluate to the positioned division-by-zero error, never
/// to a crash; a floating-point divisor whose bits are a zero does the same.
pub proof fn law_math_totality(a: i64, b: i64, x: u64, z: u64, p: Pos, lp: Pos, rp: Pos)
    ensures
        eval(math2(int_lit(a, lp), MathOperator::ADD, int_lit(b, rp), p)) == Ev::Val(
            Value::Int(a.wrapping_add(b)),
        ),
        eval(math2(int_lit(a, lp), MathOperator::MULTIPLY, int_lit(b, rp), p)) == Ev::Val(
            Value::Int(a.wrapping_mul(b)),
        ),
        eval(math2(int_lit(a, lp), MathOperator::DIVIDE, int_lit(0, rp), p)) == Ev::Div(p),
        eval(math2(int_lit(a, lp), MathOperator::MODULO, int_lit(0, rp), p)) == Ev::Div(p),
        float_bits_zero(z) ==> eval(
            math2(float_lit(x, lp), MathOperator::DIVIDE, float_lit(z, rp), p),
        ) == Ev::Div(p),
        float_bits_zero(z) ==> eval(
            math2(float_lit(x, lp), MathOperator::MODULO, float_lit(z, rp), p),
        ) == Ev::Div(p),
{
    assert(eval(int_lit(a, lp)) == Ev::Val(Value::Int(a)));
    assert(eval(int_lit(b, rp)) == Ev::Val(Value::Int(b)));
    assert(eval(int_lit(0, rp)) == Ev::Val(Value::Int(0)));
    assert(eval(float_lit(x, lp)) == Ev::Val(Value::Float(x)));
    assert(eval(float_lit(z, rp)) == Ev::Val(Value::Float(z)));
}

/// Boolean short-circuit: `false AND x` evaluates to false and `true OR x`
/// to true for every right operand `x` — whatever `x` would do, errors
/// included, it is not evaluated. `NOT` negates its operand.
pub proof fn law_short_circuit(x: IRNode, b: bool, p: Pos, lp: Pos)
    ensures
        eval(bool2(bool_lit(false, lp), BooleanOperator::AND, x, p)) == Ev::Val(
            Value::Bool(false),
        ),
        eval(bool2(bool_lit(true, lp), BooleanOperator::OR, x, p)) == Ev::Val(Value::Bool(true)),
        eval(
            IRNode {
                data: IRNodeData::Boolean(Box::new(bool_lit(b, lp)), BooleanOperator::NOT, None),
                pos: p,
            },
        ) == Ev::Val(Value::Bool(!b)),
{
    assert(eval(bool_lit(false, lp)) == Ev::Val(Value::Bool(false)));
    assert(eval(bool_lit(true, lp)) == Ev::Val(Value::Bool(true)));
    assert(eval(bool_lit(b, lp)) == Ev::Val(Value::Bool(b)));
}

/// `EQUAL` is reflexive and `NOTEQUAL` irreflexive on the integer, one-byte
/// and boolean primitives. (A floating-point value is excluded: its
/// comparison belongs to the embedder, and under IEEE rules a NaN is not
/// even equal to itself.)
pub proof fn law_comparison_reflexivity(v: Value, p: Pos, lp: Pos, rp: Pos)
    requires
        v is Int || v is Char || v is Bool,
    ensures
        eval(comp2(lit(v, lp), ComparisonOperator::EQUAL, lit(v, rp), p)) == Ev::Val(
            Value::Bool(true),
        ),
        eval(comp2(lit(v, lp), ComparisonOperator::NOTEQUAL, lit(v, rp), p)) == Ev::Val(
            Value::Bool(false),
        ),
{
    assert(eval(lit(v, lp)) == Ev::Val(v));
    assert(eval(lit(v, rp)) == Ev::Val(v));
}

/// Casting an integer to one byte and back round-trips whenever the value
/// fits in the byte.
pub proof fn law_char_roundtrip(v: i64, p1: Pos, p2: Pos, p3: Pos)
    requires
        0 <= v <= 255,
    ensures
        eval(cast_to(cast_to(int_lit(v, p1), TypeData::CHAR, p2), TypeData::INT, p3)) == Ev::Val(
            Value::Int(v),
        ),
{
    assert((0 <= v && v <= 255) ==> (v as u8) as i64 == v) by (bit_vector);
    assert(trunc_u8(v) == v as u8);
    assert(eval(int_lit(v, p1)) == Ev::Val(Value::Int(v)));
    assert(eval(cast_to(int_lit(v, p1), TypeData::CHAR, p2)) == Ev::Val(
        Value::Char(trunc_u8(v)),
    ));
}

/// Looking a declared field up in a struct type yields exactly its declared
/// type: the first field of that name, in declaration order.
pub proof fn law_field_lookup(fields: Seq<Field>, i: int)
    requires
        0 <= i < fields.len(),
        forall|j: int| 0 <= j < i ==> (#[trigger] fields[j]).name@ != fields[i].name@,
    ensures
        field_lookup(fields, fields[i].name@) == fields[i].typ,
    decreases fields,
{
    if i > 0 {
        law_field_lookup(fields.drop_first(), i - 1);
        assert(fields.drop_first()[i - 1] == fields[i]);
        assert forall|j: int| 0 <= j < i - 1 implies (#[trigger] fields.drop_first()[j]).name@
            != fields.drop_first()[i - 1].name@ by {
            assert(fields.drop_first()[j] == fields[j + 1]);
        }
    }
}

/// A field name nobody declared never resolves to a type: the lookup falls
/// through to the `INVALID` sentinel, which the builder rejects — an
/// undeclared field can never reach the interpreter.
pub proof fn law_field_lookup_absent(fields: Seq<Field>, name: Seq<char>)
    requires
        !field_declared(fields, name),
    ensures
        field_lookup(fields, name) == (Type { data: TypeData::INVALID }),
    decreases fields,
{
    if fields.len() > 0 {
        law_field_lookup_absent(fields.drop_first(), name);
    }
}

/// Shadowing, inward: while a scope that binds a name is the innermost open
/// one, the name resolves to that scope's binding, whatever outer scopes
/// say.
pub proof fn law_shadowing_inner(
    scopes: Seq<Scope>,
    stack: Seq<usize>,
    name: Seq<char>,
    idx: usize,
)
    requires
        stack.len() >= 1,
        stack.last() < scopes.len(),
        lookup(scopes[stack.last() as int].vars@, name) == Some(idx),
    ensures
        spec_resolve(scopes, stack, name, false) == Some(idx),
{
}

/// Shadowing, outward: once the innermost scope is closed — or never bound
/// the name — resolution is exactly what the remaining outer scopes say, so
/// the outer binding is visible again.
pub proof fn law_shadowing_outer(scopes: Seq<Scope>, stack: Seq<usize>, name: Seq<char>)
    requires
        stack.len() >= 1,
        stack.last() < scopes.len(),
        lookup(scopes[stack.last() as int].vars@, name) is None,
    ensures
        spec_resolve(scopes, stack, name, false) == spec_resolve(
            scopes,
            stack.drop_last(),
            name,
            false,
        ),
{
}

} // verus!
