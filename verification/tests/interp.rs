use bsharp_core::ast::Pos;
use bsharp_core::interp::{FloatOps, Interp, InterpError, Value};
use bsharp_core::ir::{BooleanOperator, ComparisonOperator, IRNode, IRNodeData, MathOperator};
use bsharp_core::stack::{FSet, IR};
use bsharp_core::types::{Type, TypeData};

/// IEEE double-precision operations on bit patterns, the embedder side of
/// the interpreter's `FloatOps` boundary.
struct Ieee;

impl FloatOps for Ieee {
    fn arith(&self, op: MathOperator, a: u64, b: u64) -> u64 {
        let x = f64::from_bits(a);
        let y = f64::from_bits(b);
        let r = match op {
            MathOperator::ADD => x + y,
            MathOperator::SUBTRACT => x - y,
            MathOperator::MULTIPLY => x * y,
            MathOperator::DIVIDE => x / y,
            MathOperator::MODULO => x % y,
            MathOperator::POWER => x.powf(y),
            MathOperator::XOR => ((x as i64) ^ (y as i64)) as f64,
            MathOperator::SHIFT => (((x as i64) << ((y as i64) & 63)) as f64),
            MathOperator::BOR => ((x as i64) | (y as i64)) as f64,
        };
        r.to_bits()
    }

    fn compare(&self, op: ComparisonOperator, a: u64, b: u64) -> bool {
        let x = f64::from_bits(a);
        let y = f64::from_bits(b);
        match op {
            ComparisonOperator::EQUAL => x == y,
            ComparisonOperator::NOTEQUAL => x != y,
            ComparisonOperator::GREATER => x > y,
            ComparisonOperator::LESS => x < y,
            ComparisonOperator::GREATEREQUAL => x >= y,
            ComparisonOperator::LESSEQUAL => x <= y,
        }
    }

    fn to_int(&self, a: u64) -> i64 {
        f64::from_bits(a) as i64
    }

    fn to_char(&self, a: u64) -> u8 {
        f64::from_bits(a) as u8
    }

    fn of_int(&self, v: i64) -> u64 {
        (v as f64).to_bits()
    }

    fn of_char(&self, v: u8) -> u64 {
        (v as f64).to_bits()
    }
}

fn interp() -> Interp<Ieee> {
    Interp::new(IR::new(FSet::new()), Ieee)
}

fn int_node(v: i64) -> IRNode {
    IRNode::new(IRNodeData::Int(v), Pos::origin())
}

fn float_node(v: f64) -> IRNode {
    IRNode::new(IRNodeData::Float(v.to_bits()), Pos::origin())
}

fn char_node(v: u8) -> IRNode {
    IRNode::new(IRNodeData::Char(v), Pos::origin())
}

fn bool_node(v: bool) -> IRNode {
    IRNode::new(IRNodeData::Bool(v), Pos::origin())
}

fn math(l: IRNode, op: MathOperator, r: IRNode) -> IRNode {
    IRNode::new(IRNodeData::Math(Box::new(l), op, Box::new(r)), Pos::origin())
}

fn comp(l: IRNode, op: ComparisonOperator, r: IRNode) -> IRNode {
    IRNode::new(IRNodeData::Comparison(Box::new(l), op, Box::new(r)), Pos::origin())
}

#[test]
fn int_add_wraps_at_max() {
    let it = interp();
    let n = math(int_node(i64::MAX), MathOperator::ADD, int_node(1));
    assert_eq!(it.exec(&n), Ok(Value::Int(i64::MIN)));
}

#[test]
fn int_multiply_wraps() {
    let it = interp();
    let n = math(int_node(i64::MAX), MathOperator::MULTIPLY, int_node(2));
    assert_eq!(it.exec(&n), Ok(Value::Int(-2)));
}

#[test]
fn int_divide_by_zero_reports() {
    let it = interp();
    let n = math(int_node(5), MathOperator::DIVIDE, int_node(0));
    assert_eq!(it.exec(&n), Err(InterpError::DivideByZero(Pos::origin())));
}

#[test]
fn int_modulo_by_zero_reports() {
    let it = interp();
    let n = math(int_node(5), MathOperator::MODULO, int_node(0));
    assert_eq!(it.exec(&n), Err(InterpError::DivideByZero(Pos::origin())));
}

#[test]
fn float_divide_by_zero_reports() {
    let it = interp();
    let n = math(float_node(1.5), MathOperator::DIVIDE, float_node(0.0));
    assert_eq!(it.exec(&n), Err(InterpError::DivideByZero(Pos::origin())));
    let n2 = math(float_node(1.5), MathOperator::DIVIDE, float_node(-0.0));
    assert_eq!(it.exec(&n2), Err(InterpError::DivideByZero(Pos::origin())));
}

#[test]
fn float_arithmetic_through_embedder() {
    let it = interp();
    let n = math(float_node(1.5), MathOperator::ADD, float_node(2.25));
    assert_eq!(it.exec(&n), Ok(Value::Float(3.75f64.to_bits())));
}

#[test]
fn int_division_truncates() {
    let it = interp();
    let n = math(int_node(-7), MathOperator::DIVIDE, int_node(2));
    assert_eq!(it.exec(&n), Ok(Value::Int(-3)));
}

#[test]
fn int_power() {
    let it = interp();
    let n = math(int_node(2), MathOperator::POWER, int_node(10));
    assert_eq!(it.exec(&n), Ok(Value::Int(1024)));
}

#[test]
fn int_power_overflow_is_loud() {
    let it = interp();
    let n = math(int_node(2), MathOperator::POWER, int_node(64));
    assert_eq!(it.exec(&n), Err(InterpError::Internal(Pos::origin())));
}

#[test]
fn int_bitwise() {
    let it = interp();
    assert_eq!(
        it.exec(&math(int_node(0b1100), MathOperator::XOR, int_node(0b1010))),
        Ok(Value::Int(0b0110))
    );
    assert_eq!(
        it.exec(&math(int_node(0b1100), MathOperator::BOR, int_node(0b1010))),
        Ok(Value::Int(0b1110))
    );
    assert_eq!(
        it.exec(&math(int_node(1), MathOperator::SHIFT, int_node(4))),
        Ok(Value::Int(16))
    );
}

#[test]
fn char_arithmetic_wraps() {
    let it = interp();
    let n = math(char_node(200), MathOperator::ADD, char_node(100));
    assert_eq!(it.exec(&n), Ok(Value::Char(44)));
    let s = math(char_node(3), MathOperator::SUBTRACT, char_node(5));
    assert_eq!(it.exec(&s), Ok(Value::Char(254)));
}

#[test]
fn char_divide_by_zero_reports() {
    let it = interp();
    let n = math(char_node(9), MathOperator::DIVIDE, char_node(0));
    assert_eq!(it.exec(&n), Err(InterpError::DivideByZero(Pos::origin())));
}

#[test]
fn and_short_circuits_past_division_by_zero() {
    let it = interp();
    let bad = math(int_node(1), MathOperator::DIVIDE, int_node(0));
    let r = it.exec_boolop(
        Pos::origin(),
        BooleanOperator::AND,
        &bool_node(false),
        &Some(Box::new(bad)),
    );
    assert_eq!(r, Ok(Value::Bool(false)));
}

#[test]
fn or_short_circuits_past_division_by_zero() {
    let it = interp();
    let bad = math(int_node(1), MathOperator::DIVIDE, int_node(0));
    let r = it.exec_boolop(
        Pos::origin(),
        BooleanOperator::OR,
        &bool_node(true),
        &Some(Box::new(bad)),
    );
    assert_eq!(r, Ok(Value::Bool(true)));
}

#[test]
fn not_true_is_false() {
    let it = interp();
    let r = it.exec_boolop(Pos::origin(), BooleanOperator::NOT, &bool_node(true), &None);
    assert_eq!(r, Ok(Value::Bool(false)));
}

#[test]
fn and_evaluates_right_when_needed() {
    let it = interp();
    let r = it.exec_boolop(
        Pos::origin(),
        BooleanOperator::AND,
        &bool_node(true),
        &Some(Box::new(bool_node(false))),
    );
    assert_eq!(r, Ok(Value::Bool(false)));
}

#[test]
fn equal_is_reflexive() {
    let it = interp();
    assert_eq!(
        it.exec(&comp(int_node(42), ComparisonOperator::EQUAL, int_node(42))),
        Ok(Value::Bool(true))
    );
    assert_eq!(
        it.exec(&comp(char_node(7), ComparisonOperator::EQUAL, char_node(7))),
        Ok(Value::Bool(true))
    );
    assert_eq!(
        it.exec(&comp(bool_node(true), ComparisonOperator::EQUAL, bool_node(true))),
        Ok(Value::Bool(true))
    );
    assert_eq!(
        it.exec(&comp(float_node(2.5), ComparisonOperator::EQUAL, float_node(2.5))),
        Ok(Value::Bool(true))
    );
}

#[test]
fn notequal_is_irreflexive() {
    let it = interp();
    assert_eq!(
        it.exec(&comp(int_node(42), ComparisonOperator::NOTEQUAL, int_node(42))),
        Ok(Value::Bool(false))
    );
    assert_eq!(
        it.exec(&comp(char_node(7), ComparisonOperator::NOTEQUAL, char_node(7))),
        Ok(Value::Bool(false))
    );
    assert_eq!(
        it.exec(&comp(bool_node(false), ComparisonOperator::NOTEQUAL, bool_node(false))),
        Ok(Value::Bool(false))
    );
    assert_eq!(
        it.exec(&comp(float_node(2.5), ComparisonOperator::NOTEQUAL, float_node(2.5))),
        Ok(Value::Bool(false))
    );
}

#[test]
fn ordering_compares() {
    let it = interp();
    assert_eq!(
        it.exec(&comp(int_node(3), ComparisonOperator::LESS, int_node(4))),
        Ok(Value::Bool(true))
    );
    assert_eq!(
        it.exec(&comp(float_node(3.5), ComparisonOperator::GREATER, float_node(4.5))),
        Ok(Value::Bool(false))
    );
}

#[test]
fn cast_float_to_int_truncates_toward_zero() {
    let it = interp();
    let r = it.exec_cast(&float_node(3.7), &Type { data: TypeData::INT });
    assert_eq!(r, Ok(Value::Int(3)));
    let r2 = it.exec_cast(&float_node(-3.7), &Type { data: TypeData::INT });
    assert_eq!(r2, Ok(Value::Int(-3)));
}

#[test]
fn cast_int_char_round_trips_in_byte_range() {
    let it = interp();
    let to_char = IRNode::new(
        IRNodeData::Cast(Box::new(int_node(65)), Type { data: TypeData::CHAR }),
        Pos::origin(),
    );
    let r = it.exec_cast(&to_char, &Type { data: TypeData::INT });
    assert_eq!(r, Ok(Value::Int(65)));
}

#[test]
fn cast_int_to_float_and_back() {
    let it = interp();
    let to_float = IRNode::new(
        IRNodeData::Cast(Box::new(int_node(12)), Type { data: TypeData::FLOAT }),
        Pos::origin(),
    );
    let r = it.exec_cast(&to_float, &Type { data: TypeData::INT });
    assert_eq!(r, Ok(Value::Int(12)));
}

#[test]
fn type_mismatch_is_loud_not_silent() {
    let it = interp();
    let n = math(int_node(1), MathOperator::ADD, bool_node(true));
    assert_eq!(it.exec(&n), Err(InterpError::Internal(Pos::origin())));
}
