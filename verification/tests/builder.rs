use bsharp_core::ast::{ASTNode, ASTNodeData, Pos};
use bsharp_core::errors::{FSetError, IRError};
use bsharp_core::fns::typs::partition_members;
use bsharp_core::interp::{FloatOps, Interp, InterpError, Value};
use bsharp_core::ir::{ComparisonOperator, IRNode, IRNodeData, MathOperator};
use bsharp_core::stack::{FSet, IR, ScopeKind, SourceFile};
use bsharp_core::types::{Field, Generic, Type, TypeData};

struct Ieee;

impl FloatOps for Ieee {
    fn arith(&self, op: MathOperator, a: u64, b: u64) -> u64 {
        let x = f64::from_bits(a);
        let y = f64::from_bits(b);
        let r = match op {
            MathOperator::ADD => x + y,
            MathOperator::SUBTRACT => x - y,
            MathOperator::MULTIPLY => x * y,
            MathOperator::DIVIDE => x / y,
            MathOperator::MODULO => x % y,
            MathOperator::POWER => x.powf(y),
            MathOperator::XOR => ((x as i64) ^ (y as i64)) as f64,
            MathOperator::SHIFT => (((x as i64) << ((y as i64) & 63)) as f64),
            MathOperator::BOR => ((x as i64) | (y as i64)) as f64,
        };
        r.to_bits()
    }

    fn compare(&self, op: ComparisonOperator, a: u64, b: u64) -> bool {
        let x = f64::from_bits(a);
        let y = f64::from_bits(b);
        match op {
            ComparisonOperator::EQUAL => x == y,
            ComparisonOperator::NOTEQUAL => x != y,
            ComparisonOperator::GREATER => x > y,
            ComparisonOperator::LESS => x < y,
            ComparisonOperator::GREATEREQUAL => x >= y,
            ComparisonOperator::LESSEQUAL => x <= y,
        }
    }

    fn to_int(&self, a: u64) -> i64 {
        f64::from_bits(a) as i64
    }

    fn to_char(&self, a: u64) -> u8 {
        f64::from_bits(a) as u8
    }

    fn of_int(&self, v: i64) -> u64 {
        (v as f64).to_bits()
    }

    fn of_char(&self, v: u8) -> u64 {
        (v as f64).to_bits()
    }
}

fn node(data: ASTNodeData) -> ASTNode {
    ASTNode { data, pos: Pos::origin() }
}

fn stmt(name: &str, args: Vec<ASTNode>) -> ASTNode {
    node(ASTNodeData::Stmt { name: name.to_string(), name_pos: Pos::origin(), args })
}

fn prim(name: &str) -> ASTNode {
    stmt(name, vec![])
}

fn ir_with(files: Vec<SourceFile>) -> IR {
    IR::new(FSet { files })
}

fn empty_ir() -> IR {
    IR::new(FSet::new())
}

#[test]
fn defpass_registers_types_and_functions() {
    let file = SourceFile {
        name: "main".to_string(),
        ast: vec![
            node(ASTNodeData::Comment("banner".to_string())),
            stmt(
                "TYPE",
                vec![node(ASTNodeData::Type("pair".to_string())), stmt("STRUCT", vec![])],
            ),
            stmt(
                "FUNC",
                vec![
                    node(ASTNodeData::Function("main".to_string())),
                    node(ASTNodeData::Block(vec![])),
                    node(ASTNodeData::Block(vec![])),
                ],
            ),
        ],
    };
    let mut ir = ir_with(vec![file]);
    assert!(ir.defpass().is_ok());
    assert_eq!(ir.errors.len(), 0);
    assert_eq!(ir.types.len(), 1);
    assert_eq!(ir.types[0].name, "pair");
    assert!(ir.types[0].ast.is_some());
    assert_eq!(ir.funcs.len(), 1);
    assert_eq!(ir.funcs[0].name, "main");
    assert!(ir.funcs[0].params_ast.is_some());
    assert!(ir.funcs[0].body_ast.is_some());
    assert_eq!(ir.resolve_type(&"pair".to_string()), Some(0));
}

#[test]
fn defpass_reports_malformed_without_stopping() {
    let file = SourceFile {
        name: "main".to_string(),
        ast: vec![
            stmt("TYPE", vec![]),
            node(ASTNodeData::Int(3)),
            stmt(
                "TYPE",
                vec![node(ASTNodeData::Type("ok".to_string())), stmt("STRUCT", vec![])],
            ),
            stmt("LAUNCH", vec![]),
        ],
    };
    let mut ir = ir_with(vec![file]);
    assert!(ir.defpass().is_ok());
    assert_eq!(ir.errors.len(), 3);
    assert!(matches!(ir.errors[0], IRError::InvalidArgumentCount { expected: 2, got: 0, .. }));
    assert!(matches!(ir.errors[1], IRError::UnexpectedNode(_)));
    assert!(matches!(ir.errors[2], IRError::UnexpectedNode(_)));
    assert_eq!(ir.types.len(), 1);
    assert_eq!(ir.types[0].name, "ok");
}

#[test]
fn defpass_import_of_loaded_file_succeeds() {
    let lib = SourceFile { name: "lib".to_string(), ast: vec![] };
    let main = SourceFile {
        name: "main".to_string(),
        ast: vec![stmt("IMPORT", vec![node(ASTNodeData::Str("lib".to_string()))])],
    };
    let mut ir = ir_with(vec![lib, main]);
    assert!(ir.defpass().is_ok());
    assert_eq!(ir.errors.len(), 0);
}

#[test]
fn defpass_import_of_missing_file_is_reported() {
    let main = SourceFile {
        name: "main".to_string(),
        ast: vec![stmt("IMPORT", vec![node(ASTNodeData::Str("nowhere".to_string()))])],
    };
    let mut ir = ir_with(vec![main]);
    assert!(ir.defpass().is_ok());
    assert_eq!(ir.errors.len(), 1);
    match &ir.errors[0] {
        IRError::FSetError(FSetError::NotFound(m)) => assert_eq!(m, "nowhere"),
        other => panic!("unexpected diagnostic: {:?}", other.pos()),
    }
}

#[test]
fn build_mathop_accepts_matching_ints() {
    let mut ir = empty_ir();
    let args = vec![node(ASTNodeData::Int(2)), node(ASTNodeData::Int(3))];
    let r = ir.build_mathop(Pos::origin(), &args, MathOperator::ADD);
    let n = r.expect("well-typed operands must build");
    assert!(matches!(n.data, IRNodeData::Math(_, MathOperator::ADD, _)));
    assert!(matches!(n.typ().data, TypeData::INT));
}

#[test]
fn build_mathop_rejects_wrong_arity() {
    let mut ir = empty_ir();
    let args = vec![node(ASTNodeData::Int(2))];
    let r = ir.build_mathop(Pos::origin(), &args, MathOperator::ADD);
    assert!(matches!(r, Err(IRError::InvalidArgumentCount { expected: 2, got: 1, .. })));
}

#[test]
fn build_mathop_rejects_mismatched_operands() {
    let mut ir = empty_ir();
    let args = vec![node(ASTNodeData::Int(2)), node(ASTNodeData::Bool(true))];
    let r = ir.build_mathop(Pos::origin(), &args, MathOperator::ADD);
    assert!(matches!(r, Err(IRError::InvalidArgument { .. })));
}

#[test]
fn build_mathop_contains_already_invalid_operands() {
    let mut ir = empty_ir();
    let args = vec![stmt("NO_SUCH_FORM", vec![]), node(ASTNodeData::Int(3))];
    let r = ir.build_mathop(Pos::origin(), &args, MathOperator::ADD);
    assert!(r.is_ok(), "an already reported operand must not fail the parent");
    assert_eq!(ir.errors.len(), 1);
    assert!(matches!(ir.errors[0], IRError::UnknownStmt { .. }));
}

#[test]
fn build_compop_rejects_bool_ordering() {
    let mut ir = empty_ir();
    let args = vec![node(ASTNodeData::Bool(true)), node(ASTNodeData::Bool(false))];
    let r = ir.build_compop(Pos::origin(), &args, ComparisonOperator::GREATER);
    assert!(matches!(r, Err(IRError::InvalidArgument { .. })));
    let r2 = ir.build_compop(Pos::origin(), &args, ComparisonOperator::EQUAL);
    assert!(r2.is_ok());
}

#[test]
fn build_boolop_not_takes_one_operand() {
    let mut ir = empty_ir();
    let one = vec![node(ASTNodeData::Bool(true))];
    let r = ir.build_boolop(Pos::origin(), &one, bsharp_core::ir::BooleanOperator::NOT);
    assert!(r.is_ok());
    let two = vec![node(ASTNodeData::Bool(true)), node(ASTNodeData::Bool(false))];
    let r2 = ir.build_boolop(Pos::origin(), &two, bsharp_core::ir::BooleanOperator::NOT);
    assert!(matches!(r2, Err(IRError::InvalidArgumentCount { expected: 1, got: 2, .. })));
}

#[test]
fn build_prim_builds_the_named_primitive() {
    let mut ir = empty_ir();
    let r = ir.build_prim(&"INT".to_string(), Pos::origin(), &vec![]);
    let n = r.expect("a primitive keyword with no arguments builds");
    match n.data {
        IRNodeData::Type(t) => assert!(matches!(t.data, TypeData::INT)),
        _ => panic!("expected a type expression"),
    }
    let r2 = ir.build_prim(&"BOOL".to_string(), Pos::origin(), &vec![node(ASTNodeData::Int(1))]);
    assert!(matches!(r2, Err(IRError::InvalidArgumentCount { expected: 0, got: 1, .. })));
}

#[test]
fn build_array_wraps_element_type() {
    let mut ir = empty_ir();
    let r = ir.build_array(Pos::origin(), &vec![prim("INT")]);
    let n = r.expect("an array of a primitive builds");
    match n.data {
        IRNodeData::Type(t) => match t.data {
            TypeData::ARRAY(e) => assert!(matches!(e.data, TypeData::INT)),
            _ => panic!("expected an array type"),
        },
        _ => panic!("expected a type expression"),
    }
}

#[test]
fn build_struct_partitions_fields_in_order() {
    let mut ir = empty_ir();
    let args = vec![
        stmt("FIELD", vec![node(ASTNodeData::Field("x".to_string())), prim("INT")]),
        stmt("FIELD", vec![node(ASTNodeData::Field("y".to_string())), prim("BOOL")]),
    ];
    let r = ir.build_struct(Pos::origin(), &args);
    let n = r.expect("a struct of two fields builds");
    match n.data {
        IRNodeData::Type(t) => match t.data {
            TypeData::STRUCT { params, fields } => {
                assert_eq!(params.len(), 0);
                assert_eq!(fields.len(), 2);
                assert_eq!(fields[0].name, "x");
                assert!(matches!(fields[0].typ.data, TypeData::INT));
                assert_eq!(fields[1].name, "y");
                assert!(matches!(fields[1].typ.data, TypeData::BOOL));
            },
            _ => panic!("expected a struct type"),
        },
        _ => panic!("expected a type expression"),
    }
}

#[test]
fn empty_struct_builds_empty_type() {
    let mut ir = empty_ir();
    let r = ir.build_struct(Pos::origin(), &vec![]);
    let n = r.expect("a struct with no members builds");
    match n.data {
        IRNodeData::Type(t) => match t.data {
            TypeData::STRUCT { params, fields } => {
                assert_eq!(params.len(), 0);
                assert_eq!(fields.len(), 0);
            },
            _ => panic!("expected a struct type"),
        },
        _ => panic!("expected a type expression"),
    }
}

#[test]
fn partition_members_splits_generics_from_fields() {
    let g = IRNode::new(
        IRNodeData::Generic { name: "T".to_string(), typ: Type { data: TypeData::TYPE } },
        Pos::origin(),
    );
    let f = IRNode::new(
        IRNodeData::Field { name: "x".to_string(), typ: Type { data: TypeData::INT } },
        Pos::origin(),
    );
    let f2 = IRNode::new(
        IRNodeData::Field { name: "y".to_string(), typ: Type { data: TypeData::BOOL } },
        Pos::origin(),
    );
    let r = partition_members(Pos::origin(), vec![g, f, f2]);
    let (params, fields) = r.expect("fields and generics partition");
    assert_eq!(params.len(), 1);
    assert_eq!(params[0].name, "T");
    assert_eq!(fields.len(), 2);
    assert_eq!(fields[0].name, "x");
    assert_eq!(fields[1].name, "y");

    let stray = IRNode::new(IRNodeData::Int(7), Pos::origin());
    let bad = partition_members(Pos::origin(), vec![stray]);
    assert!(matches!(bad, Err(IRError::InvalidArgument { expected: TypeData::PARAM, .. })));
}

#[test]
fn getstruct_types_as_the_declared_field() {
    let st = Type {
        data: TypeData::STRUCT {
            params: vec![],
            fields: vec![
                Field { name: "x".to_string(), typ: Type { data: TypeData::INT } },
                Field { name: "y".to_string(), typ: Type { data: TypeData::BOOL } },
            ],
        },
    };
    let base = IRNode::new(IRNodeData::NewStruct(st, vec![]), Pos::origin());
    let get = IRNode::new(
        IRNodeData::GetStruct { strct: Box::new(base), field: "y".to_string() },
        Pos::origin(),
    );
    assert!(matches!(get.typ().data, TypeData::BOOL));
}

#[test]
fn build_field_rejects_non_type_argument() {
    let mut ir = empty_ir();
    let args = vec![node(ASTNodeData::Field("x".to_string())), node(ASTNodeData::Int(3))];
    let r = ir.build_field(Pos::origin(), &args);
    assert!(matches!(r, Err(IRError::InvalidType { .. })));
}

#[test]
fn scope_shadowing_resolves_inner_then_outer() {
    let mut ir = empty_ir();
    let outer = ir.declare_var("x".to_string(), Type { data: TypeData::INT }, Pos::origin());
    assert_eq!(ir.resolve_var(&"x".to_string()), Some(outer));
    ir.open_scope(ScopeKind::Block, Pos::origin());
    let inner = ir.declare_var("x".to_string(), Type { data: TypeData::FLOAT }, Pos::origin());
    assert_ne!(outer, inner);
    assert_eq!(ir.resolve_var(&"x".to_string()), Some(inner));
    assert!(matches!(ir.vars[inner].typ.data, TypeData::FLOAT));
    ir.close_scope();
    assert_eq!(ir.resolve_var(&"x".to_string()), Some(outer));
    assert!(matches!(ir.vars[outer].typ.data, TypeData::INT));
}

#[test]
fn rebinding_in_one_scope_lets_the_last_declaration_win() {
    let mut ir = empty_ir();
    let first = ir.declare_var("x".to_string(), Type { data: TypeData::INT }, Pos::origin());
    let second = ir.declare_var("x".to_string(), Type { data: TypeData::BOOL }, Pos::origin());
    assert_ne!(first, second);
    assert_eq!(ir.resolve_var(&"x".to_string()), Some(second));
}

#[test]
fn end_to_end_main_returns_fourteen() {
    // FUNC main() -> INT { RETURN 2 + 3 * 4 }, with the precedence made
    // explicit by nesting; the lexer and parser live outside the core.
    let ret_expr = stmt(
        "+",
        vec![
            node(ASTNodeData::Int(2)),
            stmt("*", vec![node(ASTNodeData::Int(3)), node(ASTNodeData::Int(4))]),
        ],
    );
    let file = SourceFile {
        name: "main".to_string(),
        ast: vec![stmt(
            "FUNC",
            vec![
                node(ASTNodeData::Function("main".to_string())),
                node(ASTNodeData::Block(vec![])),
                node(ASTNodeData::Block(vec![ret_expr])),
            ],
        )],
    };
    let mut ir = ir_with(vec![file]);
    assert!(ir.defpass().is_ok());
    assert_eq!(ir.funcs.len(), 1);
    let body = match &ir.funcs[0].body_ast {
        Some(ASTNode { data: ASTNodeData::Block(stmts), .. }) => stmts[0].clone(),
        _ => panic!("the registered function keeps its body syntax"),
    };
    let built = ir.build_node(&body);
    assert_eq!(ir.errors.len(), 0);
    let it = Interp::new(ir, Ieee);
    assert_eq!(it.exec(&built), Ok(Value::Int(14)));
}

#[test]
fn end_to_end_division_by_zero_is_positioned() {
    let expr = stmt("/", vec![node(ASTNodeData::Int(5)), node(ASTNodeData::Int(0))]);
    let mut ir = empty_ir();
    let built = ir.build_node(&expr);
    assert_eq!(ir.errors.len(), 0);
    let it = Interp::new(ir, Ieee);
    assert_eq!(it.exec(&built), Err(InterpError::DivideByZero(Pos::origin())));
}
