pub mod ops;
pub mod typs;

use vstd::prelude::*;

use crate::ast::{ASTNode, ASTNodeData, ASTNodeDataType, Pos, ast_data_height, ast_height, ast_seq_height, ast_eq, kind_of, str_is};
use crate::errors::IRError;
use crate::ir::{BooleanOperator, ComparisonOperator, IRNode, IRNodeData, MathOperator};
use crate::stack::IR;
use crate::types::{Type, TypeData};
use crate::fns::ops::{comp_operands_ok, math_operands_ok};

verus! {

broadcast use vstd::std_specs::vec::axiom_vec_index_decreases;

/// Whether a node's syntactic kind satisfies an expected kind; `Any` accepts
/// every node.
pub open spec fn kind_matches(n: ASTNode, k: ASTNodeDataType) -> bool {
    k == ASTNodeDataType::Any || kind_of(n.data) == k
}

/// Whether an argument list has exactly the expected count and kinds.
pub open spec fn args_match(args: Seq<ASTNode>, expected: Seq<ASTNodeDataType>) -> bool {
    args.len() == expected.len() && (forall|i: int|
        0 <= i < args.len() ==> kind_matches(args[i], #[trigger] expected[i]))
}

/// The position of the first argument whose kind does not match (meaningful
/// only when the lists have equal length and some kind does not match).
pub open spec fn first_mismatch(args: Seq<ASTNode>, expected: Seq<ASTNodeDataType>) -> int
    decreases args,
{
    if args.len() == 0 {
        0
    } else if !kind_matches(args[0], expected[0]) {
        0
    } else {
        1 + first_mismatch(args.drop_first(), expected.drop_first())
    }
}

proof fn lemma_first_mismatch_at(args: Seq<ASTNode>, expected: Seq<ASTNodeDataType>, i: int)
    requires
        0 <= i < args.len(),
        args.len() == expected.len(),
        forall|j: int| 0 <= j < i ==> kind_matches(args[j], #[trigger] expected[j]),
        !kind_matches(args[i], expected[i]),
    ensures
        first_mismatch(args, expected) == i,
    decreases args,
{
    if i > 0 {
        lemma_first_mismatch_at(args.drop_first(), expected.drop_first(), i - 1);
        assert(args.drop_first()[i - 1] == args[i]);
        assert(expected.drop_first()[i - 1] == expected[i]);
        assert forall|j: int| 0 <= j < i - 1 implies kind_matches(
            args.drop_first()[j],
            #[trigger] expected.drop_first()[j],
        ) by {
            assert(args.drop_first()[j] == args[j + 1]);
            assert(expected.drop_first()[j] == expected[j + 1]);
        }
    }
}

/// The exact diagnostic a malformed argument list produces: a count mismatch
/// reports the expected and found counts at the statement's position; a kind
/// mismatch reports the expected kind and the first offending argument.
pub open spec fn arg_err_matches(
    e: IRError,
    pos: Pos,
    args: Seq<ASTNode>,
    expected: Seq<ASTNodeDataType>,
) -> bool {
    if args.len() != expected.len() {
        e matches IRError::InvalidArgumentCount { pos: p, expected: x, got: g } && p == pos && x
            == expected.len() && g == args.len()
    } else {
        let i = first_mismatch(args, expected);
        e matches IRError::InvalidASTArgument { expected: k, got: g } && k == expected[i] && ast_eq(
            g,
            args[i],
        )
    }
}

/// Checks a statement's argument list against the count and kinds its form
/// expects, before any argument is consumed, so that a malformed list is one
/// precise diagnostic instead of an out-of-bounds access.
pub fn typecheck_ast(pos: Pos, args: &Vec<ASTNode>, expected: &Vec<ASTNodeDataType>) -> (r: Result<
    (),
    IRError,
>)
    ensures
        r is Ok <==> args_match(args@, expected@),
        r matches Err(e) ==> arg_err_matches(e, pos, args@, expected@),
{
    if args.len() != expected.len() {
        return Err(
            IRError::InvalidArgumentCount { pos, expected: expected.len(), got: args.len() },
        );
    }
    let mut i: usize = 0;
    while i < args.len()
        invariant
            i <= args@.len(),
            args@.len() == expected@.len(),
            forall|j: int| 0 <= j < i ==> kind_matches(args@[j], #[trigger] expected@[j]),
        decreases args@.len() - i,
    {
        let k = args[i].kind();
        if !(expected[i] == ASTNodeDataType::Any || k == expected[i]) {
            proof {
                lemma_first_mismatch_at(args@, expected@, i as int);
            }
            return Err(IRError::InvalidASTArgument { expected: expected[i], got: args[i].clone() });
        }
        i = i + 1;
    }
    Ok(())
}



/// The operator a statement name denotes, if any.
pub open spec fn math_op_of(name: Seq<char>) -> Option<MathOperator> {
    if name == "+"@ {
        Some(MathOperator::ADD)
    } else if name == "-"@ {
        Some(MathOperator::SUBTRACT)
    } else if name == "*"@ {
        Some(MathOperator::MULTIPLY)
    } else if name == "/"@ {
        Some(MathOperator::DIVIDE)
    } else if name == "%"@ {
        Some(MathOperator::MODULO)
    } else if name == "^"@ {
        Some(MathOperator::POWER)
    } else if name == "XOR"@ {
        Some(MathOperator::XOR)
    } else if name == "SHIFT"@ {
        Some(MathOperator::SHIFT)
    } else if name == "BOR"@ {
        Some(MathOperator::BOR)
    } else {
        None
    }
}

pub open spec fn comp_op_of(name: Seq<char>) -> Option<ComparisonOperator> {
    if name == "="@ {
        Some(ComparisonOperator::EQUAL)
    } else if name == "!="@ {
        Some(ComparisonOperator::NOTEQUAL)
    } else if name == ">"@ {
        Some(ComparisonOperator::GREATER)
    } else if name == "<"@ {
        Some(ComparisonOperator::LESS)
    } else if name == ">="@ {
        Some(ComparisonOperator::GREATEREQUAL)
    } else if name == "<="@ {
        Some(ComparisonOperator::LESSEQUAL)
    } else {
        None
    }
}

pub open spec fn bool_op_of(name: Seq<char>) -> Option<BooleanOperator> {
    if name == "AND"@ {
        Some(BooleanOperator::AND)
    } else if name == "OR"@ {
        Some(BooleanOperator::OR)
    } else if name == "NOT"@ {
        Some(BooleanOperator::NOT)
    } else {
        None
    }
}

pub open spec fn is_prim_name(name: Seq<char>) -> bool {
    name == "CHAR"@ || name == "INT"@ || name == "FLOAT"@ || name == "BOOL"@
}

/// The primitive tag a type keyword denotes.
pub open spec fn prim_tag_of(name: Seq<char>) -> TypeData {
    if name == "CHAR"@ {
        TypeData::CHAR
    } else if name == "INT"@ {
        TypeData::INT
    } else if name == "FLOAT"@ {
        TypeData::FLOAT
    } else if name == "BOOL"@ {
        TypeData::BOOL
    } else {
        TypeData::INVALID
    }
}

/// The form a statement name denotes. Every spec about the builder
/// dispatches through this one classifier, so the specs of the forms agree
/// with each other and with the dispatcher by construction.
pub ghost enum Form {
    MathF(MathOperator),
    CompF(ComparisonOperator),
    BoolF(BooleanOperator),
    CastF,
    ArrayF,
    StructF,
    FieldF,
    PrimF(TypeData),
    UnknownF,
}

pub open spec fn form_of(name: Seq<char>) -> Form {
    match math_op_of(name) {
        Some(op) => Form::MathF(op),
        None => match comp_op_of(name) {
            Some(op) => Form::CompF(op),
            None => match bool_op_of(name) {
                Some(op) => Form::BoolF(op),
                None => if name == "CAST"@ {
                    Form::CastF
                } else if name == "ARRAY"@ {
                    Form::ArrayF
                } else if name == "STRUCT"@ {
                    Form::StructF
                } else if name == "FIELD"@ {
                    Form::FieldF
                } else if is_prim_name(name) {
                    Form::PrimF(prim_tag_of(name))
                } else {
                    Form::UnknownF
                },
            },
        },
    }
}

/// A boolean operand: `BOOL`, or `INVALID` contained.
pub open spec fn bool_operand_ok(t: TypeData) -> bool {
    t is BOOL || t is INVALID
}

/// A castable value: one of the three numeric primitives, or `INVALID`
/// contained.
pub open spec fn cast_value_ok(t: TypeData) -> bool {
    t is CHAR || t is INT || t is FLOAT || t is INVALID
}

/// The primitive a cast target expression denotes: the target must be
/// literally one of the three numeric type keywords; everything else —
/// `BOOL`, composite types, anything that fails to build — is rejected.
pub open spec fn cast_target_of(ast: ASTNode) -> TypeData {
    match ast.data {
        ASTNodeData::Stmt { name, args, .. } => match form_of(name@) {
            Form::PrimF(tag) => if args@.len() == 0 && (tag is CHAR || tag is INT
                || tag is FLOAT) {
                tag
            } else {
                TypeData::INVALID
            },
            _ => TypeData::INVALID,
        },
        _ => TypeData::INVALID,
    }
}

/// A well-shaped field declaration form's arguments: a field-name token,
/// and a second argument whose built static type is `TYPE` (or `INVALID`,
/// contained).
pub open spec fn field_form_ok(args: Seq<ASTNode>) -> bool
    decreases args, 4int,
{
    args_match(args, seq![ASTNodeDataType::Field, ASTNodeDataType::Any]) && (btag(args[1]) is TYPE
        || btag(args[1]) is INVALID)
}

/// A field declaration form: the `FIELD` keyword over a well-shaped
/// argument list.
pub open spec fn is_field_form(ast: ASTNode) -> bool
    decreases ast, 5int,
{
    match ast.data {
        ASTNodeData::Stmt { name, args, .. } => form_of(name@) is FieldF && args@.len() == 2
            && field_form_ok(args@),
        _ => false,
    }
}

/// An acceptable struct member: a field declaration, or a member that fails
/// to build (already reported, skipped). Anything else — a member that
/// builds successfully to something other than a field declaration — is
/// rejected.
pub open spec fn member_ok(ast: ASTNode) -> bool
    decreases ast, 6int,
{
    is_field_form(ast) || builds_invalid(ast)
}

/// Every member of a struct form is acceptable.
pub open spec fn all_members_ok(args: Seq<ASTNode>) -> bool
    decreases args, 7int,
{
    forall|i: int| 0 <= i < args.len() ==> member_ok(#[trigger] args[i])
}

/// The concrete static type tag of the node `build_node` returns for the
/// given syntax. The expression fragment resolves no named types, so the
/// tag is a function of the syntax alone; `INVALID` tags both a form that
/// fails to build and a successful operation over an already-`INVALID`
/// operand (containment).
pub open spec fn btag(ast: ASTNode) -> TypeData
    decreases ast, 0int,
{
    match ast.data {
        ASTNodeData::Int(_) => TypeData::INT,
        ASTNodeData::Float(_) => TypeData::FLOAT,
        ASTNodeData::Char(_) => TypeData::CHAR,
        ASTNodeData::Bool(_) => TypeData::BOOL,
        ASTNodeData::Stmt { name, args, .. } => match form_of(name@) {
            Form::MathF(_) => if args@.len() == 2 && math_operands_ok(
                btag(args@[0]),
                btag(args@[1]),
            ) {
                btag(args@[0])
            } else {
                TypeData::INVALID
            },
            Form::CompF(op) => if args@.len() == 2 && comp_operands_ok(
                btag(args@[0]),
                btag(args@[1]),
                op,
            ) {
                TypeData::BOOL
            } else {
                TypeData::INVALID
            },
            Form::BoolF(op) => if (op is NOT && args@.len() == 1 && bool_operand_ok(
                btag(args@[0]),
            )) || (!(op is NOT) && args@.len() == 2 && bool_operand_ok(btag(args@[0]))
                && bool_operand_ok(btag(args@[1]))) {
                TypeData::BOOL
            } else {
                TypeData::INVALID
            },
            Form::CastF => if args@.len() == 2 && !(cast_target_of(args@[0]) is INVALID)
                && cast_value_ok(btag(args@[1])) {
                cast_target_of(args@[0])
            } else {
                TypeData::INVALID
            },
            Form::ArrayF => if args@.len() == 1 && (btag(args@[0]) is TYPE || btag(args@[0])
                is INVALID) {
                TypeData::TYPE
            } else {
                TypeData::INVALID
            },
            Form::StructF => if all_members_ok(args@) {
                TypeData::TYPE
            } else {
                TypeData::INVALID
            },
            Form::FieldF => if args@.len() == 2 && field_form_ok(args@) {
                TypeData::FIELD
            } else {
                TypeData::INVALID
            },
            Form::PrimF(_) => if args@.len() == 0 {
                TypeData::TYPE
            } else {
                TypeData::INVALID
            },
            Form::UnknownF => TypeData::INVALID,
        },
        _ => TypeData::INVALID,
    }
}

/// The `Invalid` stand-in node at a given position.
pub open spec fn inv_node(p: Pos) -> IRNode {
    IRNode { data: IRNodeData::Invalid, pos: p }
}

/// Whether building the given syntax fails, leaving the `Invalid` node.
pub open spec fn builds_invalid(ast: ASTNode) -> bool
    decreases ast, 2int,
{
    builds_to(ast, inv_node(ast.pos))
}

/// The type value a type expression denotes: the payload of the `Type` node
/// it builds, or the `INVALID` type where it builds no `Type` node.
pub open spec fn payload_builds(ast: ASTNode, t: Type) -> bool
    decreases ast, 0int,
{
    match ast.data {
        ASTNodeData::Stmt { name, args, .. } => match form_of(name@) {
            Form::PrimF(tag) => if args@.len() == 0 {
                t.data == tag
            } else {
                t == (Type { data: TypeData::INVALID })
            },
            Form::ArrayF => if args@.len() == 1 && (btag(args@[0]) is TYPE || btag(args@[0])
                is INVALID) {
                t.data matches TypeData::ARRAY(e) && payload_builds(args@[0], *e)
            } else {
                t == (Type { data: TypeData::INVALID })
            },
            Form::StructF => if all_members_ok(args@) {
                t.data matches TypeData::STRUCT { params, fields } && params@.len() == 0
                    && struct_members_build(args@, fields@)
            } else {
                t == (Type { data: TypeData::INVALID })
            },
            _ => t == (Type { data: TypeData::INVALID }),
        },
        _ => t == (Type { data: TypeData::INVALID }),
    }
}

/// The fields of a struct form, in member order: each field-declaration
/// member contributes its declared name and type; a contained `Invalid`
/// member contributes nothing.
pub open spec fn struct_members_build(args: Seq<ASTNode>, fields: Seq<crate::types::Field>) -> bool
    decreases args, 3int,
{
    if args.len() == 0 {
        fields.len() == 0
    } else if builds_invalid(args.last()) {
        struct_members_build(args.drop_last(), fields)
    } else {
        fields.len() >= 1 && field_decl_builds(args.last(), fields.last())
            && struct_members_build(args.drop_last(), fields.drop_last())
    }
}

/// A field declaration form and the field it declares: the name token's
/// contents and the type its second argument denotes.
pub open spec fn field_decl_builds(ast: ASTNode, f: crate::types::Field) -> bool
    decreases ast, 1int,
{
    match ast.data {
        ASTNodeData::Stmt { name, args, .. } => if form_of(name@) is FieldF && args@.len() == 2
            && field_form_ok(args@) {
            f.name@ == args@[0].data->Field_0@ && payload_builds(args@[1], f.typ)
        } else {
            false
        },
        _ => false,
    }
}

/// The reference relation of the expression builder: `builds_to(ast, n)`
/// holds exactly when building the given syntax yields the given node —
/// a literal becomes itself; a recognized form with admissible operands
/// becomes its operation node over the built operands; and everything else
/// (unknown statements, malformed argument lists, inadmissible operand
/// types, stray node shapes) becomes the `Invalid` node at the syntax's
/// position, with the fault reported once as a diagnostic.
pub open spec fn builds_to(ast: ASTNode, n: IRNode) -> bool
    decreases ast, 1int,
{
    match ast.data {
        ASTNodeData::Int(v) => n == (IRNode { data: IRNodeData::Int(v), pos: ast.pos }),
        ASTNodeData::Float(v) => n == (IRNode { data: IRNodeData::Float(v), pos: ast.pos }),
        ASTNodeData::Char(v) => n == (IRNode { data: IRNodeData::Char(v), pos: ast.pos }),
        ASTNodeData::Bool(v) => n == (IRNode { data: IRNodeData::Bool(v), pos: ast.pos }),
        ASTNodeData::Stmt { name, name_pos, args } => match form_of(name@) {
            Form::MathF(op) => if args@.len() == 2 && math_operands_ok(
                btag(args@[0]),
                btag(args@[1]),
            ) {
                n.pos == name_pos && (n.data matches IRNodeData::Math(l, o, r) && o == op
                    && builds_to(args@[0], *l) && builds_to(args@[1], *r))
            } else {
                n == inv_node(ast.pos)
            },
            Form::CompF(op) => if args@.len() == 2 && comp_operands_ok(
                btag(args@[0]),
                btag(args@[1]),
                op,
            ) {
                n.pos == name_pos && (n.data matches IRNodeData::Comparison(l, o, r) && o == op
                    && builds_to(args@[0], *l) && builds_to(args@[1], *r))
            } else {
                n == inv_node(ast.pos)
            },
            Form::BoolF(op) => if op is NOT {
                if args@.len() == 1 && bool_operand_ok(btag(args@[0])) {
                    n.pos == name_pos && (n.data matches IRNodeData::Boolean(l, o, r) && o == op
                        && r is None && builds_to(args@[0], *l))
                } else {
                    n == inv_node(ast.pos)
                }
            } else {
                if args@.len() == 2 && bool_operand_ok(btag(args@[0])) && bool_operand_ok(
                    btag(args@[1]),
                ) {
                    n.pos == name_pos && (n.data matches IRNodeData::Boolean(l, o, r) && o == op
                        && builds_to(args@[0], *l) && (r matches Some(rb) && builds_to(
                        args@[1],
                        *rb,
                    )))
                } else {
                    n == inv_node(ast.pos)
                }
            },
            Form::CastF => if args@.len() == 2 && !(cast_target_of(args@[0]) is INVALID)
                && cast_value_ok(btag(args@[1])) {
                n.pos == name_pos && (n.data matches IRNodeData::Cast(v, t) && t.data
                    == cast_target_of(args@[0]) && builds_to(args@[1], *v))
            } else {
                n == inv_node(ast.pos)
            },
            Form::ArrayF => if args@.len() == 1 && (btag(args@[0]) is TYPE || btag(args@[0])
                is INVALID) {
                n.pos == name_pos && (n.data matches IRNodeData::Type(t) && payload_builds(
                    ast,
                    t,
                ))
            } else {
                n == inv_node(ast.pos)
            },
            Form::StructF => if all_members_ok(args@) {
                n.pos == name_pos && (n.data matches IRNodeData::Type(t) && payload_builds(
                    ast,
                    t,
                ))
            } else {
                n == inv_node(ast.pos)
            },
            Form::FieldF => if args@.len() == 2 && field_form_ok(args@) {
                n.pos == name_pos && (n.data matches IRNodeData::Field { name: fname, typ }
                    && fname@ == args@[0].data->Field_0@ && payload_builds(args@[1], typ))
            } else {
                n == inv_node(ast.pos)
            },
            Form::PrimF(_) => if args@.len() == 0 {
                n.pos == name_pos && (n.data matches IRNodeData::Type(t) && payload_builds(
                    ast,
                    t,
                ))
            } else {
                n == inv_node(ast.pos)
            },
            Form::UnknownF => n == inv_node(ast.pos),
        },
        _ => n == inv_node(ast.pos),
    }
}

/// The tags the expression fragment's static types range over: fieldless,
/// so that two structurally equal tags are the same value.
pub open spec fn scalar_tag(t: TypeData) -> bool {
    t is INT || t is FLOAT || t is CHAR || t is BOOL || t is TYPE || t is FIELD || t is INVALID
}

/// Structural equality against a scalar tag is plain equality.
pub proof fn lemma_eq_scalar(a: TypeData, b: TypeData)
    requires
        crate::types::type_data_eq(a, b),
        scalar_tag(b),
    ensures
        a == b,
{
}

/// What the relation says about a built node's type: its static type tag is
/// exactly `btag` of its syntax, always a scalar tag, and the builder never
/// produces a generic-parameter node in this fragment.
pub proof fn lemma_builds_to_tag(ast: ASTNode, n: IRNode)
    requires
        builds_to(ast, n),
    ensures
        crate::ir::spec_typ(n).data == btag(ast),
        scalar_tag(btag(ast)),
        !(n.data is Generic),
    decreases ast,
{
    match ast.data {
        ASTNodeData::Stmt { name, name_pos, args } => {
            match form_of(name@) {
                Form::MathF(op) => {
                    if args@.len() == 2 && math_operands_ok(btag(args@[0]), btag(args@[1])) {
                        let l = n.data->Math_0;
                        lemma_builds_to_tag(args@[0], *l);
                        assert(crate::ir::spec_typ(n) == crate::ir::spec_typ(*l));
                    } else {
                        assert(n == inv_node(ast.pos));
                    }
                },
                Form::CastF => {
                    if args@.len() == 2 && !(cast_target_of(args@[0]) is INVALID)
                        && cast_value_ok(btag(args@[1])) {
                        assert(crate::ir::spec_typ(n).data == cast_target_of(args@[0]));
                    } else {
                        assert(n == inv_node(ast.pos));
                    }
                },
                _ => {},
            }
        },
        _ => {},
    }
}

/// What the relation says about type payloads: a built `Type` node carries
/// exactly the type its syntax denotes, and a built node that is not a
/// `Type` node stands for the `INVALID` type (the extraction fallback).
pub proof fn lemma_builds_to_payload(ast: ASTNode, n: IRNode)
    requires
        builds_to(ast, n),
    ensures
        n.data matches IRNodeData::Type(t0) ==> payload_builds(ast, t0),
        !(n.data is Type) ==> payload_builds(ast, Type { data: TypeData::INVALID }),
{
}

/// What the relation says about struct members: the built node is a field
/// declaration exactly when the syntax is a well-shaped field form, it is
/// the `Invalid` node exactly when the syntax fails to build, and a built
/// field declaration carries exactly what its form declares.
pub proof fn lemma_member_shape(ast: ASTNode, n: IRNode)
    requires
        builds_to(ast, n),
    ensures
        n.data is Field <==> is_field_form(ast),
        n.data is Invalid <==> builds_invalid(ast),
        n.data is Field ==> field_decl_builds(
            ast,
            crate::types::Field { name: n.data->Field_name, typ: n.data->Field_typ },
        ),
{
}

/// What the relation says about a cast target: the three castable keywords
/// build `Type` nodes carrying exactly their primitive, and everything else
/// builds no `Type` node with a castable payload.
pub proof fn lemma_cast_target(ast: ASTNode, n: IRNode)
    requires
        builds_to(ast, n),
    ensures
        cast_target_of(ast) is INVALID <==> !(n.data matches IRNodeData::Type(t) && (t.data
            is CHAR || t.data is INT || t.data is FLOAT)),
        n.data matches IRNodeData::Type(t) ==> ((t.data is CHAR || t.data is INT || t.data
            is FLOAT) ==> t.data == cast_target_of(ast)),
{
    match ast.data {
        ASTNodeData::Stmt { name, name_pos, args } => {
            match form_of(name@) {
                Form::PrimF(tag) => {
                    if args@.len() == 0 {
                        let t0 = n.data->Type_0;
                        assert(payload_builds(ast, t0));
                        assert(t0.data == tag);
                    } else {
                        assert(n == inv_node(ast.pos));
                    }
                },
                Form::ArrayF => {
                    if args@.len() == 1 && (btag(args@[0]) is TYPE || btag(args@[0])
                        is INVALID) {
                        let t0 = n.data->Type_0;
                        assert(payload_builds(ast, t0));
                        assert(t0.data matches TypeData::ARRAY(_));
                    } else {
                        assert(n == inv_node(ast.pos));
                    }
                },
                Form::StructF => {
                    if all_members_ok(args@) {
                        let t0 = n.data->Type_0;
                        assert(payload_builds(ast, t0));
                        assert(t0.data matches TypeData::STRUCT { .. });
                    } else {
                        assert(n == inv_node(ast.pos));
                    }
                },
                _ => {},
            }
        },
        _ => {},
    }
}

/// Lifting the member relation over a whole struct form: if every argument
/// builds to the corresponding node, then the node-level partition test is
/// the syntax-level one, nothing builds to a generic parameter in this
/// fragment, and the partitioned fields are exactly what the field forms
/// declare, in order.
pub proof fn lemma_members_bridge(args: Seq<ASTNode>, pars: Seq<IRNode>)
    requires
        args.len() == pars.len(),
        forall|i: int| 0 <= i < args.len() ==> builds_to(args[i], #[trigger] pars[i]),
    ensures
        crate::fns::typs::members_ok(pars) <==> all_members_ok(args),
        all_members_ok(args) ==> crate::fns::typs::gen_members(pars).len() == 0
            && struct_members_build(args, crate::fns::typs::field_members(pars)),
    decreases args,
{
    if args.len() > 0 {
        assert forall|i: int| 0 <= i < args.drop_last().len() implies builds_to(
            args.drop_last()[i],
            #[trigger] pars.drop_last()[i],
        ) by {
            assert(args.drop_last()[i] == args[i]);
            assert(pars.drop_last()[i] == pars[i]);
        }
        lemma_members_bridge(args.drop_last(), pars.drop_last());
        let a = args.last();
        let n = pars.last();
        assert(builds_to(a, n));
        lemma_builds_to_tag(a, n);
        lemma_member_shape(a, n);
        assert(all_members_ok(args) ==> member_ok(a)) by {
            if all_members_ok(args) {
                assert(member_ok(args[args.len() - 1]));
            }
        }
        assert forall|i: int|
            0 <= i < args.drop_last().len() && all_members_ok(args) implies member_ok(
            #[trigger] args.drop_last()[i],
        ) by {
            assert(args.drop_last()[i] == args[i]);
        }
        assert(crate::fns::typs::members_ok(pars) ==> (n.data is Field || n.data is Generic
            || n.data is Invalid)) by {
            if crate::fns::typs::members_ok(pars) {
                assert((#[trigger] pars[pars.len() - 1]).data is Field || pars[pars.len()
                    - 1].data is Generic || pars[pars.len() - 1].data is Invalid);
            }
        }
        assert(crate::fns::typs::members_ok(pars) ==> crate::fns::typs::members_ok(
            pars.drop_last(),
        )) by {
            if crate::fns::typs::members_ok(pars) {
                assert forall|i: int| 0 <= i < pars.drop_last().len() implies ((
                #[trigger] pars.drop_last()[i]).data is Field || pars.drop_last()[i].data
                    is Generic || pars.drop_last()[i].data is Invalid) by {
                    assert(pars.drop_last()[i] == pars[i]);
                    assert(pars[i].data is Field || pars[i].data is Generic || pars[i].data
                        is Invalid);
                }
            }
        }
        assert(all_members_ok(args.drop_last()) && member_ok(a) ==> all_members_ok(args)) by {
            if all_members_ok(args.drop_last()) && member_ok(a) {
                assert forall|i: int| 0 <= i < args.len() implies member_ok(
                    #[trigger] args[i],
                ) by {
                    if i < args.len() - 1 {
                        assert(args[i] == args.drop_last()[i]);
                        assert(member_ok(args.drop_last()[i]));
                    }
                }
            }
        }
        assert(crate::fns::typs::members_ok(pars.drop_last()) && (n.data is Field || n.data
            is Invalid) ==> crate::fns::typs::members_ok(pars)) by {
            if crate::fns::typs::members_ok(pars.drop_last()) && (n.data is Field || n.data
                is Invalid) {
                assert forall|i: int| 0 <= i < pars.len() implies ((#[trigger] pars[i]).data
                    is Field || pars[i].data is Generic || pars[i].data is Invalid) by {
                    if i < pars.len() - 1 {
                        assert(pars[i] == pars.drop_last()[i]);
                        assert(pars.drop_last()[i].data is Field || pars.drop_last()[i].data
                            is Generic || pars.drop_last()[i].data is Invalid);
                    }
                }
            }
        }
        if all_members_ok(args) {
            let fields0 = crate::fns::typs::field_members(pars.drop_last());
            let fields = crate::fns::typs::field_members(pars);
            if n.data is Field {
                assert(fields =~= fields0.push(
                    crate::types::Field { name: n.data->Field_name, typ: n.data->Field_typ },
                ));
                assert(fields.drop_last() =~= fields0);
                assert(!builds_invalid(a));
            } else {
                assert(n.data is Invalid);
                assert(fields =~= fields0);
                assert(builds_invalid(a));
            }
            assert(crate::fns::typs::gen_members(pars) =~= crate::fns::typs::gen_members(
                pars.drop_last(),
            ));
        }
    }
}


/// Transfers a form contract to the builder relation: given the statement's
/// form, an outcome permitted by the form's contract is exactly what
/// `builds_to` asks — the built node on success, the `Invalid` stand-in on
/// a diagnostic.
proof fn lemma_xfer_math(ast: ASTNode, op: MathOperator, r: Result<IRNode, IRError>)
    requires
        ast.data matches ASTNodeData::Stmt { name, name_pos, args } && form_of(name@)
            == Form::MathF(op) && crate::fns::ops::mathop_builds(name_pos, args@, op, r),
    ensures
        r matches Ok(n) ==> builds_to(ast, n),
        r is Err ==> builds_to(ast, inv_node(ast.pos)),
{
}

proof fn lemma_xfer_comp(ast: ASTNode, op: ComparisonOperator, r: Result<IRNode, IRError>)
    requires
        ast.data matches ASTNodeData::Stmt { name, name_pos, args } && form_of(name@)
            == Form::CompF(op) && crate::fns::ops::compop_builds(name_pos, args@, op, r),
    ensures
        r matches Ok(n) ==> builds_to(ast, n),
        r is Err ==> builds_to(ast, inv_node(ast.pos)),
{
}

proof fn lemma_xfer_bool(ast: ASTNode, op: BooleanOperator, r: Result<IRNode, IRError>)
    requires
        ast.data matches ASTNodeData::Stmt { name, name_pos, args } && form_of(name@)
            == Form::BoolF(op) && crate::fns::ops::boolop_builds(name_pos, args@, op, r),
    ensures
        r matches Ok(n) ==> builds_to(ast, n),
        r is Err ==> builds_to(ast, inv_node(ast.pos)),
{
}

proof fn lemma_xfer_cast(ast: ASTNode, r: Result<IRNode, IRError>)
    requires
        ast.data matches ASTNodeData::Stmt { name, name_pos, args } && form_of(name@)
            == Form::CastF && crate::fns::typs::cast_builds(name_pos, args@, r),
    ensures
        r matches Ok(n) ==> builds_to(ast, n),
        r is Err ==> builds_to(ast, inv_node(ast.pos)),
{
}

proof fn lemma_xfer_array(ast: ASTNode, r: Result<IRNode, IRError>)
    requires
        ast.data matches ASTNodeData::Stmt { name, name_pos, args } && form_of(name@)
            == Form::ArrayF && crate::fns::typs::array_builds(name_pos, args@, r),
    ensures
        r matches Ok(n) ==> builds_to(ast, n),
        r is Err ==> builds_to(ast, inv_node(ast.pos)),
{
    match ast.data {
        ASTNodeData::Stmt { name, name_pos, args } => {
            match r {
                Ok(n) => {
                    if args@.len() == 1 && (btag(args@[0]) is TYPE || btag(args@[0])
                        is INVALID) {
                        let t0 = n.data->Type_0;
                        assert(t0.data matches TypeData::ARRAY(e) && payload_builds(
                            args@[0],
                            *e,
                        ));
                        assert(payload_builds(ast, t0));
                    }
                },
                Err(_) => {},
            }
        },
        _ => {},
    }
}

proof fn lemma_xfer_struct(ast: ASTNode, r: Result<IRNode, IRError>)
    requires
        ast.data matches ASTNodeData::Stmt { name, name_pos, args } && form_of(name@)
            == Form::StructF && crate::fns::typs::struct_builds(name_pos, args@, r),
    ensures
        r matches Ok(n) ==> builds_to(ast, n),
        r is Err ==> builds_to(ast, inv_node(ast.pos)),
{
    match ast.data {
        ASTNodeData::Stmt { name, name_pos, args } => {
            match r {
                Ok(n) => {
                    if all_members_ok(args@) {
                        let t0 = n.data->Type_0;
                        assert(t0.data matches TypeData::STRUCT { params, fields } && params@.len()
                            == 0 && struct_members_build(args@, fields@));
                        assert(payload_builds(ast, t0));
                    }
                },
                Err(_) => {},
            }
        },
        _ => {},
    }
}

proof fn lemma_xfer_field(ast: ASTNode, r: Result<IRNode, IRError>)
    requires
        ast.data matches ASTNodeData::Stmt { name, name_pos, args } && form_of(name@)
            == Form::FieldF && crate::fns::typs::field_builds(name_pos, args@, r),
    ensures
        r matches Ok(n) ==> builds_to(ast, n),
        r is Err ==> builds_to(ast, inv_node(ast.pos)),
{
    match ast.data {
        ASTNodeData::Stmt { name, name_pos, args } => {
            let shape = seq![ASTNodeDataType::Field, ASTNodeDataType::Any];
            assert(shape.len() == 2);
            if args_match(args@, shape) {
                assert(args@.len() == 2);
                if btag(args@[1]) is TYPE || btag(args@[1]) is INVALID {
                    assert(field_form_ok(args@));
                    match r {
                        Ok(n) => {
                            assert(n.data matches IRNodeData::Field { name: f2, typ } && f2@
                                == args@[0].data->Field_0@ && payload_builds(args@[1], typ));
                            assert(builds_to(ast, n));
                        },
                        Err(_) => {},
                    }
                } else {
                    assert(!field_form_ok(args@));
                    assert(r is Err);
                    assert(builds_to(ast, inv_node(ast.pos)));
                }
            } else {
                assert(!field_form_ok(args@));
                assert(r is Err);
                assert(builds_to(ast, inv_node(ast.pos)));
            }
        },
        _ => {},
    }
}

proof fn lemma_xfer_prim(ast: ASTNode, r: Result<IRNode, IRError>)
    requires
        ast.data matches ASTNodeData::Stmt { name, name_pos, args } && form_of(name@) is PrimF
            && crate::fns::typs::prim_builds(name@, name_pos, args@, r),
    ensures
        r matches Ok(n) ==> builds_to(ast, n),
        r is Err ==> builds_to(ast, inv_node(ast.pos)),
{
    match ast.data {
        ASTNodeData::Stmt { name, name_pos, args } => {
            match r {
                Ok(n) => {
                    if args@.len() == 0 {
                        let t0 = n.data->Type_0;
                        assert(t0.data == prim_tag_of(name@));
                        assert(payload_builds(ast, t0));
                    }
                },
                Err(_) => {},
            }
        },
        _ => {},
    }
}

/// What every builder leaves alone: a builder may add diagnostics and
/// nothing else to the context.
pub open spec fn build_preserves(pre: IR, post: IR) -> bool {
    &&& post.fset == pre.fset
    &&& post.stack == pre.stack
    &&& post.scopes == pre.scopes
    &&& post.vars == pre.vars
    &&& post.types == pre.types
    &&& post.funcs == pre.funcs
    &&& post.errors@.len() >= pre.errors@.len()
    &&& post.errors@.subrange(0, pre.errors@.len() as int) == pre.errors@
}

impl IR {
    /// Builds one expression node from its syntax: literals stand for
    /// themselves; a statement dispatches to the builder of its form; an
    /// unknown statement or an unexpected node shape is one diagnostic and
    /// an `Invalid` node, so that whatever is built on top does not report
    /// it again.
    #[verifier::rlimit(100)]
    #[verifier::spinoff_prover]
    pub fn build_node(&mut self, ast: &ASTNode) -> (r: IRNode)
        ensures
            build_preserves(*old(self), *final(self)),
            builds_to(*ast, r),
            r.data is Invalid ==> final(self).errors@.len() > old(self).errors@.len(),
        decreases ast_height(*ast),
    {
        proof {
            assert(self.errors@.subrange(0, self.errors@.len() as int) =~= self.errors@);
        }
        match &ast.data {
            ASTNodeData::Int(v) => IRNode::new(IRNodeData::Int(*v), ast.pos),
            ASTNodeData::Float(v) => IRNode::new(IRNodeData::Float(*v), ast.pos),
            ASTNodeData::Char(v) => IRNode::new(IRNodeData::Char(*v), ast.pos),
            ASTNodeData::Bool(v) => IRNode::new(IRNodeData::Bool(*v), ast.pos),
            ASTNodeData::Stmt { name, name_pos, args } => {
                proof {
                    assert(ast_data_height(ast.data) == 1 + ast_seq_height(args@));
                }
                let res: Result<IRNode, IRError> = if str_is(name, "+") {
                    let r0 = self.build_mathop(*name_pos, args, MathOperator::ADD);
                    proof { lemma_xfer_math(*ast, MathOperator::ADD, r0); }
                    r0
                } else if str_is(name, "-") {
                    let r0 = self.build_mathop(*name_pos, args, MathOperator::SUBTRACT);
                    proof { lemma_xfer_math(*ast, MathOperator::SUBTRACT, r0); }
                    r0
                } else if str_is(name, "*") {
                    let r0 = self.build_mathop(*name_pos, args, MathOperator::MULTIPLY);
                    proof { lemma_xfer_math(*ast, MathOperator::MULTIPLY, r0); }
                    r0
                } else if str_is(name, "/") {
                    let r0 = self.build_mathop(*name_pos, args, MathOperator::DIVIDE);
                    proof { lemma_xfer_math(*ast, MathOperator::DIVIDE, r0); }
                    r0
                } else if str_is(name, "%") {
                    let r0 = self.build_mathop(*name_pos, args, MathOperator::MODULO);
                    proof { lemma_xfer_math(*ast, MathOperator::MODULO, r0); }
                    r0
                } else if str_is(name, "^") {
                    let r0 = self.build_mathop(*name_pos, args, MathOperator::POWER);
                    proof { lemma_xfer_math(*ast, MathOperator::POWER, r0); }
                    r0
                } else if str_is(name, "XOR") {
                    let r0 = self.build_mathop(*name_pos, args, MathOperator::XOR);
                    proof { lemma_xfer_math(*ast, MathOperator::XOR, r0); }
                    r0
                } else if str_is(name, "SHIFT") {
                    let r0 = self.build_mathop(*name_pos, args, MathOperator::SHIFT);
                    proof { lemma_xfer_math(*ast, MathOperator::SHIFT, r0); }
                    r0
                } else if str_is(name, "BOR") {
                    let r0 = self.build_mathop(*name_pos, args, MathOperator::BOR);
                    proof { lemma_xfer_math(*ast, MathOperator::BOR, r0); }
                    r0
                } else if str_is(name, "=") {
                    let r0 = self.build_compop(*name_pos, args, ComparisonOperator::EQUAL);
                    proof { lemma_xfer_comp(*ast, ComparisonOperator::EQUAL, r0); }
                    r0
                } else if str_is(name, "!=") {
                    let r0 = self.build_compop(*name_pos, args, ComparisonOperator::NOTEQUAL);
                    proof { lemma_xfer_comp(*ast, ComparisonOperator::NOTEQUAL, r0); }
                    r0
                } else if str_is(name, ">") {
                    let r0 = self.build_compop(*name_pos, args, ComparisonOperator::GREATER);
                    proof { lemma_xfer_comp(*ast, ComparisonOperator::GREATER, r0); }
                    r0
                } else if str_is(name, "<") {
                    let r0 = self.build_compop(*name_pos, args, ComparisonOperator::LESS);
                    proof { lemma_xfer_comp(*ast, ComparisonOperator::LESS, r0); }
                    r0
                } else if str_is(name, ">=") {
                    let r0 = self.build_compop(*name_pos, args, ComparisonOperator::GREATEREQUAL);
                    proof { lemma_xfer_comp(*ast, ComparisonOperator::GREATEREQUAL, r0); }
                    r0
                } else if str_is(name, "<=") {
                    let r0 = self.build_compop(*name_pos, args, ComparisonOperator::LESSEQUAL);
                    proof { lemma_xfer_comp(*ast, ComparisonOperator::LESSEQUAL, r0); }
                    r0
                } else if str_is(name, "AND") {
                    let r0 = self.build_boolop(*name_pos, args, BooleanOperator::AND);
                    proof { lemma_xfer_bool(*ast, BooleanOperator::AND, r0); }
                    r0
                } else if str_is(name, "OR") {
                    let r0 = self.build_boolop(*name_pos, args, BooleanOperator::OR);
                    proof { lemma_xfer_bool(*ast, BooleanOperator::OR, r0); }
                    r0
                } else if str_is(name, "NOT") {
                    let r0 = self.build_boolop(*name_pos, args, BooleanOperator::NOT);
                    proof { lemma_xfer_bool(*ast, BooleanOperator::NOT, r0); }
                    r0
                } else if str_is(name, "CAST") {
                    let r0 = self.build_cast(*name_pos, args);
                    proof { lemma_xfer_cast(*ast, r0); }
                    r0
                } else if str_is(name, "ARRAY") {
                    let r0 = self.build_array(*name_pos, args);
                    proof { lemma_xfer_array(*ast, r0); }
                    r0
                } else if str_is(name, "STRUCT") {
                    let r0 = self.build_struct(*name_pos, args);
                    proof { lemma_xfer_struct(*ast, r0); }
                    r0
                } else if str_is(name, "FIELD") {
                    let r0 = self.build_field(*name_pos, args);
                    proof { lemma_xfer_field(*ast, r0); }
                    r0
                } else if str_is(name, "CHAR") || str_is(name, "INT") || str_is(name, "FLOAT")
                    || str_is(name, "BOOL") {
                    let r0 = self.build_prim(name, *name_pos, args);
                    proof { lemma_xfer_prim(*ast, r0); }
                    r0
                } else {
                    Err(IRError::UnknownStmt { pos: *name_pos, name: name.clone() })
                };
                match res {
                    Ok(n) => n,
                    Err(e) => {
                        self.errors.push(e);
                        proof {
                            assert(self.errors@.subrange(0, old(self).errors@.len() as int)
                                =~= old(self).errors@);
                        }
                        IRNode::new(IRNodeData::Invalid, ast.pos)
                    },
                }
            },
            _ => {
                let c = ast.clone();
                self.errors.push(IRError::UnexpectedNode(c));
                proof {
                    assert(self.errors@.subrange(0, old(self).errors@.len() as int) =~= old(
                        self,
                    ).errors@);
                }
                IRNode::new(IRNodeData::Invalid, ast.pos)
            },
        }
    }
}

} // verus!
