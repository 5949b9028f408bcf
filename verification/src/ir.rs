use vstd::prelude::*;

use crate::ast::Pos;
use crate::types::{Field, Generic, Type, TypeData, field_eq, type_eq};

verus! {

broadcast use vstd::std_specs::vec::axiom_vec_index_decreases;

#[derive(Clone, Copy, PartialEq, Eq, Structural, Debug)]
pub enum MathOperator {
    ADD,
    SUBTRACT,
    MULTIPLY,
    DIVIDE,
    MODULO,
    POWER,
    XOR,
    SHIFT,
    BOR,
}

#[derive(Clone, Copy, PartialEq, Eq, Structural, Debug)]
pub enum ComparisonOperator {
    EQUAL,
    NOTEQUAL,
    GREATER,
    LESS,
    GREATEREQUAL,
    LESSEQUAL,
}

#[derive(Clone, Copy, PartialEq, Eq, Structural, Debug)]
pub enum BooleanOperator {
    AND,
    OR,
    NOT,
}

/// A typed node of the intermediate representation. Every node the builder
/// hands out has already passed type checking; its static type is computed
/// from its shape by `IRNode::typ`, not stored redundantly.
#[derive(Debug)]
pub struct IRNode {
    pub data: IRNodeData,
    pub pos: Pos,
}

#[derive(Debug)]
pub enum IRNodeData {
    Block { scope: usize, body: Vec<IRNode> },
    Print(Vec<IRNode>),
    Math(Box<IRNode>, MathOperator, Box<IRNode>),
    Comparison(Box<IRNode>, ComparisonOperator, Box<IRNode>),
    /// The right operand is absent for `NOT`.
    Boolean(Box<IRNode>, BooleanOperator, Option<Box<IRNode>>),
    Define { var: usize, val: Box<IRNode>, edit: bool },
    Import(String),
    While { cond: Box<IRNode>, body: Box<IRNode> },
    TypeCase { var: usize, typ: Type, body: Box<IRNode> },
    Case { val: Box<IRNode> },
    TypeMatch { val: Box<IRNode>, body: Vec<IRNode> },
    Match { val: Box<IRNode>, body: Vec<IRNode> },
    If { cond: Box<IRNode>, body: Box<IRNode>, els: Box<IRNode>, ret_typ: Type },
    Void,
    // Literal values.
    Int(i64),
    /// A floating-point literal, carried as its IEEE double bit pattern; the
    /// library never interprets the bits itself.
    Float(u64),
    Char(u8),
    Bool(bool),
    // Composite type operations.
    Len(Box<IRNode>),
    Append { arr: Box<IRNode>, val: Box<IRNode> },
    GetEnum { enm: Box<IRNode>, typ: Type },
    GetStruct { strct: Box<IRNode>, field: String },
    StructOp { field: String, val: Box<IRNode> },
    SetStruct { strct: Box<IRNode>, vals: Box<IRNode> },
    Peek { bx: Box<IRNode>, typ: Type },
    Unbox { bx: Box<IRNode>, typ: Type },
    // Allocation.
    NewArray(Type, Option<usize>),
    NewEnum(Box<IRNode>, Type),
    NewBox(Box<IRNode>),
    NewStruct(Type, Vec<IRNode>),
    // Functions.
    Param { name: String, typ: Type },
    Returns(Type),
    // Type expressions.
    Type(Type),
    Field { name: String, typ: Type },
    Generic { name: String, typ: Type },
    TypeInstantiate { typ: Type, params: Vec<Type> },
    Cast(Box<IRNode>, Type),
    /// Stands in for a node that could not be built; its type is `INVALID`,
    /// which keeps one syntax error from being reported again by every
    /// construction on top of it.
    Invalid,
}

/// The declared type of the field with the given name, by linear search in
/// declaration order; `INVALID` if no field has that name (the builder is
/// required never to let that happen).
pub open spec fn field_lookup(fields: Seq<Field>, name: Seq<char>) -> Type
    decreases fields,
{
    if fields.len() == 0 {
        Type { data: TypeData::INVALID }
    } else if fields[0].name@ == name {
        fields[0].typ
    } else {
        field_lookup(fields.drop_first(), name)
    }
}

/// Whether a field with the given name is declared.
pub open spec fn field_declared(fields: Seq<Field>, name: Seq<char>) -> bool
    decreases fields,
{
    if fields.len() == 0 {
        false
    } else {
        fields[0].name@ == name || field_declared(fields.drop_first(), name)
    }
}

/// The static typing rule: a node's type as a function of its shape.
/// Statements type as `VOID`; expressions by their operands or declared
/// types; nodes that describe types as the meta type `TYPE` (a field
/// declaration as `FIELD`).
pub open spec fn spec_typ(n: IRNode) -> Type
    decreases n,
{
    match n.data {
        IRNodeData::Math(l, _, _) => spec_typ(*l),
        IRNodeData::Comparison(_, _, _) => Type { data: TypeData::BOOL },
        IRNodeData::Boolean(_, _, _) => Type { data: TypeData::BOOL },
        IRNodeData::Peek { .. } => Type { data: TypeData::BOOL },
        IRNodeData::Block { .. } => Type { data: TypeData::VOID },
        IRNodeData::Define { .. } => Type { data: TypeData::VOID },
        IRNodeData::Print(_) => Type { data: TypeData::VOID },
        IRNodeData::Import(_) => Type { data: TypeData::VOID },
        IRNodeData::While { .. } => Type { data: TypeData::VOID },
        IRNodeData::TypeCase { .. } => Type { data: TypeData::VOID },
        IRNodeData::Case { .. } => Type { data: TypeData::VOID },
        IRNodeData::TypeMatch { .. } => Type { data: TypeData::VOID },
        IRNodeData::Match { .. } => Type { data: TypeData::VOID },
        IRNodeData::If { .. } => Type { data: TypeData::VOID },
        IRNodeData::Void => Type { data: TypeData::VOID },
        IRNodeData::Append { .. } => Type { data: TypeData::VOID },
        IRNodeData::StructOp { .. } => Type { data: TypeData::VOID },
        IRNodeData::SetStruct { .. } => Type { data: TypeData::VOID },
        IRNodeData::Int(_) => Type { data: TypeData::INT },
        IRNodeData::Float(_) => Type { data: TypeData::FLOAT },
        IRNodeData::Char(_) => Type { data: TypeData::CHAR },
        IRNodeData::Bool(_) => Type { data: TypeData::BOOL },
        IRNodeData::Len(_) => Type { data: TypeData::INT },
        IRNodeData::GetEnum { typ, .. } => typ,
        IRNodeData::GetStruct { strct, field } => match spec_typ(*strct).data {
            TypeData::STRUCT { fields, .. } => field_lookup(fields@, field@),
            _ => Type { data: TypeData::INVALID },
        },
        IRNodeData::Unbox { typ, .. } => typ,
        IRNodeData::NewArray(typ, _) => Type { data: TypeData::ARRAY(Box::new(typ)) },
        IRNodeData::NewEnum(_, enm) => enm,
        IRNodeData::NewBox(_) => Type { data: TypeData::BOX },
        IRNodeData::NewStruct(typ, _) => typ,
        IRNodeData::Param { .. } => Type { data: TypeData::TYPE },
        IRNodeData::Returns(_) => Type { data: TypeData::TYPE },
        IRNodeData::Type(_) => Type { data: TypeData::TYPE },
        IRNodeData::Field { .. } => Type { data: TypeData::FIELD },
        IRNodeData::Generic { .. } => Type { data: TypeData::TYPE },
        IRNodeData::TypeInstantiate { .. } => Type { data: TypeData::TYPE },
        IRNodeData::Cast(_, typ) => typ,
        IRNodeData::Invalid => Type { data: TypeData::INVALID },
    }
}

impl IRNode {
    pub fn new(data: IRNodeData, pos: Pos) -> (r: Self)
        ensures
            r == (IRNode { data, pos }),
    {
        IRNode { data, pos }
    }

    /// The empty statement, at the zero position.
    pub fn void() -> (r: Self)
        ensures
            r == (IRNode {
                data: IRNodeData::Void,
                pos: Pos { file: 0, start_line: 0, start_col: 0, end_line: 0, end_col: 0 },
            }),
    {
        IRNode { data: IRNodeData::Void, pos: Pos::origin() }
    }

    /// Computes this node's static type by the structural rule `spec_typ`.
    #[verifier::loop_isolation(false)]
    pub fn typ(&self) -> (r: Type)
        ensures
            type_eq(r, spec_typ(*self)),
        decreases *self,
    {
        match &self.data {
            IRNodeData::Math(l, _, _) => l.typ(),
            IRNodeData::Comparison(_, _, _) => Type { data: TypeData::BOOL },
            IRNodeData::Boolean(_, _, _) => Type { data: TypeData::BOOL },
            IRNodeData::Peek { .. } => Type { data: TypeData::BOOL },
            IRNodeData::Block { .. } => Type::void(),
            IRNodeData::Define { .. } => Type::void(),
            IRNodeData::Print(_) => Type::void(),
            IRNodeData::Import(_) => Type::void(),
            IRNodeData::While { .. } => Type::void(),
            IRNodeData::TypeCase { .. } => Type::void(),
            IRNodeData::Case { .. } => Type::void(),
            IRNodeData::TypeMatch { .. } => Type::void(),
            IRNodeData::Match { .. } => Type::void(),
            IRNodeData::If { .. } => Type::void(),
            IRNodeData::Void => Type::void(),
            IRNodeData::Append { .. } => Type::void(),
            IRNodeData::StructOp { .. } => Type::void(),
            IRNodeData::SetStruct { .. } => Type::void(),
            IRNodeData::Int(_) => Type { data: TypeData::INT },
            IRNodeData::Float(_) => Type { data: TypeData::FLOAT },
            IRNodeData::Char(_) => Type { data: TypeData::CHAR },
            IRNodeData::Bool(_) => Type { data: TypeData::BOOL },
            IRNodeData::Len(_) => Type { data: TypeData::INT },
            IRNodeData::GetEnum { typ, .. } => typ.clone(),
            IRNodeData::GetStruct { strct, field } => {
                let st = strct.typ();
                match &st.data {
                    TypeData::STRUCT { fields, .. } => {
                        let ghost sfields = spec_typ(**strct).data->STRUCT_fields;
                        proof {
                            assert(crate::types::type_data_eq(st.data, spec_typ(**strct).data));
                            assert(crate::types::fields_eq(fields@, sfields@));
                            assert(sfields@.skip(0) =~= sfields@);
                        }
                        let mut i: usize = 0;
                        while i < fields.len()
                            invariant
                                i <= fields.len(),
                                field_lookup(sfields@, field@) == field_lookup(
                                    sfields@.skip(i as int),
                                    field@,
                                ),
                                forall|j: int|
                                    0 <= j < fields@.len() ==> field_eq(
                                        #[trigger] fields@[j],
                                        sfields@[j],
                                    ),
                            decreases fields.len() - i,
                        {
                            if crate::ast::str_eq(&fields[i].name, field) {
                                let c = fields[i].typ.clone();
                                proof {
                                    assert(sfields@.skip(i as int)[0] == sfields@[i as int]);
                                    crate::types::lemma_type_eq_trans(
                                        c,
                                        fields@[i as int].typ,
                                        sfields@[i as int].typ,
                                    );
                                }
                                return c;
                            }
                            proof {
                                assert(sfields@.skip(i as int)[0] == sfields@[i as int]);
                                assert(sfields@.skip(i as int).drop_first() == sfields@.skip(
                                    i as int + 1,
                                ));
                            }
                            i = i + 1;
                        }
                        Type::invalid()
                    },
                    _ => Type::invalid(),
                }
            },
            IRNodeData::Unbox { typ, .. } => typ.clone(),
            IRNodeData::NewArray(typ, _) => Type {
                data: TypeData::ARRAY(Box::new(typ.clone())),
            },
            IRNodeData::NewEnum(_, enm) => enm.clone(),
            IRNodeData::NewBox(_) => Type { data: TypeData::BOX },
            IRNodeData::NewStruct(typ, _) => typ.clone(),
            IRNodeData::Param { .. } => Type { data: TypeData::TYPE },
            IRNodeData::Returns(_) => Type { data: TypeData::TYPE },
            IRNodeData::Type(_) => Type { data: TypeData::TYPE },
            IRNodeData::Field { .. } => Type { data: TypeData::FIELD },
            IRNodeData::Generic { .. } => Type { data: TypeData::TYPE },
            IRNodeData::TypeInstantiate { .. } => Type { data: TypeData::TYPE },
            IRNodeData::Cast(_, typ) => typ.clone(),
            IRNodeData::Invalid => Type::invalid(),
        }
    }
}

} // verus!
