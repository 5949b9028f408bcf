use vstd::prelude::*;

use crate::ast::{ASTNode, ASTNodeDataType, Pos};
use crate::errors::IRError;
use crate::fns::{
    arg_err_matches, btag, build_preserves, builds_to, cast_target_of, cast_value_ok,
    all_members_ok, lemma_builds_to_tag, payload_builds, prim_tag_of, struct_members_build,
    typecheck_ast,
};
use crate::types::lemma_concrete_idempotent;
use crate::ir::{IRNode, IRNodeData};
use crate::stack::IR;
use crate::types::{Field, Generic, Type, TypeData};

verus! {

broadcast use vstd::std_specs::vec::axiom_vec_index_decreases, vstd::string::group_string_axioms;

/// The field declarations among a struct form's built members, in order.
pub open spec fn field_members(pars: Seq<IRNode>) -> Seq<Field>
    decreases pars,
{
    if pars.len() == 0 {
        Seq::empty()
    } else {
        field_members(pars.drop_last()) + (match pars.last().data {
            IRNodeData::Field { name, typ } => seq![Field { name, typ }],
            _ => Seq::empty(),
        })
    }
}

/// The generic-parameter declarations among a struct form's built members,
/// in order.
pub open spec fn gen_members(pars: Seq<IRNode>) -> Seq<Generic>
    decreases pars,
{
    if pars.len() == 0 {
        Seq::empty()
    } else {
        gen_members(pars.drop_last()) + (match pars.last().data {
            IRNodeData::Generic { name, typ } => seq![Generic { name, typ }],
            _ => Seq::empty(),
        })
    }
}

/// Every member of a struct form must be a field declaration, a generic
/// declaration, or a node that already failed to build (reported where it
/// failed, skipped here).
pub open spec fn members_ok(pars: Seq<IRNode>) -> bool {
    forall|i: int|
        0 <= i < pars.len() ==> ((#[trigger] pars[i]).data is Field || pars[i].data is Generic
            || pars[i].data is Invalid)
}

/// Partitions a struct form's built members into its ordered generic
/// parameters and its ordered fields; any other member is rejected.
#[verifier::loop_isolation(false)]
pub fn partition_members(pos: Pos, pars: Vec<IRNode>) -> (r: Result<
    (Vec<Generic>, Vec<Field>),
    IRError,
>)
    ensures
        r is Ok <==> members_ok(pars@),
        r matches Ok(pf) ==> pf.0@ == gen_members(pars@) && pf.1@ == field_members(pars@),
        r matches Err(e) ==> e matches IRError::InvalidArgument { expected, .. } && expected
            is PARAM,
{
    let ghost orig = pars@;
    let n0 = pars.len();
    proof {
        assert(orig.len() == n0);
    }
    let mut rest = pars;
    let mut params: Vec<Generic> = Vec::new();
    let mut fields: Vec<Field> = Vec::new();
    let mut i: usize = 0;
    proof {
        assert(orig.take(0) =~= Seq::<IRNode>::empty());
    }
    while rest.len() > 0
        invariant
            orig.len() <= usize::MAX,
            i + rest@.len() == orig.len(),
            rest@ =~= orig.skip(i as int),
            params@ == gen_members(orig.take(i as int)),
            fields@ == field_members(orig.take(i as int)),
            members_ok(orig.take(i as int)),
        decreases rest@.len(),
    {
        let n = rest.remove(0);
        proof {
            assert(n == orig[i as int]);
            assert(rest@ =~= orig.skip(i as int + 1));
            assert(orig.take(i as int + 1).drop_last() =~= orig.take(i as int));
            assert(orig.take(i as int + 1).last() == orig[i as int]);
        }
        match n.data {
            IRNodeData::Field { name, typ } => {
                fields.push(Field { name, typ });
            },
            IRNodeData::Generic { name, typ } => {
                params.push(Generic { name, typ });
            },
            IRNodeData::Invalid => {},
            _ => {
                return Err(IRError::InvalidArgument { expected: TypeData::PARAM, got: n });
            },
        }
        i = i + 1;
    }
    proof {
        assert(orig.take(i as int) =~= orig);
    }
    Ok((params, fields))
}
/// The whole contract of `build_array`: one argument that denotes a type
/// (or is already `INVALID`, contained) yields an array type over exactly
/// the denoted element type; anything else is the precise diagnostic.
pub open spec fn array_builds(pos: Pos, args: Seq<ASTNode>, r: Result<IRNode, IRError>) -> bool {
    if args.len() != 1 {
        r matches Err(e) && arg_err_matches(e, pos, args, seq![ASTNodeDataType::Any])
    } else if btag(args[0]) is TYPE || btag(args[0]) is INVALID {
        r matches Ok(n) && n.pos == pos && (n.data matches IRNodeData::Type(t) && (t.data
            matches TypeData::ARRAY(e) && payload_builds(args[0], *e)))
    } else {
        r matches Err(e) && (e matches IRError::InvalidArgument { expected, got } && expected
            is TYPE && builds_to(args[0], got))
    }
}

/// The whole contract of `build_struct`: acceptable members yield a struct
/// type whose fields are exactly what the field forms declare, in order,
/// with no generic parameters (this fragment builds none); an unacceptable
/// member is the `InvalidArgument` diagnostic with `PARAM` expected.
pub open spec fn struct_builds(pos: Pos, args: Seq<ASTNode>, r: Result<IRNode, IRError>) -> bool {
    if all_members_ok(args) {
        r matches Ok(n) && n.pos == pos && (n.data matches IRNodeData::Type(t) && (t.data
            matches TypeData::STRUCT { params, fields } && params@.len() == 0
            && struct_members_build(args, fields@)))
    } else {
        r matches Err(e) && e matches IRError::InvalidArgument { expected, .. } && expected
            is PARAM
    }
}

/// The whole contract of `build_prim`: the keyword with no arguments yields
/// exactly the type it names; any argument is the precise count diagnostic.
pub open spec fn prim_builds(
    name: Seq<char>,
    pos: Pos,
    args: Seq<ASTNode>,
    r: Result<IRNode, IRError>,
) -> bool {
    if args.len() != 0 {
        r matches Err(e) && arg_err_matches(e, pos, args, Seq::empty())
    } else {
        r matches Ok(n) && n.pos == pos && (n.data matches IRNodeData::Type(t) && t.data
            == prim_tag_of(name))
    }
}

/// The whole contract of `build_field`: a field-name token paired with an
/// expression denoting a type (or already `INVALID`, contained) yields the
/// field declaration carrying that name and exactly the denoted type; a
/// second argument of any other static type is the `InvalidType`
/// diagnostic, and a malformed argument list the precise count/kind one.
pub open spec fn field_builds(pos: Pos, args: Seq<ASTNode>, r: Result<IRNode, IRError>) -> bool {
    if !crate::fns::args_match(args, seq![ASTNodeDataType::Field, ASTNodeDataType::Any]) {
        r matches Err(e) && arg_err_matches(
            e,
            pos,
            args,
            seq![ASTNodeDataType::Field, ASTNodeDataType::Any],
        )
    } else if btag(args[1]) is TYPE || btag(args[1]) is INVALID {
        r matches Ok(n) && n.pos == pos && (n.data matches IRNodeData::Field { name, typ }
            && name@ == args[0].data->Field_0@ && payload_builds(args[1], typ))
    } else {
        r matches Err(e) && e matches IRError::InvalidType { .. }
    }
}

/// The whole contract of `build_cast`: a target that is one of the three
/// castable type keywords and a value of primitive static type (or already
/// `INVALID`, contained) yield a cast of the built value to exactly that
/// primitive; anything else is the corresponding diagnostic.
pub open spec fn cast_builds(pos: Pos, args: Seq<ASTNode>, r: Result<IRNode, IRError>) -> bool {
    if args.len() != 2 {
        r matches Err(e) && arg_err_matches(
            e,
            pos,
            args,
            seq![ASTNodeDataType::Any, ASTNodeDataType::Any],
        )
    } else if cast_target_of(args[0]) is INVALID {
        r matches Err(e) && (e matches IRError::InvalidArgument { expected, got } && expected
            is FLOAT && builds_to(args[0], got))
    } else if !cast_value_ok(btag(args[1])) {
        r matches Err(e) && (e matches IRError::InvalidArgument { expected, got } && expected
            is FLOAT && builds_to(args[1], got))
    } else {
        r matches Ok(n) && n.pos == pos && (n.data matches IRNodeData::Cast(v, t) && t.data
            == cast_target_of(args[0]) && builds_to(args[1], *v))
    }
}

impl IR {
    /// Builds a struct type expression, exactly as `struct_builds` states:
    /// the members are built and partitioned by `partition_members`.
    #[verifier::loop_isolation(false)]
    pub fn build_struct(&mut self, pos: Pos, args: &Vec<ASTNode>) -> (r: Result<IRNode, IRError>)
        ensures
            build_preserves(*old(self), *final(self)),
            struct_builds(pos, args@, r),
        decreases 1 + crate::ast::ast_seq_height(args@),
    {
        proof {
            assert(self.errors@.subrange(0, self.errors@.len() as int) =~= self.errors@);
        }
        let mut pars: Vec<IRNode> = Vec::new();
        let mut i: usize = 0;
        while i < args.len()
            invariant
                i <= args@.len(),
                pars@.len() == i,
                forall|j: int| 0 <= j < i ==> builds_to(args@[j], #[trigger] pars@[j]),
                build_preserves(*old(self), *self),
            decreases args@.len() - i,
        {
            proof {
                crate::ast::lemma_ast_seq_height(args@, i as int);
            }
            let n = self.build_node(&args[i]);
            proof {
                assert(self.errors@.subrange(0, old(self).errors@.len() as int) =~= old(
                    self,
                ).errors@);
            }
            pars.push(n);
            i = i + 1;
        }
        proof {
            crate::fns::lemma_members_bridge(args@, pars@);
        }
        match partition_members(pos, pars) {
            Err(e) => Err(e),
            Ok((params, fields)) => Ok(
                IRNode::new(
                    IRNodeData::Type(Type { data: TypeData::STRUCT { params, fields } }),
                    pos,
                ),
            ),
        }
    }

    /// Builds an array type expression, exactly as `array_builds` states.
    pub fn build_array(&mut self, pos: Pos, args: &Vec<ASTNode>) -> (r: Result<IRNode, IRError>)
        ensures
            build_preserves(*old(self), *final(self)),
            array_builds(pos, args@, r),
        decreases 1 + crate::ast::ast_seq_height(args@),
    {
        let expected: Vec<ASTNodeDataType> = vec![ASTNodeDataType::Any];
        proof {
            assert(expected@ =~= seq![ASTNodeDataType::Any]);
            assert(self.errors@.subrange(0, self.errors@.len() as int) =~= self.errors@);
        }
        match typecheck_ast(pos, args, &expected) {
            Err(e) => {
                return Err(e);
            },
            Ok(()) => {},
        }
        proof {
            crate::ast::lemma_ast_seq_height(args@, 0);
        }
        let child = self.build_node(&args[0]);
        proof {
            assert(self.errors@.subrange(0, old(self).errors@.len() as int) =~= old(self).errors@);
        }
        let ct = child.typ();
        let ctc = ct.data.concrete(self);
        proof {
            lemma_builds_to_tag(args@[0], child);
            crate::fns::lemma_eq_scalar(ct.data, btag(args@[0]));
            lemma_concrete_idempotent(ct.data, self.types@);
            crate::fns::lemma_eq_scalar(ctc, btag(args@[0]));
            crate::fns::lemma_builds_to_payload(args@[0], child);
        }
        if !(matches!(ctc, TypeData::TYPE) || matches!(ctc, TypeData::INVALID)) {
            return Err(IRError::InvalidArgument { expected: TypeData::TYPE, got: child });
        }
        let elem = match child.data {
            IRNodeData::Type(t) => t,
            _ => Type::invalid(),
        };
        Ok(IRNode::new(IRNodeData::Type(Type { data: TypeData::ARRAY(Box::new(elem)) }), pos))
    }

    /// Builds a primitive type expression, exactly as `prim_builds` states.
    pub fn build_prim(&mut self, name: &String, pos: Pos, args: &Vec<ASTNode>) -> (r: Result<
        IRNode,
        IRError,
    >)
        requires
            name@ == "CHAR"@ || name@ == "INT"@ || name@ == "FLOAT"@ || name@ == "BOOL"@,
        ensures
            build_preserves(*old(self), *final(self)),
            prim_builds(name@, pos, args@, r),
    {
        proof {
            reveal_strlit("CHAR");
            reveal_strlit("INT");
            reveal_strlit("FLOAT");
            reveal_strlit("BOOL");
            assert(self.errors@.subrange(0, self.errors@.len() as int) =~= self.errors@);
        }
        let expected: Vec<ASTNodeDataType> = Vec::new();
        proof {
            assert(expected@ =~= Seq::<ASTNodeDataType>::empty());
        }
        match typecheck_ast(pos, args, &expected) {
            Err(e) => {
                return Err(e);
            },
            Ok(()) => {},
        }
        proof {
            assert(("CHAR"@).len() == 4 && ("INT"@).len() == 3 && ("FLOAT"@).len() == 5 && (
            "BOOL"@).len() == 4);
            assert(("CHAR"@)[0] == 'C' && ("BOOL"@)[0] == 'B');
            assert("CHAR"@ != "BOOL"@);
        }
        let t = if crate::ast::str_is(name, "CHAR") {
            TypeData::CHAR
        } else if crate::ast::str_is(name, "INT") {
            TypeData::INT
        } else if crate::ast::str_is(name, "FLOAT") {
            TypeData::FLOAT
        } else {
            TypeData::BOOL
        };
        Ok(IRNode::new(IRNodeData::Type(Type { data: t }), pos))
    }

    /// Builds a field declaration, exactly as `field_builds` states.
    pub fn build_field(&mut self, pos: Pos, args: &Vec<ASTNode>) -> (r: Result<IRNode, IRError>)
        ensures
            build_preserves(*old(self), *final(self)),
            field_builds(pos, args@, r),
        decreases 1 + crate::ast::ast_seq_height(args@),
    {
        let expected: Vec<ASTNodeDataType> = vec![ASTNodeDataType::Field, ASTNodeDataType::Any];
        proof {
            assert(expected@ =~= seq![ASTNodeDataType::Field, ASTNodeDataType::Any]);
            assert(self.errors@.subrange(0, self.errors@.len() as int) =~= self.errors@);
        }
        match typecheck_ast(pos, args, &expected) {
            Err(e) => {
                return Err(e);
            },
            Ok(()) => {},
        }
        proof {
            crate::ast::lemma_ast_seq_height(args@, 1);
        }
        let typ_node = self.build_node(&args[1]);
        proof {
            assert(self.errors@.subrange(0, old(self).errors@.len() as int) =~= old(self).errors@);
        }
        let tt = typ_node.typ();
        proof {
            lemma_builds_to_tag(args@[1], typ_node);
            crate::fns::lemma_eq_scalar(tt.data, btag(args@[1]));
            crate::fns::lemma_builds_to_payload(args@[1], typ_node);
        }
        match tt.expect(typ_node.pos, &Type { data: TypeData::TYPE }) {
            Err(e) => {
                return Err(e);
            },
            Ok(()) => {},
        }
        let name = match &args[0].data {
            crate::ast::ASTNodeData::Field(v) => v.clone(),
            _ => {
                proof {
                    assert(crate::fns::kind_matches(args@[0], ASTNodeDataType::Field));
                }
                vstd::pervasive::unreached()
            },
        };
        let t = match typ_node.data {
            IRNodeData::Type(t) => t,
            _ => Type::invalid(),
        };
        Ok(IRNode::new(IRNodeData::Field { name, typ: t }, pos))
    }

    /// Builds a cast expression, exactly as `cast_builds` states.
    pub fn build_cast(&mut self, pos: Pos, args: &Vec<ASTNode>) -> (r: Result<IRNode, IRError>)
        ensures
            build_preserves(*old(self), *final(self)),
            cast_builds(pos, args@, r),
        decreases 1 + crate::ast::ast_seq_height(args@),
    {
        let expected: Vec<ASTNodeDataType> = vec![ASTNodeDataType::Any, ASTNodeDataType::Any];
        proof {
            assert(expected@ =~= seq![ASTNodeDataType::Any, ASTNodeDataType::Any]);
            assert(self.errors@.subrange(0, self.errors@.len() as int) =~= self.errors@);
        }
        match typecheck_ast(pos, args, &expected) {
            Err(e) => {
                return Err(e);
            },
            Ok(()) => {},
        }
        proof {
            crate::ast::lemma_ast_seq_height(args@, 0);
            crate::ast::lemma_ast_seq_height(args@, 1);
        }
        let target_node = self.build_node(&args[0]);
        let value = self.build_node(&args[1]);
        proof {
            assert(self.errors@.subrange(0, old(self).errors@.len() as int) =~= old(self).errors@);
            crate::fns::lemma_cast_target(args@[0], target_node);
            lemma_builds_to_tag(args@[1], value);
        }
        let tag_found: Option<TypeData> = match &target_node.data {
            IRNodeData::Type(t) => match &t.data {
                TypeData::CHAR => Some(TypeData::CHAR),
                TypeData::INT => Some(TypeData::INT),
                TypeData::FLOAT => Some(TypeData::FLOAT),
                _ => None,
            },
            _ => None,
        };
        let target_prim = match tag_found {
            Some(t) => t,
            None => {
                return Err(
                    IRError::InvalidArgument { expected: TypeData::FLOAT, got: target_node },
                );
            },
        };
        let vt = value.typ();
        let vtc = vt.data.concrete(self);
        proof {
            crate::fns::lemma_eq_scalar(vt.data, btag(args@[1]));
            lemma_concrete_idempotent(vt.data, self.types@);
            crate::fns::lemma_eq_scalar(vtc, btag(args@[1]));
        }
        if !(matches!(vtc, TypeData::CHAR) || matches!(vtc, TypeData::INT) || matches!(
            vtc,
            TypeData::FLOAT,
        ) || matches!(vtc, TypeData::INVALID)) {
            return Err(IRError::InvalidArgument { expected: TypeData::FLOAT, got: value });
        }
        Ok(IRNode::new(IRNodeData::Cast(Box::new(value), Type { data: target_prim }), pos))
    }
}

} // verus!
