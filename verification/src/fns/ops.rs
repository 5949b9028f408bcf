use vstd::prelude::*;

use crate::ast::{ASTNode, ASTNodeDataType, Pos, ast_seq_height, lemma_ast_seq_height};
use crate::errors::IRError;
use crate::fns::{
    arg_err_matches, bool_operand_ok, btag, build_preserves, builds_to, lemma_builds_to_tag,
    typecheck_ast,
};
use crate::ir::{BooleanOperator, ComparisonOperator, IRNode, IRNodeData, MathOperator};
use crate::stack::IR;
use crate::types::{TypeData, lemma_concrete_idempotent};

verus! {

/// The operand shapes arithmetic accepts: one numeric primitive on both
/// sides, or an operand whose type is already `INVALID` (then the error was
/// reported where it arose and is not reported again).
pub open spec fn math_operands_ok(lt: TypeData, rt: TypeData) -> bool {
    ||| (lt is INT && rt is INT)
    ||| (lt is FLOAT && rt is FLOAT)
    ||| (lt is CHAR && rt is CHAR)
    ||| lt is INVALID
    ||| rt is INVALID
}

/// The operand shapes a comparison accepts: the arithmetic pairs under every
/// operator, booleans only under equality and inequality (an ordering of
/// booleans is rejected here, at build time), and `INVALID` contained.
pub open spec fn comp_operands_ok(lt: TypeData, rt: TypeData, op: ComparisonOperator) -> bool {
    ||| (lt is INT && rt is INT)
    ||| (lt is FLOAT && rt is FLOAT)
    ||| (lt is CHAR && rt is CHAR)
    ||| (lt is BOOL && rt is BOOL && (op is EQUAL || op is NOTEQUAL))
    ||| lt is INVALID
    ||| rt is INVALID
}

/// The whole contract of `build_mathop`: a wrong argument count is the
/// precise count diagnostic; operands of admissible types yield exactly the
/// operation node over the built operands; anything else is one
/// `InvalidArgument` carrying the built left operand, with `FLOAT` as the
/// reported expectation for the numeric family.
pub open spec fn mathop_builds(
    pos: Pos,
    args: Seq<ASTNode>,
    op: MathOperator,
    r: Result<IRNode, IRError>,
) -> bool {
    if args.len() != 2 {
        r matches Err(e) && arg_err_matches(
            e,
            pos,
            args,
            seq![ASTNodeDataType::Any, ASTNodeDataType::Any],
        )
    } else if math_operands_ok(btag(args[0]), btag(args[1])) {
        r matches Ok(n) && n.pos == pos && (n.data matches IRNodeData::Math(l, o, rr) && o == op
            && builds_to(args[0], *l) && builds_to(args[1], *rr))
    } else {
        r matches Err(e) && (e matches IRError::InvalidArgument { expected, got } && expected
            is FLOAT && builds_to(args[0], got))
    }
}

/// The whole contract of `build_compop`, shaped like `mathop_builds`;
/// booleans are admissible only under equality and inequality, so an
/// ordering of booleans is rejected here and never reaches the interpreter.
pub open spec fn compop_builds(
    pos: Pos,
    args: Seq<ASTNode>,
    op: ComparisonOperator,
    r: Result<IRNode, IRError>,
) -> bool {
    if args.len() != 2 {
        r matches Err(e) && arg_err_matches(
            e,
            pos,
            args,
            seq![ASTNodeDataType::Any, ASTNodeDataType::Any],
        )
    } else if comp_operands_ok(btag(args[0]), btag(args[1]), op) {
        r matches Ok(n) && n.pos == pos && (n.data matches IRNodeData::Comparison(l, o, rr) && o
            == op && builds_to(args[0], *l) && builds_to(args[1], *rr))
    } else {
        r matches Err(e) && (e matches IRError::InvalidArgument { expected, got } && expected
            is FLOAT && builds_to(args[0], got))
    }
}

/// The whole contract of `build_boolop`: `NOT` takes exactly one boolean
/// operand, `AND`/`OR` exactly two; a non-boolean operand is one
/// `InvalidArgument` carrying the first offending built operand.
pub open spec fn boolop_builds(
    pos: Pos,
    args: Seq<ASTNode>,
    op: BooleanOperator,
    r: Result<IRNode, IRError>,
) -> bool {
    if op is NOT {
        if args.len() != 1 {
            r matches Err(e) && arg_err_matches(e, pos, args, seq![ASTNodeDataType::Any])
        } else if bool_operand_ok(btag(args[0])) {
            r matches Ok(n) && n.pos == pos && (n.data matches IRNodeData::Boolean(l, o, rr) && o
                == op && rr is None && builds_to(args[0], *l))
        } else {
            r matches Err(e) && (e matches IRError::InvalidArgument { expected, got } && expected
                is BOOL && builds_to(args[0], got))
        }
    } else {
        if args.len() != 2 {
            r matches Err(e) && arg_err_matches(
                e,
                pos,
                args,
                seq![ASTNodeDataType::Any, ASTNodeDataType::Any],
            )
        } else if bool_operand_ok(btag(args[0])) && bool_operand_ok(btag(args[1])) {
            r matches Ok(n) && n.pos == pos && (n.data matches IRNodeData::Boolean(l, o, rr) && o
                == op && builds_to(args[0], *l) && (rr matches Some(rb) && builds_to(
                args[1],
                *rb,
            )))
        } else {
            r matches Err(e) && (e matches IRError::InvalidArgument { expected, got } && expected
                is BOOL && (if !bool_operand_ok(btag(args[0])) {
                builds_to(args[0], got)
            } else {
                builds_to(args[1], got)
            }))
        }
    }
}

impl IR {
    /// Builds an arithmetic operation, exactly as `mathop_builds` states.
    pub fn build_mathop(&mut self, pos: Pos, args: &Vec<ASTNode>, op: MathOperator) -> (r: Result<
        IRNode,
        IRError,
    >)
        ensures
            build_preserves(*old(self), *final(self)),
            mathop_builds(pos, args@, op, r),
        decreases 1 + ast_seq_height(args@),
    {
        let expected: Vec<ASTNodeDataType> = vec![ASTNodeDataType::Any, ASTNodeDataType::Any];
        proof {
            assert(expected@ =~= seq![ASTNodeDataType::Any, ASTNodeDataType::Any]);
            assert(self.errors@.subrange(0, self.errors@.len() as int) =~= self.errors@);
        }
        match typecheck_ast(pos, args, &expected) {
            Err(e) => {
                return Err(e);
            },
            Ok(()) => {},
        }
        proof {
            lemma_ast_seq_height(args@, 0);
            lemma_ast_seq_height(args@, 1);
        }
        let left = self.build_node(&args[0]);
        let right = self.build_node(&args[1]);
        proof {
            assert(self.errors@.subrange(0, old(self).errors@.len() as int) =~= old(self).errors@);
        }
        let lt = left.typ();
        let ltc = lt.data.concrete(self);
        let rt = right.typ();
        let rtc = rt.data.concrete(self);
        proof {
            lemma_builds_to_tag(args@[0], left);
            lemma_builds_to_tag(args@[1], right);
            crate::fns::lemma_eq_scalar(lt.data, btag(args@[0]));
            crate::fns::lemma_eq_scalar(rt.data, btag(args@[1]));
            lemma_concrete_idempotent(lt.data, self.types@);
            lemma_concrete_idempotent(rt.data, self.types@);
            crate::fns::lemma_eq_scalar(ltc, btag(args@[0]));
            crate::fns::lemma_eq_scalar(rtc, btag(args@[1]));
        }
        let ok = (matches!(ltc, TypeData::INT) && matches!(rtc, TypeData::INT)) || (matches!(
            ltc,
            TypeData::FLOAT,
        ) && matches!(rtc, TypeData::FLOAT)) || (matches!(ltc, TypeData::CHAR) && matches!(
            rtc,
            TypeData::CHAR,
        )) || matches!(ltc, TypeData::INVALID) || matches!(rtc, TypeData::INVALID);
        if !ok {
            return Err(IRError::InvalidArgument { expected: TypeData::FLOAT, got: left });
        }
        Ok(IRNode::new(IRNodeData::Math(Box::new(left), op, Box::new(right)), pos))
    }

    /// Builds a comparison, exactly as `compop_builds` states.
    pub fn build_compop(&mut self, pos: Pos, args: &Vec<ASTNode>, op: ComparisonOperator) -> (r:
        Result<IRNode, IRError>)
        ensures
            build_preserves(*old(self), *final(self)),
            compop_builds(pos, args@, op, r),
        decreases 1 + ast_seq_height(args@),
    {
        let expected: Vec<ASTNodeDataType> = vec![ASTNodeDataType::Any, ASTNodeDataType::Any];
        proof {
            assert(expected@ =~= seq![ASTNodeDataType::Any, ASTNodeDataType::Any]);
            assert(self.errors@.subrange(0, self.errors@.len() as int) =~= self.errors@);
        }
        match typecheck_ast(pos, args, &expected) {
            Err(e) => {
                return Err(e);
            },
            Ok(()) => {},
        }
        proof {
            lemma_ast_seq_height(args@, 0);
            lemma_ast_seq_height(args@, 1);
        }
        let left = self.build_node(&args[0]);
        let right = self.build_node(&args[1]);
        proof {
            assert(self.errors@.subrange(0, old(self).errors@.len() as int) =~= old(self).errors@);
        }
        let lt = left.typ();
        let ltc = lt.data.concrete(self);
        let rt = right.typ();
        let rtc = rt.data.concrete(self);
        proof {
            lemma_builds_to_tag(args@[0], left);
            lemma_builds_to_tag(args@[1], right);
            crate::fns::lemma_eq_scalar(lt.data, btag(args@[0]));
            crate::fns::lemma_eq_scalar(rt.data, btag(args@[1]));
            lemma_concrete_idempotent(lt.data, self.types@);
            lemma_concrete_idempotent(rt.data, self.types@);
            crate::fns::lemma_eq_scalar(ltc, btag(args@[0]));
            crate::fns::lemma_eq_scalar(rtc, btag(args@[1]));
        }
        let eqop = op == ComparisonOperator::EQUAL || op == ComparisonOperator::NOTEQUAL;
        let ok = (matches!(ltc, TypeData::INT) && matches!(rtc, TypeData::INT)) || (matches!(
            ltc,
            TypeData::FLOAT,
        ) && matches!(rtc, TypeData::FLOAT)) || (matches!(ltc, TypeData::CHAR) && matches!(
            rtc,
            TypeData::CHAR,
        )) || (matches!(ltc, TypeData::BOOL) && matches!(rtc, TypeData::BOOL) && eqop) || matches!(
            ltc,
            TypeData::INVALID,
        ) || matches!(rtc, TypeData::INVALID);
        if !ok {
            return Err(IRError::InvalidArgument { expected: TypeData::FLOAT, got: left });
        }
        Ok(IRNode::new(IRNodeData::Comparison(Box::new(left), op, Box::new(right)), pos))
    }

    /// Builds a boolean operation, exactly as `boolop_builds` states.
    pub fn build_boolop(&mut self, pos: Pos, args: &Vec<ASTNode>, op: BooleanOperator) -> (r:
        Result<IRNode, IRError>)
        ensures
            build_preserves(*old(self), *final(self)),
            boolop_builds(pos, args@, op, r),
        decreases 1 + ast_seq_height(args@),
    {
        if op == BooleanOperator::NOT {
            let expected: Vec<ASTNodeDataType> = vec![ASTNodeDataType::Any];
            proof {
                assert(expected@ =~= seq![ASTNodeDataType::Any]);
                assert(self.errors@.subrange(0, self.errors@.len() as int) =~= self.errors@);
            }
            match typecheck_ast(pos, args, &expected) {
                Err(e) => {
                    return Err(e);
                },
                Ok(()) => {},
            }
            proof {
                lemma_ast_seq_height(args@, 0);
            }
            let arg = self.build_node(&args[0]);
            proof {
                assert(self.errors@.subrange(0, old(self).errors@.len() as int) =~= old(
                    self,
                ).errors@);
            }
            let at = arg.typ();
            let atc = at.data.concrete(self);
            proof {
                lemma_builds_to_tag(args@[0], arg);
                crate::fns::lemma_eq_scalar(at.data, btag(args@[0]));
                lemma_concrete_idempotent(at.data, self.types@);
                crate::fns::lemma_eq_scalar(atc, btag(args@[0]));
            }
            if !(matches!(atc, TypeData::BOOL) || matches!(atc, TypeData::INVALID)) {
                return Err(IRError::InvalidArgument { expected: TypeData::BOOL, got: arg });
            }
            return Ok(IRNode::new(IRNodeData::Boolean(Box::new(arg), op, None), pos));
        }
        let expected: Vec<ASTNodeDataType> = vec![ASTNodeDataType::Any, ASTNodeDataType::Any];
        proof {
            assert(expected@ =~= seq![ASTNodeDataType::Any, ASTNodeDataType::Any]);
            assert(self.errors@.subrange(0, self.errors@.len() as int) =~= self.errors@);
        }
        match typecheck_ast(pos, args, &expected) {
            Err(e) => {
                return Err(e);
            },
            Ok(()) => {},
        }
        proof {
            lemma_ast_seq_height(args@, 0);
            lemma_ast_seq_height(args@, 1);
        }
        let left = self.build_node(&args[0]);
        let right = self.build_node(&args[1]);
        proof {
            assert(self.errors@.subrange(0, old(self).errors@.len() as int) =~= old(self).errors@);
        }
        let lt = left.typ();
        let ltc = lt.data.concrete(self);
        let rt = right.typ();
        let rtc = rt.data.concrete(self);
        proof {
            lemma_builds_to_tag(args@[0], left);
            lemma_builds_to_tag(args@[1], right);
            crate::fns::lemma_eq_scalar(lt.data, btag(args@[0]));
            crate::fns::lemma_eq_scalar(rt.data, btag(args@[1]));
            lemma_concrete_idempotent(lt.data, self.types@);
            lemma_concrete_idempotent(rt.data, self.types@);
            crate::fns::lemma_eq_scalar(ltc, btag(args@[0]));
            crate::fns::lemma_eq_scalar(rtc, btag(args@[1]));
        }
        if !(matches!(ltc, TypeData::BOOL) || matches!(ltc, TypeData::INVALID)) {
            return Err(IRError::InvalidArgument { expected: TypeData::BOOL, got: left });
        }
        if !(matches!(rtc, TypeData::BOOL) || matches!(rtc, TypeData::INVALID)) {
            return Err(IRError::InvalidArgument { expected: TypeData::BOOL, got: right });
        }
        Ok(IRNode::new(IRNodeData::Boolean(Box::new(left), op, Some(Box::new(right))), pos))
    }
}

} // verus!
