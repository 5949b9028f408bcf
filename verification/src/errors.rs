use vstd::prelude::*;

use crate::ast::{ASTNode, ASTNodeDataType, Pos};
use crate::ir::IRNode;
use crate::types::{Type, TypeData};

verus! {

/// A failure of the file-set collaborator: an import named a file that is not
/// in the loaded set. The embedder loads files and retries the build.
#[derive(Debug)]
pub enum FSetError {
    NotFound(String),
}

/// A build-time diagnostic. Every variant carries enough to point at a source
/// position; the pass accumulates these instead of stopping at the first.
#[derive(Debug)]
pub enum IRError {
    UnexpectedNode(ASTNode),
    UnknownStmt { pos: Pos, name: String },
    InvalidGlobalDef(IRNode),
    InvalidArgumentCount { pos: Pos, expected: usize, got: usize },
    InvalidASTArgument { expected: ASTNodeDataType, got: ASTNode },
    InvalidArgument { expected: TypeData, got: IRNode },
    FSetError(FSetError),
    InvalidType { pos: Pos, expected: Type, got: Type },
    UnknownType { pos: Pos, name: String },
    ReturnStatementOutsideFunction(Pos),
}

impl From<FSetError> for IRError {
    fn from(e: FSetError) -> (r: IRError)
        ensures
            r == IRError::FSetError(e),
    {
        IRError::FSetError(e)
    }
}

impl vstd::std_specs::convert::FromSpecImpl<FSetError> for IRError {
    open spec fn obeys_from_spec() -> bool {
        true
    }

    open spec fn from_spec(e: FSetError) -> IRError {
        IRError::FSetError(e)
    }
}

/// The source position a diagnostic points at. A wrapped file-set failure has
/// no position of its own and reports the zero position.
pub open spec fn spec_err_pos(e: IRError) -> Pos {
    match e {
        IRError::UnexpectedNode(n) => n.pos,
        IRError::UnknownStmt { pos, .. } => pos,
        IRError::InvalidGlobalDef(n) => n.pos,
        IRError::InvalidArgumentCount { pos, .. } => pos,
        IRError::InvalidASTArgument { got, .. } => got.pos,
        IRError::InvalidArgument { got, .. } => got.pos,
        IRError::FSetError(_) => Pos { file: 0, start_line: 0, start_col: 0, end_line: 0, end_col: 0 },
        IRError::InvalidType { pos, .. } => pos,
        IRError::UnknownType { pos, .. } => pos,
        IRError::ReturnStatementOutsideFunction(pos) => pos,
    }
}

impl IRError {
    pub fn pos(&self) -> (p: Pos)
        ensures
            p == spec_err_pos(*self),
    {
        match self {
            IRError::UnexpectedNode(n) => n.pos,
            IRError::UnknownStmt { pos, .. } => *pos,
            IRError::InvalidGlobalDef(n) => n.pos,
            IRError::InvalidArgumentCount { pos, .. } => *pos,
            IRError::InvalidASTArgument { got, .. } => got.pos,
            IRError::InvalidArgument { got, .. } => got.pos,
            IRError::FSetError(_) => Pos::origin(),
            IRError::InvalidType { pos, .. } => *pos,
            IRError::UnknownType { pos, .. } => *pos,
            IRError::ReturnStatementOutsideFunction(pos) => *pos,
        }
    }
}

} // verus!
