use vstd::prelude::*;

verus! {

broadcast use vstd::std_specs::vec::axiom_vec_index_decreases;

/// A location in a source file: the file's index in the file set plus the
/// line/column range the item spans.
#[derive(Clone, Copy, PartialEq, Eq, Structural, Debug)]
pub struct Pos {
    pub file: usize,
    pub start_line: usize,
    pub start_col: usize,
    pub end_line: usize,
    pub end_col: usize,
}

impl Pos {
    /// The zero position, used where no better position is known.
    pub fn origin() -> (r: Pos)
        ensures
            r == (Pos { file: 0, start_line: 0, start_col: 0, end_line: 0, end_col: 0 }),
    {
        Pos { file: 0, start_line: 0, start_col: 0, end_line: 0, end_col: 0 }
    }
}

impl Default for Pos {
    fn default() -> (r: Pos)
        ensures
            r == (Pos { file: 0, start_line: 0, start_col: 0, end_line: 0, end_col: 0 }),
    {
        Pos::origin()
    }
}

/// An untyped syntax node as handed over by the parser: a tag with a source
/// position and, for statements and blocks, an ordered list of children.
#[derive(Debug)]
pub struct ASTNode {
    pub data: ASTNodeData,
    pub pos: Pos,
}

#[derive(Debug)]
pub enum ASTNodeData {
    Comment(String),
    Stmt { name: String, name_pos: Pos, args: Vec<ASTNode> },
    Block(Vec<ASTNode>),
    Type(String),
    Function(String),
    Str(String),
    Field(String),
    Int(i64),
    Float(u64),
    Char(u8),
    Bool(bool),
}

/// The syntactic kind of an AST node, used to check a statement's argument
/// list against the kinds its form expects. `Any` matches every node.
#[derive(Clone, Copy, PartialEq, Eq, Structural, Debug)]
pub enum ASTNodeDataType {
    Any,
    Comment,
    Stmt,
    Block,
    Type,
    Function,
    Str,
    Field,
    Int,
    Float,
    Char,
    Bool,
}

pub open spec fn kind_of(d: ASTNodeData) -> ASTNodeDataType {
    match d {
        ASTNodeData::Comment(_) => ASTNodeDataType::Comment,
        ASTNodeData::Stmt { .. } => ASTNodeDataType::Stmt,
        ASTNodeData::Block(_) => ASTNodeDataType::Block,
        ASTNodeData::Type(_) => ASTNodeDataType::Type,
        ASTNodeData::Function(_) => ASTNodeDataType::Function,
        ASTNodeData::Str(_) => ASTNodeDataType::Str,
        ASTNodeData::Field(_) => ASTNodeDataType::Field,
        ASTNodeData::Int(_) => ASTNodeDataType::Int,
        ASTNodeData::Float(_) => ASTNodeDataType::Float,
        ASTNodeData::Char(_) => ASTNodeDataType::Char,
        ASTNodeData::Bool(_) => ASTNodeDataType::Bool,
    }
}

impl ASTNode {
    pub fn kind(&self) -> (k: ASTNodeDataType)
        ensures
            k == kind_of(self.data),
    {
        match &self.data {
            ASTNodeData::Comment(_) => ASTNodeDataType::Comment,
            ASTNodeData::Stmt { .. } => ASTNodeDataType::Stmt,
            ASTNodeData::Block(_) => ASTNodeDataType::Block,
            ASTNodeData::Type(_) => ASTNodeDataType::Type,
            ASTNodeData::Function(_) => ASTNodeDataType::Function,
            ASTNodeData::Str(_) => ASTNodeDataType::Str,
            ASTNodeData::Field(_) => ASTNodeDataType::Field,
            ASTNodeData::Int(_) => ASTNodeDataType::Int,
            ASTNodeData::Float(_) => ASTNodeDataType::Float,
            ASTNodeData::Char(_) => ASTNodeDataType::Char,
            ASTNodeData::Bool(_) => ASTNodeDataType::Bool,
        }
    }
}

/// Compares two names by their contents.
pub fn str_eq(a: &String, b: &String) -> (r: bool)
    ensures
        r == (a@ == b@),
{
    a.eq(b)
}

/// Compares a name to a keyword literal by contents.
pub fn str_is(a: &String, kw: &str) -> (r: bool)
    ensures
        r == (a@ == kw@),
{
    let k = kw.to_owned();
    a.eq(&k)
}

/// The height of an AST node, used as the termination measure for functions
/// that walk a tree through the child vectors of its statements and blocks.
pub open spec fn ast_height(n: ASTNode) -> nat
    decreases n,
{
    1 + ast_data_height(n.data)
}

pub open spec fn ast_data_height(d: ASTNodeData) -> nat
    decreases d,
{
    match d {
        ASTNodeData::Stmt { args, .. } => 1 + ast_seq_height(args@),
        ASTNodeData::Block(args) => 1 + ast_seq_height(args@),
        _ => 0,
    }
}

pub open spec fn ast_seq_height(s: Seq<ASTNode>) -> nat
    decreases s,
{
    if s.len() == 0 {
        0
    } else {
        let h1 = ast_height(s[0]);
        let h2 = ast_seq_height(s.drop_first());
        if h1 > h2 {
            h1
        } else {
            h2
        }
    }
}

pub proof fn lemma_ast_seq_height(s: Seq<ASTNode>, i: int)
    requires
        0 <= i < s.len(),
    ensures
        ast_height(s[i]) <= ast_seq_height(s),
    decreases s,
{
    if i > 0 {
        lemma_ast_seq_height(s.drop_first(), i - 1);
        assert(s.drop_first()[i - 1] == s[i]);
    }
}

/// Two AST nodes describe the same syntax: equal positions, the same tag, and
/// pointwise the same children. Strings are compared by their contents.
pub open spec fn ast_eq(a: ASTNode, b: ASTNode) -> bool
    decreases a,
{
    a.pos == b.pos && ast_data_eq(a.data, b.data)
}

pub open spec fn ast_data_eq(a: ASTNodeData, b: ASTNodeData) -> bool
    decreases a,
{
    match (a, b) {
        (ASTNodeData::Comment(x), ASTNodeData::Comment(y)) => x@ == y@,
        (
            ASTNodeData::Stmt { name: n1, name_pos: p1, args: a1 },
            ASTNodeData::Stmt { name: n2, name_pos: p2, args: a2 },
        ) => n1@ == n2@ && p1 == p2 && ast_seq_eq(a1@, a2@),
        (ASTNodeData::Block(x), ASTNodeData::Block(y)) => ast_seq_eq(x@, y@),
        (ASTNodeData::Type(x), ASTNodeData::Type(y)) => x@ == y@,
        (ASTNodeData::Function(x), ASTNodeData::Function(y)) => x@ == y@,
        (ASTNodeData::Str(x), ASTNodeData::Str(y)) => x@ == y@,
        (ASTNodeData::Field(x), ASTNodeData::Field(y)) => x@ == y@,
        (ASTNodeData::Int(x), ASTNodeData::Int(y)) => x == y,
        (ASTNodeData::Float(x), ASTNodeData::Float(y)) => x == y,
        (ASTNodeData::Char(x), ASTNodeData::Char(y)) => x == y,
        (ASTNodeData::Bool(x), ASTNodeData::Bool(y)) => x == y,
        _ => false,
    }
}

pub open spec fn ast_seq_eq(a: Seq<ASTNode>, b: Seq<ASTNode>) -> bool
    decreases a,
{
    a.len() == b.len() && (forall|i: int| 0 <= i < a.len() ==> ast_eq(a[i], #[trigger] b[i]))
}

impl Clone for ASTNode {
    /// A deep copy: the result describes the same syntax as the original.
    #[verifier::loop_isolation(false)]
    fn clone(&self) -> (r: Self)
        ensures
            ast_eq(r, *self),
        decreases ast_height(*self),
    {
        let data = match &self.data {
            ASTNodeData::Comment(s) => ASTNodeData::Comment(s.clone()),
            ASTNodeData::Stmt { name, name_pos, args } => {
                let mut out: Vec<ASTNode> = Vec::new();
                let mut i: usize = 0;
                while i < args.len()
                    invariant
                        i <= args.len(),
                        out@.len() == i,
                        forall|j: int| 0 <= j < i ==> ast_eq(out@[j], #[trigger] args@[j]),
                    decreases args.len() - i,
                {
                    proof {
                        lemma_ast_seq_height(args@, i as int);
                    }
                    let c = args[i].clone();
                    out.push(c);
                    i = i + 1;
                }
                ASTNodeData::Stmt { name: name.clone(), name_pos: *name_pos, args: out }
            },
            ASTNodeData::Block(args) => {
                let mut out: Vec<ASTNode> = Vec::new();
                let mut i: usize = 0;
                while i < args.len()
                    invariant
                        i <= args.len(),
                        out@.len() == i,
                        forall|j: int| 0 <= j < i ==> ast_eq(out@[j], #[trigger] args@[j]),
                    decreases args.len() - i,
                {
                    proof {
                        lemma_ast_seq_height(args@, i as int);
                    }
                    let c = args[i].clone();
                    out.push(c);
                    i = i + 1;
                }
                ASTNodeData::Block(out)
            },
            ASTNodeData::Type(s) => ASTNodeData::Type(s.clone()),
            ASTNodeData::Function(s) => ASTNodeData::Function(s.clone()),
            ASTNodeData::Str(s) => ASTNodeData::Str(s.clone()),
            ASTNodeData::Field(s) => ASTNodeData::Field(s.clone()),
            ASTNodeData::Int(v) => ASTNodeData::Int(*v),
            ASTNodeData::Float(v) => ASTNodeData::Float(*v),
            ASTNodeData::Char(v) => ASTNodeData::Char(*v),
            ASTNodeData::Bool(v) => ASTNodeData::Bool(*v),
        };
        ASTNode { data, pos: self.pos }
    }
}

/// A deep copy of a list of AST nodes, pointwise.
pub fn clone_ast_vec(v: &Vec<ASTNode>) -> (r: Vec<ASTNode>)
    ensures
        ast_seq_eq(r@, v@),
{
    let mut out: Vec<ASTNode> = Vec::new();
    let mut i: usize = 0;
    while i < v.len()
        invariant
            i <= v@.len(),
            out@.len() == i,
            forall|j: int| 0 <= j < i ==> ast_eq(out@[j], #[trigger] v@[j]),
        decreases v@.len() - i,
    {
        let c = v[i].clone();
        out.push(c);
        i = i + 1;
    }
    out
}

} // verus!
