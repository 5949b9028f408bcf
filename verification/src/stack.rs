use vstd::prelude::*;

use crate::ast::{ASTNode, Pos};
use crate::errors::{FSetError, IRError};
use crate::ir::IRNode;
use crate::types::Type;

verus! {

broadcast use vstd::std_specs::vec::axiom_vec_index_decreases;

#[derive(Clone, Copy, PartialEq, Eq, Structural, Debug)]
pub enum ScopeKind {
    Global,
    Type,
    Function,
    Block,
}

/// One entry of a scope's symbol table: a name bound to an index into the
/// corresponding arena (`IR::vars` or `IR::types`).
pub struct Binding {
    pub name: String,
    pub index: usize,
}

/// A lexical scope: its kind, its variable and type symbol tables, and the
/// position it was opened at. Within one scope each table binds a name at
/// most once; re-declaring a name in the same scope replaces the binding
/// (the last declaration wins).
pub struct Scope {
    pub kind: ScopeKind,
    pub vars: Vec<Binding>,
    pub types: Vec<Binding>,
    pub pos: Pos,
}

pub struct Variable {
    pub name: String,
    pub typ: Type,
    pub scope: usize,
    pub definition: Pos,
}

/// A named type definition. While `ast` is present the definition is declared
/// but not yet built; building stores the concrete `typ` and clears `ast`.
pub struct TypeDef {
    pub scope: usize,
    pub name: String,
    pub definition: Pos,
    pub ast: Option<ASTNode>,
    pub typ: Type,
}

/// A function declaration. Signature and body each keep their syntax until
/// they are built, independently of one another.
pub struct Function {
    pub definition: Pos,
    pub name: String,
    pub params: Vec<FunctionParam>,
    pub ret_typ: Type,
    pub ret_typ_definition: Pos,
    pub params_ast: Option<ASTNode>,
    pub body_ast: Option<ASTNode>,
    pub body: IRNode,
}

pub struct FunctionParam {
    pub definition: Pos,
    pub name: String,
    pub typ: Type,
}

/// A source file handed over by the embedder: its name and its parsed syntax.
pub struct SourceFile {
    pub name: String,
    pub ast: Vec<ASTNode>,
}

/// The set of loaded source files. Reading files is the embedder's business;
/// the build only looks names up in what has been loaded.
pub struct FSet {
    pub files: Vec<SourceFile>,
}

pub open spec fn has_file(files: Seq<SourceFile>, name: Seq<char>) -> bool {
    exists|i: int| 0 <= i < files.len() && (#[trigger] files[i]).name@ == name
}

impl FSet {
    pub fn new() -> (r: FSet)
        ensures
            r.files@.len() == 0,
    {
        FSet { files: Vec::new() }
    }

    /// Resolves an import: it succeeds exactly when a file of that name is
    /// already loaded, and otherwise reports the name so the embedder can
    /// load it and run the pass again.
    pub fn import(&self, name: &String) -> (r: Result<(), FSetError>)
        ensures
            r is Ok <==> has_file(self.files@, name@),
            r matches Err(e) ==> e matches FSetError::NotFound(m) && m@ == name@,
    {
        let mut i: usize = 0;
        while i < self.files.len()
            invariant
                i <= self.files@.len(),
                forall|j: int| 0 <= j < i ==> (#[trigger] self.files@[j]).name@ != name@,
            decreases self.files@.len() - i,
        {
            if crate::ast::str_eq(&self.files[i].name, name) {
                return Ok(());
            }
            i = i + 1;
        }
        Err(FSetError::NotFound(name.clone()))
    }
}

/// First-match lookup in a symbol table. Tables never bind a name twice, so
/// this is the binding for `name` if there is one.
pub open spec fn lookup(bs: Seq<Binding>, name: Seq<char>) -> Option<usize>
    decreases bs,
{
    if bs.len() == 0 {
        None
    } else if bs[0].name@ == name {
        Some(bs[0].index)
    } else {
        lookup(bs.drop_first(), name)
    }
}

/// The insert-or-replace rule for symbol tables: a binding for a new name is
/// appended; a binding for an existing name replaces the old one in place.
pub open spec fn spec_bind(bs: Seq<Binding>, b: Binding) -> Seq<Binding>
    decreases bs,
{
    if bs.len() == 0 {
        seq![b]
    } else if bs[0].name@ == b.name@ {
        seq![b] + bs.drop_first()
    } else {
        seq![bs[0]] + spec_bind(bs.drop_first(), b)
    }
}

proof fn lemma_bind_no_match(bs: Seq<Binding>, b: Binding)
    requires
        forall|j: int| 0 <= j < bs.len() ==> (#[trigger] bs[j]).name@ != b.name@,
    ensures
        spec_bind(bs, b) =~= bs.push(b),
    decreases bs,
{
    if bs.len() > 0 {
        lemma_bind_no_match(bs.drop_first(), b);
        assert forall|j: int| 0 <= j < bs.drop_first().len() implies (#[trigger] bs.drop_first()[j]).name@
            != b.name@ by {
            assert(bs.drop_first()[j] == bs[j + 1]);
        }
        assert(spec_bind(bs, b) =~= seq![bs[0]] + bs.drop_first().push(b));
    }
}

proof fn lemma_bind_match_at(bs: Seq<Binding>, b: Binding, i: int)
    requires
        0 <= i < bs.len(),
        bs[i].name@ == b.name@,
        forall|j: int| 0 <= j < i ==> (#[trigger] bs[j]).name@ != b.name@,
    ensures
        spec_bind(bs, b) =~= bs.update(i, b),
    decreases bs,
{
    if i == 0 {
        assert(spec_bind(bs, b) =~= seq![b] + bs.drop_first());
        assert(seq![b] + bs.drop_first() =~= bs.update(0, b));
    } else {
        lemma_bind_match_at(bs.drop_first(), b, i - 1);
        assert forall|j: int| 0 <= j < i - 1 implies (#[trigger] bs.drop_first()[j]).name@
            != b.name@ by {
            assert(bs.drop_first()[j] == bs[j + 1]);
        }
        assert(bs.drop_first()[i - 1] == bs[i]);
        assert(spec_bind(bs, b) =~= seq![bs[0]] + bs.drop_first().update(i - 1, b));
        assert(seq![bs[0]] + bs.drop_first().update(i - 1, b) =~= bs.update(i, b));
    }
}

/// What a lookup sees after an insert-or-replace: the inserted binding for
/// its own name, and exactly what it saw before for every other name.
pub proof fn lemma_lookup_bind(bs: Seq<Binding>, b: Binding, nm: Seq<char>)
    ensures
        lookup(spec_bind(bs, b), nm) == (if nm == b.name@ {
            Some(b.index)
        } else {
            lookup(bs, nm)
        }),
    decreases bs,
{
    if bs.len() == 0 {
        let s = seq![b];
        assert(spec_bind(bs, b) == s);
        assert(s[0] == b);
        assert(s.drop_first() =~= Seq::<Binding>::empty());
        if nm != b.name@ {
            assert(lookup(s, nm) == lookup(s.drop_first(), nm));
            assert(lookup(Seq::<Binding>::empty(), nm) is None);
        }
    } else if bs[0].name@ == b.name@ {
        let s = seq![b] + bs.drop_first();
        assert(spec_bind(bs, b) == s);
        assert(s[0] == b);
        assert(s.drop_first() =~= bs.drop_first());
    } else {
        lemma_lookup_bind(bs.drop_first(), b, nm);
        let s = seq![bs[0]] + spec_bind(bs.drop_first(), b);
        assert(spec_bind(bs, b) == s);
        assert(s[0] == bs[0]);
        assert(s.drop_first() =~= spec_bind(bs.drop_first(), b));
    }
}

/// Inserts a binding into a symbol table under the insert-or-replace rule.
#[verifier::loop_isolation(false)]
pub fn bind(v: &mut Vec<Binding>, b: Binding) -> (replaced: bool)
    ensures
        final(v)@ == spec_bind(old(v)@, b),
        replaced <==> lookup(old(v)@, b.name@) is Some,
{
    let ghost orig = v@;
    proof {
        assert(orig.skip(0) =~= orig);
    }
    let mut i: usize = 0;
    while i < v.len()
        invariant
            v@ == orig,
            i <= orig.len(),
            forall|j: int| 0 <= j < i ==> (#[trigger] orig[j]).name@ != b.name@,
            lookup(orig, b.name@) == lookup(orig.skip(i as int), b.name@),
        decreases orig.len() - i,
    {
        proof {
            assert(orig.skip(i as int)[0] == orig[i as int]);
            assert(orig.skip(i as int).drop_first() == orig.skip(i as int + 1));
        }
        if crate::ast::str_eq(&v[i].name, &b.name) {
            proof {
                lemma_bind_match_at(orig, b, i as int);
                assert(lookup(orig.skip(i as int), b.name@) is Some);
                assert(spec_bind(orig, b) == orig.update(i as int, b));
            }
            v.set(i, b);
            return true;
        }
        i = i + 1;
    }
    proof {
        lemma_bind_no_match(orig, b);
        assert(orig.skip(orig.len() as int) =~= Seq::<Binding>::empty());
    }
    v.push(b);
    false
}

/// Looks a name up in one symbol table.
pub fn lookup_binding(v: &Vec<Binding>, name: &String) -> (r: Option<usize>)
    ensures
        r == lookup(v@, name@),
{
    proof {
        assert(v@.skip(0) =~= v@);
    }
    let mut i: usize = 0;
    while i < v.len()
        invariant
            i <= v@.len(),
            lookup(v@, name@) == lookup(v@.skip(i as int), name@),
        decreases v@.len() - i,
    {
        proof {
            assert(v@.skip(i as int)[0] == v@[i as int]);
            assert(v@.skip(i as int).drop_first() == v@.skip(i as int + 1));
        }
        if crate::ast::str_eq(&v[i].name, name) {
            return Some(v[i].index);
        }
        i = i + 1;
    }
    proof {
        assert(v@.skip(v@.len() as int) =~= Seq::<Binding>::empty());
    }
    None
}

/// Name lookup through the scope stack, innermost scope first; the first
/// scope that binds the name wins, which is what makes shadowing work.
pub open spec fn spec_resolve(
    scopes: Seq<Scope>,
    stack: Seq<usize>,
    name: Seq<char>,
    types_table: bool,
) -> Option<usize>
    decreases stack,
{
    if stack.len() == 0 {
        None
    } else {
        let s = stack.last();
        let table = if s < scopes.len() {
            if types_table {
                scopes[s as int].types@
            } else {
                scopes[s as int].vars@
            }
        } else {
            Seq::empty()
        };
        match lookup(table, name) {
            Option::Some(i) => Option::Some(i),
            Option::None => spec_resolve(scopes, stack.drop_last(), name, types_table),
        }
    }
}

/// The build context: the file set, the scope arena with the stack of open
/// scopes (a path from the global scope to the innermost one), the arenas of
/// variables, type definitions and functions, and the accumulated build
/// diagnostics.
pub struct IR {
    pub fset: FSet,
    pub scopes: Vec<Scope>,
    pub stack: Vec<usize>,
    pub vars: Vec<Variable>,
    pub types: Vec<TypeDef>,
    pub funcs: Vec<Function>,
    pub errors: Vec<IRError>,
}

/// The stack discipline: there is always at least the global scope open, and
/// every open scope is in the arena.
pub open spec fn stack_ok(ir: IR) -> bool {
    &&& ir.scopes@.len() >= 1
    &&& ir.stack@.len() >= 1
    &&& ir.stack@[0] == 0
    &&& forall|i: int| 0 <= i < ir.stack@.len() ==> (#[trigger] ir.stack@[i]) < ir.scopes@.len()
}

impl IR {
    /// A fresh build context over a file set: only the global scope exists
    /// and is open; the arenas and the diagnostics are empty.
    pub fn new(fset: FSet) -> (r: IR)
        ensures
            r.fset == fset,
            r.scopes@.len() == 1,
            r.scopes@[0].kind == ScopeKind::Global,
            r.scopes@[0].vars@.len() == 0,
            r.scopes@[0].types@.len() == 0,
            r.stack@ =~= seq![0usize],
            r.vars@.len() == 0,
            r.types@.len() == 0,
            r.funcs@.len() == 0,
            r.errors@.len() == 0,
            stack_ok(r),
    {
        let mut scopes: Vec<Scope> = Vec::new();
        scopes.push(
            Scope { kind: ScopeKind::Global, vars: Vec::new(), types: Vec::new(), pos: Pos::origin() },
        );
        let mut stack: Vec<usize> = Vec::new();
        stack.push(0);
        IR {
            fset,
            scopes,
            stack,
            vars: Vec::new(),
            types: Vec::new(),
            funcs: Vec::new(),
            errors: Vec::new(),
        }
    }

    /// The index of the innermost open scope.
    pub fn current_scope(&self) -> (idx: usize)
        requires
            stack_ok(*self),
        ensures
            idx == self.stack@.last(),
            idx < self.scopes@.len(),
    {
        self.stack[self.stack.len() - 1]
    }

    /// Opens a nested scope: a new scope is added to the arena and becomes
    /// the innermost open one.
    pub fn open_scope(&mut self, kind: ScopeKind, pos: Pos) -> (idx: usize)
        requires
            stack_ok(*old(self)),
        ensures
            stack_ok(*final(self)),
            idx == old(self).scopes@.len(),
            final(self).scopes@.len() == old(self).scopes@.len() + 1,
            final(self).scopes@.subrange(0, idx as int) == old(self).scopes@,
            final(self).scopes@[idx as int].kind == kind,
            final(self).scopes@[idx as int].pos == pos,
            final(self).scopes@[idx as int].vars@.len() == 0,
            final(self).scopes@[idx as int].types@.len() == 0,
            final(self).stack@ == old(self).stack@.push(idx),
            final(self).fset == old(self).fset,
            final(self).vars == old(self).vars,
            final(self).types == old(self).types,
            final(self).funcs == old(self).funcs,
            final(self).errors == old(self).errors,
    {
        let idx = self.scopes.len();
        self.scopes.push(Scope { kind, vars: Vec::new(), types: Vec::new(), pos });
        self.stack.push(idx);
        proof {
            assert(self.scopes@.subrange(0, idx as int) =~= old(self).scopes@);
        }
        idx
    }

    /// Closes the innermost scope. Opening and closing must pair up: the
    /// global scope is never closed.
    pub fn close_scope(&mut self)
        requires
            stack_ok(*old(self)),
            old(self).stack@.len() >= 2,
        ensures
            stack_ok(*final(self)),
            final(self).stack@ == old(self).stack@.drop_last(),
            final(self).scopes == old(self).scopes,
            final(self).fset == old(self).fset,
            final(self).vars == old(self).vars,
            final(self).types == old(self).types,
            final(self).funcs == old(self).funcs,
            final(self).errors == old(self).errors,
    {
        self.stack.pop();
    }

    /// Declares a variable in the innermost scope: the variable is added to
    /// the arena and its name bound there; a binding of the same name in the
    /// same scope is replaced (the last declaration wins).
    pub fn declare_var(&mut self, name: String, typ: Type, pos: Pos) -> (idx: usize)
        requires
            stack_ok(*old(self)),
        ensures
            stack_ok(*final(self)),
            idx == old(self).vars@.len(),
            final(self).vars@.len() == idx + 1,
            final(self).vars@.subrange(0, idx as int) == old(self).vars@,
            final(self).vars@[idx as int].name@ == name@,
            final(self).vars@[idx as int].typ == typ,
            final(self).vars@[idx as int].scope == old(self).stack@.last(),
            final(self).vars@[idx as int].definition == pos,
            final(self).scopes@.len() == old(self).scopes@.len(),
            forall|i: int|
                0 <= i < final(self).scopes@.len() && i != old(self).stack@.last() ==> final(self).scopes@[i]
                    == old(self).scopes@[i],
            final(self).scopes@[old(self).stack@.last() as int].vars@ == spec_bind(
                old(self).scopes@[old(self).stack@.last() as int].vars@,
                Binding { name, index: idx },
            ),
            forall|nm: Seq<char>| #[trigger] lookup(
                final(self).scopes@[old(self).stack@.last() as int].vars@,
                nm,
            ) == (if nm == name@ {
                Some(idx)
            } else {
                lookup(old(self).scopes@[old(self).stack@.last() as int].vars@, nm)
            }),
            final(self).scopes@[old(self).stack@.last() as int].types
                == old(self).scopes@[old(self).stack@.last() as int].types,
            final(self).scopes@[old(self).stack@.last() as int].kind
                == old(self).scopes@[old(self).stack@.last() as int].kind,
            final(self).scopes@[old(self).stack@.last() as int].pos
                == old(self).scopes@[old(self).stack@.last() as int].pos,
            final(self).stack == old(self).stack,
            final(self).fset == old(self).fset,
            final(self).types == old(self).types,
            final(self).funcs == old(self).funcs,
            final(self).errors == old(self).errors,
    {
        let cur = self.current_scope();
        let idx = self.vars.len();
        let bname = name.clone();
        self.vars.push(Variable { name, typ, scope: cur, definition: pos });
        let mut sc = self.scopes.remove(cur);
        let b = Binding { name: bname, index: idx };
        let ghost bg = b;
        let ghost table0 = sc.vars@;
        bind(&mut sc.vars, b);
        self.scopes.insert(cur, sc);
        proof {
            assert forall|nm: Seq<char>| #[trigger] lookup(
                self.scopes@[old(self).stack@.last() as int].vars@,
                nm,
            ) == (if nm == bg.name@ {
                Some(idx)
            } else {
                lookup(table0, nm)
            }) by {
                lemma_lookup_bind(table0, bg, nm);
            }
            assert(self.vars@.subrange(0, idx as int) =~= old(self).vars@);
            assert forall|i: int|
                0 <= i < self.scopes@.len() && i != old(self).stack@.last() implies self.scopes@[i]
                == old(self).scopes@[i] by {}
        }
        idx
    }

    /// Registers a type definition in the innermost scope, in the declared
    /// (not yet built) state when `ast` is present. The same name in the same
    /// scope rebinds to the new definition (the last declaration wins).
    pub fn declare_type(&mut self, name: String, definition: Pos, ast: Option<ASTNode>, typ: Type) -> (idx:
        usize)
        requires
            stack_ok(*old(self)),
        ensures
            stack_ok(*final(self)),
            idx == old(self).types@.len(),
            final(self).types@.len() == idx + 1,
            final(self).types@.subrange(0, idx as int) == old(self).types@,
            final(self).types@[idx as int].name@ == name@,
            final(self).types@[idx as int].typ == typ,
            final(self).types@[idx as int].ast == ast,
            final(self).types@[idx as int].scope == old(self).stack@.last(),
            final(self).types@[idx as int].definition == definition,
            final(self).scopes@.len() == old(self).scopes@.len(),
            forall|i: int|
                0 <= i < final(self).scopes@.len() && i != old(self).stack@.last() ==> final(self).scopes@[i]
                    == old(self).scopes@[i],
            final(self).scopes@[old(self).stack@.last() as int].types@ == spec_bind(
                old(self).scopes@[old(self).stack@.last() as int].types@,
                Binding { name, index: idx },
            ),
            forall|nm: Seq<char>| #[trigger] lookup(
                final(self).scopes@[old(self).stack@.last() as int].types@,
                nm,
            ) == (if nm == name@ {
                Some(idx)
            } else {
                lookup(old(self).scopes@[old(self).stack@.last() as int].types@, nm)
            }),
            final(self).scopes@[old(self).stack@.last() as int].vars
                == old(self).scopes@[old(self).stack@.last() as int].vars,
            final(self).scopes@[old(self).stack@.last() as int].kind
                == old(self).scopes@[old(self).stack@.last() as int].kind,
            final(self).scopes@[old(self).stack@.last() as int].pos
                == old(self).scopes@[old(self).stack@.last() as int].pos,
            final(self).stack == old(self).stack,
            final(self).fset == old(self).fset,
            final(self).vars == old(self).vars,
            final(self).funcs == old(self).funcs,
            final(self).errors == old(self).errors,
    {
        let cur = self.current_scope();
        let idx = self.types.len();
        let bname = name.clone();
        self.types.push(TypeDef { scope: cur, name, definition, ast, typ });
        let mut sc = self.scopes.remove(cur);
        let b = Binding { name: bname, index: idx };
        let ghost bg = b;
        let ghost table0 = sc.types@;
        bind(&mut sc.types, b);
        self.scopes.insert(cur, sc);
        proof {
            assert forall|nm: Seq<char>| #[trigger] lookup(
                self.scopes@[old(self).stack@.last() as int].types@,
                nm,
            ) == (if nm == bg.name@ {
                Some(idx)
            } else {
                lookup(table0, nm)
            }) by {
                lemma_lookup_bind(table0, bg, nm);
            }
            assert(self.types@.subrange(0, idx as int) =~= old(self).types@);
        }
        idx
    }

    /// Looks a variable name up through the open scopes, innermost first.
    pub fn resolve_var(&self, name: &String) -> (r: Option<usize>)
        ensures
            r == spec_resolve(self.scopes@, self.stack@, name@, false),
    {
        self.resolve_in(name, false)
    }

    /// Looks a type name up through the open scopes, innermost first.
    pub fn resolve_type(&self, name: &String) -> (r: Option<usize>)
        ensures
            r == spec_resolve(self.scopes@, self.stack@, name@, true),
    {
        self.resolve_in(name, true)
    }

    #[verifier::loop_isolation(false)]
    fn resolve_in(&self, name: &String, types_table: bool) -> (r: Option<usize>)
        ensures
            r == spec_resolve(self.scopes@, self.stack@, name@, types_table),
    {
        proof {
            assert(self.stack@.take(self.stack@.len() as int) =~= self.stack@);
        }
        let mut k: usize = self.stack.len();
        while k > 0
            invariant
                k <= self.stack@.len(),
                spec_resolve(self.scopes@, self.stack@, name@, types_table) == spec_resolve(
                    self.scopes@,
                    self.stack@.take(k as int),
                    name@,
                    types_table,
                ),
            decreases k,
        {
            let ghost stk = self.stack@.take(k as int);
            proof {
                assert(stk.last() == self.stack@[k - 1]);
                assert(stk.drop_last() =~= self.stack@.take(k as int - 1));
            }
            let s = self.stack[k - 1];
            if s < self.scopes.len() {
                let table = if types_table {
                    &self.scopes[s].types
                } else {
                    &self.scopes[s].vars
                };
                match lookup_binding(table, name) {
                    Option::Some(i) => {
                        return Option::Some(i);
                    },
                    Option::None => {},
                }
            }
            k = k - 1;
        }
        proof {
            assert(self.stack@.take(0) =~= Seq::<usize>::empty());
        }
        Option::None
    }
}

} // verus!
