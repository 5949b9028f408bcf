use vstd::prelude::*;

use crate::ast::{ASTNode, ASTNodeData, ASTNodeDataType, Pos, ast_eq};
use crate::errors::{FSetError, IRError};
use crate::fns::{arg_err_matches, args_match, kind_matches, typecheck_ast};
use crate::ir::{IRNode, IRNodeData};
use crate::stack::{Binding, Function, IR, SourceFile, TypeDef, has_file, lookup, stack_ok};
use crate::types::{Type, TypeData};

verus! {

broadcast use vstd::std_specs::vec::axiom_vec_index_decreases;

pub open spec fn zero_pos() -> Pos {
    Pos { file: 0, start_line: 0, start_col: 0, end_line: 0, end_col: 0 }
}

/// What a top-level statement declares: one of the three recognized forms, a
/// comment, or a malformed statement (reported, never registered).
pub ghost enum TopDecl {
    TypeDecl { name: Seq<char>, name_pos: Pos, ast: ASTNode },
    FuncDecl { name: Seq<char>, name_pos: Pos, params_ast: ASTNode, body_ast: ASTNode },
    ImportDecl { name: Seq<char> },
    CommentDecl,
    Malformed,
}

pub open spec fn type_expected() -> Seq<ASTNodeDataType> {
    seq![ASTNodeDataType::Type, ASTNodeDataType::Stmt]
}

pub open spec fn func_expected() -> Seq<ASTNodeDataType> {
    seq![ASTNodeDataType::Function, ASTNodeDataType::Block, ASTNodeDataType::Block]
}

pub open spec fn import_expected() -> Seq<ASTNodeDataType> {
    seq![ASTNodeDataType::Str]
}

/// Recognition of the three top-level declaration forms: `TYPE name <body>`,
/// `FUNC name <params> <body>`, `IMPORT "path"`. A wrong argument count or
/// kind, an unknown statement, or any other node shape is malformed.
pub open spec fn classify(n: ASTNode) -> TopDecl {
    match n.data {
        ASTNodeData::Comment(_) => TopDecl::CommentDecl,
        ASTNodeData::Stmt { name, name_pos, args } => if name@ == "TYPE"@ {
            if args_match(args@, type_expected()) {
                TopDecl::TypeDecl { name: args@[0].data->Type_0@, name_pos, ast: args@[1] }
            } else {
                TopDecl::Malformed
            }
        } else if name@ == "FUNC"@ {
            if args_match(args@, func_expected()) {
                TopDecl::FuncDecl {
                    name: args@[0].data->Function_0@,
                    name_pos,
                    params_ast: args@[1],
                    body_ast: args@[2],
                }
            } else {
                TopDecl::Malformed
            }
        } else if name@ == "IMPORT"@ {
            if args_match(args@, import_expected()) {
                TopDecl::ImportDecl { name: args@[0].data->Str_0@ }
            } else {
                TopDecl::Malformed
            }
        } else {
            TopDecl::Malformed
        },
        _ => TopDecl::Malformed,
    }
}

/// Whether processing a statement adds a diagnostic: malformed statements
/// always, imports exactly when the named file is not loaded.
pub open spec fn stmt_fails(n: ASTNode, files: Seq<SourceFile>) -> bool {
    match classify(n) {
        TopDecl::Malformed => true,
        TopDecl::ImportDecl { name } => !has_file(files, name),
        _ => false,
    }
}

/// The diagnostic a failing statement produces: malformed argument lists get
/// the precise count/kind error of their form; an unknown statement or other
/// node shape is reported whole; a failed import is wrapped.
pub open spec fn stmt_err_matches(e: IRError, n: ASTNode, files: Seq<SourceFile>) -> bool {
    match n.data {
        ASTNodeData::Stmt { name, name_pos, args } => if name@ == "TYPE"@ {
            arg_err_matches(e, name_pos, args@, type_expected())
        } else if name@ == "FUNC"@ {
            arg_err_matches(e, name_pos, args@, func_expected())
        } else if name@ == "IMPORT"@ {
            if !args_match(args@, import_expected()) {
                arg_err_matches(e, name_pos, args@, import_expected())
            } else {
                e matches IRError::FSetError(fe) && fe matches FSetError::NotFound(m) && m@
                    == args@[0].data->Str_0@
            }
        } else {
            e matches IRError::UnexpectedNode(u) && ast_eq(u, n)
        },
        _ => e matches IRError::UnexpectedNode(u) && ast_eq(u, n),
    }
}

/// The type declarations among a file's statements, in order.
pub open spec fn type_decls(stmts: Seq<ASTNode>) -> Seq<TopDecl>
    decreases stmts,
{
    if stmts.len() == 0 {
        Seq::empty()
    } else {
        type_decls(stmts.drop_last()) + (if classify(stmts.last()) is TypeDecl {
            seq![classify(stmts.last())]
        } else {
            Seq::empty()
        })
    }
}

/// The function declarations among a file's statements, in order.
pub open spec fn func_decls(stmts: Seq<ASTNode>) -> Seq<TopDecl>
    decreases stmts,
{
    if stmts.len() == 0 {
        Seq::empty()
    } else {
        func_decls(stmts.drop_last()) + (if classify(stmts.last()) is FuncDecl {
            seq![classify(stmts.last())]
        } else {
            Seq::empty()
        })
    }
}

/// The statements that produce a diagnostic, in order.
pub open spec fn err_stmts(stmts: Seq<ASTNode>, files: Seq<SourceFile>) -> Seq<ASTNode>
    decreases stmts,
{
    if stmts.len() == 0 {
        Seq::empty()
    } else {
        err_stmts(stmts.drop_last(), files) + (if stmt_fails(stmts.last(), files) {
            seq![stmts.last()]
        } else {
            Seq::empty()
        })
    }
}

/// A registered type definition agrees with its declaration: same name and
/// position, owned by the given scope, its syntax retained (declared, not yet
/// built) and its type still the void placeholder.
pub open spec fn typedef_like(t: TypeDef, d: TopDecl, scope: usize) -> bool {
    d matches TopDecl::TypeDecl { name, name_pos, ast } && t.name@ == name && t.definition
        == name_pos && t.scope == scope && t.typ == (Type { data: TypeData::VOID }) && (
    t.ast matches Some(a) && ast_eq(a, ast))
}

/// A registered function agrees with its declaration: same name and position,
/// parameter and body syntax retained, signature and body still placeholders.
pub open spec fn func_like(f: Function, d: TopDecl) -> bool {
    d matches TopDecl::FuncDecl { name, name_pos, params_ast, body_ast } && f.name@ == name
        && f.definition == name_pos && f.params@.len() == 0 && f.ret_typ == (Type {
        data: TypeData::VOID,
    }) && f.ret_typ_definition == zero_pos() && (f.params_ast matches Some(a) && ast_eq(
        a,
        params_ast,
    )) && (f.body_ast matches Some(b) && ast_eq(b, body_ast)) && f.body == (IRNode {
        data: IRNodeData::Void,
        pos: zero_pos(),
    })
}

/// A registered type declaration's name is bound: in the given symbol
/// table it resolves to one of the definitions this pass registered, of
/// that very name.
pub open spec fn decl_bound(d: TopDecl, table: Seq<Binding>, types: Seq<TypeDef>, lo: int) -> bool {
    d matches TopDecl::TypeDecl { name, .. } ==> (lookup(table, name) matches Some(j) && lo <= j
        < types.len() && types[j as int].name@ == name)
}

/// The whole of what the definition pass appends for a file, as one
/// predicate over the context before and after.
pub open spec fn dp_file_effect(pre: IR, post: IR, stmts: Seq<ASTNode>) -> bool {
    let g = pre.stack@.last();
    let tds = type_decls(stmts);
    let fds = func_decls(stmts);
    let errs = err_stmts(stmts, pre.fset.files@);
    &&& post.fset == pre.fset
    &&& post.stack == pre.stack
    &&& post.vars == pre.vars
    &&& post.scopes@.len() == pre.scopes@.len()
    &&& forall|i: int|
        0 <= i < post.scopes@.len() && i != g ==> post.scopes@[i] == pre.scopes@[i]
    &&& post.scopes@[g as int].kind == pre.scopes@[g as int].kind
    &&& post.scopes@[g as int].pos == pre.scopes@[g as int].pos
    &&& post.scopes@[g as int].vars == pre.scopes@[g as int].vars
    // The arenas grow by exactly the declarations, in order.
    &&& post.types@.len() == pre.types@.len() + tds.len()
    &&& post.types@.subrange(0, pre.types@.len() as int) == pre.types@
    &&& forall|k: int|
        0 <= k < tds.len() ==> typedef_like(
            post.types@[pre.types@.len() + k],
            #[trigger] tds[k],
            g,
        )
    &&& post.funcs@.len() == pre.funcs@.len() + fds.len()
    &&& post.funcs@.subrange(0, pre.funcs@.len() as int) == pre.funcs@
    &&& forall|k: int|
        0 <= k < fds.len() ==> func_like(post.funcs@[pre.funcs@.len() + k], #[trigger] fds[k])
    // The diagnostics grow by exactly one per failing statement, in order.
    &&& post.errors@.len() == pre.errors@.len() + errs.len()
    &&& post.errors@.subrange(0, pre.errors@.len() as int) == pre.errors@
    &&& forall|k: int|
        0 <= k < errs.len() ==> stmt_err_matches(
            post.errors@[pre.errors@.len() + k],
            #[trigger] errs[k],
            pre.fset.files@,
        )
    // Every declared type name ends bound in the scope's table, to one of
    // the definitions registered here under that name.
    &&& forall|k: int|
        0 <= k < tds.len() ==> decl_bound(
            #[trigger] tds[k],
            post.scopes@[g as int].types@,
            post.types@,
            pre.types@.len() as int,
        )
    // A type name that no statement declares keeps its binding.
    &&& forall|nm: Seq<char>|
        (forall|k: int|
            0 <= k < tds.len() ==> !((#[trigger] tds[k]) matches TopDecl::TypeDecl { name, .. }
                && name == nm)) ==> #[trigger] lookup(post.scopes@[g as int].types@, nm) == lookup(
            pre.scopes@[g as int].types@,
            nm,
        )
}

/// How one statement changes the context: a recognized declaration extends
/// exactly one arena (and, for a type, the current scope's type table); a
/// failing statement appends exactly one diagnostic; a comment does nothing.
pub open spec fn dp_step_effect(prev: IR, cur: IR, n: ASTNode) -> bool {
    let g = prev.stack@.last();
    &&& cur.fset == prev.fset
    &&& cur.stack == prev.stack
    &&& cur.vars == prev.vars
    &&& match classify(n) {
        TopDecl::CommentDecl => cur == prev,
        TopDecl::TypeDecl { name, .. } => {
            &&& cur.funcs == prev.funcs
            &&& cur.errors == prev.errors
            &&& cur.types@.len() == prev.types@.len() + 1
            &&& cur.types@.subrange(0, prev.types@.len() as int) == prev.types@
            &&& typedef_like(cur.types@[prev.types@.len() as int], classify(n), g)
            &&& cur.scopes@.len() == prev.scopes@.len()
            &&& forall|i: int|
                0 <= i < cur.scopes@.len() && i != g ==> cur.scopes@[i] == prev.scopes@[i]
            &&& cur.scopes@[g as int].kind == prev.scopes@[g as int].kind
            &&& cur.scopes@[g as int].pos == prev.scopes@[g as int].pos
            &&& cur.scopes@[g as int].vars == prev.scopes@[g as int].vars
            &&& forall|nm: Seq<char>| #[trigger] lookup(cur.scopes@[g as int].types@, nm) == (
            if nm == name {
                Some(prev.types@.len() as usize)
            } else {
                lookup(prev.scopes@[g as int].types@, nm)
            })
        },
        TopDecl::FuncDecl { .. } => {
            &&& cur.scopes == prev.scopes
            &&& cur.types == prev.types
            &&& cur.errors == prev.errors
            &&& cur.funcs@.len() == prev.funcs@.len() + 1
            &&& cur.funcs@.subrange(0, prev.funcs@.len() as int) == prev.funcs@
            &&& func_like(cur.funcs@[prev.funcs@.len() as int], classify(n))
        },
        TopDecl::ImportDecl { name } => {
            &&& cur.scopes == prev.scopes
            &&& cur.types == prev.types
            &&& cur.funcs == prev.funcs
            &&& if has_file(prev.fset.files@, name) {
                cur.errors == prev.errors
            } else {
                &&& cur.errors@.len() == prev.errors@.len() + 1
                &&& cur.errors@.subrange(0, prev.errors@.len() as int) == prev.errors@
                &&& stmt_err_matches(cur.errors@.last(), n, prev.fset.files@)
            }
        },
        TopDecl::Malformed => {
            &&& cur.scopes == prev.scopes
            &&& cur.types == prev.types
            &&& cur.funcs == prev.funcs
            &&& cur.errors@.len() == prev.errors@.len() + 1
            &&& cur.errors@.subrange(0, prev.errors@.len() as int) == prev.errors@
            &&& stmt_err_matches(cur.errors@.last(), n, prev.fset.files@)
        },
    }
}

/// Extending a processed prefix by one statement extends its effect.
#[verifier::rlimit(60)]
proof fn lemma_dp_compose(pre: IR, prev: IR, cur: IR, stmts: Seq<ASTNode>, n: ASTNode)
    requires
        dp_file_effect(pre, prev, stmts),
        dp_step_effect(prev, cur, n),
    ensures
        dp_file_effect(pre, cur, stmts.push(n)),
{
    let g = pre.stack@.last();
    let stmts1 = stmts.push(n);
    assert(stmts1.drop_last() =~= stmts);
    assert(stmts1.last() == n);
    let tds0 = type_decls(stmts);
    let tds1 = type_decls(stmts1);
    let fds0 = func_decls(stmts);
    let fds1 = func_decls(stmts1);
    let errs0 = err_stmts(stmts, pre.fset.files@);
    let errs1 = err_stmts(stmts1, pre.fset.files@);
    if classify(n) is TypeDecl {
        assert(tds1 =~= tds0.push(classify(n)));
    } else {
        assert(tds1 =~= tds0);
    }
    if classify(n) is FuncDecl {
        assert(fds1 =~= fds0.push(classify(n)));
    } else {
        assert(fds1 =~= fds0);
    }
    if stmt_fails(n, pre.fset.files@) {
        assert(errs1 =~= errs0.push(n));
    } else {
        assert(errs1 =~= errs0);
    }
    assert(cur.types@.subrange(0, pre.types@.len() as int) =~= pre.types@);
    assert(cur.funcs@.subrange(0, pre.funcs@.len() as int) =~= pre.funcs@);
    assert(cur.errors@.subrange(0, pre.errors@.len() as int) =~= pre.errors@);
    assert forall|k: int| 0 <= k < tds1.len() implies typedef_like(
        cur.types@[pre.types@.len() + k],
        #[trigger] tds1[k],
        g,
    ) by {
        if k < tds0.len() {
            assert(typedef_like(prev.types@[pre.types@.len() + k], tds0[k], g));
            assert(cur.types@[pre.types@.len() + k] == prev.types@[pre.types@.len() + k]);
        }
    }
    assert forall|k: int| 0 <= k < fds1.len() implies func_like(
        cur.funcs@[pre.funcs@.len() + k],
        #[trigger] fds1[k],
    ) by {
        if k < fds0.len() {
            assert(func_like(prev.funcs@[pre.funcs@.len() + k], fds0[k]));
            assert(cur.funcs@[pre.funcs@.len() + k] == prev.funcs@[pre.funcs@.len() + k]);
        }
    }
    assert forall|k: int| 0 <= k < errs1.len() implies stmt_err_matches(
        cur.errors@[pre.errors@.len() + k],
        #[trigger] errs1[k],
        pre.fset.files@,
    ) by {
        if k < errs0.len() {
            assert(stmt_err_matches(prev.errors@[pre.errors@.len() + k], errs0[k], pre.fset.files@));
            assert(cur.errors@[pre.errors@.len() + k] == prev.errors@[pre.errors@.len() + k]);
        }
    }
    assert forall|k: int| 0 <= k < tds1.len() implies decl_bound(
        #[trigger] tds1[k],
        cur.scopes@[g as int].types@,
        cur.types@,
        pre.types@.len() as int,
    ) by {
        match tds1[k] {
            TopDecl::TypeDecl { name, .. } => {
                match classify(n) {
                    TopDecl::TypeDecl { name: nname, .. } => {
                        if name == nname {
                            vstd::std_specs::vec::axiom_spec_len(&prev.types);
                            assert(prev.types@.len() <= usize::MAX);
                            assert(lookup(cur.scopes@[g as int].types@, name) == Some(
                                prev.types@.len() as usize,
                            ));
                            assert(typedef_like(
                                cur.types@[prev.types@.len() as int],
                                classify(n),
                                g,
                            ));
                            assert(pre.types@.len() <= prev.types@.len() < cur.types@.len());
                            assert(cur.types@[prev.types@.len() as int].name@ == nname);
                            assert(decl_bound(
                                tds1[k],
                                cur.scopes@[g as int].types@,
                                cur.types@,
                                pre.types@.len() as int,
                            ));
                        } else {
                            assert(k < tds0.len());
                            assert(#[trigger] tds0[k] == tds1[k]);
                            assert(decl_bound(
                                tds0[k],
                                prev.scopes@[g as int].types@,
                                prev.types@,
                                pre.types@.len() as int,
                            ));
                            assert(lookup(cur.scopes@[g as int].types@, name) == lookup(
                                prev.scopes@[g as int].types@,
                                name,
                            ));
                            match lookup(prev.scopes@[g as int].types@, name) {
                                Some(j) => {
                                    assert(pre.types@.len() <= j < prev.types@.len());
                                    assert(cur.types@[j as int] == prev.types@[j as int]);
                                },
                                None => {},
                            }
                            assert(decl_bound(
                                tds1[k],
                                cur.scopes@[g as int].types@,
                                cur.types@,
                                pre.types@.len() as int,
                            ));
                        }
                    },
                    _ => {
                        assert(k < tds0.len());
                        assert(#[trigger] tds0[k] == tds1[k]);
                        assert(decl_bound(
                            tds0[k],
                            prev.scopes@[g as int].types@,
                            prev.types@,
                            pre.types@.len() as int,
                        ));
                        match lookup(prev.scopes@[g as int].types@, name) {
                            Some(j) => {
                                assert(pre.types@.len() <= j < prev.types@.len());
                                assert(cur.types@[j as int] == prev.types@[j as int]);
                            },
                            None => {},
                        }
                        assert(decl_bound(
                            tds1[k],
                            cur.scopes@[g as int].types@,
                            cur.types@,
                            pre.types@.len() as int,
                        ));
                    },
                }
            },
            _ => {},
        }
    }
    assert forall|nm: Seq<char>|
        (forall|k: int|
            0 <= k < tds1.len() ==> !((#[trigger] tds1[k]) matches TopDecl::TypeDecl { name, .. }
                && name == nm)) implies #[trigger] lookup(cur.scopes@[g as int].types@, nm)
        == lookup(pre.scopes@[g as int].types@, nm) by {
        if classify(n) is TypeDecl {
            assert(tds1[tds1.len() - 1] == classify(n));
        }
        assert forall|k: int|
            0 <= k < tds0.len() implies !((#[trigger] tds0[k]) matches TopDecl::TypeDecl {
                name,
                ..
            } && name == nm) by {
            assert(tds0[k] == tds1[k]);
        }
    }
}

/// The definition pass over a whole file set: the per-file effects chain in
/// file order, so every file's declarations are registered. The statements
/// are quantified up to `ast_seq_eq` because the pass walks a fresh copy of
/// each file's syntax.
pub open spec fn dp_files_effect(pre: IR, post: IR, files: Seq<SourceFile>) -> bool
    decreases files,
{
    if files.len() == 0 {
        post == pre
    } else {
        exists|mid: IR, stmts: Seq<ASTNode>|
            #[trigger] dp_file_effect(mid, post, stmts) && dp_files_effect(
                pre,
                mid,
                files.drop_last(),
            ) && crate::ast::ast_seq_eq(stmts, files.last().ast@)
    }
}

impl IR {
    /// One statement of the definition pass: recognizes the three top-level
    /// declaration forms, registers a stub for a declaration (its syntax
    /// retained, nothing built yet), resolves an import against the file set,
    /// and turns anything malformed into one precise diagnostic.
    pub fn defpass_stmt(&mut self, node: &ASTNode)
        requires
            stack_ok(*old(self)),
        ensures
            stack_ok(*final(self)),
            dp_step_effect(*old(self), *final(self), *node),
    {
        let te: Vec<ASTNodeDataType> = vec![ASTNodeDataType::Type, ASTNodeDataType::Stmt];
        let fe: Vec<ASTNodeDataType> = vec![
            ASTNodeDataType::Function,
            ASTNodeDataType::Block,
            ASTNodeDataType::Block,
        ];
        let ie: Vec<ASTNodeDataType> = vec![ASTNodeDataType::Str];
        proof {
            assert(te@ =~= type_expected());
            assert(fe@ =~= func_expected());
            assert(ie@ =~= import_expected());
        }
        match &node.data {
            ASTNodeData::Comment(_) => {},
            ASTNodeData::Stmt { name, name_pos, args } => {
                if crate::ast::str_is(name, "TYPE") {
                    match typecheck_ast(*name_pos, args, &te) {
                        Err(e) => {
                            self.errors.push(e);
                        },
                        Ok(()) => {
                            let tname = match &args[0].data {
                                ASTNodeData::Type(v) => v.clone(),
                                _ => {
                                    proof {
                                        assert(kind_matches(args@[0], ASTNodeDataType::Type));
                                    }
                                    vstd::pervasive::unreached()
                                },
                            };
                            let tast = args[1].clone();
                            self.declare_type(tname, *name_pos, Some(tast), Type::void());
                        },
                    }
                } else if crate::ast::str_is(name, "FUNC") {
                    match typecheck_ast(*name_pos, args, &fe) {
                        Err(e) => {
                            self.errors.push(e);
                        },
                        Ok(()) => {
                            let fname = match &args[0].data {
                                ASTNodeData::Function(v) => v.clone(),
                                _ => {
                                    proof {
                                        assert(kind_matches(args@[0], ASTNodeDataType::Function));
                                    }
                                    vstd::pervasive::unreached()
                                },
                            };
                            let pa = args[1].clone();
                            let ba = args[2].clone();
                            self.funcs.push(
                                Function {
                                    definition: *name_pos,
                                    name: fname,
                                    params: Vec::new(),
                                    ret_typ: Type::void(),
                                    ret_typ_definition: Pos::origin(),
                                    params_ast: Some(pa),
                                    body_ast: Some(ba),
                                    body: IRNode::void(),
                                },
                            );
                            proof {
                                assert(self.funcs@.subrange(0, old(self).funcs@.len() as int)
                                    =~= old(self).funcs@);
                            }
                        },
                    }
                } else if crate::ast::str_is(name, "IMPORT") {
                    match typecheck_ast(*name_pos, args, &ie) {
                        Err(e) => {
                            self.errors.push(e);
                        },
                        Ok(()) => {
                            let iname = match &args[0].data {
                                ASTNodeData::Str(v) => v.clone(),
                                _ => {
                                    proof {
                                        assert(kind_matches(args@[0], ASTNodeDataType::Str));
                                    }
                                    vstd::pervasive::unreached()
                                },
                            };
                            match self.fset.import(&iname) {
                                Ok(()) => {},
                                Err(fe2) => {
                                    self.errors.push(IRError::FSetError(fe2));
                                },
                            }
                        },
                    }
                } else {
                    let c = node.clone();
                    self.errors.push(IRError::UnexpectedNode(c));
                }
            },
            _ => {
                let c = node.clone();
                self.errors.push(IRError::UnexpectedNode(c));
            },
        }
        proof {
            assert(self.errors@.subrange(0, old(self).errors@.len() as int) =~= old(self).errors@);
            assert(self.types@.subrange(0, old(self).types@.len() as int) =~= old(self).types@);
            assert(self.funcs@.subrange(0, old(self).funcs@.len() as int) =~= old(self).funcs@);
        }
    }

    /// One file of the definition pass: every statement is processed, in
    /// order; a malformed statement is reported and never stops the rest of
    /// the file.
    #[verifier::loop_isolation(false)]
    pub fn defpass_file(&mut self, src: &Vec<ASTNode>) -> (r: Result<(), IRError>)
        requires
            stack_ok(*old(self)),
        ensures
            stack_ok(*final(self)),
            r is Ok,
            dp_file_effect(*old(self), *final(self), src@),
    {
        let ghost pre = *self;
        proof {
            assert(src@.take(0) =~= Seq::<ASTNode>::empty());
            assert(self.types@.subrange(0, self.types@.len() as int) =~= self.types@);
            assert(self.funcs@.subrange(0, self.funcs@.len() as int) =~= self.funcs@);
            assert(self.errors@.subrange(0, self.errors@.len() as int) =~= self.errors@);
            assert(dp_file_effect(pre, *self, src@.take(0)));
        }
        let mut j: usize = 0;
        while j < src.len()
            invariant
                stack_ok(*self),
                j <= src@.len(),
                dp_file_effect(pre, *self, src@.take(j as int)),
            decreases src@.len() - j,
        {
            let ghost prev = *self;
            self.defpass_stmt(&src[j]);
            proof {
                assert(src@.take(j as int + 1) =~= src@.take(j as int).push(src@[j as int]));
                lemma_dp_compose(pre, prev, *self, src@.take(j as int), src@[j as int]);
            }
            j = j + 1;
        }
        proof {
            assert(src@.take(src@.len() as int) =~= src@);
        }
        Ok(())
    }

    /// The definition pass: registers every top-level declaration of every
    /// loaded file before anything is built, so that bodies built later can
    /// refer forward, across files included. Diagnostics accumulate; the
    /// pass itself always completes.
    #[verifier::loop_isolation(false)]
    pub fn defpass(&mut self) -> (r: Result<(), IRError>)
        requires
            stack_ok(*old(self)),
        ensures
            stack_ok(*final(self)),
            r is Ok,
            final(self).stack == old(self).stack,
            final(self).vars == old(self).vars,
            final(self).scopes@.len() == old(self).scopes@.len(),
            final(self).types@.len() >= old(self).types@.len(),
            final(self).types@.subrange(0, old(self).types@.len() as int) == old(self).types@,
            final(self).funcs@.len() >= old(self).funcs@.len(),
            final(self).funcs@.subrange(0, old(self).funcs@.len() as int) == old(self).funcs@,
            final(self).errors@.len() >= old(self).errors@.len(),
            final(self).errors@.subrange(0, old(self).errors@.len() as int) == old(self).errors@,
            final(self).fset == old(self).fset,
            dp_files_effect(*old(self), *final(self), old(self).fset.files@),
    {
        proof {
            assert(self.types@.subrange(0, self.types@.len() as int) =~= self.types@);
            assert(self.funcs@.subrange(0, self.funcs@.len() as int) =~= self.funcs@);
            assert(self.errors@.subrange(0, self.errors@.len() as int) =~= self.errors@);
            assert(self.fset.files@.take(0) =~= Seq::<SourceFile>::empty());
        }
        let ghost pre = *self;
        let mut i: usize = 0;
        while i < self.fset.files.len()
            invariant
                stack_ok(*self),
                i <= pre.fset.files@.len(),
                self.fset == pre.fset,
                self.stack == pre.stack,
                self.vars == pre.vars,
                self.scopes@.len() == pre.scopes@.len(),
                self.types@.len() >= pre.types@.len(),
                self.types@.subrange(0, pre.types@.len() as int) == pre.types@,
                self.funcs@.len() >= pre.funcs@.len(),
                self.funcs@.subrange(0, pre.funcs@.len() as int) == pre.funcs@,
                self.errors@.len() >= pre.errors@.len(),
                self.errors@.subrange(0, pre.errors@.len() as int) == pre.errors@,
                dp_files_effect(pre, *self, pre.fset.files@.take(i as int)),
            decreases self.fset.files@.len() - i,
        {
            let ghost prev = *self;
            let f = crate::ast::clone_ast_vec(&self.fset.files[i].ast);
            let _ = self.defpass_file(&f);
            proof {
                assert(self.types@.subrange(0, pre.types@.len() as int) =~= pre.types@);
                assert(self.funcs@.subrange(0, pre.funcs@.len() as int) =~= pre.funcs@);
                assert(self.errors@.subrange(0, pre.errors@.len() as int) =~= pre.errors@);
                assert(pre.fset.files@.take(i as int + 1).drop_last() =~= pre.fset.files@.take(
                    i as int,
                ));
                assert(pre.fset.files@.take(i as int + 1).last() == pre.fset.files@[i as int]);
                assert(dp_file_effect(prev, *self, f@));
                assert(dp_files_effect(pre, *self, pre.fset.files@.take(i as int + 1)));
            }
            i = i + 1;
        }
        proof {
            assert(pre.fset.files@.take(pre.fset.files@.len() as int) =~= pre.fset.files@);
        }
        Ok(())
    }
}

} // verus!
