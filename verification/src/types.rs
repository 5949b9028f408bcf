use vstd::prelude::*;

use crate::ast::Pos;
use crate::errors::IRError;
use crate::stack::{IR, TypeDef};

verus! {

broadcast use vstd::std_specs::vec::axiom_vec_index_decreases;

/// A struct member declaration: a field name together with its type.
#[derive(Debug)]
pub struct Field {
    pub name: String,
    pub typ: Type,
}

/// A type-parameter declaration of a generic struct; its `typ` is normally
/// `TYPE`, saying that the parameter stands for a type.
#[derive(Debug)]
pub struct Generic {
    pub name: String,
    pub typ: Type,
}

/// The shape of a type: a primitive tag, a composite with element or member
/// types, a reference to a named definition, one of the meta tags used while
/// building type expressions, or the `INVALID` sentinel that marks an
/// expression whose type is already known to be wrong (error containment).
#[derive(Debug)]
pub enum TypeData {
    CHAR,
    INT,
    FLOAT,
    BOOL,
    VOID,
    ARRAY(Box<Type>),
    STRUCT { params: Vec<Generic>, fields: Vec<Field> },
    /// A reference to a type definition, by its index in the build context's
    /// definition table.
    DEF(usize),
    FIELD,
    PARAM,
    TYPE,
    BOX,
    INVALID,
}

#[derive(Debug)]
pub struct Type {
    pub data: TypeData,
}

impl Type {
    /// The type of statements: nodes that produce no value.
    pub fn void() -> (r: Type)
        ensures
            r == (Type { data: TypeData::VOID }),
    {
        Type { data: TypeData::VOID }
    }

    /// The sentinel type of expressions that already failed to check.
    pub fn invalid() -> (r: Type)
        ensures
            r == (Type { data: TypeData::INVALID }),
    {
        Type { data: TypeData::INVALID }
    }
}

impl From<TypeData> for Type {
    fn from(data: TypeData) -> (r: Type)
        ensures
            r == (Type { data }),
    {
        Type { data }
    }
}

impl vstd::std_specs::convert::FromSpecImpl<TypeData> for Type {
    open spec fn obeys_from_spec() -> bool {
        true
    }

    open spec fn from_spec(data: TypeData) -> Type {
        Type { data }
    }
}

/// The height of a type tree: the termination measure for executable
/// functions that walk through the member vectors of a struct type.
pub open spec fn type_height(t: Type) -> nat
    decreases t,
{
    1 + type_data_height(t.data)
}

pub open spec fn type_data_height(d: TypeData) -> nat
    decreases d,
{
    match d {
        TypeData::ARRAY(e) => 1 + type_height(*e),
        TypeData::STRUCT { params, fields } => {
            let hp = generics_height(params@);
            let hf = fields_height(fields@);
            1 + if hp > hf {
                hp
            } else {
                hf
            }
        },
        _ => 0,
    }
}

pub open spec fn fields_height(s: Seq<Field>) -> nat
    decreases s,
{
    if s.len() == 0 {
        0
    } else {
        let h1 = 1 + type_height(s[0].typ);
        let h2 = fields_height(s.drop_first());
        if h1 > h2 {
            h1
        } else {
            h2
        }
    }
}

pub open spec fn generics_height(s: Seq<Generic>) -> nat
    decreases s,
{
    if s.len() == 0 {
        0
    } else {
        let h1 = 1 + type_height(s[0].typ);
        let h2 = generics_height(s.drop_first());
        if h1 > h2 {
            h1
        } else {
            h2
        }
    }
}

pub proof fn lemma_fields_height(s: Seq<Field>, i: int)
    requires
        0 <= i < s.len(),
    ensures
        1 + type_height(s[i].typ) <= fields_height(s),
    decreases s,
{
    if i > 0 {
        lemma_fields_height(s.drop_first(), i - 1);
        assert(s.drop_first()[i - 1] == s[i]);
    }
}

pub proof fn lemma_generics_height(s: Seq<Generic>, i: int)
    requires
        0 <= i < s.len(),
    ensures
        1 + type_height(s[i].typ) <= generics_height(s),
    decreases s,
{
    if i > 0 {
        lemma_generics_height(s.drop_first(), i - 1);
        assert(s.drop_first()[i - 1] == s[i]);
    }
}

/// Two types are the same: equal tags, and recursively the same element,
/// member and parameter types. Names are compared by their contents.
pub open spec fn type_eq(a: Type, b: Type) -> bool
    decreases a,
{
    type_data_eq(a.data, b.data)
}

pub open spec fn type_data_eq(a: TypeData, b: TypeData) -> bool
    decreases a,
{
    match (a, b) {
        (TypeData::CHAR, TypeData::CHAR) => true,
        (TypeData::INT, TypeData::INT) => true,
        (TypeData::FLOAT, TypeData::FLOAT) => true,
        (TypeData::BOOL, TypeData::BOOL) => true,
        (TypeData::VOID, TypeData::VOID) => true,
        (TypeData::ARRAY(x), TypeData::ARRAY(y)) => type_eq(*x, *y),
        (
            TypeData::STRUCT { params: p1, fields: f1 },
            TypeData::STRUCT { params: p2, fields: f2 },
        ) => generics_eq(p1@, p2@) && fields_eq(f1@, f2@),
        (TypeData::DEF(i), TypeData::DEF(j)) => i == j,
        (TypeData::FIELD, TypeData::FIELD) => true,
        (TypeData::PARAM, TypeData::PARAM) => true,
        (TypeData::TYPE, TypeData::TYPE) => true,
        (TypeData::BOX, TypeData::BOX) => true,
        (TypeData::INVALID, TypeData::INVALID) => true,
        _ => false,
    }
}

pub open spec fn field_eq(a: Field, b: Field) -> bool
    decreases a,
{
    a.name@ == b.name@ && type_eq(a.typ, b.typ)
}

pub open spec fn generic_eq(a: Generic, b: Generic) -> bool
    decreases a,
{
    a.name@ == b.name@ && type_eq(a.typ, b.typ)
}

pub open spec fn fields_eq(a: Seq<Field>, b: Seq<Field>) -> bool
    decreases a,
{
    a.len() == b.len() && (forall|i: int| 0 <= i < a.len() ==> field_eq(a[i], #[trigger] b[i]))
}

pub open spec fn generics_eq(a: Seq<Generic>, b: Seq<Generic>) -> bool
    decreases a,
{
    a.len() == b.len() && (forall|i: int| 0 <= i < a.len() ==> generic_eq(a[i], #[trigger] b[i]))
}

/// Structural compatibility, the rule behind `Type::expect`: `INVALID` on
/// either side is compatible with anything (so one type error is reported only
/// once); primitives and meta tags must agree; arrays must have compatible
/// element types; structs must have the same member names, in order, with
/// compatible types; definition references must name the same definition.
pub open spec fn compat(a: TypeData, b: TypeData) -> bool
    decreases a,
{
    if a is INVALID || b is INVALID {
        true
    } else {
        match (a, b) {
            (TypeData::CHAR, TypeData::CHAR) => true,
            (TypeData::INT, TypeData::INT) => true,
            (TypeData::FLOAT, TypeData::FLOAT) => true,
            (TypeData::BOOL, TypeData::BOOL) => true,
            (TypeData::VOID, TypeData::VOID) => true,
            (TypeData::ARRAY(x), TypeData::ARRAY(y)) => compat(x.data, y.data),
            (
                TypeData::STRUCT { params: p1, fields: f1 },
                TypeData::STRUCT { params: p2, fields: f2 },
            ) => {
                &&& p1@.len() == p2@.len()
                &&& f1@.len() == f2@.len()
                &&& forall|i: int|
                    0 <= i < p1@.len() ==> p1@[i].name@ == (#[trigger] p2@[i]).name@ && compat(
                        p1@[i].typ.data,
                        p2@[i].typ.data,
                    )
                &&& forall|i: int|
                    0 <= i < f1@.len() ==> f1@[i].name@ == (#[trigger] f2@[i]).name@ && compat(
                        f1@[i].typ.data,
                        f2@[i].typ.data,
                    )
            },
            (TypeData::DEF(i), TypeData::DEF(j)) => i == j,
            (TypeData::FIELD, TypeData::FIELD) => true,
            (TypeData::PARAM, TypeData::PARAM) => true,
            (TypeData::TYPE, TypeData::TYPE) => true,
            (TypeData::BOX, TypeData::BOX) => true,
            _ => false,
        }
    }
}

pub proof fn lemma_type_data_eq_refl(a: TypeData)
    ensures
        type_data_eq(a, a),
    decreases a,
{
    match a {
        TypeData::ARRAY(e) => lemma_type_data_eq_refl(e.data),
        TypeData::STRUCT { params, fields } => {
            assert forall|i: int| 0 <= i < params@.len() implies generic_eq(
                params@[i],
                #[trigger] params@[i],
            ) by {
                lemma_type_data_eq_refl(params@[i].typ.data);
            }
            assert forall|i: int| 0 <= i < fields@.len() implies field_eq(
                fields@[i],
                #[trigger] fields@[i],
            ) by {
                lemma_type_data_eq_refl(fields@[i].typ.data);
            }
        },
        _ => {},
    }
}

pub proof fn lemma_type_data_eq_trans(a: TypeData, b: TypeData, c: TypeData)
    requires
        type_data_eq(a, b),
        type_data_eq(b, c),
    ensures
        type_data_eq(a, c),
    decreases a,
{
    match (a, b, c) {
        (TypeData::ARRAY(x), TypeData::ARRAY(y), TypeData::ARRAY(z)) => {
            lemma_type_data_eq_trans(x.data, y.data, z.data);
        },
        (
            TypeData::STRUCT { params: p1, fields: f1 },
            TypeData::STRUCT { params: p2, fields: f2 },
            TypeData::STRUCT { params: p3, fields: f3 },
        ) => {
            assert forall|i: int| 0 <= i < p1@.len() implies generic_eq(
                p1@[i],
                #[trigger] p3@[i],
            ) by {
                assert(generic_eq(p1@[i], p2@[i]));
                assert(generic_eq(p2@[i], p3@[i]));
                lemma_type_data_eq_trans(p1@[i].typ.data, p2@[i].typ.data, p3@[i].typ.data);
            }
            assert forall|i: int| 0 <= i < f1@.len() implies field_eq(f1@[i], #[trigger] f3@[i]) by {
                assert(field_eq(f1@[i], f2@[i]));
                assert(field_eq(f2@[i], f3@[i]));
                lemma_type_data_eq_trans(f1@[i].typ.data, f2@[i].typ.data, f3@[i].typ.data);
            }
        },
        _ => {},
    }
}

pub proof fn lemma_type_eq_trans(a: Type, b: Type, c: Type)
    requires
        type_eq(a, b),
        type_eq(b, c),
    ensures
        type_eq(a, c),
{
    lemma_type_data_eq_trans(a.data, b.data, c.data);
}

impl Clone for Field {
    fn clone(&self) -> (r: Self)
        ensures
            field_eq(r, *self),
        decreases 1 + type_height(self.typ),
    {
        Field { name: self.name.clone(), typ: self.typ.clone() }
    }
}

impl Clone for Generic {
    fn clone(&self) -> (r: Self)
        ensures
            generic_eq(r, *self),
        decreases 1 + type_height(self.typ),
    {
        Generic { name: self.name.clone(), typ: self.typ.clone() }
    }
}

impl Clone for Type {
    /// A deep copy: the result is the same type as the original.
    fn clone(&self) -> (r: Self)
        ensures
            type_eq(r, *self),
        decreases type_height(*self),
    {
        Type { data: self.data.clone() }
    }
}

impl Clone for TypeData {
    /// A deep copy: the result is the same type shape as the original.
    #[verifier::loop_isolation(false)]
    fn clone(&self) -> (r: Self)
        ensures
            type_data_eq(r, *self),
        decreases type_data_height(*self),
    {
        match self {
            TypeData::CHAR => TypeData::CHAR,
            TypeData::INT => TypeData::INT,
            TypeData::FLOAT => TypeData::FLOAT,
            TypeData::BOOL => TypeData::BOOL,
            TypeData::VOID => TypeData::VOID,
            TypeData::ARRAY(e) => TypeData::ARRAY(Box::new((**e).clone())),
            TypeData::STRUCT { params, fields } => {
                let mut ps: Vec<Generic> = Vec::new();
                let mut i: usize = 0;
                while i < params.len()
                    invariant
                        i <= params.len(),
                        ps@.len() == i,
                        forall|j: int| 0 <= j < i ==> generic_eq(ps@[j], #[trigger] params@[j]),
                    decreases params.len() - i,
                {
                    proof {
                        lemma_generics_height(params@, i as int);
                    }
                    let c = params[i].clone();
                    ps.push(c);
                    i = i + 1;
                }
                let mut fs: Vec<Field> = Vec::new();
                let mut k: usize = 0;
                while k < fields.len()
                    invariant
                        k <= fields.len(),
                        fs@.len() == k,
                        forall|j: int| 0 <= j < k ==> field_eq(fs@[j], #[trigger] fields@[j]),
                    decreases fields.len() - k,
                {
                    proof {
                        lemma_fields_height(fields@, k as int);
                    }
                    let c = fields[k].clone();
                    fs.push(c);
                    k = k + 1;
                }
                TypeData::STRUCT { params: ps, fields: fs }
            },
            TypeData::DEF(i) => TypeData::DEF(*i),
            TypeData::FIELD => TypeData::FIELD,
            TypeData::PARAM => TypeData::PARAM,
            TypeData::TYPE => TypeData::TYPE,
            TypeData::BOX => TypeData::BOX,
            TypeData::INVALID => TypeData::INVALID,
        }
    }
}

/// The executable compatibility check behind `Type::expect`.
#[verifier::loop_isolation(false)]
pub fn compatible(a: &TypeData, b: &TypeData) -> (r: bool)
    ensures
        r == compat(*a, *b),
    decreases type_data_height(*a),
{
    match (a, b) {
        (TypeData::INVALID, _) => true,
        (_, TypeData::INVALID) => true,
        (TypeData::CHAR, TypeData::CHAR) => true,
        (TypeData::INT, TypeData::INT) => true,
        (TypeData::FLOAT, TypeData::FLOAT) => true,
        (TypeData::BOOL, TypeData::BOOL) => true,
        (TypeData::VOID, TypeData::VOID) => true,
        (TypeData::ARRAY(x), TypeData::ARRAY(y)) => compatible(&x.data, &y.data),
        (
            TypeData::STRUCT { params: p1, fields: f1 },
            TypeData::STRUCT { params: p2, fields: f2 },
        ) => {
            if p1.len() != p2.len() || f1.len() != f2.len() {
                return false;
            }
            let mut i: usize = 0;
            while i < p1.len()
                invariant
                    i <= p1.len(),
                    forall|j: int|
                        0 <= j < i ==> p1@[j].name@ == (#[trigger] p2@[j]).name@ && compat(
                            p1@[j].typ.data,
                            p2@[j].typ.data,
                        ),
                decreases p1.len() - i,
            {
                proof {
                    lemma_generics_height(p1@, i as int);
                }
                if !crate::ast::str_eq(&p1[i].name, &p2[i].name) {
                    return false;
                }
                if !compatible(&p1[i].typ.data, &p2[i].typ.data) {
                    return false;
                }
                i = i + 1;
            }
            let mut k: usize = 0;
            while k < f1.len()
                invariant
                    k <= f1.len(),
                    forall|j: int|
                        0 <= j < k ==> f1@[j].name@ == (#[trigger] f2@[j]).name@ && compat(
                            f1@[j].typ.data,
                            f2@[j].typ.data,
                        ),
                decreases f1.len() - k,
            {
                proof {
                    lemma_fields_height(f1@, k as int);
                }
                if !crate::ast::str_eq(&f1[k].name, &f2[k].name) {
                    return false;
                }
                if !compatible(&f1[k].typ.data, &f2[k].typ.data) {
                    return false;
                }
                k = k + 1;
            }
            true
        },
        (TypeData::DEF(i), TypeData::DEF(j)) => *i == *j,
        (TypeData::FIELD, TypeData::FIELD) => true,
        (TypeData::PARAM, TypeData::PARAM) => true,
        (TypeData::TYPE, TypeData::TYPE) => true,
        (TypeData::BOX, TypeData::BOX) => true,
        _ => false,
    }
}

impl Type {
    /// Checks this (actual) type against an expected type: structural
    /// equality, with `INVALID` on either side always accepted so an already
    /// reported error is not reported a second time.
    pub fn expect(&self, pos: Pos, expected: &Type) -> (r: Result<(), IRError>)
        ensures
            r is Ok <==> compat(self.data, expected.data),
            r matches Err(e) ==> e matches IRError::InvalidType { pos: p, expected: te, got: tg }
                && p == pos && type_eq(te, *expected) && type_eq(tg, *self),
    {
        if compatible(&self.data, &expected.data) {
            Ok(())
        } else {
            Err(IRError::InvalidType { pos, expected: expected.clone(), got: self.clone() })
        }
    }
}

/// Reference resolution with fuel: each step follows one definition
/// reference; a dangling reference, or a chain longer than the table (a
/// cycle), resolves to `INVALID`.
pub open spec fn spec_concrete_fuel(td: TypeData, defs: Seq<TypeDef>, fuel: nat) -> TypeData
    decreases fuel,
{
    match td {
        TypeData::DEF(i) => if i >= defs.len() {
            TypeData::INVALID
        } else if fuel == 0 {
            TypeData::INVALID
        } else {
            spec_concrete_fuel(defs[i as int].typ.data, defs, (fuel - 1) as nat)
        },
        _ => td,
    }
}

/// Concrete resolution: follows definition references through the definition
/// table until a structural type is reached. A table of length `n` can hold
/// a reference chain of at most `n` hops, so `n` is enough fuel.
pub open spec fn concrete_of(td: TypeData, defs: Seq<TypeDef>) -> TypeData {
    spec_concrete_fuel(td, defs, defs.len())
}

/// What resolution returns is never itself a definition reference.
pub proof fn lemma_concrete_not_ref(td: TypeData, defs: Seq<TypeDef>, fuel: nat)
    ensures
        !(spec_concrete_fuel(td, defs, fuel) is DEF),
    decreases fuel,
{
    match td {
        TypeData::DEF(i) => {
            if i < defs.len() && fuel > 0 {
                lemma_concrete_not_ref(defs[i as int].typ.data, defs, (fuel - 1) as nat);
            }
        },
        _ => {},
    }
}

/// Resolution is idempotent, and a type that is not a reference resolves to
/// itself: resolving never alters an already concrete type.
pub proof fn lemma_concrete_idempotent(td: TypeData, defs: Seq<TypeDef>)
    ensures
        concrete_of(concrete_of(td, defs), defs) == concrete_of(td, defs),
        !(td is DEF) ==> concrete_of(td, defs) == td,
{
    lemma_concrete_not_ref(td, defs, defs.len() as nat);
}

impl TypeData {
    /// Resolves definition references through the build context's definition
    /// table, returning the concrete shape of this type.
    pub fn concrete(&self, ir: &IR) -> (r: TypeData)
        ensures
            type_data_eq(r, concrete_of(*self, ir.types@)),
    {
        let mut cur: &TypeData = self;
        let mut fuel: usize = ir.types.len();
        loop
            invariant
                fuel <= ir.types@.len(),
                spec_concrete_fuel(*cur, ir.types@, fuel as nat) == concrete_of(*self, ir.types@),
            decreases fuel,
        {
            match cur {
                TypeData::DEF(i) => {
                    if *i >= ir.types.len() {
                        proof {
                            lemma_type_data_eq_refl(TypeData::INVALID);
                        }
                        return TypeData::INVALID;
                    }
                    if fuel == 0 {
                        proof {
                            lemma_type_data_eq_refl(TypeData::INVALID);
                        }
                        return TypeData::INVALID;
                    }
                    fuel = fuel - 1;
                    cur = &ir.types[*i].typ.data;
                },
                _ => {
                    return cur.clone();
                },
            }
        }
    }
}

} // verus!
