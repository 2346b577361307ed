//! Opaque identifiers minted by name resolution, primitive type kinds, and
//! the de Bruijn index vocabulary.
//!
//! The identifiers are carried by [`crate::tys::Ty`] as already-resolved
//! keys: this crate never interprets them beyond equality. Each is a plain
//! value so that contracts can speak about it directly.

use vstd::prelude::*;

verus! {

/// Key of a struct, enum or union definition.
#[derive(Clone, Copy, PartialEq, Eq, Structural, Debug, Hash)]
pub enum AdtId {
    Struct(StructId),
    Union(UnionId),
    Enum(EnumId),
}

#[derive(Clone, Copy, PartialEq, Eq, Structural, Debug, Hash)]
pub struct StructId(pub u32);

#[derive(Clone, Copy, PartialEq, Eq, Structural, Debug, Hash)]
pub struct UnionId(pub u32);

#[derive(Clone, Copy, PartialEq, Eq, Structural, Debug, Hash)]
pub struct EnumId(pub u32);

#[derive(Clone, Copy, PartialEq, Eq, Structural, Debug, Hash)]
pub struct EnumVariantId(pub u32);

#[derive(Clone, Copy, PartialEq, Eq, Structural, Debug, Hash)]
pub struct FunctionId(pub u32);

#[derive(Clone, Copy, PartialEq, Eq, Structural, Debug, Hash)]
pub struct TraitId(pub u32);

#[derive(Clone, Copy, PartialEq, Eq, Structural, Debug, Hash)]
pub struct TypeAliasId(pub u32);

#[derive(Clone, Copy, PartialEq, Eq, Structural, Debug, Hash)]
pub struct ImplId(pub u32);

#[derive(Clone, Copy, PartialEq, Eq, Structural, Debug, Hash)]
pub struct ModuleId(pub u32);

#[derive(Clone, Copy, PartialEq, Eq, Structural, Debug, Hash)]
pub struct ConstId(pub u32);

#[derive(Clone, Copy, PartialEq, Eq, Structural, Debug, Hash)]
pub struct StaticId(pub u32);

#[derive(Clone, Copy, PartialEq, Eq, Structural, Debug, Hash)]
pub struct LifetimeParamId(pub u32);

/// Key of an expression within a body; closures and async blocks are keyed
/// by their defining body together with such an expression.
#[derive(Clone, Copy, PartialEq, Eq, Structural, Debug, Hash)]
pub struct ExprId(pub u32);

/// Key of a compilation unit, used to scope language-item lookups.
#[derive(Clone, Copy, PartialEq, Eq, Structural, Debug, Hash)]
pub struct CrateId(pub u32);

/// Key of an item that owns a body (function, const or static initializer).
#[derive(Clone, Copy, PartialEq, Eq, Structural, Debug, Hash)]
pub enum DefWithBodyId {
    Function(FunctionId),
    Const(ConstId),
    Static(StaticId),
}

/// Key of any definition that can declare generic parameters.
#[derive(Clone, Copy, PartialEq, Eq, Structural, Debug, Hash)]
pub enum GenericDefId {
    Function(FunctionId),
    Adt(AdtId),
    Trait(TraitId),
    TypeAlias(TypeAliasId),
    Impl(ImplId),
    EnumVariant(EnumVariantId),
    Const(ConstId),
}

/// Key of a callable definition: a function, or a tuple struct / enum
/// variant constructor.
#[derive(Clone, Copy, PartialEq, Eq, Structural, Debug, Hash)]
pub enum CallableDefId {
    FunctionId(FunctionId),
    StructId(StructId),
    EnumVariantId(EnumVariantId),
}

impl CallableDefId {
    /// The generic-definition key of this callable.
    pub fn to_generic_def(self) -> (r: GenericDefId)
        ensures
            r == self.generic_def(),
    {
        match self {
            CallableDefId::FunctionId(f) => GenericDefId::Function(f),
            CallableDefId::StructId(s) => GenericDefId::Adt(AdtId::Struct(s)),
            CallableDefId::EnumVariantId(v) => GenericDefId::EnumVariant(v),
        }
    }

    pub open spec fn generic_def(self) -> GenericDefId {
        match self {
            CallableDefId::FunctionId(f) => GenericDefId::Function(f),
            CallableDefId::StructId(s) => GenericDefId::Adt(AdtId::Struct(s)),
            CallableDefId::EnumVariantId(v) => GenericDefId::EnumVariant(v),
        }
    }
}

/// Key of a universally quantified type parameter: its declaring definition
/// together with its position in that definition's parameter list.
#[derive(Clone, Copy, PartialEq, Eq, Structural, Debug, Hash)]
pub struct TypeParamId {
    pub parent: GenericDefId,
    pub local_id: u32,
}

/// How a type parameter entered its parameter list.
#[derive(Clone, Copy, PartialEq, Eq, Structural, Debug, Hash)]
pub enum TypeParamProvenance {
    TypeParamList,
    TraitSelf,
    ArgumentImplTrait,
}

/// One declared generic parameter, as reported by the database.
#[derive(Clone, Copy, PartialEq, Eq, Structural, Debug, Hash)]
pub struct TypeParam {
    pub id: TypeParamId,
    pub provenance: TypeParamProvenance,
}

/// Container that an associated item was found in.
#[derive(Clone, Copy, PartialEq, Eq, Structural, Debug, Hash)]
pub enum AssocContainerId {
    Trait(TraitId),
    Impl(ImplId),
    Module(ModuleId),
}

#[derive(Clone, Copy, PartialEq, Eq, Structural, Debug, Hash)]
pub enum Lifetime {
    Parameter(LifetimeParamId),
    Static,
}

#[derive(Clone, Copy, PartialEq, Eq, Structural, Debug, Hash)]
pub enum IntTy {
    Isize,
    I8,
    I16,
    I32,
    I64,
    I128,
}

#[derive(Clone, Copy, PartialEq, Eq, Structural, Debug, Hash)]
pub enum UintTy {
    Usize,
    U8,
    U16,
    U32,
    U64,
    U128,
}

/// Kind of a floating-point scalar. Only the kind is represented; no
/// floating-point value ever appears in a type term.
#[derive(Clone, Copy, PartialEq, Eq, Structural, Debug, Hash)]
pub enum FloatTy {
    F32,
    F64,
}

/// Kind of a scalar type.
#[derive(Clone, Copy, PartialEq, Eq, Structural, Debug, Hash)]
pub enum Scalar {
    Bool,
    Char,
    Int(IntTy),
    Uint(UintTy),
    Float(FloatTy),
}

/// A primitive surface type, as written in source.
#[derive(Clone, Copy, PartialEq, Eq, Structural, Debug, Hash)]
pub enum BuiltinType {
    Char,
    Bool,
    Str,
    Int(IntTy),
    Uint(UintTy),
    Float(FloatTy),
}

#[derive(Clone, Copy, PartialEq, Eq, Structural, Debug, Hash)]
pub enum Mutability {
    Shared,
    Mut,
}

/// Whether an indirection is a raw pointer or a reference.
#[derive(Clone, Copy, PartialEq, Eq, Structural, Debug, Hash)]
pub enum Rawness {
    RawPtr,
    Ref,
}

/// Kind of an inference variable: general, or restricted to integer or
/// floating-point types.
#[derive(Clone, Copy, PartialEq, Eq, Structural, Debug, Hash)]
pub enum TyVariableKind {
    General,
    Integer,
    Float,
}

/// A unification variable allocated during type checking.
#[derive(Clone, Copy, PartialEq, Eq, Structural, Debug, Hash)]
pub struct InferenceVar(pub u32);

/// Key of an opaque (`impl Trait`) type.
#[derive(Clone, Copy, PartialEq, Eq, Structural, Debug, Hash)]
pub enum OpaqueTyId {
    /// Return-position `impl Trait`: the enclosing function and the position
    /// of the `impl Trait` in its return type.
    ReturnTypeImplTrait(FunctionId, u16),
    /// The anonymous type of an async block.
    AsyncBlockTypeImplTrait(DefWithBodyId, ExprId),
}

/// Nesting depth of a binder, counted from the innermost enclosing binder
/// outwards: depth 0 is the innermost binder.
#[derive(Clone, Copy, PartialEq, Eq, Structural, Debug, Hash)]
pub struct DebruijnIndex {
    pub depth: u32,
}

impl DebruijnIndex {
    /// The innermost binder, depth 0.
    pub fn innermost() -> (r: DebruijnIndex)
        ensures
            r.depth == 0,
    {
        DebruijnIndex { depth: 0 }
    }

    pub fn new(depth: u32) -> (r: DebruijnIndex)
        ensures
            r.depth == depth,
    {
        DebruijnIndex { depth }
    }

    /// The same index seen from inside one more binder.
    pub fn shifted_in(self) -> (r: DebruijnIndex)
        requires
            self.depth < u32::MAX,
        ensures
            r.depth == self.depth + 1,
    {
        DebruijnIndex { depth: self.depth + 1 }
    }

    /// The same index seen from inside `amount` more binders.
    pub fn shifted_in_from(self, amount: DebruijnIndex) -> (r: DebruijnIndex)
        requires
            self.depth + amount.depth <= u32::MAX,
        ensures
            r.depth == self.depth + amount.depth,
    {
        DebruijnIndex { depth: self.depth + amount.depth }
    }
}

/// A reference to an enclosing binder's variable: the binder, by de Bruijn
/// index, and the position within that binder's variable list.
#[derive(Clone, Copy, PartialEq, Eq, Structural, Debug, Hash)]
pub struct BoundVar {
    pub debruijn: DebruijnIndex,
    pub index: usize,
}

impl BoundVar {
    pub fn new(debruijn: DebruijnIndex, index: usize) -> (r: BoundVar)
        ensures
            r.debruijn == debruijn,
            r.index == index,
    {
        BoundVar { debruijn, index }
    }

    /// The same variable seen from inside `amount` more binders.
    pub fn shifted_in_from(self, amount: DebruijnIndex) -> (r: BoundVar)
        requires
            self.debruijn.depth + amount.depth <= u32::MAX,
        ensures
            r.debruijn.depth == self.debruijn.depth + amount.depth,
            r.index == self.index,
    {
        BoundVar { debruijn: self.debruijn.shifted_in_from(amount), index: self.index }
    }
}

} // verus!
