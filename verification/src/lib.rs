//! Type-term representation and substitution engine for a type checker.
//!
//! The crate defines the algebra of type values (`Ty`), ordered argument
//! lists used to instantiate generic items (`Substs`), binder-counting
//! wrappers (`Binders`), and the de Bruijn-indexed substitution and
//! shifting operations (`TypeWalk`) that inference and trait solving are
//! built on. Identifiers produced by name resolution are carried as opaque
//! keys; per-definition data is supplied through the `TypeDatabase` port.
//!
//! Every executable operation is specified against the mathematical model
//! in `model`; the laws of the substitution engine are proved in `laws`.

pub mod ids;
pub mod model;
pub mod tys;
pub mod walk;
pub mod substs;
pub mod binders;
pub mod ops;
pub mod db;
pub mod queries;
pub mod laws;

pub use ids::{
    AdtId, AssocContainerId, BoundVar, BuiltinType, CallableDefId, ConstId, CrateId,
    DebruijnIndex, DefWithBodyId, EnumId, EnumVariantId, ExprId, FloatTy, FunctionId,
    GenericDefId, ImplId, IntTy, InferenceVar, Lifetime, LifetimeParamId, ModuleId, Mutability,
    OpaqueTyId, Rawness, Scalar, StaticId, StructId, TraitId, TyVariableKind, TypeAliasId,
    TypeParam, TypeParamId, TypeParamProvenance, UintTy, UnionId,
};
pub use model::{
    BindersView, BoundVarView, CallableSigView, FnPointerView, OpaqueTyView, PredView,
    ProjectionPredView, ProjectionTyView, TraitRefView, TyView,
};
pub use tys::{
    CallableSig, FnPointer, FnSig, GenericPredicate, OpaqueTy, ProjectionPredicate, ProjectionTy,
    Substs, TraitRef, Ty,
};
pub use substs::SubstsBuilder;
pub use binders::{Binders, Canonical, PolyFnSig};
pub use walk::TypeWalk;
pub use db::{InMemoryDatabase, ReturnTypeImplTrait, ReturnTypeImplTraits, TypeDatabase};
pub use queries::param_idx;
