//! The executable type vocabulary: `Ty` and the structures it is built
//! from, their views in the model of [`crate::model`], and view-preserving
//! `Clone` implementations.
//!
//! Argument lists (`Substs`, a `Dyn` type's predicate list, a callable
//! signature's type list) are held in shared, immutable, reference-counted
//! storage, so cloning a type duplicates no list; rebuilding operations
//! allocate fresh storage instead of mutating shared storage in place.

use vstd::prelude::*;
use std::sync::Arc;
use crate::ids::{
    AdtId, BoundVar, CallableDefId, DefWithBodyId, ExprId, InferenceVar, Mutability, OpaqueTyId,
    Scalar, TraitId, TyVariableKind, TypeAliasId, TypeParamId,
};
use crate::model::{
    BoundVarView, CallableSigView, FnPointerView, OpaqueTyView, PredView, ProjectionPredView,
    ProjectionTyView, TraitRefView, TyView,
};

verus! {

broadcast use vstd::std_specs::vec::group_vec_axioms;

/// An ordered list of type arguments instantiating a generic item. The
/// storage is shared and immutable; cloning is cheap.
#[derive(PartialEq, Eq, Debug, Hash)]
pub struct Substs(pub Arc<Vec<Ty>>);

/// The variadic flag of a function signature.
#[derive(Clone, Copy, PartialEq, Eq, Structural, Debug, Hash)]
pub struct FnSig {
    pub variadic: bool,
}

/// An anonymous function pointer type: arity, signature flags, and the
/// parameter and return types as a `Substs` (return type last).
#[derive(PartialEq, Eq, Debug, Hash)]
pub struct FnPointer {
    pub num_args: usize,
    pub sig: FnSig,
    pub substs: Substs,
}

/// An unnormalized associated-type projection `<P0 as Trait<P1..Pn>>::Foo`:
/// the associated type is known and fully parameterized.
#[derive(PartialEq, Eq, Debug, Hash)]
pub struct ProjectionTy {
    pub associated_ty: TypeAliasId,
    pub parameters: Substs,
}

/// An `impl Trait` instance, resolved to its bound list only on demand
/// through the database.
#[derive(PartialEq, Eq, Debug, Hash)]
pub struct OpaqueTy {
    pub opaque_ty_id: OpaqueTyId,
    pub parameters: Substs,
}

/// A trait with all its type parameters filled in, including the `Self`
/// type: `substs[0]` is always the implementing type.
#[derive(PartialEq, Eq, Debug, Hash)]
pub struct TraitRef {
    pub trait_: TraitId,
    pub substs: Substs,
}

/// An equality constraint on an associated-type projection: the projection
/// and the type it is expected to equal.
#[derive(PartialEq, Eq, Debug, Hash)]
pub struct ProjectionPredicate {
    pub projection_ty: ProjectionTy,
    pub ty: Ty,
}

/// A resolved condition on the parameters of a generic item. `Error` marks
/// an obligation that could not be resolved; it propagates as a value and
/// never aborts a computation.
#[derive(PartialEq, Eq, Debug, Hash)]
pub enum GenericPredicate {
    Implemented(TraitRef),
    Projection(ProjectionPredicate),
    Error,
}

/// A type term.
///
/// Values are immutable once built and cheap to clone: every contained list
/// is shared. `Unknown` is the propagated "could not be determined"
/// sentinel and flows through all operations like any other type.
#[derive(PartialEq, Eq, Debug, Hash)]
pub enum Ty {
    /// A struct, enum or union instantiation.
    Adt(AdtId, Substs),
    /// An associated type applied to arguments, kept when a projection
    /// could not be normalized further.
    AssociatedType(TypeAliasId, Substs),
    /// A scalar such as `bool` or `u32`.
    Scalar(Scalar),
    /// A tuple of the given arity.
    Tuple(usize, Substs),
    /// An array; the single argument is the element type.
    Array(Substs),
    /// A slice; the single argument is the element type.
    Slice(Substs),
    /// A raw pointer with its mutability; the single argument is the
    /// pointee.
    RawPtr(Mutability, Substs),
    /// A reference with its mutability; the single argument is the pointee.
    Ref(Mutability, Substs),
    /// An opaque type known only by key; resolved through the database.
    OpaqueType(OpaqueTyId, Substs),
    /// The unique type of a function or constructor definition.
    FnDef(CallableDefId, Substs),
    /// The string slice type.
    Str,
    /// The never type.
    Never,
    /// The unique type of a closure; the first argument holds its call
    /// signature as a function pointer type.
    Closure(DefWithBodyId, ExprId, Substs),
    /// A foreign type declared in an external block.
    ForeignType(TypeAliasId),
    /// A function pointer type.
    Function(FnPointer),
    /// An unnormalized associated-type projection.
    Projection(ProjectionTy),
    /// An `impl Trait` instance.
    Opaque(OpaqueTy),
    /// A rigid stand-in for a universally quantified type parameter.
    Placeholder(TypeParamId),
    /// A reference to an enclosing binder's variable, by de Bruijn index.
    Bound(BoundVar),
    /// A unification variable, tagged with its kind.
    InferenceVar(InferenceVar, TyVariableKind),
    /// A trait object. The predicates are quantified over the `Self` type:
    /// a bound variable at depth 0 inside the list refers to the object's
    /// implicit self binder.
    Dyn(Arc<Vec<GenericPredicate>>),
    /// A type that could not be computed.
    Unknown,
}

/// A function signature as seen by inference: the parameter types followed
/// by the return type (always last, list never empty as constructed), and
/// the variadic flag. The list is shared with the type it was read from.
#[derive(PartialEq, Eq, Debug)]
pub struct CallableSig {
    pub params_and_return: Arc<Vec<Ty>>,
    pub is_varargs: bool,
}

pub open spec fn ty_view(t: Ty) -> TyView
    decreases t,
{
    match t {
        Ty::Adt(id, substs) => TyView::Adt(id, tys_view(substs.0@)),
        Ty::AssociatedType(id, substs) => TyView::AssociatedType(id, tys_view(substs.0@)),
        Ty::Tuple(arity, substs) => TyView::Tuple(arity as nat, tys_view(substs.0@)),
        Ty::Array(substs) => TyView::Array(tys_view(substs.0@)),
        Ty::Slice(substs) => TyView::Slice(tys_view(substs.0@)),
        Ty::RawPtr(m, substs) => TyView::RawPtr(m, tys_view(substs.0@)),
        Ty::Ref(m, substs) => TyView::Ref(m, tys_view(substs.0@)),
        Ty::OpaqueType(id, substs) => TyView::OpaqueType(id, tys_view(substs.0@)),
        Ty::FnDef(def, substs) => TyView::FnDef(def, tys_view(substs.0@)),
        Ty::Closure(def, expr, substs) => TyView::Closure(def, expr, tys_view(substs.0@)),
        Ty::Scalar(s) => TyView::Scalar(s),
        Ty::Str => TyView::Str,
        Ty::Never => TyView::Never,
        Ty::ForeignType(id) => TyView::ForeignType(id),
        Ty::Function(fp) => TyView::Function(
            FnPointerView {
                num_args: fp.num_args as nat,
                variadic: fp.sig.variadic,
                substs: tys_view(fp.substs.0@),
            },
        ),
        Ty::Projection(p) => TyView::Projection(projection_ty_view(p)),
        Ty::Opaque(o) => TyView::Opaque(
            OpaqueTyView { opaque_ty_id: o.opaque_ty_id, parameters: tys_view(o.parameters.0@) },
        ),
        Ty::Placeholder(id) => TyView::Placeholder(id),
        Ty::Bound(v) => TyView::Bound(
            BoundVarView { debruijn: v.debruijn.depth as nat, index: v.index as nat },
        ),
        Ty::InferenceVar(iv, kind) => TyView::InferenceVar(iv, kind),
        Ty::Dyn(ps) => TyView::Dyn(preds_view(ps@)),
        Ty::Unknown => TyView::Unknown,
    }
}

pub open spec fn tys_view(ts: Seq<Ty>) -> Seq<TyView>
    decreases ts,
{
    if ts.len() == 0 {
        Seq::empty()
    } else {
        tys_view(ts.drop_last()).push(ty_view(ts.last()))
    }
}

pub open spec fn projection_ty_view(p: ProjectionTy) -> ProjectionTyView
    decreases p,
{
    ProjectionTyView { associated_ty: p.associated_ty, parameters: tys_view(p.parameters.0@) }
}

pub open spec fn pred_view(p: GenericPredicate) -> PredView
    decreases p,
{
    match p {
        GenericPredicate::Implemented(tr) => PredView::Implemented(
            TraitRefView { trait_: tr.trait_, substs: tys_view(tr.substs.0@) },
        ),
        GenericPredicate::Projection(pp) => PredView::Projection(
            ProjectionPredView { projection_ty: projection_ty_view(pp.projection_ty), ty: ty_view(pp.ty) },
        ),
        GenericPredicate::Error => PredView::Error,
    }
}

pub open spec fn preds_view(ps: Seq<GenericPredicate>) -> Seq<PredView>
    decreases ps,
{
    if ps.len() == 0 {
        Seq::empty()
    } else {
        preds_view(ps.drop_last()).push(pred_view(ps.last()))
    }
}

impl View for Ty {
    type V = TyView;

    open spec fn view(&self) -> TyView {
        ty_view(*self)
    }
}

impl View for Substs {
    type V = Seq<TyView>;

    open spec fn view(&self) -> Seq<TyView> {
        tys_view(self.0@)
    }
}

impl View for GenericPredicate {
    type V = PredView;

    open spec fn view(&self) -> PredView {
        pred_view(*self)
    }
}

impl View for TraitRef {
    type V = TraitRefView;

    open spec fn view(&self) -> TraitRefView {
        TraitRefView { trait_: self.trait_, substs: tys_view(self.substs.0@) }
    }
}

impl View for ProjectionTy {
    type V = ProjectionTyView;

    open spec fn view(&self) -> ProjectionTyView {
        projection_ty_view(*self)
    }
}

impl View for OpaqueTy {
    type V = OpaqueTyView;

    open spec fn view(&self) -> OpaqueTyView {
        OpaqueTyView { opaque_ty_id: self.opaque_ty_id, parameters: tys_view(self.parameters.0@) }
    }
}

impl View for FnPointer {
    type V = FnPointerView;

    open spec fn view(&self) -> FnPointerView {
        FnPointerView {
            num_args: self.num_args as nat,
            variadic: self.sig.variadic,
            substs: tys_view(self.substs.0@),
        }
    }
}

impl View for ProjectionPredicate {
    type V = ProjectionPredView;

    open spec fn view(&self) -> ProjectionPredView {
        ProjectionPredView { projection_ty: projection_ty_view(self.projection_ty), ty: ty_view(self.ty) }
    }
}

impl View for CallableSig {
    type V = CallableSigView;

    open spec fn view(&self) -> CallableSigView {
        CallableSigView {
            params_and_return: tys_view(self.params_and_return@),
            is_varargs: self.is_varargs,
        }
    }
}

/// Pointwise description of `tys_view`.
pub broadcast proof fn lemma_tys_view(ts: Seq<Ty>)
    ensures
        (#[trigger] tys_view(ts)).len() == ts.len(),
        forall|i: int| 0 <= i < ts.len() ==> tys_view(ts)[i] == ty_view(ts[i]),
    decreases ts,
{
    if ts.len() > 0 {
        lemma_tys_view(ts.drop_last());
        assert(forall|i: int| 0 <= i < ts.len() - 1 ==> ts.drop_last()[i] == ts[i]);
    }
}

/// Pointwise description of `preds_view`.
pub broadcast proof fn lemma_preds_view(ps: Seq<GenericPredicate>)
    ensures
        (#[trigger] preds_view(ps)).len() == ps.len(),
        forall|i: int| 0 <= i < ps.len() ==> preds_view(ps)[i] == pred_view(ps[i]),
    decreases ps,
{
    if ps.len() > 0 {
        lemma_preds_view(ps.drop_last());
        assert(forall|i: int| 0 <= i < ps.len() - 1 ==> ps.drop_last()[i] == ps[i]);
    }
}

impl Clone for Substs {
    /// Clones by sharing the backing storage.
    fn clone(&self) -> (r: Self)
        ensures
            r@ == self@,
    {
        Substs(self.0.clone())
    }
}

impl Clone for FnPointer {
    fn clone(&self) -> (r: Self)
        ensures
            r@ == self@,
    {
        FnPointer { num_args: self.num_args, sig: self.sig, substs: self.substs.clone() }
    }
}

impl Clone for ProjectionTy {
    fn clone(&self) -> (r: Self)
        ensures
            r@ == self@,
    {
        ProjectionTy { associated_ty: self.associated_ty, parameters: self.parameters.clone() }
    }
}

impl Clone for OpaqueTy {
    fn clone(&self) -> (r: Self)
        ensures
            r@ == self@,
    {
        OpaqueTy { opaque_ty_id: self.opaque_ty_id, parameters: self.parameters.clone() }
    }
}

impl Clone for TraitRef {
    fn clone(&self) -> (r: Self)
        ensures
            r@ == self@,
    {
        TraitRef { trait_: self.trait_, substs: self.substs.clone() }
    }
}

impl Clone for ProjectionPredicate {
    fn clone(&self) -> (r: Self)
        ensures
            r@ == self@,
    {
        ProjectionPredicate { projection_ty: self.projection_ty.clone(), ty: self.ty.clone() }
    }
}

impl Clone for GenericPredicate {
    fn clone(&self) -> (r: Self)
        ensures
            r@ == self@,
    {
        match self {
            GenericPredicate::Implemented(tr) => GenericPredicate::Implemented(tr.clone()),
            GenericPredicate::Projection(pp) => GenericPredicate::Projection(pp.clone()),
            GenericPredicate::Error => GenericPredicate::Error,
        }
    }
}

impl Clone for CallableSig {
    /// Clones by sharing the backing storage.
    fn clone(&self) -> (r: Self)
        ensures
            r@ == self@,
    {
        CallableSig { params_and_return: self.params_and_return.clone(), is_varargs: self.is_varargs }
    }
}

impl Clone for Ty {
    /// Clones by sharing every contained list.
    fn clone(&self) -> (r: Self)
        ensures
            r@ == self@,
    {
        match self {
            Ty::Adt(id, substs) => Ty::Adt(*id, substs.clone()),
            Ty::AssociatedType(id, substs) => Ty::AssociatedType(*id, substs.clone()),
            Ty::Tuple(arity, substs) => Ty::Tuple(*arity, substs.clone()),
            Ty::Array(substs) => Ty::Array(substs.clone()),
            Ty::Slice(substs) => Ty::Slice(substs.clone()),
            Ty::RawPtr(m, substs) => Ty::RawPtr(*m, substs.clone()),
            Ty::Ref(m, substs) => Ty::Ref(*m, substs.clone()),
            Ty::OpaqueType(id, substs) => Ty::OpaqueType(*id, substs.clone()),
            Ty::FnDef(def, substs) => Ty::FnDef(*def, substs.clone()),
            Ty::Closure(def, expr, substs) => Ty::Closure(*def, *expr, substs.clone()),
            Ty::Scalar(s) => Ty::Scalar(*s),
            Ty::Str => Ty::Str,
            Ty::Never => Ty::Never,
            Ty::ForeignType(id) => Ty::ForeignType(*id),
            Ty::Function(fp) => Ty::Function(fp.clone()),
            Ty::Projection(p) => Ty::Projection(p.clone()),
            Ty::Opaque(o) => Ty::Opaque(o.clone()),
            Ty::Placeholder(id) => Ty::Placeholder(*id),
            Ty::Bound(v) => Ty::Bound(*v),
            Ty::InferenceVar(iv, kind) => Ty::InferenceVar(*iv, *kind),
            Ty::Dyn(ps) => Ty::Dyn(ps.clone()),
            Ty::Unknown => Ty::Unknown,
        }
    }
}

} // verus!
