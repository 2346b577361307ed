//! The mathematical model of type terms.
//!
//! Every executable type of the crate has a view in this vocabulary:
//! argument lists become `Seq`, machine integers become `nat`, and the
//! opaque identifiers are carried unchanged. The de Bruijn operations
//! (shifting, substitution, the post-order walk) are defined here as total
//! spec functions over the views; the executable operations in
//! [`crate::walk`] are proved to agree with them.

use vstd::prelude::*;
use crate::ids::{
    AdtId, CallableDefId, DefWithBodyId, ExprId, InferenceVar, Mutability, OpaqueTyId, Scalar,
    TraitId, TyVariableKind, TypeAliasId, TypeParamId,
};

verus! {

/// View of a bound-variable reference, with unbounded arithmetic.
pub struct BoundVarView {
    pub debruijn: nat,
    pub index: nat,
}

pub struct FnPointerView {
    pub num_args: nat,
    pub variadic: bool,
    pub substs: Seq<TyView>,
}

pub struct ProjectionTyView {
    pub associated_ty: TypeAliasId,
    pub parameters: Seq<TyView>,
}

pub struct OpaqueTyView {
    pub opaque_ty_id: OpaqueTyId,
    pub parameters: Seq<TyView>,
}

pub struct TraitRefView {
    pub trait_: TraitId,
    pub substs: Seq<TyView>,
}

pub struct ProjectionPredView {
    pub projection_ty: ProjectionTyView,
    pub ty: TyView,
}

/// View of a type term.
pub enum TyView {
    Adt(AdtId, Seq<TyView>),
    AssociatedType(TypeAliasId, Seq<TyView>),
    Scalar(Scalar),
    Tuple(nat, Seq<TyView>),
    Array(Seq<TyView>),
    Slice(Seq<TyView>),
    RawPtr(Mutability, Seq<TyView>),
    Ref(Mutability, Seq<TyView>),
    OpaqueType(OpaqueTyId, Seq<TyView>),
    FnDef(CallableDefId, Seq<TyView>),
    Str,
    Never,
    Closure(DefWithBodyId, ExprId, Seq<TyView>),
    ForeignType(TypeAliasId),
    Function(FnPointerView),
    Projection(ProjectionTyView),
    Opaque(OpaqueTyView),
    Placeholder(TypeParamId),
    Bound(BoundVarView),
    InferenceVar(InferenceVar, TyVariableKind),
    Dyn(Seq<PredView>),
    Unknown,
}

/// View of a generic predicate.
pub enum PredView {
    Implemented(TraitRefView),
    Projection(ProjectionPredView),
    Error,
}

/// View of a `Binders` wrapper.
pub struct BindersView<V> {
    pub num_binders: nat,
    pub value: V,
}

/// View of a callable signature: parameter views followed by the return
/// type's view, plus the variadic flag.
pub struct CallableSigView {
    pub params_and_return: Seq<TyView>,
    pub is_varargs: bool,
}

/// Raises every bound variable that is free relative to depth `d` by `n`.
/// Entering a `Dyn` node raises the tracked depth, since its predicates are
/// quantified over an implicit self binder.
pub open spec fn shift_ty(t: TyView, n: nat, d: nat) -> TyView
    decreases t,
{
    match t {
        TyView::Adt(id, ts) => TyView::Adt(id, shift_tys(ts, n, d)),
        TyView::AssociatedType(id, ts) => TyView::AssociatedType(id, shift_tys(ts, n, d)),
        TyView::Tuple(arity, ts) => TyView::Tuple(arity, shift_tys(ts, n, d)),
        TyView::Array(ts) => TyView::Array(shift_tys(ts, n, d)),
        TyView::Slice(ts) => TyView::Slice(shift_tys(ts, n, d)),
        TyView::RawPtr(m, ts) => TyView::RawPtr(m, shift_tys(ts, n, d)),
        TyView::Ref(m, ts) => TyView::Ref(m, shift_tys(ts, n, d)),
        TyView::OpaqueType(id, ts) => TyView::OpaqueType(id, shift_tys(ts, n, d)),
        TyView::FnDef(def, ts) => TyView::FnDef(def, shift_tys(ts, n, d)),
        TyView::Closure(def, expr, ts) => TyView::Closure(def, expr, shift_tys(ts, n, d)),
        TyView::Function(fp) => TyView::Function(FnPointerView { num_args: fp.num_args, variadic: fp.variadic, substs: shift_tys(fp.substs, n, d) }),
        TyView::Projection(p) => TyView::Projection(ProjectionTyView { associated_ty: p.associated_ty, parameters: shift_tys(p.parameters, n, d) }),
        TyView::Opaque(o) => TyView::Opaque(OpaqueTyView { opaque_ty_id: o.opaque_ty_id, parameters: shift_tys(o.parameters, n, d) }),
        TyView::Dyn(ps) => TyView::Dyn(shift_preds(ps, n, (d + 1) as nat)),
        TyView::Bound(v) => if v.debruijn >= d {
            TyView::Bound(BoundVarView { debruijn: (v.debruijn + n) as nat, index: v.index })
        } else {
            t
        },
        _ => t,
    }
}

pub open spec fn shift_tys(ts: Seq<TyView>, n: nat, d: nat) -> Seq<TyView>
    decreases ts,
{
    if ts.len() == 0 {
        Seq::empty()
    } else {
        shift_tys(ts.drop_last(), n, d).push(shift_ty(ts.last(), n, d))
    }
}

pub open spec fn shift_pred(p: PredView, n: nat, d: nat) -> PredView
    decreases p,
{
    match p {
        PredView::Implemented(tr) => PredView::Implemented(
            TraitRefView { trait_: tr.trait_, substs: shift_tys(tr.substs, n, d) },
        ),
        PredView::Projection(pp) => PredView::Projection(
            ProjectionPredView {
                projection_ty: ProjectionTyView {
                    associated_ty: pp.projection_ty.associated_ty,
                    parameters: shift_tys(pp.projection_ty.parameters, n, d),
                },
                ty: shift_ty(pp.ty, n, d),
            },
        ),
        PredView::Error => PredView::Error,
    }
}

pub open spec fn shift_preds(ts: Seq<PredView>, n: nat, d: nat) -> Seq<PredView>
    decreases ts,
{
    if ts.len() == 0 {
        Seq::empty()
    } else {
        shift_preds(ts.drop_last(), n, d).push(shift_pred(ts.last(), n, d))
    }
}

/// Replaces every bound variable that is free relative to depth `d` by the
/// corresponding element of `s`, shifted up by the depth at which it is
/// inserted. Variables bound by an intervening binder are untouched; a free
/// variable whose index falls outside `s` is also left as it stands (the
/// executable operations exclude that case by precondition).
pub open spec fn subst_ty(t: TyView, s: Seq<TyView>, d: nat) -> TyView
    decreases t,
{
    match t {
        TyView::Adt(id, ts) => TyView::Adt(id, subst_tys(ts, s, d)),
        TyView::AssociatedType(id, ts) => TyView::AssociatedType(id, subst_tys(ts, s, d)),
        TyView::Tuple(arity, ts) => TyView::Tuple(arity, subst_tys(ts, s, d)),
        TyView::Array(ts) => TyView::Array(subst_tys(ts, s, d)),
        TyView::Slice(ts) => TyView::Slice(subst_tys(ts, s, d)),
        TyView::RawPtr(m, ts) => TyView::RawPtr(m, subst_tys(ts, s, d)),
        TyView::Ref(m, ts) => TyView::Ref(m, subst_tys(ts, s, d)),
        TyView::OpaqueType(id, ts) => TyView::OpaqueType(id, subst_tys(ts, s, d)),
        TyView::FnDef(def, ts) => TyView::FnDef(def, subst_tys(ts, s, d)),
        TyView::Closure(def, expr, ts) => TyView::Closure(def, expr, subst_tys(ts, s, d)),
        TyView::Function(fp) => TyView::Function(FnPointerView { num_args: fp.num_args, variadic: fp.variadic, substs: subst_tys(fp.substs, s, d) }),
        TyView::Projection(p) => TyView::Projection(ProjectionTyView { associated_ty: p.associated_ty, parameters: subst_tys(p.parameters, s, d) }),
        TyView::Opaque(o) => TyView::Opaque(OpaqueTyView { opaque_ty_id: o.opaque_ty_id, parameters: subst_tys(o.parameters, s, d) }),
        TyView::Dyn(ps) => TyView::Dyn(subst_preds(ps, s, (d + 1) as nat)),
        TyView::Bound(v) => if v.debruijn >= d {
            if v.index < s.len() {
                shift_ty(s[v.index as int], d, 0)
            } else {
                t
            }
        } else {
            t
        },
        _ => t,
    }
}

pub open spec fn subst_tys(ts: Seq<TyView>, s: Seq<TyView>, d: nat) -> Seq<TyView>
    decreases ts,
{
    if ts.len() == 0 {
        Seq::empty()
    } else {
        subst_tys(ts.drop_last(), s, d).push(subst_ty(ts.last(), s, d))
    }
}

pub open spec fn subst_pred(p: PredView, s: Seq<TyView>, d: nat) -> PredView
    decreases p,
{
    match p {
        PredView::Implemented(tr) => PredView::Implemented(
            TraitRefView { trait_: tr.trait_, substs: subst_tys(tr.substs, s, d) },
        ),
        PredView::Projection(pp) => PredView::Projection(
            ProjectionPredView {
                projection_ty: ProjectionTyView {
                    associated_ty: pp.projection_ty.associated_ty,
                    parameters: subst_tys(pp.projection_ty.parameters, s, d),
                },
                ty: subst_ty(pp.ty, s, d),
            },
        ),
        PredView::Error => PredView::Error,
    }
}

pub open spec fn subst_preds(ts: Seq<PredView>, s: Seq<TyView>, d: nat) -> Seq<PredView>
    decreases ts,
{
    if ts.len() == 0 {
        Seq::empty()
    } else {
        subst_preds(ts.drop_last(), s, d).push(subst_pred(ts.last(), s, d))
    }
}

/// Whether the executable shift of `t` by `n` from depth `d` stays within
/// the machine representation: the tracked depth fits in a `u32` whenever a
/// binder is entered, and every raised index fits in a `u32`.
pub open spec fn shift_ok_ty(t: TyView, n: nat, d: nat) -> bool
    decreases t,
{
    match t {
        TyView::Adt(_, ts) => shift_ok_tys(ts, n, d),
        TyView::AssociatedType(_, ts) => shift_ok_tys(ts, n, d),
        TyView::Tuple(_, ts) => shift_ok_tys(ts, n, d),
        TyView::Array(ts) => shift_ok_tys(ts, n, d),
        TyView::Slice(ts) => shift_ok_tys(ts, n, d),
        TyView::RawPtr(_, ts) => shift_ok_tys(ts, n, d),
        TyView::Ref(_, ts) => shift_ok_tys(ts, n, d),
        TyView::OpaqueType(_, ts) => shift_ok_tys(ts, n, d),
        TyView::FnDef(_, ts) => shift_ok_tys(ts, n, d),
        TyView::Closure(_, _, ts) => shift_ok_tys(ts, n, d),
        TyView::Function(fp) => shift_ok_tys(fp.substs, n, d),
        TyView::Projection(p) => shift_ok_tys(p.parameters, n, d),
        TyView::Opaque(o) => shift_ok_tys(o.parameters, n, d),
        TyView::Dyn(ps) => d < u32::MAX && shift_ok_preds(ps, n, (d + 1) as nat),
        TyView::Bound(v) => v.debruijn >= d ==> v.debruijn + n <= u32::MAX,
        _ => true,
    }
}

pub open spec fn shift_ok_tys(ts: Seq<TyView>, n: nat, d: nat) -> bool
    decreases ts,
{
    if ts.len() == 0 {
        true
    } else {
        shift_ok_tys(ts.drop_last(), n, d) && shift_ok_ty(ts.last(), n, d)
    }
}

pub open spec fn shift_ok_pred(p: PredView, n: nat, d: nat) -> bool
    decreases p,
{
    match p {
        PredView::Implemented(tr) => shift_ok_tys(tr.substs, n, d),
        PredView::Projection(pp) => shift_ok_tys(pp.projection_ty.parameters, n, d)
            && shift_ok_ty(pp.ty, n, d),
        PredView::Error => true,
    }
}

pub open spec fn shift_ok_preds(ts: Seq<PredView>, n: nat, d: nat) -> bool
    decreases ts,
{
    if ts.len() == 0 {
        true
    } else {
        shift_ok_preds(ts.drop_last(), n, d) && shift_ok_pred(ts.last(), n, d)
    }
}

/// Whether the executable substitution of `s` into `t` from depth `d` is
/// representable: the tracked depth fits in a `u32`, every free variable's
/// index names an element of `s`, and the shift applied to that element
/// stays within bounds.
pub open spec fn subst_ok_ty(t: TyView, s: Seq<TyView>, d: nat) -> bool
    decreases t,
{
    match t {
        TyView::Adt(_, ts) => subst_ok_tys(ts, s, d),
        TyView::AssociatedType(_, ts) => subst_ok_tys(ts, s, d),
        TyView::Tuple(_, ts) => subst_ok_tys(ts, s, d),
        TyView::Array(ts) => subst_ok_tys(ts, s, d),
        TyView::Slice(ts) => subst_ok_tys(ts, s, d),
        TyView::RawPtr(_, ts) => subst_ok_tys(ts, s, d),
        TyView::Ref(_, ts) => subst_ok_tys(ts, s, d),
        TyView::OpaqueType(_, ts) => subst_ok_tys(ts, s, d),
        TyView::FnDef(_, ts) => subst_ok_tys(ts, s, d),
        TyView::Closure(_, _, ts) => subst_ok_tys(ts, s, d),
        TyView::Function(fp) => subst_ok_tys(fp.substs, s, d),
        TyView::Projection(p) => subst_ok_tys(p.parameters, s, d),
        TyView::Opaque(o) => subst_ok_tys(o.parameters, s, d),
        TyView::Dyn(ps) => d < u32::MAX && subst_ok_preds(ps, s, (d + 1) as nat),
        TyView::Bound(v) => v.debruijn >= d ==> v.index < s.len() && shift_ok_ty(
            s[v.index as int],
            d,
            0,
        ),
        _ => true,
    }
}

pub open spec fn subst_ok_tys(ts: Seq<TyView>, s: Seq<TyView>, d: nat) -> bool
    decreases ts,
{
    if ts.len() == 0 {
        true
    } else {
        subst_ok_tys(ts.drop_last(), s, d) && subst_ok_ty(ts.last(), s, d)
    }
}

pub open spec fn subst_ok_pred(p: PredView, s: Seq<TyView>, d: nat) -> bool
    decreases p,
{
    match p {
        PredView::Implemented(tr) => subst_ok_tys(tr.substs, s, d),
        PredView::Projection(pp) => subst_ok_tys(pp.projection_ty.parameters, s, d)
            && subst_ok_ty(pp.ty, s, d),
        PredView::Error => true,
    }
}

pub open spec fn subst_ok_preds(ts: Seq<PredView>, s: Seq<TyView>, d: nat) -> bool
    decreases ts,
{
    if ts.len() == 0 {
        true
    } else {
        subst_ok_preds(ts.drop_last(), s, d) && subst_ok_pred(ts.last(), s, d)
    }
}

/// Whether every bound variable of `t` refers to one of the `d` enclosing
/// binders, so that no variable is free relative to depth `d`.
pub open spec fn closed_ty(t: TyView, d: nat) -> bool
    decreases t,
{
    match t {
        TyView::Adt(_, ts) => closed_tys(ts, d),
        TyView::AssociatedType(_, ts) => closed_tys(ts, d),
        TyView::Tuple(_, ts) => closed_tys(ts, d),
        TyView::Array(ts) => closed_tys(ts, d),
        TyView::Slice(ts) => closed_tys(ts, d),
        TyView::RawPtr(_, ts) => closed_tys(ts, d),
        TyView::Ref(_, ts) => closed_tys(ts, d),
        TyView::OpaqueType(_, ts) => closed_tys(ts, d),
        TyView::FnDef(_, ts) => closed_tys(ts, d),
        TyView::Closure(_, _, ts) => closed_tys(ts, d),
        TyView::Function(fp) => closed_tys(fp.substs, d),
        TyView::Projection(p) => closed_tys(p.parameters, d),
        TyView::Opaque(o) => closed_tys(o.parameters, d),
        TyView::Dyn(ps) => closed_preds(ps, (d + 1) as nat),
        TyView::Bound(v) => v.debruijn < d,
        _ => true,
    }
}

pub open spec fn closed_tys(ts: Seq<TyView>, d: nat) -> bool
    decreases ts,
{
    if ts.len() == 0 {
        true
    } else {
        closed_tys(ts.drop_last(), d) && closed_ty(ts.last(), d)
    }
}

pub open spec fn closed_pred(p: PredView, d: nat) -> bool
    decreases p,
{
    match p {
        PredView::Implemented(tr) => closed_tys(tr.substs, d),
        PredView::Projection(pp) => closed_tys(pp.projection_ty.parameters, d)
            && closed_ty(pp.ty, d),
        PredView::Error => true,
    }
}

pub open spec fn closed_preds(ts: Seq<PredView>, d: nat) -> bool
    decreases ts,
{
    if ts.len() == 0 {
        true
    } else {
        closed_preds(ts.drop_last(), d) && closed_pred(ts.last(), d)
    }
}

/// The post-order visit sequence of a type term: every transitively
/// contained type, children before their container, the term itself last.
pub open spec fn walk_ty(t: TyView) -> Seq<TyView>
    decreases t,
{
    (match t {
        TyView::Adt(_, ts) => walk_tys(ts),
        TyView::AssociatedType(_, ts) => walk_tys(ts),
        TyView::Tuple(_, ts) => walk_tys(ts),
        TyView::Array(ts) => walk_tys(ts),
        TyView::Slice(ts) => walk_tys(ts),
        TyView::RawPtr(_, ts) => walk_tys(ts),
        TyView::Ref(_, ts) => walk_tys(ts),
        TyView::OpaqueType(_, ts) => walk_tys(ts),
        TyView::FnDef(_, ts) => walk_tys(ts),
        TyView::Closure(_, _, ts) => walk_tys(ts),
        TyView::Function(fp) => walk_tys(fp.substs),
        TyView::Projection(p) => walk_tys(p.parameters),
        TyView::Opaque(o) => walk_tys(o.parameters),
        TyView::Dyn(ps) => walk_preds(ps),
        _ => Seq::empty(),
    }).push(t)
}

pub open spec fn walk_tys(ts: Seq<TyView>) -> Seq<TyView>
    decreases ts,
{
    if ts.len() == 0 {
        Seq::empty()
    } else {
        walk_tys(ts.drop_last()) + walk_ty(ts.last())
    }
}

pub open spec fn walk_pred(p: PredView) -> Seq<TyView>
    decreases p,
{
    match p {
        PredView::Implemented(tr) => walk_tys(tr.substs),
        PredView::Projection(pp) => walk_tys(pp.projection_ty.parameters) + walk_ty(pp.ty),
        PredView::Error => Seq::empty(),
    }
}

pub open spec fn walk_preds(ps: Seq<PredView>) -> Seq<TyView>
    decreases ps,
{
    if ps.len() == 0 {
        Seq::empty()
    } else {
        walk_preds(ps.drop_last()) + walk_pred(ps.last())
    }
}

/// The identity substitution list of `count` variables at binder depth
/// `depth`: element `i` is the bound variable `(depth, i)`.
pub open spec fn bound_vars_view(count: nat, depth: nat) -> Seq<TyView> {
    Seq::new(count, |i: int| TyView::Bound(BoundVarView { debruijn: depth, index: i as nat }))
}

pub broadcast proof fn lemma_shift_tys(ts: Seq<TyView>, n: nat, d: nat)
    ensures
        (#[trigger] shift_tys(ts, n, d)).len() == ts.len(),
        forall|i: int| 0 <= i < ts.len() ==> shift_tys(ts, n, d)[i] == shift_ty(ts[i], n, d),
    decreases ts,
{
    if ts.len() > 0 {
        lemma_shift_tys(ts.drop_last(), n, d);
        assert(forall|i: int| 0 <= i < ts.len() - 1 ==> ts.drop_last()[i] == ts[i]);
    }
}

pub broadcast proof fn lemma_shift_preds(ts: Seq<PredView>, n: nat, d: nat)
    ensures
        (#[trigger] shift_preds(ts, n, d)).len() == ts.len(),
        forall|i: int| 0 <= i < ts.len() ==> shift_preds(ts, n, d)[i] == shift_pred(ts[i], n, d),
    decreases ts,
{
    if ts.len() > 0 {
        lemma_shift_preds(ts.drop_last(), n, d);
        assert(forall|i: int| 0 <= i < ts.len() - 1 ==> ts.drop_last()[i] == ts[i]);
    }
}

pub broadcast proof fn lemma_subst_tys(ts: Seq<TyView>, s: Seq<TyView>, d: nat)
    ensures
        (#[trigger] subst_tys(ts, s, d)).len() == ts.len(),
        forall|i: int| 0 <= i < ts.len() ==> subst_tys(ts, s, d)[i] == subst_ty(ts[i], s, d),
    decreases ts,
{
    if ts.len() > 0 {
        lemma_subst_tys(ts.drop_last(), s, d);
        assert(forall|i: int| 0 <= i < ts.len() - 1 ==> ts.drop_last()[i] == ts[i]);
    }
}

pub broadcast proof fn lemma_subst_preds(ts: Seq<PredView>, s: Seq<TyView>, d: nat)
    ensures
        (#[trigger] subst_preds(ts, s, d)).len() == ts.len(),
        forall|i: int| 0 <= i < ts.len() ==> subst_preds(ts, s, d)[i] == subst_pred(ts[i], s, d),
    decreases ts,
{
    if ts.len() > 0 {
        lemma_subst_preds(ts.drop_last(), s, d);
        assert(forall|i: int| 0 <= i < ts.len() - 1 ==> ts.drop_last()[i] == ts[i]);
    }
}

pub broadcast proof fn lemma_shift_ok_tys(ts: Seq<TyView>, n: nat, d: nat)
    ensures
        #[trigger] shift_ok_tys(ts, n, d) <==> (forall|i: int| 0 <= i < ts.len() ==> shift_ok_ty(ts[i], n, d)),
    decreases ts,
{
    if ts.len() > 0 {
        lemma_shift_ok_tys(ts.drop_last(), n, d);
        assert(forall|i: int| 0 <= i < ts.len() - 1 ==> ts.drop_last()[i] == ts[i]);
        assert(ts.last() == ts[ts.len() - 1]);
    }
}

pub broadcast proof fn lemma_shift_ok_preds(ts: Seq<PredView>, n: nat, d: nat)
    ensures
        #[trigger] shift_ok_preds(ts, n, d) <==> (forall|i: int| 0 <= i < ts.len() ==> shift_ok_pred(ts[i], n, d)),
    decreases ts,
{
    if ts.len() > 0 {
        lemma_shift_ok_preds(ts.drop_last(), n, d);
        assert(forall|i: int| 0 <= i < ts.len() - 1 ==> ts.drop_last()[i] == ts[i]);
        assert(ts.last() == ts[ts.len() - 1]);
    }
}

pub broadcast proof fn lemma_subst_ok_tys(ts: Seq<TyView>, s: Seq<TyView>, d: nat)
    ensures
        #[trigger] subst_ok_tys(ts, s, d) <==> (forall|i: int| 0 <= i < ts.len() ==> subst_ok_ty(ts[i], s, d)),
    decreases ts,
{
    if ts.len() > 0 {
        lemma_subst_ok_tys(ts.drop_last(), s, d);
        assert(forall|i: int| 0 <= i < ts.len() - 1 ==> ts.drop_last()[i] == ts[i]);
        assert(ts.last() == ts[ts.len() - 1]);
    }
}

pub broadcast proof fn lemma_subst_ok_preds(ts: Seq<PredView>, s: Seq<TyView>, d: nat)
    ensures
        #[trigger] subst_ok_preds(ts, s, d) <==> (forall|i: int| 0 <= i < ts.len() ==> subst_ok_pred(ts[i], s, d)),
    decreases ts,
{
    if ts.len() > 0 {
        lemma_subst_ok_preds(ts.drop_last(), s, d);
        assert(forall|i: int| 0 <= i < ts.len() - 1 ==> ts.drop_last()[i] == ts[i]);
        assert(ts.last() == ts[ts.len() - 1]);
    }
}



} // verus!
