//! The laws of the substitution engine, proved over the model of
//! [`crate::model`]: identity substitution of a bound-variable list,
//! composition of shifting with substitution, capture avoidance at a
//! `Dyn` binder, and the properties of constructor-shape comparison.

use vstd::prelude::*;
use crate::ids::{AdtId, TraitId};
use crate::model::{
    bound_vars_view, closed_pred, closed_preds, closed_ty, closed_tys, lemma_subst_tys,
    shift_pred, shift_preds, shift_ty, shift_tys, subst_pred, subst_preds, subst_ty, subst_tys,
    BoundVarView, PredView, TraitRefView, TyView,
};
use crate::ops::equals_ctor_view;

verus! {

/// Shifting by zero changes nothing.
pub proof fn lemma_shift_zero_ty(t: TyView, d: nat)
    ensures
        shift_ty(t, 0, d) == t,
    decreases t,
{
    match t {
        TyView::Adt(_, ts) => lemma_shift_zero_tys(ts, d),
        TyView::AssociatedType(_, ts) => lemma_shift_zero_tys(ts, d),
        TyView::Tuple(_, ts) => lemma_shift_zero_tys(ts, d),
        TyView::Array(ts) => lemma_shift_zero_tys(ts, d),
        TyView::Slice(ts) => lemma_shift_zero_tys(ts, d),
        TyView::RawPtr(_, ts) => lemma_shift_zero_tys(ts, d),
        TyView::Ref(_, ts) => lemma_shift_zero_tys(ts, d),
        TyView::OpaqueType(_, ts) => lemma_shift_zero_tys(ts, d),
        TyView::FnDef(_, ts) => lemma_shift_zero_tys(ts, d),
        TyView::Closure(_, _, ts) => lemma_shift_zero_tys(ts, d),
        TyView::Function(fp) => lemma_shift_zero_tys(fp.substs, d),
        TyView::Projection(p) => lemma_shift_zero_tys(p.parameters, d),
        TyView::Opaque(o) => lemma_shift_zero_tys(o.parameters, d),
        TyView::Dyn(ps) => lemma_shift_zero_preds(ps, d + 1),
        _ => {},
    }
}

pub proof fn lemma_shift_zero_tys(ts: Seq<TyView>, d: nat)
    ensures
        shift_tys(ts, 0, d) == ts,
    decreases ts,
{
    if ts.len() > 0 {
        lemma_shift_zero_tys(ts.drop_last(), d);
        lemma_shift_zero_ty(ts.last(), d);
        assert(shift_tys(ts, 0, d) =~= ts);
    } else {
        assert(shift_tys(ts, 0, d) =~= ts);
    }
}

pub proof fn lemma_shift_zero_pred(p: PredView, d: nat)
    ensures
        shift_pred(p, 0, d) == p,
    decreases p,
{
    match p {
        PredView::Implemented(tr) => {
            lemma_shift_zero_tys(tr.substs, d);
        },
        PredView::Projection(pp) => {
            lemma_shift_zero_tys(pp.projection_ty.parameters, d);
            lemma_shift_zero_ty(pp.ty, d);
        },
        PredView::Error => {},
    }
}

pub proof fn lemma_shift_zero_preds(ps: Seq<PredView>, d: nat)
    ensures
        shift_preds(ps, 0, d) == ps,
    decreases ps,
{
    if ps.len() > 0 {
        lemma_shift_zero_preds(ps.drop_last(), d);
        lemma_shift_zero_pred(ps.last(), d);
        assert(shift_preds(ps, 0, d) =~= ps);
    } else {
        assert(shift_preds(ps, 0, d) =~= ps);
    }
}

/// Two shifts compose: shifting by `a` from depth `c` and then by `n` from
/// depth `a + c` is one shift by `a + n` from depth `c`.
pub proof fn lemma_shift_shift_ty(x: TyView, a: nat, n: nat, c: nat)
    ensures
        shift_ty(shift_ty(x, a, c), n, a + c) == shift_ty(x, a + n, c),
    decreases x,
{
    match x {
        TyView::Adt(_, ts) => lemma_shift_shift_tys(ts, a, n, c),
        TyView::AssociatedType(_, ts) => lemma_shift_shift_tys(ts, a, n, c),
        TyView::Tuple(_, ts) => lemma_shift_shift_tys(ts, a, n, c),
        TyView::Array(ts) => lemma_shift_shift_tys(ts, a, n, c),
        TyView::Slice(ts) => lemma_shift_shift_tys(ts, a, n, c),
        TyView::RawPtr(_, ts) => lemma_shift_shift_tys(ts, a, n, c),
        TyView::Ref(_, ts) => lemma_shift_shift_tys(ts, a, n, c),
        TyView::OpaqueType(_, ts) => lemma_shift_shift_tys(ts, a, n, c),
        TyView::FnDef(_, ts) => lemma_shift_shift_tys(ts, a, n, c),
        TyView::Closure(_, _, ts) => lemma_shift_shift_tys(ts, a, n, c),
        TyView::Function(fp) => lemma_shift_shift_tys(fp.substs, a, n, c),
        TyView::Projection(p) => lemma_shift_shift_tys(p.parameters, a, n, c),
        TyView::Opaque(o) => lemma_shift_shift_tys(o.parameters, a, n, c),
        TyView::Dyn(ps) => lemma_shift_shift_preds(ps, a, n, c + 1),
        _ => {},
    }
}

pub proof fn lemma_shift_shift_tys(ts: Seq<TyView>, a: nat, n: nat, c: nat)
    ensures
        shift_tys(shift_tys(ts, a, c), n, a + c) == shift_tys(ts, a + n, c),
    decreases ts,
{
    if ts.len() > 0 {
        lemma_shift_shift_tys(ts.drop_last(), a, n, c);
        lemma_shift_shift_ty(ts.last(), a, n, c);
        let inner = shift_tys(ts, a, c);
        assert(inner.drop_last() =~= shift_tys(ts.drop_last(), a, c));
        assert(inner.last() == shift_ty(ts.last(), a, c));
        assert(inner.len() > 0);
        assert(shift_tys(inner, n, a + c) =~= shift_tys(ts, a + n, c));
    } else {
        assert(shift_tys(shift_tys(ts, a, c), n, a + c) =~= shift_tys(ts, a + n, c));
    }
}

pub proof fn lemma_shift_shift_pred(p: PredView, a: nat, n: nat, c: nat)
    ensures
        shift_pred(shift_pred(p, a, c), n, a + c) == shift_pred(p, a + n, c),
    decreases p,
{
    match p {
        PredView::Implemented(tr) => {
            lemma_shift_shift_tys(tr.substs, a, n, c);
        },
        PredView::Projection(pp) => {
            lemma_shift_shift_tys(pp.projection_ty.parameters, a, n, c);
            lemma_shift_shift_ty(pp.ty, a, n, c);
        },
        PredView::Error => {},
    }
}

pub proof fn lemma_shift_shift_preds(ps: Seq<PredView>, a: nat, n: nat, c: nat)
    ensures
        shift_preds(shift_preds(ps, a, c), n, a + c) == shift_preds(ps, a + n, c),
    decreases ps,
{
    if ps.len() > 0 {
        lemma_shift_shift_preds(ps.drop_last(), a, n, c);
        lemma_shift_shift_pred(ps.last(), a, n, c);
        let inner = shift_preds(ps, a, c);
        assert(inner.drop_last() =~= shift_preds(ps.drop_last(), a, c));
        assert(inner.last() == shift_pred(ps.last(), a, c));
        assert(inner.len() > 0);
        assert(shift_preds(inner, n, a + c) =~= shift_preds(ps, a + n, c));
    } else {
        assert(shift_preds(shift_preds(ps, a, c), n, a + c) =~= shift_preds(ps, a + n, c));
    }
}

/// Substituting after shifting at the raised depth is shifting after
/// substituting: both walks replace the same variables with the same
/// arguments, shifted to the depth they land at.
pub proof fn lemma_shift_then_subst_ty(t: TyView, s: Seq<TyView>, n: nat, d: nat)
    ensures
        subst_ty(shift_ty(t, n, d), s, d + n) == shift_ty(subst_ty(t, s, d), n, d),
    decreases t,
{
    match t {
        TyView::Adt(_, ts) => lemma_shift_then_subst_tys(ts, s, n, d),
        TyView::AssociatedType(_, ts) => lemma_shift_then_subst_tys(ts, s, n, d),
        TyView::Tuple(_, ts) => lemma_shift_then_subst_tys(ts, s, n, d),
        TyView::Array(ts) => lemma_shift_then_subst_tys(ts, s, n, d),
        TyView::Slice(ts) => lemma_shift_then_subst_tys(ts, s, n, d),
        TyView::RawPtr(_, ts) => lemma_shift_then_subst_tys(ts, s, n, d),
        TyView::Ref(_, ts) => lemma_shift_then_subst_tys(ts, s, n, d),
        TyView::OpaqueType(_, ts) => lemma_shift_then_subst_tys(ts, s, n, d),
        TyView::FnDef(_, ts) => lemma_shift_then_subst_tys(ts, s, n, d),
        TyView::Closure(_, _, ts) => lemma_shift_then_subst_tys(ts, s, n, d),
        TyView::Function(fp) => lemma_shift_then_subst_tys(fp.substs, s, n, d),
        TyView::Projection(p) => lemma_shift_then_subst_tys(p.parameters, s, n, d),
        TyView::Opaque(o) => lemma_shift_then_subst_tys(o.parameters, s, n, d),
        TyView::Dyn(ps) => lemma_shift_then_subst_preds(ps, s, n, d + 1),
        TyView::Bound(v) => {
            if v.debruijn >= d && v.index < s.len() {
                lemma_shift_shift_ty(s[v.index as int], d, n, 0);
            }
        },
        _ => {},
    }
}

pub proof fn lemma_shift_then_subst_tys(ts: Seq<TyView>, s: Seq<TyView>, n: nat, d: nat)
    ensures
        subst_tys(shift_tys(ts, n, d), s, d + n) == shift_tys(subst_tys(ts, s, d), n, d),
    decreases ts,
{
    if ts.len() > 0 {
        lemma_shift_then_subst_tys(ts.drop_last(), s, n, d);
        lemma_shift_then_subst_ty(ts.last(), s, n, d);
        let sh = shift_tys(ts, n, d);
        assert(sh.drop_last() =~= shift_tys(ts.drop_last(), n, d));
        assert(sh.last() == shift_ty(ts.last(), n, d));
        assert(sh.len() > 0);
        let su = subst_tys(ts, s, d);
        assert(su.drop_last() =~= subst_tys(ts.drop_last(), s, d));
        assert(su.last() == subst_ty(ts.last(), s, d));
        assert(su.len() > 0);
        assert(subst_tys(sh, s, d + n) =~= shift_tys(su, n, d));
    } else {
        assert(subst_tys(shift_tys(ts, n, d), s, d + n) =~= shift_tys(subst_tys(ts, s, d), n, d));
    }
}

pub proof fn lemma_shift_then_subst_pred(p: PredView, s: Seq<TyView>, n: nat, d: nat)
    ensures
        subst_pred(shift_pred(p, n, d), s, d + n) == shift_pred(subst_pred(p, s, d), n, d),
    decreases p,
{
    match p {
        PredView::Implemented(tr) => {
            lemma_shift_then_subst_tys(tr.substs, s, n, d);
        },
        PredView::Projection(pp) => {
            lemma_shift_then_subst_tys(pp.projection_ty.parameters, s, n, d);
            lemma_shift_then_subst_ty(pp.ty, s, n, d);
        },
        PredView::Error => {},
    }
}

pub proof fn lemma_shift_then_subst_preds(ps: Seq<PredView>, s: Seq<TyView>, n: nat, d: nat)
    ensures
        subst_preds(shift_preds(ps, n, d), s, d + n) == shift_preds(subst_preds(ps, s, d), n, d),
    decreases ps,
{
    if ps.len() > 0 {
        lemma_shift_then_subst_preds(ps.drop_last(), s, n, d);
        lemma_shift_then_subst_pred(ps.last(), s, n, d);
        let sh = shift_preds(ps, n, d);
        assert(sh.drop_last() =~= shift_preds(ps.drop_last(), n, d));
        assert(sh.last() == shift_pred(ps.last(), n, d));
        assert(sh.len() > 0);
        let su = subst_preds(ps, s, d);
        assert(su.drop_last() =~= subst_preds(ps.drop_last(), s, d));
        assert(su.last() == subst_pred(ps.last(), s, d));
        assert(su.len() > 0);
        assert(subst_preds(sh, s, d + n) =~= shift_preds(su, n, d));
    } else {
        assert(subst_preds(shift_preds(ps, n, d), s, d + n) =~= shift_preds(
            subst_preds(ps, s, d),
            n,
            d,
        ));
    }
}

/// A term closed below `c` binders is closed below any deeper count.
pub proof fn lemma_closed_mono_ty(t: TyView, c: nat, c2: nat)
    requires
        closed_ty(t, c),
        c <= c2,
    ensures
        closed_ty(t, c2),
    decreases t,
{
    match t {
        TyView::Adt(_, ts) => lemma_closed_mono_tys(ts, c, c2),
        TyView::AssociatedType(_, ts) => lemma_closed_mono_tys(ts, c, c2),
        TyView::Tuple(_, ts) => lemma_closed_mono_tys(ts, c, c2),
        TyView::Array(ts) => lemma_closed_mono_tys(ts, c, c2),
        TyView::Slice(ts) => lemma_closed_mono_tys(ts, c, c2),
        TyView::RawPtr(_, ts) => lemma_closed_mono_tys(ts, c, c2),
        TyView::Ref(_, ts) => lemma_closed_mono_tys(ts, c, c2),
        TyView::OpaqueType(_, ts) => lemma_closed_mono_tys(ts, c, c2),
        TyView::FnDef(_, ts) => lemma_closed_mono_tys(ts, c, c2),
        TyView::Closure(_, _, ts) => lemma_closed_mono_tys(ts, c, c2),
        TyView::Function(fp) => lemma_closed_mono_tys(fp.substs, c, c2),
        TyView::Projection(p) => lemma_closed_mono_tys(p.parameters, c, c2),
        TyView::Opaque(o) => lemma_closed_mono_tys(o.parameters, c, c2),
        TyView::Dyn(ps) => lemma_closed_mono_preds(ps, c + 1, c2 + 1),
        _ => {},
    }
}

pub proof fn lemma_closed_mono_tys(ts: Seq<TyView>, c: nat, c2: nat)
    requires
        closed_tys(ts, c),
        c <= c2,
    ensures
        closed_tys(ts, c2),
    decreases ts,
{
    if ts.len() > 0 {
        lemma_closed_mono_tys(ts.drop_last(), c, c2);
        lemma_closed_mono_ty(ts.last(), c, c2);
    }
}

pub proof fn lemma_closed_mono_pred(p: PredView, c: nat, c2: nat)
    requires
        closed_pred(p, c),
        c <= c2,
    ensures
        closed_pred(p, c2),
    decreases p,
{
    match p {
        PredView::Implemented(tr) => {
            lemma_closed_mono_tys(tr.substs, c, c2);
        },
        PredView::Projection(pp) => {
            lemma_closed_mono_tys(pp.projection_ty.parameters, c, c2);
            lemma_closed_mono_ty(pp.ty, c, c2);
        },
        PredView::Error => {},
    }
}

pub proof fn lemma_closed_mono_preds(ps: Seq<PredView>, c: nat, c2: nat)
    requires
        closed_preds(ps, c),
        c <= c2,
    ensures
        closed_preds(ps, c2),
    decreases ps,
{
    if ps.len() > 0 {
        lemma_closed_mono_preds(ps.drop_last(), c, c2);
        lemma_closed_mono_pred(ps.last(), c, c2);
    }
}

/// Shifting does not touch a term with no free variables at the shift
/// depth.
pub proof fn lemma_shift_closed_ty(t: TyView, n: nat, c: nat)
    requires
        closed_ty(t, c),
    ensures
        shift_ty(t, n, c) == t,
    decreases t,
{
    match t {
        TyView::Adt(_, ts) => lemma_shift_closed_tys(ts, n, c),
        TyView::AssociatedType(_, ts) => lemma_shift_closed_tys(ts, n, c),
        TyView::Tuple(_, ts) => lemma_shift_closed_tys(ts, n, c),
        TyView::Array(ts) => lemma_shift_closed_tys(ts, n, c),
        TyView::Slice(ts) => lemma_shift_closed_tys(ts, n, c),
        TyView::RawPtr(_, ts) => lemma_shift_closed_tys(ts, n, c),
        TyView::Ref(_, ts) => lemma_shift_closed_tys(ts, n, c),
        TyView::OpaqueType(_, ts) => lemma_shift_closed_tys(ts, n, c),
        TyView::FnDef(_, ts) => lemma_shift_closed_tys(ts, n, c),
        TyView::Closure(_, _, ts) => lemma_shift_closed_tys(ts, n, c),
        TyView::Function(fp) => lemma_shift_closed_tys(fp.substs, n, c),
        TyView::Projection(p) => lemma_shift_closed_tys(p.parameters, n, c),
        TyView::Opaque(o) => lemma_shift_closed_tys(o.parameters, n, c),
        TyView::Dyn(ps) => lemma_shift_closed_preds(ps, n, c + 1),
        _ => {},
    }
}

pub proof fn lemma_shift_closed_tys(ts: Seq<TyView>, n: nat, c: nat)
    requires
        closed_tys(ts, c),
    ensures
        shift_tys(ts, n, c) == ts,
    decreases ts,
{
    if ts.len() > 0 {
        lemma_shift_closed_tys(ts.drop_last(), n, c);
        lemma_shift_closed_ty(ts.last(), n, c);
        assert(shift_tys(ts, n, c) =~= ts);
    } else {
        assert(shift_tys(ts, n, c) =~= ts);
    }
}

pub proof fn lemma_shift_closed_pred(p: PredView, n: nat, c: nat)
    requires
        closed_pred(p, c),
    ensures
        shift_pred(p, n, c) == p,
    decreases p,
{
    match p {
        PredView::Implemented(tr) => {
            lemma_shift_closed_tys(tr.substs, n, c);
        },
        PredView::Projection(pp) => {
            lemma_shift_closed_tys(pp.projection_ty.parameters, n, c);
            lemma_shift_closed_ty(pp.ty, n, c);
        },
        PredView::Error => {},
    }
}

pub proof fn lemma_shift_closed_preds(ps: Seq<PredView>, n: nat, c: nat)
    requires
        closed_preds(ps, c),
    ensures
        shift_preds(ps, n, c) == ps,
    decreases ps,
{
    if ps.len() > 0 {
        lemma_shift_closed_preds(ps.drop_last(), n, c);
        lemma_shift_closed_pred(ps.last(), n, c);
        assert(shift_preds(ps, n, c) =~= ps);
    } else {
        assert(shift_preds(ps, n, c) =~= ps);
    }
}

/// Whether every bound variable of `t` that is free relative to depth `d`
/// names one of `len` substitution slots.
pub open spec fn vars_below_ty(t: TyView, len: nat, d: nat) -> bool
    decreases t,
{
    match t {
        TyView::Adt(_, ts) => vars_below_tys(ts, len, d),
        TyView::AssociatedType(_, ts) => vars_below_tys(ts, len, d),
        TyView::Tuple(_, ts) => vars_below_tys(ts, len, d),
        TyView::Array(ts) => vars_below_tys(ts, len, d),
        TyView::Slice(ts) => vars_below_tys(ts, len, d),
        TyView::RawPtr(_, ts) => vars_below_tys(ts, len, d),
        TyView::Ref(_, ts) => vars_below_tys(ts, len, d),
        TyView::OpaqueType(_, ts) => vars_below_tys(ts, len, d),
        TyView::FnDef(_, ts) => vars_below_tys(ts, len, d),
        TyView::Closure(_, _, ts) => vars_below_tys(ts, len, d),
        TyView::Function(fp) => vars_below_tys(fp.substs, len, d),
        TyView::Projection(p) => vars_below_tys(p.parameters, len, d),
        TyView::Opaque(o) => vars_below_tys(o.parameters, len, d),
        TyView::Dyn(ps) => vars_below_preds(ps, len, d + 1),
        TyView::Bound(v) => v.debruijn >= d ==> v.index < len,
        _ => true,
    }
}

pub open spec fn vars_below_tys(ts: Seq<TyView>, len: nat, d: nat) -> bool
    decreases ts,
{
    if ts.len() == 0 {
        true
    } else {
        vars_below_tys(ts.drop_last(), len, d) && vars_below_ty(ts.last(), len, d)
    }
}

pub open spec fn vars_below_pred(p: PredView, len: nat, d: nat) -> bool
    decreases p,
{
    match p {
        PredView::Implemented(tr) => vars_below_tys(tr.substs, len, d),
        PredView::Projection(pp) => vars_below_tys(pp.projection_ty.parameters, len, d)
            && vars_below_ty(pp.ty, len, d),
        PredView::Error => true,
    }
}

pub open spec fn vars_below_preds(ps: Seq<PredView>, len: nat, d: nat) -> bool
    decreases ps,
{
    if ps.len() == 0 {
        true
    } else {
        vars_below_preds(ps.drop_last(), len, d) && vars_below_pred(ps.last(), len, d)
    }
}

/// Substituting closed arguments for all in-range free variables yields a
/// term with no free variables left at the substitution depth.
pub proof fn lemma_subst_closed_ty(t: TyView, s: Seq<TyView>, d: nat)
    requires
        forall|i: int| 0 <= i < s.len() ==> closed_ty(#[trigger] s[i], 0),
        vars_below_ty(t, s.len(), d),
    ensures
        closed_ty(subst_ty(t, s, d), d),
    decreases t,
{
    match t {
        TyView::Adt(_, ts) => lemma_subst_closed_tys(ts, s, d),
        TyView::AssociatedType(_, ts) => lemma_subst_closed_tys(ts, s, d),
        TyView::Tuple(_, ts) => lemma_subst_closed_tys(ts, s, d),
        TyView::Array(ts) => lemma_subst_closed_tys(ts, s, d),
        TyView::Slice(ts) => lemma_subst_closed_tys(ts, s, d),
        TyView::RawPtr(_, ts) => lemma_subst_closed_tys(ts, s, d),
        TyView::Ref(_, ts) => lemma_subst_closed_tys(ts, s, d),
        TyView::OpaqueType(_, ts) => lemma_subst_closed_tys(ts, s, d),
        TyView::FnDef(_, ts) => lemma_subst_closed_tys(ts, s, d),
        TyView::Closure(_, _, ts) => lemma_subst_closed_tys(ts, s, d),
        TyView::Function(fp) => lemma_subst_closed_tys(fp.substs, s, d),
        TyView::Projection(p) => lemma_subst_closed_tys(p.parameters, s, d),
        TyView::Opaque(o) => lemma_subst_closed_tys(o.parameters, s, d),
        TyView::Dyn(ps) => lemma_subst_closed_preds(ps, s, d + 1),
        TyView::Bound(v) => {
            if v.debruijn >= d {
                lemma_shift_closed_ty(s[v.index as int], d, 0);
                lemma_closed_mono_ty(s[v.index as int], 0, d);
            }
        },
        _ => {},
    }
}

pub proof fn lemma_subst_closed_tys(ts: Seq<TyView>, s: Seq<TyView>, d: nat)
    requires
        forall|i: int| 0 <= i < s.len() ==> closed_ty(#[trigger] s[i], 0),
        vars_below_tys(ts, s.len(), d),
    ensures
        closed_tys(subst_tys(ts, s, d), d),
    decreases ts,
{
    if ts.len() > 0 {
        lemma_subst_closed_tys(ts.drop_last(), s, d);
        lemma_subst_closed_ty(ts.last(), s, d);
        let su = subst_tys(ts, s, d);
        assert(su.drop_last() =~= subst_tys(ts.drop_last(), s, d));
        assert(su.last() == subst_ty(ts.last(), s, d));
        assert(su.len() > 0);
    }
}

pub proof fn lemma_subst_closed_pred(p: PredView, s: Seq<TyView>, d: nat)
    requires
        forall|i: int| 0 <= i < s.len() ==> closed_ty(#[trigger] s[i], 0),
        vars_below_pred(p, s.len(), d),
    ensures
        closed_pred(subst_pred(p, s, d), d),
    decreases p,
{
    match p {
        PredView::Implemented(tr) => {
            lemma_subst_closed_tys(tr.substs, s, d);
        },
        PredView::Projection(pp) => {
            lemma_subst_closed_tys(pp.projection_ty.parameters, s, d);
            lemma_subst_closed_ty(pp.ty, s, d);
        },
        PredView::Error => {},
    }
}

pub proof fn lemma_subst_closed_preds(ps: Seq<PredView>, s: Seq<TyView>, d: nat)
    requires
        forall|i: int| 0 <= i < s.len() ==> closed_ty(#[trigger] s[i], 0),
        vars_below_preds(ps, s.len(), d),
    ensures
        closed_preds(subst_preds(ps, s, d), d),
    decreases ps,
{
    if ps.len() > 0 {
        lemma_subst_closed_preds(ps.drop_last(), s, d);
        lemma_subst_closed_pred(ps.last(), s, d);
        let su = subst_preds(ps, s, d);
        assert(su.drop_last() =~= subst_preds(ps.drop_last(), s, d));
        assert(su.last() == subst_pred(ps.last(), s, d));
        assert(su.len() > 0);
    }
}

/// Substituting into the identity list of bound variables gives back the
/// substitution itself, whatever binder depth the identity list names:
/// every variable is replaced by its argument, by position.
pub proof fn lemma_bound_vars_identity(count: nat, depth: nat, s: Seq<TyView>)
    requires
        s.len() == count,
    ensures
        subst_tys(bound_vars_view(count, depth), s, 0) == s,
{
    let bv = bound_vars_view(count, depth);
    lemma_subst_tys(bv, s, 0);
    assert forall|i: int| 0 <= i < count implies subst_tys(bv, s, 0)[i] == s[i] by {
        assert(bv[i] == TyView::Bound(BoundVarView { debruijn: depth, index: i as nat }));
        lemma_shift_zero_ty(s[i], 0);
    }
    assert(subst_tys(bv, s, 0) =~= s);
}

/// The identity-substitution law at a type constructor: a term carrying the
/// identity list of its binder's variables, instantiated with arguments of
/// the same arity, carries exactly those arguments.
pub proof fn lemma_identity_instantiation(id: AdtId, count: nat, depth: nat, s: Seq<TyView>)
    requires
        s.len() == count,
    ensures
        subst_ty(TyView::Adt(id, bound_vars_view(count, depth)), s, 0) == TyView::Adt(id, s),
{
    lemma_bound_vars_identity(count, depth, s);
}

/// Shifting by `n` and then substituting at depth `n` resolves every
/// originally free variable to the same argument as substituting at depth
/// zero would, with the whole result relocated under the `n` new binders.
pub proof fn lemma_shift_subst_composition(t: TyView, s: Seq<TyView>, n: nat)
    ensures
        subst_ty(shift_ty(t, n, 0), s, n) == shift_ty(subst_ty(t, s, 0), n, 0),
{
    lemma_shift_then_subst_ty(t, s, n, 0);
}

/// Where the substituted arguments are closed and every free variable of
/// `t` is in range, shifting and then substituting at the matching depth
/// equals substituting at depth zero outright.
pub proof fn lemma_shift_subst_composition_closed(t: TyView, s: Seq<TyView>, n: nat)
    requires
        forall|i: int| 0 <= i < s.len() ==> closed_ty(#[trigger] s[i], 0),
        vars_below_ty(t, s.len(), 0),
    ensures
        subst_ty(shift_ty(t, n, 0), s, n) == subst_ty(t, s, 0),
{
    lemma_shift_then_subst_ty(t, s, n, 0);
    lemma_subst_closed_ty(t, s, 0);
    lemma_shift_closed_ty(subst_ty(t, s, 0), n, 0);
}

/// Substituting under a trait object's implicit self binder leaves a
/// reference to that binder alone and resolves a reference that reaches one
/// binder further out, shifting the inserted argument under the binder it
/// crosses.
pub proof fn lemma_dyn_self_capture(tid: TraitId, k: nat, s: Seq<TyView>)
    requires
        k < s.len(),
    ensures
        subst_ty(
            TyView::Dyn(
                seq![
                    PredView::Implemented(
                        TraitRefView {
                            trait_: tid,
                            substs: seq![
                                TyView::Bound(BoundVarView { debruijn: 0, index: k }),
                                TyView::Bound(BoundVarView { debruijn: 1, index: k }),
                            ],
                        },
                    ),
                ],
            ),
            s,
            0,
        ) == TyView::Dyn(
            seq![
                PredView::Implemented(
                    TraitRefView {
                        trait_: tid,
                        substs: seq![
                            TyView::Bound(BoundVarView { debruijn: 0, index: k }),
                            shift_ty(s[k as int], 1, 0),
                        ],
                    },
                ),
            ],
        ),
{
    let inner = seq![
        TyView::Bound(BoundVarView { debruijn: 0, index: k }),
        TyView::Bound(BoundVarView { debruijn: 1, index: k }),
    ];
    let pred = PredView::Implemented(TraitRefView { trait_: tid, substs: inner });
    crate::model::lemma_subst_preds(seq![pred], s, 1);
    lemma_subst_tys(inner, s, 1);
    assert(subst_ty(inner[0], s, 1) == inner[0]);
    assert(subst_ty(inner[1], s, 1) == shift_ty(s[k as int], 1, 0));
    assert(subst_tys(inner, s, 1) =~= seq![
        TyView::Bound(BoundVarView { debruijn: 0, index: k }),
        shift_ty(s[k as int], 1, 0),
    ]);
    assert(subst_preds(seq![pred], s, 1) =~= seq![
        PredView::Implemented(
            TraitRefView {
                trait_: tid,
                substs: seq![
                    TyView::Bound(BoundVarView { debruijn: 0, index: k }),
                    shift_ty(s[k as int], 1, 0),
                ],
            },
        ),
    ]);
}

/// The constructors that shape comparison can recognise: those carrying a
/// definition key, arity or scalar kind. References to binders, variables,
/// projections, opaque instances, trait objects and the error sentinel have
/// no comparable constructor and never compare equal, not even to
/// themselves.
pub open spec fn ctor_comparable(t: TyView) -> bool {
    match t {
        TyView::Adt(_, _) => true,
        TyView::AssociatedType(_, _) => true,
        TyView::Scalar(_) => true,
        TyView::Tuple(_, _) => true,
        TyView::Array(_) => true,
        TyView::Slice(_) => true,
        TyView::RawPtr(_, _) => true,
        TyView::Ref(_, _) => true,
        TyView::OpaqueType(_, _) => true,
        TyView::FnDef(_, _) => true,
        TyView::Str => true,
        TyView::Never => true,
        TyView::Closure(_, _, _) => true,
        TyView::ForeignType(_) => true,
        TyView::Function(_) => true,
        _ => false,
    }
}

/// Shape comparison is reflexive on every comparable constructor.
pub proof fn lemma_equals_ctor_reflexive(t: TyView)
    requires
        ctor_comparable(t),
    ensures
        equals_ctor_view(t, t),
{
}

/// Shape comparison is symmetric.
pub proof fn lemma_equals_ctor_symmetric(a: TyView, b: TyView)
    ensures
        equals_ctor_view(a, b) == equals_ctor_view(b, a),
{
}

/// Shape comparison over-approximates structural equality on comparable
/// constructors: equal terms have equal shape. The converse fails, since
/// the substituted arguments are ignored.
pub proof fn lemma_equals_ctor_over_approximates(a: TyView, b: TyView)
    requires
        a == b,
        ctor_comparable(a),
    ensures
        equals_ctor_view(a, b),
{
    lemma_equals_ctor_reflexive(a);
}

} // verus!
