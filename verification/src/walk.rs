//! The binder-aware traversal capability: substitution of bound variables
//! and shifting of de Bruijn indices, for every structure that contains
//! types.
//!
//! The executable operations rebuild their input bottom-up, allocating
//! fresh storage for every list they change, and are proved to agree with
//! the total spec functions of [`crate::model`]. Entering a `Dyn` node or a
//! `Binders` wrapper raises the tracked binder depth by one; getting this
//! right everywhere is the point of keeping depth a parameter of the shared
//! recursion rather than a counter at each call site.

use vstd::prelude::*;
use std::sync::Arc;
use crate::ids::DebruijnIndex;
use crate::model::{
    lemma_shift_ok_preds, lemma_shift_ok_tys, lemma_shift_preds, lemma_shift_tys,
    lemma_subst_ok_preds, lemma_subst_ok_tys, lemma_subst_preds, lemma_subst_tys, shift_ok_pred,
    shift_ok_preds, shift_ok_ty, shift_ok_tys, shift_pred, shift_preds, shift_ty, shift_tys,
    subst_ok_pred, subst_ok_preds, subst_ok_ty, subst_ok_tys, subst_pred, subst_preds, subst_ty,
    subst_tys, walk_pred, walk_preds, walk_ty, walk_tys, PredView, TraitRefView, TyView,
};
use crate::tys::{
    lemma_preds_view, lemma_tys_view, pred_view, preds_view, ty_view, tys_view, CallableSig,
    FnPointer, GenericPredicate, OpaqueTy, ProjectionPredicate, ProjectionTy, Substs, TraitRef,
    Ty,
};

verus! {

broadcast use vstd::std_specs::vec::group_vec_axioms;

pub(crate) fn shift_ty_exec(t: &Ty, n: DebruijnIndex, d: DebruijnIndex) -> (r: Ty)
    requires
        shift_ok_ty(ty_view(*t), n.depth as nat, d.depth as nat),
    ensures
        ty_view(r) == shift_ty(ty_view(*t), n.depth as nat, d.depth as nat),
    decreases *t,
{
    match t {
        Ty::Adt(id, substs) => Ty::Adt(*id, Substs(Arc::new(shift_tys_exec(&*substs.0, n, d)))),
        Ty::AssociatedType(id, substs) => Ty::AssociatedType(*id, Substs(Arc::new(shift_tys_exec(&*substs.0, n, d)))),
        Ty::Tuple(arity, substs) => Ty::Tuple(*arity, Substs(Arc::new(shift_tys_exec(&*substs.0, n, d)))),
        Ty::Array(substs) => Ty::Array(Substs(Arc::new(shift_tys_exec(&*substs.0, n, d)))),
        Ty::Slice(substs) => Ty::Slice(Substs(Arc::new(shift_tys_exec(&*substs.0, n, d)))),
        Ty::RawPtr(m, substs) => Ty::RawPtr(*m, Substs(Arc::new(shift_tys_exec(&*substs.0, n, d)))),
        Ty::Ref(m, substs) => Ty::Ref(*m, Substs(Arc::new(shift_tys_exec(&*substs.0, n, d)))),
        Ty::OpaqueType(id, substs) => Ty::OpaqueType(*id, Substs(Arc::new(shift_tys_exec(&*substs.0, n, d)))),
        Ty::FnDef(def, substs) => Ty::FnDef(*def, Substs(Arc::new(shift_tys_exec(&*substs.0, n, d)))),
        Ty::Closure(def, expr, substs) => Ty::Closure(*def, *expr, Substs(Arc::new(shift_tys_exec(&*substs.0, n, d)))),
        Ty::Function(fp) => Ty::Function(
            FnPointer {
                num_args: fp.num_args,
                sig: fp.sig,
                substs: Substs(Arc::new(shift_tys_exec(&*fp.substs.0, n, d))),
            },
        ),
        Ty::Projection(p) => Ty::Projection(
            ProjectionTy {
                associated_ty: p.associated_ty,
                parameters: Substs(Arc::new(shift_tys_exec(&*p.parameters.0, n, d))),
            },
        ),
        Ty::Opaque(o) => Ty::Opaque(
            OpaqueTy {
                opaque_ty_id: o.opaque_ty_id,
                parameters: Substs(Arc::new(shift_tys_exec(&*o.parameters.0, n, d))),
            },
        ),
        Ty::Dyn(ps) => Ty::Dyn(Arc::new(shift_preds_exec(&**ps, n, d.shifted_in()))),
        Ty::Bound(v) => {
            if v.debruijn.depth >= d.depth {
                Ty::Bound(v.shifted_in_from(n))
            } else {
                Ty::Bound(*v)
            }
        },
        Ty::Scalar(s) => Ty::Scalar(*s),
        Ty::Str => Ty::Str,
        Ty::Never => Ty::Never,
        Ty::ForeignType(id) => Ty::ForeignType(*id),
        Ty::Placeholder(id) => Ty::Placeholder(*id),
        Ty::InferenceVar(iv, kind) => Ty::InferenceVar(*iv, *kind),
        Ty::Unknown => Ty::Unknown,
    }
}

#[verifier::loop_isolation(false)]
pub(crate) fn shift_tys_exec(ts: &Vec<Ty>, n: DebruijnIndex, d: DebruijnIndex) -> (r: Vec<Ty>)
    requires
        shift_ok_tys(tys_view(ts@), n.depth as nat, d.depth as nat),
    ensures
        tys_view(r@) == shift_tys(tys_view(ts@), n.depth as nat, d.depth as nat),
    decreases *ts,
{
    proof {
        lemma_tys_view(ts@);
        lemma_shift_ok_tys(tys_view(ts@), n.depth as nat, d.depth as nat);
        lemma_shift_tys(tys_view(ts@), n.depth as nat, d.depth as nat);
    }
    let mut out: Vec<Ty> = Vec::new();
    let mut i: usize = 0;
    while i < ts.len()
        invariant
            i <= ts@.len(),
            out@.len() == i,
            forall|j: int|
                0 <= j < i ==> ty_view(out@[j]) == shift_ty(
                    ty_view(ts@[j]),
                    n.depth as nat,
                    d.depth as nat,
                ),
        decreases ts@.len() - i,
    {
        proof {
            assert(shift_ok_tys(tys_view(ts@), n.depth as nat, d.depth as nat));
            assert(shift_ok_ty(tys_view(ts@)[i as int], n.depth as nat, d.depth as nat));
        }
        let x = shift_ty_exec(&ts[i], n, d);
        out.push(x);
        i += 1;
    }
    proof {
        lemma_tys_view(out@);
        assert(tys_view(out@) =~= shift_tys(tys_view(ts@), n.depth as nat, d.depth as nat));
    }
    out
}

pub(crate) fn shift_pred_exec(p: &GenericPredicate, n: DebruijnIndex, d: DebruijnIndex) -> (r:
    GenericPredicate)
    requires
        shift_ok_pred(pred_view(*p), n.depth as nat, d.depth as nat),
    ensures
        pred_view(r) == shift_pred(pred_view(*p), n.depth as nat, d.depth as nat),
    decreases *p,
{
    match p {
        GenericPredicate::Implemented(tr) => GenericPredicate::Implemented(
            TraitRef {
                trait_: tr.trait_,
                substs: Substs(Arc::new(shift_tys_exec(&*tr.substs.0, n, d))),
            },
        ),
        GenericPredicate::Projection(pp) => GenericPredicate::Projection(
            ProjectionPredicate {
                projection_ty: ProjectionTy {
                    associated_ty: pp.projection_ty.associated_ty,
                    parameters: Substs(
                        Arc::new(shift_tys_exec(&*pp.projection_ty.parameters.0, n, d)),
                    ),
                },
                ty: shift_ty_exec(&pp.ty, n, d),
            },
        ),
        GenericPredicate::Error => GenericPredicate::Error,
    }
}

#[verifier::loop_isolation(false)]
pub(crate) fn shift_preds_exec(ps: &Vec<GenericPredicate>, n: DebruijnIndex, d: DebruijnIndex) -> (r:
    Vec<GenericPredicate>)
    requires
        shift_ok_preds(preds_view(ps@), n.depth as nat, d.depth as nat),
    ensures
        preds_view(r@) == shift_preds(preds_view(ps@), n.depth as nat, d.depth as nat),
    decreases *ps,
{
    proof {
        lemma_preds_view(ps@);
        lemma_shift_ok_preds(preds_view(ps@), n.depth as nat, d.depth as nat);
        lemma_shift_preds(preds_view(ps@), n.depth as nat, d.depth as nat);
    }
    let mut out: Vec<GenericPredicate> = Vec::new();
    let mut i: usize = 0;
    while i < ps.len()
        invariant
            i <= ps@.len(),
            out@.len() == i,
            forall|j: int|
                0 <= j < i ==> pred_view(out@[j]) == shift_pred(
                    pred_view(ps@[j]),
                    n.depth as nat,
                    d.depth as nat,
                ),
        decreases ps@.len() - i,
    {
        proof {
            assert(shift_ok_pred(preds_view(ps@)[i as int], n.depth as nat, d.depth as nat));
        }
        let x = shift_pred_exec(&ps[i], n, d);
        out.push(x);
        i += 1;
    }
    proof {
        lemma_preds_view(out@);
        assert(preds_view(out@) =~= shift_preds(preds_view(ps@), n.depth as nat, d.depth as nat));
    }
    out
}

pub(crate) fn subst_ty_exec(t: &Ty, s: &Substs, d: DebruijnIndex) -> (r: Ty)
    requires
        subst_ok_ty(ty_view(*t), s@, d.depth as nat),
    ensures
        ty_view(r) == subst_ty(ty_view(*t), s@, d.depth as nat),
    decreases *t,
{
    match t {
        Ty::Adt(id, substs) => Ty::Adt(*id, Substs(Arc::new(subst_tys_exec(&*substs.0, s, d)))),
        Ty::AssociatedType(id, substs) => Ty::AssociatedType(*id, Substs(Arc::new(subst_tys_exec(&*substs.0, s, d)))),
        Ty::Tuple(arity, substs) => Ty::Tuple(*arity, Substs(Arc::new(subst_tys_exec(&*substs.0, s, d)))),
        Ty::Array(substs) => Ty::Array(Substs(Arc::new(subst_tys_exec(&*substs.0, s, d)))),
        Ty::Slice(substs) => Ty::Slice(Substs(Arc::new(subst_tys_exec(&*substs.0, s, d)))),
        Ty::RawPtr(m, substs) => Ty::RawPtr(*m, Substs(Arc::new(subst_tys_exec(&*substs.0, s, d)))),
        Ty::Ref(m, substs) => Ty::Ref(*m, Substs(Arc::new(subst_tys_exec(&*substs.0, s, d)))),
        Ty::OpaqueType(id, substs) => Ty::OpaqueType(*id, Substs(Arc::new(subst_tys_exec(&*substs.0, s, d)))),
        Ty::FnDef(def, substs) => Ty::FnDef(*def, Substs(Arc::new(subst_tys_exec(&*substs.0, s, d)))),
        Ty::Closure(def, expr, substs) => Ty::Closure(*def, *expr, Substs(Arc::new(subst_tys_exec(&*substs.0, s, d)))),
        Ty::Function(fp) => Ty::Function(
            FnPointer {
                num_args: fp.num_args,
                sig: fp.sig,
                substs: Substs(Arc::new(subst_tys_exec(&*fp.substs.0, s, d))),
            },
        ),
        Ty::Projection(p) => Ty::Projection(
            ProjectionTy {
                associated_ty: p.associated_ty,
                parameters: Substs(Arc::new(subst_tys_exec(&*p.parameters.0, s, d))),
            },
        ),
        Ty::Opaque(o) => Ty::Opaque(
            OpaqueTy {
                opaque_ty_id: o.opaque_ty_id,
                parameters: Substs(Arc::new(subst_tys_exec(&*o.parameters.0, s, d))),
            },
        ),
        Ty::Dyn(ps) => Ty::Dyn(Arc::new(subst_preds_exec(&**ps, s, d.shifted_in()))),
        Ty::Bound(v) => {
            if v.debruijn.depth >= d.depth {
                proof {
                    lemma_tys_view(s.0@);
                }
                let list: &Vec<Ty> = &*s.0;
                shift_ty_exec(&list[v.index], d, DebruijnIndex::innermost())
            } else {
                Ty::Bound(*v)
            }
        },
        Ty::Scalar(sc) => Ty::Scalar(*sc),
        Ty::Str => Ty::Str,
        Ty::Never => Ty::Never,
        Ty::ForeignType(id) => Ty::ForeignType(*id),
        Ty::Placeholder(id) => Ty::Placeholder(*id),
        Ty::InferenceVar(iv, kind) => Ty::InferenceVar(*iv, *kind),
        Ty::Unknown => Ty::Unknown,
    }
}

#[verifier::loop_isolation(false)]
pub(crate) fn subst_tys_exec(ts: &Vec<Ty>, s: &Substs, d: DebruijnIndex) -> (r: Vec<Ty>)
    requires
        subst_ok_tys(tys_view(ts@), s@, d.depth as nat),
    ensures
        tys_view(r@) == subst_tys(tys_view(ts@), s@, d.depth as nat),
    decreases *ts,
{
    proof {
        lemma_tys_view(ts@);
        lemma_subst_ok_tys(tys_view(ts@), s@, d.depth as nat);
        lemma_subst_tys(tys_view(ts@), s@, d.depth as nat);
    }
    let mut out: Vec<Ty> = Vec::new();
    let mut i: usize = 0;
    while i < ts.len()
        invariant
            i <= ts@.len(),
            out@.len() == i,
            forall|j: int|
                0 <= j < i ==> ty_view(out@[j]) == subst_ty(ty_view(ts@[j]), s@, d.depth as nat),
        decreases ts@.len() - i,
    {
        proof {
            assert(subst_ok_ty(tys_view(ts@)[i as int], s@, d.depth as nat));
        }
        let x = subst_ty_exec(&ts[i], s, d);
        out.push(x);
        i += 1;
    }
    proof {
        lemma_tys_view(out@);
        assert(tys_view(out@) =~= subst_tys(tys_view(ts@), s@, d.depth as nat));
    }
    out
}

pub(crate) fn subst_pred_exec(p: &GenericPredicate, s: &Substs, d: DebruijnIndex) -> (r:
    GenericPredicate)
    requires
        subst_ok_pred(pred_view(*p), s@, d.depth as nat),
    ensures
        pred_view(r) == subst_pred(pred_view(*p), s@, d.depth as nat),
    decreases *p,
{
    match p {
        GenericPredicate::Implemented(tr) => GenericPredicate::Implemented(
            TraitRef {
                trait_: tr.trait_,
                substs: Substs(Arc::new(subst_tys_exec(&*tr.substs.0, s, d))),
            },
        ),
        GenericPredicate::Projection(pp) => GenericPredicate::Projection(
            ProjectionPredicate {
                projection_ty: ProjectionTy {
                    associated_ty: pp.projection_ty.associated_ty,
                    parameters: Substs(
                        Arc::new(subst_tys_exec(&*pp.projection_ty.parameters.0, s, d)),
                    ),
                },
                ty: subst_ty_exec(&pp.ty, s, d),
            },
        ),
        GenericPredicate::Error => GenericPredicate::Error,
    }
}

#[verifier::loop_isolation(false)]
pub(crate) fn subst_preds_exec(ps: &Vec<GenericPredicate>, s: &Substs, d: DebruijnIndex) -> (r:
    Vec<GenericPredicate>)
    requires
        subst_ok_preds(preds_view(ps@), s@, d.depth as nat),
    ensures
        preds_view(r@) == subst_preds(preds_view(ps@), s@, d.depth as nat),
    decreases *ps,
{
    proof {
        lemma_preds_view(ps@);
        lemma_subst_ok_preds(preds_view(ps@), s@, d.depth as nat);
        lemma_subst_preds(preds_view(ps@), s@, d.depth as nat);
    }
    let mut out: Vec<GenericPredicate> = Vec::new();
    let mut i: usize = 0;
    while i < ps.len()
        invariant
            i <= ps@.len(),
            out@.len() == i,
            forall|j: int|
                0 <= j < i ==> pred_view(out@[j]) == subst_pred(pred_view(ps@[j]), s@, d.depth as nat),
        decreases ps@.len() - i,
    {
        proof {
            assert(subst_ok_pred(preds_view(ps@)[i as int], s@, d.depth as nat));
        }
        let x = subst_pred_exec(&ps[i], s, d);
        out.push(x);
        i += 1;
    }
    proof {
        lemma_preds_view(out@);
        assert(preds_view(out@) =~= subst_preds(preds_view(ps@), s@, d.depth as nat));
    }
    out
}

pub(crate) fn walk_ty_onto(t: &Ty, acc: &mut Vec<Ty>)
    ensures
        tys_view(final(acc)@) == tys_view(old(acc)@) + walk_ty(ty_view(*t)),
    decreases *t,
{
    let ghost pre = acc@;
    match t {
        Ty::Adt(_, substs) => walk_tys_onto(&*substs.0, acc),
        Ty::AssociatedType(_, substs) => walk_tys_onto(&*substs.0, acc),
        Ty::Tuple(_, substs) => walk_tys_onto(&*substs.0, acc),
        Ty::Array(substs) => walk_tys_onto(&*substs.0, acc),
        Ty::Slice(substs) => walk_tys_onto(&*substs.0, acc),
        Ty::RawPtr(_, substs) => walk_tys_onto(&*substs.0, acc),
        Ty::Ref(_, substs) => walk_tys_onto(&*substs.0, acc),
        Ty::OpaqueType(_, substs) => walk_tys_onto(&*substs.0, acc),
        Ty::FnDef(_, substs) => walk_tys_onto(&*substs.0, acc),
        Ty::Closure(_, _, substs) => walk_tys_onto(&*substs.0, acc),
        Ty::Function(fp) => walk_tys_onto(&*fp.substs.0, acc),
        Ty::Projection(p) => walk_tys_onto(&*p.parameters.0, acc),
        Ty::Opaque(o) => walk_tys_onto(&*o.parameters.0, acc),
        Ty::Dyn(ps) => walk_preds_onto(&**ps, acc),
        _ => {
            proof {
                assert(tys_view(acc@) =~= tys_view(pre) + Seq::<TyView>::empty());
            }
        },
    }
    let ghost mid = acc@;
    let c = t.clone();
    acc.push(c);
    proof {
        assert(acc@.drop_last() =~= mid);
        assert(tys_view(acc@) =~= tys_view(pre) + walk_ty(ty_view(*t)));
    }
}

#[verifier::loop_isolation(false)]
pub(crate) fn walk_tys_onto(ts: &Vec<Ty>, acc: &mut Vec<Ty>)
    ensures
        tys_view(final(acc)@) == tys_view(old(acc)@) + walk_tys(tys_view(ts@)),
    decreases *ts,
{
    proof {
        lemma_tys_view(ts@);
        assert(tys_view(acc@) =~= tys_view(acc@) + walk_tys(tys_view(ts@).take(0)));
    }
    let mut i: usize = 0;
    while i < ts.len()
        invariant
            i <= ts@.len(),
            tys_view(acc@) == tys_view(old(acc)@) + walk_tys(tys_view(ts@).take(i as int)),
        decreases ts@.len() - i,
    {
        walk_ty_onto(&ts[i], acc);
        i += 1;
        proof {
            let tv = tys_view(ts@);
            assert(tv.take(i as int).drop_last() =~= tv.take(i - 1));
            assert(tv.take(i as int).last() == tv[i - 1]);
            assert(tys_view(acc@) =~= tys_view(old(acc)@) + walk_tys(tv.take(i as int)));
        }
    }
    proof {
        assert(tys_view(ts@).take(ts@.len() as int) =~= tys_view(ts@));
    }
}

pub(crate) fn walk_pred_onto(p: &GenericPredicate, acc: &mut Vec<Ty>)
    ensures
        tys_view(final(acc)@) == tys_view(old(acc)@) + walk_pred(pred_view(*p)),
    decreases *p,
{
    match p {
        GenericPredicate::Implemented(tr) => walk_tys_onto(&*tr.substs.0, acc),
        GenericPredicate::Projection(pp) => {
            walk_tys_onto(&*pp.projection_ty.parameters.0, acc);
            let ghost mid = acc@;
            walk_ty_onto(&pp.ty, acc);
            proof {
                assert(tys_view(acc@) =~= tys_view(old(acc)@) + walk_pred(pred_view(*p)));
            }
        },
        GenericPredicate::Error => {
            proof {
                assert(tys_view(acc@) =~= tys_view(old(acc)@) + Seq::<TyView>::empty());
            }
        },
    }
}

#[verifier::loop_isolation(false)]
pub(crate) fn walk_preds_onto(ps: &Vec<GenericPredicate>, acc: &mut Vec<Ty>)
    ensures
        tys_view(final(acc)@) == tys_view(old(acc)@) + walk_preds(preds_view(ps@)),
    decreases *ps,
{
    proof {
        lemma_preds_view(ps@);
        assert(tys_view(acc@) =~= tys_view(acc@) + walk_preds(preds_view(ps@).take(0)));
    }
    let mut i: usize = 0;
    while i < ps.len()
        invariant
            i <= ps@.len(),
            tys_view(acc@) == tys_view(old(acc)@) + walk_preds(preds_view(ps@).take(i as int)),
        decreases ps@.len() - i,
    {
        walk_pred_onto(&ps[i], acc);
        i += 1;
        proof {
            let pv = preds_view(ps@);
            assert(pv.take(i as int).drop_last() =~= pv.take(i - 1));
            assert(pv.take(i as int).last() == pv[i - 1]);
            assert(tys_view(acc@) =~= tys_view(old(acc)@) + walk_preds(pv.take(i as int)));
        }
    }
    proof {
        assert(preds_view(ps@).take(ps@.len() as int) =~= preds_view(ps@));
    }
}

/// The traversal capability of every structure that contains types.
///
/// An implementation relates the structure to its mathematical model: the
/// executable operations are proved to compute exactly the model-level
/// substitution, shift and post-order walk of [`crate::model`].
pub trait TypeWalk: Sized {
    /// The model that contracts over this structure speak of.
    type V;

    /// The model of this value.
    spec fn model(&self) -> Self::V;

    /// Model-level substitution of free bound variables at a depth.
    spec fn subst_model(v: Self::V, s: Seq<TyView>, d: nat) -> Self::V;

    /// Model-level shift of free bound variables at a depth.
    spec fn shift_model(v: Self::V, n: nat, d: nat) -> Self::V;

    /// Whether the executable substitution is representable: tracked depths
    /// fit in a `u32` and every free variable names an element of `s`.
    spec fn subst_ok(v: Self::V, s: Seq<TyView>, d: nat) -> bool;

    /// Whether the executable shift is representable.
    spec fn shift_ok(v: Self::V, n: nat, d: nat) -> bool;

    /// The post-order visit sequence of the models of all contained types.
    spec fn walk_model(v: Self::V) -> Seq<TyView>;

    /// Every transitively contained type, children before their container.
    fn walk(&self) -> (r: Vec<Ty>)
        ensures
            tys_view(r@) == Self::walk_model(self.model()),
    ;

    /// Substitutes the bound variables that are free relative to `depth`
    /// with the given substitution, shifting each inserted argument by the
    /// depth at which it lands. Variables bound by an intervening binder
    /// are untouched.
    fn subst_bound_vars_at_depth(self, substs: &Substs, depth: DebruijnIndex) -> (r: Self)
        requires
            Self::subst_ok(self.model(), substs@, depth.depth as nat),
        ensures
            r.model() == Self::subst_model(self.model(), substs@, depth.depth as nat),
    ;

    /// Substitutes all free bound variables with the given substitution.
    fn subst_bound_vars(self, substs: &Substs) -> (r: Self)
        requires
            Self::subst_ok(self.model(), substs@, 0),
        ensures
            r.model() == Self::subst_model(self.model(), substs@, 0),
    {
        self.subst_bound_vars_at_depth(substs, DebruijnIndex::innermost())
    }

    /// Raises by `n` the bound variables that are free relative to `depth`.
    fn shift_bound_vars_at_depth(self, n: DebruijnIndex, depth: DebruijnIndex) -> (r: Self)
        requires
            Self::shift_ok(self.model(), n.depth as nat, depth.depth as nat),
        ensures
            r.model() == Self::shift_model(self.model(), n.depth as nat, depth.depth as nat),
    ;

    /// Raises all free bound variables by `n`, for relocating a value into
    /// a context with `n` additional enclosing binders.
    fn shift_bound_vars(self, n: DebruijnIndex) -> (r: Self)
        requires
            Self::shift_ok(self.model(), n.depth as nat, 0),
        ensures
            r.model() == Self::shift_model(self.model(), n.depth as nat, 0),
    {
        self.shift_bound_vars_at_depth(n, DebruijnIndex::innermost())
    }
}

impl TypeWalk for Ty {
    type V = TyView;

    open spec fn model(&self) -> TyView {
        ty_view(*self)
    }

    open spec fn subst_model(v: TyView, s: Seq<TyView>, d: nat) -> TyView {
        subst_ty(v, s, d)
    }

    open spec fn shift_model(v: TyView, n: nat, d: nat) -> TyView {
        shift_ty(v, n, d)
    }

    open spec fn subst_ok(v: TyView, s: Seq<TyView>, d: nat) -> bool {
        subst_ok_ty(v, s, d)
    }

    open spec fn shift_ok(v: TyView, n: nat, d: nat) -> bool {
        shift_ok_ty(v, n, d)
    }

    open spec fn walk_model(v: TyView) -> Seq<TyView> {
        walk_ty(v)
    }

    fn walk(&self) -> (r: Vec<Ty>) {
        let mut acc: Vec<Ty> = Vec::new();
        walk_ty_onto(self, &mut acc);
        proof {
            assert(tys_view(acc@) =~= walk_ty(ty_view(*self)));
        }
        acc
    }

    fn subst_bound_vars_at_depth(self, substs: &Substs, depth: DebruijnIndex) -> (r: Self) {
        subst_ty_exec(&self, substs, depth)
    }

    fn shift_bound_vars_at_depth(self, n: DebruijnIndex, depth: DebruijnIndex) -> (r: Self) {
        shift_ty_exec(&self, n, depth)
    }
}

impl TypeWalk for Substs {
    type V = Seq<TyView>;

    open spec fn model(&self) -> Seq<TyView> {
        tys_view(self.0@)
    }

    open spec fn subst_model(v: Seq<TyView>, s: Seq<TyView>, d: nat) -> Seq<TyView> {
        subst_tys(v, s, d)
    }

    open spec fn shift_model(v: Seq<TyView>, n: nat, d: nat) -> Seq<TyView> {
        shift_tys(v, n, d)
    }

    open spec fn subst_ok(v: Seq<TyView>, s: Seq<TyView>, d: nat) -> bool {
        subst_ok_tys(v, s, d)
    }

    open spec fn shift_ok(v: Seq<TyView>, n: nat, d: nat) -> bool {
        shift_ok_tys(v, n, d)
    }

    open spec fn walk_model(v: Seq<TyView>) -> Seq<TyView> {
        walk_tys(v)
    }

    fn walk(&self) -> (r: Vec<Ty>) {
        let mut acc: Vec<Ty> = Vec::new();
        walk_tys_onto(&*self.0, &mut acc);
        proof {
            assert(tys_view(acc@) =~= walk_tys(tys_view(self.0@)));
        }
        acc
    }

    fn subst_bound_vars_at_depth(self, substs: &Substs, depth: DebruijnIndex) -> (r: Self) {
        Substs(Arc::new(subst_tys_exec(&*self.0, substs, depth)))
    }

    fn shift_bound_vars_at_depth(self, n: DebruijnIndex, depth: DebruijnIndex) -> (r: Self) {
        Substs(Arc::new(shift_tys_exec(&*self.0, n, depth)))
    }
}

impl TypeWalk for GenericPredicate {
    type V = PredView;

    open spec fn model(&self) -> PredView {
        pred_view(*self)
    }

    open spec fn subst_model(v: PredView, s: Seq<TyView>, d: nat) -> PredView {
        subst_pred(v, s, d)
    }

    open spec fn shift_model(v: PredView, n: nat, d: nat) -> PredView {
        shift_pred(v, n, d)
    }

    open spec fn subst_ok(v: PredView, s: Seq<TyView>, d: nat) -> bool {
        subst_ok_pred(v, s, d)
    }

    open spec fn shift_ok(v: PredView, n: nat, d: nat) -> bool {
        shift_ok_pred(v, n, d)
    }

    open spec fn walk_model(v: PredView) -> Seq<TyView> {
        walk_pred(v)
    }

    fn walk(&self) -> (r: Vec<Ty>) {
        let mut acc: Vec<Ty> = Vec::new();
        walk_pred_onto(self, &mut acc);
        proof {
            assert(tys_view(acc@) =~= walk_pred(pred_view(*self)));
        }
        acc
    }

    fn subst_bound_vars_at_depth(self, substs: &Substs, depth: DebruijnIndex) -> (r: Self) {
        subst_pred_exec(&self, substs, depth)
    }

    fn shift_bound_vars_at_depth(self, n: DebruijnIndex, depth: DebruijnIndex) -> (r: Self) {
        shift_pred_exec(&self, n, depth)
    }
}

impl TypeWalk for Vec<GenericPredicate> {
    type V = Seq<PredView>;

    open spec fn model(&self) -> Seq<PredView> {
        preds_view(self@)
    }

    open spec fn subst_model(v: Seq<PredView>, s: Seq<TyView>, d: nat) -> Seq<PredView> {
        subst_preds(v, s, d)
    }

    open spec fn shift_model(v: Seq<PredView>, n: nat, d: nat) -> Seq<PredView> {
        shift_preds(v, n, d)
    }

    open spec fn subst_ok(v: Seq<PredView>, s: Seq<TyView>, d: nat) -> bool {
        subst_ok_preds(v, s, d)
    }

    open spec fn shift_ok(v: Seq<PredView>, n: nat, d: nat) -> bool {
        shift_ok_preds(v, n, d)
    }

    open spec fn walk_model(v: Seq<PredView>) -> Seq<TyView> {
        walk_preds(v)
    }

    fn walk(&self) -> (r: Vec<Ty>) {
        let mut acc: Vec<Ty> = Vec::new();
        walk_preds_onto(self, &mut acc);
        proof {
            assert(tys_view(acc@) =~= walk_preds(preds_view(self@)));
        }
        acc
    }

    fn subst_bound_vars_at_depth(self, substs: &Substs, depth: DebruijnIndex) -> (r: Self) {
        subst_preds_exec(&self, substs, depth)
    }

    fn shift_bound_vars_at_depth(self, n: DebruijnIndex, depth: DebruijnIndex) -> (r: Self) {
        shift_preds_exec(&self, n, depth)
    }
}

impl TypeWalk for Vec<Ty> {
    type V = Seq<TyView>;

    open spec fn model(&self) -> Seq<TyView> {
        tys_view(self@)
    }

    open spec fn subst_model(v: Seq<TyView>, s: Seq<TyView>, d: nat) -> Seq<TyView> {
        subst_tys(v, s, d)
    }

    open spec fn shift_model(v: Seq<TyView>, n: nat, d: nat) -> Seq<TyView> {
        shift_tys(v, n, d)
    }

    open spec fn subst_ok(v: Seq<TyView>, s: Seq<TyView>, d: nat) -> bool {
        subst_ok_tys(v, s, d)
    }

    open spec fn shift_ok(v: Seq<TyView>, n: nat, d: nat) -> bool {
        shift_ok_tys(v, n, d)
    }

    open spec fn walk_model(v: Seq<TyView>) -> Seq<TyView> {
        walk_tys(v)
    }

    fn walk(&self) -> (r: Vec<Ty>) {
        let mut acc: Vec<Ty> = Vec::new();
        walk_tys_onto(self, &mut acc);
        proof {
            assert(tys_view(acc@) =~= walk_tys(tys_view(self@)));
        }
        acc
    }

    fn subst_bound_vars_at_depth(self, substs: &Substs, depth: DebruijnIndex) -> (r: Self) {
        subst_tys_exec(&self, substs, depth)
    }

    fn shift_bound_vars_at_depth(self, n: DebruijnIndex, depth: DebruijnIndex) -> (r: Self) {
        shift_tys_exec(&self, n, depth)
    }
}

impl TypeWalk for TraitRef {
    type V = TraitRefView;

    open spec fn model(&self) -> TraitRefView {
        self@
    }

    open spec fn subst_model(v: TraitRefView, s: Seq<TyView>, d: nat) -> TraitRefView {
        TraitRefView { trait_: v.trait_, substs: subst_tys(v.substs, s, d) }
    }

    open spec fn shift_model(v: TraitRefView, n: nat, d: nat) -> TraitRefView {
        TraitRefView { trait_: v.trait_, substs: shift_tys(v.substs, n, d) }
    }

    open spec fn subst_ok(v: TraitRefView, s: Seq<TyView>, d: nat) -> bool {
        subst_ok_tys(v.substs, s, d)
    }

    open spec fn shift_ok(v: TraitRefView, n: nat, d: nat) -> bool {
        shift_ok_tys(v.substs, n, d)
    }

    open spec fn walk_model(v: TraitRefView) -> Seq<TyView> {
        walk_tys(v.substs)
    }

    fn walk(&self) -> (r: Vec<Ty>) {
        let mut acc: Vec<Ty> = Vec::new();
        walk_tys_onto(&*self.substs.0, &mut acc);
        proof {
            assert(tys_view(acc@) =~= walk_tys(self@.substs));
        }
        acc
    }

    fn subst_bound_vars_at_depth(self, substs: &Substs, depth: DebruijnIndex) -> (r: Self) {
        TraitRef {
            trait_: self.trait_,
            substs: Substs(Arc::new(subst_tys_exec(&*self.substs.0, substs, depth))),
        }
    }

    fn shift_bound_vars_at_depth(self, n: DebruijnIndex, depth: DebruijnIndex) -> (r: Self) {
        TraitRef {
            trait_: self.trait_,
            substs: Substs(Arc::new(shift_tys_exec(&*self.substs.0, n, depth))),
        }
    }
}

impl TypeWalk for ProjectionTy {
    type V = crate::model::ProjectionTyView;

    open spec fn model(&self) -> crate::model::ProjectionTyView {
        self@
    }

    open spec fn subst_model(
        v: crate::model::ProjectionTyView,
        s: Seq<TyView>,
        d: nat,
    ) -> crate::model::ProjectionTyView {
        crate::model::ProjectionTyView {
            associated_ty: v.associated_ty,
            parameters: subst_tys(v.parameters, s, d),
        }
    }

    open spec fn shift_model(
        v: crate::model::ProjectionTyView,
        n: nat,
        d: nat,
    ) -> crate::model::ProjectionTyView {
        crate::model::ProjectionTyView {
            associated_ty: v.associated_ty,
            parameters: shift_tys(v.parameters, n, d),
        }
    }

    open spec fn subst_ok(v: crate::model::ProjectionTyView, s: Seq<TyView>, d: nat) -> bool {
        subst_ok_tys(v.parameters, s, d)
    }

    open spec fn shift_ok(v: crate::model::ProjectionTyView, n: nat, d: nat) -> bool {
        shift_ok_tys(v.parameters, n, d)
    }

    open spec fn walk_model(v: crate::model::ProjectionTyView) -> Seq<TyView> {
        walk_tys(v.parameters)
    }

    fn walk(&self) -> (r: Vec<Ty>) {
        let mut acc: Vec<Ty> = Vec::new();
        walk_tys_onto(&*self.parameters.0, &mut acc);
        proof {
            assert(tys_view(acc@) =~= walk_tys(self@.parameters));
        }
        acc
    }

    fn subst_bound_vars_at_depth(self, substs: &Substs, depth: DebruijnIndex) -> (r: Self) {
        ProjectionTy {
            associated_ty: self.associated_ty,
            parameters: Substs(Arc::new(subst_tys_exec(&*self.parameters.0, substs, depth))),
        }
    }

    fn shift_bound_vars_at_depth(self, n: DebruijnIndex, depth: DebruijnIndex) -> (r: Self) {
        ProjectionTy {
            associated_ty: self.associated_ty,
            parameters: Substs(Arc::new(shift_tys_exec(&*self.parameters.0, n, depth))),
        }
    }
}

impl TypeWalk for ProjectionPredicate {
    type V = crate::model::ProjectionPredView;

    open spec fn model(&self) -> crate::model::ProjectionPredView {
        self@
    }

    open spec fn subst_model(
        v: crate::model::ProjectionPredView,
        s: Seq<TyView>,
        d: nat,
    ) -> crate::model::ProjectionPredView {
        crate::model::ProjectionPredView {
            projection_ty: crate::model::ProjectionTyView {
                associated_ty: v.projection_ty.associated_ty,
                parameters: subst_tys(v.projection_ty.parameters, s, d),
            },
            ty: subst_ty(v.ty, s, d),
        }
    }

    open spec fn shift_model(
        v: crate::model::ProjectionPredView,
        n: nat,
        d: nat,
    ) -> crate::model::ProjectionPredView {
        crate::model::ProjectionPredView {
            projection_ty: crate::model::ProjectionTyView {
                associated_ty: v.projection_ty.associated_ty,
                parameters: shift_tys(v.projection_ty.parameters, n, d),
            },
            ty: shift_ty(v.ty, n, d),
        }
    }

    open spec fn subst_ok(v: crate::model::ProjectionPredView, s: Seq<TyView>, d: nat) -> bool {
        subst_ok_tys(v.projection_ty.parameters, s, d) && subst_ok_ty(v.ty, s, d)
    }

    open spec fn shift_ok(v: crate::model::ProjectionPredView, n: nat, d: nat) -> bool {
        shift_ok_tys(v.projection_ty.parameters, n, d) && shift_ok_ty(v.ty, n, d)
    }

    open spec fn walk_model(v: crate::model::ProjectionPredView) -> Seq<TyView> {
        walk_tys(v.projection_ty.parameters) + walk_ty(v.ty)
    }

    fn walk(&self) -> (r: Vec<Ty>) {
        let mut acc: Vec<Ty> = Vec::new();
        walk_tys_onto(&*self.projection_ty.parameters.0, &mut acc);
        walk_ty_onto(&self.ty, &mut acc);
        proof {
            assert(tys_view(acc@) =~= Self::walk_model(self@));
        }
        acc
    }

    fn subst_bound_vars_at_depth(self, substs: &Substs, depth: DebruijnIndex) -> (r: Self) {
        ProjectionPredicate {
            projection_ty: ProjectionTy {
                associated_ty: self.projection_ty.associated_ty,
                parameters: Substs(
                    Arc::new(subst_tys_exec(&*self.projection_ty.parameters.0, substs, depth)),
                ),
            },
            ty: subst_ty_exec(&self.ty, substs, depth),
        }
    }

    fn shift_bound_vars_at_depth(self, n: DebruijnIndex, depth: DebruijnIndex) -> (r: Self) {
        ProjectionPredicate {
            projection_ty: ProjectionTy {
                associated_ty: self.projection_ty.associated_ty,
                parameters: Substs(
                    Arc::new(shift_tys_exec(&*self.projection_ty.parameters.0, n, depth)),
                ),
            },
            ty: shift_ty_exec(&self.ty, n, depth),
        }
    }
}

impl TypeWalk for CallableSig {
    type V = crate::model::CallableSigView;

    open spec fn model(&self) -> crate::model::CallableSigView {
        self@
    }

    open spec fn subst_model(
        v: crate::model::CallableSigView,
        s: Seq<TyView>,
        d: nat,
    ) -> crate::model::CallableSigView {
        crate::model::CallableSigView {
            params_and_return: subst_tys(v.params_and_return, s, d),
            is_varargs: v.is_varargs,
        }
    }

    open spec fn shift_model(
        v: crate::model::CallableSigView,
        n: nat,
        d: nat,
    ) -> crate::model::CallableSigView {
        crate::model::CallableSigView {
            params_and_return: shift_tys(v.params_and_return, n, d),
            is_varargs: v.is_varargs,
        }
    }

    open spec fn subst_ok(v: crate::model::CallableSigView, s: Seq<TyView>, d: nat) -> bool {
        subst_ok_tys(v.params_and_return, s, d)
    }

    open spec fn shift_ok(v: crate::model::CallableSigView, n: nat, d: nat) -> bool {
        shift_ok_tys(v.params_and_return, n, d)
    }

    open spec fn walk_model(v: crate::model::CallableSigView) -> Seq<TyView> {
        walk_tys(v.params_and_return)
    }

    fn walk(&self) -> (r: Vec<Ty>) {
        let mut acc: Vec<Ty> = Vec::new();
        walk_tys_onto(&*self.params_and_return, &mut acc);
        proof {
            assert(tys_view(acc@) =~= walk_tys(self@.params_and_return));
        }
        acc
    }

    fn subst_bound_vars_at_depth(self, substs: &Substs, depth: DebruijnIndex) -> (r: Self) {
        CallableSig {
            params_and_return: Arc::new(subst_tys_exec(&*self.params_and_return, substs, depth)),
            is_varargs: self.is_varargs,
        }
    }

    fn shift_bound_vars_at_depth(self, n: DebruijnIndex, depth: DebruijnIndex) -> (r: Self) {
        CallableSig {
            params_and_return: Arc::new(shift_tys_exec(&*self.params_and_return, n, depth)),
            is_varargs: self.is_varargs,
        }
    }
}

} // verus!
