//! Construction of substitution lists: the direct constructors, the
//! identity substitutions, and the arity-checked builder.

use vstd::prelude::*;
use std::sync::Arc;
use crate::ids::{BoundVar, DebruijnIndex, TypeParam};
use crate::model::{bound_vars_view, BoundVarView, TyView};
use crate::tys::{lemma_tys_view, ty_view, tys_view, Substs, Ty};

verus! {

broadcast use vstd::std_specs::vec::group_vec_axioms;

impl Substs {
    /// The empty substitution.
    pub fn empty() -> (r: Substs)
        ensures
            r@ == Seq::<TyView>::empty(),
    {
        Substs(Arc::new(Vec::new()))
    }

    /// The one-element substitution.
    pub fn single(ty: Ty) -> (r: Substs)
        ensures
            r@ == seq![ty_view(ty)],
    {
        let mut v: Vec<Ty> = Vec::new();
        v.push(ty);
        proof {
            assert(v@.drop_last() =~= Seq::<Ty>::empty());
            assert(tys_view(Seq::<Ty>::empty()) =~= Seq::<TyView>::empty());
            assert(tys_view(v@) =~= seq![ty_view(ty)]);
        }
        Substs(Arc::new(v))
    }

    /// The number of arguments.
    pub fn len(&self) -> (r: usize)
        ensures
            r == self@.len(),
    {
        proof {
            lemma_tys_view(self.0@);
        }
        self.0.len()
    }

    /// The argument at position `i`.
    pub fn at(&self, i: usize) -> (r: &Ty)
        requires
            i < self@.len(),
        ensures
            r@ == self@[i as int],
            *r == self.0@[i as int],
    {
        proof {
            lemma_tys_view(self.0@);
        }
        let list: &Vec<Ty> = &*self.0;
        &list[i]
    }

    /// The first `n` arguments; all of them if fewer than `n` exist.
    #[verifier::loop_isolation(false)]
    pub fn prefix(&self, n: usize) -> (r: Substs)
        ensures
            r@ == self@.take(if n <= self@.len() {
                n as int
            } else {
                self@.len() as int
            }),
    {
        proof {
            lemma_tys_view(self.0@);
        }
        let list: &Vec<Ty> = &*self.0;
        let end: usize = if n <= list.len() {
            n
        } else {
            list.len()
        };
        let mut out: Vec<Ty> = Vec::new();
        let mut i: usize = 0;
        while i < end
            invariant
                i <= end,
                out@.len() == i,
                forall|j: int| 0 <= j < i ==> ty_view(out@[j]) == ty_view(self.0@[j]),
            decreases end - i,
        {
            let x = list[i].clone();
            out.push(x);
            i += 1;
        }
        proof {
            lemma_tys_view(out@);
            assert(tys_view(out@) =~= tys_view(self.0@).take(end as int));
        }
        Substs(Arc::new(out))
    }

    /// The last `n` arguments; all of them if fewer than `n` exist.
    #[verifier::loop_isolation(false)]
    pub fn suffix(&self, n: usize) -> (r: Substs)
        ensures
            r@ == self@.skip(if n <= self@.len() {
                self@.len() - n
            } else {
                0
            }),
    {
        proof {
            lemma_tys_view(self.0@);
        }
        let list: &Vec<Ty> = &*self.0;
        let start: usize = list.len() - (if n <= list.len() {
            n
        } else {
            list.len()
        });
        let mut out: Vec<Ty> = Vec::new();
        let mut i: usize = start;
        while i < list.len()
            invariant
                start <= i <= list@.len(),
                out@.len() == i - start,
                forall|j: int| 0 <= j < i - start ==> ty_view(out@[j]) == ty_view(self.0@[start + j]),
            decreases list@.len() - i,
        {
            let x = list[i].clone();
            out.push(x);
            i += 1;
        }
        proof {
            lemma_tys_view(out@);
            assert(tys_view(out@) =~= tys_view(self.0@).skip(start as int));
        }
        Substs(Arc::new(out))
    }

    /// The sole argument of a one-element substitution. Calling this on any
    /// other substitution is an internal-consistency fault of the caller,
    /// excluded here by precondition.
    pub fn as_single(&self) -> (r: &Ty)
        requires
            self@.len() == 1,
        ensures
            r@ == self@[0],
            *r == self.0@[0],
    {
        self.at(0)
    }

    /// The substitution that replaces each of the given parameters by
    /// itself, as a placeholder: the most general instantiation.
    #[verifier::loop_isolation(false)]
    pub fn type_params_for_generics(generic_params: &Vec<TypeParam>) -> (r: Substs)
        ensures
            r@.len() == generic_params@.len(),
            forall|i: int|
                0 <= i < generic_params@.len() ==> r@[i] == TyView::Placeholder(
                    generic_params@[i].id,
                ),
    {
        let mut out: Vec<Ty> = Vec::new();
        let mut i: usize = 0;
        while i < generic_params.len()
            invariant
                i <= generic_params@.len(),
                out@.len() == i,
                forall|j: int|
                    0 <= j < i ==> ty_view(out@[j]) == TyView::Placeholder(generic_params@[j].id),
            decreases generic_params@.len() - i,
        {
            out.push(Ty::Placeholder(generic_params[i].id));
            i += 1;
        }
        proof {
            lemma_tys_view(out@);
        }
        Substs(Arc::new(out))
    }

    /// The substitution that replaces each of the given parameters by a
    /// bound variable at the given binder depth, for re-binding an item's
    /// parameters under a `Binders` wrapper.
    #[verifier::loop_isolation(false)]
    pub fn bound_vars(generic_params: &Vec<TypeParam>, debruijn: DebruijnIndex) -> (r: Substs)
        ensures
            r@ == bound_vars_view(generic_params@.len() as nat, debruijn.depth as nat),
    {
        let mut out: Vec<Ty> = Vec::new();
        let mut i: usize = 0;
        while i < generic_params.len()
            invariant
                i <= generic_params@.len(),
                out@.len() == i,
                forall|j: int|
                    0 <= j < i ==> ty_view(out@[j]) == TyView::Bound(
                        BoundVarView { debruijn: debruijn.depth as nat, index: j as nat },
                    ),
            decreases generic_params@.len() - i,
        {
            out.push(Ty::Bound(BoundVar::new(debruijn, i)));
            i += 1;
        }
        proof {
            lemma_tys_view(out@);
            assert(tys_view(out@) =~= bound_vars_view(
                generic_params@.len() as nat,
                debruijn.depth as nat,
            ));
        }
        Substs(Arc::new(out))
    }

    /// A builder for a substitution of the given parameter list.
    pub fn build_for_generics(generic_params: &Vec<TypeParam>) -> (r: SubstsBuilder)
        ensures
            r.vec@ == Seq::<Ty>::empty(),
            r.param_count == generic_params@.len(),
    {
        Substs::builder(generic_params.len())
    }

    pub(crate) fn builder(param_count: usize) -> (r: SubstsBuilder)
        ensures
            r.vec@ == Seq::<Ty>::empty(),
            r.param_count == param_count,
    {
        SubstsBuilder { vec: Vec::new(), param_count }
    }
}

/// Accumulates exactly `param_count` arguments and freezes them into a
/// `Substs`.
#[derive(Debug)]
pub struct SubstsBuilder {
    pub vec: Vec<Ty>,
    pub param_count: usize,
}

impl SubstsBuilder {
    /// Freezes the accumulated arguments. Building with fewer or more than
    /// the declared count is an internal-consistency fault of the caller,
    /// excluded here by precondition.
    pub fn build(self) -> (r: Substs)
        requires
            self.vec@.len() == self.param_count,
        ensures
            r@ == tys_view(self.vec@),
    {
        Substs(Arc::new(self.vec))
    }

    pub fn push(self, ty: Ty) -> (r: Self)
        ensures
            r.param_count == self.param_count,
            r.vec@ == self.vec@.push(ty),
    {
        let mut vec = self.vec;
        vec.push(ty);
        SubstsBuilder { vec, param_count: self.param_count }
    }

    /// How many arguments are still missing.
    pub(crate) fn remaining(&self) -> (r: usize)
        requires
            self.vec@.len() <= self.param_count,
        ensures
            r == self.param_count - self.vec@.len(),
    {
        self.param_count - self.vec.len()
    }

    /// Tops the builder up with bound variables at the given depth, with
    /// indices counted from `starting_from`.
    #[verifier::loop_isolation(false)]
    pub fn fill_with_bound_vars(self, debruijn: DebruijnIndex, starting_from: usize) -> (r: Self)
        requires
            self.vec@.len() <= self.param_count,
            starting_from + self.param_count <= usize::MAX,
        ensures
            r.param_count == self.param_count,
            r.vec@.len() == self.param_count,
            r.vec@.take(self.vec@.len() as int) == self.vec@,
            forall|j: int|
                self.vec@.len() <= j < self.param_count ==> ty_view(r.vec@[j]) == TyView::Bound(
                    BoundVarView {
                        debruijn: debruijn.depth as nat,
                        index: (starting_from + j - self.vec@.len()) as nat,
                    },
                ),
    {
        let mut vec = self.vec;
        let ghost base = vec@;
        let mut idx: usize = starting_from;
        while vec.len() < self.param_count
            invariant
                base.len() <= vec@.len() <= self.param_count,
                idx == starting_from + vec@.len() - base.len(),
                idx <= usize::MAX,
                vec@.take(base.len() as int) == base,
                forall|j: int|
                    base.len() <= j < vec@.len() ==> ty_view(vec@[j]) == TyView::Bound(
                        BoundVarView {
                            debruijn: debruijn.depth as nat,
                            index: (starting_from + j - base.len()) as nat,
                        },
                    ),
            decreases self.param_count - vec@.len(),
    {
            vec.push(Ty::Bound(BoundVar::new(debruijn, idx)));
            idx += 1;
            proof {
                assert(vec@.take(base.len() as int) =~= base);
            }
        }
        SubstsBuilder { vec, param_count: self.param_count }
    }

    /// Tops the builder up with `Unknown`. Always terminates and leaves no
    /// remaining slot.
    #[verifier::loop_isolation(false)]
    pub fn fill_with_unknown(self) -> (r: Self)
        requires
            self.vec@.len() <= self.param_count,
        ensures
            r.param_count == self.param_count,
            r.vec@.len() == self.param_count,
            r.vec@.take(self.vec@.len() as int) == self.vec@,
            forall|j: int|
                self.vec@.len() <= j < self.param_count ==> r.vec@[j] == Ty::Unknown,
    {
        let mut vec = self.vec;
        let ghost base = vec@;
        while vec.len() < self.param_count
            invariant
                base.len() <= vec@.len() <= self.param_count,
                vec@.take(base.len() as int) == base,
                forall|j: int| base.len() <= j < vec@.len() ==> vec@[j] == Ty::Unknown,
            decreases self.param_count - vec@.len(),
        {
            vec.push(Ty::Unknown);
            proof {
                assert(vec@.take(base.len() as int) =~= base);
            }
        }
        SubstsBuilder { vec, param_count: self.param_count }
    }

    /// Tops the builder up from `filler`, taking exactly the missing count
    /// from its front. The filler must offer at least that many arguments.
    #[verifier::loop_isolation(false)]
    pub fn fill(self, filler: Vec<Ty>) -> (r: Self)
        requires
            self.vec@.len() <= self.param_count,
            filler@.len() >= self.param_count - self.vec@.len(),
        ensures
            r.param_count == self.param_count,
            r.vec@.len() == self.param_count,
            r.vec@.take(self.vec@.len() as int) == self.vec@,
            forall|j: int|
                self.vec@.len() <= j < self.param_count ==> ty_view(r.vec@[j]) == ty_view(
                    filler@[j - self.vec@.len()],
                ),
    {
        let mut vec = self.vec;
        let ghost base = vec@;
        let mut i: usize = 0;
        let take_n: usize = self.param_count - vec.len();
        while i < take_n
            invariant
                i <= take_n,
                vec@.len() == base.len() + i,
                vec@.take(base.len() as int) == base,
                forall|j: int|
                    base.len() <= j < vec@.len() ==> ty_view(vec@[j]) == ty_view(
                        filler@[j - base.len()],
                    ),
            decreases take_n - i,
        {
            let x = filler[i].clone();
            vec.push(x);
            i += 1;
            proof {
                assert(vec@.take(base.len() as int) =~= base);
            }
        }
        SubstsBuilder { vec, param_count: self.param_count }
    }

    /// Seeds an empty builder with an outer context's already-resolved
    /// arguments, which must not exceed the declared count.
    #[verifier::loop_isolation(false)]
    pub fn use_parent_substs(self, parent_substs: &Substs) -> (r: Self)
        requires
            self.vec@.len() == 0,
            parent_substs@.len() <= self.param_count,
        ensures
            r.param_count == self.param_count,
            tys_view(r.vec@) == parent_substs@,
    {
        proof {
            lemma_tys_view(parent_substs.0@);
        }
        let mut vec = self.vec;
        let list: &Vec<Ty> = &*parent_substs.0;
        let mut i: usize = 0;
        while i < list.len()
            invariant
                i <= list@.len(),
                vec@.len() == i,
                forall|j: int| 0 <= j < i ==> ty_view(vec@[j]) == ty_view(parent_substs.0@[j]),
            decreases list@.len() - i,
        {
            let x = list[i].clone();
            vec.push(x);
            i += 1;
        }
        proof {
            lemma_tys_view(vec@);
            assert(tys_view(vec@) =~= tys_view(parent_substs.0@));
        }
        SubstsBuilder { vec, param_count: self.param_count }
    }
}

} // verus!
