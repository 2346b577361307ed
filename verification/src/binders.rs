//! Binder-counting wrappers: `Binders` for values closed under a number of
//! implicit quantifiers, and `Canonical` for closed snapshots used as
//! solver input.

use vstd::prelude::*;
use crate::ids::{DebruijnIndex, TyVariableKind};
use crate::model::{BindersView, TyView};
use crate::tys::{tys_view, CallableSig, Substs, Ty};
use crate::walk::TypeWalk;

verus! {

/// A value of type `T` together with the number of implicitly quantified
/// type variables it is closed under. The variables must be supplied by a
/// `Substs` of exactly that arity before the value denotes something
/// concrete.
#[derive(Clone, Copy, PartialEq, Eq, Debug, Hash)]
pub struct Binders<T> {
    pub num_binders: usize,
    pub value: T,
}

/// A polymorphic function signature.
pub type PolyFnSig = Binders<CallableSig>;

impl<T> Binders<T> {
    pub fn new(num_binders: usize, value: T) -> (r: Self)
        ensures
            r.num_binders == num_binders,
            r.value == value,
    {
        Binders { num_binders, value }
    }

    pub fn as_ref(&self) -> (r: Binders<&T>)
        ensures
            r.num_binders == self.num_binders,
            r.value == &self.value,
    {
        Binders { num_binders: self.num_binders, value: &self.value }
    }

    /// Maps the wrapped value, keeping the binder count.
    pub fn map<U>(self, f: impl FnOnce(T) -> U) -> (r: Binders<U>)
        requires
            call_requires(f, (self.value,)),
        ensures
            r.num_binders == self.num_binders,
            call_ensures(f, (self.value,), r.value),
    {
        let value = f(self.value);
        Binders { num_binders: self.num_binders, value }
    }

    /// Maps the wrapped value, keeping the binder count; `None` if the map
    /// yields `None`.
    pub fn filter_map<U>(self, f: impl FnOnce(T) -> Option<U>) -> (r: Option<Binders<U>>)
        requires
            call_requires(f, (self.value,)),
        ensures
            match r {
                Some(b) => b.num_binders == self.num_binders && call_ensures(
                    f,
                    (self.value,),
                    Some(b.value),
                ),
                None => call_ensures(f, (self.value,), None::<U>),
            },
    {
        match f(self.value) {
            Some(value) => Some(Binders { num_binders: self.num_binders, value }),
            None => None,
        }
    }
}

impl<T: Clone> Binders<&T> {
    /// Clones the borrowed value into an owned wrapper.
    pub fn cloned(&self) -> (r: Binders<T>)
        ensures
            r.num_binders == self.num_binders,
            call_ensures(T::clone, (self.value,), r.value),
    {
        Binders { num_binders: self.num_binders, value: self.value.clone() }
    }
}

impl<T: TypeWalk> Binders<T> {
    /// Substitutes all bound variables of the wrapped value. The
    /// substitution must supply exactly one argument per binder; anything
    /// else is an internal-consistency fault of the caller, excluded here
    /// by precondition.
    pub fn subst(self, subst: &Substs) -> (r: T)
        requires
            subst@.len() == self.num_binders,
            T::subst_ok(self.value.model(), subst@, 0),
        ensures
            r.model() == T::subst_model(self.value.model(), subst@, 0),
    {
        self.value.subst_bound_vars(subst)
    }

    /// Substitutes a strict prefix of the bound variables, returning a
    /// wrapper for the rest: the remaining variables keep denoting the same
    /// logical binders because de Bruijn counting is relative to the
    /// remaining depth.
    pub fn subst_prefix(self, subst: &Substs) -> (r: Binders<T>)
        requires
            subst@.len() < self.num_binders,
            T::subst_ok(self.value.model(), subst@, 0),
        ensures
            r.num_binders == self.num_binders - subst@.len(),
            r.value.model() == T::subst_model(self.value.model(), subst@, 0),
    {
        let n = self.num_binders - subst.len();
        Binders::new(n, self.value.subst_bound_vars(subst))
    }
}

impl<T: TypeWalk> TypeWalk for Binders<T> {
    type V = BindersView<T::V>;

    open spec fn model(&self) -> BindersView<T::V> {
        BindersView { num_binders: self.num_binders as nat, value: self.value.model() }
    }

    open spec fn subst_model(v: BindersView<T::V>, s: Seq<TyView>, d: nat) -> BindersView<T::V> {
        BindersView {
            num_binders: v.num_binders,
            value: T::subst_model(v.value, s, (d + 1) as nat),
        }
    }

    open spec fn shift_model(v: BindersView<T::V>, n: nat, d: nat) -> BindersView<T::V> {
        BindersView {
            num_binders: v.num_binders,
            value: T::shift_model(v.value, n, (d + 1) as nat),
        }
    }

    open spec fn subst_ok(v: BindersView<T::V>, s: Seq<TyView>, d: nat) -> bool {
        d < u32::MAX && T::subst_ok(v.value, s, (d + 1) as nat)
    }

    open spec fn shift_ok(v: BindersView<T::V>, n: nat, d: nat) -> bool {
        d < u32::MAX && T::shift_ok(v.value, n, (d + 1) as nat)
    }

    open spec fn walk_model(v: BindersView<T::V>) -> Seq<TyView> {
        T::walk_model(v.value)
    }

    fn walk(&self) -> (r: Vec<Ty>) {
        self.value.walk()
    }

    fn subst_bound_vars_at_depth(self, substs: &Substs, depth: DebruijnIndex) -> (r: Self) {
        Binders {
            num_binders: self.num_binders,
            value: self.value.subst_bound_vars_at_depth(substs, depth.shifted_in()),
        }
    }

    fn shift_bound_vars_at_depth(self, n: DebruijnIndex, depth: DebruijnIndex) -> (r: Self) {
        Binders {
            num_binders: self.num_binders,
            value: self.value.shift_bound_vars_at_depth(n, depth.shifted_in()),
        }
    }
}

/// A closed snapshot of a value: all inference variables have been replaced
/// by bound variables, and `kinds` records each variable's kind in order of
/// first appearance. Construction performs no validation; the inference
/// collaborator is responsible for the replacement.
#[derive(Clone, PartialEq, Eq, Debug, Hash)]
pub struct Canonical<T> {
    pub value: T,
    pub kinds: Vec<TyVariableKind>,
}

impl<T> Canonical<T> {
    pub fn new(value: T, kinds: Vec<TyVariableKind>) -> (r: Self)
        ensures
            r.value == value,
            r.kinds@ == kinds@,
    {
        Canonical { value, kinds }
    }
}

} // verus!
