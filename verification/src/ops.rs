//! Inherent operations on type terms: constructors, pattern-match
//! accessors, constructor-shape comparison, and replacement of the
//! top-level argument list.

use vstd::prelude::*;
use std::sync::Arc;
use crate::ids::{
    AdtId, BuiltinType, CallableDefId, FunctionId, GenericDefId, Mutability, Rawness, Scalar,
    TraitId,
};
use crate::model::{FnPointerView, TraitRefView, TyView};
use crate::tys::{
    lemma_preds_view, lemma_tys_view, ty_view, tys_view, CallableSig, FnPointer, FnSig,
    GenericPredicate, ProjectionTy, Substs, TraitRef, Ty,
};

verus! {

broadcast use vstd::std_specs::vec::group_vec_axioms;

/// Whether two type terms have the same constructor, ignoring their
/// substituted arguments. Reference and raw-pointer constructors include
/// their mutability; function pointers include arity and signature flags.
pub open spec fn equals_ctor_view(a: TyView, b: TyView) -> bool {
    match (a, b) {
        (TyView::Adt(x, _), TyView::Adt(y, _)) => x == y,
        (TyView::Slice(_), TyView::Slice(_)) => true,
        (TyView::Array(_), TyView::Array(_)) => true,
        (TyView::FnDef(x, _), TyView::FnDef(y, _)) => x == y,
        (TyView::OpaqueType(x, _), TyView::OpaqueType(y, _)) => x == y,
        (TyView::AssociatedType(x, _), TyView::AssociatedType(y, _)) => x == y,
        (TyView::ForeignType(x), TyView::ForeignType(y)) => x == y,
        (TyView::Closure(d1, e1, _), TyView::Closure(d2, e2, _)) => d1 == d2 && e1 == e2,
        (TyView::Ref(m1, _), TyView::Ref(m2, _)) => m1 == m2,
        (TyView::RawPtr(m1, _), TyView::RawPtr(m2, _)) => m1 == m2,
        (TyView::Function(f1), TyView::Function(f2)) => f1.num_args == f2.num_args && f1.variadic
            == f2.variadic,
        (TyView::Tuple(c1, _), TyView::Tuple(c2, _)) => c1 == c2,
        (TyView::Str, TyView::Str) => true,
        (TyView::Never, TyView::Never) => true,
        (TyView::Scalar(s1), TyView::Scalar(s2)) => s1 == s2,
        _ => false,
    }
}

/// The top-level argument list of a term whose constructor carries one.
/// `Projection`, `Opaque` and `Dyn` keep their lists one level deeper and
/// have no such slot.
pub open spec fn substs_slot_view(t: TyView) -> Option<Seq<TyView>> {
    match t {
        TyView::Adt(_, ts) => Some(ts),
        TyView::AssociatedType(_, ts) => Some(ts),
        TyView::Tuple(_, ts) => Some(ts),
        TyView::Array(ts) => Some(ts),
        TyView::Slice(ts) => Some(ts),
        TyView::RawPtr(_, ts) => Some(ts),
        TyView::Ref(_, ts) => Some(ts),
        TyView::OpaqueType(_, ts) => Some(ts),
        TyView::FnDef(_, ts) => Some(ts),
        TyView::Closure(_, _, ts) => Some(ts),
        TyView::Function(fp) => Some(fp.substs),
        _ => None,
    }
}

/// The term with its top-level argument list replaced by `s2`; terms
/// without such a list are unchanged.
pub open spec fn apply_substs_view(t: TyView, s2: Seq<TyView>) -> TyView {
    match t {
        TyView::Adt(id, _) => TyView::Adt(id, s2),
        TyView::AssociatedType(id, _) => TyView::AssociatedType(id, s2),
        TyView::Tuple(arity, _) => TyView::Tuple(arity, s2),
        TyView::Array(_) => TyView::Array(s2),
        TyView::Slice(_) => TyView::Slice(s2),
        TyView::RawPtr(m, _) => TyView::RawPtr(m, s2),
        TyView::Ref(m, _) => TyView::Ref(m, s2),
        TyView::OpaqueType(id, _) => TyView::OpaqueType(id, s2),
        TyView::FnDef(def, _) => TyView::FnDef(def, s2),
        TyView::Closure(def, expr, _) => TyView::Closure(def, expr, s2),
        TyView::Function(fp) => TyView::Function(
            FnPointerView { num_args: fp.num_args, variadic: fp.variadic, substs: s2 },
        ),
        _ => t,
    }
}

/// Whether every (transitively) nested reference layer of `t` carries
/// exactly one argument, as a well-formed reference type does.
pub open spec fn refs_single(t: TyView) -> bool
    decreases t,
{
    match t {
        TyView::Ref(_, ts) => ts.len() == 1 && refs_single(ts[0]),
        _ => true,
    }
}

/// The innermost non-reference term under any nesting of references.
pub open spec fn strip_refs_view(t: TyView) -> TyView
    decreases t,
{
    match t {
        TyView::Ref(_, ts) => if ts.len() == 1 {
            strip_refs_view(ts[0])
        } else {
            t
        },
        _ => t,
    }
}

impl Ty {
    /// The unit type: the tuple of arity zero.
    pub fn unit() -> (r: Self)
        ensures
            r@ == TyView::Tuple(0, Seq::<TyView>::empty()),
    {
        Ty::Tuple(0, Substs::empty())
    }

    /// The function pointer type with the given signature; the signature's
    /// type list is shared, not copied.
    pub fn fn_ptr(sig: CallableSig) -> (r: Self)
        requires
            sig@.params_and_return.len() >= 1,
        ensures
            r@ == TyView::Function(
                FnPointerView {
                    num_args: (sig@.params_and_return.len() - 1) as nat,
                    variadic: sig@.is_varargs,
                    substs: sig@.params_and_return,
                },
            ),
    {
        proof {
            lemma_tys_view(sig.params_and_return@);
        }
        let list: &Vec<Ty> = &*sig.params_and_return;
        let num_args = list.len() - 1;
        Ty::Function(
            FnPointer {
                num_args,
                sig: FnSig { variadic: sig.is_varargs },
                substs: Substs(sig.params_and_return),
            },
        )
    }

    /// The representation of a primitive surface type. Total: every
    /// primitive has a scalar or `Str` representation.
    pub fn builtin(builtin: BuiltinType) -> (r: Self)
        ensures
            r@ == match builtin {
                BuiltinType::Char => TyView::Scalar(Scalar::Char),
                BuiltinType::Bool => TyView::Scalar(Scalar::Bool),
                BuiltinType::Str => TyView::Str,
                BuiltinType::Int(t) => TyView::Scalar(Scalar::Int(t)),
                BuiltinType::Uint(t) => TyView::Scalar(Scalar::Uint(t)),
                BuiltinType::Float(t) => TyView::Scalar(Scalar::Float(t)),
            },
    {
        match builtin {
            BuiltinType::Char => Ty::Scalar(Scalar::Char),
            BuiltinType::Bool => Ty::Scalar(Scalar::Bool),
            BuiltinType::Str => Ty::Str,
            BuiltinType::Int(t) => Ty::Scalar(Scalar::Int(t)),
            BuiltinType::Uint(t) => Ty::Scalar(Scalar::Uint(t)),
            BuiltinType::Float(t) => Ty::Scalar(Scalar::Float(t)),
        }
    }

    /// The pointee and mutability of a reference type; `None` otherwise.
    pub fn as_reference(&self) -> (r: Option<(&Ty, Mutability)>)
        requires
            self@ matches TyView::Ref(_, ts) ==> ts.len() == 1,
        ensures
            match self@ {
                TyView::Ref(m, ts) => r matches Some((t, m2)) && m2 == m && t@ == ts[0],
                _ => r is None,
            },
    {
        match self {
            Ty::Ref(mutability, parameters) => Some((parameters.as_single(), *mutability)),
            _ => None,
        }
    }

    /// The pointee, rawness and mutability of a reference or raw pointer
    /// type; `None` otherwise.
    pub fn as_reference_or_ptr(&self) -> (r: Option<(&Ty, Rawness, Mutability)>)
        requires
            self@ matches TyView::Ref(_, ts) ==> ts.len() == 1,
            self@ matches TyView::RawPtr(_, ts) ==> ts.len() == 1,
        ensures
            match self@ {
                TyView::Ref(m, ts) => r matches Some((t, raw, m2)) && m2 == m && raw
                    == Rawness::Ref && t@ == ts[0],
                TyView::RawPtr(m, ts) => r matches Some((t, raw, m2)) && m2 == m && raw
                    == Rawness::RawPtr && t@ == ts[0],
                _ => r is None,
            },
    {
        match self {
            Ty::Ref(mutability, parameters) => Some(
                (parameters.as_single(), Rawness::Ref, *mutability),
            ),
            Ty::RawPtr(mutability, parameters) => Some(
                (parameters.as_single(), Rawness::RawPtr, *mutability),
            ),
            _ => None,
        }
    }

    /// The innermost non-reference type under any nesting of references.
    /// Terminates because each step strictly reduces structural depth.
    pub fn strip_references(&self) -> (r: &Ty)
        requires
            refs_single(self@),
        ensures
            r@ == strip_refs_view(self@),
        decreases *self,
    {
        match self {
            Ty::Ref(_mutability, parameters) => {
                proof {
                    lemma_tys_view(parameters.0@);
                }
                let list: &Vec<Ty> = &*parameters.0;
                let inner = parameters.as_single();
                proof {
                    assert(decreases_to!(*list => list@[0]));
                    assert(decreases_to!(*self => *inner));
                }
                inner.strip_references()
            },
            _ => self,
        }
    }

    /// The definition key and arguments of an ADT instantiation; `None`
    /// otherwise.
    pub fn as_adt(&self) -> (r: Option<(AdtId, &Substs)>)
        ensures
            match self@ {
                TyView::Adt(id, ts) => r matches Some((a, s)) && a == id && s@ == ts,
                _ => r is None,
            },
    {
        match self {
            Ty::Adt(adt_def, parameters) => Some((*adt_def, parameters)),
            _ => None,
        }
    }

    /// The element types of a tuple; `None` otherwise.
    pub fn as_tuple(&self) -> (r: Option<&Substs>)
        ensures
            match self@ {
                TyView::Tuple(_, ts) => r matches Some(s) && s@ == ts,
                _ => r is None,
            },
    {
        match self {
            Ty::Tuple(_, substs) => Some(substs),
            _ => None,
        }
    }

    /// The generic-definition key behind this type, for the constructors
    /// that name one; `None` otherwise.
    pub fn as_generic_def(&self) -> (r: Option<GenericDefId>)
        ensures
            r == match self@ {
                TyView::Adt(adt, _) => Some(GenericDefId::Adt(adt)),
                TyView::FnDef(callable, _) => Some(callable.generic_def()),
                TyView::AssociatedType(type_alias, _) => Some(GenericDefId::TypeAlias(type_alias)),
                TyView::ForeignType(type_alias) => Some(GenericDefId::TypeAlias(type_alias)),
                _ => None::<GenericDefId>,
            },
    {
        match *self {
            Ty::Adt(adt, ..) => Some(GenericDefId::Adt(adt)),
            Ty::FnDef(callable, ..) => Some(callable.to_generic_def()),
            Ty::AssociatedType(type_alias, ..) => Some(GenericDefId::TypeAlias(type_alias)),
            Ty::ForeignType(type_alias) => Some(GenericDefId::TypeAlias(type_alias)),
            _ => None,
        }
    }

    pub fn is_never(&self) -> (r: bool)
        ensures
            r == (self@ matches TyView::Never),
    {
        matches!(self, Ty::Never)
    }

    pub fn is_unknown(&self) -> (r: bool)
        ensures
            r == (self@ matches TyView::Unknown),
    {
        matches!(self, Ty::Unknown)
    }

    /// Whether `self` and `other` are the same type constructor, ignoring
    /// substituted arguments: an over-approximation of structural equality
    /// used to guide unification before recursing into the arguments.
    pub fn equals_ctor(&self, other: &Ty) -> (r: bool)
        ensures
            r == equals_ctor_view(self@, other@),
    {
        match (self, other) {
            (Ty::Adt(adt, ..), Ty::Adt(adt2, ..)) => adt == adt2,
            (Ty::Slice(_), Ty::Slice(_)) => true,
            (Ty::Array(_), Ty::Array(_)) => true,
            (Ty::FnDef(def_id, ..), Ty::FnDef(def_id2, ..)) => def_id == def_id2,
            (Ty::OpaqueType(ty_id, ..), Ty::OpaqueType(ty_id2, ..)) => ty_id == ty_id2,
            (Ty::AssociatedType(ty_id, ..), Ty::AssociatedType(ty_id2, ..)) => ty_id == ty_id2,
            (Ty::ForeignType(ty_id), Ty::ForeignType(ty_id2)) => ty_id == ty_id2,
            (Ty::Closure(def, expr, _), Ty::Closure(def2, expr2, _)) => expr == expr2 && def
                == def2,
            (Ty::Ref(mutability, ..), Ty::Ref(mutability2, ..)) => mutability == mutability2,
            (Ty::RawPtr(mutability, ..), Ty::RawPtr(mutability2, ..)) => mutability == mutability2,
            (Ty::Function(fp), Ty::Function(fp2)) => fp.num_args == fp2.num_args && fp.sig
                == fp2.sig,
            (Ty::Tuple(cardinality, _), Ty::Tuple(cardinality2, _)) => cardinality == cardinality2,
            (Ty::Str, Ty::Str) => true,
            (Ty::Never, Ty::Never) => true,
            (Ty::Scalar(scalar), Ty::Scalar(scalar2)) => scalar == scalar2,
            _ => false,
        }
    }

    /// For a trait-object type whose first predicate is its principal
    /// trait, that trait reference; `None` otherwise.
    pub fn dyn_trait_ref(&self) -> (r: Option<&TraitRef>)
        ensures
            match self@ {
                TyView::Dyn(ps) => if ps.len() > 0 && (ps[0] matches
                crate::model::PredView::Implemented(tr)) {
                    r matches Some(t) && t@ == ps[0]->Implemented_0
                } else {
                    r is None
                },
                _ => r is None,
            },
    {
        match self {
            Ty::Dyn(bounds) => {
                proof {
                    lemma_preds_view(bounds@);
                }
                let list: &Vec<GenericPredicate> = &**bounds;
                if list.len() > 0 {
                    match &list[0] {
                        GenericPredicate::Implemented(trait_ref) => Some(trait_ref),
                        _ => None,
                    }
                } else {
                    None
                }
            },
            _ => None,
        }
    }

    /// For a trait-object type with a principal trait, that trait's key.
    pub fn dyn_trait(&self) -> (r: Option<TraitId>)
        ensures
            match self@ {
                TyView::Dyn(ps) => if ps.len() > 0 && (ps[0] matches
                crate::model::PredView::Implemented(tr)) {
                    r == Some(ps[0]->Implemented_0.trait_)
                } else {
                    r is None
                },
                _ => r is None,
            },
    {
        match self.dyn_trait_ref() {
            Some(it) => Some(it.trait_),
            None => None,
        }
    }

    /// The pointee of a reference or raw pointer, as an owned value;
    /// `None` otherwise.
    pub fn builtin_deref(&self) -> (r: Option<Ty>)
        requires
            self@ matches TyView::Ref(_, ts) ==> ts.len() == 1,
            self@ matches TyView::RawPtr(_, ts) ==> ts.len() == 1,
        ensures
            match self@ {
                TyView::Ref(_, ts) => r matches Some(t) && t@ == ts[0],
                TyView::RawPtr(_, ts) => r matches Some(t) && t@ == ts[0],
                _ => r is None,
            },
    {
        match self {
            Ty::Ref(.., parameters) => Some(parameters.as_single().clone()),
            Ty::RawPtr(.., parameters) => Some(parameters.as_single().clone()),
            _ => None,
        }
    }

    /// The function key of a function definition type; `None` otherwise,
    /// including for constructor definitions.
    pub fn as_fn_def(&self) -> (r: Option<FunctionId>)
        ensures
            r == match self@ {
                TyView::FnDef(CallableDefId::FunctionId(func), _) => Some(func),
                _ => None::<FunctionId>,
            },
    {
        match *self {
            Ty::FnDef(CallableDefId::FunctionId(func), ..) => Some(func),
            _ => None,
        }
    }

    /// Replaces the top-level argument list with `new_substs`, which must
    /// have the same length; a term without such a list is returned
    /// unchanged. A length mismatch is an internal-consistency fault of the
    /// caller, excluded here by precondition.
    pub fn apply_substs(self, new_substs: Substs) -> (r: Ty)
        requires
            substs_slot_view(self@) matches Some(ts) ==> ts.len() == new_substs@.len(),
        ensures
            r@ == apply_substs_view(self@, new_substs@),
    {
        match self {
            Ty::Adt(id, _) => Ty::Adt(id, new_substs),
            Ty::AssociatedType(id, _) => Ty::AssociatedType(id, new_substs),
            Ty::Tuple(arity, _) => Ty::Tuple(arity, new_substs),
            Ty::Array(_) => Ty::Array(new_substs),
            Ty::Slice(_) => Ty::Slice(new_substs),
            Ty::RawPtr(m, _) => Ty::RawPtr(m, new_substs),
            Ty::Ref(m, _) => Ty::Ref(m, new_substs),
            Ty::OpaqueType(id, _) => Ty::OpaqueType(id, new_substs),
            Ty::FnDef(def, _) => Ty::FnDef(def, new_substs),
            Ty::Closure(def, expr, _) => Ty::Closure(def, expr, new_substs),
            Ty::Function(fp) => Ty::Function(
                FnPointer { num_args: fp.num_args, sig: fp.sig, substs: new_substs },
            ),
            other => other,
        }
    }

    /// The top-level argument list, for constructors that carry one. The
    /// lists of `Projection`, `Opaque` and `Dyn` sit one level deeper and
    /// are reached through the traversal operations instead.
    pub fn substs(&self) -> (r: Option<&Substs>)
        ensures
            match substs_slot_view(self@) {
                Some(ts) => r matches Some(s) && s@ == ts,
                None => r is None,
            },
    {
        match self {
            Ty::Adt(_, substs) => Some(substs),
            Ty::AssociatedType(_, substs) => Some(substs),
            Ty::Tuple(_, substs) => Some(substs),
            Ty::Array(substs) => Some(substs),
            Ty::Slice(substs) => Some(substs),
            Ty::RawPtr(_, substs) => Some(substs),
            Ty::Ref(_, substs) => Some(substs),
            Ty::OpaqueType(_, substs) => Some(substs),
            Ty::FnDef(_, substs) => Some(substs),
            Ty::Closure(.., substs) => Some(substs),
            Ty::Function(fp) => Some(&fp.substs),
            _ => None,
        }
    }
}

impl CallableSig {
    /// Builds a signature from parameter types, a return type and the
    /// variadic flag; the return type is stored last.
    pub fn from_params_and_return(params: Vec<Ty>, ret: Ty, is_varargs: bool) -> (r: CallableSig)
        ensures
            r@.params_and_return == tys_view(params@).push(ty_view(ret)),
            r@.is_varargs == is_varargs,
    {
        let ghost old_params = params@;
        let mut params = params;
        params.push(ret);
        proof {
            assert(params@.drop_last() =~= old_params);
        }
        CallableSig { params_and_return: Arc::new(params), is_varargs }
    }

    /// Reads the signature out of a function pointer type, sharing its
    /// storage.
    pub fn from_fn_ptr(fn_ptr: &FnPointer) -> (r: CallableSig)
        ensures
            r@.params_and_return == fn_ptr@.substs,
            r@.is_varargs == fn_ptr@.variadic,
    {
        CallableSig {
            params_and_return: fn_ptr.substs.0.clone(),
            is_varargs: fn_ptr.sig.variadic,
        }
    }

    /// Reinterprets an argument list as a non-variadic signature, sharing
    /// its storage.
    pub fn from_substs(substs: &Substs) -> (r: CallableSig)
        ensures
            r@.params_and_return == substs@,
            r@.is_varargs == false,
    {
        CallableSig { params_and_return: substs.0.clone(), is_varargs: false }
    }

    /// The parameter types: everything but the last stored type.
    #[verifier::loop_isolation(false)]
    pub fn params(&self) -> (r: Vec<Ty>)
        requires
            self@.params_and_return.len() >= 1,
        ensures
            tys_view(r@) == self@.params_and_return.drop_last(),
    {
        proof {
            lemma_tys_view(self.params_and_return@);
        }
        let list: &Vec<Ty> = &*self.params_and_return;
        let mut out: Vec<Ty> = Vec::new();
        let mut i: usize = 0;
        while i < list.len() - 1
            invariant
                i <= list@.len() - 1,
                out@.len() == i,
                forall|j: int| 0 <= j < i ==> ty_view(out@[j]) == ty_view(list@[j]),
            decreases list@.len() - 1 - i,
        {
            let x = list[i].clone();
            out.push(x);
            i += 1;
        }
        proof {
            lemma_tys_view(out@);
            assert(tys_view(out@) =~= self@.params_and_return.drop_last());
        }
        out
    }

    /// The return type: the last stored type.
    pub fn ret(&self) -> (r: &Ty)
        requires
            self@.params_and_return.len() >= 1,
        ensures
            r@ == self@.params_and_return.last(),
    {
        proof {
            lemma_tys_view(self.params_and_return@);
        }
        let list: &Vec<Ty> = &*self.params_and_return;
        &list[list.len() - 1]
    }
}

impl TraitRef {
    /// The implementing type: by convention the first argument.
    pub fn self_ty(&self) -> (r: &Ty)
        requires
            self@.substs.len() >= 1,
        ensures
            r@ == self@.substs[0],
    {
        self.substs.at(0)
    }
}

impl GenericPredicate {
    pub fn is_error(&self) -> (r: bool)
        ensures
            r == (self@ matches crate::model::PredView::Error),
    {
        matches!(self, GenericPredicate::Error)
    }

    pub fn is_implemented(&self) -> (r: bool)
        ensures
            r == (self@ matches crate::model::PredView::Implemented(_)),
    {
        matches!(self, GenericPredicate::Implemented(_))
    }
}

} // verus!
