//! Operations that read per-definition data through the database port:
//! trait-reference derivation, identity substitutions for a definition,
//! callable-signature derivation, and opaque-type bound resolution.

use vstd::prelude::*;
use crate::binders::Binders;
use crate::db::{lemma_rpits_model, ReturnTypeImplTrait, ReturnTypeImplTraits, TypeDatabase};
use crate::ids::{
    AssocContainerId, OpaqueTyId, TraitId, TypeParamId, TypeParamProvenance,
};
use crate::model::{
    subst_ok_preds, subst_ok_tys, subst_preds, subst_tys, PredView, TraitRefView, TyView,
};
use crate::substs::SubstsBuilder;
use crate::tys::{
    lemma_preds_view, lemma_tys_view, pred_view, preds_view, ty_view, CallableSig,
    GenericPredicate, ProjectionTy, Substs, TraitRef, Ty,
};
use crate::walk::TypeWalk;

verus! {

broadcast use vstd::std_specs::vec::group_vec_axioms;

impl ProjectionTy {
    /// The trait that owns the projected associated type. An associated
    /// type whose container is not a trait never reaches a projection; that
    /// case is an internal-consistency fault of an upstream collaborator,
    /// excluded here by precondition.
    pub(crate) fn trait_<DB: TypeDatabase>(&self, db: &DB) -> (r: TraitId)
        requires
            db.type_alias_container_spec(self.associated_ty) matches AssocContainerId::Trait(_),
        ensures
            db.type_alias_container_spec(self.associated_ty) == AssocContainerId::Trait(r),
    {
        match db.type_alias_container(self.associated_ty) {
            AssocContainerId::Trait(it) => it,
            _ => {
                proof {
                    assert(false);
                }
                TraitId(0)
            },
        }
    }

    /// The owning trait applied to this projection's own arguments.
    pub fn trait_ref<DB: TypeDatabase>(&self, db: &DB) -> (r: TraitRef)
        requires
            db.type_alias_container_spec(self.associated_ty) matches AssocContainerId::Trait(_),
        ensures
            db.type_alias_container_spec(self.associated_ty) == AssocContainerId::Trait(
                r@.trait_,
            ),
            r@.substs == self@.parameters,
    {
        TraitRef { trait_: self.trait_(db), substs: self.parameters.clone() }
    }
}

impl GenericPredicate {
    /// The trait reference underlying this predicate: directly for
    /// `Implemented`, through the projection's owning trait for
    /// `Projection`, and `None` for `Error`.
    pub fn trait_ref<DB: TypeDatabase>(&self, db: &DB) -> (r: Option<TraitRef>)
        requires
            self@ matches PredView::Projection(pp) ==> db.type_alias_container_spec(
                pp.projection_ty.associated_ty,
            ) matches AssocContainerId::Trait(_),
        ensures
            match self@ {
                PredView::Implemented(tr) => r matches Some(t) && t@ == tr,
                PredView::Projection(pp) => r matches Some(t) && t@.substs
                    == pp.projection_ty.parameters && db.type_alias_container_spec(
                    pp.projection_ty.associated_ty,
                ) == AssocContainerId::Trait(t@.trait_),
                PredView::Error => r is None,
            },
    {
        match self {
            GenericPredicate::Implemented(tr) => Some(tr.clone()),
            GenericPredicate::Projection(proj) => Some(proj.projection_ty.trait_ref(db)),
            GenericPredicate::Error => None,
        }
    }
}

impl Substs {
    /// The substitution that maps each declared parameter of `def` to
    /// itself, as a placeholder.
    pub fn type_params<DB: TypeDatabase>(db: &DB, def: crate::ids::GenericDefId) -> (r: Substs)
        ensures
            r@.len() == db.generic_params_spec(def).len(),
            forall|i: int|
                0 <= i < r@.len() ==> r@[i] == TyView::Placeholder(
                    db.generic_params_spec(def)[i].id,
                ),
    {
        let params = db.generic_params(def);
        Substs::type_params_for_generics(&params)
    }

    /// A builder for a substitution of `def`'s declared parameters.
    pub fn build_for_def<DB: TypeDatabase>(db: &DB, def: crate::ids::GenericDefId) -> (r:
        SubstsBuilder)
        ensures
            r.vec@ == Seq::<Ty>::empty(),
            r.param_count == db.generic_params_spec(def).len(),
    {
        let params = db.generic_params(def);
        Substs::builder(params.len())
    }
}

/// The position of a type parameter in its parent's declared parameter
/// list; `None` if the parent does not declare it.
#[verifier::loop_isolation(false)]
pub fn param_idx<DB: TypeDatabase>(db: &DB, id: TypeParamId) -> (r: Option<usize>)
    ensures
        match r {
            Some(i) => i < db.generic_params_spec(id.parent).len() && db.generic_params_spec(
                id.parent,
            )[i as int].id == id && forall|j: int|
                0 <= j < i ==> db.generic_params_spec(id.parent)[j].id != id,
            None => forall|j: int|
                0 <= j < db.generic_params_spec(id.parent).len()
                    ==> db.generic_params_spec(id.parent)[j].id != id,
        },
{
    let params = db.generic_params(id.parent);
    let mut i: usize = 0;
    while i < params.len()
        invariant
            i <= params@.len(),
            forall|j: int| 0 <= j < i ==> params@[j].id != id,
        decreases params@.len() - i,
    {
        if params[i].id == id {
            return Some(i);
        }
        i += 1;
    }
    None
}

/// Whether the executable derivation of a callable signature for `t` is
/// free of internal-consistency faults: a function definition's stored
/// signature matches its argument count and substitutes within bounds, and
/// a closure carries its signature type as its first argument.
pub open spec fn callable_sig_ok<DB: TypeDatabase>(db: &DB, t: TyView) -> bool
    decreases t,
{
    match t {
        TyView::FnDef(def, params) => {
            let sig = db.callable_item_signature_spec(def);
            sig.num_binders == params.len() && subst_ok_tys(sig.value.params_and_return, params, 0)
        },
        TyView::Closure(_, _, substs) => substs.len() >= 1 && callable_sig_ok(db, substs[0]),
        _ => true,
    }
}

/// The signature a type offers to a caller: read from a function pointer,
/// instantiated from the database for a function definition, and derived
/// from the first argument for a closure; `None` for anything else.
pub open spec fn callable_sig_view<DB: TypeDatabase>(db: &DB, t: TyView) -> Option<
    crate::model::CallableSigView,
>
    decreases t,
{
    match t {
        TyView::Function(fp) => Some(
            crate::model::CallableSigView {
                params_and_return: fp.substs,
                is_varargs: fp.variadic,
            },
        ),
        TyView::FnDef(def, params) => {
            let sig = db.callable_item_signature_spec(def);
            Some(
                crate::model::CallableSigView {
                    params_and_return: subst_tys(sig.value.params_and_return, params, 0),
                    is_varargs: sig.value.is_varargs,
                },
            )
        },
        TyView::Closure(_, _, substs) => if substs.len() >= 1 {
            callable_sig_view(db, substs[0])
        } else {
            None
        },
        _ => None,
    }
}

impl Ty {
    /// The callable signature of this type, if it has one.
    pub fn callable_sig<DB: TypeDatabase>(&self, db: &DB) -> (r: Option<CallableSig>)
        requires
            callable_sig_ok(db, self@),
        ensures
            match callable_sig_view(db, self@) {
                Some(v) => r matches Some(sig) && sig@ == v,
                None => r is None,
            },
        decreases *self,
    {
        match self {
            Ty::Function(fn_ptr) => Some(CallableSig::from_fn_ptr(fn_ptr)),
            Ty::FnDef(def, parameters) => {
                let sig = db.callable_item_signature(*def);
                Some(sig.subst(parameters))
            },
            Ty::Closure(_, _, substs) => {
                proof {
                    lemma_tys_view(substs.0@);
                }
                let list: &Vec<Ty> = &*substs.0;
                let sig_param = substs.at(0);
                proof {
                    assert(decreases_to!(*list => list@[0]));
                    assert(decreases_to!(*self => *sig_param));
                }
                sig_param.callable_sig(db)
            },
            _ => None,
        }
    }

    /// Whether resolving this type's `impl Trait` bounds stays inside the
    /// data the database declares: a return-position `impl Trait` names a
    /// declared position, its stored bound set matches this type's argument
    /// count and substitutes within bounds, an async-block key never
    /// appears behind the `Opaque` constructor, and a placeholder's
    /// position lies inside its parent's parameter list.
    pub open spec fn impl_trait_bounds_ok<DB: TypeDatabase>(db: &DB, t: TyView) -> bool {
        match t {
            TyView::Opaque(o) => match o.opaque_ty_id {
                OpaqueTyId::ReturnTypeImplTrait(func, idx) => match db.return_type_impl_traits_spec(
                    func,
                ) {
                    Some(b) => idx < b.value.len() && o.parameters.len() == b.num_binders
                        && subst_ok_preds(b.value[idx as int].value, o.parameters, 1),
                    None => true,
                },
                OpaqueTyId::AsyncBlockTypeImplTrait(_, _) => false,
            },
            TyView::Placeholder(id) => id.local_id < db.generic_params_spec(id.parent).len(),
            _ => true,
        }
    }

    /// The bound list behind an opaque or argument-position `impl Trait`
    /// type, resolved through the database.
    ///
    /// For an async block's opaque key, a single bound naming the future
    /// trait with empty arguments is synthesized, as an approximation that
    /// only traversal relies on. For a return-position `impl Trait`, the
    /// declared bound set at its position is instantiated with this type's
    /// own arguments. For a placeholder introduced by an argument-position
    /// `impl Trait`, the parameter's declared predicates are returned.
    /// Every other type yields `None`.
    pub fn impl_trait_bounds<DB: TypeDatabase>(&self, db: &DB) -> (r: Option<
        Vec<GenericPredicate>,
    >)
        requires
            Ty::impl_trait_bounds_ok(db, self@),
        ensures
            match self@ {
                TyView::OpaqueType(id, _) => match id {
                    OpaqueTyId::AsyncBlockTypeImplTrait(def, _) => match db.future_trait_spec(
                        db.body_krate_spec(def),
                    ) {
                        Some(tr) => r matches Some(v) && preds_view(v@) == seq![
                            PredView::Implemented(
                                TraitRefView { trait_: tr, substs: Seq::empty() },
                            ),
                        ],
                        None => r is None,
                    },
                    OpaqueTyId::ReturnTypeImplTrait(_, _) => r is None,
                },
                TyView::Opaque(o) => match o.opaque_ty_id {
                    OpaqueTyId::ReturnTypeImplTrait(func, idx) => match db.return_type_impl_traits_spec(
                        func,
                    ) {
                        Some(b) => r matches Some(v) && preds_view(v@) == subst_preds(
                            b.value[idx as int].value,
                            o.parameters,
                            1,
                        ),
                        None => r is None,
                    },
                    OpaqueTyId::AsyncBlockTypeImplTrait(_, _) => true,
                },
                TyView::Placeholder(id) => {
                    let params = db.generic_params_spec(id.parent);
                    if params[id.local_id as int].provenance
                        == TypeParamProvenance::ArgumentImplTrait {
                        let preds = db.generic_predicates_for_param_spec(id);
                        r matches Some(v) && preds_view(v@).len() == preds.len() && forall|j: int|
                            0 <= j < preds.len() ==> preds_view(v@)[j] == preds[j].value
                    } else {
                        r is None
                    }
                },
                _ => r is None,
            },
    {
        match self {
            Ty::OpaqueType(opaque_ty_id, _) => match opaque_ty_id {
                OpaqueTyId::AsyncBlockTypeImplTrait(def, _expr) => {
                    let krate = db.body_krate(*def);
                    match db.future_trait(krate) {
                        Some(future_trait) => {
                            let impl_bound = GenericPredicate::Implemented(
                                TraitRef { trait_: future_trait, substs: Substs::empty() },
                            );
                            let mut v: Vec<GenericPredicate> = Vec::new();
                            v.push(impl_bound);
                            proof {
                                lemma_preds_view(v@);
                                assert(preds_view(v@)[0] == pred_view(v@[0]));
                                assert(pred_view(v@[0]) == PredView::Implemented(
                                    TraitRefView { trait_: future_trait, substs: Seq::empty() },
                                ));
                                assert(preds_view(v@) =~= seq![
                                    PredView::Implemented(
                                        TraitRefView {
                                            trait_: future_trait,
                                            substs: Seq::empty(),
                                        },
                                    ),
                                ]);
                            }
                            Some(v)
                        },
                        None => None,
                    }
                },
                OpaqueTyId::ReturnTypeImplTrait(_, _) => None,
            },
            Ty::Opaque(opaque_ty) => match opaque_ty.opaque_ty_id {
                OpaqueTyId::ReturnTypeImplTrait(func, idx) => {
                    match db.return_type_impl_traits(func) {
                        Some(it) => {
                            proof {
                                lemma_rpits_model(it.value.impl_traits@);
                            }
                            let num = it.num_binders;
                            let rpit: &ReturnTypeImplTrait = &it.value.impl_traits[idx as usize];
                            let inner = crate::db::clone_closed_preds(&rpit.bounds);
                            let data: Binders<Binders<Vec<GenericPredicate>>> = Binders::new(
                                num,
                                inner,
                            );
                            let result = data.subst(&opaque_ty.parameters);
                            Some(result.value)
                        },
                        None => None,
                    }
                },
                OpaqueTyId::AsyncBlockTypeImplTrait(_, _) => {
                    proof {
                        assert(false);
                    }
                    None
                },
            },
            Ty::Placeholder(id) => {
                let params = db.generic_params(id.parent);
                let param_data = params[id.local_id as usize];
                match param_data.provenance {
                    TypeParamProvenance::ArgumentImplTrait => {
                        let preds = db.generic_predicates_for_param(*id);
                        let mut out: Vec<GenericPredicate> = Vec::new();
                        let mut i: usize = 0;
                        proof {
                            lemma_preds_view(out@);
                        }
                        #[verifier::loop_isolation(false)]
                        while i < preds.len()
                            invariant
                                i <= preds@.len(),
                                out@.len() == i,
                                forall|j: int|
                                    0 <= j < i ==> out@[j]@ == #[trigger] preds@[j].model().value,
                            decreases preds@.len() - i,
                        {
                            let x = preds[i].value.clone();
                            out.push(x);
                            i += 1;
                        }
                        proof {
                            lemma_preds_view(out@);
                            assert forall|j: int|
                                0 <= j < db.generic_predicates_for_param_spec(*id).len()
                                implies preds_view(out@)[j] == db.generic_predicates_for_param_spec(
                                *id,
                            )[j].value by {
                                assert(preds@[j].model() == db.generic_predicates_for_param_spec(
                                    *id,
                                )[j]);
                                assert(out@[j]@ == preds@[j].model().value);
                            }
                        }
                        Some(out)
                    },
                    _ => None,
                }
            },
            _ => None,
        }
    }

    /// The trait that owns this type's associated type, for an associated
    /// type applied to arguments or an unnormalized projection; `None`
    /// otherwise, including when the container is not a trait.
    pub fn associated_type_parent_trait<DB: TypeDatabase>(&self, db: &DB) -> (r: Option<TraitId>)
        ensures
            match self@ {
                TyView::AssociatedType(alias, _) => match db.type_alias_container_spec(alias) {
                    AssocContainerId::Trait(t) => r == Some(t),
                    _ => r is None,
                },
                TyView::Projection(p) => match db.type_alias_container_spec(p.associated_ty) {
                    AssocContainerId::Trait(t) => r == Some(t),
                    _ => r is None,
                },
                _ => r is None,
            },
    {
        match self {
            Ty::AssociatedType(type_alias_id, _) => {
                match db.type_alias_container(*type_alias_id) {
                    AssocContainerId::Trait(trait_id) => Some(trait_id),
                    _ => None,
                }
            },
            Ty::Projection(projection_ty) => {
                match db.type_alias_container(projection_ty.associated_ty) {
                    AssocContainerId::Trait(trait_id) => Some(trait_id),
                    _ => None,
                }
            },
            _ => None,
        }
    }
}

} // verus!
