//! The de Bruijn operations: substitution, shifting, and the post-order
//! walk.

use std::sync::Arc;

use hir_ty::{
    AdtId, Binders, BoundVar, DebruijnIndex, FunctionId, GenericDefId, GenericPredicate, Scalar,
    StructId, Substs, TraitId, TraitRef, Ty, TypeParam, TypeParamId, TypeParamProvenance,
    TypeWalk, UintTy,
};

fn adt() -> AdtId {
    AdtId::Struct(StructId(1))
}

fn params(n: u32) -> Vec<TypeParam> {
    let mut out = Vec::new();
    let mut i: u32 = 0;
    while i < n {
        out.push(TypeParam {
            id: TypeParamId { parent: GenericDefId::Adt(adt()), local_id: i },
            provenance: TypeParamProvenance::TypeParamList,
        });
        i += 1;
    }
    out
}

fn bound(debruijn: u32, index: usize) -> Ty {
    Ty::Bound(BoundVar::new(DebruijnIndex::new(debruijn), index))
}

fn u32t() -> Ty {
    Ty::Scalar(Scalar::Uint(UintTy::U32))
}

fn boolt() -> Ty {
    Ty::Scalar(Scalar::Bool)
}

#[test]
fn bound_vars_builds_the_identity_substitution() {
    let bv = Substs::bound_vars(&params(3), DebruijnIndex::new(2));
    assert_eq!(bv.len(), 3);
    assert_eq!(bv.at(0), &bound(2, 0));
    assert_eq!(bv.at(1), &bound(2, 1));
    assert_eq!(bv.at(2), &bound(2, 2));
}

#[test]
fn binders_over_bound_vars_substitute_by_position() {
    // the identity-substitution round trip: a value carrying its binder's
    // own variables, instantiated with concrete arguments
    let bv = Substs::bound_vars(&params(2), DebruijnIndex::innermost());
    let value = Ty::Adt(adt(), bv);
    let b = Binders::new(2, value);
    let args = Substs(Arc::new(vec![u32t(), boolt()]));
    let result = b.subst(&args);
    assert_eq!(result, Ty::Adt(adt(), Substs(Arc::new(vec![u32t(), boolt()]))));
}

#[test]
fn bound_vars_at_outer_depth_substitute_the_same_way() {
    // free variables are replaced whatever their excess depth
    let bv = Substs::bound_vars(&params(2), DebruijnIndex::new(5));
    let value = Ty::Adt(adt(), bv);
    let args = Substs(Arc::new(vec![boolt(), Ty::Str]));
    let result = value.subst_bound_vars(&args);
    assert_eq!(result, Ty::Adt(adt(), Substs(Arc::new(vec![boolt(), Ty::Str]))));
}

#[test]
fn shift_raises_free_variables_only() {
    let t = Ty::Adt(adt(), Substs(Arc::new(vec![bound(0, 0), u32t()])));
    let shifted = t.shift_bound_vars(DebruijnIndex::new(2));
    assert_eq!(shifted, Ty::Adt(adt(), Substs(Arc::new(vec![bound(2, 0), u32t()]))));
}

#[test]
fn shift_does_not_touch_variables_bound_by_a_dyn() {
    let tr = TraitRef {
        trait_: TraitId(4),
        substs: Substs(Arc::new(vec![bound(0, 0), bound(1, 0)])),
    };
    let d = Ty::Dyn(Arc::new(vec![GenericPredicate::Implemented(tr)]));
    let shifted = d.shift_bound_vars(DebruijnIndex::new(1));
    let expected = Ty::Dyn(Arc::new(vec![GenericPredicate::Implemented(TraitRef {
        trait_: TraitId(4),
        substs: Substs(Arc::new(vec![bound(0, 0), bound(2, 0)])),
    })]));
    assert_eq!(shifted, expected);
}

#[test]
fn shift_then_subst_at_matching_depth_equals_direct_subst() {
    // shifting into two new binders and substituting there resolves the
    // same variables to the same closed arguments
    let t = Ty::Adt(adt(), Substs(Arc::new(vec![bound(0, 0), bound(0, 1)])));
    let args = Substs(Arc::new(vec![u32t(), Ty::Str]));
    let direct = t.clone().subst_bound_vars(&args);
    let shifted = t.shift_bound_vars(DebruijnIndex::new(2));
    let via_shift = shifted.subst_bound_vars_at_depth(&args, DebruijnIndex::new(2));
    assert_eq!(via_shift, direct);
}

#[test]
fn subst_respects_the_dyn_binder() {
    // inside a trait object, depth 0 is the object's own self binder:
    // a reference to it stays, a reference one binder out is resolved
    let tr = TraitRef {
        trait_: TraitId(9),
        substs: Substs(Arc::new(vec![bound(0, 0), bound(1, 0)])),
    };
    let d = Ty::Dyn(Arc::new(vec![GenericPredicate::Implemented(tr)]));
    let args = Substs::single(u32t());
    let result = d.subst_bound_vars(&args);
    let expected = Ty::Dyn(Arc::new(vec![GenericPredicate::Implemented(TraitRef {
        trait_: TraitId(9),
        substs: Substs(Arc::new(vec![bound(0, 0), u32t()])),
    })]));
    assert_eq!(result, expected);
}

#[test]
fn subst_shifts_open_replacements_under_the_binders_they_cross() {
    // the replacement itself contains a free variable: inserted under the
    // trait object's binder, its index must be raised by one
    let tr = TraitRef { trait_: TraitId(2), substs: Substs(Arc::new(vec![bound(1, 0)])) };
    let d = Ty::Dyn(Arc::new(vec![GenericPredicate::Implemented(tr)]));
    let args = Substs::single(bound(0, 3));
    let result = d.subst_bound_vars(&args);
    let expected = Ty::Dyn(Arc::new(vec![GenericPredicate::Implemented(TraitRef {
        trait_: TraitId(2),
        substs: Substs(Arc::new(vec![bound(1, 3)])),
    })]));
    assert_eq!(result, expected);
}

#[test]
fn subst_prefix_keeps_the_remaining_binders() {
    let value = Ty::Adt(adt(), Substs(Arc::new(vec![bound(0, 0), bound(0, 0)])));
    let b = Binders::new(3, value);
    let prefixed = b.subst_prefix(&Substs::single(Ty::Str));
    assert_eq!(prefixed.num_binders, 2);
    assert_eq!(
        prefixed.value,
        Ty::Adt(adt(), Substs(Arc::new(vec![Ty::Str, Ty::Str])))
    );
}

#[test]
fn walk_visits_children_before_their_container() {
    let inner = Substs(Arc::new(vec![u32t(), boolt()]));
    let t = Ty::Adt(adt(), inner);
    let visited = t.walk();
    assert_eq!(visited, vec![u32t(), boolt(), t]);
}

#[test]
fn walk_descends_through_nested_structure() {
    let slice = Ty::Slice(Substs::single(u32t()));
    let t = Ty::Tuple(2, Substs(Arc::new(vec![slice.clone(), Ty::Str])));
    let visited = t.walk();
    assert_eq!(visited, vec![u32t(), slice, Ty::Str, t]);
}

#[test]
fn walk_enters_trait_object_predicates() {
    let tr = TraitRef { trait_: TraitId(3), substs: Substs::single(u32t()) };
    let d = Ty::Dyn(Arc::new(vec![
        GenericPredicate::Implemented(tr),
        GenericPredicate::Error,
    ]));
    let visited = d.walk();
    assert_eq!(visited, vec![u32t(), d]);
}

#[test]
fn substs_and_binders_walk_their_contents() {
    let s = Substs(Arc::new(vec![u32t(), Ty::Str]));
    assert_eq!(s.walk(), vec![u32t(), Ty::Str]);
    let b = Binders::new(1, Ty::Slice(Substs::single(boolt())));
    assert_eq!(b.walk(), vec![boolt(), Ty::Slice(Substs::single(boolt()))]);
}

#[test]
fn subst_leaves_unrelated_constructors_alone() {
    let t = Ty::Tuple(
        2,
        Substs(Arc::new(vec![Ty::Unknown, Ty::Placeholder(TypeParamId {
            parent: GenericDefId::Function(FunctionId(2)),
            local_id: 0,
        })])),
    );
    let args = Substs::single(u32t());
    let result = t.clone().subst_bound_vars(&args);
    assert_eq!(result, t);
}
