//! Substitution lists, the arity-checked builder, and the binder wrappers.

use std::sync::Arc;

use hir_ty::{
    AdtId, Binders, BoundVar, Canonical, DebruijnIndex, GenericDefId, Scalar, StructId, Substs,
    StaticId, Ty, TyVariableKind, TypeParam, TypeParamId, TypeParamProvenance, UintTy,
};

fn adt() -> AdtId {
    AdtId::Struct(StructId(3))
}

fn params(n: u32) -> Vec<TypeParam> {
    let mut out = Vec::new();
    let mut i: u32 = 0;
    while i < n {
        out.push(TypeParam {
            id: TypeParamId { parent: GenericDefId::Adt(adt()), local_id: i },
            provenance: TypeParamProvenance::TypeParamList,
        });
        i += 1;
    }
    out
}

fn u32t() -> Ty {
    Ty::Scalar(Scalar::Uint(UintTy::U32))
}

#[test]
fn empty_and_single() {
    assert_eq!(Substs::empty().len(), 0);
    let s = Substs::single(Ty::Str);
    assert_eq!(s.len(), 1);
    assert_eq!(s.at(0), &Ty::Str);
    assert_eq!(s.as_single(), &Ty::Str);
}

#[test]
fn prefix_and_suffix_clamp_to_the_length() {
    let s = Substs(Arc::new(vec![u32t(), Ty::Str, Ty::Never]));
    assert_eq!(s.prefix(2), Substs(Arc::new(vec![u32t(), Ty::Str])));
    assert_eq!(s.prefix(9), s);
    assert_eq!(s.prefix(0), Substs::empty());
    assert_eq!(s.suffix(2), Substs(Arc::new(vec![Ty::Str, Ty::Never])));
    assert_eq!(s.suffix(9), s);
    assert_eq!(s.suffix(0), Substs::empty());
}

#[test]
fn type_params_map_each_parameter_to_itself() {
    let ps = params(2);
    let s = Substs::type_params_for_generics(&ps);
    assert_eq!(s.len(), 2);
    assert_eq!(s.at(0), &Ty::Placeholder(ps[0].id));
    assert_eq!(s.at(1), &Ty::Placeholder(ps[1].id));
}

#[test]
fn builder_accepts_exactly_the_declared_count() {
    let b = Substs::build_for_generics(&params(2));
    let s = b.push(u32t()).push(Ty::Str).build();
    assert_eq!(s.len(), 2);
    assert_eq!(s.at(0), &u32t());
    assert_eq!(s.at(1), &Ty::Str);
}

#[test]
fn fill_with_unknown_leaves_no_remaining_slots() {
    let b = Substs::build_for_generics(&params(3)).push(u32t());
    let s = b.fill_with_unknown().build();
    assert_eq!(s.len(), 3);
    assert_eq!(s.at(0), &u32t());
    assert_eq!(s.at(1), &Ty::Unknown);
    assert_eq!(s.at(2), &Ty::Unknown);
}

#[test]
fn fill_with_unknown_on_a_full_builder_changes_nothing() {
    let s = Substs::build_for_generics(&params(1)).push(Ty::Str).fill_with_unknown().build();
    assert_eq!(s, Substs::single(Ty::Str));
}

#[test]
fn fill_with_bound_vars_counts_from_the_start_index() {
    let b = Substs::build_for_generics(&params(3)).push(Ty::Str);
    let s = b.fill_with_bound_vars(DebruijnIndex::innermost(), 5).build();
    assert_eq!(s.at(0), &Ty::Str);
    assert_eq!(s.at(1), &Ty::Bound(BoundVar::new(DebruijnIndex::new(0), 5)));
    assert_eq!(s.at(2), &Ty::Bound(BoundVar::new(DebruijnIndex::new(0), 6)));
}

#[test]
fn fill_takes_only_the_missing_count() {
    let b = Substs::build_for_generics(&params(2)).push(u32t());
    let s = b.fill(vec![Ty::Str, Ty::Never, Ty::Unknown]).build();
    assert_eq!(s, Substs(Arc::new(vec![u32t(), Ty::Str])));
}

#[test]
fn use_parent_substs_seeds_an_empty_builder() {
    let parent = Substs(Arc::new(vec![u32t(), Ty::Str]));
    let s = Substs::build_for_generics(&params(3))
        .use_parent_substs(&parent)
        .fill_with_unknown()
        .build();
    assert_eq!(s, Substs(Arc::new(vec![u32t(), Ty::Str, Ty::Unknown])));
}

#[test]
fn binders_construction_and_views() {
    let b = Binders::new(2, Ty::Str);
    assert_eq!(b.num_binders, 2);
    assert_eq!(b.value, Ty::Str);
    let r = b.as_ref();
    assert_eq!(r.num_binders, 2);
    assert_eq!(r.value, &Ty::Str);
    let owned = r.cloned();
    assert_eq!(owned.num_binders, 2);
    assert_eq!(owned.value, Ty::Str);
}

#[test]
fn binders_map_and_filter_map_keep_the_count() {
    let b = Binders::new(3, 10u32);
    let mapped = b.map(|x| x + 1);
    assert_eq!(mapped.num_binders, 3);
    assert_eq!(mapped.value, 11);

    let some = Binders::new(1, 4u32).filter_map(|x| Some(x * 2)).unwrap();
    assert_eq!(some.num_binders, 1);
    assert_eq!(some.value, 8);
    let none = Binders::new(1, 4u32).filter_map(|_| None::<u32>);
    assert!(none.is_none());
}

#[test]
fn canonical_pairs_a_value_with_its_variable_kinds() {
    let c = Canonical::new(Ty::Str, vec![TyVariableKind::General, TyVariableKind::Integer]);
    assert_eq!(c.value, Ty::Str);
    assert_eq!(c.kinds, vec![TyVariableKind::General, TyVariableKind::Integer]);
}

#[test]
fn identifier_keys_compare_by_value() {
    let a = TypeParamId { parent: GenericDefId::Adt(adt()), local_id: 0 };
    let b = TypeParamId { parent: GenericDefId::Adt(adt()), local_id: 0 };
    assert_eq!(a, b);
    let c = TypeParamId { parent: GenericDefId::Const(hir_ty::ConstId(0)), local_id: 0 };
    assert_ne!(a, c);
    let _ = StaticId(0);
}
