//! Operations that resolve per-definition data through the database port.

use std::sync::Arc;

use hir_ty::{
    param_idx, AdtId, AssocContainerId, Binders, BoundVar, CallableDefId, CallableSig, CrateId,
    DebruijnIndex, DefWithBodyId, ExprId, FnPointer, FnSig, FunctionId, GenericDefId,
    GenericPredicate, ImplId, InMemoryDatabase, IntTy, ProjectionPredicate, ProjectionTy,
    ReturnTypeImplTrait, ReturnTypeImplTraits, Scalar, StructId, Substs, TraitId, TraitRef, Ty,
    TypeAliasId, TypeParam, TypeParamId, TypeParamProvenance, UintTy,
};

fn adt() -> AdtId {
    AdtId::Struct(StructId(1))
}

fn u32t() -> Ty {
    Ty::Scalar(Scalar::Uint(UintTy::U32))
}

fn boolt() -> Ty {
    Ty::Scalar(Scalar::Bool)
}

fn bound(debruijn: u32, index: usize) -> Ty {
    Ty::Bound(BoundVar::new(DebruijnIndex::new(debruijn), index))
}

#[test]
fn projection_trait_ref_reads_the_owning_trait() {
    let mut db = InMemoryDatabase::new();
    db.alias_containers.push((TypeAliasId(8), AssocContainerId::Trait(TraitId(2))));
    let proj = ProjectionTy {
        associated_ty: TypeAliasId(8),
        parameters: Substs(Arc::new(vec![u32t(), boolt()])),
    };
    let tr = proj.trait_ref(&db);
    assert_eq!(tr.trait_, TraitId(2));
    assert_eq!(tr.substs, Substs(Arc::new(vec![u32t(), boolt()])));
}

#[test]
fn associated_type_parent_trait_requires_a_trait_container() {
    let mut db = InMemoryDatabase::new();
    db.alias_containers.push((TypeAliasId(8), AssocContainerId::Trait(TraitId(2))));
    db.alias_containers.push((TypeAliasId(9), AssocContainerId::Impl(ImplId(4))));
    let in_trait = Ty::AssociatedType(TypeAliasId(8), Substs::empty());
    assert_eq!(in_trait.associated_type_parent_trait(&db), Some(TraitId(2)));
    let in_impl = Ty::AssociatedType(TypeAliasId(9), Substs::empty());
    assert_eq!(in_impl.associated_type_parent_trait(&db), None);
    let proj = Ty::Projection(ProjectionTy {
        associated_ty: TypeAliasId(8),
        parameters: Substs::empty(),
    });
    assert_eq!(proj.associated_type_parent_trait(&db), Some(TraitId(2)));
    assert_eq!(Ty::Str.associated_type_parent_trait(&db), None);
}

#[test]
fn predicate_trait_ref_goes_through_projections() {
    let mut db = InMemoryDatabase::new();
    db.alias_containers.push((TypeAliasId(8), AssocContainerId::Trait(TraitId(2))));
    let tr = TraitRef { trait_: TraitId(5), substs: Substs::single(Ty::Str) };
    let implemented = GenericPredicate::Implemented(tr.clone());
    assert_eq!(implemented.trait_ref(&db), Some(tr));

    let projection = GenericPredicate::Projection(ProjectionPredicate {
        projection_ty: ProjectionTy {
            associated_ty: TypeAliasId(8),
            parameters: Substs::single(u32t()),
        },
        ty: boolt(),
    });
    let derived = projection.trait_ref(&db).unwrap();
    assert_eq!(derived.trait_, TraitId(2));
    assert_eq!(derived.substs, Substs::single(u32t()));

    assert_eq!(GenericPredicate::Error.trait_ref(&db), None);
}

fn two_param_db() -> (InMemoryDatabase, Vec<TypeParam>) {
    let mut db = InMemoryDatabase::new();
    let def = GenericDefId::Adt(adt());
    let ps = vec![
        TypeParam {
            id: TypeParamId { parent: def, local_id: 0 },
            provenance: TypeParamProvenance::TypeParamList,
        },
        TypeParam {
            id: TypeParamId { parent: def, local_id: 1 },
            provenance: TypeParamProvenance::ArgumentImplTrait,
        },
    ];
    db.params.push((def, ps.clone()));
    (db, ps)
}

#[test]
fn type_params_and_param_idx_follow_the_declared_list() {
    let (db, ps) = two_param_db();
    let def = GenericDefId::Adt(adt());
    let s = Substs::type_params(&db, def);
    assert_eq!(s.len(), 2);
    assert_eq!(s.at(0), &Ty::Placeholder(ps[0].id));
    assert_eq!(s.at(1), &Ty::Placeholder(ps[1].id));

    assert_eq!(param_idx(&db, ps[1].id), Some(1));
    let foreign = TypeParamId { parent: GenericDefId::Trait(TraitId(9)), local_id: 0 };
    assert_eq!(param_idx(&db, foreign), None);
}

#[test]
fn build_for_def_sizes_the_builder_from_the_database() {
    let (db, _) = two_param_db();
    let def = GenericDefId::Adt(adt());
    let s = Substs::build_for_def(&db, def).push(u32t()).push(boolt()).build();
    assert_eq!(s, Substs(Arc::new(vec![u32t(), boolt()])));

    let unknown_def = GenericDefId::Trait(TraitId(77));
    let empty = Substs::build_for_def(&db, unknown_def).build();
    assert_eq!(empty, Substs::empty());
}

#[test]
fn callable_sig_instantiates_a_function_definition() {
    let mut db = InMemoryDatabase::new();
    let def = CallableDefId::FunctionId(FunctionId(4));
    // fn f<T>(x: T) -> bool, stored as a signature under one binder
    let stored = Binders::new(
        1,
        CallableSig {
            params_and_return: Arc::new(vec![bound(0, 0), boolt()]),
            is_varargs: false,
        },
    );
    db.sigs.push((def, stored));
    let t = Ty::FnDef(def, Substs::single(u32t()));
    let sig = t.callable_sig(&db).unwrap();
    assert_eq!(sig.params(), vec![u32t()]);
    assert_eq!(sig.ret(), &boolt());
}

#[test]
fn callable_sig_of_a_closure_reads_its_first_argument() {
    let db = InMemoryDatabase::new();
    let fn_ptr = Ty::Function(FnPointer {
        num_args: 1,
        sig: FnSig { variadic: false },
        substs: Substs(Arc::new(vec![Ty::Scalar(Scalar::Int(IntTy::I32)), Ty::Str])),
    });
    let closure = Ty::Closure(
        DefWithBodyId::Function(FunctionId(4)),
        ExprId(2),
        Substs::single(fn_ptr),
    );
    let sig = closure.callable_sig(&db).unwrap();
    assert_eq!(sig.params(), vec![Ty::Scalar(Scalar::Int(IntTy::I32))]);
    assert_eq!(sig.ret(), &Ty::Str);

    assert!(Ty::Str.callable_sig(&db).is_none());
}

#[test]
fn async_block_bounds_name_the_future_trait() {
    let mut db = InMemoryDatabase::new();
    let body = DefWithBodyId::Function(FunctionId(3));
    db.body_krates.push((body, CrateId(1)));
    db.future_traits.push((CrateId(1), Some(TraitId(42))));
    let t = Ty::OpaqueType(
        hir_ty::OpaqueTyId::AsyncBlockTypeImplTrait(body, ExprId(0)),
        Substs::single(u32t()),
    );
    let bounds = t.impl_trait_bounds(&db).unwrap();
    assert_eq!(
        bounds,
        vec![GenericPredicate::Implemented(TraitRef {
            trait_: TraitId(42),
            substs: Substs::empty(),
        })]
    );
}

#[test]
fn async_block_bounds_need_a_future_trait() {
    let mut db = InMemoryDatabase::new();
    let body = DefWithBodyId::Function(FunctionId(3));
    db.body_krates.push((body, CrateId(1)));
    // crate 1 declares no future trait
    let t = Ty::OpaqueType(
        hir_ty::OpaqueTyId::AsyncBlockTypeImplTrait(body, ExprId(0)),
        Substs::empty(),
    );
    assert_eq!(t.impl_trait_bounds(&db), None);

    let rpit = Ty::OpaqueType(
        hir_ty::OpaqueTyId::ReturnTypeImplTrait(FunctionId(3), 0),
        Substs::empty(),
    );
    assert_eq!(rpit.impl_trait_bounds(&db), None);
}

#[test]
fn return_position_bounds_are_instantiated_with_the_opaque_arguments() {
    let mut db = InMemoryDatabase::new();
    let func = FunctionId(6);
    // the declared bound set: Implemented(T, [Bound(1, 0)]) under one
    // binder of its own, closed under one function-level binder
    let bounds = Binders::new(
        1,
        vec![GenericPredicate::Implemented(TraitRef {
            trait_: TraitId(13),
            substs: Substs(Arc::new(vec![bound(1, 0)])),
        })],
    );
    let stored = Binders::new(1, ReturnTypeImplTraits {
        impl_traits: vec![ReturnTypeImplTrait { bounds }],
    });
    db.rpits.push((func, stored));

    let t = Ty::Opaque(hir_ty::OpaqueTy {
        opaque_ty_id: hir_ty::OpaqueTyId::ReturnTypeImplTrait(func, 0),
        parameters: Substs::single(u32t()),
    });
    let got = t.impl_trait_bounds(&db).unwrap();
    assert_eq!(
        got,
        vec![GenericPredicate::Implemented(TraitRef {
            trait_: TraitId(13),
            substs: Substs(Arc::new(vec![u32t()])),
        })]
    );
}

#[test]
fn return_position_bounds_absent_from_the_database() {
    let db = InMemoryDatabase::new();
    let t = Ty::Opaque(hir_ty::OpaqueTy {
        opaque_ty_id: hir_ty::OpaqueTyId::ReturnTypeImplTrait(FunctionId(6), 0),
        parameters: Substs::empty(),
    });
    assert_eq!(t.impl_trait_bounds(&db), None);
}

#[test]
fn argument_impl_trait_placeholders_read_their_predicates() {
    let (mut db, ps) = two_param_db();
    let pred = GenericPredicate::Implemented(TraitRef {
        trait_: TraitId(21),
        substs: Substs::single(Ty::Placeholder(ps[1].id)),
    });
    db.param_preds.push((ps[1].id, vec![Binders::new(0, pred.clone())]));

    // declared through an argument-position impl Trait: predicates apply
    let arg_impl_trait = Ty::Placeholder(ps[1].id);
    assert_eq!(arg_impl_trait.impl_trait_bounds(&db), Some(vec![pred]));

    // an ordinary list parameter has no such bounds
    let plain = Ty::Placeholder(ps[0].id);
    assert_eq!(plain.impl_trait_bounds(&db), None);

    assert_eq!(Ty::Str.impl_trait_bounds(&db), None);
}
