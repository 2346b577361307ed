//! Construction and inspection of type terms.

use std::sync::Arc;

use hir_ty::{
    AdtId, BuiltinType, CallableDefId, CallableSig, DefWithBodyId, ExprId, FnPointer, FnSig,
    FunctionId, GenericDefId, GenericPredicate, InMemoryDatabase, IntTy, Mutability, Rawness,
    Scalar, StructId, Substs, TraitId, TraitRef, Ty, TypeAliasId, UintTy,
};

fn adt() -> AdtId {
    AdtId::Struct(StructId(7))
}

fn substs2(a: Ty, b: Ty) -> Substs {
    Substs(Arc::new(vec![a, b]))
}

#[test]
fn builtin_maps_primitives() {
    assert_eq!(Ty::builtin(BuiltinType::Bool), Ty::Scalar(Scalar::Bool));
    assert_eq!(Ty::builtin(BuiltinType::Char), Ty::Scalar(Scalar::Char));
    assert_eq!(Ty::builtin(BuiltinType::Str), Ty::Str);
    assert_eq!(
        Ty::builtin(BuiltinType::Int(IntTy::I32)),
        Ty::Scalar(Scalar::Int(IntTy::I32))
    );
    assert_eq!(
        Ty::builtin(BuiltinType::Uint(UintTy::U64)),
        Ty::Scalar(Scalar::Uint(UintTy::U64))
    );
}

#[test]
fn unit_is_empty_tuple() {
    assert_eq!(Ty::unit(), Ty::Tuple(0, Substs::empty()));
}

#[test]
fn is_never_and_is_unknown() {
    assert!(Ty::Never.is_never());
    assert!(!Ty::Str.is_never());
    assert!(Ty::Unknown.is_unknown());
    assert!(!Ty::Never.is_unknown());
}

#[test]
fn as_adt_and_as_tuple() {
    let args = substs2(Ty::Scalar(Scalar::Bool), Ty::Str);
    let t = Ty::Adt(adt(), args.clone());
    let (id, got) = t.as_adt().unwrap();
    assert_eq!(id, adt());
    assert_eq!(got, &args);
    assert!(Ty::Str.as_adt().is_none());

    let tup = Ty::Tuple(2, args.clone());
    assert_eq!(tup.as_tuple().unwrap(), &args);
    assert!(t.as_tuple().is_none());
}

#[test]
fn as_generic_def_covers_the_keyed_constructors() {
    let t = Ty::Adt(adt(), Substs::empty());
    assert_eq!(t.as_generic_def(), Some(GenericDefId::Adt(adt())));
    let f = Ty::FnDef(CallableDefId::FunctionId(FunctionId(3)), Substs::empty());
    assert_eq!(f.as_generic_def(), Some(GenericDefId::Function(FunctionId(3))));
    let a = Ty::AssociatedType(TypeAliasId(4), Substs::empty());
    assert_eq!(a.as_generic_def(), Some(GenericDefId::TypeAlias(TypeAliasId(4))));
    let g = Ty::ForeignType(TypeAliasId(5));
    assert_eq!(g.as_generic_def(), Some(GenericDefId::TypeAlias(TypeAliasId(5))));
    assert_eq!(Ty::Str.as_generic_def(), None);
}

#[test]
fn as_fn_def_only_for_functions() {
    let f = Ty::FnDef(CallableDefId::FunctionId(FunctionId(3)), Substs::empty());
    assert_eq!(f.as_fn_def(), Some(FunctionId(3)));
    let ctor = Ty::FnDef(CallableDefId::StructId(StructId(9)), Substs::empty());
    assert_eq!(ctor.as_fn_def(), None);
}

#[test]
fn references_and_pointers() {
    let inner = Ty::Scalar(Scalar::Uint(UintTy::U8));
    let r = Ty::Ref(Mutability::Shared, Substs::single(inner.clone()));
    let (got, m) = r.as_reference().unwrap();
    assert_eq!(got, &inner);
    assert_eq!(m, Mutability::Shared);
    assert!(inner.as_reference().is_none());

    let p = Ty::RawPtr(Mutability::Mut, Substs::single(inner.clone()));
    let (got, raw, m) = p.as_reference_or_ptr().unwrap();
    assert_eq!(got, &inner);
    assert_eq!(raw, Rawness::RawPtr);
    assert_eq!(m, Mutability::Mut);
    assert!(p.as_reference().is_none());

    assert_eq!(r.builtin_deref(), Some(inner.clone()));
    assert_eq!(p.builtin_deref(), Some(inner.clone()));
    assert_eq!(inner.builtin_deref(), None);
}

#[test]
fn strip_references_reaches_the_innermost_type() {
    let base = Ty::Scalar(Scalar::Bool);
    let once = Ty::Ref(Mutability::Shared, Substs::single(base.clone()));
    let twice = Ty::Ref(Mutability::Mut, Substs::single(once.clone()));
    assert_eq!(twice.strip_references(), &base);
    assert_eq!(base.strip_references(), &base);
}

#[test]
fn equals_ctor_matches_shape_not_arguments() {
    let a = Ty::Tuple(2, substs2(Ty::Str, Ty::Str));
    let b = Ty::Tuple(
        2,
        substs2(Ty::Scalar(Scalar::Bool), Ty::Scalar(Scalar::Bool)),
    );
    // same arity, different arguments: same constructor but unequal values
    assert!(a.equals_ctor(&b));
    assert!(b.equals_ctor(&a));
    assert_ne!(a, b);
    assert!(a.equals_ctor(&a));

    let c = Ty::Tuple(3, Substs(Arc::new(vec![Ty::Str, Ty::Str, Ty::Str])));
    assert!(!a.equals_ctor(&c));
}

#[test]
fn equals_ctor_distinguishes_mutability_and_keys() {
    let u8t = Ty::Scalar(Scalar::Uint(UintTy::U8));
    let shared = Ty::Ref(Mutability::Shared, Substs::single(u8t.clone()));
    let muta = Ty::Ref(Mutability::Mut, Substs::single(u8t.clone()));
    assert!(!shared.equals_ctor(&muta));

    let x = Ty::Adt(AdtId::Struct(StructId(1)), Substs::empty());
    let y = Ty::Adt(AdtId::Struct(StructId(2)), Substs::empty());
    assert!(!x.equals_ctor(&y));
    assert!(!x.equals_ctor(&shared));
}

#[test]
fn equals_ctor_rejects_sentinels_even_against_themselves() {
    assert!(!Ty::Unknown.equals_ctor(&Ty::Unknown));
}

#[test]
fn dyn_trait_ref_reads_the_principal_trait_only() {
    let tr = TraitRef { trait_: TraitId(11), substs: Substs::single(Ty::Str) };
    let d = Ty::Dyn(Arc::new(vec![GenericPredicate::Implemented(tr.clone())]));
    assert_eq!(d.dyn_trait_ref(), Some(&tr));
    assert_eq!(d.dyn_trait(), Some(TraitId(11)));

    let err_first = Ty::Dyn(Arc::new(vec![
        GenericPredicate::Error,
        GenericPredicate::Implemented(tr.clone()),
    ]));
    assert_eq!(err_first.dyn_trait_ref(), None);
    assert_eq!(err_first.dyn_trait(), None);

    let empty = Ty::Dyn(Arc::new(Vec::new()));
    assert_eq!(empty.dyn_trait_ref(), None);
    assert_eq!(Ty::Str.dyn_trait_ref(), None);
}

#[test]
fn apply_substs_replaces_the_argument_list() {
    let u32t = Ty::Scalar(Scalar::Uint(UintTy::U32));
    let boolt = Ty::Scalar(Scalar::Bool);
    let t = Ty::Adt(adt(), substs2(u32t, boolt));
    let replaced = t.apply_substs(substs2(Ty::Str, Ty::Str));
    assert_eq!(replaced, Ty::Adt(adt(), substs2(Ty::Str, Ty::Str)));

    // a term without an argument slot is unchanged
    assert_eq!(Ty::Str.apply_substs(Substs::empty()), Ty::Str);
}

#[test]
fn substs_returns_the_top_level_slot() {
    let args = substs2(Ty::Str, Ty::Never);
    let t = Ty::Adt(adt(), args.clone());
    assert_eq!(t.substs(), Some(&args));
    let f = Ty::Function(FnPointer {
        num_args: 1,
        sig: FnSig { variadic: false },
        substs: args.clone(),
    });
    assert_eq!(f.substs(), Some(&args));
    assert_eq!(Ty::Never.substs(), None);
}

#[test]
fn fn_ptr_round_trips_through_callable_sig() {
    let i32t = Ty::Scalar(Scalar::Int(IntTy::I32));
    let boolt = Ty::Scalar(Scalar::Bool);
    let sig = CallableSig::from_params_and_return(
        vec![i32t.clone(), boolt.clone()],
        Ty::Str,
        false,
    );
    let t = Ty::fn_ptr(sig);
    match &t {
        Ty::Function(fp) => {
            assert_eq!(fp.num_args, 2);
            assert_eq!(fp.sig, FnSig { variadic: false });
        }
        _ => panic!("expected a function pointer type"),
    }
    let db = InMemoryDatabase::new();
    let round = t.callable_sig(&db).unwrap();
    assert_eq!(round.params(), vec![i32t, boolt]);
    assert_eq!(round.ret(), &Ty::Str);
    assert!(!round.is_varargs);
}

#[test]
fn callable_sig_reads_sharing_constructors() {
    let args = substs2(Ty::Str, Ty::Never);
    let from_substs = CallableSig::from_substs(&args);
    assert_eq!(from_substs.params(), vec![Ty::Str]);
    assert_eq!(from_substs.ret(), &Ty::Never);
    assert!(!from_substs.is_varargs);

    let fp = FnPointer { num_args: 1, sig: FnSig { variadic: true }, substs: args };
    let from_ptr = CallableSig::from_fn_ptr(&fp);
    assert_eq!(from_ptr.params(), vec![Ty::Str]);
    assert_eq!(from_ptr.ret(), &Ty::Never);
    assert!(from_ptr.is_varargs);
}

#[test]
fn trait_ref_self_ty_is_the_first_argument() {
    let tr = TraitRef {
        trait_: TraitId(1),
        substs: substs2(Ty::Str, Ty::Never),
    };
    assert_eq!(tr.self_ty(), &Ty::Str);
}

#[test]
fn predicate_kind_tests() {
    let tr = TraitRef { trait_: TraitId(1), substs: Substs::single(Ty::Str) };
    let p = GenericPredicate::Implemented(tr);
    assert!(p.is_implemented());
    assert!(!p.is_error());
    assert!(GenericPredicate::Error.is_error());
    assert!(!GenericPredicate::Error.is_implemented());
}

#[test]
fn cloning_shares_the_argument_list() {
    let closure = Ty::Closure(
        DefWithBodyId::Function(FunctionId(1)),
        ExprId(2),
        substs2(Ty::Str, Ty::Unknown),
    );
    let copy = closure.clone();
    assert_eq!(copy, closure);
}
