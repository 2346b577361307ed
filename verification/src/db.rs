//! The query port to the surrounding database: the read operations this
//! core consumes, stated as a trait whose contracts tie each result to a
//! spec-level lookup, and an in-memory implementation backed by plain
//! tables.

use vstd::prelude::*;
use crate::ids::{
    AssocContainerId, CallableDefId, CrateId, DefWithBodyId, FunctionId, TraitId, TypeAliasId,
    TypeParam, TypeParamId, GenericDefId, ModuleId,
};
use crate::binders::Binders;
use crate::model::{BindersView, CallableSigView, PredView};
use crate::tys::{lemma_preds_view, preds_view, CallableSig, GenericPredicate};
use crate::walk::TypeWalk;

verus! {

broadcast use vstd::std_specs::vec::group_vec_axioms;

/// The declared return-position `impl Trait` bound sets of one function,
/// in source order.
#[derive(PartialEq, Eq, Debug)]
pub struct ReturnTypeImplTraits {
    pub impl_traits: Vec<ReturnTypeImplTrait>,
}

/// One return-position `impl Trait`: its bounds, closed under the binders
/// of the `impl Trait`'s own implicit self.
#[derive(PartialEq, Eq, Debug)]
pub struct ReturnTypeImplTrait {
    pub bounds: Binders<Vec<GenericPredicate>>,
}

/// The model of one bound set: its binder count and predicate views.
pub open spec fn rpit_model(r: ReturnTypeImplTrait) -> BindersView<Seq<PredView>> {
    BindersView { num_binders: r.bounds.num_binders as nat, value: preds_view(r.bounds.value@) }
}

/// The models of a list of bound sets, in order.
pub open spec fn rpits_model(rs: Seq<ReturnTypeImplTrait>) -> Seq<BindersView<Seq<PredView>>>
    decreases rs,
{
    if rs.len() == 0 {
        Seq::empty()
    } else {
        rpits_model(rs.drop_last()).push(rpit_model(rs.last()))
    }
}

/// Pointwise description of `rpits_model`.
pub broadcast proof fn lemma_rpits_model(rs: Seq<ReturnTypeImplTrait>)
    ensures
        (#[trigger] rpits_model(rs)).len() == rs.len(),
        forall|i: int| 0 <= i < rs.len() ==> rpits_model(rs)[i] == rpit_model(rs[i]),
    decreases rs,
{
    if rs.len() > 0 {
        lemma_rpits_model(rs.drop_last());
        assert(forall|i: int| 0 <= i < rs.len() - 1 ==> rs.drop_last()[i] == rs[i]);
    }
}

/// The read operations this core consumes from the surrounding database.
/// Every query is a pure function of its arguments; each implementation
/// fixes the spec-level result its methods return.
pub trait TypeDatabase {
    /// The declared generic parameter list of a definition, in order.
    spec fn generic_params_spec(&self, def: GenericDefId) -> Seq<TypeParam>;

    fn generic_params(&self, def: GenericDefId) -> (r: Vec<TypeParam>)
        ensures
            r@ == self.generic_params_spec(def),
    ;

    /// The signature of a callable definition, closed under its generic
    /// parameters.
    spec fn callable_item_signature_spec(&self, def: CallableDefId) -> BindersView<
        CallableSigView,
    >;

    fn callable_item_signature(&self, def: CallableDefId) -> (r: Binders<CallableSig>)
        ensures
            r.model() == self.callable_item_signature_spec(def),
    ;

    /// The declared return-position `impl Trait` bound sets of a function,
    /// closed under the function's generic parameters; `None` if it has
    /// none.
    spec fn return_type_impl_traits_spec(&self, func: FunctionId) -> Option<
        BindersView<Seq<BindersView<Seq<PredView>>>>,
    >;

    fn return_type_impl_traits(&self, func: FunctionId) -> (r: Option<Binders<ReturnTypeImplTraits>>)
        ensures
            match r {
                Some(b) => self.return_type_impl_traits_spec(func) == Some(
                    BindersView {
                        num_binders: b.num_binders as nat,
                        value: rpits_model(b.value.impl_traits@),
                    },
                ),
                None => self.return_type_impl_traits_spec(func) is None,
            },
    ;

    /// The predicates attached to one type parameter, each closed under its
    /// own binders.
    spec fn generic_predicates_for_param_spec(&self, param: TypeParamId) -> Seq<
        BindersView<PredView>,
    >;

    fn generic_predicates_for_param(&self, param: TypeParamId) -> (r: Vec<
        Binders<GenericPredicate>,
    >)
        ensures
            r@.len() == self.generic_predicates_for_param_spec(param).len(),
            forall|i: int|
                0 <= i < r@.len() ==> #[trigger] r@[i].model()
                    == self.generic_predicates_for_param_spec(param)[i],
    ;

    /// The future trait of a compilation unit, located by its well-known
    /// language-item name; `None` where the unit declares none.
    spec fn future_trait_spec(&self, krate: CrateId) -> Option<TraitId>;

    fn future_trait(&self, krate: CrateId) -> (r: Option<TraitId>)
        ensures
            r == self.future_trait_spec(krate),
    ;

    /// The compilation unit a body belongs to.
    spec fn body_krate_spec(&self, def: DefWithBodyId) -> CrateId;

    fn body_krate(&self, def: DefWithBodyId) -> (r: CrateId)
        ensures
            r == self.body_krate_spec(def),
    ;

    /// The container that an associated type alias was declared in.
    spec fn type_alias_container_spec(&self, alias: TypeAliasId) -> AssocContainerId;

    fn type_alias_container(&self, alias: TypeAliasId) -> (r: AssocContainerId)
        ensures
            r == self.type_alias_container_spec(alias),
    ;
}

/// A database held in plain tables, for direct construction. Each query
/// answers from the first entry with the queried key, or a fixed fallback:
/// an empty parameter list, no signature binders over an empty signature,
/// no bound sets, no predicates, no future trait, crate zero, a module
/// container.
pub struct InMemoryDatabase {
    pub params: Vec<(GenericDefId, Vec<TypeParam>)>,
    pub sigs: Vec<(CallableDefId, Binders<CallableSig>)>,
    pub rpits: Vec<(FunctionId, Binders<ReturnTypeImplTraits>)>,
    pub param_preds: Vec<(TypeParamId, Vec<Binders<GenericPredicate>>)>,
    pub future_traits: Vec<(CrateId, Option<TraitId>)>,
    pub body_krates: Vec<(DefWithBodyId, CrateId)>,
    pub alias_containers: Vec<(TypeAliasId, AssocContainerId)>,
}

impl InMemoryDatabase {
    /// A database with every table empty.
    pub fn new() -> (r: InMemoryDatabase)
        ensures
            r.params@ =~= Seq::<(GenericDefId, Vec<TypeParam>)>::empty(),
            r.sigs@ =~= Seq::<(CallableDefId, Binders<CallableSig>)>::empty(),
            r.rpits@ =~= Seq::<(FunctionId, Binders<ReturnTypeImplTraits>)>::empty(),
            r.param_preds@ =~= Seq::<(TypeParamId, Vec<Binders<GenericPredicate>>)>::empty(),
            r.future_traits@ =~= Seq::<(CrateId, Option<TraitId>)>::empty(),
            r.body_krates@ =~= Seq::<(DefWithBodyId, CrateId)>::empty(),
            r.alias_containers@ =~= Seq::<(TypeAliasId, AssocContainerId)>::empty(),
    {
        InMemoryDatabase {
            params: Vec::new(),
            sigs: Vec::new(),
            rpits: Vec::new(),
            param_preds: Vec::new(),
            future_traits: Vec::new(),
            body_krates: Vec::new(),
            alias_containers: Vec::new(),
        }
    }
}


/// The models of a list of closed predicates, in order.
pub open spec fn pred_binders_models(ps: Seq<Binders<GenericPredicate>>) -> Seq<
    BindersView<PredView>,
>
    decreases ps,
{
    if ps.len() == 0 {
        Seq::empty()
    } else {
        pred_binders_models(ps.drop_last()).push(ps.last().model())
    }
}

/// Pointwise description of `pred_binders_models`.
pub broadcast proof fn lemma_pred_binders_models(ps: Seq<Binders<GenericPredicate>>)
    ensures
        (#[trigger] pred_binders_models(ps)).len() == ps.len(),
        forall|i: int| 0 <= i < ps.len() ==> pred_binders_models(ps)[i] == ps[i].model(),
    decreases ps,
{
    if ps.len() > 0 {
        lemma_pred_binders_models(ps.drop_last());
        assert(forall|i: int| 0 <= i < ps.len() - 1 ==> ps.drop_last()[i] == ps[i]);
    }
}

fn clone_type_params(v: &Vec<TypeParam>) -> (r: Vec<TypeParam>)
    ensures
        r@ == v@,
{
    let mut out: Vec<TypeParam> = Vec::new();
    let mut i: usize = 0;
    #[verifier::loop_isolation(false)]
    while i < v.len()
        invariant
            i <= v@.len(),
            out@ == v@.take(i as int),
        decreases v@.len() - i,
    {
        out.push(v[i]);
        i += 1;
        proof {
            assert(out@ =~= v@.take(i as int));
        }
    }
    proof {
        assert(v@.take(v@.len() as int) =~= v@);
    }
    out
}

fn clone_preds_list(v: &Vec<GenericPredicate>) -> (r: Vec<GenericPredicate>)
    ensures
        preds_view(r@) == preds_view(v@),
{
    let mut out: Vec<GenericPredicate> = Vec::new();
    let mut i: usize = 0;
    proof {
        lemma_preds_view(v@);
    }
    #[verifier::loop_isolation(false)]
    while i < v.len()
        invariant
            i <= v@.len(),
            out@.len() == i,
            forall|j: int| 0 <= j < i ==> out@[j]@ == v@[j]@,
        decreases v@.len() - i,
    {
        let x = v[i].clone();
        out.push(x);
        i += 1;
    }
    proof {
        lemma_preds_view(out@);
        assert(preds_view(out@) =~= preds_view(v@));
    }
    out
}

fn clone_poly_sig(b: &Binders<CallableSig>) -> (r: Binders<CallableSig>)
    ensures
        r.model() == b.model(),
{
    Binders { num_binders: b.num_binders, value: b.value.clone() }
}

fn clone_pred_binders(v: &Vec<Binders<GenericPredicate>>) -> (r: Vec<Binders<GenericPredicate>>)
    ensures
        r@.len() == v@.len(),
        forall|i: int| 0 <= i < v@.len() ==> #[trigger] r@[i].model() == v@[i].model(),
{
    let mut out: Vec<Binders<GenericPredicate>> = Vec::new();
    let mut i: usize = 0;
    #[verifier::loop_isolation(false)]
    while i < v.len()
        invariant
            i <= v@.len(),
            out@.len() == i,
            forall|j: int| 0 <= j < i ==> #[trigger] out@[j].model() == v@[j].model(),
        decreases v@.len() - i,
    {
        let x = Binders { num_binders: v[i].num_binders, value: v[i].value.clone() };
        out.push(x);
        i += 1;
    }
    out
}

fn clone_rpits(b: &Binders<ReturnTypeImplTraits>) -> (r: Binders<ReturnTypeImplTraits>)
    ensures
        r.num_binders == b.num_binders,
        rpits_model(r.value.impl_traits@) == rpits_model(b.value.impl_traits@),
{
    let list: &Vec<ReturnTypeImplTrait> = &b.value.impl_traits;
    let mut out: Vec<ReturnTypeImplTrait> = Vec::new();
    let mut i: usize = 0;
    proof {
        lemma_rpits_model(list@);
    }
    #[verifier::loop_isolation(false)]
    while i < list.len()
        invariant
            i <= list@.len(),
            out@.len() == i,
            forall|j: int| 0 <= j < i ==> rpit_model(out@[j]) == rpit_model(list@[j]),
        decreases list@.len() - i,
    {
        let inner = clone_preds_list(&list[i].bounds.value);
        let x = ReturnTypeImplTrait {
            bounds: Binders { num_binders: list[i].bounds.num_binders, value: inner },
        };
        out.push(x);
        i += 1;
    }
    proof {
        lemma_rpits_model(out@);
        assert(rpits_model(out@) =~= rpits_model(list@));
    }
    Binders { num_binders: b.num_binders, value: ReturnTypeImplTraits { impl_traits: out } }
}

/// The answer read from the `params` table: the first entry with the
/// given key, or the table's fallback.
pub open spec fn lookup_params(entries: Seq<(GenericDefId, Vec<TypeParam>)>, key: GenericDefId) -> Seq<TypeParam>
    decreases entries,
{
    if entries.len() == 0 {
        Seq::empty()
    } else if entries[0].0 == key {
        entries[0].1@
    } else {
        lookup_params(entries.drop_first(), key)
    }
}

/// The answer read from the `sigs` table: the first entry with the
/// given key, or the table's fallback.
pub open spec fn lookup_sigs(entries: Seq<(CallableDefId, Binders<CallableSig>)>, key: CallableDefId) -> BindersView<CallableSigView>
    decreases entries,
{
    if entries.len() == 0 {
        BindersView { num_binders: 0, value: CallableSigView { params_and_return: Seq::empty(), is_varargs: false } }
    } else if entries[0].0 == key {
        entries[0].1.model()
    } else {
        lookup_sigs(entries.drop_first(), key)
    }
}

/// The answer read from the `rpits` table: the first entry with the
/// given key, or the table's fallback.
pub open spec fn lookup_rpits(entries: Seq<(FunctionId, Binders<ReturnTypeImplTraits>)>, key: FunctionId) -> Option<BindersView<Seq<BindersView<Seq<PredView>>>>>
    decreases entries,
{
    if entries.len() == 0 {
        None
    } else if entries[0].0 == key {
        Some(BindersView { num_binders: entries[0].1.num_binders as nat, value: rpits_model(entries[0].1.value.impl_traits@) })
    } else {
        lookup_rpits(entries.drop_first(), key)
    }
}

/// The answer read from the `param_preds` table: the first entry with the
/// given key, or the table's fallback.
pub open spec fn lookup_param_preds(entries: Seq<(TypeParamId, Vec<Binders<GenericPredicate>>)>, key: TypeParamId) -> Seq<BindersView<PredView>>
    decreases entries,
{
    if entries.len() == 0 {
        Seq::empty()
    } else if entries[0].0 == key {
        pred_binders_models(entries[0].1@)
    } else {
        lookup_param_preds(entries.drop_first(), key)
    }
}

/// The answer read from the `future_traits` table: the first entry with the
/// given key, or the table's fallback.
pub open spec fn lookup_future_traits(entries: Seq<(CrateId, Option<TraitId>)>, key: CrateId) -> Option<TraitId>
    decreases entries,
{
    if entries.len() == 0 {
        None
    } else if entries[0].0 == key {
        entries[0].1
    } else {
        lookup_future_traits(entries.drop_first(), key)
    }
}

/// The answer read from the `body_krates` table: the first entry with the
/// given key, or the table's fallback.
pub open spec fn lookup_body_krates(entries: Seq<(DefWithBodyId, CrateId)>, key: DefWithBodyId) -> CrateId
    decreases entries,
{
    if entries.len() == 0 {
        CrateId(0)
    } else if entries[0].0 == key {
        entries[0].1
    } else {
        lookup_body_krates(entries.drop_first(), key)
    }
}

/// The answer read from the `alias_containers` table: the first entry with the
/// given key, or the table's fallback.
pub open spec fn lookup_alias_containers(entries: Seq<(TypeAliasId, AssocContainerId)>, key: TypeAliasId) -> AssocContainerId
    decreases entries,
{
    if entries.len() == 0 {
        AssocContainerId::Module(ModuleId(0))
    } else if entries[0].0 == key {
        entries[0].1
    } else {
        lookup_alias_containers(entries.drop_first(), key)
    }
}

#[verifier::loop_isolation(false)]
fn find_params(entries: &Vec<(GenericDefId, Vec<TypeParam>)>, key: GenericDefId, i: usize) -> (r: Vec<TypeParam>)
    requires
        i <= entries@.len(),
    ensures
        r@ == lookup_params(entries@.skip(i as int), key),
    decreases entries@.len() - i,
{
    if i >= entries.len() {
        proof {
            assert(entries@.skip(i as int).len() == 0);
        }
        Vec::new()
    } else {
        proof {
            assert(entries@.skip(i as int)[0] == entries@[i as int]);
            assert(entries@.skip(i as int).drop_first() =~= entries@.skip(i as int + 1));
        }
        if entries[i].0 == key {
            clone_type_params(&entries[i].1)
        } else {
            find_params(entries, key, i + 1)
        }
    }
}

#[verifier::loop_isolation(false)]
fn find_sigs(entries: &Vec<(CallableDefId, Binders<CallableSig>)>, key: CallableDefId, i: usize) -> (r: Binders<CallableSig>)
    requires
        i <= entries@.len(),
    ensures
        r.model() == lookup_sigs(entries@.skip(i as int), key),
    decreases entries@.len() - i,
{
    if i >= entries.len() {
        proof {
            assert(entries@.skip(i as int).len() == 0);
        }
        Binders {
            num_binders: 0,
            value: CallableSig {
                params_and_return: std::sync::Arc::new(Vec::new()),
                is_varargs: false,
            },
        }
    } else {
        proof {
            assert(entries@.skip(i as int)[0] == entries@[i as int]);
            assert(entries@.skip(i as int).drop_first() =~= entries@.skip(i as int + 1));
        }
        if entries[i].0 == key {
            clone_poly_sig(&entries[i].1)
        } else {
            find_sigs(entries, key, i + 1)
        }
    }
}

#[verifier::loop_isolation(false)]
fn find_rpits(entries: &Vec<(FunctionId, Binders<ReturnTypeImplTraits>)>, key: FunctionId, i: usize) -> (r: Option<Binders<ReturnTypeImplTraits>>)
    requires
        i <= entries@.len(),
    ensures
        match r {
                Some(b) => lookup_rpits(entries@.skip(i as int), key) == Some(
                    BindersView {
                        num_binders: b.num_binders as nat,
                        value: rpits_model(b.value.impl_traits@),
                    },
                ),
                None => lookup_rpits(entries@.skip(i as int), key) is None,
            },
    decreases entries@.len() - i,
{
    if i >= entries.len() {
        proof {
            assert(entries@.skip(i as int).len() == 0);
        }
        None
    } else {
        proof {
            assert(entries@.skip(i as int)[0] == entries@[i as int]);
            assert(entries@.skip(i as int).drop_first() =~= entries@.skip(i as int + 1));
        }
        if entries[i].0 == key {
            Some(clone_rpits(&entries[i].1))
        } else {
            find_rpits(entries, key, i + 1)
        }
    }
}

#[verifier::loop_isolation(false)]
fn find_param_preds(entries: &Vec<(TypeParamId, Vec<Binders<GenericPredicate>>)>, key: TypeParamId, i: usize) -> (r: Vec<Binders<GenericPredicate>>)
    requires
        i <= entries@.len(),
    ensures
        r@.len() == lookup_param_preds(entries@.skip(i as int), key).len()
                && forall|j: int|
                0 <= j < r@.len() ==> #[trigger] r@[j].model() == lookup_param_preds(
                    entries@.skip(i as int),
                    key,
                )[j],
    decreases entries@.len() - i,
{
    if i >= entries.len() {
        proof {
            assert(entries@.skip(i as int).len() == 0);
        }
        Vec::new()
    } else {
        proof {
            assert(entries@.skip(i as int)[0] == entries@[i as int]);
            assert(entries@.skip(i as int).drop_first() =~= entries@.skip(i as int + 1));
        }
        if entries[i].0 == key {
            proof {
                lemma_pred_binders_models(entries@[i as int].1@);
            }
            clone_pred_binders(&entries[i].1)
        } else {
            find_param_preds(entries, key, i + 1)
        }
    }
}

#[verifier::loop_isolation(false)]
fn find_future_traits(entries: &Vec<(CrateId, Option<TraitId>)>, key: CrateId, i: usize) -> (r: Option<TraitId>)
    requires
        i <= entries@.len(),
    ensures
        r == lookup_future_traits(entries@.skip(i as int), key),
    decreases entries@.len() - i,
{
    if i >= entries.len() {
        proof {
            assert(entries@.skip(i as int).len() == 0);
        }
        None
    } else {
        proof {
            assert(entries@.skip(i as int)[0] == entries@[i as int]);
            assert(entries@.skip(i as int).drop_first() =~= entries@.skip(i as int + 1));
        }
        if entries[i].0 == key {
            entries[i].1
        } else {
            find_future_traits(entries, key, i + 1)
        }
    }
}

#[verifier::loop_isolation(false)]
fn find_body_krates(entries: &Vec<(DefWithBodyId, CrateId)>, key: DefWithBodyId, i: usize) -> (r: CrateId)
    requires
        i <= entries@.len(),
    ensures
        r == lookup_body_krates(entries@.skip(i as int), key),
    decreases entries@.len() - i,
{
    if i >= entries.len() {
        proof {
            assert(entries@.skip(i as int).len() == 0);
        }
        CrateId(0)
    } else {
        proof {
            assert(entries@.skip(i as int)[0] == entries@[i as int]);
            assert(entries@.skip(i as int).drop_first() =~= entries@.skip(i as int + 1));
        }
        if entries[i].0 == key {
            entries[i].1
        } else {
            find_body_krates(entries, key, i + 1)
        }
    }
}

#[verifier::loop_isolation(false)]
fn find_alias_containers(entries: &Vec<(TypeAliasId, AssocContainerId)>, key: TypeAliasId, i: usize) -> (r: AssocContainerId)
    requires
        i <= entries@.len(),
    ensures
        r == lookup_alias_containers(entries@.skip(i as int), key),
    decreases entries@.len() - i,
{
    if i >= entries.len() {
        proof {
            assert(entries@.skip(i as int).len() == 0);
        }
        AssocContainerId::Module(ModuleId(0))
    } else {
        proof {
            assert(entries@.skip(i as int)[0] == entries@[i as int]);
            assert(entries@.skip(i as int).drop_first() =~= entries@.skip(i as int + 1));
        }
        if entries[i].0 == key {
            entries[i].1
        } else {
            find_alias_containers(entries, key, i + 1)
        }
    }
}

impl TypeDatabase for InMemoryDatabase {
    open spec fn generic_params_spec(&self, def: GenericDefId) -> Seq<TypeParam> {
        lookup_params(self.params@, def)
    }

    fn generic_params(&self, def: GenericDefId) -> (r: Vec<TypeParam>) {
        proof {
            assert(self.params@.skip(0) =~= self.params@);
        }
        find_params(&self.params, def, 0)
    }

    open spec fn callable_item_signature_spec(&self, def: CallableDefId) -> BindersView<
        CallableSigView,
    > {
        lookup_sigs(self.sigs@, def)
    }

    fn callable_item_signature(&self, def: CallableDefId) -> (r: Binders<CallableSig>) {
        proof {
            assert(self.sigs@.skip(0) =~= self.sigs@);
        }
        find_sigs(&self.sigs, def, 0)
    }

    open spec fn return_type_impl_traits_spec(&self, func: FunctionId) -> Option<
        BindersView<Seq<BindersView<Seq<PredView>>>>,
    > {
        lookup_rpits(self.rpits@, func)
    }

    fn return_type_impl_traits(&self, func: FunctionId) -> (r: Option<
        Binders<ReturnTypeImplTraits>,
    >) {
        proof {
            assert(self.rpits@.skip(0) =~= self.rpits@);
        }
        find_rpits(&self.rpits, func, 0)
    }

    open spec fn generic_predicates_for_param_spec(&self, param: TypeParamId) -> Seq<
        BindersView<PredView>,
    > {
        lookup_param_preds(self.param_preds@, param)
    }

    fn generic_predicates_for_param(&self, param: TypeParamId) -> (r: Vec<
        Binders<GenericPredicate>,
    >) {
        proof {
            assert(self.param_preds@.skip(0) =~= self.param_preds@);
        }
        find_param_preds(&self.param_preds, param, 0)
    }

    open spec fn future_trait_spec(&self, krate: CrateId) -> Option<TraitId> {
        lookup_future_traits(self.future_traits@, krate)
    }

    fn future_trait(&self, krate: CrateId) -> (r: Option<TraitId>) {
        proof {
            assert(self.future_traits@.skip(0) =~= self.future_traits@);
        }
        find_future_traits(&self.future_traits, krate, 0)
    }

    open spec fn body_krate_spec(&self, def: DefWithBodyId) -> CrateId {
        lookup_body_krates(self.body_krates@, def)
    }

    fn body_krate(&self, def: DefWithBodyId) -> (r: CrateId) {
        proof {
            assert(self.body_krates@.skip(0) =~= self.body_krates@);
        }
        find_body_krates(&self.body_krates, def, 0)
    }

    open spec fn type_alias_container_spec(&self, alias: TypeAliasId) -> AssocContainerId {
        lookup_alias_containers(self.alias_containers@, alias)
    }

    fn type_alias_container(&self, alias: TypeAliasId) -> (r: AssocContainerId) {
        proof {
            assert(self.alias_containers@.skip(0) =~= self.alias_containers@);
        }
        find_alias_containers(&self.alias_containers, alias, 0)
    }
}

/// Clones one closed predicate list, preserving its model.
pub(crate) fn clone_closed_preds(b: &Binders<Vec<GenericPredicate>>) -> (r: Binders<
    Vec<GenericPredicate>,
>)
    ensures
        r.num_binders == b.num_binders,
        preds_view(r.value@) == preds_view(b.value@),
{
    Binders { num_binders: b.num_binders, value: clone_preds_list(&b.value) }
}

} // verus!
