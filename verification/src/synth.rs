//! The trait synthesizer: from a trait declaration to the full
//! description of its companion mock — one optional tracker field with a
//! getter/setter pair per instance method, the fallback rules, the
//! static-method storage routed through a trait-scoped singleton, and the
//! supertrait methods merged in from the registry.

use crate::classify::{parse_args, parse_return_type, spec_fn_args, FnArgs, FnArgsView};
use crate::dispatch::{spec_fallback_branch, fallback_branch, FallbackBranch};
use crate::model::{
    receiver_is_instance, receiver_is_mutable, receiver_takes_ownership, GenError, MethodView,
    TraitDecl, TraitItemDecl, TraitItemView, TraitView,
};
use crate::names::concat_ident;
use crate::registry::{spec_find, TraitRegistry};
use vstd::prelude::*;

verus! {

/// The return type a generated method declares: the declared type, or
/// unit when the declaration had none.
pub open spec fn spec_return_type(ret: Option<Seq<char>>) -> Seq<char> {
    match ret {
        None => "()"@,
        Some(t) => t,
    }
}

/// The mock type's name and its per-method tracker type's name for a
/// trait: `Mock<name>` and `MockMethodFor<name>`.
pub fn generate_mock_method_name(trait_name: &str) -> (r: (String, String))
    ensures
        r.0@ == "Mock"@ + trait_name@,
        r.1@ == "MockMethodFor"@ + trait_name@,
{
    (concat_ident("Mock", trait_name), concat_ident("MockMethodFor", trait_name))
}

/// The name of the trait-scoped singleton accessor: `Static_<name>`.
pub fn generate_static_name(base: &str) -> (r: String)
    ensures
        r@ == "Static_"@ + base@,
{
    concat_ident("Static_", base)
}

/// The plan for one mocked instance method: the mock struct carries an
/// optional tracker under the method's own name, the getter and setter
/// carry the derived names, and the generated method body follows the
/// fallback branch.
#[derive(Clone, Debug)]
pub struct InstanceMethodPlan {
    /// The method's declared name; also the mock's field name.
    pub method_name: String,
    /// `method_<name>`: returns a fresh tracker.
    pub getter_name: String,
    /// `set_<name>`: installs a configured tracker.
    pub setter_name: String,
    /// The return type the tracker is instantiated at.
    pub return_type: String,
    /// Whether the declaration had no return type.
    pub no_return: bool,
    /// Whether the generated method keeps an `unsafe` qualifier.
    pub is_unsafe: bool,
    /// The classified arguments.
    pub args: FnArgs,
    /// The branch taken when the tracker yields nothing.
    pub fallback: FallbackBranch,
}

/// Spec-level image of an [`InstanceMethodPlan`].
#[verifier::ext_equal]
pub struct InstanceMethodPlanView {
    pub method_name: Seq<char>,
    pub getter_name: Seq<char>,
    pub setter_name: Seq<char>,
    pub return_type: Seq<char>,
    pub no_return: bool,
    pub is_unsafe: bool,
    pub args: FnArgsView,
    pub fallback: FallbackBranch,
}

impl View for InstanceMethodPlan {
    type V = InstanceMethodPlanView;

    open spec fn view(&self) -> InstanceMethodPlanView {
        InstanceMethodPlanView {
            method_name: self.method_name@,
            getter_name: self.getter_name@,
            setter_name: self.setter_name@,
            return_type: self.return_type@,
            no_return: self.no_return,
            is_unsafe: self.is_unsafe,
            args: self.args@,
            fallback: self.fallback,
        }
    }
}

/// The plan an instance method `m` gets, with object fallback allowed or
/// not at its position.
pub open spec fn spec_instance_plan(m: MethodView, allow: bool) -> InstanceMethodPlanView {
    InstanceMethodPlanView {
        method_name: m.name,
        getter_name: "method_"@ + m.name,
        setter_name: "set_"@ + m.name,
        return_type: spec_return_type(m.ret),
        no_return: m.ret is None,
        is_unsafe: m.is_unsafe,
        args: spec_fn_args(m),
        fallback: spec_fallback_branch(
            receiver_takes_ownership(m.receiver),
            allow,
            receiver_is_mutable(m.receiver),
        ),
    }
}

/// The plan for one static trait method, routed through the trait-scoped
/// singleton: its tracker type, and the getter/setter/clear trio against
/// global storage.
#[derive(Clone, Debug)]
pub struct StaticMethodPlan {
    /// The method's declared name; also the singleton's field name.
    pub method_name: String,
    /// `<trait>_Method_<name>`: the tracker type generated for it.
    pub tracker_type_name: String,
    /// `method_<name>`: returns a fresh tracker.
    pub getter_name: String,
    /// `set_<name>`: installs a tracker into the singleton.
    pub setter_name: String,
    /// `clear_<name>`: empties the singleton's slot.
    pub clear_name: String,
    /// The return type the tracker is instantiated at.
    pub return_type: String,
    /// Whether the declaration had no return type.
    pub no_return: bool,
    /// Whether the generated method keeps an `unsafe` qualifier.
    pub is_unsafe: bool,
    /// The classified arguments.
    pub args: FnArgs,
}

/// Spec-level image of a [`StaticMethodPlan`].
#[verifier::ext_equal]
pub struct StaticMethodPlanView {
    pub method_name: Seq<char>,
    pub tracker_type_name: Seq<char>,
    pub getter_name: Seq<char>,
    pub setter_name: Seq<char>,
    pub clear_name: Seq<char>,
    pub return_type: Seq<char>,
    pub no_return: bool,
    pub is_unsafe: bool,
    pub args: FnArgsView,
}

impl View for StaticMethodPlan {
    type V = StaticMethodPlanView;

    open spec fn view(&self) -> StaticMethodPlanView {
        StaticMethodPlanView {
            method_name: self.method_name@,
            tracker_type_name: self.tracker_type_name@,
            getter_name: self.getter_name@,
            setter_name: self.setter_name@,
            clear_name: self.clear_name@,
            return_type: self.return_type@,
            no_return: self.no_return,
            is_unsafe: self.is_unsafe,
            args: self.args@,
        }
    }
}

/// The plan a static method `m` of trait `trait_name` gets.
pub open spec fn spec_static_plan(trait_name: Seq<char>, m: MethodView) -> StaticMethodPlanView {
    StaticMethodPlanView {
        method_name: m.name,
        tracker_type_name: trait_name + "_Method_"@ + m.name,
        getter_name: "method_"@ + m.name,
        setter_name: "set_"@ + m.name,
        clear_name: "clear_"@ + m.name,
        return_type: spec_return_type(m.ret),
        no_return: m.ret is None,
        is_unsafe: m.is_unsafe,
        args: spec_fn_args(m),
    }
}

/// Everything the synthesizer derives from a trait's method list.
#[derive(Clone, Debug)]
pub struct TraitFn {
    /// One plan per instance method, in declaration order.
    pub instance_methods: Vec<InstanceMethodPlan>,
    /// One plan per static method, in declaration order.
    pub static_methods: Vec<StaticMethodPlan>,
    /// Whether the mock struct carries the boxed fallback-object field:
    /// true only when fallback was allowed to begin with and no static
    /// method occurred anywhere in the trait.
    pub has_fallback_field: bool,
}

/// The first rejection among the first `n` trait items: a non-method
/// item, or a method returning `Self`.
pub open spec fn spec_first_item_error(items: Seq<TraitItemView>, n: int) -> Option<GenError>
    decreases n,
{
    if n <= 0 {
        None
    } else {
        match spec_first_item_error(items, n - 1) {
            Some(e) => Some(e),
            None => match items[n - 1] {
                TraitItemView::Method(m) => if m.ret == Some("Self"@) {
                    Some(GenError::SelfReturn)
                } else {
                    None
                },
                TraitItemView::Unsupported => Some(GenError::UnsupportedTraitItem),
            },
        }
    }
}

/// The synthesizer's walk over the first `n` trait items: the instance
/// plans, the static plans, and whether object fallback is still allowed
/// after them. A static method disables object fallback for every later
/// method and for the mock as a whole.
pub open spec fn spec_walk(
    trait_name: Seq<char>,
    items: Seq<TraitItemView>,
    n: int,
    allow0: bool,
) -> (Seq<InstanceMethodPlanView>, Seq<StaticMethodPlanView>, bool)
    decreases n,
{
    if n <= 0 {
        (Seq::empty(), Seq::empty(), allow0)
    } else {
        let prev = spec_walk(trait_name, items, n - 1, allow0);
        match items[n - 1] {
            TraitItemView::Method(m) => if receiver_is_instance(m.receiver) {
                (prev.0.push(spec_instance_plan(m, prev.2)), prev.1, prev.2)
            } else {
                (prev.0, prev.1.push(spec_static_plan(trait_name, m)), false)
            },
            TraitItemView::Unsupported => prev,
        }
    }
}

/// How many of the first `n` items are instance methods.
pub open spec fn spec_num_instance(items: Seq<TraitItemView>, n: int) -> int
    decreases n,
{
    if n <= 0 {
        0
    } else {
        spec_num_instance(items, n - 1) + (match items[n - 1] {
            TraitItemView::Method(m) => if receiver_is_instance(m.receiver) {
                1int
            } else {
                0int
            },
            TraitItemView::Unsupported => 0int,
        })
    }
}

/// How many of the first `n` items are static methods.
pub open spec fn spec_num_static(items: Seq<TraitItemView>, n: int) -> int
    decreases n,
{
    if n <= 0 {
        0
    } else {
        spec_num_static(items, n - 1) + (match items[n - 1] {
            TraitItemView::Method(m) => if receiver_is_instance(m.receiver) {
                0int
            } else {
                1int
            },
            TraitItemView::Unsupported => 0int,
        })
    }
}

/// The mock's shape is pinned by the declaration: one instance plan —
/// one optional tracker field with its getter/setter pair — per instance
/// method, one static plan per static method, and the fallback-object
/// field exactly when fallback was allowed and the trait has no static
/// method.
pub proof fn lemma_mock_shape(
    trait_name: Seq<char>,
    items: Seq<TraitItemView>,
    n: int,
    allow0: bool,
)
    requires
        0 <= n <= items.len(),
    ensures
        spec_walk(trait_name, items, n, allow0).0.len() == spec_num_instance(items, n),
        spec_walk(trait_name, items, n, allow0).1.len() == spec_num_static(items, n),
        spec_walk(trait_name, items, n, allow0).2 == (allow0 && spec_num_static(items, n) == 0),
    decreases n,
{
    if n > 0 {
        lemma_mock_shape(trait_name, items, n - 1, allow0);
    }
}

/// An error found among the first `i` items decides the whole scan.
proof fn lemma_first_error_monotone(items: Seq<TraitItemView>, i: int, n: int)
    requires
        0 <= i <= n <= items.len(),
        spec_first_item_error(items, i) is Some,
    ensures
        spec_first_item_error(items, n) == spec_first_item_error(items, i),
    decreases n - i,
{
    if n > i {
        lemma_first_error_monotone(items, i, n - 1);
    }
}

proof fn lemma_append_left_injective(p: Seq<char>, a: Seq<char>, b: Seq<char>)
    requires
        p + a == p + b,
    ensures
        a == b,
{
    assert((p + a).skip(p.len() as int) =~= a);
    assert((p + b).skip(p.len() as int) =~= b);
}

/// Distinct methods get distinct accessors and distinct tracker slots:
/// the derived getter, setter and field names collide only when the
/// method names do, so no two methods of one mock share any state.
pub proof fn lemma_accessor_names_distinct(a: Seq<char>, b: Seq<char>)
    requires
        a != b,
    ensures
        "method_"@ + a != "method_"@ + b,
        "set_"@ + a != "set_"@ + b,
        "clear_"@ + a != "clear_"@ + b,
{
    if "method_"@ + a == "method_"@ + b {
        lemma_append_left_injective("method_"@, a, b);
    }
    if "set_"@ + a == "set_"@ + b {
        lemma_append_left_injective("set_"@, a, b);
    }
    if "clear_"@ + a == "clear_"@ + b {
        lemma_append_left_injective("clear_"@, a, b);
    }
}

proof fn lemma_walk_plan_names(
    trait_name: Seq<char>,
    items: Seq<TraitItemView>,
    n: int,
    allow0: bool,
    idx: int,
)
    requires
        0 <= n <= items.len(),
        0 <= idx < spec_walk(trait_name, items, n, allow0).0.len(),
    ensures
        spec_walk(trait_name, items, n, allow0).0[idx].getter_name == "method_"@ + spec_walk(
            trait_name,
            items,
            n,
            allow0,
        ).0[idx].method_name,
        spec_walk(trait_name, items, n, allow0).0[idx].setter_name == "set_"@ + spec_walk(
            trait_name,
            items,
            n,
            allow0,
        ).0[idx].method_name,
    decreases n,
{
    if n > 0 {
        let prev = spec_walk(trait_name, items, n - 1, allow0);
        if idx < prev.0.len() {
            lemma_walk_plan_names(trait_name, items, n - 1, allow0, idx);
        }
    }
}

/// No two methods of one mock share any state or accessor: distinct
/// method names give the two plans distinct tracker fields, distinct
/// getters and distinct setters.
pub proof fn lemma_plan_accessors_distinct(
    trait_name: Seq<char>,
    items: Seq<TraitItemView>,
    n: int,
    allow0: bool,
    j: int,
    k: int,
)
    requires
        0 <= n <= items.len(),
        0 <= j < spec_walk(trait_name, items, n, allow0).0.len(),
        0 <= k < spec_walk(trait_name, items, n, allow0).0.len(),
        spec_walk(trait_name, items, n, allow0).0[j].method_name != spec_walk(
            trait_name,
            items,
            n,
            allow0,
        ).0[k].method_name,
    ensures
        spec_walk(trait_name, items, n, allow0).0[j].getter_name != spec_walk(
            trait_name,
            items,
            n,
            allow0,
        ).0[k].getter_name,
        spec_walk(trait_name, items, n, allow0).0[j].setter_name != spec_walk(
            trait_name,
            items,
            n,
            allow0,
        ).0[k].setter_name,
{
    lemma_walk_plan_names(trait_name, items, n, allow0, j);
    lemma_walk_plan_names(trait_name, items, n, allow0, k);
    lemma_accessor_names_distinct(
        spec_walk(trait_name, items, n, allow0).0[j].method_name,
        spec_walk(trait_name, items, n, allow0).0[k].method_name,
    );
}

/// Walks a trait's items and derives the per-method plans. `allow0` says
/// whether object fallback is allowed when the walk starts (it is not
/// for a `Sized`-bound trait, nor for a supertrait's re-expansion).
/// Rejects non-method items and methods returning `Self`, at the first
/// offender.
pub fn generate_trait_fns(tr: &TraitDecl, allow_object_fallback: bool) -> (r: Result<
    TraitFn,
    GenError,
>)
    ensures
        match r {
            Ok(plan) => {
                &&& spec_first_item_error(tr@.items, tr@.items.len() as int) is None
                &&& plan.instance_methods@.map_values(|p: InstanceMethodPlan| p@) == spec_walk(
                    tr@.name,
                    tr@.items,
                    tr@.items.len() as int,
                    allow_object_fallback,
                ).0
                &&& plan.static_methods@.map_values(|p: StaticMethodPlan| p@) == spec_walk(
                    tr@.name,
                    tr@.items,
                    tr@.items.len() as int,
                    allow_object_fallback,
                ).1
                &&& plan.has_fallback_field == spec_walk(
                    tr@.name,
                    tr@.items,
                    tr@.items.len() as int,
                    allow_object_fallback,
                ).2
            },
            Err(e) => spec_first_item_error(tr@.items, tr@.items.len() as int) == Some(e),
        },
{
    let self_ty: String = "Self".to_owned();
    let mut instance_methods: Vec<InstanceMethodPlan> = Vec::new();
    let mut static_methods: Vec<StaticMethodPlan> = Vec::new();
    let mut allow = allow_object_fallback;
    let n = tr.items.len();
    let mut i: usize = 0;
    proof {
        assert(tr.items@.len() == tr@.items.len());
    }
    while i < n
        invariant
            i <= n,
            n == tr@.items.len(),
            tr@.items == tr.items@.map_values(|it: TraitItemDecl| it@),
            self_ty@ == "Self"@,
            spec_first_item_error(tr@.items, i as int) is None,
            instance_methods@.map_values(|p: InstanceMethodPlan| p@) == spec_walk(
                tr@.name,
                tr@.items,
                i as int,
                allow_object_fallback,
            ).0,
            static_methods@.map_values(|p: StaticMethodPlan| p@) == spec_walk(
                tr@.name,
                tr@.items,
                i as int,
                allow_object_fallback,
            ).1,
            allow == spec_walk(tr@.name, tr@.items, i as int, allow_object_fallback).2,
        decreases n - i,
    {
        let ghost prev_instance = instance_methods@.map_values(|p: InstanceMethodPlan| p@);
        let ghost prev_static = static_methods@.map_values(|p: StaticMethodPlan| p@);
        proof {
            assert(tr@.items[i as int] == tr.items@[i as int]@);
        }
        match &tr.items[i] {
            TraitItemDecl::Method(m) => {
                let is_self_ret = match &m.ret {
                    Some(t) => *t == self_ty,
                    None => false,
                };
                if is_self_ret {
                    proof {
                        assert(spec_first_item_error(tr@.items, i + 1) == Some(
                            GenError::SelfReturn,
                        ));
                        lemma_first_error_monotone(tr@.items, i + 1, tr@.items.len() as int);
                    }
                    return Err(GenError::SelfReturn);
                }
                let fn_args = parse_args(m);
                let (no_return, return_type) = parse_return_type(&m.ret);
                let is_instance = fn_args.is_instance_method;
                if is_instance {
                    let takes_ownership = fn_args.takes_self_ownership;
                    let mutable = fn_args.mutable_status;
                    let plan = InstanceMethodPlan {
                        method_name: m.name.clone(),
                        getter_name: concat_ident("method_", m.name.as_str()),
                        setter_name: concat_ident("set_", m.name.as_str()),
                        return_type,
                        no_return,
                        is_unsafe: m.is_unsafe,
                        args: fn_args,
                        fallback: fallback_branch(takes_ownership, allow, mutable),
                    };
                    proof {
                        assert(plan@ =~~= spec_instance_plan(tr@.items[i as int]->Method_0, allow));
                    }
                    instance_methods.push(plan);
                    proof {
                        assert(instance_methods@.map_values(|p: InstanceMethodPlan| p@)
                            =~= prev_instance.push(
                            spec_instance_plan(tr@.items[i as int]->Method_0, allow),
                        ));
                    }
                } else {
                    let plan = StaticMethodPlan {
                        method_name: m.name.clone(),
                        tracker_type_name: crate::names::concat_ident3(
                            tr.name.as_str(),
                            "_Method_",
                            m.name.as_str(),
                        ),
                        getter_name: concat_ident("method_", m.name.as_str()),
                        setter_name: concat_ident("set_", m.name.as_str()),
                        clear_name: concat_ident("clear_", m.name.as_str()),
                        return_type,
                        no_return,
                        is_unsafe: m.is_unsafe,
                        args: fn_args,
                    };
                    proof {
                        assert(plan@ =~~= spec_static_plan(
                            tr@.name,
                            tr@.items[i as int]->Method_0,
                        ));
                    }
                    static_methods.push(plan);
                    allow = false;
                    proof {
                        assert(static_methods@.map_values(|p: StaticMethodPlan| p@)
                            =~= prev_static.push(
                            spec_static_plan(tr@.name, tr@.items[i as int]->Method_0),
                        ));
                    }
                }
            },
            TraitItemDecl::Unsupported => {
                proof {
                    assert(spec_first_item_error(tr@.items, i + 1) == Some(
                        GenError::UnsupportedTraitItem,
                    ));
                    lemma_first_error_monotone(tr@.items, i + 1, tr@.items.len() as int);
                }
                return Err(GenError::UnsupportedTraitItem);
            },
        }
        i = i + 1;
    }
    Ok(
        TraitFn {
            instance_methods,
            static_methods,
            has_fallback_field: allow,
        },
    )
}

/// One supertrait's contribution to a derived mock: the supertrait's
/// instance methods re-expanded — with object fallback disabled, since
/// the derived mock does not track the supertrait's fallback — both
/// merged into the mock's fields and accessors and emitted as a direct
/// implementation of the supertrait for the mock type.
#[derive(Clone, Debug)]
pub struct SupertraitImplPlan {
    /// The supertrait's name, as the bound's last path segment.
    pub supertrait_name: String,
    /// The registered supertrait's own generic parameter list.
    pub generics: String,
    /// The re-expanded instance methods.
    pub methods: Vec<InstanceMethodPlan>,
}

/// Spec-level image of a [`SupertraitImplPlan`].
#[verifier::ext_equal]
pub struct SupertraitImplPlanView {
    pub supertrait_name: Seq<char>,
    pub generics: Seq<char>,
    pub methods: Seq<InstanceMethodPlanView>,
}

impl View for SupertraitImplPlan {
    type V = SupertraitImplPlanView;

    open spec fn view(&self) -> SupertraitImplPlanView {
        SupertraitImplPlanView {
            supertrait_name: self.supertrait_name@,
            generics: self.generics@,
            methods: self.methods@.map_values(|p: InstanceMethodPlan| p@),
        }
    }
}

/// The names of the trait-scoped global storage emitted when a trait has
/// static methods: the storage struct, the lazily-initializing accessor,
/// and the accessor's reader and cell.
#[derive(Clone, Debug)]
pub struct StaticStoragePlan {
    /// `STATIC__<trait>`: the storage struct, one optional tracker per
    /// static method.
    pub struct_name: String,
    /// `Static_<trait>`: the accessor that lazily initializes and hands
    /// out the shared storage.
    pub singleton_fn_name: String,
    /// `__SingletonReader_<accessor>`: the shared, lock-guarded handle.
    pub reader_name: String,
    /// `__SINGLETON_<accessor>`: the one-time-initialized cell.
    pub cell_name: String,
}

/// The full description of a trait's companion mock.
#[derive(Clone, Debug)]
pub struct TraitMockPlan {
    /// `Mock<trait>`: the mock struct's name.
    pub mock_type_name: String,
    /// `MockMethodFor<trait>`: the tracker type's name for this trait's
    /// instance methods.
    pub tracker_type_name: String,
    /// The mocked trait's own name.
    pub trait_name: String,
    /// The trait's generic parameter list, echoed onto the mock.
    pub generics: String,
    /// The trait's `where` clause, echoed onto the mock.
    pub where_clause: String,
    /// Whether the trait is `unsafe`, echoed onto the generated
    /// implementation.
    pub is_unsafe: bool,
    /// Whether the mock is `pub`, as the trait is.
    pub is_public: bool,
    /// Whether the trait carries a `Sized` bound, which disables object
    /// fallback.
    pub impls_sized: bool,
    /// The per-method plans.
    pub methods: TraitFn,
    /// The supertraits' merged contributions, in bound order.
    pub supertrait_impls: Vec<SupertraitImplPlan>,
    /// The trait-scoped global storage, present exactly when the trait
    /// has static methods.
    pub static_storage: Option<StaticStoragePlan>,
}

/// Whether the trait's bound list carries a `Sized` marker.
pub open spec fn spec_impls_sized(tv: TraitView) -> bool {
    tv.supertraits.contains("Sized"@)
}

/// The supertrait contributions for the first `n` bounds: a `Sized`
/// marker is recognized specially and excluded, an unregistered name is
/// silently skipped, and a registered supertrait contributes its
/// instance methods re-expanded with fallback disabled.
pub open spec fn spec_super_plans(
    supers: Seq<Seq<char>>,
    entries: Seq<(String, TraitDecl)>,
    n: int,
) -> Seq<SupertraitImplPlanView>
    decreases n,
{
    if n <= 0 {
        Seq::empty()
    } else {
        let prev = spec_super_plans(supers, entries, n - 1);
        let s = supers[n - 1];
        if s == "Sized"@ {
            prev
        } else {
            match spec_find(entries, s) {
                Some(d) => prev.push(
                    SupertraitImplPlanView {
                        supertrait_name: s,
                        generics: d@.generics,
                        methods: spec_walk(d@.name, d@.items, d@.items.len() as int, false).0,
                    },
                ),
                None => prev,
            }
        }
    }
}

/// The first rejection raised while re-expanding the first `n`
/// supertrait bounds.
pub open spec fn spec_super_error(
    supers: Seq<Seq<char>>,
    entries: Seq<(String, TraitDecl)>,
    n: int,
) -> Option<GenError>
    decreases n,
{
    if n <= 0 {
        None
    } else {
        match spec_super_error(supers, entries, n - 1) {
            Some(e) => Some(e),
            None => {
                let s = supers[n - 1];
                if s == "Sized"@ {
                    None
                } else {
                    match spec_find(entries, s) {
                        Some(d) => spec_first_item_error(d@.items, d@.items.len() as int),
                        None => None,
                    }
                }
            },
        }
    }
}

proof fn lemma_super_error_monotone(
    supers: Seq<Seq<char>>,
    entries: Seq<(String, TraitDecl)>,
    i: int,
    n: int,
)
    requires
        0 <= i <= n <= supers.len(),
        spec_super_error(supers, entries, i) is Some,
    ensures
        spec_super_error(supers, entries, n) == spec_super_error(supers, entries, i),
    decreases n - i,
{
    if n > i {
        lemma_super_error_monotone(supers, entries, i, n - 1);
    }
}

/// The rejection `parse_trait` raises on trait `tv` against registry
/// contents `entries`, if any: an offending item of the trait itself, an
/// offending item of a registered supertrait, or a static method in a
/// generic trait.
pub open spec fn spec_parse_error(tv: TraitView, entries: Seq<(String, TraitDecl)>) -> Option<
    GenError,
> {
    match spec_first_item_error(tv.items, tv.items.len() as int) {
        Some(e) => Some(e),
        None => match spec_super_error(tv.supertraits, entries, tv.supertraits.len() as int) {
            Some(e) => Some(e),
            None => if tv.generics.len() > 0 && spec_walk(
                tv.name,
                tv.items,
                tv.items.len() as int,
                !spec_impls_sized(tv),
            ).1.len() > 0 {
                Some(GenError::StaticWithGenerics)
            } else {
                None
            },
        },
    }
}

/// Everything `parse_trait` owes of a returned plan for trait `tv`,
/// against registry contents `entries`.
pub open spec fn spec_trait_plan_ok(
    plan: TraitMockPlan,
    tv: TraitView,
    entries: Seq<(String, TraitDecl)>,
) -> bool {
    let allow0 = !spec_impls_sized(tv);
    let walk = spec_walk(tv.name, tv.items, tv.items.len() as int, allow0);
    &&& plan.mock_type_name@ == "Mock"@ + tv.name
    &&& plan.tracker_type_name@ == "MockMethodFor"@ + tv.name
    &&& plan.trait_name@ == tv.name
    &&& plan.generics@ == tv.generics
    &&& plan.where_clause@ == tv.where_clause
    &&& plan.is_unsafe == tv.is_unsafe
    &&& plan.is_public == tv.is_public
    &&& plan.impls_sized == spec_impls_sized(tv)
    &&& plan.methods.instance_methods@.map_values(|p: InstanceMethodPlan| p@) == walk.0
    &&& plan.methods.static_methods@.map_values(|p: StaticMethodPlan| p@) == walk.1
    &&& plan.methods.has_fallback_field == walk.2
    &&& plan.supertrait_impls@.map_values(|p: SupertraitImplPlan| p@) == spec_super_plans(
        tv.supertraits,
        entries,
        tv.supertraits.len() as int,
    )
    &&& match plan.static_storage {
        Some(st) => {
            &&& walk.1.len() > 0
            &&& st.struct_name@ == "STATIC__"@ + tv.name
            &&& st.singleton_fn_name@ == "Static_"@ + tv.name
            &&& st.reader_name@ == "__SingletonReader_"@ + ("Static_"@ + tv.name)
            &&& st.cell_name@ == "__SINGLETON_"@ + ("Static_"@ + tv.name)
        },
        None => walk.1.len() == 0,
    }
}

/// Synthesizes the companion mock of one trait declaration: derives the
/// per-method plans (with object fallback disabled throughout for a
/// `Sized`-bound trait), merges in each registered supertrait's methods,
/// plans the trait-scoped global storage when static methods occur, and
/// registers the declaration for later dependents. Rejects a generic
/// trait with static methods; on any rejection the registry is left
/// unchanged.
pub fn parse_trait(tr: TraitDecl, registry: &mut TraitRegistry) -> (r: Result<
    TraitMockPlan,
    GenError,
>)
    ensures
        match r {
            Ok(plan) => {
                &&& spec_parse_error(tr@, old(registry).entries()) is None
                &&& spec_trait_plan_ok(plan, tr@, old(registry).entries())
                &&& final(registry).entries() == old(registry).entries().push((tr.name, tr))
            },
            Err(e) => {
                &&& spec_parse_error(tr@, old(registry).entries()) == Some(e)
                &&& final(registry).entries() == old(registry).entries()
            },
        },
{
    let sized_str: String = "Sized".to_owned();
    let n_supers = tr.supertraits.len();
    let mut impls_sized = false;
    let mut i: usize = 0;
    while i < n_supers
        invariant
            i <= n_supers,
            n_supers == tr@.supertraits.len(),
            tr@.supertraits == tr.supertraits@.map_values(|s: String| s@),
            sized_str@ == "Sized"@,
            impls_sized <==> exists|j: int| 0 <= j < i && tr@.supertraits[j] == "Sized"@,
        decreases n_supers - i,
    {
        proof {
            assert(tr@.supertraits[i as int] == tr.supertraits@[i as int]@);
        }
        if tr.supertraits[i] == sized_str {
            impls_sized = true;
            proof {
                assert(tr@.supertraits[i as int] == "Sized"@);
            }
        }
        i = i + 1;
    }
    proof {
        assert(impls_sized == spec_impls_sized(tr@));
    }

    let trait_fns = match generate_trait_fns(&tr, !impls_sized) {
        Ok(p) => p,
        Err(e) => {
            return Err(e);
        },
    };

    let mut supertrait_impls: Vec<SupertraitImplPlan> = Vec::new();
    let mut si: usize = 0;
    while si < n_supers
        invariant
            si <= n_supers,
            n_supers == tr@.supertraits.len(),
            tr@.supertraits == tr.supertraits@.map_values(|s: String| s@),
            sized_str@ == "Sized"@,
            *registry == *old(registry),
            spec_first_item_error(tr@.items, tr@.items.len() as int) is None,
            spec_super_error(tr@.supertraits, registry.entries(), si as int) is None,
            supertrait_impls@.map_values(|p: SupertraitImplPlan| p@) == spec_super_plans(
                tr@.supertraits,
                registry.entries(),
                si as int,
            ),
        decreases n_supers - si,
    {
        let ghost prev_plans = supertrait_impls@.map_values(|p: SupertraitImplPlan| p@);
        let s = &tr.supertraits[si];
        proof {
            assert(tr@.supertraits[si as int] == tr.supertraits@[si as int]@);
        }
        if !(*s == sized_str) {
            match registry.lookup(s) {
                Some(base) => {
                    match generate_trait_fns(base, false) {
                        Ok(base_fns) => {
                            let plan = SupertraitImplPlan {
                                supertrait_name: s.clone(),
                                generics: base.generics.clone(),
                                methods: base_fns.instance_methods,
                            };
                            proof {
                                assert(plan@ =~~= spec_super_plans(
                                    tr@.supertraits,
                                    registry.entries(),
                                    si + 1,
                                ).last());
                            }
                            supertrait_impls.push(plan);
                            proof {
                                assert(supertrait_impls@.map_values(|p: SupertraitImplPlan| p@)
                                    =~= spec_super_plans(
                                    tr@.supertraits,
                                    registry.entries(),
                                    si + 1,
                                ));
                            }
                        },
                        Err(e) => {
                            proof {
                                lemma_super_error_monotone(
                                    tr@.supertraits,
                                    registry.entries(),
                                    si + 1,
                                    tr@.supertraits.len() as int,
                                );
                            }
                            return Err(e);
                        },
                    }
                },
                None => {},
            }
        }
        si = si + 1;
    }

    if !tr.generics.as_str().is_empty() && trait_fns.static_methods.len() > 0 {
        return Err(GenError::StaticWithGenerics);
    }

    let (mock_type_name, tracker_type_name) = generate_mock_method_name(tr.name.as_str());
    let static_storage = if trait_fns.static_methods.len() > 0 {
        let singleton_fn_name = generate_static_name(tr.name.as_str());
        let struct_name = concat_ident("STATIC__", tr.name.as_str());
        let reader_name = concat_ident("__SingletonReader_", singleton_fn_name.as_str());
        let cell_name = concat_ident("__SINGLETON_", singleton_fn_name.as_str());
        Some(StaticStoragePlan { struct_name, singleton_fn_name, reader_name, cell_name })
    } else {
        None
    };
    let plan = TraitMockPlan {
        mock_type_name,
        tracker_type_name,
        trait_name: tr.name.clone(),
        generics: tr.generics.clone(),
        where_clause: tr.where_clause.clone(),
        is_unsafe: tr.is_unsafe,
        is_public: tr.is_public,
        impls_sized,
        methods: trait_fns,
        supertrait_impls,
        static_storage,
    };
    let key = tr.name.clone();
    registry.register(key, tr);
    Ok(plan)
}

} // verus!
