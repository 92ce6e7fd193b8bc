//! Supertrait composition, owned receivers, unsafe methods, and static
//! trait methods, driven end to end: the synthesizer's plan decides each
//! method's fallback branch, and the runtime follows it.

use mockgen::dispatch::{
    clear_tracker, dispatch_instance_call, dispatch_static_call, install_tracker, FallbackBranch,
    FallbackObject, FixedFallback, InstanceFault,
};
use mockgen::model::{MethodDecl, ReceiverKind, TraitDecl, TraitItemDecl};
use mockgen::registry::TraitRegistry;
use mockgen::tracker::{CallTracker, FixedSource};

type Tracker<T> = CallTracker<T, FixedSource<T>>;

fn method(
    name: &str,
    receiver: ReceiverKind,
    params: Vec<&str>,
    ret: Option<&str>,
    is_unsafe: bool,
) -> TraitItemDecl {
    TraitItemDecl::Method(MethodDecl {
        name: name.to_string(),
        receiver,
        params: params.into_iter().map(|p| p.to_string()).collect(),
        ret: ret.map(|t| t.to_string()),
        is_unsafe,
    })
}

fn plain_trait(name: &str, items: Vec<TraitItemDecl>, supertraits: Vec<&str>) -> TraitDecl {
    TraitDecl {
        name: name.to_string(),
        is_public: false,
        generics: String::new(),
        where_clause: String::new(),
        is_unsafe: false,
        items,
        supertraits: supertraits.into_iter().map(|s| s.to_string()).collect(),
    }
}

struct NoFallback;

impl FallbackObject<(i32, usize), usize> for NoFallback {
    fn call_ref(&self, _args: (i32, usize)) -> usize {
        0
    }

    fn call_mut(&mut self, _args: (i32, usize)) -> usize {
        0
    }
}

impl FallbackObject<(), usize> for NoFallback {
    fn call_ref(&self, _args: ()) -> usize {
        0
    }

    fn call_mut(&mut self, _args: ()) -> usize {
        0
    }
}

impl FallbackObject<(), ()> for NoFallback {
    fn call_ref(&self, _args: ()) -> () {
        ()
    }

    fn call_mut(&mut self, _args: ()) -> () {
        ()
    }
}

#[test]
fn mock_derived() {
    let mut registry = TraitRegistry::new();
    let base = plain_trait(
        "Base",
        vec![method(
            "add",
            ReceiverKind::ByRef { lifetime: None },
            vec!["i32", "usize"],
            Some("usize"),
            false,
        )],
        vec![],
    );
    mockgen::synth::parse_trait(base, &mut registry).unwrap();

    let derived = plain_trait(
        "Derived",
        vec![method(
            "sub",
            ReceiverKind::ByRef { lifetime: None },
            vec!["i32", "usize"],
            Some("usize"),
            false,
        )],
        vec!["Base"],
    );
    let plan = mockgen::synth::parse_trait(derived, &mut registry).unwrap();
    assert_eq!(plan.mock_type_name, "MockDerived");
    assert_eq!(plan.supertrait_impls.len(), 1);
    assert_eq!(plan.supertrait_impls[0].supertrait_name, "Base");
    assert_eq!(plan.supertrait_impls[0].methods.len(), 1);
    assert_eq!(plan.supertrait_impls[0].methods[0].method_name, "add");

    let mut fallback: Option<NoFallback> = None;

    let method_derived = CallTracker::<usize, FixedSource<usize>>::new()
        .called_once()
        .return_result_of(FixedSource::new(25));
    let mut sub_slot = Some(method_derived);
    assert!(
        dispatch_instance_call(
            &mut sub_slot,
            &mut fallback,
            plan.methods.instance_methods[0].fallback,
            (0i32, 0usize)
        ) == Ok(25)
    );

    let method_base = CallTracker::<usize, FixedSource<usize>>::new()
        .called_once()
        .return_result_of(FixedSource::new(25));
    let mut add_slot = Some(method_base);
    assert!(
        dispatch_instance_call(
            &mut add_slot,
            &mut fallback,
            plan.supertrait_impls[0].methods[0].fallback,
            (0i32, 0usize)
        ) == Ok(25)
    );
}

#[test]
fn mock_self_owned() {
    let mut registry = TraitRegistry::new();
    let decl = plain_trait(
        "SelfOwnership",
        vec![method(
            "as_owned",
            ReceiverKind::ByValue { mutable: false },
            vec![],
            Some("usize"),
            false,
        )],
        vec![],
    );
    let plan = mockgen::synth::parse_trait(decl, &mut registry).unwrap();
    assert_eq!(plan.methods.instance_methods[0].fallback, FallbackBranch::FailOwned);

    let tracker = Tracker::<usize>::new().called_once().first_call().set_result(25);
    let mut slot = Some(tracker);
    let mut fallback: Option<NoFallback> = None;

    assert!(
        dispatch_instance_call(&mut slot, &mut fallback, FallbackBranch::FailOwned, ()) == Ok(25)
    );
}

#[test]
fn mock_self_owned_fallback_faults() {
    // A by-value receiver cannot delegate: with nothing scripted the
    // call fails rather than silently skipping, even though a fallback
    // that would answer 35 is installed.
    let tracker = Tracker::<usize>::new().called_once();
    let mut slot = Some(tracker);
    let mut fallback: Option<FixedFallback<usize>> = Some(FixedFallback::new(35));

    assert_eq!(
        dispatch_instance_call(&mut slot, &mut fallback, FallbackBranch::FailOwned, ()),
        Err(InstanceFault::OwnedReceiverFallback)
    );
}

#[test]
fn unsafety_trait() {
    let mut registry = TraitRegistry::new();
    let decl = TraitDecl {
        name: "UnsafeTrait".to_string(),
        is_public: false,
        generics: String::new(),
        where_clause: String::new(),
        is_unsafe: true,
        items: vec![method(
            "this_is_not_safe",
            ReceiverKind::ByMutRef { lifetime: None },
            vec![],
            None,
            true,
        )],
        supertraits: vec![],
    };
    let plan = mockgen::synth::parse_trait(decl, &mut registry).unwrap();
    assert!(plan.is_unsafe);
    assert!(plan.methods.instance_methods[0].is_unsafe);
    assert_eq!(plan.methods.instance_methods[0].fallback, FallbackBranch::DelegateMut);

    let tracker = Tracker::<()>::new().called_once().set_result(());
    let mut slot = Some(tracker);
    let mut fallback: Option<NoFallback> = None;
    assert!(
        dispatch_instance_call(&mut slot, &mut fallback, FallbackBranch::DelegateMut, ())
            == Ok(())
    );
}

#[test]
fn static_fn_test() {
    let mut registry = TraitRegistry::new();
    let decl = plain_trait(
        "StaticMethod",
        vec![method("st_method", ReceiverKind::Static, vec![], Some("usize"), false)],
        vec![],
    );
    let plan = mockgen::synth::parse_trait(decl, &mut registry).unwrap();
    assert_eq!(plan.methods.static_methods.len(), 1);
    assert_eq!(plan.methods.static_methods[0].getter_name, "method_st_method");
    assert_eq!(plan.methods.static_methods[0].setter_name, "set_st_method");
    assert_eq!(plan.methods.static_methods[0].clear_name, "clear_st_method");

    let mock = CallTracker::<usize, FixedSource<usize>>::new()
        .called_once()
        .return_result_of(FixedSource::new(25));
    let mut slot = None;
    install_tracker(&mut slot, mock);
    assert!(dispatch_static_call(&mut slot) == Ok(25));
    let cleared = clear_tracker(&mut slot);
    assert_eq!(cleared.unwrap().finalize(), Ok(()));
}

#[test]
fn sized_trait_disables_fallback() {
    let mut registry = TraitRegistry::new();
    let decl = plain_trait(
        "SizedTrait",
        vec![method("foo", ReceiverKind::ByRef { lifetime: None }, vec![], Some("usize"), false)],
        vec!["Sized"],
    );
    let plan = mockgen::synth::parse_trait(decl, &mut registry).unwrap();
    assert!(plan.impls_sized);
    assert!(!plan.methods.has_fallback_field);
    assert_eq!(plan.methods.instance_methods[0].fallback, FallbackBranch::FailDisabled);

    let mut slot: Option<Tracker<usize>> = None;
    let mut fallback: Option<NoFallback> = Some(NoFallback);
    assert_eq!(
        dispatch_instance_call(&mut slot, &mut fallback, FallbackBranch::FailDisabled, ()),
        Err(InstanceFault::FallbackDisabled)
    );
}

#[test]
fn static_method_disables_fallback_trait_wide() {
    let mut registry = TraitRegistry::new();
    let decl = plain_trait(
        "StaticMethodMixed",
        vec![
            method("st_method", ReceiverKind::Static, vec![], Some("usize"), false),
            method("is_method", ReceiverKind::ByRef { lifetime: None }, vec![], Some("usize"), false),
        ],
        vec![],
    );
    let plan = mockgen::synth::parse_trait(decl, &mut registry).unwrap();
    assert!(!plan.methods.has_fallback_field);
    assert_eq!(plan.methods.instance_methods.len(), 1);
    assert_eq!(plan.methods.static_methods.len(), 1);
    assert_eq!(plan.methods.instance_methods[0].fallback, FallbackBranch::FailDisabled);
}
