//! Scripted results, dynamic sources, and call-count bounds on the
//! tracker, driven through the instance-method dispatch protocol.

use mockgen::dispatch::{dispatch_instance_call, FallbackBranch, FallbackObject, InstanceFault};
use mockgen::tracker::{
    CallFault, CallTracker, ConfigFault, CountingSource, FinalizeFault, FixedSource, SomeSource,
};

type Tracker<T> = CallTracker<T, FixedSource<T>>;

#[derive(Clone, Copy)]
struct Foo {
    x: i32,
    y: i32,
}

impl Foo {
    pub fn new() -> Foo {
        Foo { x: 0, y: 0 }
    }
}

impl FallbackObject<(), ()> for Foo {
    fn call_ref(&self, _args: ()) -> () {
        ()
    }

    fn call_mut(&mut self, _args: ()) -> () {
        ()
    }
}

impl FallbackObject<(), u32> for Foo {
    fn call_ref(&self, _args: ()) -> u32 {
        1
    }

    fn call_mut(&mut self, _args: ()) -> u32 {
        1
    }
}

impl FallbackObject<(), Option<u32>> for Foo {
    fn call_ref(&self, _args: ()) -> Option<u32> {
        Some(12)
    }

    fn call_mut(&mut self, _args: ()) -> Option<u32> {
        Some(12)
    }
}

impl FallbackObject<(), Option<isize>> for Foo {
    fn call_ref(&self, _args: ()) -> Option<isize> {
        None
    }

    fn call_mut(&mut self, _args: ()) -> Option<isize> {
        None
    }
}

impl FallbackObject<(i32,), Foo> for Foo {
    fn call_ref(&self, args: (i32,)) -> Foo {
        Foo { x: args.0, y: args.0 }
    }

    fn call_mut(&mut self, args: (i32,)) -> Foo {
        Foo { x: args.0, y: args.0 }
    }
}

impl FallbackObject<(i32, i32), i32> for Foo {
    fn call_ref(&self, args: (i32, i32)) -> i32 {
        args.0 + args.1
    }

    fn call_mut(&mut self, args: (i32, i32)) -> i32 {
        args.0 + args.1
    }
}

#[test]
fn it_works() {
    let foo = Foo::new();
    let mut fallback = Some(foo);

    let method = Tracker::<()>::new().first_call().set_result(());
    let mut hello_world = Some(method);
    assert_eq!(
        dispatch_instance_call(&mut hello_world, &mut fallback, FallbackBranch::DelegateRef, ()),
        Ok(())
    );

    let foo_method = Tracker::<u32>::new()
        .second_call()
        .set_result(4)
        .first_call()
        .set_result(3);
    let mut foo_slot = Some(foo_method);
    let result =
        dispatch_instance_call(&mut foo_slot, &mut fallback, FallbackBranch::DelegateRef, ());
    assert!(result == Ok(3));
    let result2 =
        dispatch_instance_call(&mut foo_slot, &mut fallback, FallbackBranch::DelegateRef, ());
    assert!(result2 == Ok(4));

    // This is a fallback case
    let result3 =
        dispatch_instance_call(&mut foo_slot, &mut fallback, FallbackBranch::DelegateRef, ());
    assert!(result3 == Ok(1));
}

#[test]
fn parameter_type_test() {
    let method = Tracker::<Option<u32>>::new()
        .first_call()
        .set_result(Some(11))
        .nth_call(2) // equiv to 'second_call'
        .set_result(None);
    let mut bar = Some(method);
    let mut fallback: Option<Foo> = None;

    let result = dispatch_instance_call(&mut bar, &mut fallback, FallbackBranch::DelegateRef, ());
    assert!(result == Ok(Some(11)));
    assert!(
        dispatch_instance_call(&mut bar, &mut fallback, FallbackBranch::DelegateRef, ())
            == Ok(None)
    );
}

#[test]
fn parameter_gen_test() {
    let method = Tracker::<Foo>::new().first_call().set_result(Foo::new());
    let mut baz = Some(method);
    let mut fallback: Option<Foo> = None;

    let result: Result<Foo, InstanceFault> =
        dispatch_instance_call(&mut baz, &mut fallback, FallbackBranch::DelegateRef, (32i32,));
    let result = result.unwrap();
    assert!(result.x == 0 && result.y == 0);
}

#[test]
fn default_impl_test() {
    let method = Tracker::<i32>::new().first_call().set_result(5);
    let mut default_method = Some(method);
    let mut fallback: Option<Foo> = None;

    assert!(
        dispatch_instance_call(
            &mut default_method,
            &mut fallback,
            FallbackBranch::DelegateRef,
            (1i32, 1i32)
        ) == Ok(5)
    );
}

#[test]
fn return_result_of() {
    let x = Some(12u32);
    let method = CallTracker::<Option<u32>, SomeSource<FixedSource<u32>>>::new()
        .return_result_of(SomeSource::new(FixedSource::new(12)));
    let mut bar = Some(method);
    let mut fallback: Option<Foo> = None;

    assert!(
        dispatch_instance_call(&mut bar, &mut fallback, FallbackBranch::DelegateRef, ()) == Ok(x)
    );
    assert!(
        dispatch_instance_call(&mut bar, &mut fallback, FallbackBranch::DelegateRef, ())
            == Ok(Some(12))
    );
}

#[test]
fn mut_result_of() {
    let x: isize = 15;
    let method = CallTracker::<Option<isize>, SomeSource<CountingSource>>::new()
        .return_result_of(SomeSource::new(CountingSource::new(x)));
    let mut bar = Some(method);
    let mut fallback: Option<Foo> = None;

    assert!(
        dispatch_instance_call(&mut bar, &mut fallback, FallbackBranch::DelegateRef, ())
            == Ok(Some(16))
    );
    assert!(
        dispatch_instance_call(&mut bar, &mut fallback, FallbackBranch::DelegateRef, ())
            == Ok(Some(17))
    );
    assert!(
        dispatch_instance_call(&mut bar, &mut fallback, FallbackBranch::DelegateRef, ())
            == Ok(Some(18))
    );
}

#[test]
fn return_result_of_and_set_result_faults() {
    let tracker = CallTracker::<Option<u32>, SomeSource<FixedSource<u32>>>::new()
        .return_result_of(SomeSource::new(FixedSource::new(12)));
    assert_eq!(
        tracker.try_set_result(Some(13)).err(),
        Some(ConfigFault::MixedResultModes)
    );

    let scripted = CallTracker::<Option<u32>, SomeSource<FixedSource<u32>>>::new()
        .first_call()
        .set_result(Some(13));
    assert_eq!(
        scripted
            .try_return_result_of(SomeSource::new(FixedSource::new(12)))
            .err(),
        Some(ConfigFault::MixedResultModes)
    );
}

#[test]
fn never_called_fails_the_call() {
    let method = Tracker::<u32>::new().never_called();
    let mut foo_slot = Some(method);
    let mut fallback: Option<Foo> = None;

    assert_eq!(
        dispatch_instance_call(&mut foo_slot, &mut fallback, FallbackBranch::DelegateRef, ()),
        Err(InstanceFault::Tracker(CallFault::NeverCalled))
    );
}

#[test]
fn never_called_and_at_most_exclusive() {
    let bounded = Tracker::<u32>::new().called_at_most(3);
    assert_eq!(bounded.try_never_called().err(), Some(ConfigFault::MixedCallBounds));

    let never = Tracker::<u32>::new().never_called();
    assert_eq!(never.try_called_at_most(3).err(), Some(ConfigFault::MixedCallBounds));
}

#[test]
fn max_calls() {
    let method = CallTracker::<u32, FixedSource<u32>>::new()
        .called_at_most(10)
        .return_result_of(FixedSource::new(10));
    let mut foo_slot = Some(method);
    let mut fallback: Option<Foo> = None;

    for _ in 0..10 {
        assert!(
            dispatch_instance_call(&mut foo_slot, &mut fallback, FallbackBranch::DelegateRef, ())
                == Ok(10)
        );
    }
}

#[test]
fn max_calls_exceeded_faults() {
    let method = CallTracker::<u32, FixedSource<u32>>::new()
        .called_at_most(10)
        .return_result_of(FixedSource::new(10));
    let mut foo_slot = Some(method);
    let mut fallback: Option<Foo> = None;

    for _ in 0..10 {
        let r = dispatch_instance_call(&mut foo_slot, &mut fallback, FallbackBranch::DelegateRef, ());
        assert!(r.is_ok());
    }
    assert_eq!(
        dispatch_instance_call(&mut foo_slot, &mut fallback, FallbackBranch::DelegateRef, ()),
        Err(InstanceFault::Tracker(CallFault::AtMostExceeded { invocation: 11 }))
    );
}

#[test]
fn min_calls() {
    let method = CallTracker::<u32, FixedSource<u32>>::new()
        .called_at_least(10)
        .return_result_of(FixedSource::new(10));
    let mut foo_slot = Some(method);
    let mut fallback: Option<Foo> = None;

    for _ in 0..11 {
        let r = dispatch_instance_call(&mut foo_slot, &mut fallback, FallbackBranch::DelegateRef, ());
        assert!(r == Ok(10));
    }
    assert_eq!(foo_slot.unwrap().finalize(), Ok(()));
}

#[test]
fn min_calls_not_met_faults() {
    let method = CallTracker::<u32, FixedSource<u32>>::new()
        .called_at_least(10)
        .return_result_of(FixedSource::new(10));
    let mut foo_slot = Some(method);
    let mut fallback: Option<Foo> = None;

    for _ in 0..9 {
        let r = dispatch_instance_call(&mut foo_slot, &mut fallback, FallbackBranch::DelegateRef, ());
        assert!(r == Ok(10));
    }
    assert_eq!(
        foo_slot.unwrap().finalize(),
        Err(FinalizeFault::MinimumNotMet { observed: 9, minimum: 10 })
    );
}

#[test]
fn called_once() {
    let method = CallTracker::<u32, FixedSource<u32>>::new()
        .called_once()
        .return_result_of(FixedSource::new(10));
    let mut foo_slot = Some(method);
    let mut fallback: Option<Foo> = None;

    assert!(
        dispatch_instance_call(&mut foo_slot, &mut fallback, FallbackBranch::DelegateRef, ())
            == Ok(10)
    );
    assert_eq!(foo_slot.unwrap().finalize(), Ok(()));
}

#[test]
fn called_once_twice_faults() {
    let method = CallTracker::<u32, FixedSource<u32>>::new()
        .called_once()
        .return_result_of(FixedSource::new(10));
    let mut foo_slot = Some(method);
    let mut fallback: Option<Foo> = None;

    assert!(
        dispatch_instance_call(&mut foo_slot, &mut fallback, FallbackBranch::DelegateRef, ())
            == Ok(10)
    );
    assert_eq!(
        dispatch_instance_call(&mut foo_slot, &mut fallback, FallbackBranch::DelegateRef, ()),
        Err(InstanceFault::Tracker(CallFault::AtMostExceeded { invocation: 2 }))
    );
}

#[test]
fn called_once_never_invoked_faults() {
    let method = CallTracker::<u32, FixedSource<u32>>::new()
        .called_once()
        .return_result_of(FixedSource::new(10));

    assert_eq!(
        method.finalize(),
        Err(FinalizeFault::MinimumNotMet { observed: 0, minimum: 1 })
    );
}

#[test]
fn fallback_receives_call_through_arguments() {
    // An exhausted tracker hands the call-through arguments to the
    // fallback, whose answer comes back verbatim.
    let method = Tracker::<i32>::new().first_call().set_result(5);
    let mut slot = Some(method);
    let mut fallback = Some(Foo::new());

    assert!(
        dispatch_instance_call(&mut slot, &mut fallback, FallbackBranch::DelegateRef, (1i32, 1i32))
            == Ok(5)
    );
    let delegated =
        dispatch_instance_call(&mut slot, &mut fallback, FallbackBranch::DelegateMut, (2i32, 3i32));
    assert_eq!(delegated, Ok(5));
    let delegated_ref =
        dispatch_instance_call(&mut slot, &mut fallback, FallbackBranch::DelegateRef, (4i32, 4i32));
    assert_eq!(delegated_ref, Ok(8));
}

#[test]
fn two_trackers_are_independent() {
    // Exhausting one method's tracker leaves the other's counters alone.
    let first = Tracker::<u32>::new().first_call().set_result(7);
    let second = Tracker::<u32>::new().first_call().set_result(8);
    let mut first_slot = Some(first);
    let mut second_slot = Some(second);
    let mut fallback: Option<Foo> = None;

    assert!(
        dispatch_instance_call(&mut first_slot, &mut fallback, FallbackBranch::DelegateRef, ())
            == Ok(7)
    );
    assert_eq!(
        dispatch_instance_call(&mut first_slot, &mut fallback, FallbackBranch::FailDisabled, ()),
        Err(InstanceFault::FallbackDisabled)
    );
    assert_eq!(first_slot.as_ref().unwrap().current_num, 3);
    assert_eq!(second_slot.as_ref().unwrap().current_num, 1);
    assert!(
        dispatch_instance_call(&mut second_slot, &mut fallback, FallbackBranch::DelegateRef, ())
            == Ok(8)
    );
}
