//! Generic and lifetime-parameterized traits: the mock plan echoes the
//! generic surface, and the tracker carries whatever result type the
//! instantiation picks.

use mockgen::dispatch::{dispatch_instance_call, FallbackBranch, FallbackObject};
use mockgen::tracker::{CallTracker, FixedSource};

#[derive(Clone)]
struct Clonable {
    x: i32,
    y: i32,
}

struct TypeOne {
    x: Option<i32>,
}

#[derive(Clone, Copy)]
struct TypeTwo {
    y: f32,
}

fn make() -> (Clonable, TypeOne, TypeTwo) {
    (Clonable { x: 0, y: 0 }, TypeOne { x: None }, TypeTwo { y: 0.0 })
}

struct NoImpl;

impl<'a, 'b> FallbackObject<(Clonable, &'a TypeOne, &'b mut TypeTwo), ()> for NoImpl {
    fn call_ref(&self, _args: (Clonable, &'a TypeOne, &'b mut TypeTwo)) -> () {
        ()
    }

    fn call_mut(&mut self, _args: (Clonable, &'a TypeOne, &'b mut TypeTwo)) -> () {
        ()
    }
}

impl FallbackObject<(f32, i32), i32> for NoImpl {
    fn call_ref(&self, _args: (f32, i32)) -> i32 {
        0
    }

    fn call_mut(&mut self, _args: (f32, i32)) -> i32 {
        0
    }
}

impl<'a> FallbackObject<(f32,), &'a f32> for NoImpl {
    fn call_ref(&self, _args: (f32,)) -> &'a f32 {
        &1.0
    }

    fn call_mut(&mut self, _args: (f32,)) -> &'a f32 {
        &1.0
    }
}

#[test]
fn generic_test_one() {
    let (arg1, arg2, mut arg3) = make();
    let method = CallTracker::<(), FixedSource<()>>::new().called_once().set_result(());
    let mut mix_and_match = Some(method);
    let mut fallback: Option<NoImpl> = None;

    let r = dispatch_instance_call(
        &mut mix_and_match,
        &mut fallback,
        FallbackBranch::DelegateMut,
        (arg1, &arg2, &mut arg3),
    );
    assert!(r == Ok(()));
    assert_eq!(mix_and_match.unwrap().finalize(), Ok(()));
}

#[test]
fn generic_test_two() {
    let method = CallTracker::<i32, FixedSource<i32>>::new().called_once().set_result(30);
    let mut merge = Some(method);
    let mut fallback: Option<NoImpl> = None;

    let r = dispatch_instance_call(&mut merge, &mut fallback, FallbackBranch::DelegateRef, (
        15.0f32,
        15i32,
    ));
    assert!(r == Ok(30));
    assert_eq!(merge.unwrap().finalize(), Ok(()));
}

#[test]
fn generics_and_lifetime() {
    let test_float: f32 = 1.0;
    let method = CallTracker::<&f32, FixedSource<&f32>>::new()
        .called_once()
        .set_result(&test_float);
    let mut return_value = Some(method);
    let mut fallback: Option<NoImpl> = None;

    let r = dispatch_instance_call(
        &mut return_value,
        &mut fallback,
        FallbackBranch::DelegateRef,
        (test_float.clone(),),
    );
    assert!(r == Ok(&test_float));
    assert_eq!(return_value.unwrap().finalize(), Ok(()));
}
