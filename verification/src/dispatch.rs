//! The runtime protocol of a generated mock method body: consult the
//! installed tracker, forward a scripted value, and on "nothing scripted"
//! either delegate to the fallback object — with the call-through
//! arguments and the receiver's borrow mode — or fail, exactly as the
//! generated code does. Static trait methods and foreign functions share
//! the same protocol without a fallback path.

use crate::tracker::{CallFault, CallTracker, ResultSource};
use vstd::prelude::*;

verus! {

/// The fallback branch compiled into one generated method body.
#[derive(Clone, Copy, Debug, PartialEq, Eq, Structural)]
pub enum FallbackBranch {
    /// Delegate to the fallback object through a shared borrow.
    DelegateRef,
    /// Delegate to the fallback object through a mutable borrow.
    DelegateMut,
    /// The receiver is consumed by value: delegation is inexpressible,
    /// the branch fails.
    FailOwned,
    /// Object fallback is disabled for this trait (a `Sized` bound, or a
    /// static method elsewhere in the trait): the branch fails.
    FailDisabled,
}

/// Which fallback branch a method gets, from the receiver's ownership,
/// whether the trait still allows object fallback at this method, and
/// the receiver's mutability.
pub open spec fn spec_fallback_branch(
    takes_self_ownership: bool,
    allow_object_fallback: bool,
    mutable_status: bool,
) -> FallbackBranch {
    if takes_self_ownership {
        FallbackBranch::FailOwned
    } else if allow_object_fallback {
        if mutable_status {
            FallbackBranch::DelegateMut
        } else {
            FallbackBranch::DelegateRef
        }
    } else {
        FallbackBranch::FailDisabled
    }
}

/// Executable form of [`spec_fallback_branch`].
pub fn fallback_branch(
    takes_self_ownership: bool,
    allow_object_fallback: bool,
    mutable_status: bool,
) -> (r: FallbackBranch)
    ensures
        r == spec_fallback_branch(takes_self_ownership, allow_object_fallback, mutable_status),
{
    if takes_self_ownership {
        FallbackBranch::FailOwned
    } else if allow_object_fallback {
        if mutable_status {
            FallbackBranch::DelegateMut
        } else {
            FallbackBranch::DelegateRef
        }
    } else {
        FallbackBranch::FailDisabled
    }
}

/// A failure of a generated instance-method body.
#[derive(Clone, Copy, Debug, PartialEq, Eq, Structural)]
pub enum InstanceFault {
    /// The tracker itself failed the call.
    Tracker(CallFault),
    /// Nothing scripted and no fallback object installed.
    NoFallbackOrResult,
    /// Nothing scripted and the receiver is consumed by value, so the
    /// fallback cannot be delegated to.
    OwnedReceiverFallback,
    /// Nothing scripted and object fallback is disabled for this trait.
    FallbackDisabled,
}

/// A failure of a generated static-method or foreign-function body,
/// where no fallback path exists.
#[derive(Clone, Copy, Debug, PartialEq, Eq, Structural)]
pub enum StaticFault {
    /// The tracker itself failed the call.
    Tracker(CallFault),
    /// No tracker has been installed for the function.
    NoTrackerInstalled,
    /// A tracker is installed but holds nothing scripted for this
    /// invocation.
    NoScriptedValue,
}

/// A fallback implementor: the real object a mock delegates to when a
/// method has nothing scripted. `A` is the method's call-through
/// argument tuple; `result_for` names the value the object answers with.
/// Consumers hand the mock their own implementors, as they would hand
/// the generated mock any object implementing the mocked trait.
pub trait FallbackObject<A, T> {
    /// The value this object answers `args` with. Implementors that
    /// leave the default say nothing of their answers; the library's own
    /// implementors pin them down.
    open spec fn result_for(&self, args: A) -> T {
        vstd::pervasive::arbitrary()
    }

    /// The delegated call for a by-reference receiver.
    fn call_ref(&self, args: A) -> (r: T)
        ensures
            r == self.result_for(args),
    ;

    /// The delegated call for a by-mutable-reference receiver.
    fn call_mut(&mut self, args: A) -> (r: T)
        ensures
            r == old(self).result_for(args),
    ;
}

/// A fallback object that answers every call with the same value.
pub struct FixedFallback<T> {
    value: T,
}

impl<T: Copy> FixedFallback<T> {
    /// The value this object answers everything with.
    pub closed spec fn spec_value(&self) -> T {
        self.value
    }

    /// An object that always answers `value`.
    pub fn new(value: T) -> (r: Self)
        ensures
            r.spec_value() == value,
    {
        FixedFallback { value }
    }

    /// The object's answer does not depend on the arguments.
    pub proof fn lemma_answer<A>(&self, args: A)
        ensures
            self.result_for(args) == self.spec_value(),
    {
    }
}

impl<A, T: Copy> FallbackObject<A, T> for FixedFallback<T> {
    closed spec fn result_for(&self, args: A) -> T {
        self.value
    }

    fn call_ref(&self, args: A) -> (r: T) {
        self.value
    }

    fn call_mut(&mut self, args: A) -> (r: T) {
        self.value
    }
}

/// The outcome of one generated static-method or foreign-function body
/// over the global tracker slot `slot`.
pub open spec fn spec_static_outcome<T, F: ResultSource<T>>(
    slot: Option<CallTracker<T, F>>,
) -> Result<T, StaticFault> {
    match slot {
        None => Err(StaticFault::NoTrackerInstalled),
        Some(t) => match CallTracker::spec_call_result(t) {
            Err(f) => Err(StaticFault::Tracker(f)),
            Ok(Some(v)) => Ok(v),
            Ok(None) => Err(StaticFault::NoScriptedValue),
        },
    }
}

/// The outcome of one generated instance-method body: the tracker's
/// answer when it has one, else the fallback branch.
pub open spec fn spec_instance_outcome<T, F: ResultSource<T>, A, B: FallbackObject<A, T>>(
    slot: Option<CallTracker<T, F>>,
    fallback: Option<B>,
    branch: FallbackBranch,
    args: A,
) -> Result<T, InstanceFault> {
    let scripted = match slot {
        None => Ok(None),
        Some(t) => CallTracker::spec_call_result(t),
    };
    match scripted {
        Err(f) => Err(InstanceFault::Tracker(f)),
        Ok(Some(v)) => Ok(v),
        Ok(None) => match branch {
            FallbackBranch::DelegateRef | FallbackBranch::DelegateMut => match fallback {
                Some(b) => Ok(b.result_for(args)),
                None => Err(InstanceFault::NoFallbackOrResult),
            },
            FallbackBranch::FailOwned => Err(InstanceFault::OwnedReceiverFallback),
            FallbackBranch::FailDisabled => Err(InstanceFault::FallbackDisabled),
        },
    }
}

/// One invocation of a generated instance-method body. When the tracker
/// yields nothing for this invocation — absent, exhausted at this index,
/// or never configured — a delegating branch hands the call-through
/// arguments to the fallback object under the receiver's borrow mode and
/// returns its answer verbatim; the failing branches fail.
pub fn dispatch_instance_call<T, F: ResultSource<T>, A, B: FallbackObject<A, T>>(
    tracker: &mut Option<CallTracker<T, F>>,
    fallback: &mut Option<B>,
    branch: FallbackBranch,
    args: A,
) -> (r: Result<T, InstanceFault>)
    requires
        (*old(tracker)) is Some ==> (*old(tracker)).unwrap().current_num < usize::MAX,
    ensures
        r == spec_instance_outcome(*old(tracker), *old(fallback), branch, args),
        (*final(tracker)) is Some <==> (*old(tracker)) is Some,
        (*old(tracker)) is Some ==> CallTracker::call_step(
            (*old(tracker)).unwrap(),
            (*final(tracker)).unwrap(),
            CallTracker::spec_call_result((*old(tracker)).unwrap()),
        ),
        branch == FallbackBranch::DelegateMut || *final(fallback) == *old(fallback),
        (*final(fallback)) is Some <==> (*old(fallback)) is Some,
{
    let scripted: Result<Option<T>, CallFault> = match tracker {
        Some(t) => t.call(),
        None => Ok(None),
    };
    match scripted {
        Err(f) => Err(InstanceFault::Tracker(f)),
        Ok(Some(v)) => Ok(v),
        Ok(None) => match branch {
            FallbackBranch::DelegateRef => match fallback {
                Some(b) => Ok(b.call_ref(args)),
                None => Err(InstanceFault::NoFallbackOrResult),
            },
            FallbackBranch::DelegateMut => match fallback {
                Some(b) => Ok(b.call_mut(args)),
                None => Err(InstanceFault::NoFallbackOrResult),
            },
            FallbackBranch::FailOwned => Err(InstanceFault::OwnedReceiverFallback),
            FallbackBranch::FailDisabled => Err(InstanceFault::FallbackDisabled),
        },
    }
}

/// One invocation of a generated static-method or foreign-function body:
/// no tracker installed is fatal, and so is an installed tracker with
/// nothing scripted — free functions have no fallback.
pub fn dispatch_static_call<T, F: ResultSource<T>>(
    tracker: &mut Option<CallTracker<T, F>>,
) -> (r: Result<T, StaticFault>)
    requires
        (*old(tracker)) is Some ==> (*old(tracker)).unwrap().current_num < usize::MAX,
    ensures
        r == spec_static_outcome(*old(tracker)),
        (*final(tracker)) is Some <==> (*old(tracker)) is Some,
        (*old(tracker)) is Some ==> CallTracker::call_step(
            (*old(tracker)).unwrap(),
            (*final(tracker)).unwrap(),
            CallTracker::spec_call_result((*old(tracker)).unwrap()),
        ),
{
    match tracker {
        Some(t) => match t.call() {
            Err(f) => Err(StaticFault::Tracker(f)),
            Ok(Some(v)) => Ok(v),
            Ok(None) => Err(StaticFault::NoScriptedValue),
        },
        None => Err(StaticFault::NoTrackerInstalled),
    }
}

/// Installs a tracker into a mock's slot, as a generated setter does,
/// and hands any displaced tracker back so the caller can finalize it.
pub fn install_tracker<T, F>(slot: &mut Option<CallTracker<T, F>>, t: CallTracker<T, F>) -> (r:
    Option<CallTracker<T, F>>)
    ensures
        *final(slot) == Some(t),
        r == *old(slot),
{
    let prev = slot.take();
    *slot = Some(t);
    prev
}

/// Empties a tracker slot, as a generated clear operation does, and
/// hands the removed tracker back so the caller can finalize it — which
/// is where a cleared tracker's minimum-call check happens.
pub fn clear_tracker<T, F>(slot: &mut Option<CallTracker<T, F>>) -> (r: Option<
    CallTracker<T, F>,
>)
    ensures
        *final(slot) == None::<CallTracker<T, F>>,
        r == *old(slot),
{
    slot.take()
}

/// When a method's tracker is absent, or holds nothing for this
/// invocation, a delegating branch answers with the fallback object's
/// own result for the very arguments of the call — by shared or by
/// mutable borrow alike — while a by-value receiver fails outright and
/// a disabled fallback fails outright, never silently skipping.
pub proof fn lemma_fallback_delegation<T, F: ResultSource<T>, A, B: FallbackObject<A, T>>(
    slot: Option<CallTracker<T, F>>,
    fallback: B,
    branch: FallbackBranch,
    args: A,
)
    requires
        match slot {
            None => true,
            Some(t) => CallTracker::spec_call_result(t) == Ok::<Option<T>, CallFault>(None),
        },
    ensures
        branch == FallbackBranch::DelegateRef || branch == FallbackBranch::DelegateMut
            ==> spec_instance_outcome(slot, Some(fallback), branch, args) == Ok::<T, InstanceFault>(
            fallback.result_for(args),
        ),
        branch == FallbackBranch::FailOwned ==> spec_instance_outcome(
            slot,
            Some(fallback),
            branch,
            args,
        ) == Err::<T, InstanceFault>(InstanceFault::OwnedReceiverFallback),
        branch == FallbackBranch::FailDisabled ==> spec_instance_outcome(
            slot,
            Some(fallback),
            branch,
            args,
        ) == Err::<T, InstanceFault>(InstanceFault::FallbackDisabled),
{
}

/// A tracker answering a scripted value answers it identically through
/// the static-function protocol and through the instance-method
/// protocol: once installed, a foreign function's tracker behaves as an
/// instance method's does.
pub proof fn lemma_static_matches_instance_when_scripted<
    T,
    F: ResultSource<T>,
    A,
    B: FallbackObject<A, T>,
>(t: CallTracker<T, F>, fallback: Option<B>, branch: FallbackBranch, args: A, v: T)
    requires
        CallTracker::spec_call_result(t) == Ok::<Option<T>, CallFault>(Some(v)),
    ensures
        spec_static_outcome(Some(t)) == Ok::<T, StaticFault>(v),
        spec_instance_outcome(Some(t), fallback, branch, args) == Ok::<T, InstanceFault>(v),
{
}

} // verus!
