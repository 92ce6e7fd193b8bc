//! The per-method call tracker: the runtime state machine that every
//! generated mock method is wired to. A tracker records scripted results
//! keyed by invocation number, an optional dynamic result source consulted
//! on every call, a never-call flag, and minimum/maximum invocation bounds
//! enforced at call time and at finalization.
//!
//! A tracker is a plain value. Where one is shared — the global storage
//! behind static and foreign functions — the embedding serializes access
//! around it; nothing in the state machine itself depends on an ordering
//! between threads.

use std::collections::HashMap;
use vstd::prelude::*;

verus! {

/// A configuration-time usage error on a tracker builder.
#[derive(Clone, Copy, Debug, PartialEq, Eq, Structural)]
pub enum ConfigFault {
    /// Scripted per-index results and a dynamic result source were both
    /// requested on the same tracker; the two are mutually exclusive.
    MixedResultModes,
    /// `never_called` and `called_at_most` were both requested on the
    /// same tracker; the two are mutually exclusive.
    MixedCallBounds,
}

/// A failure raised while invoking a tracker.
#[derive(Clone, Copy, Debug, PartialEq, Eq, Structural)]
pub enum CallFault {
    /// The tracker was marked `never_called`.
    NeverCalled,
    /// The invocation count exceeded the configured `called_at_most`
    /// bound; the field carries the offending invocation number.
    AtMostExceeded { invocation: usize },
}

/// A failure raised when a tracker is finalized.
#[derive(Clone, Copy, Debug, PartialEq, Eq, Structural)]
pub enum FinalizeFault {
    /// Fewer invocations were observed than `called_at_least` demanded.
    MinimumNotMet { observed: usize, minimum: usize },
}

/// A supplier of dynamic results, consulted on every call once installed.
/// It stands where a caller of the source language would hand the tracker
/// a closure; implementors may carry arbitrary mutable state. `value_at(k)`
/// names the value the source yields on its `k`-th production (1-based),
/// and `produced()` counts the productions made so far.
pub trait ResultSource<T> {
    /// How many values this source has produced.
    spec fn produced(&self) -> nat;

    /// The value this source yields on its `k`-th production, `k >= 1`.
    spec fn value_at(&self, k: nat) -> T;

    /// Produce the next value.
    fn produce(&mut self) -> (r: T)
        ensures
            final(self).produced() == old(self).produced() + 1,
            r == old(self).value_at(old(self).produced() + 1),
            forall|k: nat| final(self).value_at(k) == old(self).value_at(k),
    ;
}

/// A source that yields the same value on every production.
pub struct FixedSource<T> {
    value: T,
    produced_count: Ghost<nat>,
}

impl<T: Copy> FixedSource<T> {
    /// A source that always yields `value`.
    pub fn new(value: T) -> (r: Self)
        ensures
            r.produced() == 0,
            forall|k: nat| r.value_at(k) == value,
    {
        FixedSource { value, produced_count: Ghost(0) }
    }
}

impl<T: Copy> ResultSource<T> for FixedSource<T> {
    closed spec fn produced(&self) -> nat {
        self.produced_count@
    }

    closed spec fn value_at(&self, k: nat) -> T {
        self.value
    }

    fn produce(&mut self) -> (r: T) {
        self.produced_count = Ghost(self.produced_count@ + 1);
        self.value
    }
}

/// The value a [`CountingSource`] started at `start` yields on its `k`-th
/// production: `start + k`, saturating at `isize::MAX`.
pub open spec fn counting_value(start: int, k: nat) -> isize {
    if start + k <= isize::MAX {
        (start + k) as isize
    } else {
        isize::MAX
    }
}

/// A source that yields `start + 1`, `start + 2`, ... on successive
/// productions, saturating at `isize::MAX`: the stateful counter that
/// mock consumers commonly script.
pub struct CountingSource {
    current: isize,
    start: Ghost<isize>,
    produced_count: Ghost<nat>,
}

impl CountingSource {
    #[verifier::type_invariant]
    spec fn inv(self) -> bool {
        self.current == counting_value(self.start@ as int, self.produced_count@)
    }

    /// A source whose first production is `start + 1`.
    pub fn new(start: isize) -> (r: Self)
        ensures
            r.produced() == 0,
            forall|k: nat| r.value_at(k) == counting_value(start as int, k),
    {
        CountingSource { current: start, start: Ghost(start), produced_count: Ghost(0) }
    }
}

impl ResultSource<isize> for CountingSource {
    closed spec fn produced(&self) -> nat {
        self.produced_count@
    }

    closed spec fn value_at(&self, k: nat) -> isize {
        counting_value(self.start@ as int, k)
    }

    fn produce(&mut self) -> (r: isize) {
        proof {
            use_type_invariant(&*self);
        }
        let next = if self.current == isize::MAX {
            isize::MAX
        } else {
            self.current + 1
        };
        let start: Ghost<isize> = self.start;
        let count: Ghost<nat> = Ghost(self.produced_count@ + 1);
        proof {
            assert(next == counting_value(start@ as int, count@)) by {
                if self.current == isize::MAX {
                    assert(start@ + self.produced_count@ + 1 > isize::MAX);
                } else {
                    assert(start@ + self.produced_count@ <= isize::MAX);
                }
            }
        }
        *self = CountingSource { current: next, start, produced_count: count };
        next
    }
}

/// A source that yields a clone of the same `String` on every production.
pub struct StringSource {
    value: String,
    produced_count: Ghost<nat>,
}

impl StringSource {
    /// A source that always yields `value`.
    pub fn new(value: String) -> (r: Self)
        ensures
            r.produced() == 0,
            forall|k: nat| r.value_at(k) == value,
    {
        StringSource { value, produced_count: Ghost(0) }
    }
}

impl ResultSource<String> for StringSource {
    closed spec fn produced(&self) -> nat {
        self.produced_count@
    }

    closed spec fn value_at(&self, k: nat) -> String {
        self.value
    }

    fn produce(&mut self) -> (r: String) {
        self.produced_count = Ghost(self.produced_count@ + 1);
        self.value.clone()
    }
}

/// A source that wraps each production of an inner source in `Some`.
pub struct SomeSource<S> {
    inner: S,
}

impl<S> SomeSource<S> {
    /// Wraps `inner`.
    pub fn new<T>(inner: S) -> (r: Self) where S: ResultSource<T>
        ensures
            r.produced() == inner.produced(),
            forall|k: nat| (#[trigger] r.value_at(k)) == Some(inner.value_at(k)),
    {
        SomeSource { inner }
    }
}

impl<T, S: ResultSource<T>> ResultSource<Option<T>> for SomeSource<S> {
    closed spec fn produced(&self) -> nat {
        self.inner.produced()
    }

    closed spec fn value_at(&self, k: nat) -> Option<T> {
        Some(self.inner.value_at(k))
    }

    fn produce(&mut self) -> (r: Option<T>) {
        Some(self.inner.produce())
    }
}

/// The call tracker generated for each mocked method. `T` is the method's
/// return type; `F` is the dynamic result source a consumer may install
/// with `return_result_of`.
///
/// `call_num` is the invocation index that `set_result` currently targets;
/// `current_num` is the index the next invocation will carry. Both start
/// at 1: the first invocation is invocation 1.
pub struct CallTracker<T, F> {
    pub call_num: usize,
    pub current_num: usize,
    pub retval: HashMap<usize, T>,
    pub source: Option<F>,
    pub should_never_be_called: bool,
    pub max_calls: Option<usize>,
    pub min_calls: Option<usize>,
}

impl<T, F> CallTracker<T, F> {
    /// Counters start at 1 and stay at least 1.
    pub open spec fn wf(&self) -> bool {
        &&& self.current_num >= 1
        &&& self.call_num >= 1
    }

    /// The scripted results, keyed by invocation number.
    pub open spec fn scripted(&self) -> Map<usize, T> {
        self.retval@
    }

    /// A fresh tracker: nothing scripted, no source, no bounds, counters
    /// at 1.
    pub fn new() -> (r: Self)
        ensures
            r.call_num == 1,
            r.current_num == 1,
            r.scripted() == Map::<usize, T>::empty(),
            r.source is None,
            !r.should_never_be_called,
            r.max_calls is None,
            r.min_calls is None,
            r.wf(),
    {
        CallTracker {
            call_num: 1,
            current_num: 1,
            retval: HashMap::new(),
            source: None,
            should_never_be_called: false,
            max_calls: None,
            min_calls: None,
        }
    }

    /// Aims subsequent `set_result` calls at invocation `num`.
    pub fn nth_call(self, num: usize) -> (r: Self)
        ensures
            r == (Self { call_num: num, ..self }),
    {
        Self { call_num: num, ..self }
    }

    /// Aims subsequent `set_result` calls at the first invocation.
    pub fn first_call(self) -> (r: Self)
        ensures
            r == (Self { call_num: 1usize, ..self }),
    {
        self.nth_call(1)
    }

    /// Aims subsequent `set_result` calls at the second invocation.
    pub fn second_call(self) -> (r: Self)
        ensures
            r == (Self { call_num: 2usize, ..self }),
    {
        self.nth_call(2)
    }

    /// Scripts `retval` as the result of the invocation currently aimed
    /// at. Mutually exclusive with `return_result_of`; see
    /// [`Self::try_set_result`] for the checked form.
    pub fn set_result(self, retval: T) -> (r: Self)
        requires
            self.source is None,
        ensures
            r.call_num == self.call_num,
            r.current_num == self.current_num,
            r.scripted() == self.scripted().insert(self.call_num, retval),
            r.source is None,
            r.should_never_be_called == self.should_never_be_called,
            r.max_calls == self.max_calls,
            r.min_calls == self.min_calls,
    {
        let mut s = self;
        s.retval.insert(s.call_num, retval);
        s
    }

    /// Checked form of [`Self::set_result`]: scripting a result after a
    /// dynamic source has been installed is a usage error.
    pub fn try_set_result(self, retval: T) -> (r: Result<Self, ConfigFault>)
        ensures
            match r {
                Ok(t) => {
                    &&& self.source is None
                    &&& t.call_num == self.call_num
                    &&& t.current_num == self.current_num
                    &&& t.scripted() == self.scripted().insert(self.call_num, retval)
                    &&& t.source is None
                    &&& t.should_never_be_called == self.should_never_be_called
                    &&& t.max_calls == self.max_calls
                    &&& t.min_calls == self.min_calls
                },
                Err(f) => self.source is Some && f == ConfigFault::MixedResultModes,
            },
    {
        if self.source.is_some() {
            Err(ConfigFault::MixedResultModes)
        } else {
            Ok(self.set_result(retval))
        }
    }

    /// Installs a dynamic source consulted on every invocation, in place
    /// of the per-index script. Mutually exclusive with `set_result`; see
    /// [`Self::try_return_result_of`] for the checked form.
    pub fn return_result_of(self, source: F) -> (r: Self)
        requires
            self.scripted() == Map::<usize, T>::empty(),
        ensures
            r == (Self { source: Some(source), ..self }),
    {
        Self { source: Some(source), ..self }
    }

    /// Checked form of [`Self::return_result_of`]: installing a dynamic
    /// source after a result has been scripted is a usage error.
    pub fn try_return_result_of(self, source: F) -> (r: Result<Self, ConfigFault>)
        ensures
            match r {
                Ok(t) => {
                    &&& self.scripted() == Map::<usize, T>::empty()
                    &&& t == (Self { source: Some(source), ..self })
                },
                Err(f) => {
                    &&& self.scripted() != Map::<usize, T>::empty()
                    &&& f == ConfigFault::MixedResultModes
                },
            },
    {
        if self.retval.is_empty() {
            proof {
                assert(self.scripted() =~= Map::<usize, T>::empty());
            }
            Ok(self.return_result_of(source))
        } else {
            proof {
                assert(self.scripted() != Map::<usize, T>::empty());
            }
            Err(ConfigFault::MixedResultModes)
        }
    }

    /// Forbids the method outright: any invocation fails. Mutually
    /// exclusive with `called_at_most`; see [`Self::try_never_called`].
    pub fn never_called(self) -> (r: Self)
        requires
            self.max_calls is None,
        ensures
            r == (Self { should_never_be_called: true, ..self }),
    {
        let mut s = self;
        s.should_never_be_called = true;
        s
    }

    /// Checked form of [`Self::never_called`].
    pub fn try_never_called(self) -> (r: Result<Self, ConfigFault>)
        ensures
            match r {
                Ok(t) => self.max_calls is None && t == (
                Self { should_never_be_called: true, ..self }),
                Err(f) => self.max_calls is Some && f == ConfigFault::MixedCallBounds,
            },
    {
        if self.max_calls.is_some() {
            Err(ConfigFault::MixedCallBounds)
        } else {
            Ok(self.never_called())
        }
    }

    /// Bounds the invocation count from above. Mutually exclusive with
    /// `never_called`; see [`Self::try_called_at_most`].
    pub fn called_at_most(self, calls: usize) -> (r: Self)
        requires
            !self.should_never_be_called,
        ensures
            r == (Self { max_calls: Some(calls), ..self }),
    {
        let mut s = self;
        s.max_calls = Some(calls);
        s
    }

    /// Checked form of [`Self::called_at_most`].
    pub fn try_called_at_most(self, calls: usize) -> (r: Result<Self, ConfigFault>)
        ensures
            match r {
                Ok(t) => !self.should_never_be_called && t == (
                Self { max_calls: Some(calls), ..self }),
                Err(f) => self.should_never_be_called && f == ConfigFault::MixedCallBounds,
            },
    {
        if self.should_never_be_called {
            Err(ConfigFault::MixedCallBounds)
        } else {
            Ok(self.called_at_most(calls))
        }
    }

    /// Bounds the invocation count from below; checked at finalization.
    pub fn called_at_least(self, calls: usize) -> (r: Self)
        ensures
            r == (Self { min_calls: Some(calls), ..self }),
    {
        let mut s = self;
        s.min_calls = Some(calls);
        s
    }

    /// Demands exactly one invocation: `called_at_most(1)` and
    /// `called_at_least(1)` together.
    pub fn called_once(self) -> (r: Self)
        requires
            !self.should_never_be_called,
        ensures
            r == (Self { max_calls: Some(1usize), min_calls: Some(1usize), ..self }),
    {
        self.called_at_most(1).called_at_least(1)
    }

    /// Demands exactly `calls` invocations: `called_at_most(calls)` and
    /// `called_at_least(calls)` together.
    pub fn called_ntimes(self, calls: usize) -> (r: Self)
        requires
            !self.should_never_be_called,
        ensures
            r == (Self { max_calls: Some(calls), min_calls: Some(calls), ..self }),
    {
        self.called_at_most(calls).called_at_least(calls)
    }

    /// True when invocation number `invocation` oversteps the configured
    /// maximum.
    pub open spec fn spec_exceeds_max_calls(&self, invocation: usize) -> bool {
        match self.max_calls {
            Some(m) => invocation > m,
            None => false,
        }
    }

    fn exceeds_max_calls(&self, invocation: usize) -> (r: bool)
        ensures
            r == self.spec_exceeds_max_calls(invocation),
    {
        match self.max_calls {
            Some(m) => invocation > m,
            None => false,
        }
    }

    /// Whether a tracker owes a finalization failure: a configured
    /// minimum that the observed invocation count fell short of.
    pub open spec fn spec_finalize_fault(&self) -> Option<FinalizeFault> {
        match self.min_calls {
            Some(m) => if self.current_num - 1 < m {
                Some(
                    FinalizeFault::MinimumNotMet {
                        observed: (self.current_num - 1) as usize,
                        minimum: m,
                    },
                )
            } else {
                None
            },
            None => None,
        }
    }

    /// Finalizes the tracker, as the generated mock does when it is
    /// dropped or when a global tracker is cleared: if a minimum
    /// invocation count was configured, the invocations observed must
    /// reach it.
    pub fn finalize(self) -> (r: Result<(), FinalizeFault>)
        requires
            self.wf(),
        ensures
            match self.spec_finalize_fault() {
                Some(f) => r == Err::<(), FinalizeFault>(f),
                None => r == Ok::<(), FinalizeFault>(()),
            },
    {
        match self.min_calls {
            Some(m) => {
                let observed = self.current_num - 1;
                if observed < m {
                    Err(FinalizeFault::MinimumNotMet { observed, minimum: m })
                } else {
                    Ok(())
                }
            },
            None => Ok(()),
        }
    }
}

impl<T, F: ResultSource<T>> CallTracker<T, F> {
    /// What one invocation of a tracker in state `t` returns. The result
    /// is a function of the state alone; only the post-state of the
    /// dynamic source is left to [`Self::call_step`].
    pub open spec fn spec_call_result(t: Self) -> Result<Option<T>, CallFault> {
        if t.should_never_be_called {
            Err(CallFault::NeverCalled)
        } else if t.spec_exceeds_max_calls(t.current_num) {
            Err(CallFault::AtMostExceeded { invocation: t.current_num })
        } else {
            match t.source {
                Some(src) => Ok(Some(src.value_at(src.produced() + 1))),
                None => if t.scripted().contains_key(t.current_num) {
                    Ok(Some(t.scripted()[t.current_num]))
                } else {
                    Ok(None)
                },
            }
        }
    }

    /// The invocation protocol, as one step relation: `post` and `r` are
    /// a permitted outcome of invoking `pre` once. The relation is exact
    /// but for the dynamic source's own state, which only its
    /// [`ResultSource`] contract constrains.
    pub open spec fn call_step(pre: Self, post: Self, r: Result<Option<T>, CallFault>) -> bool {
        if pre.should_never_be_called {
            &&& post == pre
            &&& r == Err::<Option<T>, CallFault>(CallFault::NeverCalled)
        } else {
            &&& post.call_num == pre.call_num
            &&& post.current_num == pre.current_num + 1
            &&& !post.should_never_be_called
            &&& post.max_calls == pre.max_calls
            &&& post.min_calls == pre.min_calls
            &&& if pre.spec_exceeds_max_calls(pre.current_num) {
                &&& r == Err::<Option<T>, CallFault>(
                    CallFault::AtMostExceeded { invocation: pre.current_num },
                )
                &&& post.scripted() == pre.scripted()
                &&& post.source == pre.source
            } else {
                match pre.source {
                    Some(src) => {
                        &&& post.scripted() == pre.scripted()
                        &&& post.source is Some
                        &&& post.source.unwrap().produced() == src.produced() + 1
                        &&& forall|k: nat|
                            post.source.unwrap().value_at(k) == src.value_at(k)
                        &&& r == Ok::<Option<T>, CallFault>(
                            Some(src.value_at(src.produced() + 1)),
                        )
                    },
                    None => {
                        &&& post.source is None
                        &&& if pre.scripted().contains_key(pre.current_num) {
                            &&& r == Ok::<Option<T>, CallFault>(
                                Some(pre.scripted()[pre.current_num]),
                            )
                            &&& post.scripted() == pre.scripted().remove(pre.current_num)
                        } else {
                            &&& r == Ok::<Option<T>, CallFault>(None)
                            &&& post.scripted() == pre.scripted()
                        }
                    },
                }
            }
        }
    }

    /// One invocation of the tracker. Fails if the method was marked
    /// never-called, or if the invocation number oversteps a configured
    /// maximum (the counter still advances, as the generated tracker's
    /// does). Otherwise the dynamic source answers if installed; else the
    /// scripted result for this invocation number is removed and
    /// returned, `None` standing for "nothing scripted here" — the
    /// caller's cue to fall back or fail.
    pub fn call(&mut self) -> (r: Result<Option<T>, CallFault>)
        requires
            old(self).current_num < usize::MAX,
        ensures
            Self::call_step(*old(self), *final(self), r),
            r == Self::spec_call_result(*old(self)),
    {
        let ghost pre = *self;
        if self.should_never_be_called {
            return Err(CallFault::NeverCalled);
        }
        let current = self.current_num;
        self.current_num = current + 1;
        if self.exceeds_max_calls(current) {
            return Err(CallFault::AtMostExceeded { invocation: current });
        }
        let src_opt = self.source.take();
        match src_opt {
            Some(mut src) => {
                let v = src.produce();
                self.source = Some(src);
                Ok(Some(v))
            },
            None => {
                let removed = self.retval.remove(&current);
                proof {
                    if !pre.scripted().contains_key(current) {
                        assert(self.retval@ =~= pre.retval@);
                    }
                }
                Ok(removed)
            },
        }
    }

    /// `states` and `results` record `results.len()` successive
    /// invocations of one tracker: `states[0]` before the first,
    /// `states[i + 1]` and `results[i]` after and from the `i`-th.
    pub open spec fn call_chain(
        states: Seq<Self>,
        results: Seq<Result<Option<T>, CallFault>>,
    ) -> bool {
        &&& states.len() == results.len() + 1
        &&& forall|i: int|
            0 <= i < results.len() ==> #[trigger] Self::call_step(
                states[i],
                states[i + 1],
                results[i],
            )
    }

    /// A tracker marked never-called fails every invocation at once and
    /// never advances: no invocation, and so no finalization check, is
    /// ever reached through it.
    pub proof fn lemma_never_called_fails_immediately(
        pre: Self,
        post: Self,
        r: Result<Option<T>, CallFault>,
    )
        requires
            pre.should_never_be_called,
            Self::call_step(pre, post, r),
        ensures
            r == Err::<Option<T>, CallFault>(CallFault::NeverCalled),
            post == pre,
    {
    }

    proof fn lemma_scripted_chain_state(
        states: Seq<Self>,
        results: Seq<Result<Option<T>, CallFault>>,
        k: usize,
        v: T,
        n: int,
    )
        requires
            Self::call_chain(states, results),
            states[0].current_num == 1,
            states[0].scripted() == Map::<usize, T>::empty().insert(k, v),
            states[0].source is None,
            !states[0].should_never_be_called,
            states[0].max_calls is None,
            0 <= n < states.len(),
        ensures
            states[n].current_num == 1 + n,
            states[n].source is None,
            !states[n].should_never_be_called,
            states[n].max_calls is None,
            states[n].scripted() == if k >= 1 && n >= k {
                Map::<usize, T>::empty()
            } else {
                Map::<usize, T>::empty().insert(k, v)
            },
        decreases n,
    {
        if n > 0 {
            Self::lemma_scripted_chain_state(states, results, k, v, n - 1);
            let i = n - 1;
            let pre = states[i];
            assert(Self::call_step(states[i], states[i + 1], results[i]));
            if !(k >= 1 && i >= k) && pre.current_num == k {
                assert(pre.scripted().remove(k) =~= Map::<usize, T>::empty());
            }
        }
    }

    /// A tracker whose whole script is one result `v` at invocation `k`
    /// answers `v` on the `k`-th invocation and "nothing scripted" on
    /// every other, whatever the invocation count.
    pub proof fn lemma_scripted_result_only_at_index(
        states: Seq<Self>,
        results: Seq<Result<Option<T>, CallFault>>,
        k: usize,
        v: T,
    )
        requires
            Self::call_chain(states, results),
            states[0].current_num == 1,
            states[0].scripted() == Map::<usize, T>::empty().insert(k, v),
            states[0].source is None,
            !states[0].should_never_be_called,
            states[0].max_calls is None,
        ensures
            forall|i: int|
                0 <= i < results.len() ==> results[i] == if i + 1 == k {
                    Ok::<Option<T>, CallFault>(Some(v))
                } else {
                    Ok::<Option<T>, CallFault>(None)
                },
    {
        assert forall|i: int| 0 <= i < results.len() implies results[i] == (if i + 1 == k {
            Ok::<Option<T>, CallFault>(Some(v))
        } else {
            Ok::<Option<T>, CallFault>(None)
        }) by {
            Self::lemma_scripted_chain_state(states, results, k, v, i);
            assert(Self::call_step(states[i], states[i + 1], results[i]));
        }
    }

    proof fn lemma_dynamic_chain_state(
        states: Seq<Self>,
        results: Seq<Result<Option<T>, CallFault>>,
        n: int,
    )
        requires
            Self::call_chain(states, results),
            states[0].source is Some,
            !states[0].should_never_be_called,
            states[0].max_calls is None,
            0 <= n < states.len(),
        ensures
            states[n].source is Some,
            states[n].source.unwrap().produced() == states[0].source.unwrap().produced() + n,
            forall|j: nat|
                states[n].source.unwrap().value_at(j) == states[0].source.unwrap().value_at(j),
            states[n].current_num == states[0].current_num + n,
            !states[n].should_never_be_called,
            states[n].max_calls is None,
        decreases n,
    {
        if n > 0 {
            Self::lemma_dynamic_chain_state(states, results, n - 1);
            let i = n - 1;
            assert(Self::call_step(states[i], states[i + 1], results[i]));
        }
    }

    /// A tracker holding a dynamic source ignores its per-index script:
    /// `m` invocations draw the source's next `m` productions in order
    /// and hand each back verbatim — so a stateful source shows its
    /// changing values, one per invocation.
    pub proof fn lemma_dynamic_results_in_order(
        states: Seq<Self>,
        results: Seq<Result<Option<T>, CallFault>>,
    )
        requires
            Self::call_chain(states, results),
            states[0].source is Some,
            !states[0].should_never_be_called,
            states[0].max_calls is None,
        ensures
            forall|i: int|
                0 <= i < results.len() ==> results[i] == Ok::<Option<T>, CallFault>(
                    Some(
                        states[0].source.unwrap().value_at(
                            (states[0].source.unwrap().produced() + i + 1) as nat,
                        ),
                    ),
                ),
            states[states.len() - 1].source.unwrap().produced() == states[0].source.unwrap().produced() + results.len(),
    {
        assert forall|i: int| 0 <= i < results.len() implies results[i] == Ok::<
            Option<T>,
            CallFault,
        >(Some(
            states[0].source.unwrap().value_at(
                (states[0].source.unwrap().produced() + i + 1) as nat,
            ),
        ))
            by {
            Self::lemma_dynamic_chain_state(states, results, i);
            assert(Self::call_step(states[i], states[i + 1], results[i]));
        }
        Self::lemma_dynamic_chain_state(states, results, states.len() - 1);
    }

    /// `called_once` demands exactly one invocation: it is
    /// `called_at_most(1)` together with `called_at_least(1)`, and a
    /// tracker so bounded admits its first invocation, refuses a second,
    /// fails finalization when never invoked, and passes it after the one
    /// invocation.
    pub proof fn lemma_called_once_behavior(
        t: Self,
        t1: Self,
        r1: Result<Option<T>, CallFault>,
        t2: Self,
        r2: Result<Option<T>, CallFault>,
    )
        requires
            t.current_num == 1,
            t.max_calls == Some(1usize),
            t.min_calls == Some(1usize),
            !t.should_never_be_called,
            Self::call_step(t, t1, r1),
            Self::call_step(t1, t2, r2),
        ensures
            t.spec_finalize_fault() == Some(
                FinalizeFault::MinimumNotMet { observed: 0usize, minimum: 1usize },
            ),
            !(r1 is Err),
            t1.spec_finalize_fault() is None,
            r2 == Err::<Option<T>, CallFault>(CallFault::AtMostExceeded { invocation: 2usize }),
    {
    }

    /// Scripted results and a dynamic source exclude one another in both
    /// orders: once a source is installed, the state refuses
    /// `try_set_result`; once any result is scripted, the state refuses
    /// `try_return_result_of` — each before any invocation happens.
    pub proof fn lemma_result_modes_mutually_exclusive(t: Self, v: T, src: F)
        ensures
            (Self { source: Some(src), ..t }).source is Some,
            t.scripted().insert(t.call_num, v) != Map::<usize, T>::empty(),
    {
        assert(t.scripted().insert(t.call_num, v).contains_key(t.call_num));
    }
}

} // verus!
