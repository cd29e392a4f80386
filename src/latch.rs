//! The one-shot latch that both token pairs are built on.
use vstd::prelude::*;

verus! {

/// The mathematical state of a [`Latch`].
pub struct LatchView<T, W> {
    pub fired: bool,
    pub payload: Option<T>,
    pub continuation: Option<W>,
}

impl<T, W> LatchView<T, W> {
    /// A latch that has not fired and has nobody waiting on it.
    pub open spec fn pending() -> Self {
        LatchView { fired: false, payload: None, continuation: None }
    }

    /// A payload is held exactly when the latch has fired, and a fired latch keeps no
    /// continuation.
    pub open spec fn wf(self) -> bool {
        &&& self.fired <==> self.payload is Some
        &&& self.fired ==> self.continuation is None
    }

    /// The state after firing with `value`: a pending latch fires, takes the payload and gives
    /// up its continuation; a fired latch stays as it is.
    pub open spec fn fired_with(self, value: T) -> Self {
        if self.fired {
            self
        } else {
            LatchView { fired: true, payload: Some(value), continuation: None }
        }
    }

    /// The continuation that firing this state resumes, if any.
    pub open spec fn resumed_by_fire(self) -> Option<W> {
        if self.fired {
            None
        } else {
            self.continuation
        }
    }

    /// The state after a poll that hands in `continuation`: a pending latch stores it in place
    /// of any earlier one; a fired latch is left as it is.
    pub open spec fn suspended(self, continuation: W) -> Self {
        if self.fired {
            self
        } else {
            LatchView { continuation: Some(continuation), ..self }
        }
    }

    /// What a poll of this state delivers: the payload once fired, nothing while pending.
    pub open spec fn ready_value(self) -> Option<T> {
        if self.fired {
            self.payload
        } else {
            None
        }
    }

    /// The state after one operation.
    pub open spec fn after(self, op: LatchOp<T, W>) -> Self {
        match op {
            LatchOp::Fire(value) => self.fired_with(value),
            LatchOp::Poll(continuation) => self.suspended(continuation),
        }
    }

    /// The state after a sequence of operations, in order.
    pub open spec fn after_all(self, ops: Seq<LatchOp<T, W>>) -> Self
        decreases ops.len(),
    {
        if ops.len() == 0 {
            self
        } else {
            self.after(ops[0]).after_all(ops.drop_first())
        }
    }

    /// The state after firing with each of `values`, in order.
    pub open spec fn fired_with_each(self, values: Seq<T>) -> Self
        decreases values.len(),
    {
        if values.len() == 0 {
            self
        } else {
            self.fired_with(values[0]).fired_with_each(values.drop_first())
        }
    }

    /// How many continuations are resumed while firing with each of `values`, in order.
    pub open spec fn resumptions(self, values: Seq<T>) -> nat
        decreases values.len(),
    {
        if values.len() == 0 {
            0
        } else {
            let here: nat = if self.resumed_by_fire() is Some {
                1
            } else {
                0
            };
            here + self.fired_with(values[0]).resumptions(values.drop_first())
        }
    }

    /// The state after polls that hand in each of `continuations`, in order.
    pub open spec fn suspended_each(self, continuations: Seq<W>) -> Self
        decreases continuations.len(),
    {
        if continuations.len() == 0 {
            self
        } else {
            self.suspended(continuations[0]).suspended_each(continuations.drop_first())
        }
    }
}

/// An operation on a latch: a fire with a payload, or a poll that hands in a continuation.
#[derive(Debug)]
pub enum LatchOp<T, W> {
    Fire(T),
    Poll(W),
}

/// A one-way flag, `pending -> fired`, that carries a payload from the moment it fires and keeps
/// at most one continuation of a party suspended on it.
#[derive(Debug)]
pub struct Latch<T, W> {
    fired: bool,
    payload: Option<T>,
    continuation: Option<W>,
}

/// Returned when a latch that has already fired is fired again; it hands back the value that was
/// refused.
#[derive(Debug)]
pub struct DoubleCompletionError<T> {
    pub rejected: T,
}

impl<T, W> View for Latch<T, W> {
    type V = LatchView<T, W>;

    closed spec fn view(&self) -> LatchView<T, W> {
        LatchView { fired: self.fired, payload: self.payload, continuation: self.continuation }
    }
}

impl<T, W> Latch<T, W> {
    #[verifier::type_invariant]
    closed spec fn inv(self) -> bool {
        self@.wf()
    }

    /// A fresh latch in the pending state.
    pub fn new() -> (r: Self)
        ensures
            r@ == LatchView::<T, W>::pending(),
            r@.wf(),
    {
        Latch { fired: false, payload: None, continuation: None }
    }

    /// Whether the latch has fired.
    pub fn is_fired(&self) -> (r: bool)
        ensures
            r == self@.fired,
            self@.wf(),
    {
        proof {
            use_type_invariant(self);
        }
        self.fired
    }

    /// Fires the latch with `value`, handing back the continuation to resume. A latch that has
    /// already fired is left unchanged and the value comes back in the error.
    pub fn fire(&mut self, value: T) -> (r: Result<Option<W>, DoubleCompletionError<T>>)
        ensures
            final(self)@ == old(self)@.fired_with(value),
            old(self)@.wf(),
            final(self)@.wf(),
            match r {
                Ok(c) => !old(self)@.fired && c == old(self)@.continuation,
                Err(e) => old(self)@.fired && e.rejected == value,
            },
    {
        proof {
            use_type_invariant(&*self);
        }
        if self.fired {
            return Err(DoubleCompletionError { rejected: value });
        }
        let mut before = Latch { fired: true, payload: Some(value), continuation: None };
        std::mem::swap(self, &mut before);
        Ok(before.continuation)
    }
}

impl<T: Clone, W> Latch<T, W> {
    /// Polls the latch for a party that is resumed through `continuation`. Once the latch has
    /// fired, a copy of the payload is delivered and the continuation is not kept; while it is
    /// pending, nothing is delivered and the continuation takes the place of any earlier one.
    pub fn poll(&mut self, continuation: W) -> (r: Option<T>)
        ensures
            final(self)@ == old(self)@.suspended(continuation),
            old(self)@.wf(),
            final(self)@.wf(),
            r is Some <==> old(self)@.ready_value() is Some,
            r is Some ==> cloned(old(self)@.ready_value()->0, r->0),
    {
        proof {
            use_type_invariant(&*self);
        }
        if self.fired {
            match &self.payload {
                Some(v) => Some(v.clone()),
                None => None,
            }
        } else {
            self.continuation = Some(continuation);
            None
        }
    }
}

/// Firing is final: on a well-formed state, every sequence of operations keeps the state well
/// formed, and once the latch has fired no operation changes it, so it stays fired with the same
/// payload.
pub proof fn lemma_fired_is_final<T, W>(s: LatchView<T, W>, ops: Seq<LatchOp<T, W>>)
    requires
        s.wf(),
    ensures
        s.after_all(ops).wf(),
        s.fired ==> s.after_all(ops) == s,
    decreases ops.len(),
{
    if ops.len() > 0 {
        lemma_fired_is_final(s.after(ops[0]), ops.drop_first());
    }
}

/// Repeated firing: any number of fires, at least one, leaves the latch as the first fire left
/// it, fired, and resumes a continuation at most once: exactly once when a pending latch held one.
pub proof fn lemma_repeated_fire<T, W>(s: LatchView<T, W>, values: Seq<T>)
    requires
        s.wf(),
        values.len() >= 1,
    ensures
        s.fired_with_each(values) == s.fired_with(values[0]),
        s.fired_with_each(values).fired,
        s.resumptions(values) == (if s.resumed_by_fire() is Some {
            1nat
        } else {
            0nat
        }),
{
    let t = s.fired_with(values[0]);
    lemma_fire_on_fired(t, values.drop_first());
}

/// Fires on a latch that has fired change nothing and resume nothing.
proof fn lemma_fire_on_fired<T, W>(t: LatchView<T, W>, values: Seq<T>)
    requires
        t.fired,
    ensures
        t.fired_with_each(values) == t,
        t.resumptions(values) == 0,
    decreases values.len(),
{
    if values.len() > 0 {
        lemma_fire_on_fired(t.fired_with(values[0]), values.drop_first());
    }
}

/// No missed wakeup: a continuation registered by a poll of a pending latch is resumed by the
/// next fire, and any number of fires, at least one, resume it exactly once and nothing else.
pub proof fn lemma_no_missed_wakeup<T, W>(s: LatchView<T, W>, continuation: W, values: Seq<T>)
    requires
        s.wf(),
        !s.fired,
        values.len() >= 1,
    ensures
        s.suspended(continuation).resumed_by_fire() == Some(continuation),
        s.suspended(continuation).resumptions(values) == 1,
        s.suspended(continuation).fired_with_each(values).continuation is None,
{
    lemma_repeated_fire(s.suspended(continuation), values);
}

/// One result for every reader: once a pending latch fires with `value`, any number of polls,
/// made in any order with any continuations, each deliver `value`, and none changes the state.
pub proof fn lemma_every_reader_sees_result<T, W>(
    s: LatchView<T, W>,
    value: T,
    continuations: Seq<W>,
)
    requires
        s.wf(),
        !s.fired,
    ensures
        forall|i: int|
            0 <= i <= continuations.len() ==> #[trigger] s.fired_with(value).suspended_each(
                continuations.take(i),
            ) == s.fired_with(value),
        s.fired_with(value).ready_value() == Some(value),
{
    let t = s.fired_with(value);
    assert forall|i: int| 0 <= i <= continuations.len() implies #[trigger] t.suspended_each(
        continuations.take(i),
    ) == t by {
        lemma_poll_on_fired(t, continuations.take(i));
    }
}

/// Polls of a latch that has fired change nothing.
proof fn lemma_poll_on_fired<T, W>(t: LatchView<T, W>, continuations: Seq<W>)
    requires
        t.fired,
    ensures
        t.suspended_each(continuations) == t,
    decreases continuations.len(),
{
    if continuations.len() > 0 {
        lemma_poll_on_fired(t.suspended(continuations[0]), continuations.drop_first());
    }
}

/// A second completion fails: after a pending latch fires with `first`, it has fired and holds
/// `first`, and a fire with `second` finds it fired, which [`Latch::fire`] rejects, and leaves it
/// unchanged.
pub proof fn lemma_double_fire<T, W>(s: LatchView<T, W>, first: T, second: T)
    requires
        s.wf(),
        !s.fired,
    ensures
        s.fired_with(first).fired,
        s.fired_with(first).payload == Some(first),
        s.fired_with(first).fired_with(second) == s.fired_with(first),
{
}

} // verus!
