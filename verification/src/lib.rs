//! Must-use wrappers around asynchronous computations.
//!
//! A future does nothing until it is polled, so a future that is produced and
//! then silently discarded is almost always a bug.  The wrapper types here
//! carry the `must_use` diagnostic and delegate every poll, unchanged, to the
//! computation they own.

use vstd::prelude::*;

verus! {

/// The outcome a driver observes from one poll of an asynchronous
/// computation: either the computation is still pending, or it has completed
/// with its output.
#[derive(Debug, PartialEq, Eq)]
pub enum PollOutcome<T> {
    /// The computation has not completed yet; it registered a wake-up.
    Pending,
    /// The computation completed and yielded its output.
    Ready(T),
}

/// A wrapper that owns exactly one inner computation and carries the
/// `must_use` diagnostic on its behalf.
#[must_use]
pub struct MustFuture<F: core::future::Future> {
    sub_fut: F,
}

impl<F: core::future::Future> MustFuture<F> {
    /// The inner computation this wrapper owns.
    pub closed spec fn inner(self) -> F {
        self.sub_fut
    }

    /// Wrap an inner computation.  Takes ownership and performs no work: the
    /// inner computation is stored exactly as handed in, never polled here.
    pub fn new(f: F) -> (r: Self)
        ensures
            r.inner() == f,
    {
        MustFuture { sub_fut: f }
    }

    /// Give the inner computation back, exactly as it is currently stored.
    pub fn into_inner(self) -> (r: F)
        ensures
            r == self.inner(),
    {
        self.sub_fut
    }
}

impl<F: core::future::Future> From<F> for MustFuture<F> {
    /// Wrap an inner computation; identical in effect to [`MustFuture::new`].
    fn from(f: F) -> (r: Self)
        ensures
            r.inner() == f,
    {
        MustFuture { sub_fut: f }
    }
}

impl<F: core::future::Future> vstd::std_specs::convert::FromSpecImpl<F> for MustFuture<F> {
    open spec fn obeys_from_spec() -> bool {
        true
    }

    closed spec fn from_spec(f: F) -> Self {
        MustFuture { sub_fut: f }
    }
}

/// Fluent conversion into the generic must-use wrapper: every computation can
/// be wrapped by one chained call instead of naming the constructor.
pub trait IntoMustFuture: core::future::Future + Sized {
    /// Wrap this computation; identical in effect to [`MustFuture::new`].
    fn must_wrap(self) -> (r: MustFuture<Self>)
        ensures
            r.inner() == self;
}

impl<F: core::future::Future> IntoMustFuture for F {
    fn must_wrap(self) -> (r: MustFuture<F>)
        ensures
            r.inner() == self,
    {
        MustFuture::new(self)
    }
}

/// What a must-use wrapper reports for one poll, given the outcome the inner
/// computation just produced: the very same outcome.
pub open spec fn relayed<T>(outcome: PollOutcome<T>) -> PollOutcome<T> {
    outcome
}

/// The single poll decision of a must-use wrapper: pass the inner
/// computation's outcome through unchanged.  No transformation of the output,
/// no extra pending signal, no outcome invented or dropped.
pub fn relay<T>(outcome: PollOutcome<T>) -> (r: PollOutcome<T>)
    ensures
        r == relayed(outcome),
        r == outcome,
{
    outcome
}

/// The run a driver observes from a must-use wrapper, given the run of
/// outcomes the inner computation produces: outcome for outcome, whatever
/// [`relay`] reports.
pub open spec fn wrapper_run<T>(inner_run: Seq<PollOutcome<T>>) -> Seq<PollOutcome<T>> {
    inner_run.map_values(|o: PollOutcome<T>| relayed(o))
}

/// How many pending signals a run of poll outcomes contains.
pub open spec fn pending_count<T>(run: Seq<PollOutcome<T>>) -> nat
    decreases run.len(),
{
    if run.len() == 0 {
        0
    } else {
        (if run[0] is Pending {
            1nat
        } else {
            0nat
        }) + pending_count(run.drop_first())
    }
}

/// Pass-through equivalence: over any run of polls, a driver observes from
/// the wrapper exactly the outcomes the inner computation produces — the same
/// outcomes in the same order, and so the same number of pending signals
/// before the same output.
pub proof fn lemma_pass_through<T>(inner_run: Seq<PollOutcome<T>>)
    ensures
        wrapper_run(inner_run) == inner_run,
        pending_count(wrapper_run(inner_run)) == pending_count(inner_run),
{
    assert(wrapper_run(inner_run) =~= inner_run);
}

/// Construction equivalence: a wrapper is determined by the computation it
/// owns, so the direct constructor, the `From` conversion and the fluent
/// `must_wrap` — each of which stores the computation it is given, unchanged —
/// all produce the very same wrapper value, with identical polling behavior.
pub proof fn lemma_wrapper_determined<F: core::future::Future>(
    a: MustFuture<F>,
    b: MustFuture<F>,
)
    requires
        a.inner() == b.inner(),
    ensures
        a == b,
{
}

/// The fixed text the generic wrapper reports as its debug representation.
pub open spec fn must_future_label_spec() -> Seq<char> {
    "MustFuture"@
}

/// The fixed text the type-erased wrapper reports as its debug
/// representation.
pub open spec fn must_box_future_label_spec() -> Seq<char> {
    "MustBoxFuture"@
}

/// Debug label of the generic wrapper: a fixed, content-free text.  It takes
/// no wrapper state at all, so an unpolled and a partially-polled wrapper
/// format identically.
pub fn must_future_label() -> (r: &'static str)
    ensures
        r@ == must_future_label_spec(),
{
    "MustFuture"
}

/// Debug label of the type-erased wrapper: a fixed, content-free text,
/// likewise independent of any wrapper state.
pub fn must_box_future_label() -> (r: &'static str)
    ensures
        r@ == must_box_future_label_spec(),
{
    "MustBoxFuture"
}

} // verus!
