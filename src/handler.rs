//! The outcome of a connect-event dispatch, and the type-erasure adapter.
use std::marker::PhantomData;
use vstd::prelude::*;

pub mod connect;

verus! {

/// How one dispatch of a connect event ended.
#[derive(PartialEq, Eq, Structural, Debug, Clone, Copy)]
pub enum ConnectOutcome {
    /// The extractor at this position failed: later extractors and the
    /// handler did not run.
    Aborted { at: usize },
    /// A synchronous handler ran to completion before the dispatch returned.
    Completed,
    /// An asynchronous handler was called, and its future handed to the
    /// runtime without waiting for it.
    Detached,
    /// An asynchronous handler was called, but no runtime was there to take
    /// its future, which was dropped unrun.
    Unscheduled,
}

/// Every extractor accepts the context.
pub open spec fn all_accept(acc: Seq<bool>) -> bool {
    forall|i: int| 0 <= i < acc.len() ==> acc[i]
}

/// Position `k` holds the first extractor that rejects the context.
pub open spec fn first_rejection(acc: Seq<bool>, k: int) -> bool {
    &&& 0 <= k < acc.len()
    &&& !acc[k]
    &&& forall|i: int| 0 <= i < k ==> acc[i]
}

/// `r` is how a dispatch ends whose extractors accept the context as `acc`
/// says, in declared order, and whose handler is asynchronous when `detached`.
pub open spec fn settles(acc: Seq<bool>, detached: bool, r: ConnectOutcome) -> bool {
    match r {
        ConnectOutcome::Aborted { at } => first_rejection(acc, at as int),
        ConnectOutcome::Completed => all_accept(acc) && !detached,
        ConnectOutcome::Detached => all_accept(acc) && detached,
        ConnectOutcome::Unscheduled => all_accept(acc) && detached,
    }
}

/// A handler whose extractors all accept the context is invoked: the
/// dispatch ends in no abort.
pub proof fn lemma_full_acceptance_invokes(acc: Seq<bool>, detached: bool, r: ConnectOutcome)
    requires
        settles(acc, detached, r),
        all_accept(acc),
    ensures
        !(r is Aborted),
        r is Completed <==> !detached,
{
}

/// When the extractor at position `k` rejects the context and all before it
/// accept, the dispatch aborts exactly there: the extractors before `k` ran
/// and succeeded, and neither the later ones nor the handler ran.
pub proof fn lemma_rejection_aborts_at_first(
    acc: Seq<bool>,
    detached: bool,
    r: ConnectOutcome,
    k: int,
)
    requires
        settles(acc, detached, r),
        first_rejection(acc, k),
    ensures
        r == (ConnectOutcome::Aborted { at: k as usize }),
        forall|i: int| 0 <= i < k ==> acc[i],
{
    if let ConnectOutcome::Aborted { at } = r {
        let j = at as int;
        if j < k {
            assert(acc[j]);
        } else if k < j {
            assert(acc[k]);
        }
    } else {
        assert(acc[k]);
    }
}

/// A dispatch is settled by its own context alone: two dispatches of one
/// handler on contexts that its extractors treat alike abort at the same
/// place, or both invoke the handler in the same mode.
pub proof fn lemma_dispatch_independent(
    acc: Seq<bool>,
    detached: bool,
    r1: ConnectOutcome,
    r2: ConnectOutcome,
)
    requires
        settles(acc, detached, r1),
        settles(acc, detached, r2),
    ensures
        r1 is Aborted <==> r2 is Aborted,
        r1 is Aborted ==> r1 == r2,
        r1 is Completed <==> r2 is Completed,
{
    if let ConnectOutcome::Aborted { at } = r1 {
        lemma_rejection_aborts_at_first(acc, detached, r2, at as int);
    }
    if let ConnectOutcome::Aborted { at } = r2 {
        lemma_rejection_aborts_at_first(acc, detached, r1, at as int);
    }
}

/// Holds a typed handler and forgets, in its erased form, the parameter list
/// `T` and the return mode `F`.
pub struct MakeErasedHandler<H, T, F> {
    pub handler: H,
    pub phantom: PhantomData<(T, F)>,
}

impl<H, T, F> MakeErasedHandler<H, T, F> {
    pub fn new(handler: H) -> (r: MakeErasedHandler<H, T, F>)
        ensures
            r.handler == handler,
    {
        MakeErasedHandler { handler, phantom: PhantomData }
    }
}

} // verus!
