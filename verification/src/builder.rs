//! The app builder's bookkeeping: every requested build replaces the one
//! before it, and only the newest build is reported finished, once.

use vstd::prelude::*;
use crate::message::BuilderUpdate;

verus! {

/// What the builder remembers: the number of the newest requested build, and
/// whether that build is still to be reported finished.
#[derive(Debug, Clone, Copy, PartialEq, Eq)]
pub struct BuilderState {
    pub generation: u64,
    pub awaiting: bool,
}

/// The mathematical value of a [`BuilderState`].
pub struct BuilderStateView {
    pub generation: nat,
    pub awaiting: bool,
}

impl View for BuilderState {
    type V = BuilderStateView;

    open spec fn view(&self) -> BuilderStateView {
        BuilderStateView { generation: self.generation as nat, awaiting: self.awaiting }
    }
}

/// What happens to the builder.
pub enum BuilderEvent {
    /// A build is requested.
    Requested,
    /// The build with this number finished running.
    Completed(nat),
}

/// One step of the builder: the state after the event and the number of the
/// build reported finished, if any. A request starts a new build, which
/// replaces the running one; a finished run is reported only when it is the
/// newest build and not yet reported.
pub open spec fn builder_step(s: BuilderStateView, e: BuilderEvent) -> (BuilderStateView, Option<nat>) {
    match e {
        BuilderEvent::Requested => (BuilderStateView { generation: s.generation + 1, awaiting: true }, None),
        BuilderEvent::Completed(g) => if s.awaiting && g == s.generation {
            (BuilderStateView { generation: s.generation, awaiting: false }, Some(g))
        } else {
            (s, None)
        },
    }
}

/// The builder after a sequence of events, with the builds reported finished,
/// in order.
pub open spec fn builder_run(s: BuilderStateView, es: Seq<BuilderEvent>) -> (BuilderStateView, Seq<nat>)
    decreases es.len(),
{
    if es.len() == 0 {
        (s, seq![])
    } else {
        let (mid, reported) = builder_run(s, es.drop_last());
        let (next, finished) = builder_step(mid, es.last());
        match finished {
            Some(g) => (next, reported.push(g)),
            None => (next, reported),
        }
    }
}

/// A builder with no build yet.
pub fn new_builder() -> (r: BuilderState)
    ensures
        r@ == (BuilderStateView { generation: 0, awaiting: false }),
{
    BuilderState { generation: 0, awaiting: false }
}

/// A build is requested: the running build (if any) is to be aborted, the
/// start reported, and a build with the returned number started.
pub fn request_build(state: &mut BuilderState) -> (r: (u64, BuilderUpdate))
    requires
        old(state).generation < u64::MAX,
    ensures
        (final(state)@, None::<nat>) == builder_step(old(state)@, BuilderEvent::Requested),
        r.0 == final(state).generation,
        r.1 == BuilderUpdate::BuildStartet,
{
    state.generation = state.generation + 1;
    state.awaiting = true;
    (state.generation, BuilderUpdate::BuildStartet)
}

/// The build with number `generation` finished running: it is reported
/// finished when it is the newest build and not yet reported.
pub fn build_completed(state: &mut BuilderState, generation: u64) -> (r: Option<BuilderUpdate>)
    ensures
        final(state)@ == builder_step(old(state)@, BuilderEvent::Completed(generation as nat)).0,
        r is Some <==> builder_step(old(state)@, BuilderEvent::Completed(generation as nat)).1 is Some,
        r is Some ==> r == Some(BuilderUpdate::BuildFinished),
{
    if state.awaiting && generation == state.generation {
        state.awaiting = false;
        Some(BuilderUpdate::BuildFinished)
    } else {
        None
    }
}

/// What holds after any sequence of events from a builder with no build
/// awaiting: the reported builds are in increasing order, none is newer than
/// the newest build, and the newest is not among them while it is awaited.
proof fn lemma_run_invariant(s: BuilderStateView, es: Seq<BuilderEvent>)
    requires
        !s.awaiting,
    ensures
        ({
            let (end, reported) = builder_run(s, es);
            &&& forall|i: int, j: int| 0 <= i < j < reported.len() ==> reported[i] < reported[j]
            &&& forall|i: int| 0 <= i < reported.len() ==> reported[i] <= end.generation
            &&& end.awaiting ==> forall|i: int| 0 <= i < reported.len() ==> reported[i] < end.generation
        }),
    decreases es.len(),
{
    if es.len() > 0 {
        lemma_run_invariant(s, es.drop_last());
    }
}

/// Each build is reported finished at most once: the builds reported over any
/// run of the builder (starting with no build awaiting) come in strictly
/// increasing order.
pub proof fn builds_reported_at_most_once(s: BuilderStateView, es: Seq<BuilderEvent>)
    requires
        !s.awaiting,
    ensures
        forall|i: int, j: int|
            0 <= i < j < builder_run(s, es).1.len() ==> builder_run(s, es).1[i] < builder_run(
                s,
                es,
            ).1[j],
{
    lemma_run_invariant(s, es);
}

/// A superseded build is never reported finished: a finished run is reported
/// only when it is the newest requested build; once a newer build was
/// requested, no older one can be reported any more.
pub proof fn superseded_builds_not_reported(s: BuilderStateView, g: nat)
    ensures
        builder_step(s, BuilderEvent::Completed(g)).1 is Some ==> g == s.generation,
        g < builder_step(s, BuilderEvent::Requested).0.generation ==> builder_step(
            builder_step(s, BuilderEvent::Requested).0,
            BuilderEvent::Completed(g),
        ).1 is None,
{
}

/// A requested build is reported finished when its run completes before the
/// next request, with the number the request gave it.
pub proof fn newest_build_is_reported(s: BuilderStateView)
    ensures
        ({
            let started = builder_step(s, BuilderEvent::Requested).0;
            &&& started.generation == s.generation + 1
            &&& builder_step(started, BuilderEvent::Completed(started.generation)).1 == Some(
                started.generation,
            )
        }),
{
}

} // verus!
