use vstd::prelude::*;

verus! {

/// Where a model instance stands in its life: before its native handle
/// exists, with a handle allocated but no model in it, with a model loaded
/// (the only phase in which scoring and introspection are defined), and
/// after its handle was released.
#[derive(Debug, Clone, Copy, PartialEq, Eq, Structural)]
pub enum Phase {
    Unallocated,
    Created,
    Loaded,
    Released,
}

/// What happens to a model instance.
#[derive(Debug, Clone, Copy, PartialEq, Eq, Structural)]
pub enum Event {
    /// The instance is being constructed.
    Construct,
    /// The engine's load call returned, reporting success or failure.
    LoadFinished { succeeded: bool },
    /// The instance is being destroyed.
    Destroy,
}

/// What the owner of the handle must do with the engine in response.
#[derive(Debug, Clone, Copy, PartialEq, Eq, Structural)]
pub enum HandleAction {
    /// Ask the engine for a new handle.
    AllocateHandle,
    /// Hand the handle back to the engine.
    ReleaseHandle,
    /// Make no engine call.
    Nothing,
}

pub open spec fn step_spec(phase: Phase, event: Event) -> (Phase, HandleAction) {
    match (phase, event) {
        (Phase::Unallocated, Event::Construct) => (Phase::Created, HandleAction::AllocateHandle),
        (Phase::Created, Event::LoadFinished { succeeded }) => if succeeded {
            (Phase::Loaded, HandleAction::Nothing)
        } else {
            (Phase::Released, HandleAction::ReleaseHandle)
        },
        (Phase::Created, Event::Destroy) => (Phase::Released, HandleAction::ReleaseHandle),
        (Phase::Loaded, Event::Destroy) => (Phase::Released, HandleAction::ReleaseHandle),
        _ => (phase, HandleAction::Nothing),
    }
}

/// The next phase of an instance and the engine call its owner must make.
/// A failed load releases the handle at once; destroying an instance that
/// holds a handle releases it; every other event makes no engine call.
pub fn step(phase: Phase, event: Event) -> (r: (Phase, HandleAction))
    ensures
        r == step_spec(phase, event),
{
    match (phase, event) {
        (Phase::Unallocated, Event::Construct) => (Phase::Created, HandleAction::AllocateHandle),
        (Phase::Created, Event::LoadFinished { succeeded }) => if succeeded {
            (Phase::Loaded, HandleAction::Nothing)
        } else {
            (Phase::Released, HandleAction::ReleaseHandle)
        },
        (Phase::Created, Event::Destroy) => (Phase::Released, HandleAction::ReleaseHandle),
        (Phase::Loaded, Event::Destroy) => (Phase::Released, HandleAction::ReleaseHandle),
        _ => (phase, HandleAction::Nothing),
    }
}

/// Whether scoring and introspection are defined in this phase.
pub fn can_score(phase: Phase) -> (r: bool)
    ensures
        r == (phase == Phase::Loaded),
{
    match phase {
        Phase::Loaded => true,
        _ => false,
    }
}

/// The phase reached from `phase` after `events`, with the number of
/// handles allocated and released on the way.
pub open spec fn run(phase: Phase, events: Seq<Event>) -> (Phase, nat, nat)
    decreases events.len(),
{
    if events.len() == 0 {
        (phase, 0, 0)
    } else {
        let (p, allocated, released) = run(phase, events.drop_last());
        let (q, action) = step_spec(p, events.last());
        (
            q,
            allocated + if action == HandleAction::AllocateHandle { 1nat } else { 0nat },
            released + if action == HandleAction::ReleaseHandle { 1nat } else { 0nat },
        )
    }
}

/// Counts of handle allocations and releases over one instance's history.
#[derive(Debug, Clone, Copy, PartialEq, Eq, Structural)]
pub struct HandleHistory {
    pub phase: Phase,
    pub allocated: usize,
    pub released: usize,
}

/// Plays a sequence of events on a fresh instance and counts the engine
/// calls that allocate and release its handle.
pub fn replay(events: &Vec<Event>) -> (r: HandleHistory)
    ensures
        (r.phase, r.allocated as nat, r.released as nat) == run(Phase::Unallocated, events@),
{
    let mut h = HandleHistory { phase: Phase::Unallocated, allocated: 0, released: 0 };
    let mut i: usize = 0;
    while i < events.len()
        invariant
            i <= events@.len(),
            (h.phase, h.allocated as nat, h.released as nat) == run(
                Phase::Unallocated,
                events@.take(i as int),
            ),
        decreases events@.len() - i,
    {
        proof {
            lemma_history_counts(events@.take(i as int));
            assert(events@.take(i as int + 1).drop_last() =~= events@.take(i as int));
        }
        let (next, action) = step(h.phase, events[i]);
        match action {
            HandleAction::AllocateHandle => {
                h.allocated = h.allocated + 1;
            },
            HandleAction::ReleaseHandle => {
                h.released = h.released + 1;
            },
            HandleAction::Nothing => {},
        }
        h.phase = next;
        i = i + 1;
    }
    assert(events@.take(events@.len() as int) =~= events@);
    h
}

/// Over any history of one instance, its handle is allocated exactly when
/// the instance has left `Unallocated`, and released exactly when it is in
/// `Released`.
pub proof fn lemma_history_counts(events: Seq<Event>)
    ensures
        run(Phase::Unallocated, events).1 == if run(Phase::Unallocated, events).0
            == Phase::Unallocated {
            0nat
        } else {
            1nat
        },
        run(Phase::Unallocated, events).2 == if run(Phase::Unallocated, events).0
            == Phase::Released {
            1nat
        } else {
            0nat
        },
    decreases events.len(),
{
    if events.len() > 0 {
        lemma_history_counts(events.drop_last());
    }
}

/// Whatever happens to one model instance, its native handle is allocated at
/// most once, released at most once and never before it was allocated; once
/// the instance is destroyed, every allocation has been matched by exactly
/// one release, whether or not its load succeeded.
pub proof fn lemma_handle_released_exactly_once(events: Seq<Event>)
    ensures
        run(Phase::Unallocated, events).1 <= 1,
        run(Phase::Unallocated, events).2 <= run(Phase::Unallocated, events).1,
        events.len() > 0 && events.last() == Event::Destroy ==> run(Phase::Unallocated, events).1
            == run(Phase::Unallocated, events).2,
{
    lemma_history_counts(events);
    if events.len() > 0 {
        lemma_history_counts(events.drop_last());
    }
}

/// Handles allocated and released over the histories of several instances.
pub open spec fn totals(histories: Seq<Seq<Event>>) -> (nat, nat)
    decreases histories.len(),
{
    if histories.len() == 0 {
        (0, 0)
    } else {
        let (allocated, released) = totals(histories.drop_last());
        let last = run(Phase::Unallocated, histories.last());
        (allocated + last.1, released + last.2)
    }
}

/// Constructing and destroying any number of instances, including ones whose
/// load failed, leaves no native handle unreleased: across all of them,
/// releases equal allocations.
pub proof fn lemma_instances_leave_no_handle(histories: Seq<Seq<Event>>)
    requires
        forall|k: int|
            0 <= k < histories.len() ==> (#[trigger] histories[k]).len() > 0 && histories[k].last()
                == Event::Destroy,
    ensures
        totals(histories).0 == totals(histories).1,
    decreases histories.len(),
{
    if histories.len() > 0 {
        let rest = histories.drop_last();
        assert forall|k: int| 0 <= k < rest.len() implies (#[trigger] rest[k]).len() > 0
            && rest[k].last() == Event::Destroy by {
            assert(rest[k] == histories[k]);
        }
        lemma_instances_leave_no_handle(rest);
        assert(histories.last() == histories[histories.len() - 1]);
        lemma_handle_released_exactly_once(histories.last());
    }
}

} // verus!
