use vstd::prelude::*;
use crate::kafka::Offsets;

verus! {

/// One partition's bounded range and whether its end was signalled.
#[derive(Debug, Clone, Copy, PartialEq, Eq, Structural)]
pub struct PartitionSnapshot {
    pub partition: i32,
    pub low: i64,
    pub high: i64,
    pub completed: bool,
}

/// The phase of a run.
#[derive(Debug, Clone, Copy, PartialEq, Eq, Structural)]
pub enum RunState {
    Running,
    StopRequested,
    Stopped,
}

/// What the transport delivered to the loop.
#[derive(Debug)]
pub enum Event {
    /// A message of the given partition at the given offset.
    Data { partition: i32, offset: i64 },
    /// The transport reached the end of the given partition.
    PartitionEnd { partition: i32 },
    /// Any other transport error.
    TransportError { message: String },
    /// The transport produces nothing more.
    Drained,
}

/// What the loop is to do with an event.
#[derive(Debug, Clone, Copy, PartialEq, Eq, Structural)]
pub enum Action {
    /// Decode the message and write its record.
    Emit,
    /// Drop the message: the run has stopped.
    Skip,
    /// Report that the partition is done at its high watermark.
    ReportEnd { partition: i32, high: i64 },
    /// Report as `ReportEnd`, then tell the transport to stop: every
    /// partition is done.
    ReportEndAndStop { partition: i32, high: i64 },
    /// Report an end signal for a partition that is not in the run.
    UnknownPartition { partition: i32 },
    /// Report the transport error and go on.
    ReportError,
    /// Leave the loop.
    Finish,
}

/// No two snapshots are for the same partition.
pub open spec fn unique_partitions(parts: Seq<PartitionSnapshot>) -> bool {
    forall|i: int, j: int|
        0 <= i < parts.len() && 0 <= j < parts.len() && i != j ==> #[trigger] parts[i].partition
            != #[trigger] parts[j].partition
}

/// Every partition of the run is done.
pub open spec fn all_completed(parts: Seq<PartitionSnapshot>) -> bool {
    forall|i: int| 0 <= i < parts.len() ==> #[trigger] parts[i].completed
}

/// The partition `pid` is one of the run's.
pub open spec fn known(parts: Seq<PartitionSnapshot>, pid: i32) -> bool {
    exists|i: int| 0 <= i < parts.len() && #[trigger] parts[i].partition == pid
}

/// The high watermark captured for the partition `pid` of the run.
pub open spec fn high_of(parts: Seq<PartitionSnapshot>, pid: i32) -> i64 {
    parts[choose|i: int| 0 <= i < parts.len() && #[trigger] parts[i].partition == pid].high
}

/// The snapshots once the partition `pid` is done.
pub open spec fn ends(parts: Seq<PartitionSnapshot>, pid: i32) -> Seq<PartitionSnapshot> {
    Seq::new(
        parts.len(),
        |i: int|
            if parts[i].partition == pid {
                PartitionSnapshot { completed: true, ..parts[i] }
            } else {
                parts[i]
            },
    )
}

/// The end signal for `pid` completes the last partition of a running run.
pub open spec fn completes_run(parts: Seq<PartitionSnapshot>, state: RunState, pid: i32) -> bool {
    known(parts, pid) && state is Running && all_completed(ends(parts, pid))
}

/// The snapshots after the event.
pub open spec fn next_parts(parts: Seq<PartitionSnapshot>, e: Event) -> Seq<PartitionSnapshot> {
    match e {
        Event::PartitionEnd { partition } => if known(parts, partition) {
            ends(parts, partition)
        } else {
            parts
        },
        _ => parts,
    }
}

/// The phase after the event.
pub open spec fn next_state(parts: Seq<PartitionSnapshot>, state: RunState, e: Event) -> RunState {
    match e {
        Event::PartitionEnd { partition } => if completes_run(parts, state, partition) {
            RunState::StopRequested
        } else {
            state
        },
        Event::Drained => RunState::Stopped,
        _ => state,
    }
}

/// What the loop does with the event.
pub open spec fn action_for(parts: Seq<PartitionSnapshot>, state: RunState, e: Event) -> Action {
    match e {
        Event::Data { .. } => if state is Stopped {
            Action::Skip
        } else {
            Action::Emit
        },
        Event::PartitionEnd { partition } => if !known(parts, partition) {
            Action::UnknownPartition { partition }
        } else if completes_run(parts, state, partition) {
            Action::ReportEndAndStop { partition, high: high_of(parts, partition) }
        } else {
            Action::ReportEnd { partition, high: high_of(parts, partition) }
        },
        Event::TransportError { .. } => Action::ReportError,
        Event::Drained => Action::Finish,
    }
}

/// `after` and `a` are what `on_event` makes of `before` and the event `e`.
pub open spec fn step_taken(before: Coordinator, after: Coordinator, e: Event, a: Action) -> bool {
    &&& after.snapshots() == next_parts(before.snapshots(), e)
    &&& after.run_state() == next_state(before.snapshots(), before.run_state(), e)
    &&& a == action_for(before.snapshots(), before.run_state(), e)
}

/// How many of the actions request the stop.
pub open spec fn stops_in(actions: Seq<Action>) -> nat
    decreases actions.len(),
{
    if actions.len() == 0 {
        0
    } else {
        (if actions[0] is ReportEndAndStop {
            1nat
        } else {
            0nat
        }) + stops_in(actions.drop_first())
    }
}

/// Decides, event by event, when a bounded run over several partitions is
/// done. A partition is done only on the transport's own end signal; the
/// stop is requested once, when the last partition is done.
pub struct Coordinator {
    partitions: Vec<PartitionSnapshot>,
    state: RunState,
}

impl Coordinator {
    /// No two snapshots are for the same partition.
    pub open spec fn wf(&self) -> bool {
        unique_partitions(self.snapshots())
    }

    /// The snapshots of the run's partitions.
    pub closed spec fn snapshots(&self) -> Seq<PartitionSnapshot> {
        self.partitions@
    }

    /// The phase of the run.
    pub closed spec fn run_state(&self) -> RunState {
        self.state
    }

    /// A running coordinator with one snapshot per partition, none done.
    pub fn new(watermarks: Vec<(i32, Offsets)>) -> (r: Coordinator)
        requires
            forall|i: int, j: int|
                0 <= i < watermarks@.len() && 0 <= j < watermarks@.len() && i != j
                    ==> #[trigger] watermarks@[i].0 != #[trigger] watermarks@[j].0,
        ensures
            r.wf(),
            r.run_state() == RunState::Running,
            r.snapshots().len() == watermarks@.len(),
            forall|i: int|
                0 <= i < watermarks@.len() ==> #[trigger] r.snapshots()[i] == (PartitionSnapshot {
                    partition: watermarks@[i].0,
                    low: watermarks@[i].1.low,
                    high: watermarks@[i].1.high,
                    completed: false,
                }),
    {
        let mut partitions: Vec<PartitionSnapshot> = Vec::new();
        let mut i: usize = 0;
        while i < watermarks.len()
            invariant
                i <= watermarks@.len(),
                partitions@.len() == i,
                forall|i: int, j: int|
                    0 <= i < watermarks@.len() && 0 <= j < watermarks@.len() && i != j
                        ==> #[trigger] watermarks@[i].0 != #[trigger] watermarks@[j].0,
                forall|k: int|
                    0 <= k < i ==> #[trigger] partitions@[k] == (PartitionSnapshot {
                        partition: watermarks@[k].0,
                        low: watermarks@[k].1.low,
                        high: watermarks@[k].1.high,
                        completed: false,
                    }),
            decreases watermarks@.len() - i,
        {
            let (pid, offsets) = watermarks[i];
            partitions.push(
                PartitionSnapshot {
                    partition: pid,
                    low: offsets.low,
                    high: offsets.high,
                    completed: false,
                },
            );
            i = i + 1;
        }
        Coordinator { partitions, state: RunState::Running }
    }

    /// The phase of the run.
    pub fn state(&self) -> (r: RunState)
        ensures
            r == self.run_state(),
    {
        self.state
    }

    /// Whether the partition's end was signalled; `None` for a partition
    /// that is not in the run.
    pub fn is_completed(&self, partition: i32) -> (r: Option<bool>)
        requires
            self.wf(),
        ensures
            r is Some <==> known(self.snapshots(), partition),
            r is Some ==> r->Some_0 == self.snapshots()[choose|i: int|
                0 <= i < self.snapshots().len() && #[trigger] self.snapshots()[i].partition
                    == partition].completed,
    {
        match self.position(partition) {
            Some(i) => Some(self.partitions[i].completed),
            None => None,
        }
    }

    /// The index of the partition's snapshot.
    fn position(&self, partition: i32) -> (r: Option<usize>)
        requires
            self.wf(),
        ensures
            r is Some <==> known(self.snapshots(), partition),
            r is Some ==> r->Some_0 < self.snapshots().len() && self.snapshots()[r->Some_0 as int].partition
                == partition,
            r is Some ==> r->Some_0 == (choose|i: int|
                0 <= i < self.snapshots().len() && #[trigger] self.snapshots()[i].partition
                    == partition),
    {
        let mut i: usize = 0;
        while i < self.partitions.len()
            invariant
                self.wf(),
                i <= self.partitions@.len(),
                forall|k: int| 0 <= k < i ==> #[trigger] self.partitions@[k].partition != partition,
            decreases self.partitions@.len() - i,
        {
            if self.partitions[i].partition == partition {
                let ghost c = choose|j: int|
                    0 <= j < self.partitions@.len() && #[trigger] self.partitions@[j].partition
                        == partition;
                assert(0 <= i < self.partitions@.len() && self.partitions@[i as int].partition
                    == partition);
                assert(0 <= c < self.partitions@.len() && self.partitions@[c].partition == partition);
                assert(c == i);
                return Some(i);
            }
            i = i + 1;
        }
        None
    }

    /// Takes one event: updates the snapshots and the phase, and says what
    /// the loop is to do.
    pub fn on_event(&mut self, event: Event) -> (r: Action)
        requires
            old(self).wf(),
        ensures
            final(self).wf(),
            step_taken(*old(self), *final(self), event, r),
            final(self).snapshots() == next_parts(old(self).snapshots(), event),
            final(self).run_state() == next_state(old(self).snapshots(), old(self).run_state(), event),
            r == action_for(old(self).snapshots(), old(self).run_state(), event),
    {
        match event {
            Event::Data { .. } => {
                if self.state == RunState::Stopped {
                    Action::Skip
                } else {
                    Action::Emit
                }
            },
            Event::PartitionEnd { partition } => {
                match self.position(partition) {
                    None => Action::UnknownPartition { partition },
                    Some(i) => {
                        let ghost before = self.partitions@;
                        let high = self.partitions[i].high;
                        let mut snap = self.partitions[i];
                        snap.completed = true;
                        self.partitions.set(i, snap);
                        assert(self.partitions@ =~= ends(before, partition));
                        let done = self.all_done();
                        if done && self.state == RunState::Running {
                            self.state = RunState::StopRequested;
                            Action::ReportEndAndStop { partition, high }
                        } else {
                            Action::ReportEnd { partition, high }
                        }
                    },
                }
            },
            Event::TransportError { .. } => Action::ReportError,
            Event::Drained => {
                self.state = RunState::Stopped;
                Action::Finish
            },
        }
    }

    /// Whether every partition is done.
    fn all_done(&self) -> (r: bool)
        ensures
            r == all_completed(self.partitions@),
    {
        let mut i: usize = 0;
        while i < self.partitions.len()
            invariant
                i <= self.partitions@.len(),
                forall|k: int| 0 <= k < i ==> #[trigger] self.partitions@[k].completed,
            decreases self.partitions@.len() - i,
        {
            if !self.partitions[i].completed {
                return false;
            }
            i = i + 1;
        }
        true
    }
}

/// How many stop requests a run makes over the events, taken in order.
pub open spec fn stop_count(parts: Seq<PartitionSnapshot>, state: RunState, events: Seq<Event>) -> nat
    decreases events.len(),
{
    if events.len() == 0 {
        0
    } else {
        let e = events[0];
        let here: nat = if action_for(parts, state, e) is ReportEndAndStop {
            1
        } else {
            0
        };
        here + stop_count(next_parts(parts, e), next_state(parts, state, e), events.drop_first())
    }
}

/// Every partition not yet done gets an end signal among the events.
pub open spec fn ends_every_partition(parts: Seq<PartitionSnapshot>, events: Seq<Event>) -> bool {
    forall|i: int|
        #![trigger parts[i]]
        0 <= i < parts.len() && !parts[i].completed ==> exists|j: int|
            0 <= j < events.len() && #[trigger] events[j] == (Event::PartitionEnd {
                partition: parts[i].partition,
            })
}

/// The events hold no end of the transport's stream.
pub open spec fn never_drained(events: Seq<Event>) -> bool {
    forall|j: int| 0 <= j < events.len() ==> !(#[trigger] events[j] is Drained)
}

/// A run that is no longer running requests no stop, whatever comes.
proof fn lemma_no_stop_after_running(parts: Seq<PartitionSnapshot>, state: RunState, events: Seq<Event>)
    requires
        !(state is Running),
    ensures
        stop_count(parts, state, events) == 0,
    decreases events.len(),
{
    if events.len() > 0 {
        let e = events[0];
        lemma_no_stop_after_running(next_parts(parts, e), next_state(parts, state, e), events.drop_first());
    }
}

/// The end signal for `pid` leaves undone exactly the undone partitions
/// other than `pid`.
proof fn lemma_ends_undone(parts: Seq<PartitionSnapshot>, pid: i32, i: int)
    requires
        0 <= i < parts.len(),
    ensures
        ends(parts, pid)[i].partition == parts[i].partition,
        !ends(parts, pid)[i].completed <==> (!parts[i].completed && parts[i].partition != pid),
{
}

/// A running run whose partitions are not all done requests the stop
/// exactly once when every undone partition gets its end signal, and never
/// otherwise, in whatever order the events come.
pub proof fn lemma_stop_requested_once(
    parts: Seq<PartitionSnapshot>,
    events: Seq<Event>,
)
    requires
        unique_partitions(parts),
        !all_completed(parts),
        never_drained(events),
    ensures
        stop_count(parts, RunState::Running, events) == if ends_every_partition(parts, events) {
            1nat
        } else {
            0nat
        },
    decreases events.len(),
{
    if events.len() == 0 {
        let i = choose|i: int| 0 <= i < parts.len() && !#[trigger] parts[i].completed;
        assert(0 <= i < parts.len() && !parts[i].completed);
        assert(parts[i] == parts[i]);
    } else {
        let e = events[0];
        let rest = events.drop_first();
        assert(never_drained(rest)) by {
            assert forall|j: int| 0 <= j < rest.len() implies !(#[trigger] rest[j] is Drained) by {
                assert(rest[j] == events[j + 1]);
            }
        }
        let parts2 = next_parts(parts, e);
        let state2 = next_state(parts, RunState::Running, e);
        assert(!(e is Drained)) by {
            assert(events[0] == e);
        }
        if action_for(parts, RunState::Running, e) is ReportEndAndStop {
            lemma_no_stop_after_running(parts2, state2, rest);
            let pid = e->PartitionEnd_partition;
            assert forall|i: int| #![trigger parts[i]] 0 <= i < parts.len() && !parts[i].completed implies exists|j: int|
                0 <= j < events.len() && #[trigger] events[j] == (Event::PartitionEnd {
                    partition: parts[i].partition,
                }) by {
                lemma_ends_undone(parts, pid, i);
                assert(ends(parts, pid)[i].completed);
                assert(events[0] == (Event::PartitionEnd { partition: parts[i].partition }));
            }
        } else {
            assert(state2 == RunState::Running);
            assert(!all_completed(parts2)) by {
                if e is PartitionEnd && known(parts, e->PartitionEnd_partition) {
                    assert(!completes_run(parts, RunState::Running, e->PartitionEnd_partition));
                }
            }
            assert(unique_partitions(parts2)) by {
                if e is PartitionEnd && known(parts, e->PartitionEnd_partition) {
                    assert forall|i: int, j: int|
                        0 <= i < parts2.len() && 0 <= j < parts2.len() && i != j
                            implies #[trigger] parts2[i].partition != #[trigger] parts2[j].partition by {
                        lemma_ends_undone(parts, e->PartitionEnd_partition, i);
                        lemma_ends_undone(parts, e->PartitionEnd_partition, j);
                    }
                }
            }
            lemma_stop_requested_once(parts2, rest);
            assert(ends_every_partition(parts, events) == ends_every_partition(parts2, rest)) by {
                assert(parts2.len() == parts.len());
                if ends_every_partition(parts, events) {
                    assert forall|i: int| #![trigger parts2[i]] 0 <= i < parts2.len() && !parts2[i].completed implies exists|
                        j: int,
                    | 0 <= j < rest.len() && #[trigger] rest[j] == (Event::PartitionEnd {
                        partition: parts2[i].partition,
                    }) by {
                        if e is PartitionEnd && known(parts, e->PartitionEnd_partition) {
                            lemma_ends_undone(parts, e->PartitionEnd_partition, i);
                        }
                        assert(!parts[i].completed);
                        assert(parts2[i].partition == parts[i].partition);
                        let j = choose|j: int|
                            0 <= j < events.len() && #[trigger] events[j] == (Event::PartitionEnd {
                                partition: parts[i].partition,
                            });
                        assert(j != 0);
                        assert(rest[j - 1] == events[j]);
                    }
                } else {
                    let i = choose|i: int|
                        #![trigger parts[i]]
                        0 <= i < parts.len() && !parts[i].completed && !(exists|j: int|
                            0 <= j < events.len() && #[trigger] events[j] == (Event::PartitionEnd {
                                partition: parts[i].partition,
                            }));
                    if e is PartitionEnd && known(parts, e->PartitionEnd_partition) {
                        lemma_ends_undone(parts, e->PartitionEnd_partition, i);
                    }
                    assert(e != (Event::PartitionEnd { partition: parts[i].partition })) by {
                        assert(events[0] == e);
                    }
                    assert(!parts2[i].completed);
                    assert(parts2[i].partition == parts[i].partition);
                    if exists|j: int|
                        0 <= j < rest.len() && #[trigger] rest[j] == (Event::PartitionEnd {
                            partition: parts2[i].partition,
                        }) {
                        let j = choose|j: int|
                            0 <= j < rest.len() && #[trigger] rest[j] == (Event::PartitionEnd {
                                partition: parts2[i].partition,
                            });
                        assert(events[j + 1] == rest[j]);
                    }
                }
            }
        }
    }
}

/// The actions of successive `on_event` calls request the stop as often
/// as `stop_count` says.
proof fn lemma_steps_count_stops(states: Seq<Coordinator>, events: Seq<Event>, actions: Seq<Action>)
    requires
        states.len() == events.len() + 1,
        actions.len() == events.len(),
        forall|i: int|
            0 <= i < events.len() ==> step_taken(states[i], states[i + 1], #[trigger] events[i], actions[i]),
    ensures
        stops_in(actions) == stop_count(states[0].snapshots(), states[0].run_state(), events),
    decreases events.len(),
{
    if events.len() > 0 {
        let states2 = states.drop_first();
        let events2 = events.drop_first();
        let actions2 = actions.drop_first();
        assert forall|i: int| 0 <= i < events2.len() implies step_taken(
            states2[i],
            states2[i + 1],
            #[trigger] events2[i],
            actions2[i],
        ) by {
            assert(events2[i] == events[i + 1]);
            assert(step_taken(states[i + 1], states[i + 2], events[i + 1], actions[i + 1]));
        }
        lemma_steps_count_stops(states2, events2, actions2);
        assert(step_taken(states[0], states[1], events[0], actions[0]));
    }
}

/// Over any run of `on_event` calls that starts running with some
/// partition not done, and in which the stream does not end, the stop is
/// requested exactly once when every undone partition gets its end signal,
/// in whatever order and interleaved with whatever other events, and
/// never otherwise.
pub proof fn lemma_run_requests_stop_once(
    states: Seq<Coordinator>,
    events: Seq<Event>,
    actions: Seq<Action>,
)
    requires
        states.len() == events.len() + 1,
        actions.len() == events.len(),
        forall|i: int|
            0 <= i < events.len() ==> step_taken(states[i], states[i + 1], #[trigger] events[i], actions[i]),
        states[0].wf(),
        states[0].run_state() == RunState::Running,
        !all_completed(states[0].snapshots()),
        never_drained(events),
    ensures
        stops_in(actions) == if ends_every_partition(states[0].snapshots(), events) {
            1nat
        } else {
            0nat
        },
{
    lemma_steps_count_stops(states, events, actions);
    lemma_stop_requested_once(states[0].snapshots(), events);
}

} // verus!
