//! The recovery sequence as a state machine.
//!
//! The machine owes the transport nothing but an order: which register to
//! write or read next. A driver performs each requested operation against
//! the located control access port and reports the result back as an event;
//! a read also carries the seconds elapsed since the erase was requested, so
//! that the timeout decision rests on an injected clock. Any transport
//! failure aborts the sequence at once; a timeout still runs the cleanup
//! writes before it is reported, so the target is left reset and with the
//! erase trigger cleared even on failure.

use vstd::prelude::*;
use crate::registers::{EraseAll, EraseAllStatus, Reset};

verus! {

/// Seconds the poll loop waits for the busy flag to clear before giving up.
pub const UNLOCK_TIMEOUT_SECS: u64 = 15;

/// Names of the registers the recovery sequence touches on the control
/// access port.
#[derive(Clone, Copy, Debug, PartialEq, Eq, Structural)]
pub enum RegisterId {
    Reset,
    EraseAll,
    EraseAllStatus,
}

/// One register operation the driver is asked to perform. A write carries
/// the encoded word to put on the wire.
#[derive(Clone, Copy, Debug, PartialEq, Eq, Structural)]
pub enum Action {
    Write { register: RegisterId, word: u32 },
    Read { register: RegisterId },
}

/// What the driver reports back after attempting the requested operation.
/// A completed read carries the raw word and the seconds elapsed since the
/// erase was requested.
#[derive(Clone, Copy, Debug, PartialEq, Eq, Structural)]
pub enum Event {
    WriteDone,
    ReadDone { word: u32, elapsed_secs: u64 },
    TransportFailed,
}

/// How a finished sequence ended.
#[derive(Clone, Copy, Debug, PartialEq, Eq, Structural)]
pub enum Outcome {
    /// The busy flag cleared in time: the chip is mass erased and unlocked.
    Success,
    /// The busy flag never cleared within the window; the chip may still be
    /// locked. The cleanup writes were still performed.
    Timeout,
    /// A register operation failed at the transport; the sequence stopped
    /// there and the state of the target is unknown.
    TransportError,
}

/// The states of the sequence, in the order they are passed through. Each
/// non-terminal state stands for the one register operation it asks of the
/// driver. The cleanup states remember whether the poll timed out, so the
/// outcome survives the cleanup writes.
#[derive(Clone, Copy, Debug, PartialEq, Eq, Structural)]
pub enum State {
    ResetAssert,
    ResetDeassert,
    EraseAssert,
    FirstStatusRead,
    Poll,
    CleanupResetAssert { timed_out: bool },
    CleanupResetDeassert { timed_out: bool },
    EraseDeassert { timed_out: bool },
    Done { outcome: Outcome },
}

/// The write that puts the hold-in-reset flag on the wire.
pub open spec fn spec_write_reset(held: bool) -> Action {
    Action::Write { register: RegisterId::Reset, word: (Reset { held }).spec_to_wire() }
}

/// The write that puts the erase-trigger flag on the wire.
pub open spec fn spec_write_erase_all(requested: bool) -> Action {
    Action::Write { register: RegisterId::EraseAll, word: (EraseAll { requested }).spec_to_wire() }
}

/// The read of the erase-status register.
pub open spec fn spec_read_status() -> Action {
    Action::Read { register: RegisterId::EraseAllStatus }
}

/// The one operation owed in each state; none once the sequence is done.
pub open spec fn spec_action_of(s: State) -> Option<Action> {
    match s {
        State::ResetAssert => Some(spec_write_reset(true)),
        State::ResetDeassert => Some(spec_write_reset(false)),
        State::EraseAssert => Some(spec_write_erase_all(true)),
        State::FirstStatusRead => Some(spec_read_status()),
        State::Poll => Some(spec_read_status()),
        State::CleanupResetAssert { .. } => Some(spec_write_reset(true)),
        State::CleanupResetDeassert { .. } => Some(spec_write_reset(false)),
        State::EraseDeassert { .. } => Some(spec_write_erase_all(false)),
        State::Done { .. } => None,
    }
}

/// The transition relation. A transport failure is terminal from every
/// non-terminal state. A completed write advances to the next step of the
/// fixed order. A completed poll read leaves the loop when the busy flag is
/// clear, times out when the elapsed seconds have reached the window, and
/// otherwise polls again; the busy check comes first, so a read that finds
/// the flag clear completes the erase even at the deadline. The first status
/// read is for observability only: no decision is made from its value.
pub open spec fn spec_step(s: State, e: Event) -> State {
    match e {
        Event::TransportFailed => if s is Done {
            s
        } else {
            State::Done { outcome: Outcome::TransportError }
        },
        Event::WriteDone => match s {
            State::ResetAssert => State::ResetDeassert,
            State::ResetDeassert => State::EraseAssert,
            State::EraseAssert => State::FirstStatusRead,
            State::CleanupResetAssert { timed_out } => State::CleanupResetDeassert { timed_out },
            State::CleanupResetDeassert { timed_out } => State::EraseDeassert { timed_out },
            State::EraseDeassert { timed_out } => State::Done {
                outcome: if timed_out {
                    Outcome::Timeout
                } else {
                    Outcome::Success
                },
            },
            _ => s,
        },
        Event::ReadDone { word, elapsed_secs } => match s {
            State::FirstStatusRead => State::Poll,
            State::Poll => if !EraseAllStatus::spec_from_wire(word).busy {
                State::CleanupResetAssert { timed_out: false }
            } else if elapsed_secs >= UNLOCK_TIMEOUT_SECS {
                State::CleanupResetAssert { timed_out: true }
            } else {
                State::Poll
            },
            _ => s,
        },
    }
}

/// An event fits a state when it reports on the operation that state asked
/// for: a write report where a write was owed, a read report where a read
/// was owed, and a failure anywhere before the sequence is done.
pub open spec fn spec_event_permitted(s: State, e: Event) -> bool {
    match e {
        Event::WriteDone => spec_action_of(s) matches Some(a) && a is Write,
        Event::ReadDone { .. } => spec_action_of(s) matches Some(a) && a is Read,
        Event::TransportFailed => !(s is Done),
    }
}

/// The state reached from the start after a sequence of events.
pub open spec fn spec_run(events: Seq<Event>) -> State
    decreases events.len(),
{
    if events.len() == 0 {
        State::ResetAssert
    } else {
        spec_step(spec_run(events.drop_last()), events.last())
    }
}

/// Each event of the sequence fits the state it arrives in.
pub open spec fn spec_events_permitted(events: Seq<Event>) -> bool
    decreases events.len(),
{
    ||| events.len() == 0
    ||| {
        &&& spec_events_permitted(events.drop_last())
        &&& spec_event_permitted(spec_run(events.drop_last()), events.last())
    }
}

/// The register operations attempted over a run: before each event, the
/// driver attempted the one operation the state then owed.
pub open spec fn spec_trace(events: Seq<Event>) -> Seq<Action>
    decreases events.len(),
{
    if events.len() == 0 {
        Seq::<Action>::empty()
    } else {
        spec_trace(events.drop_last()) + (match spec_action_of(spec_run(events.drop_last())) {
            Some(a) => seq![a],
            None => Seq::<Action>::empty(),
        })
    }
}

/// The three writes that open every sequence: reset asserted, reset
/// released, erase requested.
pub open spec fn spec_opening_writes() -> Seq<Action> {
    seq![spec_write_reset(true), spec_write_reset(false), spec_write_erase_all(true)]
}

/// The three writes that close every sequence, whatever the poll decided:
/// reset asserted, reset released, erase request cleared.
pub open spec fn spec_closing_writes() -> Seq<Action> {
    seq![spec_write_reset(true), spec_write_reset(false), spec_write_erase_all(false)]
}

/// `k` consecutive reads of the erase-status register.
pub open spec fn spec_status_reads(k: nat) -> Seq<Action> {
    Seq::new(k, |i: int| spec_read_status())
}

/// The whole order of a completed sequence: the opening writes, `k` status
/// reads, the closing writes.
pub open spec fn spec_full_trace(k: nat) -> Seq<Action> {
    spec_opening_writes() + spec_status_reads(k) + spec_closing_writes()
}

/// No event of the run reported a transport failure.
pub open spec fn spec_no_transport_failure(events: Seq<Event>) -> bool {
    forall|i: int| 0 <= i < events.len() ==> !(#[trigger] events[i] is TransportFailed)
}

/// Every completed status read of the run found the busy flag still set.
pub open spec fn spec_all_reads_busy(events: Seq<Event>) -> bool {
    forall|i: int|
        0 <= i < events.len() ==> (#[trigger] events[i] matches Event::ReadDone { word, .. }
            ==> EraseAllStatus::spec_from_wire(word).busy)
}

/// Every completed status read of the run arrived before the deadline.
pub open spec fn spec_all_reads_in_window(events: Seq<Event>) -> bool {
    forall|i: int|
        0 <= i < events.len() ==> (#[trigger] events[i] matches Event::ReadDone {
            elapsed_secs,
            ..
        } ==> elapsed_secs < UNLOCK_TIMEOUT_SECS)
}

/// The trace a run must have issued to stand in a given state: each state
/// pins the operations attempted so far, up to the number of status reads,
/// except after a transport failure, where the trace is whatever prefix was
/// reached.
pub open spec fn spec_trace_matches(s: State, t: Seq<Action>) -> bool {
    match s {
        State::ResetAssert => t == Seq::<Action>::empty(),
        State::ResetDeassert => t == seq![spec_write_reset(true)],
        State::EraseAssert => t == seq![spec_write_reset(true), spec_write_reset(false)],
        State::FirstStatusRead => t == spec_opening_writes(),
        State::Poll => exists|k: nat|
            k >= 1 && t == spec_opening_writes() + #[trigger] spec_status_reads(k),
        State::CleanupResetAssert { .. } => exists|k: nat|
            k >= 2 && t == spec_opening_writes() + #[trigger] spec_status_reads(k),
        State::CleanupResetDeassert { .. } => exists|k: nat|
            k >= 2 && t == spec_opening_writes() + #[trigger] spec_status_reads(k) + seq![
                spec_write_reset(true),
            ],
        State::EraseDeassert { .. } => exists|k: nat|
            k >= 2 && t == spec_opening_writes() + #[trigger] spec_status_reads(k) + seq![
                spec_write_reset(true),
                spec_write_reset(false),
            ],
        State::Done { outcome } => outcome is TransportError || (exists|k: nat|
            k >= 2 && t == #[trigger] spec_full_trace(k)),
    }
}

proof fn lemma_prefix_no_failure(events: Seq<Event>)
    requires
        events.len() > 0,
        spec_no_transport_failure(events),
    ensures
        spec_no_transport_failure(events.drop_last()),
{
    assert forall|i: int| 0 <= i < events.drop_last().len() implies !(#[trigger] events.drop_last()[i]
        is TransportFailed) by {
        assert(events.drop_last()[i] == events[i]);
    }
}

proof fn lemma_prefix_all_reads_busy(events: Seq<Event>)
    requires
        events.len() > 0,
        spec_all_reads_busy(events),
    ensures
        spec_all_reads_busy(events.drop_last()),
{
    assert forall|i: int| 0 <= i < events.drop_last().len() implies (#[trigger] events.drop_last()[i]
        matches Event::ReadDone { word, .. } ==> EraseAllStatus::spec_from_wire(word).busy) by {
        assert(events.drop_last()[i] == events[i]);
    }
}

proof fn lemma_prefix_all_reads_in_window(events: Seq<Event>)
    requires
        events.len() > 0,
        spec_all_reads_in_window(events),
    ensures
        spec_all_reads_in_window(events.drop_last()),
{
    assert forall|i: int| 0 <= i < events.drop_last().len() implies (#[trigger] events.drop_last()[i]
        matches Event::ReadDone { elapsed_secs, .. } ==> elapsed_secs < UNLOCK_TIMEOUT_SECS) by {
        assert(events.drop_last()[i] == events[i]);
    }
}

/// Every permitted run stands in the state its trace says: the operations
/// attempted so far are exactly those the state sequence owed. A run
/// without a transport failure never reaches the transport-failure outcome.
pub proof fn lemma_run_trace_matches(events: Seq<Event>)
    requires
        spec_events_permitted(events),
    ensures
        spec_trace_matches(spec_run(events), spec_trace(events)),
        spec_no_transport_failure(events) ==> !(spec_run(events) == (State::Done {
            outcome: Outcome::TransportError,
        })),
    decreases events.len(),
{
    if events.len() == 0 {
        assert(spec_trace(events) == Seq::<Action>::empty());
    } else {
        let prefix = events.drop_last();
        let e = events.last();
        lemma_run_trace_matches(prefix);
        if spec_no_transport_failure(events) {
            lemma_prefix_no_failure(events);
            assert(!(e is TransportFailed)) by {
                assert(events[events.len() - 1] == e);
            }
        }
        let s = spec_run(prefix);
        let t = spec_trace(prefix);
        let t2 = spec_trace(events);
        match e {
            Event::TransportFailed => {
                assert(events[events.len() - 1] is TransportFailed);
            },
            Event::WriteDone => {
                match s {
                    State::ResetAssert => {
                        assert(t2 =~= seq![spec_write_reset(true)]);
                    },
                    State::ResetDeassert => {
                        assert(t2 =~= seq![spec_write_reset(true), spec_write_reset(false)]);
                    },
                    State::EraseAssert => {
                        assert(t2 =~= spec_opening_writes());
                    },
                    State::CleanupResetAssert { .. } => {
                        let k = choose|k: nat|
                            k >= 2 && t == spec_opening_writes() + #[trigger] spec_status_reads(k);
                        assert(t2 =~= spec_opening_writes() + spec_status_reads(k) + seq![
                            spec_write_reset(true),
                        ]);
                    },
                    State::CleanupResetDeassert { .. } => {
                        let k = choose|k: nat|
                            k >= 2 && t == spec_opening_writes() + #[trigger] spec_status_reads(k)
                                + seq![spec_write_reset(true)];
                        assert(t2 =~= spec_opening_writes() + spec_status_reads(k) + seq![
                            spec_write_reset(true),
                            spec_write_reset(false),
                        ]);
                    },
                    State::EraseDeassert { .. } => {
                        let k = choose|k: nat|
                            k >= 2 && t == spec_opening_writes() + #[trigger] spec_status_reads(k)
                                + seq![spec_write_reset(true), spec_write_reset(false)];
                        assert(t2 =~= spec_full_trace(k));
                        assert(k >= 2 && t2 == #[trigger] spec_full_trace(k));
                    },
                    _ => {
                        assert(false);
                    },
                }
            },
            Event::ReadDone { .. } => {
                match s {
                    State::FirstStatusRead => {
                        assert(t2 =~= spec_opening_writes() + spec_status_reads(1));
                        assert(1 >= 1 && t2 == spec_opening_writes() + spec_status_reads(1nat));
                    },
                    State::Poll => {
                        let k = choose|k: nat|
                            k >= 1 && t == spec_opening_writes() + #[trigger] spec_status_reads(k);
                        assert(t2 =~= spec_opening_writes() + spec_status_reads((k + 1) as nat));
                        assert((k + 1) as nat >= 2 && t2 == spec_opening_writes()
                            + spec_status_reads((k + 1) as nat));
                    },
                    _ => {
                        assert(false);
                    },
                }
            },
        }
    }
}

/// Ordering law: a run that finished without a transport failure attempted
/// exactly the three opening writes, then the status reads — the initial
/// one and at least one poll read — then the three closing writes, in that
/// order, whatever the outcome.
pub proof fn lemma_completed_run_is_full_trace(events: Seq<Event>)
    requires
        spec_events_permitted(events),
        spec_no_transport_failure(events),
        spec_run(events) is Done,
    ensures
        exists|k: nat| k >= 2 && spec_trace(events) == #[trigger] spec_full_trace(k),
{
    lemma_run_trace_matches(events);
}

/// A transport failure aborts at once: from any unfinished state it is
/// terminal with the transport-failure outcome, and the machine owes no
/// further operation.
pub proof fn lemma_transport_failure_aborts(s: State)
    requires
        !(s is Done),
    ensures
        spec_step(s, Event::TransportFailed) == (State::Done { outcome: Outcome::TransportError }),
        spec_action_of(spec_step(s, Event::TransportFailed)) is None,
{
}

/// A finished sequence accepts nothing more: no event fits a terminal
/// state, so a permitted run cannot continue past its end.
pub proof fn lemma_done_accepts_no_event(s: State, e: Event)
    requires
        s is Done,
    ensures
        !spec_event_permitted(s, e),
{
}

proof fn lemma_all_reads_busy_no_success_states(events: Seq<Event>)
    requires
        spec_events_permitted(events),
        spec_all_reads_busy(events),
    ensures
        !(spec_run(events) == (State::CleanupResetAssert { timed_out: false })),
        !(spec_run(events) == (State::CleanupResetDeassert { timed_out: false })),
        !(spec_run(events) == (State::EraseDeassert { timed_out: false })),
        !(spec_run(events) == (State::Done { outcome: Outcome::Success })),
    decreases events.len(),
{
    if events.len() > 0 {
        lemma_prefix_all_reads_busy(events);
        lemma_all_reads_busy_no_success_states(events.drop_last());
        assert(events[events.len() - 1] == events.last());
    }
}

/// Timeout law, first half: while every status read still reports busy and
/// still arrives before the deadline, a failure-free run has not left the
/// poll loop — it still stands at the poll or at one of the steps before it.
pub proof fn lemma_busy_in_window_still_polling(events: Seq<Event>)
    requires
        spec_events_permitted(events),
        spec_all_reads_busy(events),
        spec_all_reads_in_window(events),
        spec_no_transport_failure(events),
    ensures
        spec_run(events) is ResetAssert || spec_run(events) is ResetDeassert || spec_run(events)
            is EraseAssert || spec_run(events) is FirstStatusRead || spec_run(events) is Poll,
    decreases events.len(),
{
    if events.len() > 0 {
        lemma_prefix_all_reads_busy(events);
        lemma_prefix_all_reads_in_window(events);
        lemma_prefix_no_failure(events);
        lemma_busy_in_window_still_polling(events.drop_last());
        assert(events[events.len() - 1] == events.last());
    }
}

/// Timeout law, second half: when the busy flag never cleared and the run
/// nevertheless finished without a transport failure, the reported outcome
/// is the timeout — the poll was left by the deadline alone.
pub proof fn lemma_always_busy_times_out(events: Seq<Event>)
    requires
        spec_events_permitted(events),
        spec_all_reads_busy(events),
        spec_no_transport_failure(events),
        spec_run(events) is Done,
    ensures
        spec_run(events) == (State::Done { outcome: Outcome::Timeout }),
{
    lemma_run_trace_matches(events);
    lemma_all_reads_busy_no_success_states(events);
}

proof fn lemma_reads_in_window_no_timeout_states(events: Seq<Event>)
    requires
        spec_events_permitted(events),
        spec_all_reads_in_window(events),
    ensures
        !(spec_run(events) == (State::CleanupResetAssert { timed_out: true })),
        !(spec_run(events) == (State::CleanupResetDeassert { timed_out: true })),
        !(spec_run(events) == (State::EraseDeassert { timed_out: true })),
        !(spec_run(events) == (State::Done { outcome: Outcome::Timeout })),
    decreases events.len(),
{
    if events.len() > 0 {
        lemma_prefix_all_reads_in_window(events);
        lemma_reads_in_window_no_timeout_states(events.drop_last());
        assert(events[events.len() - 1] == events.last());
    }
}

/// Success law: when every status read arrived before the deadline and the
/// run finished without a transport failure, the busy flag must have
/// cleared in time and the reported outcome is success.
pub proof fn lemma_in_window_run_succeeds(events: Seq<Event>)
    requires
        spec_events_permitted(events),
        spec_all_reads_in_window(events),
        spec_no_transport_failure(events),
        spec_run(events) is Done,
    ensures
        spec_run(events) == (State::Done { outcome: Outcome::Success }),
{
    lemma_run_trace_matches(events);
    lemma_reads_in_window_no_timeout_states(events);
}

/// The sequencer: the current state, and (as ghost history) the events that
/// drove it there.
pub struct Sequencer {
    pub state: State,
    pub history: Ghost<Seq<Event>>,
}

impl Sequencer {
    /// The state is exactly where the recorded events lead, and every
    /// recorded event fit the state it arrived in.
    pub open spec fn wf(self) -> bool {
        &&& spec_events_permitted(self.history@)
        &&& self.state == spec_run(self.history@)
    }

    /// A fresh sequence, about to ask for the first reset write.
    pub fn new() -> (s: Sequencer)
        ensures
            s.wf(),
            s.state == State::ResetAssert,
            s.history@ == Seq::<Event>::empty(),
    {
        Sequencer { state: State::ResetAssert, history: Ghost(Seq::empty()) }
    }

    /// The register operation the driver is to perform now, or `None` once
    /// the sequence is done. The words written come from the register
    /// model's encoding.
    pub fn next_action(&self) -> (a: Option<Action>)
        ensures
            a == spec_action_of(self.state),
    {
        match self.state {
            State::ResetAssert => Some(
                Action::Write { register: RegisterId::Reset, word: (Reset { held: true }).to_wire() },
            ),
            State::ResetDeassert => Some(
                Action::Write {
                    register: RegisterId::Reset,
                    word: (Reset { held: false }).to_wire(),
                },
            ),
            State::EraseAssert => Some(
                Action::Write {
                    register: RegisterId::EraseAll,
                    word: (EraseAll { requested: true }).to_wire(),
                },
            ),
            State::FirstStatusRead => Some(Action::Read { register: RegisterId::EraseAllStatus }),
            State::Poll => Some(Action::Read { register: RegisterId::EraseAllStatus }),
            State::CleanupResetAssert { .. } => Some(
                Action::Write { register: RegisterId::Reset, word: (Reset { held: true }).to_wire() },
            ),
            State::CleanupResetDeassert { .. } => Some(
                Action::Write {
                    register: RegisterId::Reset,
                    word: (Reset { held: false }).to_wire(),
                },
            ),
            State::EraseDeassert { .. } => Some(
                Action::Write {
                    register: RegisterId::EraseAll,
                    word: (EraseAll { requested: false }).to_wire(),
                },
            ),
            State::Done { .. } => None,
        }
    }

    /// Advance on the driver's report of the operation just attempted.
    pub fn step(&mut self, event: Event)
        requires
            old(self).wf(),
            spec_event_permitted(old(self).state, event),
        ensures
            final(self).wf(),
            final(self).state == spec_step(old(self).state, event),
            final(self).history@ == old(self).history@.push(event),
    {
        let next = match event {
            Event::TransportFailed => if let State::Done { outcome } = self.state {
                State::Done { outcome }
            } else {
                State::Done { outcome: Outcome::TransportError }
            },
            Event::WriteDone => match self.state {
                State::ResetAssert => State::ResetDeassert,
                State::ResetDeassert => State::EraseAssert,
                State::EraseAssert => State::FirstStatusRead,
                State::CleanupResetAssert { timed_out } => State::CleanupResetDeassert {
                    timed_out,
                },
                State::CleanupResetDeassert { timed_out } => State::EraseDeassert { timed_out },
                State::EraseDeassert { timed_out } => State::Done {
                    outcome: if timed_out {
                        Outcome::Timeout
                    } else {
                        Outcome::Success
                    },
                },
                s => s,
            },
            Event::ReadDone { word, elapsed_secs } => match self.state {
                State::FirstStatusRead => State::Poll,
                State::Poll => {
                    let status = EraseAllStatus::from_wire(word);
                    if !status.busy {
                        State::CleanupResetAssert { timed_out: false }
                    } else if elapsed_secs >= UNLOCK_TIMEOUT_SECS {
                        State::CleanupResetAssert { timed_out: true }
                    } else {
                        State::Poll
                    }
                },
                s => s,
            },
        };
        let ghost events = self.history@.push(event);
        proof {
            assert(events.drop_last() =~= old(self).history@);
        }
        self.state = next;
        self.history = Ghost(events);
    }

    /// Ordering law at the sequencer: a well-formed sequencer that reached
    /// its end without a transport failure was driven by events whose
    /// attempted operations are exactly the full trace — the opening
    /// writes, the status reads, the closing writes.
    pub proof fn lemma_done_issued_full_trace(self)
        requires
            self.wf(),
            self.state is Done,
            spec_no_transport_failure(self.history@),
        ensures
            exists|k: nat| k >= 2 && spec_trace(self.history@) == #[trigger] spec_full_trace(k),
    {
        lemma_completed_run_is_full_trace(self.history@);
    }

    /// The outcome once the sequence is done, `None` while it still runs.
    pub fn outcome(&self) -> (r: Option<Outcome>)
        ensures
            r == (match self.state {
                State::Done { outcome } => Some(outcome),
                _ => None::<Outcome>,
            }),
    {
        match self.state {
            State::Done { outcome } => Some(outcome),
            _ => None,
        }
    }
}

} // verus!
