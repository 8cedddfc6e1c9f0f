use nrf_recover::registers::EraseAllStatus;
use nrf_recover::sequencer::{
    Action, Event, Outcome, RegisterId, Sequencer, UNLOCK_TIMEOUT_SECS,
};

/// A deterministic in-memory transport: it records every operation the
/// sequencer asks for, reports busy for a configurable number of status
/// reads (or forever), advances an injected clock by one second per read,
/// and can be told to fail on one specific operation.
struct MockTransport {
    busy_reads: usize,
    always_busy: bool,
    fail_on_call: Option<usize>,
    reads_seen: usize,
    elapsed_secs: u64,
    calls: Vec<Action>,
}

impl MockTransport {
    fn new(busy_reads: usize, always_busy: bool, fail_on_call: Option<usize>) -> Self {
        MockTransport {
            busy_reads,
            always_busy,
            fail_on_call,
            reads_seen: 0,
            elapsed_secs: 0,
            calls: Vec::new(),
        }
    }

    /// Attempt one operation and report what happened.
    fn perform(&mut self, action: Action) -> Event {
        let index = self.calls.len();
        self.calls.push(action);
        if self.fail_on_call == Some(index) {
            return Event::TransportFailed;
        }
        match action {
            Action::Write { .. } => Event::WriteDone,
            Action::Read { .. } => {
                self.reads_seen += 1;
                self.elapsed_secs += 1;
                // The first read is the observational one; the poll reads
                // after it report busy until the configured count is spent.
                let busy = self.always_busy || self.reads_seen <= 1 + self.busy_reads;
                let word = EraseAllStatus { busy }.to_wire();
                Event::ReadDone { word, elapsed_secs: self.elapsed_secs }
            }
        }
    }
}

/// Drive a sequencer against a mock transport until it is done.
fn run(transport: &mut MockTransport) -> Outcome {
    let mut sequencer = Sequencer::new();
    while let Some(action) = sequencer.next_action() {
        let event = transport.perform(action);
        sequencer.step(event);
    }
    let outcome = sequencer.outcome();
    assert!(sequencer.next_action().is_none());
    outcome.expect("sequence ended without an outcome")
}

fn write_reset(held: bool) -> Action {
    Action::Write { register: RegisterId::Reset, word: if held { 1 } else { 0 } }
}

fn write_erase_all(requested: bool) -> Action {
    Action::Write { register: RegisterId::EraseAll, word: if requested { 1 } else { 0 } }
}

fn read_status() -> Action {
    Action::Read { register: RegisterId::EraseAllStatus }
}

/// The exact operation order of a completed sequence with `reads` status
/// reads in the middle.
fn full_sequence(reads: usize) -> Vec<Action> {
    let mut expected = vec![write_reset(true), write_reset(false), write_erase_all(true)];
    for _ in 0..reads {
        expected.push(read_status());
    }
    expected.push(write_reset(true));
    expected.push(write_reset(false));
    expected.push(write_erase_all(false));
    expected
}

#[test]
fn success_path_issues_exact_order() {
    // Busy for three poll reads, then clear: the initial read plus four
    // poll reads, then the closing writes.
    let mut transport = MockTransport::new(3, false, None);
    let outcome = run(&mut transport);
    assert_eq!(outcome, Outcome::Success);
    assert_eq!(transport.calls, full_sequence(5));
}

#[test]
fn immediate_completion_still_reads_twice() {
    // Even a chip that reports idle at once gets the observational read and
    // one poll read.
    let mut transport = MockTransport::new(0, false, None);
    let outcome = run(&mut transport);
    assert_eq!(outcome, Outcome::Success);
    assert_eq!(transport.calls, full_sequence(2));
}

#[test]
fn always_busy_times_out_after_window() {
    // The clock advances one second per read; with the busy flag never
    // clearing, the poll is left exactly when the elapsed seconds reach the
    // window, and the cleanup writes are still issued.
    let mut transport = MockTransport::new(0, true, None);
    let outcome = run(&mut transport);
    assert_eq!(outcome, Outcome::Timeout);
    let reads = UNLOCK_TIMEOUT_SECS as usize;
    assert_eq!(transport.calls, full_sequence(reads));
}

#[test]
fn timeout_still_runs_cleanup_writes() {
    let mut transport = MockTransport::new(0, true, None);
    run(&mut transport);
    let n = transport.calls.len();
    assert_eq!(
        transport.calls[n - 3..].to_vec(),
        vec![write_reset(true), write_reset(false), write_erase_all(false)]
    );
}

#[test]
fn failure_on_first_write_aborts_immediately() {
    let mut transport = MockTransport::new(3, false, Some(0));
    let outcome = run(&mut transport);
    assert_eq!(outcome, Outcome::TransportError);
    assert_eq!(transport.calls, vec![write_reset(true)]);
}

#[test]
fn failure_on_erase_write_aborts_immediately() {
    let mut transport = MockTransport::new(3, false, Some(2));
    let outcome = run(&mut transport);
    assert_eq!(outcome, Outcome::TransportError);
    assert_eq!(
        transport.calls,
        vec![write_reset(true), write_reset(false), write_erase_all(true)]
    );
}

#[test]
fn failure_on_status_read_aborts_immediately() {
    let mut transport = MockTransport::new(3, false, Some(4));
    let outcome = run(&mut transport);
    assert_eq!(outcome, Outcome::TransportError);
    assert_eq!(transport.calls.len(), 5);
    assert_eq!(transport.calls[3], read_status());
    assert_eq!(transport.calls[4], read_status());
}

#[test]
fn failure_on_cleanup_write_aborts_immediately() {
    // Fail on the first cleanup write: opening writes and both reads went
    // through, nothing follows the failed write.
    let mut transport = MockTransport::new(0, false, Some(5));
    let outcome = run(&mut transport);
    assert_eq!(outcome, Outcome::TransportError);
    assert_eq!(transport.calls.len(), 6);
    assert_eq!(transport.calls[5], write_reset(true));
}

#[test]
fn poll_keeps_reading_while_busy_within_window() {
    // Ten busy poll reads, all well inside the window: no timeout.
    let mut transport = MockTransport::new(10, false, None);
    let outcome = run(&mut transport);
    assert_eq!(outcome, Outcome::Success);
    assert_eq!(transport.calls, full_sequence(12));
}
