//! The session event loop as a state machine.
//!
//! The loop that owns the connection alternates between waiting and deciding. The
//! waiting (on the socket, on the queues) is the caller's; the deciding is `Session::step`:
//! the caller reports what happened as an `Event` and carries out the `Action` it gets
//! back. `transition` is the mathematical model of one step, `run` of a whole trace,
//! and the `law_` functions state what holds of every trace.

use vstd::prelude::*;

use crate::client::{handle_task, Task, TaskView};

verus! {

/// Why a session came to its end.
#[derive(Debug, Clone, Copy, PartialEq, Eq, Structural)]
pub enum StopReason {
    /// The initial connect failed.
    ConnectFailed,
    /// A write or flush failed.
    WriteFailed,
    /// The inbound side was finished and the outbound queue has been emptied.
    Drained,
}

/// Where a session stands in its life.
#[derive(Debug, Clone, Copy, PartialEq, Eq, Structural)]
pub enum Phase {
    /// The connection is not yet established.
    Starting,
    /// Both directions are served.
    Running,
    /// The inbound side is finished; what is left in the outbound queue is still written.
    Closing,
    /// The loop has ended.
    Stopped(StopReason),
}

/// What the loop has to wait for next.
#[derive(Debug, Clone, Copy, PartialEq, Eq, Structural)]
pub enum Wait {
    /// The outcome of the initial connect.
    Connect,
    /// The completion of the write that was handed out.
    Write,
    /// The next outbound task or the next inbound line, whichever comes first.
    TaskOrLine,
    /// The next inbound line only: the outbound queue is closed.
    Line,
    /// Nothing that blocks: the outbound queue is polled for what is left in it.
    Drain,
    /// Nothing at all: the loop ends.
    Nothing,
}

/// The state of a session as a mathematical value.
pub struct SessionState {
    pub phase: Phase,
    /// The outbound queue has not been reported closed.
    pub queue_open: bool,
    /// A write has been handed out and its completion has not been reported.
    pub writing: bool,
}

/// An event as a mathematical value.
pub enum EventView {
    Connected,
    ConnectFailed,
    TaskReady(TaskView),
    QueueClosed,
    QueueEmpty,
    Line(Seq<char>),
    EndOfStream,
    ReadFailed,
    MailboxClosed,
    WriteDone,
    WriteFailed,
}

/// An action as a mathematical value.
pub enum ActionView {
    Idle,
    Write(Seq<u8>),
    Deliver(Seq<char>),
    Refuse(TaskView),
    Stop(StopReason),
}

/// The state in which every session begins.
pub open spec fn initial() -> SessionState {
    SessionState { phase: Phase::Starting, queue_open: true, writing: false }
}

/// The state of a session that has ended for `reason`.
pub open spec fn stopped(s: SessionState, reason: StopReason) -> SessionState {
    SessionState { phase: Phase::Stopped(reason), writing: false, ..s }
}

/// What the loop waits for in state `s`.
pub open spec fn awaited(s: SessionState) -> Wait {
    match s.phase {
        Phase::Starting => Wait::Connect,
        Phase::Running => if s.writing {
            Wait::Write
        } else if s.queue_open {
            Wait::TaskOrLine
        } else {
            Wait::Line
        },
        Phase::Closing => if s.writing {
            Wait::Write
        } else {
            Wait::Drain
        },
        Phase::Stopped(_) => Wait::Nothing,
    }
}

/// A step before the connection stands: only the outcome of the connect counts.
pub open spec fn starting_step(s: SessionState, e: EventView) -> (SessionState, ActionView) {
    match e {
        EventView::Connected => (
            SessionState { phase: Phase::Running, writing: false, ..s },
            ActionView::Idle,
        ),
        EventView::ConnectFailed => (
            stopped(s, StopReason::ConnectFailed),
            ActionView::Stop(StopReason::ConnectFailed),
        ),
        EventView::TaskReady(task) => (s, ActionView::Refuse(task)),
        _ => (s, ActionView::Idle),
    }
}

/// The outbound half of a step, the same while running and while closing: a task is
/// written only when no write is in flight, and a failed write ends the session.
pub open spec fn outbound_step(s: SessionState, e: EventView) -> (SessionState, ActionView) {
    match e {
        EventView::TaskReady(task) => if s.writing {
            (s, ActionView::Refuse(task))
        } else {
            (SessionState { writing: true, ..s }, ActionView::Write(task.wire()))
        },
        EventView::WriteDone => (SessionState { writing: false, ..s }, ActionView::Idle),
        EventView::WriteFailed => if s.writing {
            (stopped(s, StopReason::WriteFailed), ActionView::Stop(StopReason::WriteFailed))
        } else {
            (s, ActionView::Idle)
        },
        _ => (s, ActionView::Idle),
    }
}

/// A step while both directions are served.
pub open spec fn running_step(s: SessionState, e: EventView) -> (SessionState, ActionView) {
    match e {
        EventView::Line(text) => (s, ActionView::Deliver(text)),
        EventView::EndOfStream | EventView::ReadFailed | EventView::MailboxClosed => (
            SessionState { phase: Phase::Closing, ..s },
            ActionView::Idle,
        ),
        EventView::QueueClosed => (SessionState { queue_open: false, ..s }, ActionView::Idle),
        _ => outbound_step(s, e),
    }
}

/// A step after the inbound side has finished: nothing is delivered any more, and the
/// session ends once the outbound queue is found empty with no write in flight.
pub open spec fn closing_step(s: SessionState, e: EventView) -> (SessionState, ActionView) {
    match e {
        EventView::QueueEmpty => if s.writing {
            (s, ActionView::Idle)
        } else {
            (stopped(s, StopReason::Drained), ActionView::Stop(StopReason::Drained))
        },
        EventView::QueueClosed => {
            let closed = SessionState { queue_open: false, ..s };
            if s.writing {
                (closed, ActionView::Idle)
            } else {
                (stopped(closed, StopReason::Drained), ActionView::Stop(StopReason::Drained))
            }
        },
        _ => outbound_step(s, e),
    }
}

/// A step after the end: a task is handed back, everything else repeats the stop.
pub open spec fn stopped_step(s: SessionState, reason: StopReason, e: EventView) -> (
    SessionState,
    ActionView,
) {
    match e {
        EventView::TaskReady(task) => (s, ActionView::Refuse(task)),
        _ => (s, ActionView::Stop(reason)),
    }
}

/// One step of the event loop: the state after event `e` arrived in state `s`, and
/// the action that the loop has to carry out.
pub open spec fn transition(s: SessionState, e: EventView) -> (SessionState, ActionView) {
    match s.phase {
        Phase::Starting => starting_step(s, e),
        Phase::Running => running_step(s, e),
        Phase::Closing => closing_step(s, e),
        Phase::Stopped(reason) => stopped_step(s, reason, e),
    }
}

/// What the loop reports to the session.
#[derive(Debug, Clone, PartialEq, Eq)]
pub enum Event {
    /// The initial connect succeeded.
    Connected,
    /// The initial connect failed.
    ConnectFailed,
    /// The outbound queue yielded its next task.
    TaskReady(Task),
    /// The outbound queue is closed: every sender is gone and nothing is left in it.
    QueueClosed,
    /// A poll of the outbound queue that does not block found nothing.
    QueueEmpty,
    /// A line was read from the inbound half; the text is already decoded.
    Line(String),
    /// The peer closed its side: a read returned no bytes.
    EndOfStream,
    /// A read failed.
    ReadFailed,
    /// The inbound mailbox no longer has a receiver.
    MailboxClosed,
    /// The write that was handed out has been written and flushed.
    WriteDone,
    /// The write that was handed out failed.
    WriteFailed,
}

impl View for Event {
    type V = EventView;

    open spec fn view(&self) -> EventView {
        match *self {
            Event::Connected => EventView::Connected,
            Event::ConnectFailed => EventView::ConnectFailed,
            Event::TaskReady(task) => EventView::TaskReady(task@),
            Event::QueueClosed => EventView::QueueClosed,
            Event::QueueEmpty => EventView::QueueEmpty,
            Event::Line(text) => EventView::Line(text@),
            Event::EndOfStream => EventView::EndOfStream,
            Event::ReadFailed => EventView::ReadFailed,
            Event::MailboxClosed => EventView::MailboxClosed,
            Event::WriteDone => EventView::WriteDone,
            Event::WriteFailed => EventView::WriteFailed,
        }
    }
}

/// What the loop has to do after a step.
#[derive(Debug, Clone, PartialEq, Eq)]
pub enum Action {
    /// Nothing: wait again.
    Idle,
    /// Write these bytes to the outbound half and flush, then report `WriteDone` or
    /// `WriteFailed`.
    Write(Vec<u8>),
    /// Put this line into the inbound mailbox.
    Deliver(String),
    /// The task cannot be written now; it is handed back.
    Refuse(Task),
    /// Leave the loop.
    Stop(StopReason),
}

impl View for Action {
    type V = ActionView;

    open spec fn view(&self) -> ActionView {
        match *self {
            Action::Idle => ActionView::Idle,
            Action::Write(bytes) => ActionView::Write(bytes@),
            Action::Deliver(text) => ActionView::Deliver(text@),
            Action::Refuse(task) => ActionView::Refuse(task@),
            Action::Stop(reason) => ActionView::Stop(reason),
        }
    }
}

/// The decisions of one session's event loop.
#[derive(Debug, Clone)]
pub struct Session {
    phase: Phase,
    queue_open: bool,
    writing: bool,
}

impl View for Session {
    type V = SessionState;

    closed spec fn view(&self) -> SessionState {
        SessionState { phase: self.phase, queue_open: self.queue_open, writing: self.writing }
    }
}

impl Session {
    /// A session that has not connected yet.
    pub fn new() -> (session: Session)
        ensures
            session@ == initial(),
    {
        Session { phase: Phase::Starting, queue_open: true, writing: false }
    }

    /// The phase that the session is in.
    pub fn phase(&self) -> (phase: Phase)
        ensures
            phase == self@.phase,
    {
        self.phase
    }

    /// What the loop has to wait for next.
    pub fn wait(&self) -> (wait: Wait)
        ensures
            wait == awaited(self@),
    {
        match self.phase {
            Phase::Starting => Wait::Connect,
            Phase::Running => if self.writing {
                Wait::Write
            } else if self.queue_open {
                Wait::TaskOrLine
            } else {
                Wait::Line
            },
            Phase::Closing => if self.writing {
                Wait::Write
            } else {
                Wait::Drain
            },
            Phase::Stopped(_) => Wait::Nothing,
        }
    }

    fn stop(&mut self, reason: StopReason) -> (action: Action)
        ensures
            final(self)@ == stopped(old(self)@, reason),
            action@ == ActionView::Stop(reason),
    {
        self.phase = Phase::Stopped(reason);
        self.writing = false;
        Action::Stop(reason)
    }

    fn outbound(&mut self, event: Event) -> (action: Action)
        ensures
            (final(self)@, action@) == outbound_step(old(self)@, event@),
    {
        match event {
            Event::TaskReady(task) => if self.writing {
                Action::Refuse(task)
            } else {
                self.writing = true;
                Action::Write(handle_task(task))
            },
            Event::WriteDone => {
                self.writing = false;
                Action::Idle
            },
            Event::WriteFailed => if self.writing {
                self.stop(StopReason::WriteFailed)
            } else {
                Action::Idle
            },
            _ => Action::Idle,
        }
    }

    /// Takes one event and decides: the session moves as `transition` says, and the
    /// action returned is the one that `transition` gives.
    pub fn step(&mut self, event: Event) -> (action: Action)
        ensures
            (final(self)@, action@) == transition(old(self)@, event@),
    {
        match self.phase {
            Phase::Starting => match event {
                Event::Connected => {
                    self.phase = Phase::Running;
                    self.writing = false;
                    Action::Idle
                },
                Event::ConnectFailed => self.stop(StopReason::ConnectFailed),
                Event::TaskReady(task) => Action::Refuse(task),
                _ => Action::Idle,
            },
            Phase::Running => match event {
                Event::Line(text) => Action::Deliver(text),
                Event::EndOfStream | Event::ReadFailed | Event::MailboxClosed => {
                    self.phase = Phase::Closing;
                    Action::Idle
                },
                Event::QueueClosed => {
                    self.queue_open = false;
                    Action::Idle
                },
                other => self.outbound(other),
            },
            Phase::Closing => match event {
                Event::QueueClosed => {
                    self.queue_open = false;
                    if self.writing {
                        Action::Idle
                    } else {
                        self.stop(StopReason::Drained)
                    }
                },
                Event::QueueEmpty => if self.writing {
                    Action::Idle
                } else {
                    self.stop(StopReason::Drained)
                },
                other => self.outbound(other),
            },
            Phase::Stopped(reason) => match event {
                Event::TaskReady(task) => Action::Refuse(task),
                _ => Action::Stop(reason),
            },
        }
    }
}

/// The model of a whole trace: the state after the events arrived one after another
/// in state `s`, and the actions that the loop was given, in order.
pub open spec fn run(s: SessionState, events: Seq<EventView>) -> (SessionState, Seq<ActionView>)
    decreases events.len(),
{
    if events.len() == 0 {
        (s, Seq::empty())
    } else {
        let first = transition(s, events[0]);
        let rest = run(first.0, events.drop_first());
        (rest.0, seq![first.1] + rest.1)
    }
}

/// The bytes that a sequence of actions puts on the wire: the payloads of its writes,
/// one after another.
pub open spec fn written(actions: Seq<ActionView>) -> Seq<u8>
    decreases actions.len(),
{
    if actions.len() == 0 {
        Seq::empty()
    } else {
        let first = match actions[0] {
            ActionView::Write(bytes) => bytes,
            _ => Seq::empty(),
        };
        first + written(actions.drop_first())
    }
}

/// The lines that a sequence of actions puts into the inbound mailbox, in order.
pub open spec fn delivered(actions: Seq<ActionView>) -> Seq<Seq<char>>
    decreases actions.len(),
{
    if actions.len() == 0 {
        Seq::empty()
    } else {
        let first = match actions[0] {
            ActionView::Deliver(text) => seq![text],
            _ => Seq::empty(),
        };
        first + delivered(actions.drop_first())
    }
}

/// The events of a burst of tasks: each task is taken from the queue and its write
/// completes before the next one is taken.
pub open spec fn burst(tasks: Seq<TaskView>) -> Seq<EventView>
    decreases tasks.len(),
{
    if tasks.len() == 0 {
        Seq::empty()
    } else {
        seq![EventView::TaskReady(tasks[0]), EventView::WriteDone] + burst(tasks.drop_first())
    }
}

/// The wire forms of `tasks`, one after another.
pub open spec fn wire_of(tasks: Seq<TaskView>) -> Seq<u8>
    decreases tasks.len(),
{
    if tasks.len() == 0 {
        Seq::empty()
    } else {
        tasks[0].wire() + wire_of(tasks.drop_first())
    }
}

/// The events of lines that arrive one after another.
pub open spec fn arrivals(lines: Seq<Seq<char>>) -> Seq<EventView> {
    Seq::new(lines.len(), |i: int| EventView::Line(lines[i]))
}

/// True when the session serves its outbound side: it is connected and has not ended.
pub open spec fn serves_outbound(s: SessionState) -> bool {
    s.phase is Running || s.phase is Closing
}

/// True when nothing is delivered from `s` on: the inbound side has finished.
pub open spec fn inbound_finished(s: SessionState) -> bool {
    s.phase is Closing || s.phase is Stopped
}

/// A trace that begins with event `e` is the step for `e`, then the rest of the trace.
pub proof fn lemma_run_first(s: SessionState, e: EventView, rest: Seq<EventView>)
    ensures
        run(s, seq![e] + rest).0 == run(transition(s, e).0, rest).0,
        run(s, seq![e] + rest).1 == seq![transition(s, e).1] + run(transition(s, e).0, rest).1,
{
    assert((seq![e] + rest).drop_first() =~= rest);
}

/// Order preservation. Tasks that are taken from the queue one after another, each
/// written before the next is taken, put on the wire exactly their wire forms in the
/// order in which they were taken, and leave the session as it was.
pub proof fn law_burst_is_written_in_order(s: SessionState, tasks: Seq<TaskView>)
    requires
        serves_outbound(s),
        !s.writing,
    ensures
        written(run(s, burst(tasks)).1) == wire_of(tasks),
        run(s, burst(tasks)).0 == s,
    decreases tasks.len(),
{
    if tasks.len() > 0 {
        let rest = tasks.drop_first();
        let take = EventView::TaskReady(tasks[0]);
        let busy = transition(s, take).0;
        lemma_run_first(s, take, seq![EventView::WriteDone] + burst(rest));
        lemma_run_first(busy, EventView::WriteDone, burst(rest));
        law_burst_is_written_in_order(s, rest);
        assert(burst(tasks) =~= seq![take] + (seq![EventView::WriteDone] + burst(rest)));
        let actions = run(s, burst(tasks)).1;
        let tail = run(s, burst(rest)).1;
        assert(actions.drop_first().drop_first() =~= tail);
        assert(written(actions.drop_first()) =~= written(tail));
    }
}

/// One write at a time. A write is handed out only while none is in flight, and it
/// is in flight from then on; no step other than the arrival of a task hands one out,
/// and the bytes are that task's wire form.
pub proof fn law_one_write_in_flight(s: SessionState, e: EventView)
    ensures
        transition(s, e).1 is Write ==> {
            &&& !s.writing
            &&& transition(s, e).0.writing
            &&& e matches EventView::TaskReady(task)
            &&& transition(s, e).1 == ActionView::Write(task.wire())
        },
{
}

/// Inbound fidelity. While the session is running, lines that arrive one after
/// another are delivered one for one, unchanged and in the order of their arrival.
pub proof fn law_lines_are_delivered_in_order(s: SessionState, lines: Seq<Seq<char>>)
    requires
        s.phase is Running,
    ensures
        delivered(run(s, arrivals(lines)).1) == lines,
        run(s, arrivals(lines)).0 == s,
    decreases lines.len(),
{
    if lines.len() > 0 {
        let rest = lines.drop_first();
        let first = EventView::Line(lines[0]);
        assert(arrivals(lines) =~= seq![first] + arrivals(rest));
        lemma_run_first(s, first, arrivals(rest));
        law_lines_are_delivered_in_order(s, rest);
        let actions = run(s, arrivals(lines)).1;
        assert(actions.drop_first() =~= run(s, arrivals(rest)).1);
    }
}

/// The trace without the arrivals of lines.
pub open spec fn without_lines(events: Seq<EventView>) -> Seq<EventView>
    decreases events.len(),
{
    if events.len() == 0 {
        Seq::empty()
    } else if events[0] is Line {
        without_lines(events.drop_first())
    } else {
        seq![events[0]] + without_lines(events.drop_first())
    }
}

/// The trace without the arrivals of tasks and the completions of their writes.
pub open spec fn without_writes(events: Seq<EventView>) -> Seq<EventView>
    decreases events.len(),
{
    if events.len() == 0 {
        Seq::empty()
    } else if events[0] is TaskReady || events[0] is WriteDone {
        without_writes(events.drop_first())
    } else {
        seq![events[0]] + without_writes(events.drop_first())
    }
}

/// True when two states differ at most in whether a write is in flight, or when the
/// inbound side has finished in both.
pub open spec fn same_inbound(a: SessionState, b: SessionState) -> bool {
    ||| inbound_finished(a) && inbound_finished(b)
    ||| a.phase == b.phase && a.queue_open == b.queue_open
}

/// Lines do not disturb writes. The arrival of lines, wherever it falls among the
/// other events, changes neither the bytes that are written nor the state in which
/// the session ends up.
pub proof fn law_lines_do_not_disturb_writes(s: SessionState, events: Seq<EventView>)
    ensures
        written(run(s, events).1) == written(run(s, without_lines(events)).1),
        run(s, events).0 == run(s, without_lines(events)).0,
    decreases events.len(),
{
    if events.len() > 0 {
        let rest = events.drop_first();
        let next = transition(s, events[0]);
        let actions = run(s, events).1;
        assert(actions.drop_first() =~= run(next.0, rest).1);
        if events[0] is Line {
            law_lines_do_not_disturb_writes(s, rest);
        } else {
            law_lines_do_not_disturb_writes(next.0, rest);
            lemma_run_first(s, events[0], without_lines(rest));
            let kept = run(s, without_lines(events)).1;
            assert(kept.drop_first() =~= run(next.0, without_lines(rest)).1);
        }
    }
}

/// Two sessions that agree on their inbound side deliver the same lines when one sees
/// a trace in which no write fails and the other the same trace without its writes.
proof fn lemma_same_inbound_same_deliveries(a: SessionState, b: SessionState, events: Seq<EventView>)
    requires
        same_inbound(a, b),
        forall|i: int| 0 <= i < events.len() ==> !(events[i] is WriteFailed),
    ensures
        delivered(run(a, events).1) == delivered(run(b, without_writes(events)).1),
    decreases events.len(),
{
    if events.len() > 0 {
        let rest = events.drop_first();
        let next = transition(a, events[0]);
        let actions = run(a, events).1;
        assert(actions.drop_first() =~= run(next.0, rest).1);
        if events[0] is TaskReady || events[0] is WriteDone {
            lemma_same_inbound_same_deliveries(next.0, b, rest);
        } else {
            let other = transition(b, events[0]);
            lemma_same_inbound_same_deliveries(next.0, other.0, rest);
            lemma_run_first(b, events[0], without_writes(rest));
            let kept = run(b, without_writes(events)).1;
            assert(kept.drop_first() =~= run(other.0, without_writes(rest)).1);
        }
    }
}

/// Writes do not disturb lines. As long as no write fails, the arrival of tasks and
/// the completion of their writes, wherever they fall among the other events, change
/// nothing in what is delivered.
pub proof fn law_writes_do_not_disturb_lines(s: SessionState, events: Seq<EventView>)
    requires
        forall|i: int| 0 <= i < events.len() ==> !(events[i] is WriteFailed),
    ensures
        delivered(run(s, events).1) == delivered(run(s, without_writes(events)).1),
{
    lemma_same_inbound_same_deliveries(s, s, events);
}

/// Order preservation among lines. A burst of tasks is written in order, as
/// `law_burst_is_written_in_order` says, also when lines arrive anywhere in between.
pub proof fn law_burst_among_lines_is_written_in_order(
    s: SessionState,
    tasks: Seq<TaskView>,
    events: Seq<EventView>,
)
    requires
        serves_outbound(s),
        !s.writing,
        without_lines(events) == burst(tasks),
    ensures
        written(run(s, events).1) == wire_of(tasks),
        run(s, events).0 == s,
{
    law_lines_do_not_disturb_writes(s, events);
    law_burst_is_written_in_order(s, tasks);
}

/// Inbound fidelity among writes. Lines are delivered in order, as
/// `law_lines_are_delivered_in_order` says, also when tasks arrive and their writes
/// complete anywhere in between.
pub proof fn law_lines_among_writes_are_delivered_in_order(
    s: SessionState,
    lines: Seq<Seq<char>>,
    events: Seq<EventView>,
)
    requires
        s.phase is Running,
        without_writes(events) == arrivals(lines),
    ensures
        delivered(run(s, events).1) == lines,
{
    assert forall|i: int| 0 <= i < events.len() implies !(events[i] is WriteFailed) by {
        if events[i] is WriteFailed {
            lemma_without_writes_keeps_failures(events, i);
        }
    }
    law_writes_do_not_disturb_lines(s, events);
    law_lines_are_delivered_in_order(s, lines);
}

/// A failed write in a trace is still there when the writes are taken out.
proof fn lemma_without_writes_keeps_failures(events: Seq<EventView>, i: int)
    requires
        0 <= i < events.len(),
        events[i] is WriteFailed,
    ensures
        exists|j: int| 0 <= j < without_writes(events).len() && without_writes(events)[j]
            is WriteFailed,
    decreases events.len(),
{
    let rest = events.drop_first();
    if i == 0 {
        assert(without_writes(events)[0] is WriteFailed);
    } else {
        lemma_without_writes_keeps_failures(rest, i - 1);
        let j = choose|j: int| 0 <= j < without_writes(rest).len() && without_writes(rest)[j]
            is WriteFailed;
        if events[0] is TaskReady || events[0] is WriteDone {
        } else {
            assert(without_writes(events)[j + 1] is WriteFailed);
        }
    }
}

/// Once the inbound side has finished, it stays finished and nothing is delivered,
/// whatever events follow.
pub proof fn lemma_finished_delivers_nothing(s: SessionState, events: Seq<EventView>)
    requires
        inbound_finished(s),
    ensures
        inbound_finished(run(s, events).0),
        delivered(run(s, events).1) == Seq::<Seq<char>>::empty(),
    decreases events.len(),
{
    if events.len() > 0 {
        let next = transition(s, events[0]);
        lemma_finished_delivers_nothing(next.0, events.drop_first());
        let actions = run(s, events).1;
        assert(actions.drop_first() =~= run(next.0, events.drop_first()).1);
    }
}

/// End-of-stream quiescence. When the peer closes its side of a connected session,
/// the session does not end: a running session goes on as a closing one, with its
/// outbound side unchanged. Whatever events follow, nothing is delivered any more.
/// A task that is taken from the queue after that is still written.
pub proof fn law_quiescent_after_end_of_stream(
    s: SessionState,
    later: Seq<EventView>,
    task: TaskView,
)
    requires
        !(s.phase is Starting),
    ensures
        s.phase is Running ==> transition(s, EventView::EndOfStream) == (
            SessionState { phase: Phase::Closing, ..s },
            ActionView::Idle,
        ),
        inbound_finished(transition(s, EventView::EndOfStream).0),
        delivered(run(transition(s, EventView::EndOfStream).0, later).1) == Seq::<
            Seq<char>,
        >::empty(),
        s.phase is Running && !s.writing ==> transition(
            transition(s, EventView::EndOfStream).0,
            EventView::TaskReady(task),
        ).1 == ActionView::Write(task.wire()),
{
    lemma_finished_delivers_nothing(transition(s, EventView::EndOfStream).0, later);
}

/// No loss. In every state, a task that reaches the session is either written, with
/// exactly its wire form, or handed back unchanged; it is never dropped.
pub proof fn law_no_task_is_lost(s: SessionState, task: TaskView)
    ensures
        ({
            let action = transition(s, EventView::TaskReady(task)).1;
            action == ActionView::Write(task.wire()) || action == ActionView::Refuse(task)
        }),
        serves_outbound(s) && !s.writing ==> transition(s, EventView::TaskReady(task)).1
            == ActionView::Write(task.wire()),
{
}

} // verus!
