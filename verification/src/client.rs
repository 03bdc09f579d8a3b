//! The client side of a session: outbound tasks, what the dispatcher and the poller
//! decide, and the foreground's handles on the two queues.

use vstd::prelude::*;
use vstd::utf8::encode_utf8;

use crate::channel::{line_mailbox, mailbox_bound, offer, queue_bound, take, task_queue, Taken};
use crate::session::{
    arrivals, delivered, law_lines_are_delivered_in_order, run, Event, EventView, SessionState,
};
use crate::wire::{
    decode_line, decoded, encode_line, framed, law_decoding_undoes_encoding, stripped, terminator,
    wire_form,
};

verus! {

/// The host and port that a session connects to.
pub const SERVER_ADDRESS: &'static str = "127.0.0.1:8080";

/// The number of tasks that the outbound queue holds before a submit is refused.
pub const OUTBOUND_CAPACITY: usize = 100;

/// The number of lines that the inbound mailbox holds before the poller has to wait.
pub const INBOUND_CAPACITY: usize = 100;

/// What a task asks for, as a mathematical value.
pub enum TaskView {
    /// Send this text as one line.
    Send(Seq<char>),
}

impl TaskView {
    /// The bytes that the task puts on the wire.
    pub open spec fn wire(self) -> Seq<u8> {
        match self {
            TaskView::Send(text) => wire_form(text),
        }
    }
}

#[derive(Debug, Clone, PartialEq, Eq)]
enum TaskConfig {
    Send(String),
}

/// One unit of outbound work.
#[derive(Debug, Clone, PartialEq, Eq)]
pub struct Task {
    config: TaskConfig,
}

impl View for Task {
    type V = TaskView;

    closed spec fn view(&self) -> TaskView {
        match self.config {
            TaskConfig::Send(text) => TaskView::Send(text@),
        }
    }
}

impl Task {
    /// A task that sends `msg` as one line.
    pub fn send(msg: &str) -> (task: Task)
        ensures
            task@ == TaskView::Send(msg@),
    {
        Task { config: TaskConfig::Send(msg.to_owned()) }
    }

    /// The text that the task carries.
    pub fn text(&self) -> (text: &str)
        ensures
            self@ == TaskView::Send(text@),
    {
        match &self.config {
            TaskConfig::Send(text) => text.as_str(),
        }
    }
}

/// Turns a task into the bytes to write: the text in UTF-8, ended by exactly one
/// terminator that is appended only where the text does not already end with one.
pub fn handle_task(task: Task) -> (bytes: Vec<u8>)
    ensures
        bytes@ == task@.wire(),
{
    match task.config {
        TaskConfig::Send(msg) => encode_line(msg.as_str()),
    }
}

/// What one read attempt amounts to. `read` is the number of bytes that the attempt
/// brought, or `None` when it failed; `buffer` holds those bytes.
pub open spec fn polled(read: Option<usize>, buffer: Seq<u8>) -> EventView {
    match read {
        None => EventView::ReadFailed,
        Some(n) => if n == 0 {
            EventView::EndOfStream
        } else {
            match decoded(buffer) {
                Some(text) => EventView::Line(text),
                None => EventView::ReadFailed,
            }
        },
    }
}

/// Classifies one read attempt on the inbound half: a failed read, the end of the
/// stream (nothing was read), or a line, which is decoded from UTF-8 and freed of
/// its terminator. Bytes that do not decode count as a failed read.
pub fn poll_messages(read: Option<usize>, buffer: Vec<u8>) -> (event: Event)
    ensures
        event@ == polled(read, buffer@),
{
    match read {
        None => Event::ReadFailed,
        Some(n) => if n == 0 {
            Event::EndOfStream
        } else {
            match decode_line(buffer) {
                Some(text) => Event::Line(text),
                None => Event::ReadFailed,
            }
        },
    }
}

/// Why a submit was refused. Either way the task comes back to the caller.
#[derive(Debug)]
pub enum SubmitError {
    /// The outbound queue holds as many tasks as it can.
    Full(Task),
    /// The session has ended: nothing takes tasks from the queue any more.
    Closed(Task),
}

impl SubmitError {
    /// The task that was refused.
    pub open spec fn task(self) -> Task {
        match self {
            SubmitError::Full(task) => task,
            SubmitError::Closed(task) => task,
        }
    }

    /// Gives the refused task back.
    pub fn into_task(self) -> (task: Task)
        ensures
            task == self.task(),
    {
        match self {
            SubmitError::Full(task) => task,
            SubmitError::Closed(task) => task,
        }
    }
}

/// The foreground's handle for submitting outbound tasks.
pub struct TaskSpawner {
    send: tokio::sync::mpsc::Sender<Task>,
}

/// The foreground's end of the inbound mailbox.
pub struct InboundReceiver {
    lines: tokio::sync::mpsc::Receiver<String>,
}

/// The event loop's ends of the two queues.
pub struct SessionChannels {
    /// Where the loop takes the submitted tasks from.
    pub outbound: tokio::sync::mpsc::Receiver<Task>,
    /// Where the loop puts the decoded lines.
    pub mailbox: tokio::sync::mpsc::Sender<String>,
}

impl TaskSpawner {
    /// The number of tasks that the outbound queue was made to hold.
    pub closed spec fn bound(&self) -> usize {
        queue_bound(self.send)
    }

    /// Makes the two queues of a session, each with its fixed bound, and hands out
    /// their ends: the handle for submitting, the foreground's end of the mailbox,
    /// and the two ends that the event loop works on.
    pub fn new() -> (parts: (TaskSpawner, InboundReceiver, SessionChannels))
        ensures
            parts.0.bound() == OUTBOUND_CAPACITY,
            parts.1.bound() == INBOUND_CAPACITY,
    {
        let (send, outbound) = task_queue(OUTBOUND_CAPACITY);
        let (mailbox, lines) = line_mailbox(INBOUND_CAPACITY);
        (TaskSpawner { send }, InboundReceiver { lines }, SessionChannels { outbound, mailbox })
    }

    /// Offers a task to the outbound queue without waiting. A task that the queue does
    /// not take, because it is full or because the session has ended, comes back
    /// unchanged in the error.
    pub fn spawn_task(&self, task: Task) -> (outcome: Result<(), SubmitError>)
        ensures
            outcome matches Err(refusal) ==> refusal.task() == task,
    {
        offer(&self.send, task)
    }
}

/// Adds what a poll of the mailbox found to the lines taken so far: a line is put
/// behind them and asks for another poll, anything else leaves them as they are and
/// ends the polling.
pub fn keep_line(lines: &mut Vec<String>, taken: Taken<String>) -> (more: bool)
    ensures
        match taken {
            Taken::Item(line) => final(lines)@ == old(lines)@.push(line) && more,
            _ => final(lines)@ == old(lines)@ && !more,
        },
{
    match taken {
        Taken::Item(line) => {
            lines.push(line);
            true
        },
        _ => false,
    }
}

impl InboundReceiver {
    /// The number of lines that the mailbox was made to hold.
    pub closed spec fn bound(&self) -> usize {
        mailbox_bound(self.lines)
    }

    /// Takes the lines that are waiting in the mailbox, oldest first, without
    /// blocking: it polls until the mailbox is found empty, and at most one
    /// mailbox-full of times.
    pub fn drain_nonblocking(&mut self) -> (lines: Vec<String>)
        ensures
            lines.len() <= INBOUND_CAPACITY,
    {
        let mut lines: Vec<String> = Vec::new();
        while lines.len() < INBOUND_CAPACITY
            invariant
                lines.len() <= INBOUND_CAPACITY,
            decreases INBOUND_CAPACITY - lines.len(),
        {
            let taken = take(&mut self.lines);
            if !keep_line(&mut lines, taken) {
                break;
            }
        }
        lines
    }
}

/// The event that a poll of the outbound queue amounts to.
pub open spec fn queue_event(taken: Taken<Task>) -> EventView {
    match taken {
        Taken::Item(task) => EventView::TaskReady(task@),
        Taken::Empty => EventView::QueueEmpty,
        Taken::Closed => EventView::QueueClosed,
    }
}

/// Turns what a poll of the outbound queue found into the event for the session.
pub fn report_poll(taken: Taken<Task>) -> (event: Event)
    ensures
        event@ == queue_event(taken),
{
    match taken {
        Taken::Item(task) => Event::TaskReady(task),
        Taken::Empty => Event::QueueEmpty,
        Taken::Closed => Event::QueueClosed,
    }
}

impl SessionChannels {
    /// Polls the outbound queue without blocking, for the session that is closing.
    pub fn poll_queued(&mut self) -> (event: Event)
        ensures
            event is TaskReady || event is QueueEmpty || event is QueueClosed,
    {
        report_poll(take(&mut self.outbound))
    }
}

/// The events of reads that each brought one line ended by the terminator:
/// `counts[i]` is the number of bytes of the read that brought `lines[i]`.
pub open spec fn reads_of(lines: Seq<Seq<char>>, counts: Seq<usize>) -> Seq<EventView> {
    Seq::new(
        lines.len(),
        |i: int| polled(Some(counts[i]), encode_utf8(lines[i].push(terminator()))),
    )
}

/// Inbound fidelity. Lines that the peer writes in UTF-8, each ended by the
/// terminator and each read by one read that brought at least one byte, reach the
/// mailbox of a running session one for one, without their terminator and in the
/// order written.
pub proof fn law_inbound_fidelity(s: SessionState, lines: Seq<Seq<char>>, counts: Seq<usize>)
    requires
        s.phase is Running,
        counts.len() == lines.len(),
        forall|i: int| 0 <= i < counts.len() ==> counts[i] > 0,
    ensures
        delivered(run(s, reads_of(lines, counts)).1) == lines,
{
    assert forall|i: int| 0 <= i < lines.len() implies reads_of(lines, counts)[i]
        == EventView::Line(lines[i]) by {
        law_decoding_undoes_encoding(lines[i]);
    }
    assert(reads_of(lines, counts) =~= arrivals(lines));
    law_lines_are_delivered_in_order(s, lines);
}

/// Echo. What a task puts on the wire, read back in one read, is the line that the
/// task carried; where the text ended with a terminator of its own, without it.
pub proof fn law_echo_returns_the_line(task: TaskView, count: usize)
    requires
        count > 0,
    ensures
        task matches TaskView::Send(text) && polled(Some(count), task.wire()) == EventView::Line(
            stripped(framed(text)),
        ),
{
    match task {
        TaskView::Send(text) => law_decoding_undoes_encoding(text),
    }
}

} // verus!
