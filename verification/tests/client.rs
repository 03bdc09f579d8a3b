use chat_client::client::{
    handle_task, keep_line, poll_messages, report_poll, SubmitError, Task, TaskSpawner,
    INBOUND_CAPACITY, OUTBOUND_CAPACITY, SERVER_ADDRESS,
};
use chat_client::channel::Taken;
use chat_client::session::Event;

#[test]
fn constants_have_their_fixed_values() {
    assert_eq!(SERVER_ADDRESS, "127.0.0.1:8080");
    assert_eq!(OUTBOUND_CAPACITY, 100);
    assert_eq!(INBOUND_CAPACITY, 100);
}

#[test]
fn send_task_carries_its_text() {
    assert_eq!(Task::send("hello").text(), "hello");
    assert_eq!(Task::send("hello\n").text(), "hello\n");
    assert_eq!(Task::send("").text(), "");
}

#[test]
fn handle_task_frames_the_text() {
    assert_eq!(handle_task(Task::send("hello")), b"hello\n".to_vec());
}

#[test]
fn handle_task_does_not_double_the_terminator() {
    assert_eq!(handle_task(Task::send("hello\n")), b"hello\n".to_vec());
}

#[test]
fn poll_messages_failed_read() {
    assert_eq!(poll_messages(None, Vec::new()), Event::ReadFailed);
    assert_eq!(poll_messages(None, b"partial".to_vec()), Event::ReadFailed);
}

#[test]
fn poll_messages_end_of_stream() {
    assert_eq!(poll_messages(Some(0), Vec::new()), Event::EndOfStream);
}

#[test]
fn poll_messages_strips_the_terminator() {
    assert_eq!(poll_messages(Some(5), b"ping\n".to_vec()), Event::Line("ping".to_string()));
}

#[test]
fn poll_messages_line_cut_short_by_end_of_stream() {
    assert_eq!(poll_messages(Some(4), b"tail".to_vec()), Event::Line("tail".to_string()));
}

#[test]
fn poll_messages_empty_line() {
    assert_eq!(poll_messages(Some(1), b"\n".to_vec()), Event::Line(String::new()));
}

#[test]
fn poll_messages_decodes_utf8() {
    assert_eq!(
        poll_messages(Some(7), vec![b'g', b'r', 0xC3, 0xBC, 0xC3, 0x9F, 0x0A]),
        Event::Line("gr\u{fc}\u{df}".to_string())
    );
}

#[test]
fn poll_messages_bytes_that_do_not_decode_count_as_failed() {
    assert_eq!(poll_messages(Some(3), vec![0xFF, 0xFE, 0x0A]), Event::ReadFailed);
    assert_eq!(poll_messages(Some(2), vec![0xC3, 0x0A]), Event::ReadFailed);
}

#[test]
fn poll_messages_reads_back_what_handle_task_wrote() {
    let wire = handle_task(Task::send("round trip"));
    assert_eq!(poll_messages(Some(wire.len()), wire), Event::Line("round trip".to_string()));
    let wire = handle_task(Task::send("ends already\n"));
    assert_eq!(poll_messages(Some(wire.len()), wire), Event::Line("ends already".to_string()));
}

#[test]
fn report_poll_maps_each_outcome() {
    assert_eq!(report_poll(Taken::Item(Task::send("a"))), Event::TaskReady(Task::send("a")));
    assert_eq!(report_poll(Taken::Empty), Event::QueueEmpty);
    assert_eq!(report_poll(Taken::Closed), Event::QueueClosed);
}

#[test]
fn keep_line_appends_a_line_and_asks_for_more() {
    let mut lines = vec!["a".to_string()];
    assert!(keep_line(&mut lines, Taken::Item("b".to_string())));
    assert_eq!(lines, vec!["a".to_string(), "b".to_string()]);
}

#[test]
fn keep_line_stops_on_an_empty_or_closed_mailbox() {
    let mut lines = vec!["a".to_string()];
    assert!(!keep_line(&mut lines, Taken::Empty));
    assert!(!keep_line(&mut lines, Taken::Closed));
    assert_eq!(lines, vec!["a".to_string()]);
}

#[test]
fn submitted_tasks_come_out_in_order() {
    let (spawner, _inbound, mut channels) = TaskSpawner::new();
    assert!(spawner.spawn_task(Task::send("one")).is_ok());
    assert!(spawner.spawn_task(Task::send("two")).is_ok());
    assert!(spawner.spawn_task(Task::send("three")).is_ok());
    assert_eq!(channels.poll_queued(), Event::TaskReady(Task::send("one")));
    assert_eq!(channels.poll_queued(), Event::TaskReady(Task::send("two")));
    assert_eq!(channels.poll_queued(), Event::TaskReady(Task::send("three")));
    assert_eq!(channels.poll_queued(), Event::QueueEmpty);
}

#[test]
fn burst_beyond_capacity_is_refused_not_dropped() {
    let (spawner, _inbound, mut channels) = TaskSpawner::new();
    for i in 0..OUTBOUND_CAPACITY {
        assert!(spawner.spawn_task(Task::send(&format!("m{}", i))).is_ok());
    }
    match spawner.spawn_task(Task::send("one too many")) {
        Err(SubmitError::Full(task)) => assert_eq!(task.text(), "one too many"),
        other => panic!("expected the queue to be full, got {:?}", other),
    }
    for i in 0..OUTBOUND_CAPACITY {
        assert_eq!(channels.poll_queued(), Event::TaskReady(Task::send(&format!("m{}", i))));
    }
    assert_eq!(channels.poll_queued(), Event::QueueEmpty);
    assert!(spawner.spawn_task(Task::send("room again")).is_ok());
    assert_eq!(channels.poll_queued(), Event::TaskReady(Task::send("room again")));
}

#[test]
fn submit_after_the_session_ended_hands_the_task_back() {
    let (spawner, _inbound, channels) = TaskSpawner::new();
    drop(channels);
    match spawner.spawn_task(Task::send("late")) {
        Err(SubmitError::Closed(task)) => assert_eq!(task.text(), "late"),
        other => panic!("expected a closed queue, got {:?}", other),
    }
}

#[test]
fn refused_task_can_be_taken_back() {
    let (spawner, _inbound, channels) = TaskSpawner::new();
    drop(channels);
    let refusal = spawner.spawn_task(Task::send("again")).unwrap_err();
    assert_eq!(refusal.into_task(), Task::send("again"));
}

#[test]
fn poll_queued_reports_a_closed_queue() {
    let (spawner, _inbound, mut channels) = TaskSpawner::new();
    assert!(spawner.spawn_task(Task::send("last")).is_ok());
    drop(spawner);
    assert_eq!(channels.poll_queued(), Event::TaskReady(Task::send("last")));
    assert_eq!(channels.poll_queued(), Event::QueueClosed);
}

#[test]
fn drain_nonblocking_on_an_empty_mailbox() {
    let (_spawner, mut inbound, _channels) = TaskSpawner::new();
    assert_eq!(inbound.drain_nonblocking(), Vec::<String>::new());
}

#[test]
fn drain_nonblocking_returns_lines_in_order_then_nothing() {
    let (_spawner, mut inbound, channels) = TaskSpawner::new();
    channels.mailbox.try_send("first".to_string()).unwrap();
    channels.mailbox.try_send("second".to_string()).unwrap();
    assert_eq!(inbound.drain_nonblocking(), vec!["first".to_string(), "second".to_string()]);
    assert_eq!(inbound.drain_nonblocking(), Vec::<String>::new());
}

#[test]
fn drain_nonblocking_after_the_session_ended() {
    let (_spawner, mut inbound, channels) = TaskSpawner::new();
    channels.mailbox.try_send("left over".to_string()).unwrap();
    drop(channels);
    assert_eq!(inbound.drain_nonblocking(), vec!["left over".to_string()]);
    assert_eq!(inbound.drain_nonblocking(), Vec::<String>::new());
}

#[test]
fn mailbox_holds_its_capacity_and_no_more() {
    let (_spawner, mut inbound, channels) = TaskSpawner::new();
    for i in 0..INBOUND_CAPACITY {
        assert!(channels.mailbox.try_send(format!("l{}", i)).is_ok());
    }
    assert!(channels.mailbox.try_send("overflow".to_string()).is_err());
    let lines = inbound.drain_nonblocking();
    assert_eq!(lines.len(), INBOUND_CAPACITY);
    assert_eq!(lines[0], "l0");
    assert_eq!(lines[INBOUND_CAPACITY - 1], format!("l{}", INBOUND_CAPACITY - 1));
    assert!(channels.mailbox.try_send("fits now".to_string()).is_ok());
    assert_eq!(inbound.drain_nonblocking(), vec!["fits now".to_string()]);
}
