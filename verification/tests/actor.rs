use chat_client::actor::{answer, handle_message, ActorMessage, ActorWork};

#[test]
fn send_message_becomes_a_framed_write() {
    match handle_message(ActorMessage::SendMessage { msg: "hello".to_string() }) {
        ActorWork::Write { bytes } => assert_eq!(bytes, b"hello\n".to_vec()),
        ActorWork::Read { .. } => panic!("expected a write"),
    }
}

#[test]
fn send_message_keeps_an_existing_terminator() {
    match handle_message(ActorMessage::SendMessage { msg: "hello\n".to_string() }) {
        ActorWork::Write { bytes } => assert_eq!(bytes, b"hello\n".to_vec()),
        ActorWork::Read { .. } => panic!("expected a write"),
    }
}

#[test]
fn get_message_passes_its_responder_on() {
    let (respond_to, mut reply) = tokio::sync::oneshot::channel::<String>();
    match handle_message(ActorMessage::GetMessage { respond_to }) {
        ActorWork::Read { respond_to } => {
            assert_eq!(answer(respond_to, Some("pong\n".to_string())), None);
        }
        ActorWork::Write { .. } => panic!("expected a read"),
    }
    assert_eq!(reply.try_recv().unwrap(), "pong\n");
}

#[test]
fn failed_read_sends_nothing() {
    let (respond_to, mut reply) = tokio::sync::oneshot::channel::<String>();
    assert_eq!(answer(respond_to, None), None);
    assert!(reply.try_recv().is_err());
}

#[test]
fn answer_to_a_requester_that_is_gone_comes_back() {
    let (respond_to, reply) = tokio::sync::oneshot::channel::<String>();
    drop(reply);
    assert_eq!(answer(respond_to, Some("unheard".to_string())), Some("unheard".to_string()));
}
