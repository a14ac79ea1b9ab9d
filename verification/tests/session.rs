use quan_chatbot::channel::StreamItem;
use quan_chatbot::conversation::{MessageRef, StoreError};
use quan_chatbot::message::Origin;
use quan_chatbot::session::{Delivery, PendingSend, Phase, Session};

fn fragment(text: &str) -> StreamItem {
    StreamItem::Fragment(text.to_string())
}

fn open_count(s: &Session) -> usize {
    let c = s.conversation();
    (0..c.len()).filter(|i| c.get(MessageRef { index: *i }).unwrap().is_open()).count()
}

#[test]
fn new_session_is_idle_and_empty() {
    let s = Session::new();
    assert_eq!(s.phase(), Phase::Idle);
    assert!(s.is_idle());
    assert_eq!(s.snapshot(), vec![]);
    assert_eq!(s.pending(), None);
}

#[test]
fn hello_is_answered_by_hi_there() {
    let mut s = Session::new();
    let send = s.submit("hello".to_string()).unwrap();
    assert_eq!(send, PendingSend { prompt: "hello".to_string(), slot: MessageRef { index: 1 } });
    assert_eq!(s.phase(), Phase::Sending);
    assert_eq!(s.deliver(fragment("Hi")), Ok(Delivery::Extended));
    assert_eq!(s.deliver(fragment(" there")), Ok(Delivery::Extended));
    assert_eq!(s.deliver(fragment("!")), Ok(Delivery::Extended));
    assert_eq!(s.phase(), Phase::Streaming);
    assert_eq!(s.deliver(StreamItem::StreamEnd), Ok(Delivery::Completed));
    assert_eq!(
        s.snapshot(),
        vec![(Origin::User, "hello".to_string()), (Origin::Assistant, "Hi there!".to_string())]
    );
    assert_eq!(s.phase(), Phase::Idle);
    assert_eq!(open_count(&s), 0);
}

#[test]
fn stream_error_without_fragments_leaves_an_empty_answer() {
    let mut s = Session::new();
    s.submit("a".to_string()).unwrap();
    assert_eq!(s.deliver(StreamItem::StreamError), Ok(Delivery::Truncated));
    assert_eq!(
        s.snapshot(),
        vec![(Origin::User, "a".to_string()), (Origin::Assistant, String::new())]
    );
    assert_eq!(s.phase(), Phase::Idle);
}

#[test]
fn second_submit_while_sending_is_refused() {
    let mut s = Session::new();
    s.submit("x".to_string()).unwrap();
    assert_eq!(s.phase(), Phase::Sending);
    let before = s.snapshot();
    assert_eq!(s.submit("x".to_string()), Err(StoreError::InvalidState));
    assert_eq!(s.snapshot(), before);
    assert_eq!(s.phase(), Phase::Sending);
}

#[test]
fn second_submit_while_streaming_is_refused() {
    let mut s = Session::new();
    s.submit("x".to_string()).unwrap();
    s.acknowledge().unwrap();
    s.deliver(fragment("partial")).unwrap();
    let before = s.snapshot();
    assert_eq!(s.submit("y".to_string()), Err(StoreError::InvalidState));
    assert_eq!(s.snapshot(), before);
    assert_eq!(s.phase(), Phase::Streaming);
    assert_eq!(s.deliver(fragment(" answer")), Ok(Delivery::Extended));
    assert_eq!(s.snapshot()[1], (Origin::Assistant, "partial answer".to_string()));
}

#[test]
fn no_two_answers_are_open_whatever_is_submitted() {
    let mut s = Session::new();
    for round in 0..5 {
        assert!(s.submit(format!("prompt {round}")).is_ok());
        assert_eq!(open_count(&s), 1);
        assert!(s.submit("again".to_string()).is_err());
        assert!(s.submit("and again".to_string()).is_err());
        assert_eq!(open_count(&s), 1);
        s.deliver(fragment("text")).unwrap();
        assert!(s.submit("during the answer".to_string()).is_err());
        assert_eq!(open_count(&s), 1);
        s.deliver(StreamItem::StreamEnd).unwrap();
        assert_eq!(open_count(&s), 0);
    }
    assert_eq!(s.conversation().len(), 10);
}

#[test]
fn fragments_are_joined_with_nothing_between_them() {
    let mut s = Session::new();
    s.submit("prompt".to_string()).unwrap();
    s.acknowledge().unwrap();
    let fragments = ["one", "", " two ", "\n", "drei", "é", "—", "4"];
    for f in fragments {
        assert_eq!(s.deliver(fragment(f)), Ok(Delivery::Extended));
    }
    assert_eq!(s.deliver(StreamItem::StreamEnd), Ok(Delivery::Completed));
    assert_eq!(s.snapshot()[1], (Origin::Assistant, "one two \ndreié—4".to_string()));
    assert_eq!(s.snapshot()[1].1, fragments.concat());
    assert!(!s.conversation().get(MessageRef { index: 1 }).unwrap().is_open());
}

#[test]
fn stream_end_without_fragments_leaves_an_empty_answer() {
    let mut s = Session::new();
    s.submit("prompt".to_string()).unwrap();
    assert_eq!(s.deliver(StreamItem::StreamEnd), Ok(Delivery::Completed));
    assert_eq!(s.snapshot()[1], (Origin::Assistant, String::new()));
    assert_eq!(s.phase(), Phase::Idle);
}

#[test]
fn stream_error_keeps_what_arrived_and_frees_the_session() {
    let mut s = Session::new();
    s.submit("prompt".to_string()).unwrap();
    s.deliver(fragment("f1")).unwrap();
    s.deliver(fragment("f2")).unwrap();
    assert_eq!(s.deliver(StreamItem::StreamError), Ok(Delivery::Truncated));
    assert_eq!(s.snapshot()[1], (Origin::Assistant, "f1f2".to_string()));
    assert_eq!(s.phase(), Phase::Idle);
    let next = s.submit("next".to_string()).unwrap();
    assert_eq!(next.slot, MessageRef { index: 3 });
    assert_eq!(s.phase(), Phase::Sending);
    assert_eq!(
        s.snapshot(),
        vec![
            (Origin::User, "prompt".to_string()),
            (Origin::Assistant, "f1f2".to_string()),
            (Origin::User, "next".to_string()),
            (Origin::Assistant, String::new()),
        ]
    );
}

#[test]
fn items_without_a_pending_send_are_refused() {
    let mut s = Session::new();
    assert_eq!(s.deliver(fragment("stray")), Err(StoreError::StaleReference));
    assert_eq!(s.deliver(StreamItem::StreamEnd), Err(StoreError::StaleReference));
    assert_eq!(s.deliver(StreamItem::StreamError), Err(StoreError::StaleReference));
    assert_eq!(s.snapshot(), vec![]);
    assert_eq!(s.phase(), Phase::Idle);
}

#[test]
fn nothing_reaches_a_frozen_answer() {
    let mut s = Session::new();
    s.submit("prompt".to_string()).unwrap();
    s.deliver(fragment("whole")).unwrap();
    s.deliver(StreamItem::StreamEnd).unwrap();
    let before = s.snapshot();
    assert_eq!(s.deliver(fragment(" late")), Err(StoreError::StaleReference));
    assert_eq!(s.deliver(StreamItem::StreamError), Err(StoreError::StaleReference));
    assert_eq!(s.snapshot(), before);
}

#[test]
fn acknowledge_moves_sending_to_streaming_only() {
    let mut s = Session::new();
    assert_eq!(s.acknowledge(), Err(StoreError::InvalidState));
    assert_eq!(s.phase(), Phase::Idle);
    s.submit("prompt".to_string()).unwrap();
    assert_eq!(s.acknowledge(), Ok(()));
    assert_eq!(s.phase(), Phase::Streaming);
    assert_eq!(s.acknowledge(), Err(StoreError::InvalidState));
    assert_eq!(s.phase(), Phase::Streaming);
    assert_eq!(s.snapshot().len(), 2);
}

#[test]
fn a_fragment_before_the_acknowledgement_starts_the_stream() {
    let mut s = Session::new();
    s.submit("prompt".to_string()).unwrap();
    assert_eq!(s.deliver(fragment("early")), Ok(Delivery::Extended));
    assert_eq!(s.phase(), Phase::Streaming);
    assert_eq!(s.acknowledge(), Err(StoreError::InvalidState));
    assert_eq!(s.snapshot()[1], (Origin::Assistant, "early".to_string()));
}

#[test]
fn pending_names_prompt_and_slot() {
    let mut s = Session::new();
    s.submit("one".to_string()).unwrap();
    s.deliver(StreamItem::StreamEnd).unwrap();
    assert_eq!(s.pending(), None);
    s.submit("two".to_string()).unwrap();
    s.deliver(fragment("part")).unwrap();
    assert_eq!(
        s.pending(),
        Some(PendingSend { prompt: "two".to_string(), slot: MessageRef { index: 3 } })
    );
}

#[test]
fn reset_freezes_the_answer_and_frees_the_session() {
    let mut s = Session::new();
    assert!(!s.reset());
    s.submit("prompt".to_string()).unwrap();
    s.deliver(fragment("so far")).unwrap();
    assert!(s.reset());
    assert_eq!(s.phase(), Phase::Idle);
    assert_eq!(s.snapshot()[1], (Origin::Assistant, "so far".to_string()));
    assert_eq!(s.deliver(fragment(" and on")), Err(StoreError::StaleReference));
    assert_eq!(s.snapshot()[1], (Origin::Assistant, "so far".to_string()));
    assert!(!s.reset());
    assert!(s.submit("next".to_string()).is_ok());
}

#[test]
fn snapshot_is_the_same_when_nothing_happened() {
    let mut s = Session::new();
    s.submit("prompt".to_string()).unwrap();
    s.deliver(fragment("some")).unwrap();
    let before = s.snapshot();
    let _ = s.phase();
    let _ = s.pending();
    let _ = s.conversation().len();
    let after = s.snapshot();
    assert_eq!(before, after);
    assert_eq!(after[1], (Origin::Assistant, "some".to_string()));
}

#[test]
fn earlier_messages_never_change() {
    let mut s = Session::new();
    s.submit("first".to_string()).unwrap();
    s.deliver(fragment("answer one")).unwrap();
    s.deliver(StreamItem::StreamEnd).unwrap();
    let settled = s.snapshot();
    s.submit("second".to_string()).unwrap();
    s.deliver(fragment("answer")).unwrap();
    s.deliver(fragment(" two")).unwrap();
    s.deliver(StreamItem::StreamError).unwrap();
    let later = s.snapshot();
    assert_eq!(later.len(), 4);
    assert_eq!(later[..2], settled[..]);
    assert_eq!(later[3], (Origin::Assistant, "answer two".to_string()));
}

#[test]
fn a_clone_is_a_session_of_its_own() {
    let mut s = Session::new();
    s.submit("prompt".to_string()).unwrap();
    s.deliver(fragment("shared")).unwrap();
    let mut copy = s.clone();
    assert_eq!(copy.snapshot(), s.snapshot());
    assert_eq!(copy.phase(), Phase::Streaming);
    s.deliver(fragment(" original")).unwrap();
    copy.deliver(StreamItem::StreamError).unwrap();
    assert_eq!(s.snapshot()[1], (Origin::Assistant, "shared original".to_string()));
    assert_eq!(s.phase(), Phase::Streaming);
    assert_eq!(copy.snapshot()[1], (Origin::Assistant, "shared".to_string()));
    assert_eq!(copy.phase(), Phase::Idle);
}
