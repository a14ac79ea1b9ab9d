use quan_chatbot::conversation::{Conversation, MessageRef, StoreError};
use quan_chatbot::message::{Message, Origin};

fn rows(c: &Conversation) -> Vec<(Origin, String)> {
    c.snapshot()
}

#[test]
fn new_store_is_empty() {
    let c = Conversation::new();
    assert!(c.is_empty());
    assert_eq!(c.len(), 0);
    assert!(!c.has_pending());
    assert_eq!(c.open_slot(), None);
    assert_eq!(rows(&c), vec![]);
}

#[test]
fn append_user_returns_the_place_of_the_message() {
    let mut c = Conversation::new();
    assert_eq!(c.append_user("first".to_string()), Ok(MessageRef { index: 0 }));
    assert_eq!(c.len(), 1);
    assert!(c.has_pending());
    assert_eq!(rows(&c), vec![(Origin::User, "first".to_string())]);
}

#[test]
fn append_user_is_refused_while_a_slot_is_awaited() {
    let mut c = Conversation::new();
    c.append_user("first".to_string()).unwrap();
    let before = rows(&c);
    assert_eq!(c.append_user("second".to_string()), Err(StoreError::InvalidState));
    assert_eq!(rows(&c), before);
}

#[test]
fn append_user_is_refused_while_an_answer_is_open() {
    let mut c = Conversation::new();
    c.append_user("first".to_string()).unwrap();
    c.append_assistant_placeholder().unwrap();
    let before = rows(&c);
    assert_eq!(c.append_user("second".to_string()), Err(StoreError::InvalidState));
    assert_eq!(rows(&c), before);
    assert_eq!(c.len(), 2);
}

#[test]
fn placeholder_follows_the_user_message_and_is_empty_and_open() {
    let mut c = Conversation::new();
    c.append_user("question".to_string()).unwrap();
    assert_eq!(c.append_assistant_placeholder(), Ok(MessageRef { index: 1 }));
    assert_eq!(
        rows(&c),
        vec![(Origin::User, "question".to_string()), (Origin::Assistant, String::new())]
    );
    assert_eq!(c.open_slot(), Some(MessageRef { index: 1 }));
    let slot = c.get(MessageRef { index: 1 }).unwrap();
    assert!(slot.is_open());
    assert_eq!(slot.origin(), Origin::Assistant);
    assert_eq!(slot.text(), "");
}

#[test]
fn placeholder_is_refused_on_an_empty_store() {
    let mut c = Conversation::new();
    assert_eq!(c.append_assistant_placeholder(), Err(StoreError::InvalidState));
    assert!(c.is_empty());
}

#[test]
fn placeholder_is_refused_when_the_user_message_has_its_slot() {
    let mut c = Conversation::new();
    c.append_user("question".to_string()).unwrap();
    c.append_assistant_placeholder().unwrap();
    assert_eq!(c.append_assistant_placeholder(), Err(StoreError::InvalidState));
    assert_eq!(c.len(), 2);
    c.freeze(MessageRef { index: 1 }).unwrap();
    assert_eq!(c.append_assistant_placeholder(), Err(StoreError::InvalidState));
    assert_eq!(c.len(), 2);
}

#[test]
fn extend_adds_text_at_the_end() {
    let mut c = Conversation::new();
    c.append_user("question".to_string()).unwrap();
    let slot = c.append_assistant_placeholder().unwrap();
    assert_eq!(c.extend(slot, "An"), Ok(()));
    assert_eq!(c.extend(slot, "swer"), Ok(()));
    assert_eq!(c.extend(slot, ""), Ok(()));
    assert_eq!(
        rows(&c),
        vec![(Origin::User, "question".to_string()), (Origin::Assistant, "Answer".to_string())]
    );
}

#[test]
fn extend_refuses_a_user_message() {
    let mut c = Conversation::new();
    let user = c.append_user("question".to_string()).unwrap();
    c.append_assistant_placeholder().unwrap();
    let before = rows(&c);
    assert_eq!(c.extend(user, "more"), Err(StoreError::StaleReference));
    assert_eq!(rows(&c), before);
}

#[test]
fn extend_refuses_a_frozen_answer() {
    let mut c = Conversation::new();
    c.append_user("question".to_string()).unwrap();
    let slot = c.append_assistant_placeholder().unwrap();
    c.extend(slot, "done").unwrap();
    assert_eq!(c.freeze(slot), Ok(()));
    let before = rows(&c);
    assert_eq!(c.extend(slot, " and more"), Err(StoreError::StaleReference));
    assert_eq!(rows(&c), before);
    assert_eq!(before[1], (Origin::Assistant, "done".to_string()));
}

#[test]
fn extend_refuses_a_place_that_does_not_exist() {
    let mut c = Conversation::new();
    assert_eq!(c.extend(MessageRef { index: 0 }, "x"), Err(StoreError::StaleReference));
    c.append_user("question".to_string()).unwrap();
    c.append_assistant_placeholder().unwrap();
    assert_eq!(c.extend(MessageRef { index: 2 }, "x"), Err(StoreError::StaleReference));
    assert_eq!(c.extend(MessageRef { index: usize::MAX }, "x"), Err(StoreError::StaleReference));
    assert_eq!(c.len(), 2);
}

#[test]
fn freeze_ends_the_pending_send() {
    let mut c = Conversation::new();
    c.append_user("question".to_string()).unwrap();
    let slot = c.append_assistant_placeholder().unwrap();
    assert!(c.has_pending());
    assert_eq!(c.freeze(slot), Ok(()));
    assert!(!c.has_pending());
    assert_eq!(c.open_slot(), None);
    assert!(!c.get(slot).unwrap().is_open());
    assert_eq!(c.append_user("next".to_string()), Ok(MessageRef { index: 2 }));
}

#[test]
fn freeze_refuses_what_is_not_open() {
    let mut c = Conversation::new();
    assert_eq!(c.freeze(MessageRef { index: 0 }), Err(StoreError::StaleReference));
    let user = c.append_user("question".to_string()).unwrap();
    assert_eq!(c.freeze(user), Err(StoreError::StaleReference));
    let slot = c.append_assistant_placeholder().unwrap();
    c.freeze(slot).unwrap();
    assert_eq!(c.freeze(slot), Err(StoreError::StaleReference));
    assert_eq!(c.freeze(MessageRef { index: 7 }), Err(StoreError::StaleReference));
}

#[test]
fn get_finds_messages_by_place() {
    let mut c = Conversation::new();
    assert!(c.get(MessageRef { index: 0 }).is_none());
    c.append_user("question".to_string()).unwrap();
    let found = c.get(MessageRef { index: 0 }).unwrap();
    assert_eq!(found.origin(), Origin::User);
    assert_eq!(found.text(), "question");
    assert!(!found.is_open());
    assert!(c.get(MessageRef { index: 1 }).is_none());
}

#[test]
fn at_most_one_message_is_open_in_the_store() {
    let mut c = Conversation::new();
    for round in 0..4 {
        c.append_user(format!("prompt {round}")).unwrap();
        let slot = c.append_assistant_placeholder().unwrap();
        assert_eq!(c.append_user("too early".to_string()), Err(StoreError::InvalidState));
        assert_eq!(c.append_assistant_placeholder(), Err(StoreError::InvalidState));
        let open: Vec<usize> =
            (0..c.len()).filter(|i| c.get(MessageRef { index: *i }).unwrap().is_open()).collect();
        assert_eq!(open, vec![slot.index]);
        c.freeze(slot).unwrap();
    }
    assert_eq!(c.len(), 8);
}

#[test]
fn snapshot_does_not_change_the_store() {
    let mut c = Conversation::new();
    c.append_user("question".to_string()).unwrap();
    let slot = c.append_assistant_placeholder().unwrap();
    c.extend(slot, "partial").unwrap();
    let first = rows(&c);
    let second = rows(&c);
    assert_eq!(first, second);
    assert_eq!(c.open_slot(), Some(slot));
}

#[test]
fn user_message_is_frozen_from_creation() {
    let mut m = Message::user("fixed".to_string());
    assert_eq!(m.origin(), Origin::User);
    assert!(!m.is_open());
    assert!(!m.append(" more"));
    assert_eq!(m.text(), "fixed");
}

#[test]
fn placeholder_message_takes_text_until_frozen() {
    let mut m = Message::placeholder();
    assert_eq!(m.origin(), Origin::Assistant);
    assert!(m.is_open());
    assert_eq!(m.text(), "");
    assert!(m.append("a"));
    assert!(m.append("b"));
    assert_eq!(m.text(), "ab");
    m.freeze();
    assert!(!m.is_open());
    assert!(!m.append("c"));
    assert_eq!(m.text(), "ab");
    m.freeze();
    assert_eq!(m.text(), "ab");
}
