use bus_mailbox::mailbox::{snapshot_then_append, Mailbox};
use bus_mailbox::message::MessageRecord;

fn record(topic: &str, payload: &[u8]) -> MessageRecord {
    MessageRecord { topic: topic.to_string(), payload: payload.to_vec(), reply_to: None }
}

#[test]
fn starts_empty() {
    let mailbox = Mailbox::new();
    assert_eq!(mailbox.length(), 0);
    assert!(mailbox.snapshot().is_empty());
}

#[test]
fn append_grows_by_one() {
    let mut mailbox = Mailbox::new();
    mailbox.append(record("a", b"x"));
    assert_eq!(mailbox.length(), 1);
    mailbox.append(record("a", b"y"));
    assert_eq!(mailbox.length(), 2);
}

#[test]
fn no_loss_after_back_to_back_appends() {
    let mut mailbox = Mailbox::new();
    let writes: usize = 100;
    for i in 0..writes {
        mailbox.append(record("a", &[i as u8]));
    }
    assert_eq!(mailbox.length(), writes);
}

#[test]
fn length_is_monotonic_across_appends() {
    let mut mailbox = Mailbox::new();
    let mut last = mailbox.length();
    for i in 0..20u8 {
        mailbox.append(record("a", &[i]));
        let observed = mailbox.length();
        assert!(observed >= last);
        last = observed;
    }
    assert_eq!(last, 20);
}

#[test]
fn snapshot_copies_contents_in_order() {
    let mut mailbox = Mailbox::new();
    mailbox.append(record("t1", b"first"));
    mailbox.append(record("t2", b"second"));
    let snap = mailbox.snapshot();
    assert_eq!(snap.len(), 2);
    assert_eq!(snap[0].topic, "t1");
    assert_eq!(snap[0].payload, b"first".to_vec());
    assert_eq!(snap[1].topic, "t2");
    assert_eq!(snap[1].payload, b"second".to_vec());
}

#[test]
fn snapshot_is_isolated_from_later_appends() {
    let mut mailbox = Mailbox::new();
    mailbox.append(record("t", b"kept"));
    let snap = mailbox.snapshot();
    mailbox.append(record("t", b"later"));
    mailbox.append(record("t", b"more"));
    assert_eq!(snap.len(), 1);
    assert_eq!(snap[0].payload, b"kept".to_vec());
    assert_eq!(mailbox.length(), 3);
}

#[test]
fn snapshot_then_append_observes_pre_append_state() {
    let mut mailbox = Mailbox::new();
    mailbox.append(record("t", b"old"));
    let snap = snapshot_then_append(&mut mailbox, record("t", b"new"));
    assert_eq!(snap.len(), 1);
    assert_eq!(snap[0].payload, b"old".to_vec());
    assert_eq!(mailbox.length(), 2);
}

#[test]
fn record_clone_preserves_all_fields() {
    let original = MessageRecord {
        topic: "updates".to_string(),
        payload: vec![1, 2, 3],
        reply_to: Some("inbox.7".to_string()),
    };
    let copy = original.clone();
    assert_eq!(copy.topic, original.topic);
    assert_eq!(copy.payload, original.payload);
    assert_eq!(copy.reply_to, original.reply_to);
}
