use bus_mailbox::decimal::{i64_to_dec, u64_to_dec};
use bus_mailbox::report::{
    events_body, events_message, events_report, ip_message, msg_body, random_message,
    random_string_report, root_message, time_message, time_report,
};
use bus_mailbox::mailbox::Mailbox;
use bus_mailbox::message::MessageRecord;

#[test]
fn decimal_renders_exact_digits() {
    assert_eq!(u64_to_dec(0), "0");
    assert_eq!(u64_to_dec(7), "7");
    assert_eq!(u64_to_dec(10), "10");
    assert_eq!(u64_to_dec(305), "305");
    assert_eq!(u64_to_dec(u64::MAX), "18446744073709551615");
}

#[test]
fn signed_decimal_renders_sign_and_extremes() {
    assert_eq!(i64_to_dec(0), "0");
    assert_eq!(i64_to_dec(42), "42");
    assert_eq!(i64_to_dec(-1), "-1");
    assert_eq!(i64_to_dec(-1700000000), "-1700000000");
    assert_eq!(i64_to_dec(i64::MAX), "9223372036854775807");
    assert_eq!(i64_to_dec(i64::MIN), "-9223372036854775808");
}

#[test]
fn fixed_messages_match_the_served_text() {
    assert_eq!(root_message(), "[NEW]: test service");
    assert_eq!(ip_message("203.0.113.9"), "[NEW]: your IP address is: 203.0.113.9");
    assert_eq!(random_message("Ab3xY"), "[NEW]: random string: Ab3xY");
    assert_eq!(time_message(1700000000), "[NEW]: current unix timestamp: 1700000000");
    assert_eq!(time_message(-5), "[NEW]: current unix timestamp: -5");
}

#[test]
fn events_message_embeds_the_count() {
    assert_eq!(events_message(0), "[NEW]: received 0 messages");
    assert_eq!(events_message(3), "[NEW]: received 3 messages");
    assert_eq!(events_message(12345), "[NEW]: received 12345 messages");
}

#[test]
fn events_report_reads_the_mailbox_length() {
    let mut mailbox = Mailbox::new();
    assert_eq!(events_report(&mailbox), "[NEW]: received 0 messages");
    for i in 0..3u8 {
        mailbox.append(MessageRecord {
            topic: "asdf.asdf".to_string(),
            payload: vec![i],
            reply_to: None,
        });
    }
    assert_eq!(events_report(&mailbox), "[NEW]: received 3 messages");
}

#[test]
fn body_wraps_the_message_as_json() {
    assert_eq!(msg_body("hi"), "{\"msg\":\"hi\"}");
    assert_eq!(events_body(3), "{\"msg\":\"[NEW]: received 3 messages\"}");
}

#[test]
fn events_body_is_valid_json_with_one_msg_field() {
    let body = events_body(17);
    let value: serde_json::Value = serde_json::from_str(&body).expect("body must parse as JSON");
    assert_eq!(value["msg"], serde_json::Value::String("[NEW]: received 17 messages".to_string()));
}

#[test]
fn time_report_renders_a_plausible_timestamp() {
    let report = time_report();
    let prefix = "[NEW]: current unix timestamp: ";
    assert!(report.starts_with(prefix));
    let ts: i64 = report[prefix.len()..].parse().expect("suffix must be a decimal integer");
    // Well after 2001, well before the year 10000.
    assert!(ts > 1_000_000_000 && ts < 253_402_300_800);
}

#[test]
fn random_string_report_has_twelve_alphanumeric_characters() {
    let report = random_string_report(12);
    let prefix = "[NEW]: random string: ";
    assert!(report.starts_with(prefix));
    let suffix = &report[prefix.len()..];
    assert_eq!(suffix.len(), 12);
    assert!(suffix.chars().all(|c| c.is_ascii_alphanumeric()));
}

#[test]
fn random_string_reports_differ_between_draws() {
    let a = random_string_report(32);
    let b = random_string_report(32);
    assert_ne!(a, b);
}
