use ipc_bridge_client::lines::{decimal_string, sample_line, size_line, Notice};
use ipc_bridge_client::payload::{MapApiLanesStamped, PAYLOAD_LEN};

fn payload_with(prefix: &[u8]) -> MapApiLanesStamped {
    let mut payload = MapApiLanesStamped::default();
    payload.string_data[..prefix.len()].copy_from_slice(prefix);
    payload
}

fn hello_text() -> String {
    let mut text = String::from("hello");
    for _ in 0..96 {
        text.push('\0');
    }
    text
}

#[test]
fn default_payload_is_zero_filled() {
    let payload = MapApiLanesStamped::default();
    assert_eq!(payload.string_data.len(), 101);
    assert!(payload.string_data.iter().all(|b| *b == 0));
}

#[test]
fn payload_size_is_fixed() {
    assert_eq!(PAYLOAD_LEN, 101);
    assert_eq!(MapApiLanesStamped::default().size(), 101);
    assert_eq!(payload_with(b"hello").size(), 101);
    assert_eq!(std::mem::size_of::<MapApiLanesStamped>(), 101);
}

#[test]
fn valid_text_is_decoded_exactly() {
    let payload = payload_with(b"hello");
    assert_eq!(payload.as_text(), Some(hello_text().as_str()));
    assert_eq!(payload.display_text(), hello_text());
}

#[test]
fn zero_padding_shows_as_nul_characters() {
    let payload = payload_with(b"hello");
    let text = payload.display_text();
    assert_eq!(text.chars().count(), 101);
    assert!(text.starts_with("hello"));
    assert!(text[5..].chars().all(|c| c == '\0'));
    assert_ne!(text, "hello");
}

#[test]
fn default_payload_shows_only_nul_characters() {
    let payload = MapApiLanesStamped::default();
    let text = payload.display_text();
    assert_eq!(text.len(), 101);
    assert!(text.chars().all(|c| c == '\0'));
}

#[test]
fn multibyte_text_is_decoded() {
    let payload = payload_with("gr\u{fc}\u{df}e \u{4e16}\u{754c}".as_bytes());
    let text = payload.display_text();
    assert!(text.starts_with("gr\u{fc}\u{df}e \u{4e16}\u{754c}"));
    // 6 characters in one or two bytes each take 8 bytes, 2 in three bytes take 6.
    assert_eq!(text.chars().count(), 8 + (101 - 14));
}

#[test]
fn invalid_bytes_give_the_placeholder() {
    let payload = payload_with(&[0xff, 0xfe, b'a']);
    assert_eq!(payload.as_text(), None);
    assert_eq!(payload.display_text(), "<invalid utf8>");
}

#[test]
fn truncated_sequence_at_the_end_gives_the_placeholder() {
    let mut payload = payload_with(b"abc");
    payload.string_data[100] = 0xe4;
    assert_eq!(payload.as_text(), None);
    assert_eq!(payload.display_text(), "<invalid utf8>");
}

#[test]
fn decimal_numerals() {
    assert_eq!(decimal_string(0), "0");
    assert_eq!(decimal_string(7), "7");
    assert_eq!(decimal_string(9), "9");
    assert_eq!(decimal_string(10), "10");
    assert_eq!(decimal_string(101), "101");
    assert_eq!(decimal_string(1234567890), "1234567890");
    assert_eq!(decimal_string(usize::MAX), format!("{}", usize::MAX));
}

#[test]
fn decimal_numerals_agree_with_std() {
    let mut n: usize = 0;
    while n < 2000 {
        assert_eq!(decimal_string(n), format!("{}", n));
        n += 1;
    }
}

#[test]
fn sample_line_is_verbatim() {
    assert_eq!(sample_line(0, "hello"), "Received sample no: 0, with content: hello");
    assert_eq!(sample_line(42, ""), "Received sample no: 42, with content: ");
    assert_eq!(
        sample_line(17, "<invalid utf8>"),
        "Received sample no: 17, with content: <invalid utf8>"
    );
}

#[test]
fn size_line_is_verbatim() {
    assert_eq!(size_line(101), "[Rust] Size of MapApiLanesStamped: 101");
    assert_eq!(
        size_line(MapApiLanesStamped::default().size()),
        "[Rust] Size of MapApiLanesStamped: 101"
    );
}

#[test]
fn notices_are_verbatim() {
    assert_eq!(Notice::ReceiveMode.text(), "Running in Recv/Proxy mode");
    assert_eq!(Notice::NoServiceFound.text(), "No service found, retrying in 0.5 seconds");
    assert_eq!(Notice::Subscribed.text(), "Subscribed!");
    assert_eq!(Notice::Unsubscribing.text(), "Unsubscribing...");
}
