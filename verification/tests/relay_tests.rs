use homepage::relay::{relay_request, relay_result, RelayStep};

#[test]
fn empty_message_is_rejected_without_dispatch() {
    match relay_request("") {
        RelayStep::Rejected { payload } => {
            assert_eq!(payload.template_name, "index");
            assert_eq!(payload.fields.len(), 2);
            assert_eq!(payload.fields[0].0, "msg");
            assert_eq!(payload.fields[0].1, "");
            assert_eq!(payload.fields[1].0, "error-msg");
            assert_eq!(payload.fields[1].1, "Don't forget to write a message");
        }
        RelayStep::Dispatch { .. } => panic!("a blank message must never be dispatched"),
    }
}

#[test]
fn whitespace_only_message_is_rejected_without_dispatch() {
    match relay_request("  \t\r\n  ") {
        RelayStep::Rejected { payload } => {
            assert_eq!(payload.fields[0].0, "msg");
            assert_eq!(payload.fields[0].1, "");
            assert_eq!(payload.fields[1].1, "Don't forget to write a message");
        }
        RelayStep::Dispatch { .. } => panic!("a blank message must never be dispatched"),
    }
}

#[test]
fn unicode_whitespace_only_message_is_rejected_without_dispatch() {
    // every character str::trim strips counts as blank: vertical tab, form
    // feed, NEL, NBSP, en space, line and paragraph separators, and the rest
    for msg in [
        "\u{000B}",
        "\u{000C}",
        "\u{0085}",
        "\u{00A0}",
        "\u{1680}",
        "\u{2000}\u{2005}\u{200A}",
        "\u{2028}\u{2029}",
        "\u{202F}\u{205F}\u{3000}",
        " \u{000B}\t\u{00A0}\r\n",
    ] {
        assert!(msg.trim().is_empty());
        match relay_request(msg) {
            RelayStep::Rejected { payload } => {
                assert_eq!(payload.fields[0].0, "msg");
                assert_eq!(payload.fields[0].1, "");
                assert_eq!(payload.fields[1].1, "Don't forget to write a message");
            }
            RelayStep::Dispatch { .. } => panic!("a blank message must never be dispatched"),
        }
    }
}

#[test]
fn message_with_substance_amid_whitespace_is_dispatched() {
    match relay_request(" \u{00A0}x\u{2028} ") {
        RelayStep::Dispatch { text } => {
            assert_eq!(text, "<!channel> homepage:  \u{00A0}x\u{2028} ");
        }
        RelayStep::Rejected { .. } => panic!("a non-blank message must be dispatched"),
    }
}

#[test]
fn non_blank_message_is_dispatched_once_with_marker() {
    match relay_request("Hello") {
        RelayStep::Dispatch { text } => {
            assert_eq!(text, "<!channel> homepage: Hello");
        }
        RelayStep::Rejected { .. } => panic!("a non-blank message must be dispatched"),
    }
}

#[test]
fn failed_delivery_echoes_the_message() {
    let payload = relay_result("Hello", false);
    assert_eq!(payload.template_name, "index");
    assert_eq!(payload.fields.len(), 2);
    assert_eq!(payload.fields[0].0, "msg");
    assert_eq!(payload.fields[0].1, "Hello");
    assert_eq!(payload.fields[1].0, "error-msg");
    assert_eq!(
        payload.fields[1].1,
        "An error occurred while sending, try again in a little bit"
    );
}

#[test]
fn successful_delivery_acknowledges_without_echo() {
    let payload = relay_result("Hello", true);
    assert_eq!(payload.template_name, "index");
    assert_eq!(payload.fields.len(), 1);
    assert_eq!(payload.fields[0].0, "success-msg");
    assert_eq!(
        payload.fields[0].1,
        "Message received, expect a response within 24 hours"
    );
    assert!(payload.fields.iter().all(|f| f.0 != "msg"));
}
