use thoughts_desktop::relay::{relay, tag_line, Channel, LogLine, OutputEvent, RelayStep, Tint};

#[test]
fn stdout_line_is_forwarded_as_stdout() {
    let step = relay(Some(OutputEvent::Stdout(b"ready".to_vec())));
    assert_eq!(
        step,
        RelayStep::Forward(LogLine { channel: Channel::Stdout, text: String::from("ready") })
    );
}

#[test]
fn stderr_line_is_forwarded_as_stderr() {
    let step = relay(Some(OutputEvent::Stderr(b"warn: cache miss".to_vec())));
    assert_eq!(
        step,
        RelayStep::Forward(
            LogLine { channel: Channel::Stderr, text: String::from("warn: cache miss") }
        )
    );
}

#[test]
fn other_events_are_skipped() {
    assert_eq!(relay(Some(OutputEvent::Other)), RelayStep::Skip);
}

#[test]
fn end_of_stream_finishes_the_relay() {
    assert_eq!(relay(None), RelayStep::Finish);
}

#[test]
fn malformed_bytes_are_replaced_not_refused() {
    let step = relay(Some(OutputEvent::Stdout(vec![b'o', b'k', 0xff, b'!'])));
    assert_eq!(
        step,
        RelayStep::Forward(LogLine { channel: Channel::Stdout, text: String::from("ok\u{FFFD}!") })
    );
    let step = relay(Some(OutputEvent::Stderr(vec![0xe2, 0x82])));
    assert_eq!(
        step,
        RelayStep::Forward(LogLine { channel: Channel::Stderr, text: String::from("\u{FFFD}") })
    );
}

#[test]
fn valid_utf8_is_decoded_as_it_is() {
    let step = relay(Some(OutputEvent::Stdout("héllo ⌥".as_bytes().to_vec())));
    assert_eq!(
        step,
        RelayStep::Forward(LogLine { channel: Channel::Stdout, text: String::from("héllo ⌥") })
    );
}

#[test]
fn empty_line_is_forwarded_empty() {
    let step = relay(Some(OutputEvent::Stdout(Vec::new())));
    assert_eq!(
        step,
        RelayStep::Forward(LogLine { channel: Channel::Stdout, text: String::new() })
    );
}

#[test]
fn lines_are_forwarded_one_for_one_in_order() {
    let events = vec![
        OutputEvent::Stdout(b"one".to_vec()),
        OutputEvent::Other,
        OutputEvent::Stderr(b"two".to_vec()),
        OutputEvent::Stdout(b"three".to_vec()),
    ];
    let mut stream = events.into_iter();
    let mut forwarded = Vec::new();
    loop {
        match relay(stream.next()) {
            RelayStep::Forward(line) => forwarded.push(line),
            RelayStep::Skip => {}
            RelayStep::Finish => break,
        }
    }
    assert_eq!(
        forwarded,
        vec![
            LogLine { channel: Channel::Stdout, text: String::from("one") },
            LogLine { channel: Channel::Stderr, text: String::from("two") },
            LogLine { channel: Channel::Stdout, text: String::from("three") },
        ]
    );
}

#[test]
fn each_channel_has_its_colour() {
    assert_eq!(Channel::Stdout.tint(), Tint::BrightBlue);
    assert_eq!(Channel::Stderr.tint(), Tint::BrightRed);
}

#[test]
fn each_channel_has_its_tag() {
    assert_eq!(Channel::Stdout.tag(), "[tRPC]");
    assert_eq!(Channel::Stderr.tag(), "[tRPC:err]");
    assert_ne!(Channel::Stdout.tag(), Channel::Stderr.tag());
}

#[test]
fn tag_line_puts_one_space_after_the_tag() {
    assert_eq!(tag_line("[tRPC]", "ready"), "[tRPC] ready");
    assert_eq!(tag_line("[tRPC]", ""), "[tRPC] ");
    assert_eq!(tag_line("", "x"), " x");
}
