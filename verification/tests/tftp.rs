use decider::config::{Choice, ChoiceLookupError};
use decider::tftp::{parse_tftp_ip, FetchAction, FetchEvent, FetchPhase, TftpFetch, CHOICE_FILENAME};

fn data(text: &str) -> FetchEvent {
    FetchEvent::Data { buffer: text.as_bytes().to_vec(), received: text.len() as u64 }
}

fn opened_fetch(interfaces: usize) -> TftpFetch {
    TftpFetch::new("10.0.0.1").handle(FetchEvent::Interfaces(interfaces))
}

#[test]
fn server_address_is_trimmed() {
    assert_eq!(parse_tftp_ip(" 192.168.1.1\t"), Ok("192.168.1.1".to_string()));
    assert_eq!(parse_tftp_ip("::1"), Ok("::1".to_string()));
    assert_eq!(parse_tftp_ip("2001:db8::8a2e:370:7334"), Ok("2001:db8::8a2e:370:7334".to_string()));
}

#[test]
fn server_address_must_be_a_literal() {
    assert_eq!(parse_tftp_ip(""), Err(ChoiceLookupError::ParseError));
    assert_eq!(parse_tftp_ip("server.example"), Err(ChoiceLookupError::ParseError));
    assert_eq!(parse_tftp_ip("192.168.1"), Err(ChoiceLookupError::ParseError));
    assert_eq!(parse_tftp_ip("192.168.1.1:69"), Err(ChoiceLookupError::ParseError));
    assert_eq!(parse_tftp_ip("192.168 .1.1"), Err(ChoiceLookupError::ParseError));
}

#[test]
fn fetch_with_a_bad_address_asks_for_nothing() {
    let fetch = TftpFetch::new("nowhere");
    assert_eq!(fetch.pending(), FetchAction::Done);
    assert_eq!(fetch.outcome(), Some(Err(ChoiceLookupError::ParseError)));
}

#[test]
fn fetch_counts_the_interfaces_first() {
    let fetch = TftpFetch::new(" 10.0.0.1 ");
    assert_eq!(fetch.server, "10.0.0.1");
    assert_eq!(fetch.pending(), FetchAction::CountInterfaces);
    let fetch = fetch.handle(FetchEvent::Interfaces(2));
    assert_eq!(fetch.pending(), FetchAction::Open(0));
}

#[test]
fn fetch_without_interfaces() {
    assert_eq!(opened_fetch(0).outcome(), Some(Err(ChoiceLookupError::NotFound)));
}

#[test]
fn fetch_when_counting_fails() {
    let fetch = TftpFetch::new("10.0.0.1").handle(FetchEvent::Failed);
    assert_eq!(fetch.pending(), FetchAction::Done);
    assert_eq!(fetch.outcome(), Some(Err(ChoiceLookupError::IoError)));
}

#[test]
fn fetch_on_an_interface_that_was_not_started() {
    let fetch = opened_fetch(1).handle(FetchEvent::Opened { started: false, dhcp_ack: false });
    assert_eq!(fetch.pending(), FetchAction::Start(0));
    let fetch = fetch.handle(FetchEvent::Started { dhcp_ack: false });
    assert_eq!(fetch.pending(), FetchAction::Dhcp(0));
    let fetch = fetch.handle(FetchEvent::Negotiated);
    assert_eq!(fetch.pending(), FetchAction::QuerySize(0));
    let fetch = fetch.handle(FetchEvent::Size(25));
    assert_eq!(fetch.pending(), FetchAction::Download { interface: 0, size: 25 });
    let fetch = fetch.handle(data("choice_type=nixos-current"));
    assert_eq!(fetch.pending(), FetchAction::Stop(0));
    let fetch = fetch.handle(FetchEvent::Stopped);
    assert_eq!(fetch.pending(), FetchAction::Done);
    assert_eq!(fetch.outcome(), Some(Ok(Choice::NixosCurrent)));
}

#[test]
fn fetch_on_an_interface_that_was_started_already() {
    let fetch = opened_fetch(1).handle(FetchEvent::Opened { started: true, dhcp_ack: true });
    assert_eq!(fetch.pending(), FetchAction::QuerySize(0));
    let fetch = fetch.handle(FetchEvent::Size(25));
    let fetch = fetch.handle(data("choice_type=nixos-current"));
    assert_eq!(fetch.pending(), FetchAction::Done);
    assert_eq!(fetch.outcome(), Some(Ok(Choice::NixosCurrent)));
}

#[test]
fn fetch_negotiates_on_a_started_interface_without_address() {
    let fetch = opened_fetch(1).handle(FetchEvent::Opened { started: true, dhcp_ack: false });
    assert_eq!(fetch.pending(), FetchAction::Dhcp(0));
    let fetch = fetch.handle(FetchEvent::Failed);
    assert_eq!(fetch.pending(), FetchAction::Done);
    assert_eq!(fetch.outcome(), Some(Err(ChoiceLookupError::ProtocolError)));
}

#[test]
fn fetch_stops_what_it_started_after_a_failure() {
    for failing in 0..3 {
        let mut fetch = opened_fetch(2)
            .handle(FetchEvent::Opened { started: false, dhcp_ack: false })
            .handle(FetchEvent::Started { dhcp_ack: false });
        let steps = [FetchEvent::Negotiated, FetchEvent::Size(4)];
        for step in steps.iter().take(failing) {
            fetch = fetch.handle(step.clone());
        }
        let fetch = fetch.handle(FetchEvent::Failed);
        assert_eq!(fetch.pending(), FetchAction::Stop(0));
        let fetch = fetch.handle(FetchEvent::Failed);
        assert_eq!(fetch.pending(), FetchAction::Open(1));
    }
}

#[test]
fn fetch_goes_on_when_an_interface_does_not_open_or_start() {
    let fetch = opened_fetch(3).handle(FetchEvent::Failed);
    assert_eq!(fetch.pending(), FetchAction::Open(1));
    let fetch = fetch.handle(FetchEvent::Opened { started: false, dhcp_ack: false });
    let fetch = fetch.handle(FetchEvent::Failed);
    assert_eq!(fetch.pending(), FetchAction::Open(2));
    let fetch = fetch.handle(FetchEvent::Failed);
    assert_eq!(fetch.outcome(), Some(Err(ChoiceLookupError::IoError)));
}

#[test]
fn fetch_returns_the_last_error() {
    let fetch = opened_fetch(2)
        .handle(FetchEvent::Failed)
        .handle(FetchEvent::Opened { started: true, dhcp_ack: true })
        .handle(FetchEvent::Failed);
    assert_eq!(fetch.outcome(), Some(Err(ChoiceLookupError::ProtocolError)));
    let fetch = opened_fetch(2)
        .handle(FetchEvent::Opened { started: true, dhcp_ack: true })
        .handle(FetchEvent::Failed)
        .handle(FetchEvent::Failed);
    assert_eq!(fetch.outcome(), Some(Err(ChoiceLookupError::IoError)));
}

#[test]
fn fetch_goes_on_after_a_file_that_says_nothing() {
    let fetch = opened_fetch(2)
        .handle(FetchEvent::Opened { started: true, dhcp_ack: true })
        .handle(FetchEvent::Size(17))
        .handle(data("choice_type=bogus"));
    assert_eq!(fetch.pending(), FetchAction::Open(1));
    let fetch = fetch
        .handle(FetchEvent::Opened { started: true, dhcp_ack: true })
        .handle(FetchEvent::Size(17))
        .handle(data("choice_type=bogus"));
    assert_eq!(fetch.outcome(), Some(Err(ChoiceLookupError::ParseError)));
}

#[test]
fn fetch_ends_at_the_first_choice() {
    let fetch = opened_fetch(2)
        .handle(FetchEvent::Opened { started: true, dhcp_ack: true })
        .handle(FetchEvent::Size(31))
        .handle(data("choice_type=entry_id\nentry_id=a"));
    assert_eq!(fetch.pending(), FetchAction::Done);
    assert_eq!(fetch.outcome(), Some(Ok(Choice::Entry("a".to_string()))));
}

#[test]
fn fetch_reads_no_more_than_was_received() {
    let buffer = b"choice_type=nixos-currentXXXX".to_vec();
    let fetch = opened_fetch(1)
        .handle(FetchEvent::Opened { started: true, dhcp_ack: true })
        .handle(FetchEvent::Size(29))
        .handle(FetchEvent::Data { buffer: buffer.clone(), received: 25 });
    assert_eq!(fetch.outcome(), Some(Ok(Choice::NixosCurrent)));
    let fetch = opened_fetch(1)
        .handle(FetchEvent::Opened { started: true, dhcp_ack: true })
        .handle(FetchEvent::Size(29))
        .handle(FetchEvent::Data { buffer: buffer.clone(), received: 29 });
    assert_eq!(fetch.outcome(), Some(Err(ChoiceLookupError::ParseError)));
    let fetch = opened_fetch(1)
        .handle(FetchEvent::Opened { started: true, dhcp_ack: true })
        .handle(FetchEvent::Size(29))
        .handle(FetchEvent::Data { buffer: buffer[..25].to_vec(), received: 1000 });
    assert_eq!(fetch.outcome(), Some(Ok(Choice::NixosCurrent)));
}

#[test]
fn fetch_of_an_empty_file() {
    let fetch = opened_fetch(1)
        .handle(FetchEvent::Opened { started: true, dhcp_ack: true })
        .handle(FetchEvent::Size(0));
    assert_eq!(fetch.pending(), FetchAction::Download { interface: 0, size: 0 });
    let fetch = fetch.handle(FetchEvent::Data { buffer: Vec::new(), received: 0 });
    assert_eq!(fetch.outcome(), Some(Err(ChoiceLookupError::ParseError)));
}

#[test]
fn fetch_passes_over_events_that_answer_nothing() {
    let fetch = opened_fetch(1).handle(FetchEvent::Size(3));
    assert_eq!(fetch.pending(), FetchAction::Open(0));
    let fetch = fetch.handle(FetchEvent::Stopped).handle(FetchEvent::Negotiated);
    assert_eq!(fetch.pending(), FetchAction::Open(0));
    assert_eq!(fetch.phase, FetchPhase::Opening);
    assert_eq!(fetch.outcome(), None);
}

#[test]
fn choice_file_name() {
    assert_eq!(CHOICE_FILENAME, "DECIDER.CHO");
}

#[test]
fn fetch_with_a_server_that_was_read_already() {
    let fetch = TftpFetch::with_server(Ok("10.0.0.1".to_string()));
    assert_eq!(fetch.pending(), FetchAction::CountInterfaces);
    let fetch = TftpFetch::with_server(Err(ChoiceLookupError::ParseError));
    assert_eq!(fetch.outcome(), Some(Err(ChoiceLookupError::ParseError)));
}
