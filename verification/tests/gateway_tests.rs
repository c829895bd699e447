use signal_gateway::adapter::{Phase, StreamAdapter};
use signal_gateway::signal::{PushReply, Signal};
use signal_gateway::sink::{FanoutSink, SinkOutcome};

fn adapter_for(endpoint: &str) -> StreamAdapter {
    StreamAdapter::new(FanoutSink::new(endpoint.to_string()))
}

fn oks(replies: &[PushReply]) -> Vec<bool> {
    replies.iter().map(|r| r.ok).collect()
}

#[test]
fn healthy_run_all_acked_in_order() {
    // A finite run of N signals against a healthy sink: exactly N
    // acknowledgments, each positive, in input order.
    let mut adapter = adapter_for("bus://telemetry");
    let signals: Vec<Signal> = (0u8..5).map(|b| Signal::new(vec![b, b + 1])).collect();
    let outcomes = vec![SinkOutcome::Accepted; 5];
    let replies = adapter.relay_all(signals, &outcomes, true);
    assert_eq!(replies.len(), 5);
    assert_eq!(oks(&replies), vec![true; 5]);
    assert!(matches!(adapter.phase(), Phase::StreamEnded));
}

#[test]
fn clean_end_closes_outbound_sequence() {
    // When the inbound stream ends after signal N, the outbound sequence
    // ends as well: no extra acknowledgments appear and the call is terminal.
    let mut adapter = adapter_for("bus://telemetry");
    let signals = vec![Signal::new(vec![1]), Signal::new(vec![2])];
    let outcomes = vec![SinkOutcome::Accepted, SinkOutcome::Accepted];
    let replies = adapter.relay_all(signals, &outcomes, true);
    assert_eq!(replies.len(), 2);
    assert!(matches!(adapter.phase(), Phase::StreamEnded));
}

#[test]
fn transport_error_after_k_signals() {
    // The inbound stream errors after delivering K signals: exactly K
    // acknowledgments were emitted, in order, and the call terminates with
    // the error state.
    let mut adapter = adapter_for("bus://telemetry");
    let signals = vec![Signal::new(vec![10]), Signal::new(vec![11])];
    let outcomes = vec![SinkOutcome::Accepted, SinkOutcome::Accepted];
    let replies = adapter.relay_all(signals, &outcomes, false);
    assert_eq!(oks(&replies), vec![true, true]);
    assert!(matches!(adapter.phase(), Phase::StreamErrored));
}

#[test]
fn sink_failure_is_isolated() {
    // A publish rejected for one signal only flips that one acknowledgment;
    // the call keeps going and a later successful signal is still positive.
    let mut adapter = adapter_for("bus://telemetry");
    let signals = vec![Signal::new(vec![1]), Signal::new(vec![2]), Signal::new(vec![3])];
    let outcomes = vec![SinkOutcome::Accepted, SinkOutcome::Rejected, SinkOutcome::Accepted];
    let replies = adapter.relay_all(signals, &outcomes, true);
    assert_eq!(oks(&replies), vec![true, false, true]);
    assert!(matches!(adapter.phase(), Phase::StreamEnded));
}

#[test]
fn three_records_all_ok() {
    // Client sends [A, B, C] with an always-successful sink: replies
    // [ok, ok, ok] and the call ends cleanly.
    let mut adapter = adapter_for("bus://telemetry");
    let signals = vec![
        Signal::new(b"A".to_vec()),
        Signal::new(b"B".to_vec()),
        Signal::new(b"C".to_vec()),
    ];
    let outcomes = vec![SinkOutcome::Accepted; 3];
    let replies = adapter.relay_all(signals, &outcomes, true);
    assert_eq!(oks(&replies), vec![true, true, true]);
    assert!(matches!(adapter.phase(), Phase::StreamEnded));
}

#[test]
fn abrupt_disconnect_after_one_signal() {
    // Client sends [A] then disconnects abruptly: one positive reply, then
    // the call terminates with a transport error and no further replies.
    let mut adapter = adapter_for("bus://telemetry");
    let payload = adapter.begin_dispatch(Signal::new(b"A".to_vec()));
    assert_eq!(payload, b"A".to_vec());
    let reply = adapter.emit_ack(SinkOutcome::Accepted);
    assert!(reply.ok);
    adapter.fail_stream();
    assert!(matches!(adapter.phase(), Phase::StreamErrored));
}

#[test]
fn unset_endpoint_disables_fanout() {
    // Endpoint unset (empty string): fan-out is a no-op and every signal is
    // still acknowledged positively, whatever the sink would have reported.
    let mut adapter = adapter_for("");
    assert!(!adapter.fanout_enabled());
    let signals = vec![Signal::new(vec![1]), Signal::new(vec![2])];
    let outcomes = vec![SinkOutcome::Rejected, SinkOutcome::Rejected];
    let replies = adapter.relay_all(signals, &outcomes, true);
    assert_eq!(oks(&replies), vec![true, true]);
    assert!(matches!(adapter.phase(), Phase::StreamEnded));
}

#[test]
fn two_concurrent_calls_do_not_interleave() {
    // Two simultaneous calls, each with its own adapter: stepping them
    // alternately, each call's acknowledgments reflect only its own inputs
    // and outcomes.
    let mut left = adapter_for("bus://telemetry");
    let mut right = adapter_for("bus://telemetry");

    let mut left_replies: Vec<PushReply> = Vec::new();
    let mut right_replies: Vec<PushReply> = Vec::new();

    let _ = left.begin_dispatch(Signal::new(vec![1]));
    let _ = right.begin_dispatch(Signal::new(vec![100]));
    left_replies.push(left.emit_ack(SinkOutcome::Accepted));
    right_replies.push(right.emit_ack(SinkOutcome::Rejected));
    let _ = left.begin_dispatch(Signal::new(vec![2]));
    left_replies.push(left.emit_ack(SinkOutcome::Accepted));
    let _ = right.begin_dispatch(Signal::new(vec![101]));
    right_replies.push(right.emit_ack(SinkOutcome::Accepted));

    left.end_stream();
    right.fail_stream();

    assert_eq!(oks(&left_replies), vec![true, true]);
    assert_eq!(oks(&right_replies), vec![false, true]);
    assert!(matches!(left.phase(), Phase::StreamEnded));
    assert!(matches!(right.phase(), Phase::StreamErrored));
}

#[test]
fn empty_stream_ends_cleanly() {
    // No signals at all: the call ends cleanly with zero acknowledgments.
    let mut adapter = adapter_for("bus://telemetry");
    let replies = adapter.relay_all(Vec::new(), &Vec::new(), true);
    assert!(replies.is_empty());
    assert!(matches!(adapter.phase(), Phase::StreamEnded));
}

#[test]
fn error_before_any_signal() {
    // The transport breaks before the first signal: zero acknowledgments,
    // terminal error.
    let mut adapter = adapter_for("bus://telemetry");
    adapter.fail_stream();
    assert!(matches!(adapter.phase(), Phase::StreamErrored));
}

#[test]
fn dispatch_hands_payload_through_untouched() {
    // The gateway is payload-agnostic: the bytes handed to the sink are
    // exactly the bytes of the inbound signal.
    let mut adapter = adapter_for("bus://telemetry");
    let payload = adapter.begin_dispatch(Signal::new(vec![0, 255, 42]));
    assert_eq!(payload, vec![0, 255, 42]);
    let reply = adapter.emit_ack(SinkOutcome::Accepted);
    assert!(reply.ok);
    adapter.end_stream();
}

#[test]
fn signal_round_trips_its_payload() {
    let sig = Signal::new(vec![9, 8, 7]);
    assert_eq!(sig.into_payload(), vec![9, 8, 7]);
}

#[test]
fn sink_acknowledgment_policy() {
    // Enabled sink: the acknowledgment mirrors the publish outcome.
    let sink = FanoutSink::new("bus://telemetry".to_string());
    assert!(sink.enabled());
    assert_eq!(sink.endpoint(), "bus://telemetry");
    assert!(sink.ack_of(SinkOutcome::Accepted).ok);
    assert!(!sink.ack_of(SinkOutcome::Rejected).ok);

    // Disabled sink (empty endpoint): trivially successful.
    let disabled = FanoutSink::new(String::new());
    assert!(!disabled.enabled());
    assert!(disabled.ack_of(SinkOutcome::Rejected).ok);
    assert!(disabled.ack_of(SinkOutcome::Accepted).ok);
}
