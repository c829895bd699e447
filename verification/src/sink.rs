use vstd::prelude::*;
use crate::signal::PushReply;

verus! {

/// Outcome of one publish attempt against the downstream bus. The bus client
/// itself is an external collaborator; the gateway only consumes its verdict.
#[derive(Clone, Copy, PartialEq, Eq, Structural, Debug)]
pub enum SinkOutcome {
    /// The publish was accepted downstream.
    Accepted,
    /// The endpoint was unreachable or the message was rejected.
    Rejected,
}

/// The acknowledgment policy, fixed once for the whole gateway: with fan-out
/// disabled (empty endpoint) every signal is trivially accepted, so its
/// acknowledgment is positive whatever the outcome argument says; with
/// fan-out enabled the acknowledgment mirrors the publish outcome, so a
/// rejected publish surfaces as a negative acknowledgment instead of being
/// treated as success.
pub open spec fn ack_ok(enabled: bool, outcome: SinkOutcome) -> bool {
    !enabled || outcome is Accepted
}

/// Fan-out configuration: the identifier of the downstream bus target, read
/// once at startup and immutable for the lifetime of the gateway instance.
/// An empty endpoint means fan-out is disabled and publishing is a no-op.
pub struct FanoutSink {
    endpoint: String,
}

impl FanoutSink {
    pub closed spec fn endpoint_spec(&self) -> Seq<char> {
        self.endpoint@
    }

    /// Fan-out is enabled exactly when an endpoint is configured.
    pub open spec fn enabled_spec(&self) -> bool {
        self.endpoint_spec().len() > 0
    }

    pub fn new(endpoint: String) -> (s: FanoutSink)
        ensures
            s.endpoint_spec() == endpoint@,
    {
        FanoutSink { endpoint }
    }

    pub fn endpoint(&self) -> (e: &str)
        ensures
            e@ == self.endpoint_spec(),
    {
        self.endpoint.as_str()
    }

    pub fn enabled(&self) -> (r: bool)
        ensures
            r == self.enabled_spec(),
    {
        !self.endpoint.as_str().is_empty()
    }

    /// The acknowledgment owed for one dispatched signal, given the outcome
    /// of its publish attempt.
    pub fn ack_of(&self, outcome: SinkOutcome) -> (r: PushReply)
        ensures
            r.ok == ack_ok(self.enabled_spec(), outcome),
    {
        if self.enabled() {
            PushReply { ok: matches!(outcome, SinkOutcome::Accepted) }
        } else {
            PushReply { ok: true }
        }
    }
}

} // verus!
