use vstd::prelude::*;
use crate::signal::{PushReply, Signal};
use crate::sink::{ack_ok, FanoutSink, SinkOutcome};

verus! {

/// Where one call stands in its lifecycle.
#[derive(Clone, Copy, PartialEq, Eq, Structural, Debug)]
pub enum Phase {
    /// Ready to pull the next inbound frame.
    AwaitingNextSignal,
    /// A signal was decoded and handed out for publishing; its acknowledgment
    /// is owed before anything else may happen on the call.
    Dispatching,
    /// The inbound stream ended cleanly; terminal success.
    StreamEnded,
    /// The inbound stream reported a transport error; terminal failure.
    StreamErrored,
}

/// The per-call relay state machine behind the duplex-streaming method
/// `PushSignal`. One adapter serves exactly one call and owns all of the
/// call's state, so concurrent calls cannot interfere with one another.
///
/// The caller (the transport shell) drives it one event at a time: each
/// decoded inbound signal enters through [`Self::begin_dispatch`], the
/// publish outcome comes back through [`Self::emit_ack`], and the end of the
/// inbound stream arrives as [`Self::end_stream`] (clean) or
/// [`Self::fail_stream`] (transport error).
///
/// Two ghost transcripts record the call: the payloads fully received so far
/// and the acknowledgment flags emitted so far. The well-formedness invariant
/// keeps them in strict one-to-one, order-preserving correspondence: an
/// acknowledgment exists only for a signal already received, and while one
/// signal is being dispatched exactly its own acknowledgment is outstanding.
pub struct StreamAdapter {
    sink: FanoutSink,
    phase: Phase,
    pending: Ghost<Seq<u8>>,
    received: Ghost<Seq<Seq<u8>>>,
    acks: Ghost<Seq<bool>>,
}

impl StreamAdapter {
    /// The fan-out configuration this call publishes through.
    pub closed spec fn sink_spec(&self) -> FanoutSink {
        self.sink
    }

    /// The call's current lifecycle phase.
    pub closed spec fn phase_spec(&self) -> Phase {
        self.phase
    }

    /// The payload of the signal currently being dispatched (meaningful only
    /// in the `Dispatching` phase).
    pub closed spec fn pending_spec(&self) -> Seq<u8> {
        self.pending@
    }

    /// The payloads of all signals fully received on this call, in order.
    pub closed spec fn received_spec(&self) -> Seq<Seq<u8>> {
        self.received@
    }

    /// The acknowledgment flags emitted on this call, in order; the flag at
    /// index `i` acknowledges the signal at index `i` of the received
    /// transcript.
    pub closed spec fn acks_spec(&self) -> Seq<bool> {
        self.acks@
    }

    /// One acknowledgment per fully received signal: outside the
    /// `Dispatching` phase the two transcripts have equal length; while a
    /// signal is dispatched, exactly its own acknowledgment is outstanding
    /// and the pending payload is the last one received.
    pub open spec fn wf(&self) -> bool {
        &&& self.phase_spec() is Dispatching ==> {
            &&& self.received_spec().len() == self.acks_spec().len() + 1
            &&& self.received_spec().last() == self.pending_spec()
        }
        &&& !(self.phase_spec() is Dispatching) ==> self.received_spec().len()
            == self.acks_spec().len()
    }

    /// Open a fresh call against the given fan-out configuration: nothing
    /// received, nothing acknowledged, ready for the first signal.
    pub fn new(sink: FanoutSink) -> (a: StreamAdapter)
        ensures
            a.wf(),
            a.phase_spec() is AwaitingNextSignal,
            a.sink_spec() == sink,
            a.received_spec() == Seq::<Seq<u8>>::empty(),
            a.acks_spec() == Seq::<bool>::empty(),
    {
        StreamAdapter {
            sink,
            phase: Phase::AwaitingNextSignal,
            pending: Ghost(Seq::empty()),
            received: Ghost(Seq::empty()),
            acks: Ghost(Seq::empty()),
        }
    }

    pub fn phase(&self) -> (p: Phase)
        ensures
            p == self.phase_spec(),
    {
        self.phase
    }

    /// Whether this call's sink actually publishes (an empty endpoint
    /// disables fan-out, making every publish a trivially successful no-op).
    pub fn fanout_enabled(&self) -> (r: bool)
        ensures
            r == self.sink_spec().enabled_spec(),
    {
        self.sink.enabled()
    }

    /// Accept one decoded inbound signal and hand its payload out for
    /// publishing. The signal is recorded as received; its acknowledgment is
    /// now owed and nothing else may happen on the call until
    /// [`Self::emit_ack`] settles it — no acknowledgment is ever produced for
    /// a signal not yet fully received, and none out of order.
    pub fn begin_dispatch(&mut self, sig: Signal) -> (payload: Vec<u8>)
        requires
            old(self).wf(),
            old(self).phase_spec() is AwaitingNextSignal,
        ensures
            final(self).wf(),
            final(self).phase_spec() is Dispatching,
            final(self).sink_spec() == old(self).sink_spec(),
            payload@ == sig@,
            final(self).pending_spec() == sig@,
            final(self).received_spec() == old(self).received_spec().push(sig@),
            final(self).acks_spec() == old(self).acks_spec(),
    {
        let payload = sig.into_payload();
        self.phase = Phase::Dispatching;
        self.pending = Ghost(payload@);
        self.received = Ghost(self.received@.push(payload@));
        payload
    }

    /// Settle the outstanding dispatch: given the publish outcome for the
    /// pending signal, emit exactly one acknowledgment and return the call to
    /// the awaiting phase. A rejected publish never terminates the call; it
    /// only makes this one acknowledgment negative (with fan-out disabled the
    /// acknowledgment is positive whatever the outcome).
    pub fn emit_ack(&mut self, outcome: SinkOutcome) -> (r: PushReply)
        requires
            old(self).wf(),
            old(self).phase_spec() is Dispatching,
        ensures
            final(self).wf(),
            final(self).phase_spec() is AwaitingNextSignal,
            final(self).sink_spec() == old(self).sink_spec(),
            r.ok == ack_ok(old(self).sink_spec().enabled_spec(), outcome),
            final(self).received_spec() == old(self).received_spec(),
            final(self).acks_spec() == old(self).acks_spec().push(r.ok),
    {
        let r = self.sink.ack_of(outcome);
        self.phase = Phase::AwaitingNextSignal;
        self.acks = Ghost(self.acks@.push(r.ok));
        r
    }

    /// The inbound stream ended cleanly: the outbound sequence ends as well,
    /// with no extra acknowledgment — the call terminates successfully.
    pub fn end_stream(&mut self)
        requires
            old(self).wf(),
            old(self).phase_spec() is AwaitingNextSignal,
        ensures
            final(self).wf(),
            final(self).phase_spec() is StreamEnded,
            final(self).sink_spec() == old(self).sink_spec(),
            final(self).received_spec() == old(self).received_spec(),
            final(self).acks_spec() == old(self).acks_spec(),
    {
        self.phase = Phase::StreamEnded;
    }

    /// The inbound stream reported a transport error: propagate it as the
    /// terminal state of the call. Every acknowledgment already emitted
    /// stands; none is added — the signals acknowledged before the error are
    /// exactly those fully received before it.
    pub fn fail_stream(&mut self)
        requires
            old(self).wf(),
            old(self).phase_spec() is AwaitingNextSignal,
        ensures
            final(self).wf(),
            final(self).phase_spec() is StreamErrored,
            final(self).sink_spec() == old(self).sink_spec(),
            final(self).received_spec() == old(self).received_spec(),
            final(self).acks_spec() == old(self).acks_spec(),
    {
        self.phase = Phase::StreamErrored;
    }

    /// Drive one whole call over an inbound sequence that has already been
    /// decoded: dispatch each signal and emit its acknowledgment, in order,
    /// then apply the terminal event — a clean end of input if `clean_end`
    /// holds, a transport error otherwise. `outcomes[i]` is the publish
    /// outcome the sink reported for `signals[i]`.
    ///
    /// Exactly one acknowledgment per signal comes back, in the order the
    /// signals were given, each positive precisely when the acknowledgment
    /// policy says so for its own outcome.
    pub fn relay_all(
        &mut self,
        signals: Vec<Signal>,
        outcomes: &Vec<SinkOutcome>,
        clean_end: bool,
    ) -> (replies: Vec<PushReply>)
        requires
            old(self).wf(),
            old(self).phase_spec() is AwaitingNextSignal,
            signals@.len() == outcomes@.len(),
        ensures
            final(self).wf(),
            final(self).sink_spec() == old(self).sink_spec(),
            final(self).phase_spec() == (if clean_end {
                Phase::StreamEnded
            } else {
                Phase::StreamErrored
            }),
            replies@.len() == signals@.len(),
            flags_of(replies@) == expected_acks(
                old(self).sink_spec().enabled_spec(),
                outcomes@,
            ),
            forall|i: int|
                0 <= i < replies@.len() ==> replies@[i].ok == ack_ok(
                    old(self).sink_spec().enabled_spec(),
                    outcomes@[i],
                ),
            final(self).received_spec() == old(self).received_spec() + payloads_of(signals@),
            final(self).acks_spec() == old(self).acks_spec() + flags_of(replies@),
    {
        let ghost sigs0: Seq<Seq<u8>> = payloads_of(signals@);
        let mut rest = signals;
        let mut replies: Vec<PushReply> = Vec::new();
        let mut i: usize = 0;
        while i < outcomes.len()
            invariant
                self.wf(),
                self.phase_spec() is AwaitingNextSignal,
                self.sink_spec() == old(self).sink_spec(),
                i <= outcomes@.len(),
                sigs0.len() == outcomes@.len(),
                payloads_of(rest@) == sigs0.skip(i as int),
                replies@.len() == i,
                forall|j: int|
                    0 <= j < i ==> replies@[j].ok == ack_ok(
                        old(self).sink_spec().enabled_spec(),
                        outcomes@[j],
                    ),
                self.received_spec() == old(self).received_spec() + sigs0.take(i as int),
                self.acks_spec() == old(self).acks_spec() + flags_of(replies@),
            decreases outcomes@.len() - i,
        {
            let ghost rest0: Seq<Signal> = rest@;
            proof {
                assert(payloads_of(rest0).len() == sigs0.len() - i);
            }
            let sig = rest.remove(0);
            proof {
                assert(payloads_of(rest0)[0] == sigs0.skip(i as int)[0]);
                assert(sig@ == sigs0[i as int]);
                assert forall|k: int|
                    0 <= k < rest@.len() implies #[trigger] payloads_of(rest@)[k] == sigs0.skip(
                    i as int + 1,
                )[k] by {
                    assert(rest@[k] == rest0[k + 1]);
                    assert(payloads_of(rest0)[k + 1] == sigs0.skip(i as int)[k + 1]);
                }
                assert(payloads_of(rest@) =~= sigs0.skip(i as int + 1));
            }
            let _ = self.begin_dispatch(sig);
            let r = self.emit_ack(outcomes[i]);
            replies.push(r);
            i = i + 1;
            proof {
                assert(self.received_spec() =~= old(self).received_spec() + sigs0.take(i as int));
                assert(self.acks_spec() =~= old(self).acks_spec() + flags_of(replies@));
            }
        }
        if clean_end {
            self.end_stream();
        } else {
            self.fail_stream();
        }
        proof {
            assert(sigs0.take(sigs0.len() as int) =~= sigs0);
            assert(flags_of(replies@) =~= expected_acks(
                old(self).sink_spec().enabled_spec(),
                outcomes@,
            ));
        }
        replies
    }
}

/// The payloads of a sequence of signals, in order.
pub open spec fn payloads_of(signals: Seq<Signal>) -> Seq<Seq<u8>> {
    signals.map_values(|s: Signal| s@)
}

/// The acknowledgment flags of a sequence of replies, in order.
pub open spec fn flags_of(replies: Seq<PushReply>) -> Seq<bool> {
    replies.map_values(|r: PushReply| r.ok)
}

/// The acknowledgment flags a call owes for a run of publish outcomes: one
/// flag per outcome, in order, each given by the acknowledgment policy.
pub open spec fn expected_acks(enabled: bool, outcomes: Seq<SinkOutcome>) -> Seq<bool> {
    outcomes.map_values(|o: SinkOutcome| ack_ok(enabled, o))
}

/// With a healthy sink, a finite run of signals on one call is acknowledged
/// in full: exactly one acknowledgment per signal, each positive, in the
/// order the signals arrived.
pub proof fn lemma_healthy_run_fully_acked(enabled: bool, outcomes: Seq<SinkOutcome>)
    requires
        forall|i: int| 0 <= i < outcomes.len() ==> outcomes[i] is Accepted,
    ensures
        expected_acks(enabled, outcomes).len() == outcomes.len(),
        forall|i: int| 0 <= i < outcomes.len() ==> expected_acks(enabled, outcomes)[i],
{
}

/// Failure isolation: a rejected publish makes exactly its own
/// acknowledgment negative. Every other signal whose publish was accepted is
/// still acknowledged positively, whether it comes before or after the
/// failure.
pub proof fn lemma_sink_failure_isolated(enabled: bool, outcomes: Seq<SinkOutcome>, i: int)
    requires
        0 <= i < outcomes.len(),
        enabled,
        outcomes[i] is Rejected,
    ensures
        !expected_acks(enabled, outcomes)[i],
        forall|j: int|
            0 <= j < outcomes.len() && outcomes[j] is Accepted ==> expected_acks(
                enabled,
                outcomes,
            )[j],
{
}

/// With fan-out disabled (no endpoint configured) publishing is a no-op that
/// counts as trivially successful: every signal is acknowledged positively,
/// whatever the sink would have said.
pub proof fn lemma_disabled_fanout_acks_all(outcomes: Seq<SinkOutcome>)
    ensures
        forall|i: int| 0 <= i < outcomes.len() ==> expected_acks(false, outcomes)[i],
{
}

} // verus!
