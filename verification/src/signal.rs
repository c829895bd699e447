use vstd::prelude::*;

verus! {

/// One unit of incoming telemetry: the payload bytes decoded from a single
/// inbound transport frame. The gateway is payload-agnostic, so the bytes are
/// carried through untouched; a signal is consumed by dispatching it and is
/// never retained after its acknowledgment is produced.
pub struct Signal {
    payload: Vec<u8>,
}

impl View for Signal {
    type V = Seq<u8>;

    closed spec fn view(&self) -> Seq<u8> {
        self.payload@
    }
}

impl Signal {
    pub fn new(payload: Vec<u8>) -> (s: Signal)
        ensures
            s@ == payload@,
    {
        Signal { payload }
    }

    /// Consume the signal, yielding the payload to hand to the fan-out sink.
    pub fn into_payload(self) -> (p: Vec<u8>)
        ensures
            p@ == self@,
    {
        self.payload
    }
}

/// The per-signal acknowledgment returned to the sender: `ok` says whether
/// the corresponding signal was successfully handed to the fan-out sink.
#[derive(Clone, Copy, PartialEq, Eq, Structural, Debug)]
pub struct PushReply {
    pub ok: bool,
}

} // verus!
