use vstd::prelude::*;
use crate::contribution::Event;
use crate::indexer::{
    BlockHash, BlockchainObserver, ConnectIndexerRequest, IndexerId, Observation, RequestSender,
    SentRequest,
};

verus! {

/// One notification, as a `RecordingObserver` keeps it.
#[derive(Clone, Debug, PartialEq, Eq)]
pub enum ObserverCall {
    Connected(IndexerId),
    NewBlock(BlockHash, u64),
    NewEvent(Event, u64),
    Reorg,
}

impl ObserverCall {
    pub open spec fn observation(&self) -> Observation {
        match self {
            ObserverCall::Connected(id) => Observation::Connected(id.value@),
            ObserverCall::NewBlock(hash, number) => Observation::NewBlock(hash.bytes@, *number),
            ObserverCall::NewEvent(event, number) => Observation::NewEvent(*event, *number),
            ObserverCall::Reorg => Observation::Reorg,
        }
    }
}

/// An observer that keeps every notification it receives, in order.
pub struct RecordingObserver {
    calls: Vec<ObserverCall>,
}

impl RecordingObserver {
    pub fn new() -> (r: RecordingObserver)
        ensures
            r.observations() == Seq::<Observation>::empty(),
    {
        RecordingObserver { calls: Vec::new() }
    }

    /// The notifications received so far, in order.
    pub fn calls(&self) -> (r: &Vec<ObserverCall>)
        ensures
            r@.map_values(|c: ObserverCall| c.observation()) == self.observations(),
    {
        &self.calls
    }

    fn record(&mut self, call: ObserverCall)
        ensures
            final(self).observations() == old(self).observations().push(call.observation()),
    {
        self.calls.push(call);
        assert(self.calls@.map_values(|c: ObserverCall| c.observation()) =~= old(
            self,
        ).calls@.map_values(|c: ObserverCall| c.observation()).push(call.observation()));
    }
}

impl BlockchainObserver for RecordingObserver {
    closed spec fn observations(&self) -> Seq<Observation> {
        self.calls@.map_values(|c: ObserverCall| c.observation())
    }

    fn on_connect(&mut self, indexer_id: &IndexerId) {
        self.record(ObserverCall::Connected(IndexerId::new(indexer_id.to_string())));
    }

    fn on_new_block(&mut self, block_hash: &BlockHash, block_number: u64) {
        self.record(ObserverCall::NewBlock(BlockHash::new(block_hash.to_bytes()), block_number));
    }

    fn on_new_event(&mut self, event: &Event, block_number: u64) {
        self.record(ObserverCall::NewEvent(*event, block_number));
    }

    fn on_reorg(&mut self) {
        self.record(ObserverCall::Reorg);
    }
}

/// An outbound queue held in memory: it accepts every request and keeps it,
/// in order.
pub struct RequestQueue {
    requests: Vec<ConnectIndexerRequest>,
}

impl RequestQueue {
    pub fn new() -> (r: RequestQueue)
        ensures
            r.sent() == Seq::<Option<SentRequest>>::empty(),
            r.accepts(),
    {
        RequestQueue { requests: Vec::new() }
    }

    /// The requests sent so far, in order.
    pub fn requests(&self) -> (r: &Vec<ConnectIndexerRequest>)
        ensures
            r@.map_values(|q: ConnectIndexerRequest| q@) == self.sent(),
    {
        &self.requests
    }

    /// Hands out the requests sent so far, in order, and empties the queue.
    pub fn take_requests(&mut self) -> (r: Vec<ConnectIndexerRequest>)
        ensures
            r@.map_values(|q: ConnectIndexerRequest| q@) == old(self).sent(),
            final(self).sent() == Seq::<Option<SentRequest>>::empty(),
            final(self).accepts() == old(self).accepts(),
    {
        let mut taken: Vec<ConnectIndexerRequest> = Vec::new();
        core::mem::swap(&mut taken, &mut self.requests);
        assert(self.requests@.map_values(|q: ConnectIndexerRequest| q@) =~= Seq::<
            Option<SentRequest>,
        >::empty());
        taken
    }
}

impl RequestSender for RequestQueue {
    closed spec fn sent(&self) -> Seq<Option<SentRequest>> {
        self.requests@.map_values(|q: ConnectIndexerRequest| q@)
    }

    /// A queue in memory takes every request.
    closed spec fn accepts(&self) -> bool {
        true
    }

    fn send(&mut self, request: ConnectIndexerRequest) -> (r: Result<(), String>)
        ensures
            r is Ok,
    {
        let ghost before = self.requests@;
        let ghost view = request@;
        self.requests.push(request);
        assert(self.requests@.map_values(|q: ConnectIndexerRequest| q@) =~= before.map_values(
            |q: ConnectIndexerRequest| q@,
        ).push(view));
        Ok(())
    }
}

} // verus!
