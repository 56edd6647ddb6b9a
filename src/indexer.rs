use vstd::prelude::*;
use crate::contribution::Event;

verus! {

/// Identifier of a subscription to the chain feed.
#[derive(Clone, Debug, PartialEq, Eq)]
pub struct IndexerId {
    pub value: String,
}

impl IndexerId {
    pub fn new(value: String) -> (r: IndexerId)
        ensures
            r.value@ == value@,
    {
        IndexerId { value }
    }

    pub fn to_string(&self) -> (r: String)
        ensures
            r@ == self.value@,
    {
        self.value.clone()
    }
}

/// Identifier of a block, as bytes.
#[derive(Clone, Debug, PartialEq, Eq)]
pub struct BlockHash {
    pub bytes: Vec<u8>,
}

impl BlockHash {
    pub fn new(bytes: Vec<u8>) -> (r: BlockHash)
        ensures
            r.bytes@ == bytes@,
    {
        BlockHash { bytes }
    }

    pub fn to_bytes(&self) -> (r: Vec<u8>)
        ensures
            r@ == self.bytes@,
    {
        copy_bytes(&self.bytes)
    }
}

fn copy_bytes(bytes: &Vec<u8>) -> (r: Vec<u8>)
    ensures
        r@ == bytes@,
{
    let mut out: Vec<u8> = Vec::new();
    let mut i: usize = 0;
    while i < bytes.len()
        invariant
            0 <= i <= bytes@.len(),
            out@ == bytes@.subrange(0, i as int),
        decreases bytes@.len() - i,
    {
        out.push(bytes[i]);
        i = i + 1;
        assert(out@ =~= bytes@.subrange(0, i as int));
    }
    assert(out@ =~= bytes@);
    out
}

/// Head of a block as the indexing service reports it.
#[derive(Clone, Debug, PartialEq, Eq, Default)]
pub struct BlockHeader {
    pub hash: Vec<u8>,
    pub number: u64,
}

/// An indexer as the indexing service reports it.
#[derive(Clone, Debug, PartialEq, Eq, Default)]
pub struct Indexer {
    pub id: String,
}

/// A raw event of a StarkNet contract.
#[derive(Clone, Debug, PartialEq, Eq, Default)]
pub struct StarkNetEvent {
    pub topics: Vec<Vec<u8>>,
    pub data: Vec<Vec<u8>>,
    pub address: Vec<u8>,
    pub transaction_hash: Vec<u8>,
    pub log_index: u64,
}

/// A raw chain event; it may hold nothing.
#[derive(Clone, Debug, PartialEq, Eq, Default)]
pub struct RawEvent {
    pub event: Option<StarkNetEvent>,
}

#[derive(Clone, Debug, PartialEq, Eq)]
pub enum RequestMessage {
    Connect { id: String },
    Ack { hash: Vec<u8> },
}

/// A message to the indexing service.
#[derive(Clone, Debug, PartialEq, Eq)]
pub struct ConnectIndexerRequest {
    pub message: Option<RequestMessage>,
}

/// What a request says: `Connect` with the indexer id, or `Ack` with the block hash.
pub enum SentRequest {
    Connect(Seq<char>),
    Ack(Seq<u8>),
}

impl View for ConnectIndexerRequest {
    type V = Option<SentRequest>;

    open spec fn view(&self) -> Option<SentRequest> {
        match self.message {
            Some(RequestMessage::Connect { id }) => Some(SentRequest::Connect(id@)),
            Some(RequestMessage::Ack { hash }) => Some(SentRequest::Ack(hash@)),
            None => None,
        }
    }
}

#[derive(Clone, Debug, PartialEq, Eq)]
pub enum ResponseMessage {
    Connected { indexer: Option<Indexer> },
    NewBlock { new_head: Option<BlockHeader> },
    Reorg,
    NewEvents { block: Option<BlockHeader>, events: Vec<RawEvent> },
}

/// A message from the indexing service; it may carry nothing.
#[derive(Clone, Debug, PartialEq, Eq)]
pub struct ConnectIndexerResponse {
    pub message: Option<ResponseMessage>,
}

#[derive(Clone, Debug, PartialEq, Eq)]
pub enum IndexingServiceError {
    Connection { id: String, details: String },
    Receive(String),
    Send(String),
}

/// One notification received by an observer.
pub enum Observation {
    Connected(Seq<char>),
    NewBlock(Seq<u8>, u64),
    NewEvent(Event, u64),
    Reorg,
}

/// Notified of what happens on the chain feed. `observations` is the
/// sequence of notifications received so far. An implementation checked by
/// Verus defines it; the default body exists only so that code outside
/// Verus can implement the trait, and an implementation that kept it could
/// not be verified against these contracts.
pub trait BlockchainObserver {
    closed spec fn observations(&self) -> Seq<Observation> {
        Seq::empty()
    }

    fn on_connect(&mut self, indexer_id: &IndexerId)
        ensures
            final(self).observations() == old(self).observations().push(
                Observation::Connected(indexer_id.value@),
            ),
    ;

    fn on_new_block(&mut self, block_hash: &BlockHash, block_number: u64)
        ensures
            final(self).observations() == old(self).observations().push(
                Observation::NewBlock(block_hash.bytes@, block_number),
            ),
    ;

    fn on_new_event(&mut self, event: &Event, block_number: u64)
        ensures
            final(self).observations() == old(self).observations().push(
                Observation::NewEvent(*event, block_number),
            ),
    ;

    fn on_reorg(&mut self)
        ensures
            final(self).observations() == old(self).observations().push(Observation::Reorg),
    ;
}

/// Translates raw chain events into contribution events; `None` for an event
/// it cannot read. `translation` is what it gives for each raw event: an
/// implementation checked by Verus defines it; the default body exists only
/// so that code outside Verus can implement the trait.
pub trait EventTranslator {
    closed spec fn translation(&self, event: RawEvent) -> Option<Event> {
        None
    }

    fn translate(&self, event: &RawEvent) -> (r: Option<Event>)
        ensures
            r == self.translation(*event),
    ;
}

/// Outbound end of the channel to the indexing service. `sent` is the
/// sequence of requests accepted so far; a failed send adds nothing.
/// `accepts` says that the channel takes every request (its receiving end is
/// there), and keeps doing so.
///
/// `sent` and `accepts` are the channel's model: an implementation checked
/// by Verus defines both. Their default bodies exist only so that code
/// outside Verus can implement the trait.
pub trait RequestSender {
    closed spec fn sent(&self) -> Seq<Option<SentRequest>> {
        Seq::empty()
    }

    closed spec fn accepts(&self) -> bool {
        false
    }

    fn send(&mut self, request: ConnectIndexerRequest) -> (r: Result<(), String>)
        ensures
            final(self).accepts() == old(self).accepts(),
            r is Ok ==> final(self).sent() == old(self).sent().push(request@),
            r is Err ==> final(self).sent() == old(self).sent(),
            old(self).accepts() ==> r is Ok,
    ;
}

/// The notifications for the events of one block: one for each event that
/// `translator` translates, carrying the translated event, in order.
pub open spec fn translated_observations<T: EventTranslator>(
    translator: &T,
    events: Seq<RawEvent>,
    block_number: u64,
) -> Seq<Observation>
    decreases events.len(),
{
    if events.len() == 0 {
        Seq::empty()
    } else {
        let earlier = translated_observations(translator, events.drop_last(), block_number);
        match translator.translation(events.last()) {
            Some(e) => earlier.push(Observation::NewEvent(e, block_number)),
            None => earlier,
        }
    }
}

/// The request that opens a subscription.
pub fn connect_request(indexer_id: &IndexerId) -> (r: ConnectIndexerRequest)
    ensures
        r@ == Some(SentRequest::Connect(indexer_id.value@)),
{
    ConnectIndexerRequest {
        message: Some(RequestMessage::Connect { id: indexer_id.to_string() }),
    }
}

/// The request that acknowledges a block.
pub fn ack_block(block_hash: &BlockHash) -> (r: ConnectIndexerRequest)
    ensures
        r@ == Some(SentRequest::Ack(block_hash.bytes@)),
{
    ConnectIndexerRequest { message: Some(RequestMessage::Ack { hash: block_hash.to_bytes() }) }
}

/// Sends one request; a failure of the channel is a `Send` error.
pub fn send<S: RequestSender>(sender: &mut S, request: ConnectIndexerRequest) -> (r: Result<
    (),
    IndexingServiceError,
>)
    ensures
        r is Ok ==> final(sender).sent() == old(sender).sent().push(request@),
        r is Err ==> final(sender).sent() == old(sender).sent() && r->Err_0 is Send,
        final(sender).accepts() == old(sender).accepts(),
        old(sender).accepts() ==> r is Ok,
{
    match sender.send(request) {
        Ok(()) => Ok(()),
        Err(e) => Err(IndexingServiceError::Send(e)),
    }
}

pub fn send_connect_request<S: RequestSender>(sender: &mut S, indexer_id: &IndexerId) -> (r: Result<
    (),
    IndexingServiceError,
>)
    ensures
        r is Ok ==> final(sender).sent() == old(sender).sent().push(
            Some(SentRequest::Connect(indexer_id.value@)),
        ),
        r is Err ==> final(sender).sent() == old(sender).sent() && r->Err_0 is Send,
        final(sender).accepts() == old(sender).accepts(),
        old(sender).accepts() ==> r is Ok,
{
    send(sender, connect_request(indexer_id))
}

pub fn send_ack_request<S: RequestSender>(sender: &mut S, block_hash: &BlockHash) -> (r: Result<
    (),
    IndexingServiceError,
>)
    ensures
        r is Ok ==> final(sender).sent() == old(sender).sent().push(
            Some(SentRequest::Ack(block_hash.bytes@)),
        ),
        r is Err ==> final(sender).sent() == old(sender).sent() && r->Err_0 is Send,
        final(sender).accepts() == old(sender).accepts(),
        old(sender).accepts() ==> r is Ok,
{
    send(sender, ack_block(block_hash))
}

/// What handling one response leaves: the notifications the observer got,
/// the requests sent and the result. `Connected`, `NewBlock` and `Reorg`
/// each make one notification; `NewEvents` of a block notifies each event
/// that `translator` translates, in order, then acknowledges the block
/// whatever the translations gave; anything else, such as a message with no
/// payload, does nothing. The only failure is an acknowledgment the channel
/// refused, and a channel that accepts never refuses one.
pub open spec fn response_outcome<T: EventTranslator>(
    translator: &T,
    message: Option<ResponseMessage>,
    seen_before: Seq<Observation>,
    seen_after: Seq<Observation>,
    sent_before: Seq<Option<SentRequest>>,
    sent_after: Seq<Option<SentRequest>>,
    accepts: bool,
    r: Result<(), IndexingServiceError>,
) -> bool {
    match message {
        Some(ResponseMessage::Connected { indexer: Some(indexer) }) => r is Ok && sent_after
            == sent_before && seen_after == seen_before.push(Observation::Connected(indexer.id@)),
        Some(ResponseMessage::NewBlock { new_head: Some(head) }) => r is Ok && sent_after
            == sent_before && seen_after == seen_before.push(
            Observation::NewBlock(head.hash@, head.number),
        ),
        Some(ResponseMessage::Reorg) => r is Ok && sent_after == sent_before && seen_after
            == seen_before.push(Observation::Reorg),
        Some(ResponseMessage::NewEvents { block: Some(block), events }) => {
            &&& seen_after == seen_before + translated_observations(translator, events@, block.number)
            &&& r is Ok ==> sent_after == sent_before.push(Some(SentRequest::Ack(block.hash@)))
            &&& r is Err ==> sent_after == sent_before && r->Err_0 is Send
            &&& accepts ==> r is Ok
        },
        _ => r is Ok && sent_after == sent_before && seen_after == seen_before,
    }
}

/// Translates each event of a block and notifies the observer of each one
/// that translates, in order.
fn dispatch_events<T: EventTranslator, O: BlockchainObserver>(
    events: &Vec<RawEvent>,
    block_number: u64,
    translator: &T,
    observer: &mut O,
)
    ensures
        final(observer).observations() == old(observer).observations() + translated_observations(
            translator,
            events@,
            block_number,
        ),
{
    let ghost before = observer.observations();
    let mut i: usize = 0;
    while i < events.len()
        invariant
            0 <= i <= events@.len(),
            before == old(observer).observations(),
            observer.observations() == before + translated_observations(
                translator,
                events@.subrange(0, i as int),
                block_number,
            ),
        decreases events@.len() - i,
    {
        let t = translator.translate(&events[i]);
        proof {
            assert(events@.subrange(0, i + 1).drop_last() =~= events@.subrange(0, i as int));
            assert(events@.subrange(0, i + 1).last() == events@[i as int]);
        }
        match t {
            Some(e) => {
                observer.on_new_event(&e, block_number);
            },
            None => {},
        }
        i = i + 1;
        proof {
            assert(observer.observations() =~= before + translated_observations(
                translator,
                events@.subrange(0, i as int),
                block_number,
            ));
        }
    }
    proof {
        assert(events@.subrange(0, events@.len() as int) =~= events@);
    }
}

/// Handles one response of the indexing service: notifies the observer and,
/// for the events of a block, acknowledges the block once all of them were
/// dispatched. Fails only when the acknowledgment cannot be sent.
pub fn handle_response<S: RequestSender, T: EventTranslator, O: BlockchainObserver>(
    response: ConnectIndexerResponse,
    sender: &mut S,
    translator: &T,
    observer: &mut O,
) -> (r: Result<(), IndexingServiceError>)
    ensures
        response_outcome(
            translator,
            response.message,
            old(observer).observations(),
            final(observer).observations(),
            old(sender).sent(),
            final(sender).sent(),
            old(sender).accepts(),
            r,
        ),
        final(sender).accepts() == old(sender).accepts(),
{
    match response.message {
        Some(ResponseMessage::Connected { indexer: Some(indexer) }) => {
            observer.on_connect(&IndexerId::new(indexer.id));
            Ok(())
        },
        Some(ResponseMessage::NewBlock { new_head: Some(head) }) => {
            let block_hash = BlockHash::new(head.hash);
            observer.on_new_block(&block_hash, head.number);
            Ok(())
        },
        Some(ResponseMessage::Reorg) => {
            observer.on_reorg();
            Ok(())
        },
        Some(ResponseMessage::NewEvents { block: Some(block), events }) => {
            dispatch_events(&events, block.number, translator, observer);
            send_ack_request(sender, &BlockHash::new(block.hash))
        },
        _ => Ok(()),
    }
}

/// One turn of the receive loop: a transport failure ends the loop with a
/// `Receive` error; an empty turn does nothing; a response is handled.
/// `Ok` means the loop goes on.
pub fn handle_message<S: RequestSender, T: EventTranslator, O: BlockchainObserver>(
    received: Result<Option<ConnectIndexerResponse>, String>,
    sender: &mut S,
    translator: &T,
    observer: &mut O,
) -> (r: Result<(), IndexingServiceError>)
    ensures
        final(sender).accepts() == old(sender).accepts(),
        match received {
            Err(e) => r == Err::<(), IndexingServiceError>(IndexingServiceError::Receive(e))
                && final(sender).sent() == old(sender).sent()
                && final(observer).observations() == old(observer).observations(),
            Ok(None) => r is Ok && final(sender).sent() == old(sender).sent()
                && final(observer).observations() == old(observer).observations(),
            Ok(Some(response)) => response_outcome(
                translator,
                response.message,
                old(observer).observations(),
                final(observer).observations(),
                old(sender).sent(),
                final(sender).sent(),
                old(sender).accepts(),
                r,
            ),
        },
{
    match received {
        Err(e) => Err(IndexingServiceError::Receive(e)),
        Ok(None) => Ok(()),
        Ok(Some(response)) => handle_response(response, sender, translator, observer),
    }
}

} // verus!
