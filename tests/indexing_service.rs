use marketplace::contribution::{ContributionId, Event};
use marketplace::indexer::{
    handle_message, handle_response, send_connect_request, BlockHash, BlockHeader,
    ConnectIndexerRequest, ConnectIndexerResponse, EventTranslator, Indexer, IndexerId,
    IndexingServiceError, RawEvent, RequestMessage, RequestSender, ResponseMessage, StarkNetEvent,
};
use marketplace::recording::{ObserverCall, RecordingObserver, RequestQueue};

/// Reads any StarkNet event as the validation of the contribution whose id is
/// its log index; an empty raw event does not translate.
struct LogIndexTranslator;

impl EventTranslator for LogIndexTranslator {
    fn translate(&self, event: &RawEvent) -> Option<Event> {
        event
            .event
            .as_ref()
            .map(|e| Event::Validated { id: ContributionId::from_u128(e.log_index as u128) })
    }
}

/// A channel whose receiving end is gone.
struct ClosedChannel;

impl RequestSender for ClosedChannel {
    fn send(&mut self, _request: ConnectIndexerRequest) -> Result<(), String> {
        Err(String::from("channel closed"))
    }
}

fn indexer_id() -> IndexerId {
    IndexerId::new(String::from("ID"))
}

fn block_hash() -> BlockHash {
    BlockHash::new(vec![12])
}

fn block_number() -> u64 {
    123456
}

fn starknet_event(log_index: u64) -> RawEvent {
    RawEvent {
        event: Some(StarkNetEvent {
            topics: vec![vec![1, 2, 3]],
            data: vec![vec![0; 32], vec![0, 0, 0, 203]],
            address: vec![42, 42, 42],
            transaction_hash: vec![100, 0, 100],
            log_index,
        }),
    }
}

fn ack(hash: Vec<u8>) -> ConnectIndexerRequest {
    ConnectIndexerRequest { message: Some(RequestMessage::Ack { hash }) }
}

#[test]
fn can_send_a_connect_request() {
    let mut channel = RequestQueue::new();
    send_connect_request(&mut channel, &indexer_id()).unwrap();
    assert_eq!(
        channel.requests()[0].message,
        Some(RequestMessage::Connect { id: indexer_id().to_string() })
    );
}

#[test]
fn can_handle_a_connect_response() {
    let mut channel = RequestQueue::new();
    let mut observer = RecordingObserver::new();
    let response = ConnectIndexerResponse {
        message: Some(ResponseMessage::Connected {
            indexer: Some(Indexer { id: indexer_id().to_string() }),
        }),
    };
    let result = handle_response(response, &mut channel, &LogIndexTranslator, &mut observer);
    assert!(result.is_ok());
    assert!(channel.requests().is_empty());
    assert_eq!(observer.calls(), &vec![ObserverCall::Connected(indexer_id())]);
}

#[test]
fn can_handle_a_new_block_response() {
    let mut channel = RequestQueue::new();
    let mut observer = RecordingObserver::new();
    let response = ConnectIndexerResponse {
        message: Some(ResponseMessage::NewBlock {
            new_head: Some(BlockHeader { hash: block_hash().to_bytes(), number: block_number() }),
        }),
    };
    let result = handle_response(response, &mut channel, &LogIndexTranslator, &mut observer);
    assert!(result.is_ok());
    assert!(channel.requests().is_empty());
    assert_eq!(observer.calls(), &vec![ObserverCall::NewBlock(block_hash(), block_number())]);
}

#[test]
fn can_handle_a_new_events_response() {
    let mut channel = RequestQueue::new();
    let mut observer = RecordingObserver::new();
    let response = ConnectIndexerResponse {
        message: Some(ResponseMessage::NewEvents {
            block: Some(BlockHeader { hash: block_hash().to_bytes(), number: block_number() }),
            events: vec![starknet_event(1), starknet_event(1), RawEvent::default()],
        }),
    };
    let result = handle_response(response, &mut channel, &LogIndexTranslator, &mut observer);
    assert!(result.is_ok());
    assert_eq!(observer.calls().len(), 2);
    assert_eq!(channel.requests(), &vec![ack(block_hash().to_bytes())]);
}

#[test]
fn can_handle_a_new_reorg_response() {
    let mut channel = RequestQueue::new();
    let mut observer = RecordingObserver::new();
    let response = ConnectIndexerResponse { message: Some(ResponseMessage::Reorg) };
    let result = handle_response(response, &mut channel, &LogIndexTranslator, &mut observer);
    assert!(result.is_ok());
    assert!(channel.requests().is_empty());
    assert_eq!(observer.calls(), &vec![ObserverCall::Reorg]);
}

#[test]
fn can_handle_an_empty_response() {
    let mut channel = RequestQueue::new();
    let mut observer = RecordingObserver::new();
    let response = ConnectIndexerResponse { message: None };
    let result = handle_response(response, &mut channel, &LogIndexTranslator, &mut observer);
    assert!(result.is_ok());
    assert!(channel.requests().is_empty());
    assert!(observer.calls().is_empty());
}

#[test]
fn full_sequence_notifies_in_order_and_acks_after_events() {
    let mut channel = RequestQueue::new();
    let mut observer = RecordingObserver::new();
    send_connect_request(&mut channel, &indexer_id()).unwrap();
    let responses = vec![
        ResponseMessage::Connected { indexer: Some(Indexer { id: indexer_id().to_string() }) },
        ResponseMessage::NewBlock { new_head: Some(BlockHeader { hash: vec![1], number: 100 }) },
        ResponseMessage::NewEvents {
            block: Some(BlockHeader { hash: vec![2], number: 101 }),
            events: vec![starknet_event(1), starknet_event(2)],
        },
        ResponseMessage::Reorg,
    ];
    for message in responses {
        let r = handle_message(
            Ok(Some(ConnectIndexerResponse { message: Some(message) })),
            &mut channel,
            &LogIndexTranslator,
            &mut observer,
        );
        assert!(r.is_ok());
    }
    assert_eq!(
        observer.calls(),
        &vec![
            ObserverCall::Connected(indexer_id()),
            ObserverCall::NewBlock(BlockHash::new(vec![1]), 100),
            ObserverCall::NewEvent(Event::Validated { id: ContributionId::from_u128(1) }, 101),
            ObserverCall::NewEvent(Event::Validated { id: ContributionId::from_u128(2) }, 101),
            ObserverCall::Reorg,
        ]
    );
    assert_eq!(
        channel.requests(),
        &vec![
            ConnectIndexerRequest { message: Some(RequestMessage::Connect { id: String::from("ID") }) },
            ack(vec![2]),
        ]
    );
}

#[test]
fn untranslatable_event_is_dropped_and_block_still_acked() {
    let mut channel = RequestQueue::new();
    let mut observer = RecordingObserver::new();
    let response = ConnectIndexerResponse {
        message: Some(ResponseMessage::NewEvents {
            block: Some(BlockHeader { hash: vec![7, 7], number: 9 }),
            events: vec![RawEvent::default(), starknet_event(5)],
        }),
    };
    handle_response(response, &mut channel, &LogIndexTranslator, &mut observer).unwrap();
    assert_eq!(
        observer.calls(),
        &vec![ObserverCall::NewEvent(Event::Validated { id: ContributionId::from_u128(5) }, 9)]
    );
    assert_eq!(channel.requests(), &vec![ack(vec![7, 7])]);
}

#[test]
fn block_with_no_event_is_acked() {
    let mut channel = RequestQueue::new();
    let mut observer = RecordingObserver::new();
    let response = ConnectIndexerResponse {
        message: Some(ResponseMessage::NewEvents {
            block: Some(BlockHeader { hash: vec![3], number: 4 }),
            events: vec![],
        }),
    };
    handle_response(response, &mut channel, &LogIndexTranslator, &mut observer).unwrap();
    assert!(observer.calls().is_empty());
    assert_eq!(channel.requests(), &vec![ack(vec![3])]);
}

#[test]
fn empty_turns_keep_the_loop_going() {
    let mut channel = RequestQueue::new();
    let mut observer = RecordingObserver::new();
    let r = handle_message(Ok(None), &mut channel, &LogIndexTranslator, &mut observer);
    assert!(r.is_ok());
    let r = handle_message(
        Ok(Some(ConnectIndexerResponse { message: None })),
        &mut channel,
        &LogIndexTranslator,
        &mut observer,
    );
    assert!(r.is_ok());
    assert!(observer.calls().is_empty());
    assert!(channel.requests().is_empty());
}

#[test]
fn receive_failure_ends_the_loop() {
    let mut channel = RequestQueue::new();
    let mut observer = RecordingObserver::new();
    let r = handle_message(Err(String::from("reset")), &mut channel, &LogIndexTranslator, &mut observer);
    assert_eq!(r, Err(IndexingServiceError::Receive(String::from("reset"))));
}

#[test]
fn ack_that_cannot_be_sent_is_a_send_error() {
    let mut observer = RecordingObserver::new();
    let response = ConnectIndexerResponse {
        message: Some(ResponseMessage::NewEvents {
            block: Some(BlockHeader { hash: vec![3], number: 4 }),
            events: vec![starknet_event(8)],
        }),
    };
    let r = handle_response(response, &mut ClosedChannel, &LogIndexTranslator, &mut observer);
    assert_eq!(r, Err(IndexingServiceError::Send(String::from("channel closed"))));
    assert_eq!(observer.calls().len(), 1);
}

#[test]
fn responses_without_content_are_ignored() {
    let mut channel = RequestQueue::new();
    let mut observer = RecordingObserver::new();
    for message in vec![
        ResponseMessage::Connected { indexer: None },
        ResponseMessage::NewBlock { new_head: None },
        ResponseMessage::NewEvents { block: None, events: vec![starknet_event(1)] },
    ] {
        let r = handle_response(
            ConnectIndexerResponse { message: Some(message) },
            &mut channel,
            &LogIndexTranslator,
            &mut observer,
        );
        assert!(r.is_ok());
    }
    assert!(observer.calls().is_empty());
    assert!(channel.requests().is_empty());
}
