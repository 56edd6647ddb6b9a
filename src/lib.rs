//! Event-sourced contribution lifecycle: the contribution event model and its
//! aggregate replay, the application read model and its projector, and the
//! decision logic of the blockchain indexing client.

pub mod contributor;
pub mod contribution;
pub mod event_store;
pub mod application;
pub mod in_memory;
pub mod projector;
pub mod projection_lemmas;
pub mod indexer;
pub mod recording;
pub mod dto;
pub mod validate;
pub mod problem;
pub mod issue_labels;
