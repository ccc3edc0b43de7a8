//! Ingestion of market-event records from a publish/subscribe channel into
//! date- and topic-partitioned JSON-lines files.
//!
//! The crate holds the decisions of the pipeline: channel naming and topic
//! decomposition, the per-topic file rotation state machine and the storage
//! dispatcher that routes each record. Reading the network and writing files
//! is left to the caller, which carries out the actions the library returns.

mod record;
mod request;
mod rotation;
mod storage;
mod topic;

pub use record::{
    compact_json_of, decoded_from, json_i64_member, json_parses, json_str_member, opt_view, reader_step,
    MarketData, ReaderAction, ReaderEvent,
};
pub use request::{control_channel_name, Settings, SubscriptionRequest};
pub use rotation::{
    day_number, day_of, file_for, file_path, lemma_rotation_by_day, on_day, representable, rotated, utc_day_stamp_of,
    FileRotator, FileTarget, StorageError, MILLIS_PER_DAY,
};
pub use storage::{lemma_channel_topic_dir, lemma_failed_open_restores, lemma_same_topic_rotation, store_error, timestamp_of, topic_dir, StoreAction, StorageService};
pub use topic::{
    channel_name, join_colon, lemma_channel_topic_inverse, no_colon, split_colon, split_topic,
};
