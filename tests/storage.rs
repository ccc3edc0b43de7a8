use data_collection_service::{
    day_number, reader_step, FileRotator, FileTarget, MarketData, ReaderAction, ReaderEvent, Settings,
    StorageError, StorageService, MILLIS_PER_DAY,
};

fn service() -> StorageService {
    StorageService::new(Settings {
        redis_url: "redis://127.0.0.1:6379".to_string(),
        exchange_name: "binance".to_string(),
        symbols: vec!["btcusdt".to_string()],
        market_type: "spot".to_string(),
        stream_type: "aggTrade".to_string(),
        log_directory: "data".to_string(),
    })
}

fn record(text: &str) -> MarketData {
    MarketData::decode(text).expect("test record is JSON")
}

const DIR: &str = "data/binance/spot/btcusdt/aggTrade";

fn open(path: &str) -> FileTarget {
    FileTarget::Open(path.to_string())
}

#[test]
fn store_single_record_goes_to_its_dated_file() {
    let mut s = service();
    let text = r#"{"topic":"binance:spot:btcusdt:aggTrade","exchTimestamp":1738310064660,"price":"104024.83"}"#;
    let data = record(text);
    let action = s.store(&data).unwrap();
    assert_eq!(action.create_dir, Some(DIR.to_string()));
    assert_eq!(action.target, open("data/binance/spot/btcusdt/aggTrade/20250131.jsonl"));
    let expected = serde_json::to_string(&serde_json::from_str::<serde_json::Value>(text).unwrap()).unwrap();
    assert_eq!(action.line, expected);
    assert!(!action.line.contains('\n'));
    assert_eq!(s.topics, vec!["binance:spot:btcusdt:aggTrade".to_string()]);
}

#[test]
fn store_across_midnight_opens_two_files() {
    let mut s = service();
    let a = s.store(&record(r#"{"topic":"binance:spot:btcusdt:aggTrade","exchTimestamp":1738367999999}"#)).unwrap();
    let b = s.store(&record(r#"{"topic":"binance:spot:btcusdt:aggTrade","exchTimestamp":1738368000000}"#)).unwrap();
    assert_eq!(a.target, open("data/binance/spot/btcusdt/aggTrade/20250131.jsonl"));
    assert_eq!(b.target, open("data/binance/spot/btcusdt/aggTrade/20250201.jsonl"));
    assert_eq!(b.create_dir, Some(DIR.to_string()));
    assert_eq!((a.rotator, b.rotator), (0, 0));
}

#[test]
fn store_same_day_reuses_open_file() {
    let mut s = service();
    s.store(&record(r#"{"topic":"binance:spot:btcusdt:aggTrade","exchTimestamp":1738310064660}"#)).unwrap();
    let b = s.store(&record(r#"{"topic":"binance:spot:btcusdt:aggTrade","exchTimestamp":1738310064661}"#)).unwrap();
    assert_eq!(b.target, FileTarget::Current);
    assert_eq!(b.create_dir, None);
    assert_eq!(s.topics.len(), 1);
}

#[test]
fn store_late_record_reopens_older_day() {
    let mut s = service();
    s.store(&record(r#"{"topic":"binance:spot:btcusdt:aggTrade","exchTimestamp":1738310064660}"#)).unwrap();
    s.store(&record(r#"{"topic":"binance:spot:btcusdt:aggTrade","exchTimestamp":1738368000000}"#)).unwrap();
    let c = s.store(&record(r#"{"topic":"binance:spot:btcusdt:aggTrade","exchTimestamp":1738310064000}"#)).unwrap();
    assert_eq!(c.target, open("data/binance/spot/btcusdt/aggTrade/20250131.jsonl"));
}

#[test]
fn store_bad_topic_is_refused() {
    let mut s = service();
    let r = s.store(&record(r#"{"topic":"badtopic","exchTimestamp":1738310064660}"#));
    assert_eq!(r.unwrap_err(), StorageError::InvalidTopicFormat);
    assert!(s.topics.is_empty());
    assert!(s.file_rotators.is_empty());
}

#[test]
fn store_five_segment_topic_is_refused() {
    let mut s = service();
    let r = s.store(&record(r#"{"topic":"a:b:c:d:e","exchTimestamp":1}"#));
    assert_eq!(r.unwrap_err(), StorageError::InvalidTopicFormat);
    assert!(s.topics.is_empty());
}

#[test]
fn store_without_timestamp_is_refused() {
    let mut s = service();
    let r = s.store(&record(r#"{"topic":"binance:spot:btcusdt:aggTrade","price":"1"}"#));
    assert_eq!(r.unwrap_err(), StorageError::MissingTimestamp);
    assert!(s.topics.is_empty());
}

#[test]
fn store_without_topic_is_refused() {
    let mut s = service();
    assert_eq!(s.store(&record(r#"{"exchTimestamp":1}"#)).unwrap_err(), StorageError::MissingTopic);
    assert_eq!(s.store(&record(r#"{"topic":5,"exchTimestamp":1}"#)).unwrap_err(), StorageError::MissingTopic);
    assert!(s.topics.is_empty());
}

#[test]
fn store_falls_back_to_local_timestamp() {
    let mut s = service();
    let a = s
        .store(&record(r#"{"topic":"binance:spot:btcusdt:aggTrade","exchTimestamp":"x","localTimestamp":1738368000000}"#))
        .unwrap();
    assert_eq!(a.target, open("data/binance/spot/btcusdt/aggTrade/20250201.jsonl"));
}

#[test]
fn store_prefers_exchange_timestamp() {
    let mut s = service();
    let a = s
        .store(&record(r#"{"topic":"binance:spot:btcusdt:aggTrade","exchTimestamp":0,"localTimestamp":1738368000000}"#))
        .unwrap();
    assert_eq!(a.target, open("data/binance/spot/btcusdt/aggTrade/19700101.jsonl"));
}

#[test]
fn store_unrepresentable_date_is_refused() {
    let mut s = service();
    let r = s.store(&record(r#"{"topic":"binance:spot:btcusdt:aggTrade","exchTimestamp":9223372036854775807}"#));
    assert_eq!(r.unwrap_err(), StorageError::InvalidTimestamp);
    assert!(s.topics.is_empty());
}

#[test]
fn store_topics_get_separate_rotators() {
    let mut s = service();
    let a = s.store(&record(r#"{"topic":"binance:spot:btcusdt:aggTrade","exchTimestamp":0}"#)).unwrap();
    let b = s.store(&record(r#"{"topic":"binance:spot:ethusdt:aggTrade","exchTimestamp":0}"#)).unwrap();
    assert_eq!(a.target, open("data/binance/spot/btcusdt/aggTrade/19700101.jsonl"));
    assert_eq!(b.target, open("data/binance/spot/ethusdt/aggTrade/19700101.jsonl"));
    assert_eq!(b.create_dir, Some("data/binance/spot/ethusdt/aggTrade".to_string()));
    assert_eq!(s.topics.len(), 2);
    assert_eq!((a.rotator, b.rotator), (0, 1));
    let c = s.store(&record(r#"{"topic":"binance:spot:btcusdt:aggTrade","exchTimestamp":1}"#)).unwrap();
    assert_eq!((c.rotator, c.target), (0, FileTarget::Current));
}

#[test]
fn store_fields_checks_topic_before_timestamp() {
    let mut s = service();
    assert_eq!(s.store_fields(None, None, None, String::new()).unwrap_err(), StorageError::MissingTopic);
    assert_eq!(
        s.store_fields(Some("x".to_string()), None, None, String::new()).unwrap_err(),
        StorageError::InvalidTopicFormat
    );
    let a = s.store_fields(Some("a:b:c:d".to_string()), None, Some(86_400_000), "{}".to_string()).unwrap();
    assert_eq!(a.target, open("data/a/b/c/d/19700102.jsonl"));
    assert_eq!(a.line, "{}");
}

#[test]
fn rotator_switches_by_day() {
    let mut r = FileRotator::new("logs".to_string());
    assert_eq!(r.get_current_file(-1).unwrap(), open("logs/19691231.jsonl"));
    assert_eq!(r.current_day, Some(-1));
    assert_eq!(r.get_current_file(-86_400_000).unwrap(), FileTarget::Current);
    assert_eq!(r.get_current_file(0).unwrap(), open("logs/19700101.jsonl"));
    assert_eq!(r.open_for_day(3, "x"), open("logs/x.jsonl"));
    assert_eq!(r.current_day, Some(3));
}

#[test]
fn day_number_rounds_down() {
    assert_eq!(day_number(0), 0);
    assert_eq!(day_number(-1), -1);
    assert_eq!(day_number(MILLIS_PER_DAY - 1), 0);
    assert_eq!(day_number(MILLIS_PER_DAY), 1);
    assert_eq!(day_number(1738310064660), 20119);
}

#[test]
fn malformed_payload_does_not_stop_the_reader() {
    assert!(matches!(reader_step(ReaderEvent::Payload("{not json".to_string())), ReaderAction::Skip));
    assert!(matches!(reader_step(ReaderEvent::Payload(String::new())), ReaderAction::Skip));
    match reader_step(ReaderEvent::Payload(r#"{"topic":"a:b:c:d","localTimestamp":1}"#.to_string())) {
        ReaderAction::Forward(d) => assert_eq!(d.local_timestamp, Some(1)),
        other => panic!("expected a record, got {:?}", other),
    }
    assert!(matches!(reader_step(ReaderEvent::StreamEnded), ReaderAction::Stop));
    assert!(matches!(reader_step(ReaderEvent::ConsumerGone), ReaderAction::Stop));
}

#[test]
fn record_fields_are_read() {
    let d = record(r#"{"topic":"a:b:c:d","exchTimestamp":-5,"localTimestamp":"7","big":18446744073709551615}"#);
    assert_eq!(d.topic, Some("a:b:c:d".to_string()));
    assert_eq!(d.exch_timestamp, Some(-5));
    assert_eq!(d.local_timestamp, None);
    assert!(d.line.contains("18446744073709551615"));
    let one = record(r#"{ "k" : [1, 2], "s": "a\nb" }"#);
    assert_eq!(one.line, r#"{"k":[1,2],"s":"a\nb"}"#);
    assert!(!one.line.contains('\n'));
    assert_eq!(one.topic, None);
    assert_eq!(one.exch_timestamp, None);
    assert!(MarketData::decode("{").is_none());
    assert!(record("[1]").topic.is_none());
}

#[test]
fn open_failure_restores_the_previous_file() {
    let mut s = service();
    s.store(&record(r#"{"topic":"binance:spot:btcusdt:aggTrade","exchTimestamp":1738310064660}"#)).unwrap();
    let b = s.store(&record(r#"{"topic":"binance:spot:btcusdt:aggTrade","exchTimestamp":1738368000000}"#)).unwrap();
    assert_eq!(b.previous_day, Some(20119));
    s.open_failed(&b);
    assert_eq!(s.file_rotators[0].current_day, Some(20119));
    let c = s.store(&record(r#"{"topic":"binance:spot:btcusdt:aggTrade","exchTimestamp":1738310064661}"#)).unwrap();
    assert_eq!(c.target, FileTarget::Current);
    let d = s.store(&record(r#"{"topic":"binance:spot:btcusdt:aggTrade","exchTimestamp":1738368000001}"#)).unwrap();
    assert_eq!(d.target, open("data/binance/spot/btcusdt/aggTrade/20250201.jsonl"));
    assert_eq!(d.create_dir, Some(DIR.to_string()));
}

#[test]
fn open_failure_of_a_new_topic_leaves_no_file_open() {
    let mut s = service();
    let a = s.store(&record(r#"{"topic":"binance:spot:btcusdt:aggTrade","exchTimestamp":0}"#)).unwrap();
    assert_eq!(a.previous_day, None);
    s.open_failed(&a);
    assert_eq!(s.file_rotators[0].current_day, None);
    let b = s.store(&record(r#"{"topic":"binance:spot:btcusdt:aggTrade","exchTimestamp":0}"#)).unwrap();
    assert_eq!(b.target, open("data/binance/spot/btcusdt/aggTrade/19700101.jsonl"));
    assert_eq!(b.create_dir, Some(DIR.to_string()));
}

#[test]
fn store_widest_representable_timestamps() {
    let mut s = service();
    assert!(s.store(&record(r#"{"topic":"a:b:c:d","exchTimestamp":8000000000000000}"#)).is_ok());
    assert!(s.store(&record(r#"{"topic":"a:b:c:d","exchTimestamp":-8000000000000000}"#)).is_ok());
}
