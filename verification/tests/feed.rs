//! The feed state machine: recovery policy, token bookkeeping, and the
//! end-to-end scenarios of consuming a feed.

use change_feed::change_stream::{ChangeStream, FetchDisposition, decode_payload};
use change_feed::common::{ReadMode, ReadPreference};
use change_feed::document::{Bson, Document, Timestamp};
use change_feed::error::{Error, ERR_CURSOR_KILLED, ERR_INTERRUPTED, ERR_CAPPED_POSITION_LOST};

fn token(name: &str) -> Document {
    let mut d = Document::new();
    d.insert("_data".to_string(), Bson::String(name.to_string()));
    d
}

fn notification(tok: &str) -> Document {
    let mut d = Document::new();
    d.insert("_id".to_string(), Bson::Document(token(tok)));
    d.insert("operationType".to_string(), Bson::String("insert".to_string()));
    d
}

/// A payload document carrying the given batch and optional checkpoint.
fn payload(batch: Vec<Document>, pbrt: Option<Document>) -> Document {
    let mut cursor = Document::new();
    cursor.insert("namespace".to_string(), Bson::String("db.coll".to_string()));
    cursor.insert("cursorId".to_string(), Bson::I64(77));
    cursor.insert(
        "firstBatch".to_string(),
        Bson::Array(batch.into_iter().map(Bson::Document).collect()),
    );
    if let Some(t) = pbrt {
        cursor.insert("postBatchResumeToken".to_string(), Bson::Document(t));
    }
    let mut d = Document::new();
    d.insert("cursor".to_string(), Bson::Document(cursor));
    d.insert("operationTime".to_string(), Bson::TimeStamp(Timestamp { t: 5, i: 1 }));
    d.insert("clusterTime".to_string(), Bson::Document(Document::new()));
    d
}

fn fresh_feed() -> ChangeStream {
    let prefs = ReadPreference::new(ReadMode::Primary, None);
    let (feed, _cmd) = ChangeStream::watch_coll("coll".to_string(), None, None, prefs);
    feed
}

/// A feed that has survived its first fetch, with an empty buffer.
fn streaming_feed(pbrt: Option<Document>) -> ChangeStream {
    let mut feed = fresh_feed();
    match feed.handle_fetch(Some(Ok(payload(vec![notification("t0")], pbrt)))) {
        FetchDisposition::Filled => {}
        other => panic!("expected a filled buffer: {:?}", other),
    }
    assert!(feed.pop_front().is_some());
    feed
}

fn stage_resume_after(cmd: &Document) -> Option<&Bson> {
    let stages = match cmd.get(&"pipeline".to_string()) {
        Some(Bson::Array(stages)) => stages,
        other => panic!("no pipeline: {:?}", other),
    };
    let stage = match &stages[0] {
        Bson::Document(stage) => stage,
        other => panic!("no feed stage: {:?}", other),
    };
    match stage.get(&"$changeFeed".to_string()) {
        Some(Bson::Document(opts)) => opts.get(&"resumeAfter".to_string()),
        other => panic!("no feed options: {:?}", other),
    }
}

#[test]
fn initial_command_shape() {
    let prefs = ReadPreference::new(ReadMode::Primary, None);
    let (_feed, cmd) = ChangeStream::watch_coll("coll".to_string(), None, None, prefs);
    assert_eq!(
        cmd.get(&"aggregate".to_string()),
        Some(&Bson::String("coll".to_string()))
    );
    assert!(matches!(cmd.get(&"pipeline".to_string()), Some(Bson::Array(_))));
    assert_eq!(
        cmd.get(&"cursor".to_string()),
        Some(&Bson::Document(Document::new()))
    );
    assert_eq!(stage_resume_after(&cmd), None);
}

#[test]
fn deployment_watch_targets_whole_cluster() {
    let prefs = ReadPreference::new(ReadMode::Primary, None);
    let (_feed, cmd) = ChangeStream::watch_deployment(None, None, prefs);
    assert_eq!(cmd.get(&"aggregate".to_string()), Some(&Bson::I32(1)));
    let stages = match cmd.get(&"pipeline".to_string()) {
        Some(Bson::Array(stages)) => stages,
        other => panic!("no pipeline: {:?}", other),
    };
    let stage = match &stages[0] {
        Bson::Document(stage) => stage,
        other => panic!("no feed stage: {:?}", other),
    };
    let opts = match stage.get(&"$changeFeed".to_string()) {
        Some(Bson::Document(opts)) => opts,
        other => panic!("no feed options: {:?}", other),
    };
    assert_eq!(
        opts.get(&"allChangesForCluster".to_string()),
        Some(&Bson::Boolean(true))
    );
}

#[test]
fn no_retry_before_first_fetch() {
    let mut feed = fresh_feed();
    let err = Error::NetworkError("connection reset".to_string());
    match feed.handle_fetch(Some(Err(err))) {
        FetchDisposition::Failed(e) => {
            assert_eq!(e, Error::NetworkError("connection reset".to_string()));
        }
        other => panic!("expected the error to propagate: {:?}", other),
    }
}

#[test]
fn network_error_retried_exactly_once() {
    let mut feed = streaming_feed(None);
    let err = Error::NetworkError("connection reset".to_string());
    match feed.handle_fetch(Some(Err(err))) {
        FetchDisposition::Retry(_cmd) => {}
        other => panic!("expected one rebuilt cursor: {:?}", other),
    }
    let second = Error::NetworkError("still down".to_string());
    match feed.handle_retry_fetch(Some(Err(second))) {
        FetchDisposition::Failed(e) => {
            assert_eq!(e, Error::NetworkError("still down".to_string()));
        }
        other => panic!("expected the second failure to propagate: {:?}", other),
    }
}

#[test]
fn denylisted_server_errors_propagate() {
    for code in [ERR_INTERRUPTED, ERR_CAPPED_POSITION_LOST, ERR_CURSOR_KILLED] {
        let mut feed = streaming_feed(None);
        match feed.handle_fetch(Some(Err(Error::ServerError(code)))) {
            FetchDisposition::Failed(e) => assert_eq!(e, Error::ServerError(code)),
            other => panic!("expected the error to propagate: {:?}", other),
        }
    }
}

#[test]
fn other_server_errors_are_retried() {
    let mut feed = streaming_feed(None);
    match feed.handle_fetch(Some(Err(Error::ServerError(50)))) {
        FetchDisposition::Retry(_) => {}
        other => panic!("expected a rebuild: {:?}", other),
    }
}

#[test]
fn resume_token_prefers_checkpoint_on_empty_buffer() {
    let feed = streaming_feed(Some(token("pb")));
    assert_eq!(feed.get_resume_token(), Some(token("pb")));
}

#[test]
fn resume_token_is_last_yielded_id_while_buffered() {
    let mut feed = fresh_feed();
    let batch = vec![notification("t1"), notification("t2")];
    match feed.handle_fetch(Some(Ok(payload(batch, Some(token("pb")))))) {
        FetchDisposition::Filled => {}
        other => panic!("expected a filled buffer: {:?}", other),
    }
    assert!(feed.pop_front().is_some());
    assert_eq!(feed.get_resume_token(), Some(token("t1")));
}

#[test]
fn scenario_two_items_then_checkpoint() {
    let mut feed = fresh_feed();
    let batch = vec![notification("t1"), notification("t2")];
    match feed.handle_fetch(Some(Ok(payload(batch, Some(token("p1")))))) {
        FetchDisposition::Filled => {}
        other => panic!("expected a filled buffer: {:?}", other),
    }
    let a = feed.pop_front().expect("first item");
    assert_eq!(a.id, token("t1"));
    assert_eq!(feed.get_resume_token(), Some(token("t1")));
    let b = feed.pop_front().expect("second item");
    assert_eq!(b.id, token("t2"));
    assert_eq!(feed.get_resume_token(), Some(token("p1")));
    assert!(feed.pop_front().is_none());
}

#[test]
fn scenario_transparent_resume_after_network_error() {
    let mut feed = fresh_feed();
    match feed.handle_fetch(Some(Ok(payload(vec![notification("t1")], None)))) {
        FetchDisposition::Filled => {}
        other => panic!("expected a filled buffer: {:?}", other),
    }
    let a = feed.pop_front().expect("first item");
    assert_eq!(a.id, token("t1"));
    let cmd = match feed.handle_fetch(Some(Err(Error::NetworkError("reset".to_string())))) {
        FetchDisposition::Retry(cmd) => cmd,
        other => panic!("expected a rebuild: {:?}", other),
    };
    // The rebuilt query resumes right after the last yielded item.
    assert_eq!(stage_resume_after(&cmd), Some(&Bson::Document(token("t1"))));
    // The fetch on the rebuilt cursor succeeds: the caller sees no error.
    match feed.handle_retry_fetch(Some(Ok(payload(vec![notification("t2")], None)))) {
        FetchDisposition::Filled => {}
        other => panic!("expected a filled buffer: {:?}", other),
    }
    let b = feed.pop_front().expect("next item");
    assert_eq!(b.id, token("t2"));
}

#[test]
fn scenario_cursor_killed_propagates_unchanged() {
    let mut feed = streaming_feed(None);
    match feed.handle_fetch(Some(Err(Error::ServerError(ERR_CURSOR_KILLED)))) {
        FetchDisposition::Failed(e) => assert_eq!(e, Error::ServerError(ERR_CURSOR_KILLED)),
        other => panic!("expected the error to propagate unchanged: {:?}", other),
    }
}

#[test]
fn nothing_available_is_not_an_error() {
    let mut feed = fresh_feed();
    match feed.handle_fetch(None) {
        FetchDisposition::NoMore => {}
        other => panic!("expected a quiet outcome: {:?}", other),
    }
    assert!(feed.pop_front().is_none());
}

#[test]
fn stripped_token_is_a_configuration_error() {
    let mut bad = Document::new();
    bad.insert("operationType".to_string(), Bson::String("insert".to_string()));
    let mut feed = fresh_feed();
    match feed.handle_fetch(Some(Ok(payload(vec![bad], None)))) {
        FetchDisposition::Failed(Error::ConfigurationError(_)) => {}
        other => panic!("expected a configuration error: {:?}", other),
    }
}

#[test]
fn decode_reads_whole_payload() {
    let p = decode_payload(&payload(vec![notification("t1")], Some(token("pb"))))
        .expect("a well-formed payload");
    assert_eq!(p.cursor.ns, "db.coll".to_string());
    assert_eq!(p.cursor.id, 77);
    assert_eq!(p.cursor.batch.len(), 1);
    assert_eq!(p.cursor.batch[0].id, token("t1"));
    assert_eq!(p.cursor.post_batch_resume_token, Some(token("pb")));
    assert_eq!(p.operation_time, Timestamp { t: 5, i: 1 });
}

#[test]
fn decode_accepts_next_batch_key() {
    let mut cursor = Document::new();
    cursor.insert("namespace".to_string(), Bson::String("db.coll".to_string()));
    cursor.insert("cursorId".to_string(), Bson::I64(1));
    cursor.insert(
        "nextBatch".to_string(),
        Bson::Array(vec![Bson::Document(notification("t9"))]),
    );
    let mut d = Document::new();
    d.insert("cursor".to_string(), Bson::Document(cursor));
    d.insert("operationTime".to_string(), Bson::TimeStamp(Timestamp { t: 1, i: 0 }));
    d.insert("clusterTime".to_string(), Bson::Document(Document::new()));
    let p = decode_payload(&d).expect("a well-formed payload");
    assert_eq!(p.cursor.batch[0].id, token("t9"));
}

#[test]
fn decode_rejects_malformed_cursor() {
    let mut d = Document::new();
    d.insert("cursor".to_string(), Bson::I32(1));
    d.insert("operationTime".to_string(), Bson::TimeStamp(Timestamp { t: 1, i: 0 }));
    d.insert("clusterTime".to_string(), Bson::Document(Document::new()));
    assert!(decode_payload(&d).is_err());
}
