//! Configuration values, standalone commands, the notification model, and
//! the pool state machine.

use change_feed::change_stream::{ChangeStreamOperationType, ChangeStreamOptions};
use change_feed::command::{Command, DatabaseCommand};
use change_feed::common::{
    merge_options, ReadConcern, ReadConcernLevel, ReadMode, ReadPreference, WriteConcern,
};
use change_feed::document::{Bson, Document};
use change_feed::error::Error;
use change_feed::pool::{AcquireDecision, Pool};
use change_feed::wire_protocol::{Message, OpCode};

fn doc(entries: Vec<(&str, Bson)>) -> Document {
    let mut d = Document::new();
    for (k, v) in entries {
        d.insert(k.to_string(), v);
    }
    d
}

#[test]
fn read_concern_document() {
    let rc = ReadConcern::new(ReadConcernLevel::Majority);
    assert_eq!(
        rc.to_document(),
        doc(vec![("level", Bson::String("majority".to_string()))])
    );
}

#[test]
fn read_concern_level_names_round_trip() {
    for level in [
        ReadConcernLevel::Local,
        ReadConcernLevel::Available,
        ReadConcernLevel::Majority,
        ReadConcernLevel::Linearizable,
        ReadConcernLevel::Snapshot,
    ] {
        assert_eq!(ReadConcernLevel::from_str(level.to_str()).unwrap(), level);
    }
    assert!(matches!(
        ReadConcernLevel::from_str("bogus"),
        Err(Error::ArgumentError(_))
    ));
}

#[test]
fn read_mode_from_str() {
    assert_eq!(ReadMode::from_str("Primary").unwrap(), ReadMode::Primary);
    assert_eq!(ReadMode::from_str("Nearest").unwrap(), ReadMode::Nearest);
    assert!(matches!(ReadMode::from_str("primary"), Err(Error::ArgumentError(_))));
}

#[test]
fn read_preference_document() {
    let prefs = ReadPreference::new(
        ReadMode::SecondaryPreferred,
        Some(vec![vec![("dc".to_string(), "east".to_string())]]),
    );
    let d = prefs.to_document();
    assert_eq!(
        d.get(&"mode".to_string()),
        Some(&Bson::String("secondaryPreferred".to_string()))
    );
    assert_eq!(
        d.get(&"tag_sets".to_string()),
        Some(&Bson::Array(vec![Bson::Document(doc(vec![(
            "dc",
            Bson::String("east".to_string())
        )]))]))
    );
}

#[test]
fn write_concern_defaults_and_document() {
    let wc = WriteConcern::new();
    assert_eq!(wc, WriteConcern::default());
    assert_eq!(wc.w, 1);
    assert_eq!(wc.w_timeout, 0);
    assert!(!wc.j);
    assert!(!wc.fsync);
    assert_eq!(
        wc.to_bson(),
        doc(vec![
            ("w", Bson::I32(1)),
            ("wtimeout", Bson::I32(0)),
            ("j", Bson::Boolean(false)),
        ])
    );
}

#[test]
fn merge_options_overrides_and_appends() {
    let base = doc(vec![("a", Bson::I32(1)), ("b", Bson::I32(2))]);
    let extra = doc(vec![("b", Bson::I32(9)), ("c", Bson::I32(3))]);
    assert_eq!(
        merge_options(base, extra),
        doc(vec![("a", Bson::I32(1)), ("b", Bson::I32(9)), ("c", Bson::I32(3))])
    );
}

#[test]
fn options_default_fields() {
    let o = ChangeStreamOptions::new();
    assert_eq!(o, ChangeStreamOptions::default());
    assert!(o.resume_after.is_none());
    assert!(o.start_after.is_none());
    assert!(o.start_at_operation_time.is_none());
    assert!(o.max_await.is_none());
    assert!(o.batch_size.is_none());
    assert!(o.collation.is_none());
}

#[test]
fn operation_type_wire_names() {
    assert_eq!(
        ChangeStreamOperationType::from_wire_name("insert".to_string()),
        ChangeStreamOperationType::Insert
    );
    assert_eq!(
        ChangeStreamOperationType::from_wire_name("dropDatabase".to_string()),
        ChangeStreamOperationType::DropDatabase
    );
    assert_eq!(
        ChangeStreamOperationType::from_wire_name("shardCollection".to_string()),
        ChangeStreamOperationType::Other("shardCollection".to_string())
    );
}

#[test]
fn command_databases() {
    assert!(!DatabaseCommand::IsMaster.is_admin());
    assert!(DatabaseCommand::ListDatabases.is_admin());
    let c = Command::new(7, DatabaseCommand::IsMaster);
    assert_eq!(c.get_database_string(), "local".to_string());
    let c = Command::new(8, DatabaseCommand::ListDatabases);
    assert_eq!(c.get_database_string(), "admin".to_string());
}

#[test]
fn command_builds_single_result_query() {
    let c = Command::new(42, DatabaseCommand::IsMaster);
    match c.build_message().unwrap() {
        Message::OpQuery {
            header,
            namespace,
            number_to_skip,
            number_to_return,
            query,
            return_field_selector,
            ..
        } => {
            assert_eq!(header.request_id, 42);
            assert_eq!(header.response_to, 0);
            assert_eq!(header.op_code, OpCode::Query);
            // 16 header + 12 words + 11 namespace + 19 query document.
            assert_eq!(header.message_length, 58);
            assert_eq!(namespace, "local.$cmd".to_string());
            assert_eq!(number_to_skip, 0);
            assert_eq!(number_to_return, 1);
            assert_eq!(query, doc(vec![("isMaster", Bson::I32(1))]));
            assert!(return_field_selector.is_none());
        }
        other => panic!("expected a query message: {:?}", other),
    }
}

#[test]
fn command_reads_reply_documents() {
    let reply = Message::new_reply(
        change_feed::wire_protocol::Header::new(36, 1, 42, OpCode::Reply),
        8,
        0,
        0,
        1,
        vec![doc(vec![("ok", Bson::I32(1))])],
    );
    assert_eq!(
        Command::interpret_reply(reply),
        Ok(vec![doc(vec![("ok", Bson::I32(1))])])
    );
    let wrong = Message::new_get_more(1, "db.c".to_string(), 1, 9).unwrap();
    assert_eq!(
        Command::interpret_reply(wrong),
        Err("Invalid response received from server".to_string())
    );
}

#[test]
fn message_lengths_follow_their_parts() {
    let m = Message::new_update(
        1,
        "db.coll".to_string(),
        change_feed::wire_protocol::OpUpdateFlags::no_flags(),
        doc(vec![("a", Bson::I32(1))]),
        doc(vec![("a", Bson::I32(2))]),
    )
    .unwrap();
    match m {
        Message::OpUpdate { header, .. } => {
            // 16 header + 8 words + 8 namespace + 12 + 12 documents.
            assert_eq!(header.message_length, 56);
            assert_eq!(header.op_code, OpCode::Update);
        }
        other => panic!("expected an update message: {:?}", other),
    }
    let m = Message::new_insert(
        2,
        change_feed::wire_protocol::OpInsertFlags::no_flags(),
        "db.coll".to_string(),
        vec![Document::new(), Document::new()],
    )
    .unwrap();
    match m {
        Message::OpInsert { header, .. } => {
            // 16 header + 4 flags + 8 namespace + two empty documents.
            assert_eq!(header.message_length, 38);
            assert_eq!(header.op_code, OpCode::Insert);
        }
        other => panic!("expected an insert message: {:?}", other),
    }
    let m = Message::new_get_more(3, "db.coll".to_string(), 5, 99).unwrap();
    match m {
        Message::OpGetMore { header, cursor_id, .. } => {
            // 16 header + 8 words + 8 namespace + 8 cursor id.
            assert_eq!(header.message_length, 40);
            assert_eq!(header.op_code, OpCode::GetMore);
            assert_eq!(cursor_id, 99);
        }
        other => panic!("expected a get-more message: {:?}", other),
    }
}

#[test]
fn pool_rejects_zero_size() {
    let mut p = Pool::new();
    assert!(matches!(p.set_size(0), Err(Error::ArgumentError(_))));
    assert_eq!(p.size, 5);
    assert!(p.set_size(3).is_ok());
    assert_eq!(p.size, 3);
}

#[test]
fn pool_refuses_when_disabled() {
    let mut p = Pool::with_size(0);
    assert!(matches!(p.acquire(), Err(Error::OperationError(_))));
}

#[test]
fn pool_reuses_newest_idle_socket() {
    let mut p = Pool::with_size(2);
    assert_eq!(p.acquire().unwrap(), AcquireDecision::Connect(0));
    assert_eq!(p.acquire().unwrap(), AcquireDecision::Connect(0));
    assert_eq!(p.acquire().unwrap(), AcquireDecision::Wait);
    p.release(10, 0);
    p.release(11, 0);
    assert_eq!(p.acquire().unwrap(), AcquireDecision::Reuse(11, 0));
    assert_eq!(p.acquire().unwrap(), AcquireDecision::Reuse(10, 0));
    assert_eq!(p.acquire().unwrap(), AcquireDecision::Wait);
}

#[test]
fn pool_reset_discards_stale_sockets() {
    let mut p = Pool::with_size(2);
    assert_eq!(p.acquire().unwrap(), AcquireDecision::Connect(0));
    p.clear();
    assert_eq!(p.iteration, 1);
    // The socket checked out before the reset is not taken back.
    p.release(10, 0);
    assert_eq!(p.sockets.len(), 0);
    // A socket of the current generation is.
    assert_eq!(p.acquire().unwrap(), AcquireDecision::Connect(1));
    p.release(20, 1);
    assert_eq!(p.acquire().unwrap(), AcquireDecision::Reuse(20, 1));
}

#[test]
fn message_bytes_start_with_its_header() {
    let m = Message::new_get_more(3, "db.coll".to_string(), 5, 99).unwrap();
    let bytes = m.to_bytes().unwrap();
    assert_eq!(bytes.len(), 40);
    assert_eq!(&bytes[0..4], &[40, 0, 0, 0]); // message length
    assert_eq!(&bytes[4..8], &[3, 0, 0, 0]); // request id
    assert_eq!(&bytes[8..12], &[0, 0, 0, 0]); // response to
    assert_eq!(&bytes[12..16], &[0xD5, 0x07, 0, 0]); // get-more opcode 2005
}

#[test]
fn replies_are_never_serialized() {
    let reply = Message::new_reply(
        change_feed::wire_protocol::Header::new(36, 1, 42, OpCode::Reply),
        0,
        0,
        0,
        0,
        vec![],
    );
    assert!(reply.to_bytes().is_err());
}
