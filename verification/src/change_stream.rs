//! The resumable change feed: its notification documents, its options, the
//! payload of one fetch, and the feed state machine itself.

use vstd::prelude::*;
use vstd::string::StringExecFns;
use crate::document::{Bson, Document, SpecBson, SpecDoc, Timestamp, lookup, put, view_values,
    lemma_view_values, lemma_view_shape, view_docs, view_opt_doc};
use crate::error::Error;
use crate::common::{ReadPreference, SpecReadPreference};

verus! {

/// Mathematical view of an operation type.
pub enum SpecOpType {
    Insert,
    Update,
    Replace,
    Delete,
    Invalidate,
    Drop,
    DropDatabase,
    Rename,
    Other(Seq<char>),
}

/// The kind of write that a change notification reports. An unrecognized
/// name is preserved, so that servers newer than this driver still work.
#[derive(Clone, Debug, PartialEq)]
pub enum ChangeStreamOperationType {
    Insert,
    Update,
    Replace,
    Delete,
    Invalidate,
    Drop,
    DropDatabase,
    Rename,
    Other(String),
}

impl View for ChangeStreamOperationType {
    type V = SpecOpType;

    open spec fn view(&self) -> SpecOpType {
        match self {
            ChangeStreamOperationType::Insert => SpecOpType::Insert,
            ChangeStreamOperationType::Update => SpecOpType::Update,
            ChangeStreamOperationType::Replace => SpecOpType::Replace,
            ChangeStreamOperationType::Delete => SpecOpType::Delete,
            ChangeStreamOperationType::Invalidate => SpecOpType::Invalidate,
            ChangeStreamOperationType::Drop => SpecOpType::Drop,
            ChangeStreamOperationType::DropDatabase => SpecOpType::DropDatabase,
            ChangeStreamOperationType::Rename => SpecOpType::Rename,
            ChangeStreamOperationType::Other(s) => SpecOpType::Other(s@),
        }
    }
}

/// The operation type that a wire name denotes.
pub open spec fn spec_op_type(s: Seq<char>) -> SpecOpType {
    if s == "insert"@ {
        SpecOpType::Insert
    } else if s == "update"@ {
        SpecOpType::Update
    } else if s == "replace"@ {
        SpecOpType::Replace
    } else if s == "delete"@ {
        SpecOpType::Delete
    } else if s == "invalidate"@ {
        SpecOpType::Invalidate
    } else if s == "drop"@ {
        SpecOpType::Drop
    } else if s == "dropDatabase"@ {
        SpecOpType::DropDatabase
    } else if s == "rename"@ {
        SpecOpType::Rename
    } else {
        SpecOpType::Other(s)
    }
}

impl ChangeStreamOperationType {
    /// Read an operation type off its wire name.
    pub fn from_wire_name(s: String) -> (r: ChangeStreamOperationType)
        ensures
            r@ == spec_op_type(s@),
    {
        if s == String::from_str("insert") {
            ChangeStreamOperationType::Insert
        } else if s == String::from_str("update") {
            ChangeStreamOperationType::Update
        } else if s == String::from_str("replace") {
            ChangeStreamOperationType::Replace
        } else if s == String::from_str("delete") {
            ChangeStreamOperationType::Delete
        } else if s == String::from_str("invalidate") {
            ChangeStreamOperationType::Invalidate
        } else if s == String::from_str("drop") {
            ChangeStreamOperationType::Drop
        } else if s == String::from_str("dropDatabase") {
            ChangeStreamOperationType::DropDatabase
        } else if s == String::from_str("rename") {
            ChangeStreamOperationType::Rename
        } else {
            ChangeStreamOperationType::Other(s)
        }
    }
}

/// Mathematical view of the namespace a change happened in.
pub struct SpecNSDocument {
    pub db: Seq<char>,
    pub coll: Seq<char>,
}

/// The database and collection name in which a change happened.
#[derive(Clone, Debug, PartialEq)]
pub struct ChangeStreamNSDocument {
    pub db: String,
    pub coll: String,
}

impl View for ChangeStreamNSDocument {
    type V = SpecNSDocument;

    open spec fn view(&self) -> SpecNSDocument {
        SpecNSDocument { db: self.db@, coll: self.coll@ }
    }
}

/// Mathematical view of an update description.
pub struct SpecUpdateDescription {
    pub updated_fields: SpecDoc,
    pub removed_fields: Seq<Seq<char>>,
}

/// What an update changed: the fields written, and the fields removed.
#[derive(Debug, PartialEq)]
pub struct ChangeStreamUpdateDescription {
    /// Names of the fields that were changed, with their new values.
    pub updated_fields: Document,
    /// Names of the fields that were removed.
    pub removed_fields: Vec<String>,
}

/// The names in `s`, viewed one by one.
pub open spec fn view_strings(s: Seq<String>) -> Seq<Seq<char>> {
    s.map_values(|x: String| x@)
}

impl View for ChangeStreamUpdateDescription {
    type V = SpecUpdateDescription;

    open spec fn view(&self) -> SpecUpdateDescription {
        SpecUpdateDescription {
            updated_fields: self.updated_fields@,
            removed_fields: view_strings(self.removed_fields@),
        }
    }
}

/// Mathematical view of one change notification.
pub struct SpecChangeDoc {
    pub id: SpecDoc,
    pub operation_type: Option<SpecOpType>,
    pub ns: Option<SpecNSDocument>,
    pub document_key: Option<SpecDoc>,
    pub update_description: Option<SpecUpdateDescription>,
    pub full_document: Option<SpecDoc>,
}

/// One change notification.
#[derive(Debug, PartialEq)]
pub struct ChangeStreamDocument {
    /// The opaque resume token for the position just after this change. The
    /// feed cannot stay resumable when a projection strips this field.
    pub id: Document,
    /// The kind of write this notification reports.
    pub operation_type: Option<ChangeStreamOperationType>,
    /// Where the change happened; absent for invalidation-class events.
    pub ns: Option<ChangeStreamNSDocument>,
    /// The changed document's key; present for inserts, updates, replaces
    /// and deletes.
    pub document_key: Option<Document>,
    /// What an update changed; present only for updates.
    pub update_description: Option<ChangeStreamUpdateDescription>,
    /// The state of the whole document after the change, where the feed mode
    /// asks for it; absent when the document has since been deleted.
    pub full_document: Option<Document>,
}

impl View for ChangeStreamDocument {
    type V = SpecChangeDoc;

    open spec fn view(&self) -> SpecChangeDoc {
        SpecChangeDoc {
            id: self.id@,
            operation_type: match &self.operation_type {
                Some(t) => Some(t@),
                None => None,
            },
            ns: match &self.ns {
                Some(n) => Some(n@),
                None => None,
            },
            document_key: match &self.document_key {
                Some(d) => Some(d@),
                None => None,
            },
            update_description: match &self.update_description {
                Some(u) => Some(u@),
                None => None,
            },
            full_document: match &self.full_document {
                Some(d) => Some(d@),
                None => None,
            },
        }
    }
}

/// The change notifications in `s`, viewed one by one.
pub open spec fn view_change_docs(s: Seq<ChangeStreamDocument>) -> Seq<SpecChangeDoc> {
    s.map_values(|d: ChangeStreamDocument| d@)
}

/// Mathematical view of the feed options.
pub struct SpecChangeStreamOptions {
    pub full_document: Seq<char>,
    pub resume_after: Option<SpecDoc>,
    pub max_await: Option<i64>,
    pub batch_size: Option<i32>,
    pub collation: Option<SpecDoc>,
    pub start_at_operation_time: Option<Timestamp>,
    pub start_after: Option<SpecDoc>,
}

/// How partial updates are reported: only a delta, or a delta together with
/// a looked-up copy of the whole document. An unrecognized mode is carried
/// through unchanged.
#[derive(Clone, Debug, PartialEq)]
pub enum ChangeStreamOptionsFullDocument {
    Default,
    UpdateLookup,
    Other(String),
}

impl View for ChangeStreamOptionsFullDocument {
    type V = Seq<char>;

    /// A mode is viewed as the name it puts on the wire.
    open spec fn view(&self) -> Seq<char> {
        match self {
            ChangeStreamOptionsFullDocument::Default => "default"@,
            ChangeStreamOptionsFullDocument::UpdateLookup => "updateLookup"@,
            ChangeStreamOptionsFullDocument::Other(s) => s@,
        }
    }
}

impl ChangeStreamOptionsFullDocument {
    /// The name this mode puts on the wire.
    pub fn wire_name(&self) -> (r: String)
        ensures
            r@ == self@,
    {
        match self {
            ChangeStreamOptionsFullDocument::Default => String::from_str("default"),
            ChangeStreamOptionsFullDocument::UpdateLookup => String::from_str("updateLookup"),
            ChangeStreamOptionsFullDocument::Other(s) => s.clone(),
        }
    }
}

/// The options a feed is created with. All fields are independently
/// defaulted; the builder derives at most one resume directive from them.
#[derive(Debug, PartialEq)]
pub struct ChangeStreamOptions {
    /// How partial updates are reported.
    pub full_document: ChangeStreamOptionsFullDocument,
    /// Resume the feed right after the change this token denotes.
    pub resume_after: Option<Document>,
    /// How long the server may wait for new changes, in milliseconds.
    pub max_await: Option<i64>,
    /// How many documents to return per batch.
    pub batch_size: Option<i32>,
    /// A collation for the feed's aggregation.
    pub collation: Option<Document>,
    /// Only report changes at or after this server logical time.
    pub start_at_operation_time: Option<Timestamp>,
    /// Start the feed at the first change after this token, surviving drops
    /// and renames of the watched collection. The server rejects a request
    /// that carries both this and `resume_after`.
    pub start_after: Option<Document>,
}

impl View for ChangeStreamOptions {
    type V = SpecChangeStreamOptions;

    open spec fn view(&self) -> SpecChangeStreamOptions {
        SpecChangeStreamOptions {
            full_document: self.full_document@,
            resume_after: view_opt_doc(self.resume_after),
            max_await: self.max_await,
            batch_size: self.batch_size,
            collation: view_opt_doc(self.collation),
            start_at_operation_time: self.start_at_operation_time,
            start_after: view_opt_doc(self.start_after),
        }
    }
}

/// The view of the defaulted options.
pub open spec fn spec_default_options() -> SpecChangeStreamOptions {
    SpecChangeStreamOptions {
        full_document: "default"@,
        resume_after: None,
        max_await: None,
        batch_size: None,
        collation: None,
        start_at_operation_time: None,
        start_after: None,
    }
}

impl ChangeStreamOptions {
    /// Options with every field defaulted.
    pub fn new() -> (r: ChangeStreamOptions)
        ensures
            r@ == spec_default_options(),
    {
        ChangeStreamOptions {
            full_document: ChangeStreamOptionsFullDocument::Default,
            resume_after: None,
            max_await: None,
            batch_size: None,
            collation: None,
            start_at_operation_time: None,
            start_after: None,
        }
    }
}

impl Default for ChangeStreamOptions {
    /// Options with every field defaulted.
    fn default() -> (r: ChangeStreamOptions)
        ensures
            r@ == spec_default_options(),
    {
        ChangeStreamOptions::new()
    }
}

/// The options document inside the feed stage: the full-document mode first,
/// then each set option under its wire key, in a fixed order.
pub open spec fn spec_options_doc(o: SpecChangeStreamOptions) -> SpecDoc {
    let d = put(Seq::empty(), "fullDocument"@, SpecBson::String(o.full_document));
    let d = match o.resume_after {
        Some(t) => put(d, "resumeAfter"@, SpecBson::Document(t)),
        None => d,
    };
    let d = match o.max_await {
        Some(ms) => put(d, "maxAwaitTimeMS"@, SpecBson::I64(ms)),
        None => d,
    };
    let d = match o.batch_size {
        Some(n) => put(d, "batchSize"@, SpecBson::I32(n)),
        None => d,
    };
    let d = match o.collation {
        Some(c) => put(d, "collation"@, SpecBson::Document(c)),
        None => d,
    };
    let d = match o.start_at_operation_time {
        Some(ts) => put(d, "startAtOperationTime"@, SpecBson::TimeStamp(ts)),
        None => d,
    };
    match o.start_after {
        Some(t) => put(d, "startAfter"@, SpecBson::Document(t)),
        None => d,
    }
}

impl ChangeStreamOptions {
    /// Serialize the options into the feed stage's options document.
    pub fn to_document(&self) -> (r: Document)
        ensures
            r@ == spec_options_doc(self@),
    {
        let mut d = Document::new();
        d.insert(String::from_str("fullDocument"), Bson::String(self.full_document.wire_name()));
        match &self.resume_after {
            Some(t) => {
                d.insert(String::from_str("resumeAfter"), Bson::Document(t.deep_clone()));
            },
            None => {},
        }
        match &self.max_await {
            Some(ms) => {
                d.insert(String::from_str("maxAwaitTimeMS"), Bson::I64(*ms));
            },
            None => {},
        }
        match &self.batch_size {
            Some(n) => {
                d.insert(String::from_str("batchSize"), Bson::I32(*n));
            },
            None => {},
        }
        match &self.collation {
            Some(c) => {
                d.insert(String::from_str("collation"), Bson::Document(c.deep_clone()));
            },
            None => {},
        }
        match &self.start_at_operation_time {
            Some(ts) => {
                d.insert(String::from_str("startAtOperationTime"), Bson::TimeStamp(*ts));
            },
            None => {},
        }
        match &self.start_after {
            Some(t) => {
                d.insert(String::from_str("startAfter"), Bson::Document(t.deep_clone()));
            },
            None => {},
        }
        d
    }
}

/// Mathematical view of the cursor part of a fetch payload.
pub struct SpecPayloadCursor {
    pub ns: Seq<char>,
    pub id: i64,
    pub batch: Seq<SpecChangeDoc>,
    pub post_batch_resume_token: Option<SpecDoc>,
}

/// Mathematical view of one fetch payload.
pub struct SpecPayload {
    pub cursor: SpecPayloadCursor,
    pub operation_time: Timestamp,
    pub cluster_time: SpecDoc,
}

/// The cursor part of a fetch payload: where the cursor lives, its id, the
/// fetched batch, and the batch-level checkpoint when the server reports one.
#[derive(Debug, PartialEq)]
pub struct CSPayloadCursor {
    pub ns: String,
    pub id: i64,
    pub batch: Vec<ChangeStreamDocument>,
    pub post_batch_resume_token: Option<Document>,
}

impl View for CSPayloadCursor {
    type V = SpecPayloadCursor;

    open spec fn view(&self) -> SpecPayloadCursor {
        SpecPayloadCursor {
            ns: self.ns@,
            id: self.id,
            batch: view_change_docs(self.batch@),
            post_batch_resume_token: view_opt_doc(self.post_batch_resume_token),
        }
    }
}

/// One successful fetch, decoded: the cursor data plus the server logical
/// time of the response.
#[derive(Debug, PartialEq)]
pub struct CSPayload {
    pub cursor: CSPayloadCursor,
    pub operation_time: Timestamp,
    pub cluster_time: Document,
}

impl View for CSPayload {
    type V = SpecPayload;

    open spec fn view(&self) -> SpecPayload {
        SpecPayload {
            cursor: self.cursor@,
            operation_time: self.operation_time,
            cluster_time: self.cluster_time@,
        }
    }
}

/// An optional document field: absent or null means none; any other
/// non-document shape is malformed.
pub open spec fn spec_opt_doc_field(d: SpecDoc, k: Seq<char>) -> Option<Option<SpecDoc>> {
    match lookup(d, k) {
        None => Some(None),
        Some(SpecBson::Null) => Some(None),
        Some(SpecBson::Document(x)) => Some(Some(x)),
        Some(_) => None,
    }
}

/// A namespace document needs a string under `db` and one under `coll`.
pub open spec fn spec_decode_ns(d: SpecDoc) -> Option<SpecNSDocument> {
    match (lookup(d, "db"@), lookup(d, "coll"@)) {
        (Some(SpecBson::String(db)), Some(SpecBson::String(coll))) => Some(
            SpecNSDocument { db, coll },
        ),
        _ => None,
    }
}

/// The strings in `s` from position `i` on; malformed if any element is not
/// a string.
pub open spec fn spec_strings_from(s: Seq<SpecBson>, i: int) -> Option<Seq<Seq<char>>>
    decreases s.len() - i,
{
    if i >= s.len() {
        Some(Seq::empty())
    } else {
        match s[i] {
            SpecBson::String(x) => match spec_strings_from(s, i + 1) {
                Some(rest) => Some(seq![x] + rest),
                None => None,
            },
            _ => None,
        }
    }
}

/// What `spec_strings_from` yields, element by element.
pub proof fn lemma_strings_from(s: Seq<SpecBson>, i: int)
    requires
        0 <= i <= s.len(),
    ensures
        (spec_strings_from(s, i) is Some) <==> (forall|j: int|
            i <= j < s.len() ==> s[j] is String),
        spec_strings_from(s, i) is Some ==> spec_strings_from(s, i).unwrap().len() == s.len() - i,
        spec_strings_from(s, i) is Some ==> forall|j: int|
            i <= j < s.len() ==> spec_strings_from(s, i).unwrap()[j - i] == s[j]->String_0,
    decreases s.len() - i,
{
    if i < s.len() {
        lemma_strings_from(s, i + 1);
        if s[i] is String && spec_strings_from(s, i + 1) is Some {
            let rest = spec_strings_from(s, i + 1).unwrap();
            let whole = seq![s[i]->String_0] + rest;
            assert(spec_strings_from(s, i) == Some(whole));
            assert(whole.len() == 1 + rest.len());
            assert forall|j: int| i <= j < s.len() implies whole[j - i] == s[j]->String_0 by {
                if j > i {
                    assert(whole[j - i] == rest[j - i - 1]);
                } else {
                    assert(whole[0] == s[i]->String_0);
                }
            }
        }
    }
}

/// The change notifications in `s` from position `i` on; malformed if any
/// element is not a well-formed notification document.
pub open spec fn spec_decode_batch_from(s: Seq<SpecBson>, i: int) -> Option<Seq<SpecChangeDoc>>
    decreases s.len() - i,
{
    if i >= s.len() {
        Some(Seq::empty())
    } else {
        match s[i] {
            SpecBson::Document(e) => match (spec_decode_change_doc(e), spec_decode_batch_from(
                s,
                i + 1,
            )) {
                (Some(cd), Some(rest)) => Some(seq![cd] + rest),
                _ => None,
            },
            _ => None,
        }
    }
}

/// What `spec_decode_batch_from` yields, element by element.
pub proof fn lemma_decode_batch_from(s: Seq<SpecBson>, i: int)
    requires
        0 <= i <= s.len(),
    ensures
        (spec_decode_batch_from(s, i) is Some) <==> (forall|j: int|
            i <= j < s.len() ==> s[j] is Document && spec_decode_change_doc(s[j]->Document_0)
                is Some),
        spec_decode_batch_from(s, i) is Some ==> spec_decode_batch_from(s, i).unwrap().len()
            == s.len() - i,
        spec_decode_batch_from(s, i) is Some ==> forall|j: int|
            i <= j < s.len() ==> spec_decode_batch_from(s, i).unwrap()[j - i]
                == spec_decode_change_doc(s[j]->Document_0).unwrap(),
    decreases s.len() - i,
{
    if i < s.len() {
        lemma_decode_batch_from(s, i + 1);
        if s[i] is Document && spec_decode_change_doc(s[i]->Document_0) is Some
            && spec_decode_batch_from(s, i + 1) is Some {
            let rest = spec_decode_batch_from(s, i + 1).unwrap();
            let whole = seq![spec_decode_change_doc(s[i]->Document_0).unwrap()] + rest;
            assert(spec_decode_batch_from(s, i) == Some(whole));
            assert(whole.len() == 1 + rest.len());
            assert forall|j: int|
                i <= j < s.len() implies whole[j - i] == spec_decode_change_doc(
                s[j]->Document_0,
            ).unwrap() by {
                if j > i {
                    assert(whole[j - i] == rest[j - i - 1]);
                } else {
                    assert(whole[0] == spec_decode_change_doc(s[i]->Document_0).unwrap());
                }
            }
        }
    }
}

/// An update description needs a document of updated fields and an array of
/// removed field names.
pub open spec fn spec_decode_update_desc(d: SpecDoc) -> Option<SpecUpdateDescription> {
    match (lookup(d, "updatedFields"@), lookup(d, "removedFields"@)) {
        (Some(SpecBson::Document(u)), Some(SpecBson::Array(r))) => match spec_strings_from(r, 0) {
            Some(names) => Some(
                SpecUpdateDescription { updated_fields: u, removed_fields: names },
            ),
            None => None,
        },
        _ => None,
    }
}

/// One change notification, decoded: the resume token under `_id` is
/// mandatory — a feed cannot stay resumable without it — and each optional
/// field must have its right shape when present.
pub open spec fn spec_decode_change_doc(d: SpecDoc) -> Option<SpecChangeDoc> {
    match lookup(d, "_id"@) {
        Some(SpecBson::Document(id)) => {
            let op = match lookup(d, "operationType"@) {
                None => Some(None),
                Some(SpecBson::Null) => Some(None),
                Some(SpecBson::String(s)) => Some(Some(spec_op_type(s))),
                Some(_) => None,
            };
            let ns = match lookup(d, "ns"@) {
                None => Some(None),
                Some(SpecBson::Null) => Some(None),
                Some(SpecBson::Document(n)) => match spec_decode_ns(n) {
                    Some(x) => Some(Some(x)),
                    None => None,
                },
                Some(_) => None,
            };
            let dk = spec_opt_doc_field(d, "documentKey"@);
            let ud = match lookup(d, "updateDescription"@) {
                None => Some(None),
                Some(SpecBson::Null) => Some(None),
                Some(SpecBson::Document(u)) => match spec_decode_update_desc(u) {
                    Some(x) => Some(Some(x)),
                    None => None,
                },
                Some(_) => None,
            };
            let fd = spec_opt_doc_field(d, "fullDocument"@);
            match (op, ns, dk, ud, fd) {
                (Some(op), Some(ns), Some(dk), Some(ud), Some(fd)) => Some(
                    SpecChangeDoc {
                        id,
                        operation_type: op,
                        ns,
                        document_key: dk,
                        update_description: ud,
                        full_document: fd,
                    },
                ),
                _ => None,
            }
        },
        _ => None,
    }
}

/// The cursor part of a payload, decoded: a string namespace, a 64-bit
/// cursor id, a batch under `firstBatch` or — when that key is absent —
/// under `nextBatch`, and an optional batch-level checkpoint.
pub open spec fn spec_decode_cursor(d: SpecDoc) -> Option<SpecPayloadCursor> {
    let batch_val = match lookup(d, "firstBatch"@) {
        Some(b) => Some(b),
        None => lookup(d, "nextBatch"@),
    };
    match (lookup(d, "namespace"@), lookup(d, "cursorId"@), batch_val) {
        (Some(SpecBson::String(ns)), Some(SpecBson::I64(id)), Some(SpecBson::Array(els))) => {
            match (spec_decode_batch_from(els, 0), spec_opt_doc_field(d, "postBatchResumeToken"@)) {
                (Some(batch), Some(pbrt)) => Some(
                    SpecPayloadCursor { ns, id, batch, post_batch_resume_token: pbrt },
                ),
                _ => None,
            }
        },
        _ => None,
    }
}

/// A whole fetch payload, decoded: the cursor document, the server logical
/// time of the response, and the cluster time document.
pub open spec fn spec_decode_payload(d: SpecDoc) -> Option<SpecPayload> {
    match (lookup(d, "cursor"@), lookup(d, "operationTime"@), lookup(d, "clusterTime"@)) {
        (Some(SpecBson::Document(c)), Some(SpecBson::TimeStamp(t)), Some(
            SpecBson::Document(ct),
        )) => match spec_decode_cursor(c) {
            Some(cur) => Some(
                SpecPayload { cursor: cur, operation_time: t, cluster_time: ct },
            ),
            None => None,
        },
        _ => None,
    }
}

/// Read the removed-field names out of an array value.
fn decode_strings(els: &Vec<Bson>) -> (r: Option<Vec<String>>)
    ensures
        match r {
            Some(v) => spec_strings_from(view_values(els@), 0) == Some(view_strings(v@)),
            None => spec_strings_from(view_values(els@), 0) is None,
        },
{
    let ghost s = view_values(els@);
    proof {
        lemma_view_values(els@);
        lemma_strings_from(s, 0);
    }
    let n = els.len();
    let mut out: Vec<String> = Vec::new();
    let mut i: usize = 0;
    while i < n
        invariant
            n == els.len(),
            i <= n,
            out@.len() == i,
            s == view_values(els@),
            s.len() == n,
            forall|j: int| 0 <= j < s.len() ==> s[j] == els@[j]@,
            forall|j: int| #![all_triggers] 0 <= j < i ==> s[j] is String && out@[j]@
                == s[j]->String_0,
        decreases n - i,
    {
        match &els[i] {
            Bson::String(x) => {
                out.push(x.clone());
            },
            _ => {
                proof {
                    lemma_view_shape(els@[i as int]);
                    assert(!(s[i as int] is String));
                    lemma_strings_from(s, 0);
                }
                return None;
            },
        }
        i += 1;
    }
    proof {
        lemma_strings_from(s, 0);
        assert(spec_strings_from(s, 0).unwrap() =~= view_strings(out@));
    }
    Some(out)
}

/// Read a batch of change notifications out of an array value.
fn decode_batch(els: &Vec<Bson>) -> (r: Option<Vec<ChangeStreamDocument>>)
    ensures
        match r {
            Some(v) => spec_decode_batch_from(view_values(els@), 0) == Some(view_change_docs(v@)),
            None => spec_decode_batch_from(view_values(els@), 0) is None,
        },
{
    let ghost s = view_values(els@);
    proof {
        lemma_view_values(els@);
        lemma_decode_batch_from(s, 0);
    }
    let n = els.len();
    let mut out: Vec<ChangeStreamDocument> = Vec::new();
    let mut i: usize = 0;
    while i < n
        invariant
            n == els.len(),
            i <= n,
            out@.len() == i,
            s == view_values(els@),
            s.len() == n,
            forall|j: int| 0 <= j < s.len() ==> s[j] == els@[j]@,
            forall|j: int| #![all_triggers] 0 <= j < i ==> s[j] is Document
                && spec_decode_change_doc(s[j]->Document_0) == Some(out@[j]@),
        decreases n - i,
    {
        match &els[i] {
            Bson::Document(e) => {
                match decode_change_doc(e) {
                    Some(cd) => {
                        proof {
                            assert(s[i as int] == SpecBson::Document(e@));
                        }
                        out.push(cd);
                    },
                    None => {
                        proof {
                            assert(s[i as int] == SpecBson::Document(e@));
                            lemma_decode_batch_from(s, 0);
                        }
                        return None;
                    },
                }
            },
            _ => {
                proof {
                    lemma_view_shape(els@[i as int]);
                    assert(!(s[i as int] is Document));
                    lemma_decode_batch_from(s, 0);
                }
                return None;
            },
        }
        i += 1;
    }
    proof {
        lemma_decode_batch_from(s, 0);
        assert forall|j: int| 0 <= j < s.len() implies s[j] is Document && spec_decode_change_doc(
            s[j]->Document_0,
        ) is Some by {}
        assert(spec_decode_batch_from(s, 0).unwrap() =~= view_change_docs(out@));
    }
    Some(out)
}

/// Decode one change notification.
fn decode_change_doc(d: &Document) -> (r: Option<ChangeStreamDocument>)
    ensures
        match r {
            Some(cd) => spec_decode_change_doc(d@) == Some(cd@),
            None => spec_decode_change_doc(d@) is None,
        },
{
    let id = match d.get(&String::from_str("_id")) {
        Some(Bson::Document(x)) => x.deep_clone(),
        _ => {
            return None;
        },
    };
    let operation_type = match d.get(&String::from_str("operationType")) {
        None => None,
        Some(Bson::Null) => None,
        Some(Bson::String(s)) => Some(ChangeStreamOperationType::from_wire_name(s.clone())),
        _ => {
            return None;
        },
    };
    let ns = match d.get(&String::from_str("ns")) {
        None => None,
        Some(Bson::Null) => None,
        Some(Bson::Document(n)) => {
            let db = match n.get(&String::from_str("db")) {
                Some(Bson::String(x)) => x.clone(),
                _ => {
                    return None;
                },
            };
            let coll = match n.get(&String::from_str("coll")) {
                Some(Bson::String(x)) => x.clone(),
                _ => {
                    return None;
                },
            };
            Some(ChangeStreamNSDocument { db, coll })
        },
        _ => {
            return None;
        },
    };
    let document_key = match d.get(&String::from_str("documentKey")) {
        None => None,
        Some(Bson::Null) => None,
        Some(Bson::Document(x)) => Some(x.deep_clone()),
        _ => {
            return None;
        },
    };
    let update_description = match d.get(&String::from_str("updateDescription")) {
        None => None,
        Some(Bson::Null) => None,
        Some(Bson::Document(u)) => {
            let updated_fields = match u.get(&String::from_str("updatedFields")) {
                Some(Bson::Document(x)) => x.deep_clone(),
                _ => {
                    return None;
                },
            };
            let removed_fields = match u.get(&String::from_str("removedFields")) {
                Some(Bson::Array(els)) => match decode_strings(els) {
                    Some(v) => v,
                    None => {
                        return None;
                    },
                },
                _ => {
                    return None;
                },
            };
            Some(ChangeStreamUpdateDescription { updated_fields, removed_fields })
        },
        _ => {
            return None;
        },
    };
    let full_document = match d.get(&String::from_str("fullDocument")) {
        None => None,
        Some(Bson::Null) => None,
        Some(Bson::Document(x)) => Some(x.deep_clone()),
        _ => {
            return None;
        },
    };
    Some(ChangeStreamDocument {
        id,
        operation_type,
        ns,
        document_key,
        update_description,
        full_document,
    })
}

/// Decode one fetch payload. A malformed payload — most commonly a
/// projection that stripped the mandatory `_id` token off a notification —
/// is a configuration error: the feed cannot stay resumable without the
/// token.
pub fn decode_payload(d: &Document) -> (r: Result<CSPayload, Error>)
    ensures
        match r {
            Ok(p) => spec_decode_payload(d@) == Some(p@),
            Err(e) => spec_decode_payload(d@) is None && e is ConfigurationError,
        },
{
    let cursor_doc = match d.get(&String::from_str("cursor")) {
        Some(Bson::Document(c)) => c,
        _ => {
            return Err(missing_token_error());
        },
    };
    let operation_time = match d.get(&String::from_str("operationTime")) {
        Some(Bson::TimeStamp(t)) => *t,
        _ => {
            return Err(missing_token_error());
        },
    };
    let cluster_time = match d.get(&String::from_str("clusterTime")) {
        Some(Bson::Document(ct)) => ct.deep_clone(),
        _ => {
            return Err(missing_token_error());
        },
    };
    let ns = match cursor_doc.get(&String::from_str("namespace")) {
        Some(Bson::String(x)) => x.clone(),
        _ => {
            return Err(missing_token_error());
        },
    };
    let id = match cursor_doc.get(&String::from_str("cursorId")) {
        Some(Bson::I64(x)) => *x,
        _ => {
            return Err(missing_token_error());
        },
    };
    let batch = {
        let batch_val = match cursor_doc.get(&String::from_str("firstBatch")) {
            Some(b) => Some(b),
            None => cursor_doc.get(&String::from_str("nextBatch")),
        };
        match batch_val {
            Some(Bson::Array(els)) => match decode_batch(els) {
                Some(v) => v,
                None => {
                    return Err(missing_token_error());
                },
            },
            _ => {
                return Err(missing_token_error());
            },
        }
    };
    let post_batch_resume_token = match cursor_doc.get(&String::from_str("postBatchResumeToken")) {
        None => None,
        Some(Bson::Null) => None,
        Some(Bson::Document(x)) => Some(x.deep_clone()),
        _ => {
            return Err(missing_token_error());
        },
    };
    Ok(CSPayload {
        cursor: CSPayloadCursor { ns, id, batch, post_batch_resume_token },
        operation_time,
        cluster_time,
    })
}

/// The configuration error for a payload the feed cannot decode.
fn missing_token_error() -> (r: Error)
    ensures
        r is ConfigurationError,
{
    Error::ConfigurationError(
        String::from_str(
            "Cannot provide resume functionality when the resume token is missing. If the shape of the feed documents must change, use a raw aggregation.",
        ),
    )
}

/// Mathematical view of what a feed watches.
pub enum SpecCSType {
    Coll(Seq<char>),
    Db,
    Deployment,
}

/// What a feed watches: one collection, one database, or the whole
/// deployment. The database and client handles themselves live with the
/// caller; the feed only needs to know how to phrase its query.
#[derive(Debug, PartialEq)]
pub enum CSType {
    Coll(String),
    Db,
    Deployment,
}

impl View for CSType {
    type V = SpecCSType;

    open spec fn view(&self) -> SpecCSType {
        match self {
            CSType::Coll(name) => SpecCSType::Coll(name@),
            CSType::Db => SpecCSType::Db,
            CSType::Deployment => SpecCSType::Deployment,
        }
    }
}

/// Mathematical view of a feed's state.
pub struct SpecFeed {
    pub cstype: SpecCSType,
    pub buffer: Seq<SpecChangeDoc>,
    pub document_resume_token: Option<SpecDoc>,
    pub post_batch_resume_token: Option<SpecDoc>,
    pub pipeline: Seq<SpecDoc>,
    pub options: SpecChangeStreamOptions,
    pub read_preference: SpecReadPreference,
    pub last_optime: Option<Timestamp>,
    pub is_initial_agg: bool,
}

/// A resumable change feed: a buffer of fetched, not yet consumed
/// notifications, and the bookkeeping needed to rebuild its query after a
/// recoverable failure. The network cursor itself lives with the caller: the
/// feed computes commands and applies fetch outcomes.
#[derive(Debug, PartialEq)]
pub struct ChangeStream {
    /// What the feed watches.
    pub cstype: CSType,
    /// The fetched, not yet consumed notifications, oldest first.
    pub buffer: Vec<ChangeStreamDocument>,
    /// The token of the last notification yielded to the caller.
    pub document_resume_token: Option<Document>,
    /// The most recent batch-level checkpoint the server reported; never set
    /// by servers that predate such checkpoints.
    pub post_batch_resume_token: Option<Document>,
    /// The caller's stages, appended to the feed stage on every build.
    pub pipeline: Vec<Document>,
    /// The options the feed was created with; every rebuild starts from
    /// them, never from anything later.
    pub options: ChangeStreamOptions,
    /// The read preference used to select a server, kept for recovery.
    pub read_preference: ReadPreference,
    /// The server logical time of the most recent fetch.
    pub last_optime: Option<Timestamp>,
    /// Whether the feed still awaits its first successful fetch; until then
    /// no error is recoverable.
    pub is_initial_agg: bool,
}

impl View for ChangeStream {
    type V = SpecFeed;

    open spec fn view(&self) -> SpecFeed {
        SpecFeed {
            cstype: self.cstype@,
            buffer: view_change_docs(self.buffer@),
            document_resume_token: view_opt_doc(self.document_resume_token),
            post_batch_resume_token: view_opt_doc(self.post_batch_resume_token),
            pipeline: view_docs(self.pipeline@),
            options: self.options@,
            read_preference: self.read_preference@,
            last_optime: self.last_optime,
            is_initial_agg: self.is_initial_agg,
        }
    }
}

/// The token a caller should persist to resume later: the batch-level
/// checkpoint when one is known and the buffer is drained, otherwise the
/// token of the last yielded notification.
pub open spec fn spec_resume_token(f: SpecFeed) -> Option<SpecDoc> {
    if f.post_batch_resume_token is Some && f.buffer.len() == 0 {
        f.post_batch_resume_token
    } else {
        f.document_resume_token
    }
}

/// The stages a rebuilt query carries, from the feed's current state.
pub open spec fn spec_command_stages(f: SpecFeed) -> Seq<SpecDoc> {
    crate::pipelines::spec_build(
        f.pipeline,
        f.options,
        f.cstype is Deployment,
        f.document_resume_token,
        f.post_batch_resume_token,
        f.buffer.len() as int,
        f.last_optime,
    )
}

/// The aggregation command that opens or resumes the feed: the target, the
/// stages, and a request for a streaming cursor.
pub open spec fn spec_rebuild_command(f: SpecFeed) -> SpecDoc {
    let target = match f.cstype {
        SpecCSType::Coll(name) => SpecBson::String(name),
        SpecCSType::Db => SpecBson::I32(1),
        SpecCSType::Deployment => SpecBson::I32(1),
    };
    let stages = spec_command_stages(f).map_values(|d: SpecDoc| SpecBson::Document(d));
    put(
        put(put(Seq::empty(), "aggregate"@, target), "pipeline"@, SpecBson::Array(stages)),
        "cursor"@,
        SpecBson::Document(Seq::empty()),
    )
}

/// The feed's state after one successful fetch: the checkpoint is taken as
/// the server sent it — also when absent — the buffer is replaced by the
/// batch in server order, the operation time is recorded, and the feed is
/// past its initial aggregation.
pub open spec fn spec_apply_payload(f: SpecFeed, p: SpecPayload) -> SpecFeed {
    SpecFeed {
        post_batch_resume_token: p.cursor.post_batch_resume_token,
        buffer: p.cursor.batch,
        last_optime: Some(p.operation_time),
        is_initial_agg: false,
        ..f
    }
}

/// Whether a fetch error leads to the one-shot rebuild: never before the
/// first successful fetch, and never for a denylisted server error.
pub open spec fn spec_error_retry(f: SpecFeed, e: Error) -> bool {
    !f.is_initial_agg && crate::error::spec_retryable(e)
}

/// LAW (no retry on initialization): an error before the first successful
/// fetch is never recoverable — it propagates, and no rebuild happens.
pub proof fn lemma_no_retry_on_initial(f: SpecFeed, e: Error)
    requires
        f.is_initial_agg,
    ensures
        !spec_error_retry(f, e),
{
}

/// LAW (denylist): a server error on the fixed denylist never triggers a
/// rebuild, not even once the feed is streaming.
pub proof fn lemma_denylist_never_retried(f: SpecFeed, code: i32)
    requires
        crate::error::spec_denylisted(code),
    ensures
        !spec_error_retry(f, Error::ServerError(code)),
{
}

/// LAW (persisted token mirrors rebuild): whenever the feed has a resume
/// token to hand out, a query rebuilt from the same state resumes exactly
/// from that token, so persisting it reproduces the feed's position.
pub proof fn lemma_resume_token_matches_rebuild(f: SpecFeed)
    requires
        spec_resume_token(f) is Some,
    ensures
        crate::pipelines::spec_resume_directive(
            f.options,
            f.document_resume_token,
            f.post_batch_resume_token,
            f.buffer.len() as int,
        ) == Some(SpecBson::Document(spec_resume_token(f).unwrap())),
{
}

/// What one fetch outcome did to the feed: the buffer was filled, nothing
/// was available, the feed asks for one rebuilt cursor with the given
/// command, or the error is fatal.
#[derive(Debug, PartialEq)]
pub enum FetchDisposition {
    Filled,
    NoMore,
    Retry(Document),
    Failed(Error),
}

impl ChangeStream {
    /// A feed watching one collection, together with the command that opens
    /// its initial cursor.
    pub fn watch_coll(
        coll: String,
        pipeline: Option<Vec<Document>>,
        options: Option<ChangeStreamOptions>,
        read_preference: ReadPreference,
    ) -> (r: (ChangeStream, Document))
        ensures
            r.0@ == (SpecFeed {
                cstype: SpecCSType::Coll(coll@),
                buffer: Seq::empty(),
                document_resume_token: None,
                post_batch_resume_token: None,
                pipeline: match pipeline {
                    Some(p) => view_docs(p@),
                    None => Seq::empty(),
                },
                options: match options {
                    Some(o) => o@,
                    None => spec_default_options(),
                },
                read_preference: read_preference@,
                last_optime: None,
                is_initial_agg: true,
            }),
            r.1@ == spec_rebuild_command(r.0@),
    {
        Self::watch_target(CSType::Coll(coll), pipeline, options, read_preference)
    }

    /// A feed watching one database, together with the command that opens
    /// its initial cursor.
    pub fn watch_db(
        pipeline: Option<Vec<Document>>,
        options: Option<ChangeStreamOptions>,
        read_preference: ReadPreference,
    ) -> (r: (ChangeStream, Document))
        ensures
            r.0@ == (SpecFeed {
                cstype: SpecCSType::Db,
                buffer: Seq::empty(),
                document_resume_token: None,
                post_batch_resume_token: None,
                pipeline: match pipeline {
                    Some(p) => view_docs(p@),
                    None => Seq::empty(),
                },
                options: match options {
                    Some(o) => o@,
                    None => spec_default_options(),
                },
                read_preference: read_preference@,
                last_optime: None,
                is_initial_agg: true,
            }),
            r.1@ == spec_rebuild_command(r.0@),
    {
        Self::watch_target(CSType::Db, pipeline, options, read_preference)
    }

    /// A feed watching the whole deployment, together with the command that
    /// opens its initial cursor; the command is meant for the administrative
    /// database.
    pub fn watch_deployment(
        pipeline: Option<Vec<Document>>,
        options: Option<ChangeStreamOptions>,
        read_preference: ReadPreference,
    ) -> (r: (ChangeStream, Document))
        ensures
            r.0@ == (SpecFeed {
                cstype: SpecCSType::Deployment,
                buffer: Seq::empty(),
                document_resume_token: None,
                post_batch_resume_token: None,
                pipeline: match pipeline {
                    Some(p) => view_docs(p@),
                    None => Seq::empty(),
                },
                options: match options {
                    Some(o) => o@,
                    None => spec_default_options(),
                },
                read_preference: read_preference@,
                last_optime: None,
                is_initial_agg: true,
            }),
            r.1@ == spec_rebuild_command(r.0@),
    {
        Self::watch_target(CSType::Deployment, pipeline, options, read_preference)
    }

    /// The shared constructor: fresh resume state, plus the initial command.
    fn watch_target(
        cstype: CSType,
        pipeline: Option<Vec<Document>>,
        options: Option<ChangeStreamOptions>,
        read_preference: ReadPreference,
    ) -> (r: (ChangeStream, Document))
        ensures
            r.0@ == (SpecFeed {
                cstype: cstype@,
                buffer: Seq::empty(),
                document_resume_token: None,
                post_batch_resume_token: None,
                pipeline: match pipeline {
                    Some(p) => view_docs(p@),
                    None => Seq::empty(),
                },
                options: match options {
                    Some(o) => o@,
                    None => spec_default_options(),
                },
                read_preference: read_preference@,
                last_optime: None,
                is_initial_agg: true,
            }),
            r.1@ == spec_rebuild_command(r.0@),
    {
        let options = match options {
            Some(o) => o,
            None => ChangeStreamOptions::new(),
        };
        let pipeline = match pipeline {
            Some(p) => p,
            None => Vec::new(),
        };
        proof {
            assert(view_docs(Seq::<Document>::empty()) =~= Seq::<SpecDoc>::empty());
            assert(view_change_docs(Seq::<ChangeStreamDocument>::empty()) =~= Seq::<
                SpecChangeDoc,
            >::empty());
        }
        let feed = ChangeStream {
            cstype,
            buffer: Vec::new(),
            document_resume_token: None,
            post_batch_resume_token: None,
            pipeline,
            options,
            read_preference,
            last_optime: None,
            is_initial_agg: true,
        };
        let cmd = feed.rebuild_command();
        (feed, cmd)
    }

    /// The token the caller should persist to resume later: the batch-level
    /// checkpoint when one is known and the buffer is drained, otherwise the
    /// token of the last yielded notification.
    pub fn get_resume_token(&self) -> (r: Option<Document>)
        ensures
            view_opt_doc(r) == spec_resume_token(self@),
    {
        if self.post_batch_resume_token.is_some() && self.buffer.len() == 0 {
            Some(self.post_batch_resume_token.as_ref().unwrap().deep_clone())
        } else {
            match &self.document_resume_token {
                Some(d) => Some(d.deep_clone()),
                None => None,
            }
        }
    }

    /// Whether the feed may rebuild after this fetch error: never before the
    /// first successful fetch; afterwards for every error except a
    /// denylisted server error.
    pub fn is_error_recoverable(&self, err: &Error) -> (r: bool)
        ensures
            r == spec_error_retry(self@, *err),
    {
        if self.is_initial_agg {
            false
        } else {
            err.is_retryable()
        }
    }

    /// The command that opens a cursor resuming from the feed's current
    /// state. Every build starts from the original pipeline and options.
    pub fn rebuild_command(&self) -> (r: Document)
        ensures
            r@ == spec_rebuild_command(self@),
    {
        let builder = crate::pipelines::PipelineBuilder::new(
            &self.pipeline,
            &self.options,
            self.buffer.len(),
        ).post_batch_resume_token(self.post_batch_resume_token.as_ref()).document_resume_token(
            self.document_resume_token.as_ref(),
        ).last_optime(self.last_optime.as_ref());
        let stages = match &self.cstype {
            CSType::Deployment => builder.for_cluster().build(),
            _ => builder.build(),
        };
        let ghost stage_views = spec_command_stages(self@);
        assert(view_docs(stages@) == stage_views);
        let mut rest = stages;
        let mut arr: Vec<Bson> = Vec::new();
        while rest.len() > 0
            invariant
                arr@.len() + rest@.len() == stage_views.len(),
                forall|j: int| #![all_triggers] 0 <= j < arr@.len() ==> arr@[j]@
                    == SpecBson::Document(stage_views[j]),
                forall|j: int| #![all_triggers] 0 <= j < rest@.len() ==> rest@[j]@
                    == stage_views[arr@.len() + j],
            decreases rest@.len(),
        {
            let d = rest.remove(0);
            arr.push(Bson::Document(d));
        }
        let mut cmd = Document::new();
        match &self.cstype {
            CSType::Coll(name) => {
                cmd.insert(String::from_str("aggregate"), Bson::String(name.clone()));
            },
            _ => {
                cmd.insert(String::from_str("aggregate"), Bson::I32(1));
            },
        }
        cmd.insert(String::from_str("pipeline"), Bson::Array(arr));
        cmd.insert(String::from_str("cursor"), Bson::Document(Document::new()));
        proof {
            lemma_view_values(arr@);
            assert(view_values(arr@) =~= spec_command_stages(self@).map_values(
                |d: SpecDoc| SpecBson::Document(d),
            ));
            assert(crate::document::view_entries(Seq::<(String, Bson)>::empty()) =~= Seq::<
                (Seq<char>, SpecBson),
            >::empty());
        }
        cmd
    }

    /// Take in one successful fetch: replace the buffer with the batch in
    /// server order, take the checkpoint exactly as the server sent it,
    /// record the operation time, and leave the initial state behind.
    pub fn apply_payload(&mut self, p: CSPayload)
        ensures
            final(self)@ == spec_apply_payload(old(self)@, p@),
    {
        self.post_batch_resume_token = p.cursor.post_batch_resume_token;
        self.buffer = p.cursor.batch;
        self.last_optime = Some(p.operation_time);
        self.is_initial_agg = false;
    }

    /// Take in the outcome of a fetch on the live cursor, with the buffer
    /// drained. Nothing available and a decodable payload are final; a fetch
    /// error either propagates — always while initializing, and always for a
    /// denylisted server error — or asks the caller for exactly one rebuilt
    /// cursor, carrying the command to open it.
    pub fn handle_fetch(&mut self, fetched: Option<Result<Document, Error>>) -> (r:
        FetchDisposition)
        requires
            old(self)@.buffer.len() == 0,
        ensures
            match fetched {
                None => r == FetchDisposition::NoMore && *final(self) == *old(self),
                Some(Ok(d)) => match spec_decode_payload(d@) {
                    Some(p) => r == FetchDisposition::Filled && final(self)@
                        == spec_apply_payload(old(self)@, p),
                    None => (r matches FetchDisposition::Failed(e) && e is ConfigurationError)
                        && *final(self) == *old(self),
                },
                Some(Err(e)) => if spec_error_retry(old(self)@, e) {
                    (r matches FetchDisposition::Retry(cmd) && cmd@ == spec_rebuild_command(
                        old(self)@,
                    )) && *final(self) == *old(self)
                } else {
                    r == FetchDisposition::Failed(e) && *final(self) == *old(self)
                },
            },
    {
        match fetched {
            None => FetchDisposition::NoMore,
            Some(Ok(d)) => match decode_payload(&d) {
                Ok(p) => {
                    self.apply_payload(p);
                    FetchDisposition::Filled
                },
                Err(e) => FetchDisposition::Failed(e),
            },
            Some(Err(e)) => {
                if self.is_error_recoverable(&e) {
                    FetchDisposition::Retry(self.rebuild_command())
                } else {
                    FetchDisposition::Failed(e)
                }
            },
        }
    }

    /// Take in the outcome of the one fetch on a rebuilt cursor. A second
    /// error propagates unconditionally: the feed retries exactly once.
    pub fn handle_retry_fetch(&mut self, fetched: Option<Result<Document, Error>>) -> (r:
        FetchDisposition)
        requires
            old(self)@.buffer.len() == 0,
        ensures
            match fetched {
                None => r == FetchDisposition::NoMore && *final(self) == *old(self),
                Some(Ok(d)) => match spec_decode_payload(d@) {
                    Some(p) => r == FetchDisposition::Filled && final(self)@
                        == spec_apply_payload(old(self)@, p),
                    None => (r matches FetchDisposition::Failed(e) && e is ConfigurationError)
                        && *final(self) == *old(self),
                },
                Some(Err(e)) => r == FetchDisposition::Failed(e) && *final(self) == *old(self),
            },
    {
        match fetched {
            None => FetchDisposition::NoMore,
            Some(Ok(d)) => match decode_payload(&d) {
                Ok(p) => {
                    self.apply_payload(p);
                    FetchDisposition::Filled
                },
                Err(e) => FetchDisposition::Failed(e),
            },
            Some(Err(e)) => FetchDisposition::Failed(e),
        }
    }

    /// Whether the next production step needs a fetch first.
    pub fn needs_fetch(&self) -> (r: bool)
        ensures
            r == (self@.buffer.len() == 0),
    {
        self.buffer.len() == 0
    }

    /// Yield the oldest buffered notification, if any, remembering its token
    /// as the feed's position.
    pub fn pop_front(&mut self) -> (r: Option<ChangeStreamDocument>)
        ensures
            old(self)@.buffer.len() == 0 ==> r is None && *final(self) == *old(self),
            old(self)@.buffer.len() > 0 ==> (r matches Some(cd) && cd@ == old(self)@.buffer[0])
                && final(self)@ == (SpecFeed {
                buffer: old(self)@.buffer.drop_first(),
                document_resume_token: Some(old(self)@.buffer[0].id),
                ..old(self)@
            }),
    {
        if self.buffer.len() == 0 {
            None
        } else {
            let cd = self.buffer.remove(0);
            self.document_resume_token = Some(cd.id.deep_clone());
            proof {
                assert(view_change_docs(self.buffer@) =~= view_change_docs(
                    old(self).buffer@,
                ).drop_first());
            }
            Some(cd)
        }
    }
}

} // verus!
