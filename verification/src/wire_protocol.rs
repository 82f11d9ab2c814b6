//! Wire-protocol messages: their headers, their flag words, and the byte
//! sizes their serialized forms take on the wire.

use vstd::prelude::*;
use vstd::string::StringExecFns;
use crate::document::{Bson, Document, SpecBson, SpecDoc, view_entries, view_values,
    lemma_view_entries, lemma_view_values, view_docs, view_opt_doc};
use vstd::string::StringSliceAdditionalSpecFns;
use crate::error::Error;

verus! {

/// The byte length of a string's UTF-8 form, as the platform reports it.
pub open spec fn utf8_len(s: Seq<char>) -> int {
    (vstd::utf8::encode_utf8(s).len() as usize) as int
}

/// How many decimal digits an array index takes.
pub open spec fn spec_digits(n: int) -> int
    recommends
        n >= 0,
    decreases n,
{
    if n < 10 {
        1
    } else {
        1 + spec_digits(n / 10)
    }
}

/// The serialized size of one value: a document counts its frame, every
/// string counts a length word and a terminator, scalars their fixed widths.
pub open spec fn spec_bson_len(b: SpecBson) -> int
    decreases b,
{
    match b {
        SpecBson::FloatingPoint(_) => 8,
        SpecBson::String(s) => 5 + utf8_len(s),
        SpecBson::Array(els) => 5 + spec_array_len(els, 0),
        SpecBson::Document(d) => 5 + spec_entries_len(d),
        SpecBson::Boolean(_) => 1,
        SpecBson::Null => 0,
        SpecBson::RegExp(pat, opts) => utf8_len(pat) + utf8_len(opts) + 2,
        SpecBson::JavaScriptCode(js) => 5 + utf8_len(js),
        SpecBson::JavaScriptCodeWithScope(js, d) => 14 + utf8_len(js) + spec_entries_len(d),
        SpecBson::I32(_) => 4,
        SpecBson::I64(_) => 8,
        SpecBson::TimeStamp(_) => 8,
        SpecBson::Binary(_, data) => 5 + data.len() as int,
        SpecBson::ObjectId(_) => 12,
        SpecBson::UtcDatetime(_) => 8,
        SpecBson::Symbol(s) => 5 + utf8_len(s),
    }
}

/// The serialized size of an array's elements from index `idx` on: each
/// element carries a type tag, its decimal index as a key, a terminator, and
/// its own bytes.
pub open spec fn spec_array_len(els: Seq<SpecBson>, idx: int) -> int
    decreases els,
{
    if els.len() == 0 {
        0
    } else {
        spec_digits(idx) + 2 + spec_bson_len(els[0]) + spec_array_len(els.drop_first(), idx + 1)
    }
}

/// The serialized size of a document: a four-byte length word, the entries,
/// and a terminator.
pub open spec fn spec_doc_len(d: SpecDoc) -> int {
    5 + spec_entries_len(d)
}

/// The serialized size of a document's entries: each carries a type tag, its
/// key with a terminator, and its value's bytes.
pub open spec fn spec_entries_len(d: SpecDoc) -> int
    decreases d,
{
    if d.len() == 0 {
        0
    } else {
        2 + utf8_len(d[0].0) + spec_bson_len(d[0].1) + spec_entries_len(d.drop_first())
    }
}

/// Every serialized size is nonnegative (a document's at least its frame).
pub proof fn lemma_bson_len_nonneg(b: SpecBson)
    ensures
        spec_bson_len(b) >= 0,
    decreases b,
{
    match b {
        SpecBson::Array(els) => {
            lemma_array_len_nonneg(els, 0);
        },
        SpecBson::Document(d) => {
            lemma_entries_len_nonneg(d);
        },
        SpecBson::JavaScriptCodeWithScope(_, d) => {
            lemma_entries_len_nonneg(d);
        },
        _ => {},
    }
}

/// An array's element sizes are nonnegative.
pub proof fn lemma_array_len_nonneg(els: Seq<SpecBson>, idx: int)
    ensures
        spec_array_len(els, idx) >= 0,
    decreases els,
{
    if els.len() > 0 {
        lemma_digits_pos(idx);
        lemma_bson_len_nonneg(els[0]);
        lemma_array_len_nonneg(els.drop_first(), idx + 1);
    }
}

/// A document's entry sizes are nonnegative.
pub proof fn lemma_entries_len_nonneg(d: SpecDoc)
    ensures
        spec_entries_len(d) >= 0,
    decreases d,
{
    if d.len() > 0 {
        lemma_bson_len_nonneg(d[0].1);
        lemma_entries_len_nonneg(d.drop_first());
    }
}

/// A number takes at least one digit.
pub proof fn lemma_digits_pos(n: int)
    ensures
        spec_digits(n) >= 1,
    decreases n,
{
    if n >= 10 {
        lemma_digits_pos(n / 10);
    }
}

/// Ten to the `k`.
pub open spec fn pow10(k: int) -> int
    recommends
        k >= 0,
    decreases k,
{
    if k <= 0 {
        1
    } else {
        10 * pow10(k - 1)
    }
}

/// A number below ten to the `k` takes at most `k` digits.
pub proof fn lemma_digits_le(n: int, k: int)
    requires
        0 <= n,
        1 <= k,
        n < pow10(k),
    ensures
        spec_digits(n) <= k,
    decreases k,
{
    if n >= 10 {
        assert(pow10(k) == 10 * pow10(k - 1));
        lemma_digits_le(n / 10, k - 1);
    }
}

/// How many decimal digits `n` takes.
fn digits(n: usize) -> (r: i32)
    ensures
        r == spec_digits(n as int),
        1 <= r <= 20,
{
    proof {
        reveal_with_fuel(pow10, 21);
        assert(pow10(20) == 0x56BC75E2D63100000);
        lemma_digits_le(n as int, 20);
    }
    let mut m = n;
    let mut d: i32 = 1;
    while m >= 10
        invariant
            spec_digits(n as int) == d - 1 + spec_digits(m as int),
            1 <= d,
            spec_digits(n as int) <= 20,
        decreases m,
    {
        proof {
            lemma_digits_pos(m as int / 10);
        }
        m = m / 10;
        d = d + 1;
    }
    proof {
        lemma_digits_pos(n as int);
    }
    d
}

/// Add a nonnegative size to a running total, or report that the total no
/// longer fits a signed 32-bit length word.
fn add_len(acc: i32, term: i32) -> (r: Option<i32>)
    requires
        acc >= 0,
        term >= 0,
    ensures
        match r {
            Some(n) => n == acc + term,
            None => acc + term > i32::MAX,
        },
{
    acc.checked_add(term)
}

impl Bson {
    /// The number of bytes this value takes serialized, or an error when
    /// that exceeds what a 32-bit length word can carry.
    pub fn byte_length(&self) -> (r: Result<i32, Error>)
        ensures
            match r {
                Ok(n) => n == spec_bson_len(self@) && n <= i32::MAX,
                Err(e) => spec_bson_len(self@) > i32::MAX && e is ArgumentError,
            },
        decreases self,
    {
        proof {
            lemma_bson_len_nonneg(self@);
        }
        match self {
            Bson::FloatingPoint(_) => Ok(8),
            Bson::String(s) => string_payload_len(s),
            Bson::Array(els) => {
                let n = els.len();
                let mut acc: i32 = 0;
                let mut i: usize = 0;
                proof {
                    lemma_view_values(els@);
                    assert(view_values(els@).skip(0) =~= view_values(els@));
                }
                while i < n
                    invariant
                        *self == Bson::Array(*els),
                        n == els.len(),
                        i <= n,
                        0 <= acc <= i32::MAX,
                        view_values(els@).len() == n,
                        forall|j: int| 0 <= j < n ==> view_values(els@)[j] == els@[j]@,
                        spec_array_len(view_values(els@), 0) == acc + spec_array_len(
                            view_values(els@).skip(i as int),
                            i as int,
                        ),
                    decreases n - i,
                {
                    let ghost s = view_values(els@);
                    let ghost tail = s.skip(i as int);
                    proof {
                        assert(decreases_to!(*self => (*self)->Array_0));
                        assert((*self)->Array_0 == *els);
                        assert(decreases_to!(*els => els@));
                        assert(decreases_to!(els@ => els@[i as int]));
                        assert(tail[0] == s[i as int]);
                        assert(tail.drop_first() =~= s.skip(i + 1));
                        lemma_array_len_nonneg(s.skip(i + 1), i + 1);
                        lemma_bson_len_nonneg(s[i as int]);
                        lemma_digits_pos(i as int);
                    }
                    let elem_len = match els[i].byte_length() {
                        Ok(x) => x,
                        Err(e) => {
                            return Err(e);
                        },
                    };
                    let dg = digits(i);
                    let step = match add_len(elem_len, dg) {
                        Some(x) => x,
                        None => {
                            return Err(overlong());
                        },
                    };
                    let step = match add_len(step, 2) {
                        Some(x) => x,
                        None => {
                            return Err(overlong());
                        },
                    };
                    acc = match add_len(acc, step) {
                        Some(x) => x,
                        None => {
                            return Err(overlong());
                        },
                    };
                    i += 1;
                }
                proof {
                    assert(view_values(els@).skip(n as int) =~= Seq::<SpecBson>::empty());
                }
                match add_len(acc, 5) {
                    Some(x) => Ok(x),
                    None => Err(overlong()),
                }
            },
            Bson::Document(d) => d.byte_length(),
            Bson::Boolean(_) => Ok(1),
            Bson::Null => Ok(0),
            Bson::RegExp(pat, opts) => {
                let p = match checked_str_len(pat) {
                    Some(x) => x,
                    None => {
                        return Err(overlong());
                    },
                };
                let o = match checked_str_len(opts) {
                    Some(x) => x,
                    None => {
                        return Err(overlong());
                    },
                };
                let r = match add_len(p, o) {
                    Some(x) => x,
                    None => {
                        return Err(overlong());
                    },
                };
                match add_len(r, 2) {
                    Some(x) => Ok(x),
                    None => Err(overlong()),
                }
            },
            Bson::JavaScriptCode(js) => string_payload_len(js),
            Bson::JavaScriptCodeWithScope(js, d) => {
                proof {
                    lemma_entries_len_nonneg(view_entries(d.entries@));
                }
                let j = match checked_str_len(js) {
                    Some(x) => x,
                    None => {
                        return Err(overlong());
                    },
                };
                let s = match d.byte_length() {
                    Ok(x) => x,
                    Err(e) => {
                        return Err(e);
                    },
                };
                let r = match add_len(j, s) {
                    Some(x) => x,
                    None => {
                        return Err(overlong());
                    },
                };
                match add_len(r, 9) {
                    Some(x) => Ok(x),
                    None => Err(overlong()),
                }
            },
            Bson::I32(_) => Ok(4),
            Bson::I64(_) => Ok(8),
            Bson::TimeStamp(_) => Ok(8),
            Bson::Binary(_, data) => {
                if data.len() <= (i32::MAX - 5) as usize {
                    Ok(data.len() as i32 + 5)
                } else {
                    Err(overlong())
                }
            },
            Bson::ObjectId(_) => Ok(12),
            Bson::UtcDatetime(_) => Ok(8),
            Bson::Symbol(s) => string_payload_len(s),
        }
    }
}

impl Document {
    /// The number of bytes this document takes serialized, or an error when
    /// that exceeds what a 32-bit length word can carry.
    pub fn byte_length(&self) -> (r: Result<i32, Error>)
        ensures
            match r {
                Ok(n) => n == spec_doc_len(self@) && n <= i32::MAX,
                Err(e) => spec_doc_len(self@) > i32::MAX && e is ArgumentError,
            },
        decreases self,
    {
        proof {
            lemma_entries_len_nonneg(self@);
        }
        let n = self.entries.len();
        let mut acc: i32 = 5;
        let mut i: usize = 0;
        proof {
            lemma_view_entries(self.entries@);
            assert(self@.skip(0) =~= self@);
        }
        while i < n
            invariant
                n == self.entries.len(),
                i <= n,
                5 <= acc <= i32::MAX,
                self@.len() == n,
                forall|j: int| 0 <= j < n ==> self@[j] == (
                    self.entries@[j].0@,
                    self.entries@[j].1@,
                ),
                spec_doc_len(self@) == acc + spec_entries_len(self@.skip(i as int)),
            decreases n - i,
        {
            let ghost s = self@;
            let ghost tail = s.skip(i as int);
            proof {
                assert(tail[0] == s[i as int]);
                assert(tail.drop_first() =~= s.skip(i + 1));
                lemma_entries_len_nonneg(s.skip(i + 1));
                lemma_bson_len_nonneg(s[i as int].1);
                assert(decreases_to!(*self => self.entries));
                assert(decreases_to!(self.entries => self.entries@));
                assert(decreases_to!(self.entries@ => self.entries@[i as int]));
            }
            let key_len = match checked_str_len(&self.entries[i].0) {
                Some(x) => x,
                None => {
                    return Err(overlong());
                },
            };
            let val_len = match self.entries[i].1.byte_length() {
                Ok(x) => x,
                Err(e) => {
                    return Err(e);
                },
            };
            let step = match add_len(key_len, val_len) {
                Some(x) => x,
                None => {
                    return Err(overlong());
                },
            };
            let step = match add_len(step, 2) {
                Some(x) => x,
                None => {
                    return Err(overlong());
                },
            };
            acc = match add_len(acc, step) {
                Some(x) => x,
                None => {
                    return Err(overlong());
                },
            };
            i += 1;
        }
        proof {
            assert(self@.skip(n as int) =~= Seq::<(Seq<char>, SpecBson)>::empty());
        }
        Ok(acc)
    }
}

/// The byte length of a string, when it fits a signed 32-bit word.
fn checked_str_len(s: &String) -> (r: Option<i32>)
    ensures
        match r {
            Some(n) => n == utf8_len(s@) && n >= 0,
            None => utf8_len(s@) > i32::MAX,
        },
{
    let st = s.as_str();
    proof {
        assert(st@ == s@);
        assert(st.spec_bytes() == vstd::utf8::encode_utf8(s@));
    }
    let len = st.len();
    if len <= i32::MAX as usize {
        Some(len as i32)
    } else {
        None
    }
}

/// The serialized size of a string value: length word, bytes, terminator.
fn string_payload_len(s: &String) -> (r: Result<i32, Error>)
    ensures
        match r {
            Ok(n) => n == 5 + utf8_len(s@) && n <= i32::MAX,
            Err(e) => 5 + utf8_len(s@) > i32::MAX && e is ArgumentError,
        },
{
    match checked_str_len(s) {
        Some(n) => {
            if n <= i32::MAX - 5 {
                Ok(n + 5)
            } else {
                Err(overlong())
            }
        },
        None => Err(overlong()),
    }
}

/// The error for a value too large for a 32-bit length word.
fn overlong() -> (r: Error)
    ensures
        r is ArgumentError,
{
    Error::ArgumentError(
        String::from_str("The serialized form does not fit a 32-bit length word."),
    )
}

/// The options of a reply.
#[derive(Debug, Clone, Copy, PartialEq, Eq, Structural)]
pub struct OpReplyFlags {
    pub cursor_not_found: bool,
    pub query_failure: bool,
    pub await_capable: bool,
}

impl OpReplyFlags {
    /// The flags a reply's flag word denotes; undefined bits are dropped.
    pub fn from_bits_truncate(bits: i32) -> (r: OpReplyFlags)
        ensures
            r.cursor_not_found == ((bits & 1) != 0),
            r.query_failure == ((bits & 2) != 0),
            r.await_capable == ((bits & 8) != 0),
    {
        OpReplyFlags {
            cursor_not_found: (bits & 1) != 0,
            query_failure: (bits & 2) != 0,
            await_capable: (bits & 8) != 0,
        }
    }
}

/// The options of an update.
#[derive(Debug, Clone, Copy, PartialEq, Eq, Structural)]
pub struct OpUpdateFlags {
    pub upsert: bool,
    pub multi_update: bool,
}

/// The flag word of update options.
pub open spec fn spec_update_bits(f: OpUpdateFlags) -> i32 {
    (if f.upsert {
        1int
    } else {
        0int
    } + if f.multi_update {
        2int
    } else {
        0int
    }) as i32
}

impl OpUpdateFlags {
    /// No options set.
    pub fn no_flags() -> (r: OpUpdateFlags)
        ensures
            r == (OpUpdateFlags { upsert: false, multi_update: false }),
    {
        OpUpdateFlags { upsert: false, multi_update: false }
    }

    /// This value's flag word.
    pub fn bits(&self) -> (r: i32)
        ensures
            r == spec_update_bits(*self),
    {
        (if self.upsert {
            1
        } else {
            0
        }) + (if self.multi_update {
            2
        } else {
            0
        })
    }
}

/// The options of an insertion.
#[derive(Debug, Clone, Copy, PartialEq, Eq, Structural)]
pub struct OpInsertFlags {
    pub continue_on_error: bool,
}

/// The flag word of insert options.
pub open spec fn spec_insert_bits(f: OpInsertFlags) -> i32 {
    if f.continue_on_error {
        1
    } else {
        0
    }
}

impl OpInsertFlags {
    /// No options set.
    pub fn no_flags() -> (r: OpInsertFlags)
        ensures
            r == (OpInsertFlags { continue_on_error: false }),
    {
        OpInsertFlags { continue_on_error: false }
    }

    /// This value's flag word.
    pub fn bits(&self) -> (r: i32)
        ensures
            r == spec_insert_bits(*self),
    {
        if self.continue_on_error {
            1
        } else {
            0
        }
    }
}

/// The options of a query.
#[derive(Debug, Clone, Copy, PartialEq, Eq, Structural)]
pub struct OpQueryFlags {
    pub tailable_cursor: bool,
    pub slave_ok: bool,
    pub oplog_replay: bool,
    pub no_cursor_timeout: bool,
    pub await_data: bool,
    pub exhaust: bool,
    pub partial: bool,
}

/// The flag word of query options.
pub open spec fn spec_query_bits(f: OpQueryFlags) -> i32 {
    ((if f.tailable_cursor {
        2int
    } else {
        0int
    }) + (if f.slave_ok {
        4int
    } else {
        0int
    }) + (if f.oplog_replay {
        8int
    } else {
        0int
    }) + (if f.no_cursor_timeout {
        16int
    } else {
        0int
    }) + (if f.await_data {
        32int
    } else {
        0int
    }) + (if f.exhaust {
        64int
    } else {
        0int
    }) + (if f.partial {
        128int
    } else {
        0int
    })) as i32
}

impl OpQueryFlags {
    /// No options set.
    pub fn no_flags() -> (r: OpQueryFlags)
        ensures
            r == (OpQueryFlags {
                tailable_cursor: false,
                slave_ok: false,
                oplog_replay: false,
                no_cursor_timeout: false,
                await_data: false,
                exhaust: false,
                partial: false,
            }),
    {
        OpQueryFlags {
            tailable_cursor: false,
            slave_ok: false,
            oplog_replay: false,
            no_cursor_timeout: false,
            await_data: false,
            exhaust: false,
            partial: false,
        }
    }

    /// This value's flag word.
    pub fn bits(&self) -> (r: i32)
        ensures
            r == spec_query_bits(*self),
    {
        (if self.tailable_cursor {
            2
        } else {
            0
        }) + (if self.slave_ok {
            4
        } else {
            0
        }) + (if self.oplog_replay {
            8
        } else {
            0
        }) + (if self.no_cursor_timeout {
            16
        } else {
            0
        }) + (if self.await_data {
            32
        } else {
            0
        }) + (if self.exhaust {
            64
        } else {
            0
        }) + (if self.partial {
            128
        } else {
            0
        })
    }
}

/// The kind of a wire message.
#[derive(Debug, Clone, Copy, PartialEq, Eq, Structural)]
pub enum OpCode {
    Reply,
    Update,
    Insert,
    Query,
    GetMore,
}

/// The number an operation code puts on the wire.
pub open spec fn spec_opcode_value(c: OpCode) -> i32 {
    match c {
        OpCode::Reply => 1,
        OpCode::Update => 2001,
        OpCode::Insert => 2002,
        OpCode::Query => 2004,
        OpCode::GetMore => 2005,
    }
}

impl OpCode {
    /// The number this code puts on the wire.
    pub fn value(&self) -> (r: i32)
        ensures
            r == spec_opcode_value(*self),
    {
        match self {
            OpCode::Reply => 1,
            OpCode::Update => 2001,
            OpCode::Insert => 2002,
            OpCode::Query => 2004,
            OpCode::GetMore => 2005,
        }
    }
}

/// A wire message header takes sixteen bytes: four 32-bit words.
pub const HEADER_LENGTH: i32 = 16;

/// The fixed-size header every wire message starts with.
#[derive(Debug, Clone, Copy, PartialEq, Eq, Structural)]
pub struct Header {
    /// The whole message's size in bytes, header included.
    pub message_length: i32,
    /// The caller's identifier for this request.
    pub request_id: i32,
    /// For a reply, the request it answers; zero on requests.
    pub response_to: i32,
    /// What kind of message follows.
    pub op_code: OpCode,
}

impl Header {
    /// A header with every field given.
    pub fn new(message_length: i32, request_id: i32, response_to: i32, op_code: OpCode) -> (r:
        Header)
        ensures
            r == (Header { message_length, request_id, response_to, op_code }),
    {
        Header { message_length, request_id, response_to, op_code }
    }

    /// The header of an update request.
    pub fn new_update(message_length: i32, request_id: i32) -> (r: Header)
        ensures
            r == (Header { message_length, request_id, response_to: 0, op_code: OpCode::Update }),
    {
        Header::new(message_length, request_id, 0, OpCode::Update)
    }

    /// The header of an insert request.
    pub fn new_insert(message_length: i32, request_id: i32) -> (r: Header)
        ensures
            r == (Header { message_length, request_id, response_to: 0, op_code: OpCode::Insert }),
    {
        Header::new(message_length, request_id, 0, OpCode::Insert)
    }

    /// The header of a query request.
    pub fn new_query(message_length: i32, request_id: i32) -> (r: Header)
        ensures
            r == (Header { message_length, request_id, response_to: 0, op_code: OpCode::Query }),
    {
        Header::new(message_length, request_id, 0, OpCode::Query)
    }

    /// The header of a get-more request.
    pub fn new_get_more(message_length: i32, request_id: i32) -> (r: Header)
        ensures
            r == (Header { message_length, request_id, response_to: 0, op_code: OpCode::GetMore }),
    {
        Header::new(message_length, request_id, 0, OpCode::GetMore)
    }
}

/// One message of the wire protocol.
#[derive(Debug, PartialEq)]
pub enum Message {
    /// A server's reply to a query or get-more.
    OpReply {
        header: Header,
        flags: OpReplyFlags,
        cursor_id: i64,
        starting_from: i32,
        number_returned: i32,
        documents: Vec<Document>,
    },
    /// An update of matching documents.
    OpUpdate {
        header: Header,
        namespace: String,
        flags: OpUpdateFlags,
        selector: Document,
        update: Document,
    },
    /// An insertion of documents.
    OpInsert { header: Header, flags: OpInsertFlags, namespace: String, documents: Vec<Document> },
    /// A query against a collection.
    OpQuery {
        header: Header,
        flags: OpQueryFlags,
        namespace: String,
        number_to_skip: i32,
        number_to_return: i32,
        query: Document,
        return_field_selector: Option<Document>,
    },
    /// A request for more results from a live cursor.
    OpGetMore { header: Header, namespace: String, number_to_return: i32, cursor_id: i64 },
}

/// The wire size of an update message: the header, a reserved word and a
/// flag word, the namespace with its terminator, and the two documents.
pub open spec fn spec_update_msg_len(ns: Seq<char>, sel: SpecDoc, upd: SpecDoc) -> int {
    16 + 8 + utf8_len(ns) + 1 + spec_doc_len(sel) + spec_doc_len(upd)
}

/// The wire size of an insert message: the header, a flag word, the
/// namespace with its terminator, and the documents.
pub open spec fn spec_insert_msg_len(ns: Seq<char>, docs: Seq<SpecDoc>) -> int {
    16 + 4 + utf8_len(ns) + 1 + spec_docs_len(docs)
}

/// The summed wire size of a run of documents.
pub open spec fn spec_docs_len(docs: Seq<SpecDoc>) -> int
    decreases docs.len(),
{
    if docs.len() == 0 {
        0
    } else {
        spec_doc_len(docs[0]) + spec_docs_len(docs.drop_first())
    }
}

/// Every run of documents has a nonnegative summed size.
pub proof fn lemma_docs_len_nonneg(docs: Seq<SpecDoc>)
    ensures
        spec_docs_len(docs) >= 0,
    decreases docs.len(),
{
    if docs.len() > 0 {
        lemma_entries_len_nonneg(docs[0]);
        lemma_docs_len_nonneg(docs.drop_first());
    }
}

/// The wire size of a query message: the header, three 32-bit words, the
/// namespace with its terminator, the query, and the optional projection.
pub open spec fn spec_query_msg_len(ns: Seq<char>, query: SpecDoc, sel: Option<SpecDoc>) -> int {
    16 + 12 + utf8_len(ns) + 1 + spec_doc_len(query) + match sel {
        Some(d) => spec_doc_len(d),
        None => 0,
    }
}

/// The wire size of a get-more message: the header, a reserved word and a
/// count, the namespace with its terminator, and the cursor id.
pub open spec fn spec_get_more_msg_len(ns: Seq<char>) -> int {
    16 + 8 + utf8_len(ns) + 1 + 8
}

impl Message {
    /// A reply as the server sent it; the flag word is read bit by bit.
    pub fn new_reply(
        header: Header,
        flags: i32,
        cursor_id: i64,
        starting_from: i32,
        number_returned: i32,
        documents: Vec<Document>,
    ) -> (r: Message)
        ensures
            r == (Message::OpReply {
                header,
                flags: OpReplyFlags {
                    cursor_not_found: (flags & 1) != 0,
                    query_failure: (flags & 2) != 0,
                    await_capable: (flags & 8) != 0,
                },
                cursor_id,
                starting_from,
                number_returned,
                documents,
            }),
    {
        Message::OpReply {
            header,
            flags: OpReplyFlags::from_bits_truncate(flags),
            cursor_id,
            starting_from,
            number_returned,
            documents,
        }
    }

    /// An update message, its header's length computed from its parts; an
    /// error when that length does not fit a 32-bit word.
    pub fn new_update(
        request_id: i32,
        namespace: String,
        flags: OpUpdateFlags,
        selector: Document,
        update: Document,
    ) -> (r: Result<Message, Error>)
        ensures
            match r {
                Ok(m) => spec_update_msg_len(namespace@, selector@, update@) <= i32::MAX && m == (
                Message::OpUpdate {
                    header: Header {
                        message_length: spec_update_msg_len(namespace@, selector@, update@) as i32,
                        request_id,
                        response_to: 0,
                        op_code: OpCode::Update,
                    },
                    namespace,
                    flags,
                    selector,
                    update,
                }),
                Err(e) => spec_update_msg_len(namespace@, selector@, update@) > i32::MAX && e
                    is ArgumentError,
            },
    {
        proof {
            lemma_entries_len_nonneg(selector@);
            lemma_entries_len_nonneg(update@);
        }
        let ns_len = match checked_str_len(&namespace) {
            Some(x) => x,
            None => {
                return Err(overlong());
            },
        };
        let sel_len = match selector.byte_length() {
            Ok(x) => x,
            Err(e) => {
                return Err(e);
            },
        };
        let upd_len = match update.byte_length() {
            Ok(x) => x,
            Err(e) => {
                return Err(e);
            },
        };
        let mut total = match add_len(ns_len, sel_len) {
            Some(x) => x,
            None => {
                return Err(overlong());
            },
        };
        total = match add_len(total, upd_len) {
            Some(x) => x,
            None => {
                return Err(overlong());
            },
        };
        total = match add_len(total, 25) {
            Some(x) => x,
            None => {
                return Err(overlong());
            },
        };
        let header = Header::new_update(total, request_id);
        Ok(Message::OpUpdate { header, namespace, flags, selector, update })
    }

    /// An insert message, its header's length computed from its parts; an
    /// error when that length does not fit a 32-bit word.
    pub fn new_insert(
        request_id: i32,
        flags: OpInsertFlags,
        namespace: String,
        documents: Vec<Document>,
    ) -> (r: Result<Message, Error>)
        ensures
            match r {
                Ok(m) => spec_insert_msg_len(namespace@, view_docs(documents@)) <= i32::MAX
                    && m == (Message::OpInsert {
                    header: Header {
                        message_length: spec_insert_msg_len(
                            namespace@,
                            view_docs(documents@),
                        ) as i32,
                        request_id,
                        response_to: 0,
                        op_code: OpCode::Insert,
                    },
                    flags,
                    namespace,
                    documents,
                }),
                Err(e) => spec_insert_msg_len(namespace@, view_docs(documents@)) > i32::MAX
                    && e is ArgumentError,
            },
    {
        let ghost dviews = view_docs(documents@);
        let ns_len = match checked_str_len(&namespace) {
            Some(x) => x,
            None => {
                proof {
                    lemma_docs_len_nonneg(dviews);
                }
                return Err(overlong());
            },
        };
        let mut total = match add_len(ns_len, 21) {
            Some(x) => x,
            None => {
                proof {
                    lemma_docs_len_nonneg(dviews);
                }
                return Err(overlong());
            },
        };
        let n = documents.len();
        let mut i: usize = 0;
        proof {
            assert(dviews.skip(0) =~= dviews);
        }
        while i < n
            invariant
                n == documents.len(),
                i <= n,
                0 <= total <= i32::MAX,
                dviews == view_docs(documents@),
                dviews.len() == n,
                forall|j: int| 0 <= j < n ==> dviews[j] == documents@[j]@,
                spec_insert_msg_len(namespace@, dviews) == total + spec_docs_len(
                    dviews.skip(i as int),
                ),
            decreases n - i,
        {
            let ghost tail = dviews.skip(i as int);
            proof {
                assert(tail[0] == dviews[i as int]);
                assert(tail.drop_first() =~= dviews.skip(i + 1));
                lemma_docs_len_nonneg(dviews.skip(i + 1));
                lemma_entries_len_nonneg(dviews[i as int]);
            }
            let d_len = match documents[i].byte_length() {
                Ok(x) => x,
                Err(e) => {
                    return Err(e);
                },
            };
            total = match add_len(total, d_len) {
                Some(x) => x,
                None => {
                    return Err(overlong());
                },
            };
            i += 1;
        }
        proof {
            assert(dviews.skip(n as int) =~= Seq::<SpecDoc>::empty());
        }
        let header = Header::new_insert(total, request_id);
        Ok(Message::OpInsert { header, flags, namespace, documents })
    }

    /// A query message, its header's length computed from its parts; an
    /// error when that length does not fit a 32-bit word.
    pub fn new_query(
        request_id: i32,
        flags: OpQueryFlags,
        namespace: String,
        number_to_skip: i32,
        number_to_return: i32,
        query: Document,
        return_field_selector: Option<Document>,
    ) -> (r: Result<Message, Error>)
        ensures
            match r {
                Ok(m) => spec_query_msg_len(
                    namespace@,
                    query@,
                    view_opt_doc(return_field_selector),
                ) <= i32::MAX && m == (Message::OpQuery {
                    header: Header {
                        message_length: spec_query_msg_len(
                            namespace@,
                            query@,
                            view_opt_doc(return_field_selector),
                        ) as i32,
                        request_id,
                        response_to: 0,
                        op_code: OpCode::Query,
                    },
                    flags,
                    namespace,
                    number_to_skip,
                    number_to_return,
                    query,
                    return_field_selector,
                }),
                Err(e) => spec_query_msg_len(
                    namespace@,
                    query@,
                    view_opt_doc(return_field_selector),
                ) > i32::MAX && e is ArgumentError,
            },
    {
        proof {
            lemma_entries_len_nonneg(query@);
            match &return_field_selector {
                Some(d) => {
                    lemma_entries_len_nonneg(d@);
                },
                None => {},
            }
        }
        let ns_len = match checked_str_len(&namespace) {
            Some(x) => x,
            None => {
                return Err(overlong());
            },
        };
        let q_len = match query.byte_length() {
            Ok(x) => x,
            Err(e) => {
                return Err(e);
            },
        };
        let sel_len = match &return_field_selector {
            Some(d) => match d.byte_length() {
                Ok(x) => x,
                Err(e) => {
                    return Err(e);
                },
            },
            None => 0,
        };
        let mut total = match add_len(ns_len, q_len) {
            Some(x) => x,
            None => {
                return Err(overlong());
            },
        };
        total = match add_len(total, sel_len) {
            Some(x) => x,
            None => {
                return Err(overlong());
            },
        };
        total = match add_len(total, 29) {
            Some(x) => x,
            None => {
                return Err(overlong());
            },
        };
        let header = Header::new_query(total, request_id);
        Ok(Message::OpQuery {
            header,
            flags,
            namespace,
            number_to_skip,
            number_to_return,
            query,
            return_field_selector,
        })
    }

    /// A get-more message, its header's length computed from its parts; an
    /// error when that length does not fit a 32-bit word.
    pub fn new_get_more(
        request_id: i32,
        namespace: String,
        number_to_return: i32,
        cursor_id: i64,
    ) -> (r: Result<Message, Error>)
        ensures
            match r {
                Ok(m) => spec_get_more_msg_len(namespace@) <= i32::MAX && m == (
                Message::OpGetMore {
                    header: Header {
                        message_length: spec_get_more_msg_len(namespace@) as i32,
                        request_id,
                        response_to: 0,
                        op_code: OpCode::GetMore,
                    },
                    namespace,
                    number_to_return,
                    cursor_id,
                }),
                Err(e) => spec_get_more_msg_len(namespace@) > i32::MAX && e is ArgumentError,
            },
    {
        let ns_len = match checked_str_len(&namespace) {
            Some(x) => x,
            None => {
                return Err(overlong());
            },
        };
        let total = match add_len(ns_len, 33) {
            Some(x) => x,
            None => {
                return Err(overlong());
            },
        };
        let header = Header::new_get_more(total, request_id);
        Ok(Message::OpGetMore { header, namespace, number_to_return, cursor_id })
    }
}

} // verus!
