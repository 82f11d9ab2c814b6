//! Serializing values and wire messages to bytes.
//!
//! `spec_encode_doc` is the byte-exact wire form of a document; the
//! executable encoders produce exactly those bytes, and fail exactly when a
//! frame length would not fit its signed 32-bit length word.

use vstd::prelude::*;
use vstd::string::StringExecFns;
use vstd::string::StringSliceAdditionalSpecFns;
use crate::document::{Bson, Document, SpecBson, SpecDoc, view_values, lemma_view_values,
    lemma_view_entries};
use crate::error::Error;
use crate::wire_protocol::{spec_bson_len, spec_doc_len, spec_entries_len, spec_array_len,
    spec_digits, utf8_len, lemma_bson_len_nonneg, lemma_entries_len_nonneg,
    lemma_array_len_nonneg, lemma_digits_pos, Header, Message, spec_opcode_value,
    spec_update_bits, spec_insert_bits, spec_query_bits};

verus! {

/// A 32-bit word, little endian.
pub open spec fn spec_le32(n: u32) -> Seq<u8> {
    seq![
        (n & 0xff) as u8,
        ((n >> 8) & 0xff) as u8,
        ((n >> 16) & 0xff) as u8,
        ((n >> 24) & 0xff) as u8,
    ]
}

/// A 32-bit signed number, little endian.
pub open spec fn le32i(n: int) -> Seq<u8> {
    spec_le32(n as u32)
}

/// A 64-bit word, little endian.
pub open spec fn spec_le64(n: u64) -> Seq<u8> {
    seq![
        (n & 0xff) as u8,
        ((n >> 8) & 0xff) as u8,
        ((n >> 16) & 0xff) as u8,
        ((n >> 24) & 0xff) as u8,
        ((n >> 32) & 0xff) as u8,
        ((n >> 40) & 0xff) as u8,
        ((n >> 48) & 0xff) as u8,
        ((n >> 56) & 0xff) as u8,
    ]
}

/// A 64-bit signed number, little endian.
pub open spec fn le64i(n: int) -> Seq<u8> {
    spec_le64(n as u64)
}

/// The type tag a value is stored under.
pub open spec fn spec_type_tag(b: SpecBson) -> u8 {
    match b {
        SpecBson::FloatingPoint(_) => 0x01,
        SpecBson::String(_) => 0x02,
        SpecBson::Document(_) => 0x03,
        SpecBson::Array(_) => 0x04,
        SpecBson::Binary(_, _) => 0x05,
        SpecBson::ObjectId(_) => 0x07,
        SpecBson::Boolean(_) => 0x08,
        SpecBson::UtcDatetime(_) => 0x09,
        SpecBson::Null => 0x0A,
        SpecBson::RegExp(_, _) => 0x0B,
        SpecBson::JavaScriptCode(_) => 0x0D,
        SpecBson::Symbol(_) => 0x0E,
        SpecBson::JavaScriptCodeWithScope(_, _) => 0x0F,
        SpecBson::I32(_) => 0x10,
        SpecBson::TimeStamp(_) => 0x11,
        SpecBson::I64(_) => 0x12,
    }
}

/// A string's bytes with a terminator.
pub open spec fn spec_cstring(s: Seq<char>) -> Seq<u8> {
    vstd::utf8::encode_utf8(s) + seq![0u8]
}

/// A string value: its framed byte count, its bytes, a terminator.
pub open spec fn spec_string_value(s: Seq<char>) -> Seq<u8> {
    le32i(utf8_len(s) + 1) + spec_cstring(s)
}

/// The decimal digits of `n`, most significant first, as bytes.
pub open spec fn spec_dec_digits(n: int) -> Seq<u8>
    recommends
        n >= 0,
    decreases n,
{
    if n < 10 {
        seq![(0x30 + n) as u8]
    } else {
        spec_dec_digits(n / 10) + seq![(0x30 + n % 10) as u8]
    }
}

/// The wire form of one value, without its tag or key.
pub open spec fn spec_encode_value(b: SpecBson) -> Seq<u8>
    decreases b,
{
    match b {
        SpecBson::FloatingPoint(bits) => spec_le64(bits),
        SpecBson::String(s) => spec_string_value(s),
        SpecBson::Array(els) => le32i(5 + spec_array_len(els, 0)) + spec_encode_elems(els, 0)
            + seq![0u8],
        SpecBson::Document(d) => le32i(5 + spec_entries_len(d)) + spec_encode_entries(d)
            + seq![0u8],
        SpecBson::Boolean(x) => seq![
            if x {
                1u8
            } else {
                0u8
            },
        ],
        SpecBson::Null => Seq::empty(),
        SpecBson::RegExp(pat, opts) => spec_cstring(pat) + spec_cstring(opts),
        SpecBson::JavaScriptCode(js) => spec_string_value(js),
        SpecBson::JavaScriptCodeWithScope(js, d) => le32i(14 + utf8_len(js) + spec_entries_len(d))
            + spec_string_value(js) + le32i(5 + spec_entries_len(d)) + spec_encode_entries(d)
            + seq![0u8],
        SpecBson::I32(n) => le32i(n as int),
        SpecBson::I64(n) => le64i(n as int),
        SpecBson::TimeStamp(ts) => spec_le32(ts.i) + spec_le32(ts.t),
        SpecBson::Binary(subtype, data) => le32i(data.len() as int) + seq![subtype] + data,
        SpecBson::ObjectId(id) => id,
        SpecBson::UtcDatetime(ms) => le64i(ms as int),
        SpecBson::Symbol(s) => spec_string_value(s),
    }
}

/// The wire form of a document's entries: tag, key, value, in order.
pub open spec fn spec_encode_entries(d: SpecDoc) -> Seq<u8>
    decreases d,
{
    if d.len() == 0 {
        Seq::empty()
    } else {
        seq![spec_type_tag(d[0].1)] + spec_cstring(d[0].0) + spec_encode_value(d[0].1)
            + spec_encode_entries(d.drop_first())
    }
}

/// The wire form of an array's elements from index `idx` on: tag, decimal
/// index as the key, value.
pub open spec fn spec_encode_elems(els: Seq<SpecBson>, idx: int) -> Seq<u8>
    decreases els,
{
    if els.len() == 0 {
        Seq::empty()
    } else {
        seq![spec_type_tag(els[0])] + spec_dec_digits(idx) + seq![0u8] + spec_encode_value(els[0])
            + spec_encode_elems(els.drop_first(), idx + 1)
    }
}

/// The wire form of a whole document: framed byte count, entries,
/// terminator.
pub open spec fn spec_encode_doc(d: SpecDoc) -> Seq<u8> {
    le32i(5 + spec_entries_len(d)) + spec_encode_entries(d) + seq![0u8]
}

/// Append a 32-bit signed number, little endian.
fn push_le32(out: &mut Vec<u8>, n: i32)
    ensures
        final(out)@ == old(out)@ + le32i(n as int),
{
    let u = n as u32;
    out.push((u & 0xff) as u8);
    out.push(((u >> 8) & 0xff) as u8);
    out.push(((u >> 16) & 0xff) as u8);
    out.push(((u >> 24) & 0xff) as u8);
    proof {
        assert(final(out)@ =~= old(out)@ + le32i(n as int));
    }
}

/// Append a 64-bit word, little endian.
fn push_le64(out: &mut Vec<u8>, n: u64)
    ensures
        final(out)@ == old(out)@ + spec_le64(n),
{
    out.push((n & 0xff) as u8);
    out.push(((n >> 8) & 0xff) as u8);
    out.push(((n >> 16) & 0xff) as u8);
    out.push(((n >> 24) & 0xff) as u8);
    out.push(((n >> 32) & 0xff) as u8);
    out.push(((n >> 40) & 0xff) as u8);
    out.push(((n >> 48) & 0xff) as u8);
    out.push(((n >> 56) & 0xff) as u8);
    proof {
        assert(final(out)@ =~= old(out)@ + spec_le64(n));
    }
}

/// Append a 64-bit signed number, little endian.
fn push_le64i(out: &mut Vec<u8>, n: i64)
    ensures
        final(out)@ == old(out)@ + le64i(n as int),
{
    push_le64(out, n as u64);
}

/// Append a string's bytes and its terminator.
fn push_cstring(out: &mut Vec<u8>, s: &String)
    ensures
        final(out)@ == old(out)@ + spec_cstring(s@),
{
    let st = s.as_str();
    let bytes = st.as_bytes();
    proof {
        assert(st@ == s@);
        assert(bytes@ == vstd::utf8::encode_utf8(s@));
    }
    out.extend_from_slice(bytes);
    out.push(0);
    proof {
        assert(final(out)@ =~= old(out)@ + spec_cstring(s@));
    }
}

/// Append a 32-bit word, little endian.
fn push_le32u(out: &mut Vec<u8>, n: u32)
    ensures
        final(out)@ == old(out)@ + spec_le32(n),
{
    out.push((n & 0xff) as u8);
    out.push(((n >> 8) & 0xff) as u8);
    out.push(((n >> 16) & 0xff) as u8);
    out.push(((n >> 24) & 0xff) as u8);
    proof {
        assert(final(out)@ =~= old(out)@ + spec_le32(n));
    }
}

/// Append the decimal digits of `n`, most significant first.
fn push_decimal(out: &mut Vec<u8>, n: usize)
    ensures
        final(out)@ == old(out)@ + spec_dec_digits(n as int),
    decreases n,
{
    if n >= 10 {
        push_decimal(out, n / 10);
        out.push(0x30 + (n % 10) as u8);
        proof {
            assert(final(out)@ =~= old(out)@ + spec_dec_digits(n as int));
        }
    } else {
        out.push(0x30 + n as u8);
        proof {
            assert(final(out)@ =~= old(out)@ + spec_dec_digits(n as int));
        }
    }
}

/// Whether a string is small enough that the platform's byte count for it
/// is exact. True of every string an executable value can hold.
pub open spec fn string_sized(s: Seq<char>) -> bool {
    vstd::utf8::encode_utf8(s).len() == utf8_len(s)
}

/// Whether every string in a value is exactly counted and every object id
/// has its twelve bytes. True of every executable value: its strings fit in
/// memory and its ids are twelve-byte arrays.
pub open spec fn value_sized(b: SpecBson) -> bool
    decreases b,
{
    match b {
        SpecBson::String(s) => string_sized(s),
        SpecBson::Array(els) => values_sized(els),
        SpecBson::Document(d) => entries_sized(d),
        SpecBson::RegExp(pat, opts) => string_sized(pat) && string_sized(opts),
        SpecBson::JavaScriptCode(js) => string_sized(js),
        SpecBson::JavaScriptCodeWithScope(js, d) => string_sized(js) && entries_sized(d),
        SpecBson::Symbol(s) => string_sized(s),
        SpecBson::ObjectId(id) => id.len() == 12,
        _ => true,
    }
}

/// `value_sized`, over a run of values.
pub open spec fn values_sized(els: Seq<SpecBson>) -> bool
    decreases els,
{
    els.len() == 0 || (value_sized(els[0]) && values_sized(els.drop_first()))
}

/// `value_sized`, over a document's entries, keys included.
pub open spec fn entries_sized(d: SpecDoc) -> bool
    decreases d,
{
    d.len() == 0 || (string_sized(d[0].0) && value_sized(d[0].1) && entries_sized(d.drop_first()))
}

/// A decimal rendering takes exactly one byte per digit.
pub proof fn lemma_dec_digits_len(n: int)
    requires
        n >= 0,
    ensures
        spec_dec_digits(n).len() == spec_digits(n),
    decreases n,
{
    if n >= 10 {
        lemma_dec_digits_len(n / 10);
    }
}

/// LAW: the size `byte_length` computes is exactly the length of the
/// encoded form, for every value whose strings and ids are exactly counted.
pub proof fn lemma_encoded_value_len(b: SpecBson)
    requires
        value_sized(b),
    ensures
        spec_encode_value(b).len() == spec_bson_len(b),
    decreases b,
{
    match b {
        SpecBson::Array(els) => {
            lemma_encoded_elems_len(els, 0);
        },
        SpecBson::Document(d) => {
            lemma_encoded_entries_len(d);
        },
        SpecBson::JavaScriptCodeWithScope(_, d) => {
            lemma_encoded_entries_len(d);
        },
        _ => {},
    }
}

/// The encoded entries of a document take exactly their counted size.
pub proof fn lemma_encoded_entries_len(d: SpecDoc)
    requires
        entries_sized(d),
    ensures
        spec_encode_entries(d).len() == spec_entries_len(d),
    decreases d,
{
    if d.len() > 0 {
        lemma_encoded_value_len(d[0].1);
        lemma_encoded_entries_len(d.drop_first());
    }
}

/// The encoded elements of an array take exactly their counted size.
pub proof fn lemma_encoded_elems_len(els: Seq<SpecBson>, idx: int)
    requires
        values_sized(els),
        idx >= 0,
    ensures
        spec_encode_elems(els, idx).len() == spec_array_len(els, idx),
    decreases els,
{
    if els.len() > 0 {
        lemma_dec_digits_len(idx);
        lemma_encoded_value_len(els[0]);
        lemma_encoded_elems_len(els.drop_first(), idx + 1);
    }
}

/// LAW: a whole document's encoded form takes exactly the size
/// `byte_length` computes for it.
pub proof fn lemma_encoded_doc_len(d: SpecDoc)
    requires
        entries_sized(d),
    ensures
        spec_encode_doc(d).len() == spec_doc_len(d),
{
    lemma_encoded_entries_len(d);
}

/// The type tag of a value.
fn type_tag(b: &Bson) -> (r: u8)
    ensures
        r == spec_type_tag(b@),
{
    match b {
        Bson::FloatingPoint(_) => 0x01,
        Bson::String(_) => 0x02,
        Bson::Document(_) => 0x03,
        Bson::Array(_) => 0x04,
        Bson::Binary(_, _) => 0x05,
        Bson::ObjectId(_) => 0x07,
        Bson::Boolean(_) => 0x08,
        Bson::UtcDatetime(_) => 0x09,
        Bson::Null => 0x0A,
        Bson::RegExp(_, _) => 0x0B,
        Bson::JavaScriptCode(_) => 0x0D,
        Bson::Symbol(_) => 0x0E,
        Bson::JavaScriptCodeWithScope(_, _) => 0x0F,
        Bson::I32(_) => 0x10,
        Bson::TimeStamp(_) => 0x11,
        Bson::I64(_) => 0x12,
    }
}

impl Bson {
    /// Append this value's wire form. An error leaves the buffer in an
    /// unspecified partial state and happens only when a frame length inside
    /// the value does not fit a signed 32-bit word — in which case the whole
    /// value's size does not either.
    pub fn encode_value_into(&self, out: &mut Vec<u8>) -> (r: Result<(), Error>)
        ensures
            match r {
                Ok(()) => final(out)@ == old(out)@ + spec_encode_value(self@),
                Err(e) => spec_bson_len(self@) > i32::MAX && e is ArgumentError,
            },
        decreases self,
    {
        match self {
            Bson::FloatingPoint(bits) => {
                push_le64(out, *bits);
                proof {
                    assert(out@ =~= old(out)@ + spec_encode_value(self@));
                }
                Ok(())
            },
            Bson::String(s) => encode_string_value(s, out),
            Bson::Array(els) => {
                let total = match self.byte_length() {
                    Ok(x) => x,
                    Err(e) => {
                        return Err(e);
                    },
                };
                let ghost base = out@;
                push_le32(out, total);
                let ghost views = view_values(els@);
                proof {
                    lemma_view_values(els@);
                    lemma_array_len_nonneg(views, 0);
                    assert(views.skip(0) =~= views);
                    assert(out@ + spec_encode_elems(views.skip(0), 0) + seq![0u8] =~= base
                        + le32i(5 + spec_array_len(views, 0)) + spec_encode_elems(views, 0)
                        + seq![0u8]);
                }
                let n = els.len();
                let mut i: usize = 0;
                while i < n
                    invariant
                        *self == Bson::Array(*els),
                        n == els.len(),
                        i <= n,
                        views == view_values(els@),
                        views.len() == n,
                        forall|j: int| 0 <= j < n ==> views[j] == els@[j]@,
                        5 + spec_array_len(views, 0) <= i32::MAX,
                        spec_array_len(views.skip(i as int), i as int) <= spec_array_len(views, 0),
                        out@ + spec_encode_elems(views.skip(i as int), i as int) + seq![0u8]
                            == base + spec_encode_value(Bson::Array(*els)@),
                    decreases n - i,
                {
                    let ghost tail = views.skip(i as int);
                    let ghost out0 = out@;
                    proof {
                        assert(tail[0] == views[i as int]);
                        assert(tail.drop_first() =~= views.skip(i + 1));
                        lemma_array_len_nonneg(views.skip(i + 1), i + 1);
                        lemma_bson_len_nonneg(views[i as int]);
                        lemma_digits_pos(i as int);
                        assert(decreases_to!(*self => (*self)->Array_0));
                        assert((*self)->Array_0 == *els);
                        assert(decreases_to!(*els => els@));
                        assert(decreases_to!(els@ => els@[i as int]));
                    }
                    let tag = type_tag(&els[i]);
                    out.push(tag);
                    push_decimal(out, i);
                    out.push(0);
                    match els[i].encode_value_into(out) {
                        Ok(()) => {},
                        Err(e) => {
                            proof {
                                assert(spec_bson_len(views[i as int]) <= spec_array_len(
                                    views.skip(i as int),
                                    i as int,
                                ));
                                assert(false);
                            }
                            return Err(e);
                        },
                    }
                    proof {
                        assert(out@ + spec_encode_elems(views.skip(i + 1), i + 1) + seq![0u8] =~=
                            out0 + spec_encode_elems(views.skip(i as int), i as int) + seq![0u8]);
                    }
                    i += 1;
                }
                proof {
                    assert(views.skip(n as int) =~= Seq::<SpecBson>::empty());
                }
                out.push(0);
                proof {
                    assert(out@ =~= old(out)@ + spec_encode_value(self@));
                }
                Ok(())
            },
            Bson::Document(d) => {
                match d.encode_into(out) {
                    Ok(()) => Ok(()),
                    Err(e) => Err(e),
                }
            },
            Bson::Boolean(x) => {
                out.push(
                    if *x {
                        1
                    } else {
                        0
                    },
                );
                proof {
                    assert(out@ =~= old(out)@ + spec_encode_value(self@));
                }
                Ok(())
            },
            Bson::Null => {
                proof {
                    assert(out@ =~= old(out)@ + spec_encode_value(self@));
                }
                Ok(())
            },
            Bson::RegExp(pat, opts) => {
                push_cstring(out, pat);
                push_cstring(out, opts);
                proof {
                    assert(out@ =~= old(out)@ + spec_encode_value(self@));
                }
                Ok(())
            },
            Bson::JavaScriptCode(js) => encode_string_value(js, out),
            Bson::JavaScriptCodeWithScope(js, d) => {
                proof {
                    lemma_entries_len_nonneg(crate::document::view_entries(d.entries@));
                }
                let total = match self.byte_length() {
                    Ok(x) => x,
                    Err(e) => {
                        return Err(e);
                    },
                };
                push_le32(out, total);
                let js_len = match checked_str_len(js) {
                    Some(x) => x,
                    None => {
                        proof {
                            assert(false);
                        }
                        return Err(Error::ArgumentError(String::from_str(
                            "The serialized form does not fit a 32-bit length word.",
                        )));
                    },
                };
                push_le32(out, js_len + 1);
                push_cstring(out, js);
                match d.encode_into(out) {
                    Ok(()) => {},
                    Err(e) => {
                        proof {
                            assert(false);
                        }
                        return Err(e);
                    },
                }
                proof {
                    assert(out@ =~= old(out)@ + spec_encode_value(self@));
                }
                Ok(())
            },
            Bson::I32(n) => {
                push_le32(out, *n);
                proof {
                    assert(out@ =~= old(out)@ + spec_encode_value(self@));
                }
                Ok(())
            },
            Bson::I64(n) => {
                push_le64i(out, *n);
                proof {
                    assert(out@ =~= old(out)@ + spec_encode_value(self@));
                }
                Ok(())
            },
            Bson::TimeStamp(ts) => {
                push_le32u(out, ts.i);
                push_le32u(out, ts.t);
                proof {
                    assert(out@ =~= old(out)@ + spec_encode_value(self@));
                }
                Ok(())
            },
            Bson::Binary(subtype, data) => {
                let total = match self.byte_length() {
                    Ok(x) => x,
                    Err(e) => {
                        return Err(e);
                    },
                };
                push_le32(out, total - 5);
                out.push(*subtype);
                out.extend_from_slice(data.as_slice());
                proof {
                    assert(out@ =~= old(out)@ + spec_encode_value(self@));
                }
                Ok(())
            },
            Bson::ObjectId(id) => {
                out.extend_from_slice(vstd::array::array_as_slice(id));
                proof {
                    assert(out@ =~= old(out)@ + spec_encode_value(self@));
                }
                Ok(())
            },
            Bson::UtcDatetime(ms) => {
                push_le64i(out, *ms);
                proof {
                    assert(out@ =~= old(out)@ + spec_encode_value(self@));
                }
                Ok(())
            },
            Bson::Symbol(s) => encode_string_value(s, out),
        }
    }
}

/// Append a framed string value.
fn encode_string_value(s: &String, out: &mut Vec<u8>) -> (r: Result<(), Error>)
    ensures
        match r {
            Ok(()) => final(out)@ == old(out)@ + spec_string_value(s@),
            Err(e) => 5 + utf8_len(s@) > i32::MAX && e is ArgumentError,
        },
{
    match checked_str_len(s) {
        Some(n) => {
            if n <= i32::MAX - 5 {
                push_le32(out, n + 1);
                push_cstring(out, s);
                proof {
                    assert(out@ =~= old(out)@ + spec_string_value(s@));
                }
                Ok(())
            } else {
                Err(Error::ArgumentError(String::from_str(
                    "The serialized form does not fit a 32-bit length word.",
                )))
            }
        },
        None => Err(Error::ArgumentError(String::from_str(
            "The serialized form does not fit a 32-bit length word.",
        ))),
    }
}

/// The byte length of a string, when it fits a signed 32-bit word.
fn checked_str_len(s: &String) -> (r: Option<i32>)
    ensures
        match r {
            Some(n) => n == utf8_len(s@) && n >= 0,
            None => utf8_len(s@) > i32::MAX,
        },
{
    let st = s.as_str();
    proof {
        assert(st@ == s@);
        assert(st.spec_bytes() == vstd::utf8::encode_utf8(s@));
    }
    let len = st.len();
    if len <= i32::MAX as usize {
        Some(len as i32)
    } else {
        None
    }
}

impl Document {
    /// Append this document's wire form. An error leaves the buffer in an
    /// unspecified partial state and happens exactly when the document's
    /// frame length does not fit a signed 32-bit word.
    pub fn encode_into(&self, out: &mut Vec<u8>) -> (r: Result<(), Error>)
        ensures
            match r {
                Ok(()) => spec_doc_len(self@) <= i32::MAX && final(out)@ == old(out)@
                    + spec_encode_doc(self@),
                Err(e) => spec_doc_len(self@) > i32::MAX && e is ArgumentError,
            },
        decreases self,
    {
        let total = match self.byte_length() {
            Ok(x) => x,
            Err(e) => {
                return Err(e);
            },
        };
        let ghost base = out@;
        push_le32(out, total);
        proof {
            lemma_view_entries(self.entries@);
            lemma_entries_len_nonneg(self@);
            assert(self@.skip(0) =~= self@);
            assert(out@ + spec_encode_entries(self@.skip(0)) + seq![0u8] =~= base
                + spec_encode_doc(self@));
        }
        let n = self.entries.len();
        let mut i: usize = 0;
        while i < n
            invariant
                n == self.entries.len(),
                i <= n,
                self@.len() == n,
                forall|j: int| 0 <= j < n ==> self@[j] == (
                    self.entries@[j].0@,
                    self.entries@[j].1@,
                ),
                spec_entries_len(self@) <= i32::MAX - 5,
                spec_entries_len(self@.skip(i as int)) <= spec_entries_len(self@),
                out@ + spec_encode_entries(self@.skip(i as int)) + seq![0u8] == base
                    + spec_encode_doc(self@),
            decreases n - i,
        {
            let ghost tail = self@.skip(i as int);
            let ghost out0 = out@;
            proof {
                assert(tail[0] == self@[i as int]);
                assert(tail.drop_first() =~= self@.skip(i + 1));
                lemma_entries_len_nonneg(self@.skip(i + 1));
                lemma_bson_len_nonneg(self@[i as int].1);
                assert(decreases_to!(*self => self.entries));
                assert(decreases_to!(self.entries => self.entries@));
                assert(decreases_to!(self.entries@ => self.entries@[i as int]));
            }
            let tag = type_tag(&self.entries[i].1);
            out.push(tag);
            push_cstring(out, &self.entries[i].0);
            match self.entries[i].1.encode_value_into(out) {
                Ok(()) => {},
                Err(e) => {
                    proof {
                        assert(spec_bson_len(self@[i as int].1) <= spec_entries_len(tail));
                        assert(false);
                    }
                    return Err(e);
                },
            }
            proof {
                assert(out@ + spec_encode_entries(self@.skip(i + 1)) + seq![0u8] =~= out0
                    + spec_encode_entries(tail) + seq![0u8]);
            }
            i += 1;
        }
        proof {
            assert(self@.skip(n as int) =~= Seq::<(Seq<char>, SpecBson)>::empty());
        }
        out.push(0);
        proof {
            assert(out@ =~= base + spec_encode_doc(self@));
        }
        Ok(())
    }

    /// This document's wire form, or an error when its frame length does not
    /// fit a signed 32-bit word.
    pub fn to_bytes(&self) -> (r: Result<Vec<u8>, Error>)
        ensures
            match r {
                Ok(bytes) => spec_doc_len(self@) <= i32::MAX && bytes@ == spec_encode_doc(self@),
                Err(e) => spec_doc_len(self@) > i32::MAX && e is ArgumentError,
            },
    {
        let mut out: Vec<u8> = Vec::new();
        match self.encode_into(&mut out) {
            Ok(()) => {
                proof {
                    assert(out@ =~= spec_encode_doc(self@));
                }
                Ok(out)
            },
            Err(e) => Err(e),
        }
    }
}

/// The wire form of a message header: four 32-bit words.
pub open spec fn spec_encode_header(h: Header) -> Seq<u8> {
    le32i(h.message_length as int) + le32i(h.request_id as int) + le32i(h.response_to as int)
        + le32i(spec_opcode_value(h.op_code) as int)
}

/// The wire forms of a run of documents, one after the other.
pub open spec fn spec_encode_docs(docs: Seq<SpecDoc>) -> Seq<u8>
    decreases docs.len(),
{
    if docs.len() == 0 {
        Seq::empty()
    } else {
        spec_encode_doc(docs[0]) + spec_encode_docs(docs.drop_first())
    }
}

/// The wire form of a whole message. A reply has none here: only the server
/// sends replies.
pub open spec fn spec_encode_message(m: Message) -> Seq<u8> {
    match m {
        Message::OpReply { .. } => Seq::empty(),
        Message::OpUpdate { header, namespace, flags, selector, update } => spec_encode_header(
            header,
        ) + le32i(0) + spec_cstring(namespace@) + le32i(spec_update_bits(flags) as int)
            + spec_encode_doc(selector@) + spec_encode_doc(update@),
        Message::OpInsert { header, flags, namespace, documents } => spec_encode_header(header)
            + le32i(spec_insert_bits(flags) as int) + spec_cstring(namespace@) + spec_encode_docs(
            crate::document::view_docs(documents@),
        ),
        Message::OpQuery {
            header,
            flags,
            namespace,
            number_to_skip,
            number_to_return,
            query,
            return_field_selector,
        } => spec_encode_header(header) + le32i(spec_query_bits(flags) as int) + spec_cstring(
            namespace@,
        ) + le32i(number_to_skip as int) + le32i(number_to_return as int) + spec_encode_doc(query@)
            + (match return_field_selector {
            Some(d) => spec_encode_doc(d@),
            None => Seq::empty(),
        }),
        Message::OpGetMore { header, namespace, number_to_return, cursor_id } =>
            spec_encode_header(header) + le32i(0) + spec_cstring(namespace@) + le32i(
            number_to_return as int,
        ) + le64i(cursor_id as int),
    }
}

/// Whether every document in the run fits its 32-bit frame length word.
pub open spec fn spec_docs_fit(docs: Seq<SpecDoc>) -> bool {
    forall|j: int| 0 <= j < docs.len() ==> spec_doc_len(docs[j]) <= i32::MAX
}

/// Append a message header.
fn push_header(out: &mut Vec<u8>, h: &Header)
    ensures
        final(out)@ == old(out)@ + spec_encode_header(*h),
{
    push_le32(out, h.message_length);
    push_le32(out, h.request_id);
    push_le32(out, h.response_to);
    push_le32(out, h.op_code.value());
    proof {
        assert(final(out)@ =~= old(out)@ + spec_encode_header(*h));
    }
}

impl Message {
    /// The bytes this message puts on the wire. A reply is refused — only
    /// the server sends replies — and a document whose frame length does not
    /// fit a signed 32-bit word is an error.
    pub fn to_bytes(&self) -> (r: Result<Vec<u8>, Error>)
        ensures
            match self {
                Message::OpReply { .. } => r matches Err(e) && e is ArgumentError,
                Message::OpUpdate { selector, update, .. } => match r {
                    Ok(bytes) => bytes@ == spec_encode_message(*self),
                    Err(e) => e is ArgumentError && (spec_doc_len(selector@) > i32::MAX
                        || spec_doc_len(update@) > i32::MAX),
                },
                Message::OpInsert { documents, .. } => match r {
                    Ok(bytes) => bytes@ == spec_encode_message(*self),
                    Err(e) => e is ArgumentError && !spec_docs_fit(
                        crate::document::view_docs(documents@),
                    ),
                },
                Message::OpQuery { query, return_field_selector, .. } => match r {
                    Ok(bytes) => bytes@ == spec_encode_message(*self),
                    Err(e) => e is ArgumentError && (spec_doc_len(query@) > i32::MAX || (
                    match return_field_selector {
                        Some(d) => spec_doc_len(d@) > i32::MAX,
                        None => false,
                    })),
                },
                Message::OpGetMore { .. } => r matches Ok(bytes) && bytes@ == spec_encode_message(
                    *self,
                ),
            },
    {
        let mut out: Vec<u8> = Vec::new();
        match self {
            Message::OpReply { .. } => Err(Error::ArgumentError(
                String::from_str("OP_REPLY should not be sent to the client."),
            )),
            Message::OpUpdate { header, namespace, flags, selector, update } => {
                push_header(&mut out, header);
                push_le32(&mut out, 0);
                push_cstring(&mut out, namespace);
                push_le32(&mut out, flags.bits());
                match selector.encode_into(&mut out) {
                    Ok(()) => {},
                    Err(e) => {
                        return Err(e);
                    },
                }
                match update.encode_into(&mut out) {
                    Ok(()) => {},
                    Err(e) => {
                        return Err(e);
                    },
                }
                proof {
                    assert(out@ =~= spec_encode_message(*self));
                }
                Ok(out)
            },
            Message::OpInsert { header, flags, namespace, documents } => {
                push_header(&mut out, header);
                push_le32(&mut out, flags.bits());
                push_cstring(&mut out, namespace);
                let ghost views = crate::document::view_docs(documents@);
                let ghost base = out@;
                proof {
                    assert(views.skip(0) =~= views);
                    assert(out@ + spec_encode_docs(views.skip(0)) =~= base + spec_encode_docs(
                        views,
                    ));
                }
                let n = documents.len();
                let mut i: usize = 0;
                while i < n
                    invariant
                        *self == (Message::OpInsert {
                            header: *header,
                            flags: *flags,
                            namespace: *namespace,
                            documents: *documents,
                        }),
                        n == documents.len(),
                        i <= n,
                        views == crate::document::view_docs(documents@),
                        views.len() == n,
                        forall|j: int| 0 <= j < n ==> views[j] == documents@[j]@,
                        out@ + spec_encode_docs(views.skip(i as int)) == base + spec_encode_docs(
                            views,
                        ),
                    decreases n - i,
                {
                    let ghost tail = views.skip(i as int);
                    let ghost out0 = out@;
                    proof {
                        assert(tail[0] == views[i as int]);
                        assert(tail.drop_first() =~= views.skip(i + 1));
                    }
                    match documents[i].encode_into(&mut out) {
                        Ok(()) => {},
                        Err(e) => {
                            proof {
                                assert(spec_doc_len(views[i as int]) > i32::MAX);
                                assert(!spec_docs_fit(views));
                            }
                            return Err(e);
                        },
                    }
                    proof {
                        assert(out@ + spec_encode_docs(views.skip(i + 1)) =~= out0
                            + spec_encode_docs(tail));
                    }
                    i += 1;
                }
                proof {
                    assert(views.skip(n as int) =~= Seq::<SpecDoc>::empty());
                    assert(out@ =~= spec_encode_message(*self));
                }
                Ok(out)
            },
            Message::OpQuery {
                header,
                flags,
                namespace,
                number_to_skip,
                number_to_return,
                query,
                return_field_selector,
            } => {
                push_header(&mut out, header);
                push_le32(&mut out, flags.bits());
                push_cstring(&mut out, namespace);
                push_le32(&mut out, *number_to_skip);
                push_le32(&mut out, *number_to_return);
                match query.encode_into(&mut out) {
                    Ok(()) => {},
                    Err(e) => {
                        return Err(e);
                    },
                }
                match return_field_selector {
                    Some(d) => {
                        match d.encode_into(&mut out) {
                            Ok(()) => {},
                            Err(e) => {
                                return Err(e);
                            },
                        }
                    },
                    None => {},
                }
                proof {
                    assert(out@ =~= spec_encode_message(*self));
                }
                Ok(out)
            },
            Message::OpGetMore { header, namespace, number_to_return, cursor_id } => {
                push_header(&mut out, header);
                push_le32(&mut out, 0);
                push_cstring(&mut out, namespace);
                push_le32(&mut out, *number_to_return);
                push_le64i(&mut out, *cursor_id);
                proof {
                    assert(out@ =~= spec_encode_message(*self));
                }
                Ok(out)
            },
        }
    }
}

} // verus!
