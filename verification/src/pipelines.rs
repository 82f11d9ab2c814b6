//! Building the query pipeline that opens or resumes a feed.
//!
//! The builder starts from the pipeline and options the feed was created
//! with — never from anything later — and derives at most one resume
//! directive from the current resume state, by a fixed precedence:
//! a batch-level checkpoint with a drained buffer first, then the token of
//! the last yielded document, then a caller-supplied start-after token,
//! then a caller-supplied resume-after token, then a start time.

use vstd::prelude::*;
use vstd::string::StringExecFns;
use crate::document::{Bson, Document, SpecBson, SpecDoc, Timestamp, lookup, put, del, has_key,
    keys_unique, lemma_lookup_put, lemma_lookup_del, lemma_put_unique, view_docs};
use crate::change_stream::{ChangeStreamOptions, SpecChangeStreamOptions, spec_options_doc};

verus! {

/// An optional borrowed document, viewed.
pub open spec fn view_opt_ref_doc(o: Option<&Document>) -> Option<SpecDoc> {
    match o {
        Some(d) => Some(d@),
        None => None,
    }
}

/// An optional borrowed timestamp, viewed.
pub open spec fn view_opt_ref_ts(o: Option<&Timestamp>) -> Option<Timestamp> {
    match o {
        Some(t) => Some(*t),
        None => None,
    }
}

/// The options document of the feed stage, after the resume-directive
/// precedence has been applied.
pub open spec fn spec_stage_options(
    o: SpecChangeStreamOptions,
    for_cluster: bool,
    drt: Option<SpecDoc>,
    pbrt: Option<SpecDoc>,
    buffer_len: int,
    last_optime: Option<Timestamp>,
) -> SpecDoc {
    let base = spec_options_doc(o);
    let base = if for_cluster {
        put(base, "allChangesForCluster"@, SpecBson::Boolean(true))
    } else {
        base
    };
    if pbrt is Some && buffer_len == 0 {
        del(
            del(put(base, "resumeAfter"@, SpecBson::Document(pbrt.unwrap())), "startAfter"@),
            "startAtOperationTime"@,
        )
    } else if drt is Some {
        del(
            del(put(base, "resumeAfter"@, SpecBson::Document(drt.unwrap())), "startAfter"@),
            "startAtOperationTime"@,
        )
    } else if o.start_after is Some {
        del(put(base, "resumeAfter"@, SpecBson::Document(o.start_after.unwrap())), "startAfter"@)
    } else if o.resume_after is Some {
        put(base, "resumeAfter"@, SpecBson::Document(o.resume_after.unwrap()))
    } else if last_optime is Some {
        put(base, "startAtOperationTime"@, SpecBson::TimeStamp(last_optime.unwrap()))
    } else if o.start_at_operation_time is Some {
        put(base, "startAtOperationTime"@, SpecBson::TimeStamp(o.start_at_operation_time.unwrap()))
    } else {
        base
    }
}

/// The feed stage itself: one entry, holding the stage options.
pub open spec fn spec_feed_stage(
    o: SpecChangeStreamOptions,
    for_cluster: bool,
    drt: Option<SpecDoc>,
    pbrt: Option<SpecDoc>,
    buffer_len: int,
    last_optime: Option<Timestamp>,
) -> SpecDoc {
    put(
        Seq::empty(),
        "$changeFeed"@,
        SpecBson::Document(spec_stage_options(o, for_cluster, drt, pbrt, buffer_len, last_optime)),
    )
}

/// The whole built pipeline: the feed stage, then the caller's original
/// stages unchanged and in order.
pub open spec fn spec_build(
    pipeline: Seq<SpecDoc>,
    o: SpecChangeStreamOptions,
    for_cluster: bool,
    drt: Option<SpecDoc>,
    pbrt: Option<SpecDoc>,
    buffer_len: int,
    last_optime: Option<Timestamp>,
) -> Seq<SpecDoc> {
    seq![spec_feed_stage(o, for_cluster, drt, pbrt, buffer_len, last_optime)] + pipeline
}

/// The resume token the built stage carries, by the precedence rules.
pub open spec fn spec_resume_directive(
    o: SpecChangeStreamOptions,
    drt: Option<SpecDoc>,
    pbrt: Option<SpecDoc>,
    buffer_len: int,
) -> Option<SpecBson> {
    if pbrt is Some && buffer_len == 0 {
        Some(SpecBson::Document(pbrt.unwrap()))
    } else if drt is Some {
        Some(SpecBson::Document(drt.unwrap()))
    } else if o.start_after is Some {
        Some(SpecBson::Document(o.start_after.unwrap()))
    } else if o.resume_after is Some {
        Some(SpecBson::Document(o.resume_after.unwrap()))
    } else {
        None
    }
}

/// The start time the built stage carries: none once any resume token
/// directive applies to the rebuilt query, the freshest known time when a
/// time directive is called for. Of a last observed time and a
/// caller-supplied start time, the last observed one wins: it was observed
/// more recently.
pub open spec fn spec_time_directive(
    o: SpecChangeStreamOptions,
    drt: Option<SpecDoc>,
    pbrt: Option<SpecDoc>,
    buffer_len: int,
    last_optime: Option<Timestamp>,
) -> Option<SpecBson> {
    if (pbrt is Some && buffer_len == 0) || drt is Some {
        None
    } else if o.start_after is Some || o.resume_after is Some {
        match o.start_at_operation_time {
            Some(ts) => Some(SpecBson::TimeStamp(ts)),
            None => None,
        }
    } else if last_optime is Some {
        Some(SpecBson::TimeStamp(last_optime.unwrap()))
    } else {
        match o.start_at_operation_time {
            Some(ts) => Some(SpecBson::TimeStamp(ts)),
            None => None,
        }
    }
}

/// The wire keys the builder writes are pairwise distinct.
proof fn lemma_distinct_keys()
    ensures
        "fullDocument"@ != "resumeAfter"@,
        "fullDocument"@ != "startAfter"@,
        "fullDocument"@ != "startAtOperationTime"@,
        "fullDocument"@ != "allChangesForCluster"@,
        "resumeAfter"@ != "startAfter"@,
        "resumeAfter"@ != "startAtOperationTime"@,
        "resumeAfter"@ != "allChangesForCluster"@,
        "resumeAfter"@ != "maxAwaitTimeMS"@,
        "resumeAfter"@ != "batchSize"@,
        "resumeAfter"@ != "collation"@,
        "startAfter"@ != "startAtOperationTime"@,
        "startAfter"@ != "allChangesForCluster"@,
        "startAfter"@ != "maxAwaitTimeMS"@,
        "startAfter"@ != "batchSize"@,
        "startAfter"@ != "collation"@,
        "startAtOperationTime"@ != "allChangesForCluster"@,
        "startAtOperationTime"@ != "maxAwaitTimeMS"@,
        "startAtOperationTime"@ != "batchSize"@,
        "startAtOperationTime"@ != "collation"@,
        "allChangesForCluster"@ != "maxAwaitTimeMS"@,
        "allChangesForCluster"@ != "batchSize"@,
        "allChangesForCluster"@ != "collation"@,
{
    reveal_strlit("fullDocument");
    reveal_strlit("resumeAfter");
    reveal_strlit("startAfter");
    reveal_strlit("startAtOperationTime");
    reveal_strlit("allChangesForCluster");
    reveal_strlit("maxAwaitTimeMS");
    reveal_strlit("batchSize");
    reveal_strlit("collation");
    assert("fullDocument"@.len() == 12);
    assert("resumeAfter"@.len() == 11);
    assert("startAfter"@.len() == 10);
    assert("startAtOperationTime"@.len() == 20);
    assert("allChangesForCluster"@.len() == 20);
    assert("maxAwaitTimeMS"@.len() == 14);
    assert("batchSize"@.len() == 9);
    assert("collation"@.len() == 9);
    assert("startAtOperationTime"@[0] == 's');
    assert("allChangesForCluster"@[0] == 'a');
}

/// What the serialized options document holds under the four keys the
/// precedence rules touch, and that its keys are unique.
pub proof fn lemma_options_doc(o: SpecChangeStreamOptions)
    ensures
        keys_unique(spec_options_doc(o)),
        lookup(spec_options_doc(o), "resumeAfter"@) == match o.resume_after {
            Some(t) => Some(SpecBson::Document(t)),
            None => None::<SpecBson>,
        },
        lookup(spec_options_doc(o), "startAfter"@) == match o.start_after {
            Some(t) => Some(SpecBson::Document(t)),
            None => None::<SpecBson>,
        },
        lookup(spec_options_doc(o), "startAtOperationTime"@) == match o.start_at_operation_time {
            Some(ts) => Some(SpecBson::TimeStamp(ts)),
            None => None::<SpecBson>,
        },
        lookup(spec_options_doc(o), "allChangesForCluster"@) is None,
{
    lemma_distinct_keys();
    let q1 = "resumeAfter"@;
    let q2 = "startAfter"@;
    let q3 = "startAtOperationTime"@;
    let q4 = "allChangesForCluster"@;
    let d0 = Seq::<(Seq<char>, SpecBson)>::empty();
    let v1 = SpecBson::String(o.full_document);
    let d1 = put(d0, "fullDocument"@, v1);
    lemma_put_unique(d0, "fullDocument"@, v1);
    lemma_lookup_put(d0, "fullDocument"@, v1, q1);
    lemma_lookup_put(d0, "fullDocument"@, v1, q2);
    lemma_lookup_put(d0, "fullDocument"@, v1, q3);
    lemma_lookup_put(d0, "fullDocument"@, v1, q4);
    let d2 = match o.resume_after {
        Some(t) => put(d1, q1, SpecBson::Document(t)),
        None => d1,
    };
    if o.resume_after is Some {
        let v = SpecBson::Document(o.resume_after.unwrap());
        lemma_put_unique(d1, q1, v);
        lemma_lookup_put(d1, q1, v, q1);
        lemma_lookup_put(d1, q1, v, q2);
        lemma_lookup_put(d1, q1, v, q3);
        lemma_lookup_put(d1, q1, v, q4);
    }
    let d3 = match o.max_await {
        Some(ms) => put(d2, "maxAwaitTimeMS"@, SpecBson::I64(ms)),
        None => d2,
    };
    if o.max_await is Some {
        let v = SpecBson::I64(o.max_await.unwrap());
        lemma_put_unique(d2, "maxAwaitTimeMS"@, v);
        lemma_lookup_put(d2, "maxAwaitTimeMS"@, v, q1);
        lemma_lookup_put(d2, "maxAwaitTimeMS"@, v, q2);
        lemma_lookup_put(d2, "maxAwaitTimeMS"@, v, q3);
        lemma_lookup_put(d2, "maxAwaitTimeMS"@, v, q4);
    }
    let d4 = match o.batch_size {
        Some(n) => put(d3, "batchSize"@, SpecBson::I32(n)),
        None => d3,
    };
    if o.batch_size is Some {
        let v = SpecBson::I32(o.batch_size.unwrap());
        lemma_put_unique(d3, "batchSize"@, v);
        lemma_lookup_put(d3, "batchSize"@, v, q1);
        lemma_lookup_put(d3, "batchSize"@, v, q2);
        lemma_lookup_put(d3, "batchSize"@, v, q3);
        lemma_lookup_put(d3, "batchSize"@, v, q4);
    }
    let d5 = match o.collation {
        Some(c) => put(d4, "collation"@, SpecBson::Document(c)),
        None => d4,
    };
    if o.collation is Some {
        let v = SpecBson::Document(o.collation.unwrap());
        lemma_put_unique(d4, "collation"@, v);
        lemma_lookup_put(d4, "collation"@, v, q1);
        lemma_lookup_put(d4, "collation"@, v, q2);
        lemma_lookup_put(d4, "collation"@, v, q3);
        lemma_lookup_put(d4, "collation"@, v, q4);
    }
    let d6 = match o.start_at_operation_time {
        Some(ts) => put(d5, q3, SpecBson::TimeStamp(ts)),
        None => d5,
    };
    if o.start_at_operation_time is Some {
        let v = SpecBson::TimeStamp(o.start_at_operation_time.unwrap());
        lemma_put_unique(d5, q3, v);
        lemma_lookup_put(d5, q3, v, q1);
        lemma_lookup_put(d5, q3, v, q2);
        lemma_lookup_put(d5, q3, v, q3);
        lemma_lookup_put(d5, q3, v, q4);
    }
    let d7 = match o.start_after {
        Some(t) => put(d6, q2, SpecBson::Document(t)),
        None => d6,
    };
    if o.start_after is Some {
        let v = SpecBson::Document(o.start_after.unwrap());
        lemma_put_unique(d6, q2, v);
        lemma_lookup_put(d6, q2, v, q1);
        lemma_lookup_put(d6, q2, v, q2);
        lemma_lookup_put(d6, q2, v, q3);
        lemma_lookup_put(d6, q2, v, q4);
    }
    assert(spec_options_doc(o) == d7);
}

/// What the built feed stage's options hold under the directive keys, for
/// every combination of options and resume state: the resume and time
/// directives are exactly those of the precedence rules, and a start-after
/// key never survives into a built stage.
pub proof fn lemma_stage_options(
    o: SpecChangeStreamOptions,
    for_cluster: bool,
    drt: Option<SpecDoc>,
    pbrt: Option<SpecDoc>,
    buffer_len: int,
    last_optime: Option<Timestamp>,
)
    ensures
        keys_unique(spec_stage_options(o, for_cluster, drt, pbrt, buffer_len, last_optime)),
        lookup(spec_stage_options(o, for_cluster, drt, pbrt, buffer_len, last_optime), "resumeAfter"@)
            == spec_resume_directive(o, drt, pbrt, buffer_len),
        lookup(spec_stage_options(o, for_cluster, drt, pbrt, buffer_len, last_optime), "startAfter"@)
            is None,
        lookup(
            spec_stage_options(o, for_cluster, drt, pbrt, buffer_len, last_optime),
            "startAtOperationTime"@,
        ) == spec_time_directive(o, drt, pbrt, buffer_len, last_optime),
{
    lemma_distinct_keys();
    lemma_options_doc(o);
    let q1 = "resumeAfter"@;
    let q2 = "startAfter"@;
    let q3 = "startAtOperationTime"@;
    let q4 = "allChangesForCluster"@;
    let b0 = spec_options_doc(o);
    let base = if for_cluster {
        put(b0, q4, SpecBson::Boolean(true))
    } else {
        b0
    };
    if for_cluster {
        lemma_put_unique(b0, q4, SpecBson::Boolean(true));
        lemma_lookup_put(b0, q4, SpecBson::Boolean(true), q1);
        lemma_lookup_put(b0, q4, SpecBson::Boolean(true), q2);
        lemma_lookup_put(b0, q4, SpecBson::Boolean(true), q3);
    }
    if pbrt is Some && buffer_len == 0 {
        let v = SpecBson::Document(pbrt.unwrap());
        let s1 = put(base, q1, v);
        lemma_put_unique(base, q1, v);
        lemma_lookup_put(base, q1, v, q1);
        lemma_lookup_put(base, q1, v, q2);
        lemma_lookup_put(base, q1, v, q3);
        let s2 = del(s1, q2);
        lemma_lookup_del(s1, q2, q1);
        lemma_lookup_del(s1, q2, q2);
        lemma_lookup_del(s1, q2, q3);
        lemma_lookup_del(s2, q3, q1);
        lemma_lookup_del(s2, q3, q2);
        lemma_lookup_del(s2, q3, q3);
    } else if drt is Some {
        let v = SpecBson::Document(drt.unwrap());
        let s1 = put(base, q1, v);
        lemma_put_unique(base, q1, v);
        lemma_lookup_put(base, q1, v, q1);
        lemma_lookup_put(base, q1, v, q2);
        lemma_lookup_put(base, q1, v, q3);
        let s2 = del(s1, q2);
        lemma_lookup_del(s1, q2, q1);
        lemma_lookup_del(s1, q2, q2);
        lemma_lookup_del(s1, q2, q3);
        lemma_lookup_del(s2, q3, q1);
        lemma_lookup_del(s2, q3, q2);
        lemma_lookup_del(s2, q3, q3);
    } else if o.start_after is Some {
        let v = SpecBson::Document(o.start_after.unwrap());
        let s1 = put(base, q1, v);
        lemma_put_unique(base, q1, v);
        lemma_lookup_put(base, q1, v, q1);
        lemma_lookup_put(base, q1, v, q2);
        lemma_lookup_put(base, q1, v, q3);
        lemma_lookup_del(s1, q2, q1);
        lemma_lookup_del(s1, q2, q2);
        lemma_lookup_del(s1, q2, q3);
    } else if o.resume_after is Some {
        let v = SpecBson::Document(o.resume_after.unwrap());
        lemma_put_unique(base, q1, v);
        lemma_lookup_put(base, q1, v, q1);
        lemma_lookup_put(base, q1, v, q2);
        lemma_lookup_put(base, q1, v, q3);
    } else if last_optime is Some {
        let v = SpecBson::TimeStamp(last_optime.unwrap());
        lemma_put_unique(base, q3, v);
        lemma_lookup_put(base, q3, v, q1);
        lemma_lookup_put(base, q3, v, q2);
        lemma_lookup_put(base, q3, v, q3);
    } else if o.start_at_operation_time is Some {
        let v = SpecBson::TimeStamp(o.start_at_operation_time.unwrap());
        lemma_put_unique(base, q3, v);
        lemma_lookup_put(base, q3, v, q1);
        lemma_lookup_put(base, q3, v, q2);
        lemma_lookup_put(base, q3, v, q3);
    }
}

/// LAW: building is deterministic. The built pipeline is a function of the
/// builder's mathematical state alone, so two builds from the same state
/// are identical.
pub proof fn lemma_build_deterministic(
    p1: Seq<SpecDoc>,
    o1: SpecChangeStreamOptions,
    c1: bool,
    d1: Option<SpecDoc>,
    b1: Option<SpecDoc>,
    l1: int,
    t1: Option<Timestamp>,
    p2: Seq<SpecDoc>,
    o2: SpecChangeStreamOptions,
    c2: bool,
    d2: Option<SpecDoc>,
    b2: Option<SpecDoc>,
    l2: int,
    t2: Option<Timestamp>,
)
    requires
        p1 == p2,
        o1 == o2,
        c1 == c2,
        d1 == d2,
        b1 == b2,
        l1 == l2,
        t1 == t2,
    ensures
        spec_build(p1, o1, c1, d1, b1, l1, t1) == spec_build(p2, o2, c2, d2, b2, l2, t2),
{
}

/// LAW: when a post-batch checkpoint is known and the buffer is empty, the
/// rebuilt stage resumes exactly from that checkpoint, with no start-after
/// and no start-at-time directive left.
pub proof fn lemma_precedence_post_batch(
    o: SpecChangeStreamOptions,
    for_cluster: bool,
    drt: Option<SpecDoc>,
    pbrt: SpecDoc,
    last_optime: Option<Timestamp>,
)
    ensures
        lookup(spec_stage_options(o, for_cluster, drt, Some(pbrt), 0, last_optime), "resumeAfter"@)
            == Some(SpecBson::Document(pbrt)),
        lookup(spec_stage_options(o, for_cluster, drt, Some(pbrt), 0, last_optime), "startAfter"@)
            is None,
        lookup(
            spec_stage_options(o, for_cluster, drt, Some(pbrt), 0, last_optime),
            "startAtOperationTime"@,
        ) is None,
{
    lemma_stage_options(o, for_cluster, drt, Some(pbrt), 0, last_optime);
}

/// LAW: when no post-batch checkpoint applies but a document resume token is
/// known, the rebuilt stage resumes exactly from that token, with no
/// start-after and no start-at-time directive left.
pub proof fn lemma_precedence_document_token(
    o: SpecChangeStreamOptions,
    for_cluster: bool,
    drt: SpecDoc,
    pbrt: Option<SpecDoc>,
    buffer_len: int,
    last_optime: Option<Timestamp>,
)
    requires
        !(pbrt is Some && buffer_len == 0),
    ensures
        lookup(
            spec_stage_options(o, for_cluster, Some(drt), pbrt, buffer_len, last_optime),
            "resumeAfter"@,
        ) == Some(SpecBson::Document(drt)),
        lookup(
            spec_stage_options(o, for_cluster, Some(drt), pbrt, buffer_len, last_optime),
            "startAfter"@,
        ) is None,
        lookup(
            spec_stage_options(o, for_cluster, Some(drt), pbrt, buffer_len, last_optime),
            "startAtOperationTime"@,
        ) is None,
{
    lemma_stage_options(o, for_cluster, Some(drt), pbrt, buffer_len, last_optime);
}

/// LAW: a built stage never carries both a resume-after and a start-after
/// directive — in fact it never carries start-after at all.
pub proof fn lemma_never_both_directives(
    o: SpecChangeStreamOptions,
    for_cluster: bool,
    drt: Option<SpecDoc>,
    pbrt: Option<SpecDoc>,
    buffer_len: int,
    last_optime: Option<Timestamp>,
)
    ensures
        !has_key(
            spec_stage_options(o, for_cluster, drt, pbrt, buffer_len, last_optime),
            "startAfter"@,
        ),
        !(has_key(
            spec_stage_options(o, for_cluster, drt, pbrt, buffer_len, last_optime),
            "resumeAfter"@,
        ) && has_key(
            spec_stage_options(o, for_cluster, drt, pbrt, buffer_len, last_optime),
            "startAfter"@,
        )),
{
    lemma_stage_options(o, for_cluster, drt, pbrt, buffer_len, last_optime);
}

/// Assembles the query pipeline for a feed, from the feed's original
/// pipeline and options plus its current resume state.
pub struct PipelineBuilder<'a> {
    pub pipeline: &'a Vec<Document>,
    pub options: &'a ChangeStreamOptions,
    pub for_cluster: bool,
    pub document_resume_token: Option<&'a Document>,
    pub post_batch_resume_token: Option<&'a Document>,
    pub buffer_len: usize,
    pub last_optime: Option<&'a Timestamp>,
}

impl<'a> PipelineBuilder<'a> {
    /// A builder over the pipeline and options the feed was created with.
    /// For the initial query, nothing more need be set; a rebuild sets the
    /// resume state through the other methods first.
    pub fn new(pipeline: &'a Vec<Document>, options: &'a ChangeStreamOptions, buffer_len: usize)
        -> (r: Self)
        ensures
            r.pipeline == pipeline,
            r.options == options,
            r.buffer_len == buffer_len,
            r.for_cluster == false,
            r.document_resume_token is None,
            r.post_batch_resume_token is None,
            r.last_optime is None,
    {
        PipelineBuilder {
            pipeline,
            options,
            buffer_len,
            for_cluster: false,
            document_resume_token: None,
            post_batch_resume_token: None,
            last_optime: None,
        }
    }

    /// Let the built stage watch the whole deployment.
    pub fn for_cluster(self) -> (r: Self)
        ensures
            r == (PipelineBuilder { for_cluster: true, ..self }),
    {
        PipelineBuilder { for_cluster: true, ..self }
    }

    /// Supply the token of the last document the feed yielded, if any.
    pub fn document_resume_token(self, opt: Option<&'a Document>) -> (r: Self)
        ensures
            r == (PipelineBuilder { document_resume_token: opt, ..self }),
    {
        PipelineBuilder { document_resume_token: opt, ..self }
    }

    /// Supply the last batch-level checkpoint the server reported, if any.
    pub fn post_batch_resume_token(self, opt: Option<&'a Document>) -> (r: Self)
        ensures
            r == (PipelineBuilder { post_batch_resume_token: opt, ..self }),
    {
        PipelineBuilder { post_batch_resume_token: opt, ..self }
    }

    /// Supply the last operation time the server reported, if any.
    pub fn last_optime(self, opt: Option<&'a Timestamp>) -> (r: Self)
        ensures
            r == (PipelineBuilder { last_optime: opt, ..self }),
    {
        PipelineBuilder { last_optime: opt, ..self }
    }

    /// Build the pipeline: the feed stage, then the original stages.
    pub fn build(self) -> (r: Vec<Document>)
        ensures
            view_docs(r@) == spec_build(
                view_docs(self.pipeline@),
                self.options@,
                self.for_cluster,
                view_opt_ref_doc(self.document_resume_token),
                view_opt_ref_doc(self.post_batch_resume_token),
                self.buffer_len as int,
                view_opt_ref_ts(self.last_optime),
            ),
    {
        let mut opts_doc = self.options.to_document();
        if self.for_cluster {
            opts_doc.insert(String::from_str("allChangesForCluster"), Bson::Boolean(true));
        }
        if self.post_batch_resume_token.is_some() && self.buffer_len == 0 {
            let tok = self.post_batch_resume_token.unwrap();
            opts_doc.insert(String::from_str("resumeAfter"), Bson::Document(tok.deep_clone()));
            opts_doc.remove(&String::from_str("startAfter"));
            opts_doc.remove(&String::from_str("startAtOperationTime"));
        } else if self.document_resume_token.is_some() {
            let tok = self.document_resume_token.unwrap();
            opts_doc.insert(String::from_str("resumeAfter"), Bson::Document(tok.deep_clone()));
            opts_doc.remove(&String::from_str("startAfter"));
            opts_doc.remove(&String::from_str("startAtOperationTime"));
        } else if self.options.start_after.is_some() {
            let tok = self.options.start_after.as_ref().unwrap();
            opts_doc.insert(String::from_str("resumeAfter"), Bson::Document(tok.deep_clone()));
            opts_doc.remove(&String::from_str("startAfter"));
        } else if self.options.resume_after.is_some() {
            let tok = self.options.resume_after.as_ref().unwrap();
            opts_doc.insert(String::from_str("resumeAfter"), Bson::Document(tok.deep_clone()));
        } else if self.last_optime.is_some() {
            let ts = self.last_optime.unwrap();
            opts_doc.insert(String::from_str("startAtOperationTime"), Bson::TimeStamp(*ts));
        } else if self.options.start_at_operation_time.is_some() {
            let ts = self.options.start_at_operation_time.as_ref().unwrap();
            opts_doc.insert(String::from_str("startAtOperationTime"), Bson::TimeStamp(*ts));
        }
        let mut stage = Document::new();
        stage.insert(String::from_str("$changeFeed"), Bson::Document(opts_doc));
        let ghost stage_view = spec_feed_stage(
            self.options@,
            self.for_cluster,
            view_opt_ref_doc(self.document_resume_token),
            view_opt_ref_doc(self.post_batch_resume_token),
            self.buffer_len as int,
            view_opt_ref_ts(self.last_optime),
        );
        assert(stage@ == stage_view);
        let n = self.pipeline.len();
        let mut out: Vec<Document> = Vec::new();
        out.push(stage);
        let mut i: usize = 0;
        while i < n
            invariant
                n == self.pipeline.len(),
                i <= n,
                out@.len() == 1 + i,
                out@[0]@ == stage_view,
                forall|j: int| 0 <= j < i ==> out@[j + 1]@ == self.pipeline@[j]@,
            decreases n - i,
        {
            let copy = self.pipeline[i].deep_clone();
            out.push(copy);
            i += 1;
        }
        proof {
            assert(view_docs(out@) =~= seq![stage_view] + view_docs(self.pipeline@));
        }
        out
    }
}

} // verus!
