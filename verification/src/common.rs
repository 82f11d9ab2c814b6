//! Driver-wide configuration values: read concern, read preference and
//! write concern, with their wire documents.

use vstd::prelude::*;
use vstd::string::StringExecFns;
use crate::document::{Bson, Document, SpecBson, SpecDoc, put, view_values, lemma_view_values,
    lemma_view_entries};
use crate::error::Error;

verus! {

/// Level of consistency and isolation asked of a read.
#[derive(Debug, Clone, Copy, PartialEq, Eq, Hash, Structural)]
pub enum ReadConcernLevel {
    Local,
    Available,
    Majority,
    Linearizable,
    Snapshot,
}

/// The wire name of a read concern level.
pub open spec fn spec_level_name(l: ReadConcernLevel) -> Seq<char> {
    match l {
        ReadConcernLevel::Local => "local"@,
        ReadConcernLevel::Available => "available"@,
        ReadConcernLevel::Majority => "majority"@,
        ReadConcernLevel::Linearizable => "linearizable"@,
        ReadConcernLevel::Snapshot => "snapshot"@,
    }
}

impl ReadConcernLevel {
    /// The wire name of this level.
    pub fn to_str(&self) -> (r: &'static str)
        ensures
            r@ == spec_level_name(*self),
    {
        match self {
            ReadConcernLevel::Available => "available",
            ReadConcernLevel::Linearizable => "linearizable",
            ReadConcernLevel::Local => "local",
            ReadConcernLevel::Majority => "majority",
            ReadConcernLevel::Snapshot => "snapshot",
        }
    }

    /// The level a wire name denotes; an unknown name is rejected.
    pub fn from_str(s: &str) -> (r: Result<ReadConcernLevel, Error>)
        ensures
            match r {
                Ok(l) => spec_level_name(l) == s@,
                Err(e) => e is ArgumentError && (forall|l: ReadConcernLevel|
                    spec_level_name(l) != s@),
            },
    {
        let owned = s.to_owned();
        if owned == String::from_str("available") {
            Ok(ReadConcernLevel::Available)
        } else if owned == String::from_str("linearizable") {
            Ok(ReadConcernLevel::Linearizable)
        } else if owned == String::from_str("local") {
            Ok(ReadConcernLevel::Local)
        } else if owned == String::from_str("majority") {
            Ok(ReadConcernLevel::Majority)
        } else if owned == String::from_str("snapshot") {
            Ok(ReadConcernLevel::Snapshot)
        } else {
            proof {
                assert forall|l: ReadConcernLevel| spec_level_name(l) != s@ by {}
            }
            Err(Error::ArgumentError(
                String::from_str("Could not convert '").concat(s).concat(
                    "' to ReadConcernLevel.",
                ),
            ))
        }
    }
}

/// The consistency and isolation properties asked of reads.
#[derive(Debug, Clone, Copy, PartialEq, Eq, Hash, Structural)]
pub struct ReadConcern {
    pub level: ReadConcernLevel,
}

impl ReadConcern {
    /// A read concern of the given level.
    pub fn new(level: ReadConcernLevel) -> (r: ReadConcern)
        ensures
            r.level == level,
    {
        ReadConcern { level }
    }

    /// The wire document of this read concern.
    pub fn to_document(&self) -> (r: Document)
        ensures
            r@ == put(Seq::empty(), "level"@, SpecBson::String(spec_level_name(self.level))),
    {
        let mut d = Document::new();
        d.insert(String::from_str("level"), Bson::String(self.level.to_str().to_owned()));
        d
    }
}

/// How a server is selected for a read.
#[derive(Debug, Clone, Copy, PartialEq, Eq, Hash, Structural)]
pub enum ReadMode {
    Primary,
    PrimaryPreferred,
    Secondary,
    SecondaryPreferred,
    Nearest,
}

/// The wire name of a read mode.
pub open spec fn spec_mode_name(m: ReadMode) -> Seq<char> {
    match m {
        ReadMode::Primary => "primary"@,
        ReadMode::PrimaryPreferred => "primaryPreferred"@,
        ReadMode::Secondary => "secondary"@,
        ReadMode::SecondaryPreferred => "secondaryPreferred"@,
        ReadMode::Nearest => "nearest"@,
    }
}

impl ReadMode {
    /// The mode a name denotes; an unknown name is rejected.
    pub fn from_str(s: &str) -> (r: Result<ReadMode, Error>)
        ensures
            match r {
                Ok(m) => match m {
                    ReadMode::Primary => s@ == "Primary"@,
                    ReadMode::PrimaryPreferred => s@ == "PrimaryPreferred"@,
                    ReadMode::Secondary => s@ == "Secondary"@,
                    ReadMode::SecondaryPreferred => s@ == "SecondaryPreferred"@,
                    ReadMode::Nearest => s@ == "Nearest"@,
                },
                Err(e) => e is ArgumentError && s@ != "Primary"@ && s@ != "PrimaryPreferred"@
                    && s@ != "Secondary"@ && s@ != "SecondaryPreferred"@ && s@ != "Nearest"@,
            },
    {
        let owned = s.to_owned();
        if owned == String::from_str("Primary") {
            Ok(ReadMode::Primary)
        } else if owned == String::from_str("PrimaryPreferred") {
            Ok(ReadMode::PrimaryPreferred)
        } else if owned == String::from_str("Secondary") {
            Ok(ReadMode::Secondary)
        } else if owned == String::from_str("SecondaryPreferred") {
            Ok(ReadMode::SecondaryPreferred)
        } else if owned == String::from_str("Nearest") {
            Ok(ReadMode::Nearest)
        } else {
            Err(Error::ArgumentError(
                String::from_str("Could not convert '").concat(s).concat("' to ReadMode."),
            ))
        }
    }
}

/// One tag set: an ordered list of tag name / value pairs.
pub type TagSet = Vec<(String, String)>;

/// Mathematical view of a read preference.
pub struct SpecReadPreference {
    pub mode: ReadMode,
    pub tag_sets: Seq<Seq<(Seq<char>, Seq<char>)>>,
}

/// How servers are selected for reads: a mode, and tag sets that filter the
/// candidates.
#[derive(Debug, PartialEq)]
pub struct ReadPreference {
    /// How a server is selected.
    pub mode: ReadMode,
    /// Tag sets, tried in order; the first that matches a server is used.
    pub tag_sets: Vec<TagSet>,
}

/// One tag set, viewed.
pub open spec fn view_tag_set(t: Seq<(String, String)>) -> Seq<(Seq<char>, Seq<char>)> {
    t.map_values(|p: (String, String)| (p.0@, p.1@))
}

/// The tag sets, viewed one by one.
pub open spec fn view_tag_sets(s: Seq<TagSet>) -> Seq<Seq<(Seq<char>, Seq<char>)>> {
    s.map_values(|t: TagSet| view_tag_set(t@))
}

impl View for ReadPreference {
    type V = SpecReadPreference;

    open spec fn view(&self) -> SpecReadPreference {
        SpecReadPreference { mode: self.mode, tag_sets: view_tag_sets(self.tag_sets@) }
    }
}

impl ReadPreference {
    /// A read preference; absent tag sets mean no tag filtering.
    pub fn new(mode: ReadMode, tag_sets: Option<Vec<TagSet>>) -> (r: ReadPreference)
        ensures
            r@.mode == mode,
            r@.tag_sets == match tag_sets {
                Some(t) => view_tag_sets(t@),
                None => Seq::<Seq<(Seq<char>, Seq<char>)>>::empty(),
            },
    {
        let ts = match tag_sets {
            Some(t) => t,
            None => Vec::new(),
        };
        proof {
            assert(view_tag_sets(Seq::<TagSet>::empty()) =~= Seq::<
                Seq<(Seq<char>, Seq<char>)>,
            >::empty());
        }
        ReadPreference { mode, tag_sets: ts }
    }

    /// Clone this read preference; the copy has the same view.
    pub fn deep_clone(&self) -> (r: ReadPreference)
        ensures
            r@ == self@,
    {
        let n = self.tag_sets.len();
        let mut out: Vec<TagSet> = Vec::new();
        let mut i: usize = 0;
        while i < n
            invariant
                n == self.tag_sets.len(),
                i <= n,
                out@.len() == i,
                forall|j: int| #![all_triggers] 0 <= j < i ==> view_tag_set(out@[j]@)
                    == view_tag_set(self.tag_sets@[j]@),
            decreases n - i,
        {
            let src = &self.tag_sets[i];
            let m = src.len();
            let mut t: TagSet = Vec::new();
            let mut j: usize = 0;
            while j < m
                invariant
                    m == src.len(),
                    j <= m,
                    t@.len() == j,
                    forall|x: int| #![all_triggers] 0 <= x < j ==> t@[x].0@ == src@[x].0@
                        && t@[x].1@ == src@[x].1@,
                decreases m - j,
            {
                let key = src[j].0.clone();
                let val = src[j].1.clone();
                t.push((key, val));
                j += 1;
            }
            proof {
                assert(view_tag_set(t@) =~= view_tag_set(src@));
            }
            out.push(t);
            i += 1;
        }
        proof {
            assert(view_tag_sets(out@) =~= view_tag_sets(self.tag_sets@));
        }
        ReadPreference { mode: self.mode, tag_sets: out }
    }

    /// The wire document of one tag set, entries in order.
    pub open spec fn spec_tag_set_doc(t: Seq<(Seq<char>, Seq<char>)>) -> SpecDoc
        decreases t.len(),
    {
        if t.len() == 0 {
            Seq::empty()
        } else {
            put(Self::spec_tag_set_doc(t.drop_last()), t.last().0, SpecBson::String(t.last().1))
        }
    }

    /// The wire document of a read preference: its mode name, then its tag
    /// sets as an array of documents.
    pub open spec fn spec_to_document(p: SpecReadPreference) -> SpecDoc {
        let d = put(Seq::empty(), "mode"@, SpecBson::String(spec_mode_name(p.mode)));
        put(d, "tag_sets"@, SpecBson::Array(
            p.tag_sets.map_values(|t: Seq<(Seq<char>, Seq<char>)>| SpecBson::Document(
                Self::spec_tag_set_doc(t),
            )),
        ))
    }

    /// The wire name of this preference's mode.
    pub fn mode_name(&self) -> (r: String)
        ensures
            r@ == spec_mode_name(self.mode),
    {
        match self.mode {
            ReadMode::Primary => String::from_str("primary"),
            ReadMode::PrimaryPreferred => String::from_str("primaryPreferred"),
            ReadMode::Secondary => String::from_str("secondary"),
            ReadMode::SecondaryPreferred => String::from_str("secondaryPreferred"),
            ReadMode::Nearest => String::from_str("nearest"),
        }
    }

    /// The wire document of this read preference.
    pub fn to_document(&self) -> (r: Document)
        ensures
            r@ == Self::spec_to_document(self@),
    {
        let mut arr: Vec<Bson> = Vec::new();
        let n = self.tag_sets.len();
        let mut i: usize = 0;
        while i < n
            invariant
                n == self.tag_sets.len(),
                i <= n,
                arr@.len() == i,
                forall|j: int| #![all_triggers] 0 <= j < i ==> arr@[j]@ == SpecBson::Document(
                    Self::spec_tag_set_doc(view_tag_set(self.tag_sets@[j]@)),
                ),
            decreases n - i,
        {
            let src = &self.tag_sets[i];
            let m = src.len();
            let mut tag_doc = Document::new();
            let mut j: usize = 0;
            while j < m
                invariant
                    m == src.len(),
                    j <= m,
                    tag_doc@ == Self::spec_tag_set_doc(view_tag_set(src@.take(j as int))),
                decreases m - j,
            {
                let key = src[j].0.clone();
                let val = src[j].1.clone();
                tag_doc.insert(key, Bson::String(val));
                proof {
                    assert(view_tag_set(src@.take(j + 1)).drop_last() =~= view_tag_set(
                        src@.take(j as int),
                    ));
                    assert(view_tag_set(src@.take(j + 1)).last() == (src@[j as int].0@,
                    src@[j as int].1@));
                }
                j += 1;
            }
            proof {
                assert(src@.take(m as int) =~= src@);
            }
            arr.push(Bson::Document(tag_doc));
            i += 1;
        }
        let mut d = Document::new();
        d.insert(String::from_str("mode"), Bson::String(self.mode_name()));
        d.insert(String::from_str("tag_sets"), Bson::Array(arr));
        proof {
            lemma_view_values(arr@);
            assert(view_values(arr@) =~= self@.tag_sets.map_values(
                |t: Seq<(Seq<char>, Seq<char>)>| SpecBson::Document(Self::spec_tag_set_doc(t)),
            ));
        }
        d
    }
}

/// What must have happened on the server before a write is acknowledged.
#[derive(Debug, Clone, Copy, PartialEq, Eq, Hash, Structural)]
pub struct WriteConcern {
    /// To how many replica set members the write must have replicated.
    pub w: i32,
    /// How long replication may take, in milliseconds; zero means no bound.
    pub w_timeout: i32,
    /// Whether the write must have been committed to the journal.
    pub j: bool,
    /// Whether a non-journaling server must have synced its files to disk.
    pub fsync: bool,
}

impl WriteConcern {
    /// The default write concern: acknowledged by one member, no timeout, no
    /// journal or sync demand.
    pub fn new() -> (r: WriteConcern)
        ensures
            r == (WriteConcern { w: 1, w_timeout: 0, j: false, fsync: false }),
    {
        WriteConcern { w: 1, w_timeout: 0, j: false, fsync: false }
    }

    /// The wire document of this write concern.
    pub fn to_bson(&self) -> (r: Document)
        ensures
            r@ == put(
                put(
                    put(Seq::empty(), "w"@, SpecBson::I32(self.w)),
                    "wtimeout"@,
                    SpecBson::I32(self.w_timeout),
                ),
                "j"@,
                SpecBson::Boolean(self.j),
            ),
    {
        let mut d = Document::new();
        d.insert(String::from_str("w"), Bson::I32(self.w));
        d.insert(String::from_str("wtimeout"), Bson::I32(self.w_timeout));
        d.insert(String::from_str("j"), Bson::Boolean(self.j));
        d
    }
}

impl Default for WriteConcern {
    /// The default write concern, as `WriteConcern::new` gives it.
    fn default() -> (r: WriteConcern)
        ensures
            r == (WriteConcern { w: 1, w_timeout: 0, j: false, fsync: false }),
    {
        WriteConcern::new()
    }
}

/// `options` folded onto `document` entry by entry: a colliding key replaces
/// the value in place, a new key is appended.
pub open spec fn spec_merge(d: SpecDoc, opts: SpecDoc) -> SpecDoc
    decreases opts.len(),
{
    if opts.len() == 0 {
        d
    } else {
        spec_merge(put(d, opts[0].0, opts[0].1), opts.drop_first())
    }
}

/// Merge an options document into a base document.
pub fn merge_options(document: Document, options: Document) -> (r: Document)
    ensures
        r@ == spec_merge(document@, options@),
{
    let ghost d0 = document@;
    let ghost o0 = options@;
    let mut base = document;
    let mut opts = options;
    while opts.entries.len() > 0
        invariant
            spec_merge(base@, opts@) == spec_merge(d0, o0),
        decreases opts.entries@.len(),
    {
        let ghost before = opts@;
        proof {
            lemma_view_entries(opts.entries@);
        }
        let (k, v) = opts.entries.remove(0);
        proof {
            lemma_view_entries(opts.entries@);
            assert(opts@ =~= before.drop_first());
            assert((k@, v@) == before[0]);
        }
        base.insert(k, v);
    }
    proof {
        lemma_view_entries(opts.entries@);
    }
    base
}

} // verus!
