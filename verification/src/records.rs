//! Manifest records.
//!
//! A manifest is an ordered sequence of [`FileRecord`]s; order is the
//! insertion order of the filesystem walk and carries no semantic
//! meaning. A record's identity is its path.

use vstd::prelude::*;

verus! {

/// One file of a manifest: its root-relative slash-normalized path, the
/// hex digest of its content, its size in bytes, and the URL it can be
/// downloaded from.
#[derive(Debug)]
pub struct FileRecord {
    pub path: String,
    pub hash: String,
    pub size: u64,
    pub url: String,
}

/// The mathematical image of a [`FileRecord`].
pub struct FileRecordView {
    pub path: Seq<char>,
    pub hash: Seq<char>,
    pub size: u64,
    pub url: Seq<char>,
}

impl View for FileRecord {
    type V = FileRecordView;

    open spec fn view(&self) -> FileRecordView {
        FileRecordView {
            path: self.path@,
            hash: self.hash@,
            size: self.size,
            url: self.url@,
        }
    }
}

impl DeepView for FileRecord {
    type V = FileRecordView;

    open spec fn deep_view(&self) -> FileRecordView {
        self.view()
    }
}

impl FileRecord {
    /// A field-for-field copy.
    pub fn duplicate(&self) -> (r: FileRecord)
        ensures
            r@ == self@,
    {
        FileRecord {
            path: self.path.clone(),
            hash: self.hash.clone(),
            size: self.size,
            url: self.url.clone(),
        }
    }
}

/// A manifest entry as read from a manifest document, before missing
/// fields are defaulted: any field may be absent.
#[derive(Debug)]
pub struct RawManifestEntry {
    pub path: Option<String>,
    pub hash: Option<String>,
    pub size: Option<u64>,
    pub url: Option<String>,
}

/// The mathematical image of a [`RawManifestEntry`].
pub struct RawManifestEntryView {
    pub path: Option<Seq<char>>,
    pub hash: Option<Seq<char>>,
    pub size: Option<u64>,
    pub url: Option<Seq<char>>,
}

impl View for RawManifestEntry {
    type V = RawManifestEntryView;

    open spec fn view(&self) -> RawManifestEntryView {
        RawManifestEntryView {
            path: self.path.deep_view(),
            hash: self.hash.deep_view(),
            size: self.size,
            url: self.url.deep_view(),
        }
    }
}

impl DeepView for RawManifestEntry {
    type V = RawManifestEntryView;

    open spec fn deep_view(&self) -> RawManifestEntryView {
        self.view()
    }
}

/// The record an entry defaults to: an absent `path`, `hash` or `url`
/// becomes the empty string, an absent `size` becomes 0.
pub open spec fn spec_record_from_raw(e: RawManifestEntryView) -> FileRecordView {
    FileRecordView {
        path: match e.path {
            Some(p) => p,
            None => Seq::empty(),
        },
        hash: match e.hash {
            Some(h) => h,
            None => Seq::empty(),
        },
        size: match e.size {
            Some(s) => s,
            None => 0,
        },
        url: match e.url {
            Some(u) => u,
            None => Seq::empty(),
        },
    }
}

/// Turns one raw manifest entry into a record, defaulting the absent
/// fields.
pub fn record_from_raw(e: &RawManifestEntry) -> (r: FileRecord)
    ensures
        r@ == spec_record_from_raw(e@),
{
    FileRecord {
        path: match &e.path {
            Some(p) => p.clone(),
            None => String::new(),
        },
        hash: match &e.hash {
            Some(h) => h.clone(),
            None => String::new(),
        },
        size: match e.size {
            Some(s) => s,
            None => 0,
        },
        url: match &e.url {
            Some(u) => u.clone(),
            None => String::new(),
        },
    }
}

/// Turns the raw entries of a manifest document into records, in order,
/// defaulting the absent fields of each.
pub fn records_from_raw(entries: &Vec<RawManifestEntry>) -> (r: Vec<FileRecord>)
    ensures
        r.deep_view().len() == entries.deep_view().len(),
        forall|i: int|
            0 <= i < entries.deep_view().len() ==> r.deep_view()[i] == spec_record_from_raw(
                entries.deep_view()[i],
            ),
{
    let mut r: Vec<FileRecord> = Vec::new();
    let n = entries.len();
    for i in 0..n
        invariant
            n == entries.deep_view().len(),
            r.deep_view().len() == i,
            forall|j: int|
                0 <= j < i ==> r.deep_view()[j] == spec_record_from_raw(entries.deep_view()[j]),
    {
        let rec = record_from_raw(&entries[i]);
        let ghost prev = r.deep_view();
        r.push(rec);
        proof {
            assert(entries.deep_view()[i as int] == entries@[i as int]@);
            assert(r.deep_view() =~= prev.push(spec_record_from_raw(entries.deep_view()[i as int])));
        }
    }
    r
}

/// The sum of the sizes of a sequence of records.
pub open spec fn spec_total_bytes(records: Seq<FileRecordView>) -> int
    decreases records.len(),
{
    if records.len() == 0 {
        0
    } else {
        spec_total_bytes(records.drop_last()) + records.last().size
    }
}

/// A sum of sizes is never negative.
pub proof fn lemma_total_bytes_nonneg(records: Seq<FileRecordView>)
    ensures
        spec_total_bytes(records) >= 0,
    decreases records.len(),
{
    if records.len() > 0 {
        lemma_total_bytes_nonneg(records.drop_last());
    }
}

/// A single record sums to its own size.
pub proof fn lemma_total_bytes_singleton(r: FileRecordView)
    ensures
        spec_total_bytes(seq![r]) == r.size,
{
    assert(seq![r].drop_last() =~= Seq::<FileRecordView>::empty());
    assert(spec_total_bytes(Seq::<FileRecordView>::empty()) == 0);
    assert(spec_total_bytes(seq![r].drop_last()) == 0);
}

/// Sizes sum piecewise over concatenation.
pub proof fn lemma_total_bytes_concat(a: Seq<FileRecordView>, b: Seq<FileRecordView>)
    ensures
        spec_total_bytes(a + b) == spec_total_bytes(a) + spec_total_bytes(b),
    decreases b.len(),
{
    if b.len() == 0 {
        assert(a + b =~= a);
    } else {
        assert((a + b).drop_last() =~= a + b.drop_last());
        lemma_total_bytes_concat(a, b.drop_last());
    }
}

} // verus!
