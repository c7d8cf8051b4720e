//! The manifest generator.
//!
//! Takes the files a filesystem walk found under the installation root,
//! drops the ones the path filter excludes, and produces an ordered
//! manifest record per surviving file, together with exact aggregate
//! counters: how many files were processed and how many bytes they hold.

use vstd::prelude::*;
use vstd::string::StringExecFns;
use crate::hashing::{sha256_hex, sha256_hex_of};
use crate::paths::{is_ignored, normalize_path, spec_is_ignored, spec_normalized};
use crate::records::{spec_total_bytes, FileRecord, FileRecordView};

verus! {

/// One regular file a filesystem walk found: its root-relative path as
/// the walk reported it (possibly with backslashes), its size, and the
/// hex digest of its content.
#[derive(Debug)]
pub struct ScannedFile {
    pub path: String,
    pub size: u64,
    pub hash: String,
}

/// The mathematical image of a [`ScannedFile`].
pub struct ScannedFileView {
    pub path: Seq<char>,
    pub size: u64,
    pub hash: Seq<char>,
}

impl View for ScannedFile {
    type V = ScannedFileView;

    open spec fn view(&self) -> ScannedFileView {
        ScannedFileView { path: self.path@, size: self.size, hash: self.hash@ }
    }
}

impl DeepView for ScannedFile {
    type V = ScannedFileView;

    open spec fn deep_view(&self) -> ScannedFileView {
        self.view()
    }
}

/// The download URL derived for a relative path: the file-server base,
/// then `/files/`, then the path.
pub open spec fn spec_derived_url(base: Seq<char>, rel: Seq<char>) -> Seq<char> {
    base + "/files/"@ + rel
}

/// Joins the file-server base and a relative path into a download URL.
pub fn derive_url(base: &str, rel: &str) -> (r: String)
    ensures
        r@ == spec_derived_url(base@, rel@),
{
    let mut r = base.to_owned();
    r.append("/files/");
    r.append(rel);
    r
}

/// The manifest record for one scanned file: normalized path, the
/// file's hash and size, and the derived download URL.
pub open spec fn spec_manifest_record(s: ScannedFileView, base: Seq<char>) -> FileRecordView {
    FileRecordView {
        path: spec_normalized(s.path),
        hash: s.hash,
        size: s.size,
        url: spec_derived_url(base, spec_normalized(s.path)),
    }
}

/// The manifest a scan denotes: one record per file the filter keeps,
/// in scan order.
pub open spec fn spec_build_manifest(
    scanned: Seq<ScannedFileView>,
    ignored: Seq<Seq<char>>,
    base: Seq<char>,
) -> Seq<FileRecordView>
    decreases scanned.len(),
{
    if scanned.len() == 0 {
        Seq::empty()
    } else {
        let rest = spec_build_manifest(scanned.drop_first(), ignored, base);
        if spec_is_ignored(scanned.first().path, ignored) {
            rest
        } else {
            seq![spec_manifest_record(scanned.first(), base)] + rest
        }
    }
}

/// The sum of the sizes of a sequence of scanned files.
pub open spec fn spec_scanned_total(scanned: Seq<ScannedFileView>) -> int
    decreases scanned.len(),
{
    if scanned.len() == 0 {
        0
    } else {
        spec_scanned_total(scanned.drop_first()) + scanned.first().size
    }
}

/// Splitting a scan at any point splits its byte total.
pub proof fn lemma_scanned_total_split(scanned: Seq<ScannedFileView>, i: int)
    requires
        0 <= i <= scanned.len(),
    ensures
        spec_scanned_total(scanned) == spec_scanned_total(scanned.take(i)) + spec_scanned_total(
            scanned.skip(i),
        ),
    decreases i,
{
    if i == 0 {
        assert(scanned.take(0) =~= Seq::<ScannedFileView>::empty());
        assert(scanned.skip(0) =~= scanned);
    } else {
        assert(scanned.take(i).first() == scanned.first());
        assert(scanned.take(i).drop_first() =~= scanned.drop_first().take(i - 1));
        assert(scanned.skip(i) =~= scanned.drop_first().skip(i - 1));
        lemma_scanned_total_split(scanned.drop_first(), i - 1);
    }
}

/// No scan holds a negative number of bytes.
pub proof fn lemma_scanned_total_nonneg(scanned: Seq<ScannedFileView>)
    ensures
        spec_scanned_total(scanned) >= 0,
    decreases scanned.len(),
{
    if scanned.len() > 0 {
        lemma_scanned_total_nonneg(scanned.drop_first());
    }
}

/// Extending a prefix by one file adds exactly that file's size.
proof fn lemma_scanned_total_take_succ(s: Seq<ScannedFileView>, i: int)
    requires
        0 <= i < s.len(),
    ensures
        spec_scanned_total(s.take(i + 1)) == spec_scanned_total(s.take(i)) + s[i].size,
{
    lemma_scanned_total_split(s.take(i + 1), i);
    assert(s.take(i + 1).take(i) =~= s.take(i));
    let one = s.take(i + 1).skip(i);
    assert(one =~= seq![s[i]]);
    lemma_scanned_total_singleton(s[i]);
}

/// A single scanned file sums to its own size.
proof fn lemma_scanned_total_singleton(x: ScannedFileView)
    ensures
        spec_scanned_total(seq![x]) == x.size,
{
    assert(seq![x].drop_first() =~= Seq::<ScannedFileView>::empty());
    assert(spec_scanned_total(Seq::<ScannedFileView>::empty()) == 0);
    assert(spec_scanned_total(seq![x].drop_first()) == 0);
}

/// The aggregate counters of a manifest scan.
#[derive(Debug)]
pub struct ScanStats {
    /// Exactly the number of files that passed the filter and were
    /// recorded.
    pub files_processed: u64,
    /// Exactly the sum of the sizes of the recorded files.
    pub total_bytes: u64,
}

/// Builds the manifest for a scan: filters each file, derives its URL,
/// and counts. The counters are exact: `files_processed` equals the
/// number of records and `total_bytes` their summed sizes, however the
/// per-file hashing work was scheduled before this call.
pub fn build_manifest(scanned: &Vec<ScannedFile>, ignored: &Vec<String>, base_url: &str) -> (r: (
    Vec<FileRecord>,
    ScanStats,
))
    requires
        spec_scanned_total(scanned.deep_view()) <= u64::MAX,
        scanned.len() <= u64::MAX,
    ensures
        r.0.deep_view() == spec_build_manifest(scanned.deep_view(), ignored.deep_view(), base_url@),
        r.1.files_processed == r.0.len(),
        r.1.total_bytes == spec_total_bytes(r.0.deep_view()),
        forall|k: int|
            0 <= k < r.0.deep_view().len() ==> !spec_is_ignored(
                (#[trigger] r.0.deep_view()[k]).path,
                ignored.deep_view(),
            ),
{
    let ghost sv = scanned.deep_view();
    let ghost iv = ignored.deep_view();
    let mut records: Vec<FileRecord> = Vec::new();
    let mut total_bytes: u64 = 0;
    let n = scanned.len();
    proof {
        assert(sv.skip(0) =~= sv);
    }
    for i in 0..n
        invariant
            n == scanned.len(),
            sv == scanned.deep_view(),
            iv == ignored.deep_view(),
            spec_scanned_total(sv) <= u64::MAX,
            records.deep_view() + spec_build_manifest(sv.skip(i as int), iv, base_url@)
                =~= spec_build_manifest(sv, iv, base_url@),
            total_bytes == spec_total_bytes(records.deep_view()),
            total_bytes <= spec_scanned_total(sv.take(i as int)),
            records.len() <= i,
    {
        proof {
            assert(sv.skip(i as int).first() == sv[i as int]);
            assert(sv.skip(i as int).drop_first() =~= sv.skip(i + 1));
            assert(sv[i as int] == scanned@[i as int]@);
            lemma_scanned_total_take_succ(sv, i as int);
            lemma_scanned_total_split(sv, i + 1);
            lemma_scanned_total_nonneg(sv.skip(i + 1));
        }
        let file = &scanned[i];
        if !is_ignored(file.path.as_str(), ignored) {
            let rel = normalize_path(file.path.as_str());
            let url = derive_url(base_url, rel.as_str());
            let rec = FileRecord { path: rel, hash: file.hash.clone(), size: file.size, url };
            let ghost prev = records.deep_view();
            proof {
                assert(spec_total_bytes(prev.push(rec@)) == spec_total_bytes(prev) + file.size)
                    by {
                    assert(prev.push(rec@).drop_last() =~= prev);
                }
            }
            records.push(rec);
            total_bytes = total_bytes + file.size;
            proof {
                assert(records.deep_view() =~= prev.push(
                    spec_manifest_record(sv[i as int], base_url@),
                ));
                assert(prev.push(spec_manifest_record(sv[i as int], base_url@))
                    + spec_build_manifest(sv.skip(i + 1), iv, base_url@) =~= prev + spec_build_manifest(
                    sv.skip(i as int),
                    iv,
                    base_url@,
                ));
            }
        }
    }
    proof {
        assert(sv.skip(n as int) =~= Seq::<ScannedFileView>::empty());
        assert(records.deep_view() + Seq::<FileRecordView>::empty() =~= records.deep_view());
        assert(sv.take(n as int) =~= sv);
        lemma_manifest_excludes_ignored(sv, iv, base_url@);
    }
    let count = records.len() as u64;
    (records, ScanStats { files_processed: count, total_bytes })
}

/// No excluded path ever appears in a generated manifest: every record
/// of the built manifest has a path the filter does not match, whatever
/// the file's content.
pub proof fn lemma_manifest_excludes_ignored(
    scanned: Seq<ScannedFileView>,
    ignored: Seq<Seq<char>>,
    base: Seq<char>,
)
    ensures
        forall|k: int|
            0 <= k < spec_build_manifest(scanned, ignored, base).len() ==> !spec_is_ignored(
                #[trigger] spec_build_manifest(scanned, ignored, base)[k].path,
                ignored,
            ),
    decreases scanned.len(),
{
    if scanned.len() > 0 {
        lemma_manifest_excludes_ignored(scanned.drop_first(), ignored, base);
        let rest = spec_build_manifest(scanned.drop_first(), ignored, base);
        let whole = spec_build_manifest(scanned, ignored, base);
        if !spec_is_ignored(scanned.first().path, ignored) {
            let first_rec = spec_manifest_record(scanned.first(), base);
            assert(spec_normalized(first_rec.path) =~= first_rec.path);
            assert(!spec_is_ignored(first_rec.path, ignored));
            assert forall|k: int| 0 <= k < whole.len() implies !spec_is_ignored(
                whole[k].path,
                ignored,
            ) by {
                if k > 0 {
                    assert(whole[k] == rest[k - 1]);
                }
            }
        }
    }
}

/// Builds the manifest record for one file's content: the hash is the
/// hex SHA-256 digest of the bytes, the size their count, the URL
/// derived from the base.
pub fn manifest_record(rel_path: &str, contents: &Vec<u8>, base_url: &str) -> (r: FileRecord)
    ensures
        r@.path == rel_path@,
        r@.hash == sha256_hex_of(contents@),
        r@.size == contents@.len(),
        r@.url == spec_derived_url(base_url@, rel_path@),
{
    let hash = sha256_hex(contents.as_slice());
    let url = derive_url(base_url, rel_path);
    FileRecord { path: rel_path.to_owned(), hash, size: contents.len() as u64, url }
}

} // verus!
