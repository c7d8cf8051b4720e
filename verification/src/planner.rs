//! The update planner (diff engine).
//!
//! For each record of the remote manifest, decides whether the local
//! file needs downloading, by a short-circuiting ladder: a missing or
//! unreadable local file is included outright; a valid cache entry whose
//! hash equals the remote hash excludes the file without re-hashing; a
//! size mismatch includes it without re-hashing; otherwise the local
//! content hash decides, and is written back to the cache either way to
//! keep the cache warm.
//!
//! The filesystem observations (does the file exist, its size and
//! modification time, its content hash where the ladder needs one) are
//! handed in as plain values; the caller gathers them however it likes.

use vstd::prelude::*;
use crate::cache::{CacheEntry, CacheEntryView, HashCache};
use crate::paths::str_eq;
use crate::records::{
    lemma_total_bytes_concat, lemma_total_bytes_nonneg, lemma_total_bytes_singleton,
    spec_total_bytes, FileRecord, FileRecordView,
};

verus! {

/// What a metadata probe of the local file reported: the file is
/// absent, its metadata could not be read, or it is present with this
/// size and (where readable) modification time.
#[derive(Clone, Copy, Debug)]
pub enum LocalMeta {
    Absent,
    Unreadable,
    Present { size: u64, modified: Option<u64> },
}

/// Everything a diff pass may need to know of one local file: its
/// metadata, and its content hash where one could be computed (`None`
/// means hashing failed; it is only consulted when the ladder reaches
/// the hashing step).
#[derive(Debug)]
pub struct LocalFile {
    pub meta: LocalMeta,
    pub hash: Option<String>,
}

/// The mathematical image of a [`LocalFile`].
pub struct LocalFileView {
    pub meta: LocalMeta,
    pub hash: Option<Seq<char>>,
}

impl View for LocalFile {
    type V = LocalFileView;

    open spec fn view(&self) -> LocalFileView {
        LocalFileView { meta: self.meta, hash: self.hash.deep_view() }
    }
}

impl DeepView for LocalFile {
    type V = LocalFileView;

    open spec fn deep_view(&self) -> LocalFileView {
        self.view()
    }
}

/// What the metadata alone decides for one record.
#[derive(Debug)]
pub enum MetaDecision {
    /// The file needs downloading; no hash required.
    Include,
    /// The file is already current; no hash required.
    Skip,
    /// The metadata does not decide: the local content hash is needed.
    NeedHash,
}

/// True when the cache excuses the file from re-hashing: the file's
/// modification time was readable, the cache holds an entry for the
/// path whose recorded modification time equals it, and the recorded
/// hash equals the remote hash.
pub open spec fn spec_cache_hit(
    remote: FileRecordView,
    modified: Option<u64>,
    cache: Map<Seq<char>, CacheEntryView>,
) -> bool {
    match modified {
        Some(m) => cache.contains_key(remote.path) && cache[remote.path].last_modified == m
            && cache[remote.path].hash == remote.hash,
        None => false,
    }
}

/// The first four rungs of the decision ladder: absent or unreadable
/// includes, a cache hit skips, a size mismatch includes, anything else
/// needs the local hash.
pub open spec fn spec_meta_decision(
    remote: FileRecordView,
    meta: LocalMeta,
    cache: Map<Seq<char>, CacheEntryView>,
) -> MetaDecision {
    match meta {
        LocalMeta::Absent => MetaDecision::Include,
        LocalMeta::Unreadable => MetaDecision::Include,
        LocalMeta::Present { size, modified } => {
            if spec_cache_hit(remote, modified, cache) {
                MetaDecision::Skip
            } else if size != remote.size {
                MetaDecision::Include
            } else {
                MetaDecision::NeedHash
            }
        },
    }
}

/// The last rung: a failed local hash includes the file and leaves the
/// cache alone; a computed hash is written to the cache (stamped with
/// the modification time, or with `now` where none was readable) and
/// the file is included exactly when it differs from the remote hash.
pub open spec fn spec_hash_step(
    remote: FileRecordView,
    modified: Option<u64>,
    hash: Option<Seq<char>>,
    cache: Map<Seq<char>, CacheEntryView>,
    now: u64,
) -> (bool, Map<Seq<char>, CacheEntryView>) {
    match hash {
        None => (true, cache),
        Some(h) => {
            let stamp = match modified {
                Some(m) => m,
                None => now,
            };
            (
                h != remote.hash,
                cache.insert(remote.path, CacheEntryView { hash: h, last_modified: stamp }),
            )
        },
    }
}

/// The whole ladder for one record: whether it is included, and the
/// cache after the step.
pub open spec fn spec_process_record(
    remote: FileRecordView,
    local: LocalFileView,
    cache: Map<Seq<char>, CacheEntryView>,
    now: u64,
) -> (bool, Map<Seq<char>, CacheEntryView>) {
    match spec_meta_decision(remote, local.meta, cache) {
        MetaDecision::Include => (true, cache),
        MetaDecision::Skip => (false, cache),
        MetaDecision::NeedHash => {
            let modified = match local.meta {
                LocalMeta::Present { size: _, modified } => modified,
                _ => None,
            };
            spec_hash_step(remote, modified, local.hash, cache, now)
        },
    }
}

/// A whole diff pass: each record in order, every cache write visible
/// to the records after it. Returns the plan (the included records, in
/// manifest order) and the final cache.
pub open spec fn spec_process_all(
    records: Seq<FileRecordView>,
    locals: Seq<LocalFileView>,
    cache: Map<Seq<char>, CacheEntryView>,
    now: u64,
) -> (Seq<FileRecordView>, Map<Seq<char>, CacheEntryView>)
    decreases records.len(),
{
    if records.len() == 0 {
        (Seq::empty(), cache)
    } else {
        let step = spec_process_record(records.first(), locals.first(), cache, now);
        let rest = spec_process_all(records.drop_first(), locals.drop_first(), step.1, now);
        (
            if step.0 {
                seq![records.first()] + rest.0
            } else {
                rest.0
            },
            rest.1,
        )
    }
}

/// Decides what the metadata alone decides for one record.
pub fn check_metadata(remote: &FileRecord, meta: &LocalMeta, cache: &HashCache) -> (d: MetaDecision)
    requires
        cache.wf(),
    ensures
        d == spec_meta_decision(remote@, *meta, cache@),
{
    match meta {
        LocalMeta::Absent => MetaDecision::Include,
        LocalMeta::Unreadable => MetaDecision::Include,
        LocalMeta::Present { size, modified } => {
            let hit = match modified {
                Some(m) => match cache.get(remote.path.as_str()) {
                    Some(entry) => entry.last_modified == *m && str_eq(
                        entry.hash.as_str(),
                        remote.hash.as_str(),
                    ),
                    None => false,
                },
                None => false,
            };
            if hit {
                MetaDecision::Skip
            } else if *size != remote.size {
                MetaDecision::Include
            } else {
                MetaDecision::NeedHash
            }
        },
    }
}

/// Applies the hashing rung: warms the cache with the computed hash and
/// compares it to the remote hash; a failed hash includes the file.
pub fn apply_hash_result(
    remote: &FileRecord,
    modified: Option<u64>,
    local_hash: &Option<String>,
    cache: &mut HashCache,
    now: u64,
) -> (needed: bool)
    requires
        old(cache).wf(),
    ensures
        final(cache).wf(),
        (needed, final(cache)@) == spec_hash_step(
            remote@,
            modified,
            local_hash.deep_view(),
            old(cache)@,
            now,
        ),
{
    match local_hash {
        None => true,
        Some(h) => {
            let stamp = match modified {
                Some(m) => m,
                None => now,
            };
            cache.insert(
                remote.path.clone(),
                CacheEntry { hash: h.clone(), last_modified: stamp },
            );
            !str_eq(h.as_str(), remote.hash.as_str())
        },
    }
}

/// Runs the whole ladder for one record, updating the cache as the
/// hashing rung prescribes.
pub fn evaluate_record(
    remote: &FileRecord,
    local: &LocalFile,
    cache: &mut HashCache,
    now: u64,
) -> (needed: bool)
    requires
        old(cache).wf(),
    ensures
        final(cache).wf(),
        (needed, final(cache)@) == spec_process_record(remote@, local@, old(cache)@, now),
{
    match check_metadata(remote, &local.meta, cache) {
        MetaDecision::Include => true,
        MetaDecision::Skip => false,
        MetaDecision::NeedHash => {
            let modified = match local.meta {
                LocalMeta::Present { size: _, modified } => modified,
                _ => None,
            };
            apply_hash_result(remote, modified, &local.hash, cache, now)
        },
    }
}

/// The summary a diff pass ends with.
#[derive(Debug)]
pub struct DiffStats {
    /// Exactly the number of records evaluated.
    pub files_checked: u64,
    /// Exactly the number of records the plan holds.
    pub files_to_update: u64,
    /// Exactly the summed sizes of the records the plan holds.
    pub total_bytes: u64,
}

/// A plan never asks for more bytes than the whole manifest describes.
pub proof fn lemma_plan_total_le(
    records: Seq<FileRecordView>,
    locals: Seq<LocalFileView>,
    cache: Map<Seq<char>, CacheEntryView>,
    now: u64,
)
    requires
        records.len() == locals.len(),
    ensures
        0 <= spec_total_bytes(spec_process_all(records, locals, cache, now).0) <= spec_total_bytes(
            records,
        ),
    decreases records.len(),
{
    if records.len() == 0 {
    } else {
        let step = spec_process_record(records.first(), locals.first(), cache, now);
        lemma_plan_total_le(records.drop_first(), locals.drop_first(), step.1, now);
        let rest = spec_process_all(records.drop_first(), locals.drop_first(), step.1, now);
        assert(records =~= seq![records.first()] + records.drop_first());
        lemma_total_bytes_concat(seq![records.first()], records.drop_first());
        lemma_total_bytes_singleton(records.first());
        if step.0 {
            lemma_total_bytes_concat(seq![records.first()], rest.0);
        }
    }
}

/// Runs a whole diff pass: evaluates every record of the remote
/// manifest against the local observations, warms the cache, and
/// returns the download plan with exact counters.
pub fn build_plan(
    records: &Vec<FileRecord>,
    locals: &Vec<LocalFile>,
    cache: &mut HashCache,
    now: u64,
) -> (r: (Vec<FileRecord>, DiffStats))
    requires
        records.len() == locals.len(),
        records.len() <= u64::MAX,
        old(cache).wf(),
        spec_total_bytes(records.deep_view()) <= u64::MAX,
    ensures
        final(cache).wf(),
        r.0.deep_view() == spec_process_all(
            records.deep_view(),
            locals.deep_view(),
            old(cache)@,
            now,
        ).0,
        final(cache)@ == spec_process_all(
            records.deep_view(),
            locals.deep_view(),
            old(cache)@,
            now,
        ).1,
        r.1.files_checked == records.len(),
        r.1.files_to_update == r.0.len(),
        r.1.total_bytes == spec_total_bytes(r.0.deep_view()),
{
    let ghost rv = records.deep_view();
    let ghost lv = locals.deep_view();
    let ghost full = spec_process_all(rv, lv, old(cache)@, now);
    let mut plan: Vec<FileRecord> = Vec::new();
    let mut total_bytes: u64 = 0;
    let n = records.len();
    proof {
        assert(rv.skip(0) =~= rv);
        assert(lv.skip(0) =~= lv);
        assert(plan.deep_view() + full.0 =~= full.0);
    }
    for i in 0..n
        invariant
            n == records.len(),
            locals.len() == n,
            rv == records.deep_view(),
            lv == locals.deep_view(),
            rv.len() == n,
            lv.len() == n,
            spec_total_bytes(rv) <= u64::MAX,
            cache.wf(),
            full == spec_process_all(rv, lv, old(cache)@, now),
            full.0 =~= plan.deep_view() + spec_process_all(
                rv.skip(i as int),
                lv.skip(i as int),
                cache@,
                now,
            ).0,
            full.1 == spec_process_all(rv.skip(i as int), lv.skip(i as int), cache@, now).1,
            total_bytes == spec_total_bytes(plan.deep_view()),
            plan.len() <= i,
    {
        let ghost suffix = spec_process_all(rv.skip(i as int), lv.skip(i as int), cache@, now);
        proof {
            assert(rv.skip(i as int).first() == rv[i as int]);
            assert(lv.skip(i as int).first() == lv[i as int]);
            assert(rv.skip(i as int).drop_first() =~= rv.skip(i + 1));
            assert(lv.skip(i as int).drop_first() =~= lv.skip(i + 1));
            assert(rv[i as int] == records@[i as int]@);
            assert(lv[i as int] == locals@[i as int]@);
        }
        let needed = evaluate_record(&records[i], &locals[i], cache, now);
        let ghost rest = spec_process_all(rv.skip(i + 1), lv.skip(i + 1), cache@, now);
        if needed {
            let ghost prev = plan.deep_view();
            proof {
                assert(suffix.0 =~= seq![rv[i as int]] + rest.0);
                assert(full.0 =~= prev.push(rv[i as int]) + rest.0) by {
                    assert(prev + (seq![rv[i as int]] + rest.0) =~= prev.push(rv[i as int])
                        + rest.0);
                }
                lemma_total_bytes_concat(prev.push(rv[i as int]), rest.0);
                lemma_total_bytes_nonneg(rest.0);
                lemma_plan_total_le(rv, lv, old(cache)@, now);
                assert(spec_total_bytes(prev.push(rv[i as int])) == spec_total_bytes(prev)
                    + rv[i as int].size) by {
                    assert(prev.push(rv[i as int]).drop_last() =~= prev);
                }
            }
            let rec = records[i].duplicate();
            plan.push(rec);
            total_bytes = total_bytes + records[i].size;
            proof {
                assert(plan.deep_view() =~= prev.push(rv[i as int]));
            }
        }
    }
    proof {
        assert(rv.skip(n as int) =~= Seq::<FileRecordView>::empty());
        assert(lv.skip(n as int) =~= Seq::<LocalFileView>::empty());
        assert(plan.deep_view() + Seq::<FileRecordView>::empty() =~= plan.deep_view());
    }
    let files_checked = n as u64;
    let files_to_update = plan.len() as u64;
    (plan, DiffStats { files_checked, files_to_update, total_bytes })
}

/// True when a diff pass found anything to update: the decision behind
/// "is an update required".
pub fn update_required(plan: &Vec<FileRecord>) -> (r: bool)
    ensures
        r == (plan@.len() != 0),
{
    plan.len() != 0
}

/// The answer the size and cache shortcuts must preserve: a file is to
/// be downloaded exactly when it is absent, unreadable, of a different
/// size, or its content hash differs (a hash that could not be computed
/// counts as differing).
pub open spec fn spec_abstract_needed(remote: FileRecordView, local: LocalFileView) -> bool {
    match local.meta {
        LocalMeta::Absent => true,
        LocalMeta::Unreadable => true,
        LocalMeta::Present { size, modified } => size != remote.size || (match local.hash {
            None => true,
            Some(h) => h != remote.hash,
        }),
    }
}

/// The cache tells the truth about this file: any entry it holds for
/// the path, stamped with the file's current modification time, records
/// the file's actual content hash.
pub open spec fn spec_cache_accurate(
    remote: FileRecordView,
    local: LocalFileView,
    cache: Map<Seq<char>, CacheEntryView>,
) -> bool {
    match local.meta {
        LocalMeta::Present { size, modified } => match modified {
            Some(m) => (cache.contains_key(remote.path) && cache[remote.path].last_modified == m)
                ==> local.hash == Some(cache[remote.path].hash),
            None => true,
        },
        _ => true,
    }
}

/// The manifest tells the truth about this file's size: a local file
/// whose content hash equals the remote hash has the remote's recorded
/// size.
pub open spec fn spec_sizes_consistent(remote: FileRecordView, local: LocalFileView) -> bool {
    match local.meta {
        LocalMeta::Present { size, modified } => local.hash == Some(remote.hash) ==> size
            == remote.size,
        _ => true,
    }
}

/// Completeness of the ladder: against a truthful cache and a truthful
/// manifest size, the short-circuiting ladder gives the same answer as
/// the abstract criterion — the file is planned for download exactly
/// when it is absent, unreadable, size-mismatched, or its content hash
/// differs. The shortcuts change only the path taken, never the answer.
pub proof fn lemma_diff_completeness(
    remote: FileRecordView,
    local: LocalFileView,
    cache: Map<Seq<char>, CacheEntryView>,
    now: u64,
)
    requires
        spec_cache_accurate(remote, local, cache),
        spec_sizes_consistent(remote, local),
    ensures
        spec_process_record(remote, local, cache, now).0 == spec_abstract_needed(remote, local),
{
}

/// A size mismatch is always detected — even when the content was
/// mutated without its modification time changing — as long as no
/// stale cache entry both matches the modification time and equals the
/// remote hash.
pub proof fn lemma_size_mismatch_detected(
    remote: FileRecordView,
    local: LocalFileView,
    cache: Map<Seq<char>, CacheEntryView>,
    now: u64,
)
    requires
        local.meta matches LocalMeta::Present { size, modified } && size != remote.size
            && !spec_cache_hit(remote, modified, cache),
    ensures
        spec_process_record(remote, local, cache, now).0,
{
}

/// The plan the abstract criterion alone would build: each record whose
/// file is absent, unreadable, size-mismatched or hash-mismatched, in
/// manifest order, with no cache and no shortcuts.
pub open spec fn spec_abstract_plan(
    records: Seq<FileRecordView>,
    locals: Seq<LocalFileView>,
) -> Seq<FileRecordView>
    decreases records.len(),
{
    if records.len() == 0 {
        Seq::empty()
    } else {
        let rest = spec_abstract_plan(records.drop_first(), locals.drop_first());
        if spec_abstract_needed(records.first(), locals.first()) {
            seq![records.first()] + rest
        } else {
            rest
        }
    }
}

/// Completeness of the whole diff pass: against a truthful cache and
/// truthful manifest sizes, the pass plans exactly the files the
/// abstract criterion selects — every record of the remote manifest is
/// in the plan exactly when its local file is absent, unreadable,
/// size-mismatched or hash-mismatched, however many shortcuts were
/// taken and however the pass warmed the cache along the way.
pub proof fn lemma_plan_completeness(
    records: Seq<FileRecordView>,
    locals: Seq<LocalFileView>,
    cache: Map<Seq<char>, CacheEntryView>,
    now: u64,
)
    requires
        records.len() == locals.len(),
        spec_unique_paths(records),
        forall|i: int|
            0 <= i < records.len() ==> spec_cache_accurate(
                #[trigger] records[i],
                locals[i],
                cache,
            ),
        forall|i: int|
            0 <= i < records.len() ==> spec_sizes_consistent(#[trigger] records[i], locals[i]),
    ensures
        spec_process_all(records, locals, cache, now).0 == spec_abstract_plan(records, locals),
    decreases records.len(),
{
    if records.len() > 0 {
        let r0 = records.first();
        let l0 = locals.first();
        let rest = records.drop_first();
        let lrest = locals.drop_first();
        lemma_diff_completeness(r0, l0, cache, now);
        let step = spec_process_record(r0, l0, cache, now);
        assert(forall|i: int| 0 <= i < rest.len() ==> rest[i] == records[i + 1]);
        assert(forall|i: int| 0 <= i < lrest.len() ==> lrest[i] == locals[i + 1]);
        assert(forall|i: int| 0 <= i < rest.len() ==> (#[trigger] rest[i]).path != r0.path);
        assert(spec_unique_paths(rest));
        // The first step writes at most its own record's path, so the
        // cache stays truthful for every later record.
        assert forall|i: int| 0 <= i < rest.len() implies spec_cache_accurate(
            #[trigger] rest[i],
            lrest[i],
            step.1,
        ) by {
            lemma_record_other_keys(r0, l0, cache, now, rest[i].path);
            assert(spec_cache_accurate(records[i + 1], locals[i + 1], cache));
        }
        lemma_plan_completeness(rest, lrest, step.1, now);
    }
}

/// The accepted blind spot, stated exactly: while a valid cache entry
/// matches the remote hash, the file is skipped with no look at its
/// size or content, and the cache is left unchanged.
pub proof fn lemma_cache_hit_skips(
    remote: FileRecordView,
    local: LocalFileView,
    cache: Map<Seq<char>, CacheEntryView>,
    now: u64,
)
    requires
        local.meta matches LocalMeta::Present { size, modified } && spec_cache_hit(
            remote,
            modified,
            cache,
        ),
    ensures
        !spec_process_record(remote, local, cache, now).0,
        spec_process_record(remote, local, cache, now).1 == cache,
{
}

/// Two caches agree about one key: both hold it with the same entry, or
/// neither holds it.
pub open spec fn spec_agree_at(
    c1: Map<Seq<char>, CacheEntryView>,
    c2: Map<Seq<char>, CacheEntryView>,
    k: Seq<char>,
) -> bool {
    &&& c1.contains_key(k) == c2.contains_key(k)
    &&& c1.contains_key(k) ==> c1[k] == c2[k]
}

/// Processing a record touches no cache key but the record's own path.
proof fn lemma_record_other_keys(
    remote: FileRecordView,
    local: LocalFileView,
    cache: Map<Seq<char>, CacheEntryView>,
    now: u64,
    k: Seq<char>,
)
    requires
        k != remote.path,
    ensures
        spec_agree_at(spec_process_record(remote, local, cache, now).1, cache, k),
{
}

/// No record's path occurs twice in a manifest: a record's identity is
/// its path.
pub open spec fn spec_unique_paths(records: Seq<FileRecordView>) -> bool {
    forall|i: int, j: int|
        0 <= i < j < records.len() ==> (#[trigger] records[i]).path != (#[trigger] records[j]).path
}

/// A whole pass touches no cache key outside the records' paths.
proof fn lemma_pass_other_keys(
    records: Seq<FileRecordView>,
    locals: Seq<LocalFileView>,
    cache: Map<Seq<char>, CacheEntryView>,
    now: u64,
    k: Seq<char>,
)
    requires
        records.len() == locals.len(),
        forall|i: int| 0 <= i < records.len() ==> (#[trigger] records[i]).path != k,
    ensures
        spec_agree_at(spec_process_all(records, locals, cache, now).1, cache, k),
    decreases records.len(),
{
    if records.len() > 0 {
        let step = spec_process_record(records.first(), locals.first(), cache, now);
        lemma_record_other_keys(records.first(), locals.first(), cache, now, k);
        assert(forall|i: int|
            0 <= i < records.drop_first().len() ==> (#[trigger] records.drop_first()[i]).path
                != k) by {
            assert(forall|i: int|
                0 <= i < records.drop_first().len() ==> records.drop_first()[i] == records[i + 1]);
        }
        lemma_pass_other_keys(records.drop_first(), locals.drop_first(), step.1, now, k);
    }
}

/// Running the ladder again for one record, against any cache that
/// agrees at the record's path with the cache the first run left
/// behind, gives the first run's decision: the cache warmed by a run
/// never changes a later run's answer for an unchanged file.
pub proof fn lemma_record_idempotent(
    remote: FileRecordView,
    local: LocalFileView,
    cache: Map<Seq<char>, CacheEntryView>,
    c2: Map<Seq<char>, CacheEntryView>,
    now: u64,
    now2: u64,
)
    requires
        spec_agree_at(c2, spec_process_record(remote, local, cache, now).1, remote.path),
    ensures
        spec_process_record(remote, local, c2, now2).0 == spec_process_record(
            remote,
            local,
            cache,
            now,
        ).0,
{
}

/// A second diff pass over unchanged local observations, against any
/// cache that agrees with the first pass's final cache on the records'
/// paths, produces the first pass's plan.
proof fn lemma_pass_idempotent_general(
    records: Seq<FileRecordView>,
    locals: Seq<LocalFileView>,
    cache: Map<Seq<char>, CacheEntryView>,
    c2: Map<Seq<char>, CacheEntryView>,
    now: u64,
    now2: u64,
)
    requires
        records.len() == locals.len(),
        spec_unique_paths(records),
        forall|i: int|
            0 <= i < records.len() ==> spec_agree_at(
                c2,
                spec_process_all(records, locals, cache, now).1,
                (#[trigger] records[i]).path,
            ),
    ensures
        spec_process_all(records, locals, c2, now2).0 == spec_process_all(
            records,
            locals,
            cache,
            now,
        ).0,
    decreases records.len(),
{
    if records.len() > 0 {
        let r0 = records.first();
        let l0 = locals.first();
        let rest = records.drop_first();
        let lrest = locals.drop_first();
        let step1 = spec_process_record(r0, l0, cache, now);
        let pass1 = spec_process_all(rest, lrest, step1.1, now);
        assert(forall|i: int| 0 <= i < rest.len() ==> rest[i] == records[i + 1]);
        assert(forall|i: int| 0 <= i < rest.len() ==> (#[trigger] rest[i]).path != r0.path);
        assert(spec_unique_paths(rest));
        // The later records never touch the first record's path, so the
        // pass's final cache agrees there with the first step's cache.
        lemma_pass_other_keys(rest, lrest, step1.1, now, r0.path);
        assert(spec_agree_at(c2, spec_process_all(records, locals, cache, now).1, r0.path));
        assert(spec_agree_at(c2, step1.1, r0.path));
        lemma_record_idempotent(r0, l0, cache, c2, now, now2);
        let step2 = spec_process_record(r0, l0, c2, now2);
        // The second pass's first step writes only the first record's
        // path, so its cache still agrees with the first pass's final
        // cache on every later record's path.
        assert(forall|i: int|
            0 <= i < rest.len() ==> spec_agree_at(
                step2.1,
                spec_process_all(rest, lrest, step1.1, now).1,
                (#[trigger] rest[i]).path,
            )) by {
            assert forall|i: int| 0 <= i < rest.len() implies spec_agree_at(
                step2.1,
                spec_process_all(rest, lrest, step1.1, now).1,
                (#[trigger] rest[i]).path,
            ) by {
                lemma_record_other_keys(r0, l0, c2, now2, rest[i].path);
                assert(spec_agree_at(
                    c2,
                    spec_process_all(records, locals, cache, now).1,
                    records[i + 1].path,
                ));
            }
        }
        lemma_pass_idempotent_general(rest, lrest, step1.1, step2.1, now, now2);
    }
}

/// Idempotence of the diff pass: running it twice in a row with no
/// intervening filesystem change gives the same plan both times — in
/// particular, a pass that found nothing to update is followed by
/// another that finds nothing.
pub proof fn lemma_diff_idempotent(
    records: Seq<FileRecordView>,
    locals: Seq<LocalFileView>,
    cache: Map<Seq<char>, CacheEntryView>,
    now: u64,
    now2: u64,
)
    requires
        records.len() == locals.len(),
        spec_unique_paths(records),
    ensures
        ({
            let pass1 = spec_process_all(records, locals, cache, now);
            let pass2 = spec_process_all(records, locals, pass1.1, now2);
            pass2.0 == pass1.0
        }),
{
    let pass1 = spec_process_all(records, locals, cache, now);
    lemma_pass_idempotent_general(records, locals, cache, pass1.1, now, now2);
}

} // verus!
