use vstd::prelude::*;
use crate::env::{FnosEnv, data_dir_of};
use crate::platform::{fresh_uuid, unix_now, is_uuid_text};
use crate::text::has_suffix;

verus! {

/// Seconds in a day.
pub const SECONDS_PER_DAY: i64 = 86400;

/// The last '/'-separated segment of a path (the whole path when it has no '/').
pub open spec fn last_segment(s: Seq<char>) -> Seq<char>
    decreases s.len(),
{
    if s.len() == 0 {
        s
    } else if s.last() == '/' {
        Seq::empty()
    } else {
        last_segment(s.drop_last()).push(s.last())
    }
}

proof fn lemma_last_segment(s: Seq<char>, k: int)
    requires
        0 <= k <= s.len(),
        forall|j: int| k <= j < s.len() ==> s[j] != '/',
        k == 0 || s[k - 1] == '/',
    ensures
        last_segment(s) == s.subrange(k, s.len() as int),
    decreases s.len(),
{
    if s.len() > k {
        lemma_last_segment(s.drop_last(), k);
        assert(s.subrange(k, s.len() as int) =~= s.drop_last().subrange(k, s.len() - 1).push(s.last()));
    } else if s.len() > 0 {
        assert(s.subrange(k, s.len() as int) =~= Seq::<char>::empty());
    } else {
        assert(s.subrange(k, s.len() as int) =~= s);
    }
}

/// The file name of a path: what follows its last '/'.
pub fn file_name_of(path: &str) -> (r: String)
    ensures
        r@ == last_segment(path@),
{
    let n = path.unicode_len();
    let mut k: usize = 0;
    let mut i: usize = 0;
    while i < n
        invariant
            n == path@.len(),
            0 <= k <= i <= n,
            k == 0 || path@[k - 1] == '/',
            forall|j: int| k <= j < i ==> path@[j] != '/',
        decreases n - i,
    {
        if path.get_char(i) == '/' {
            k = i + 1;
        }
        i += 1;
    }
    proof {
        lemma_last_segment(path@, k as int);
    }
    path.substring_char(k, n).to_owned()
}

/// Metadata of one quarantined file, kept in its sidecar. Times are seconds
/// since the Unix epoch.
#[derive(Debug, Clone)]
pub struct QuarantineMetadata {
    pub uuid: String,
    pub original_path: String,
    pub original_name: String,
    pub file_size: u64,
    pub file_hash: Option<String>,
    pub quarantined_at: i64,
    pub virus_name: String,
    pub scan_id: String,
}

impl QuarantineMetadata {
    /// Metadata for a file quarantined now under a fresh random identifier.
    pub fn new(original_path: String, virus_name: String, scan_id: String, file_size: u64) -> (r: Self)
        ensures
            is_uuid_text(r.uuid@),
            r.original_path == original_path,
            r.original_name@ == last_segment(original_path@),
            r.virus_name == virus_name,
            r.scan_id == scan_id,
            r.file_size == file_size,
            r.file_hash is None,
    {
        let uuid = fresh_uuid();
        let now = unix_now();
        QuarantineMetadata::with_identity(uuid, now, original_path, virus_name, scan_id, file_size)
    }

    /// Metadata with the given identifier and quarantine time.
    pub fn with_identity(
        uuid: String,
        quarantined_at: i64,
        original_path: String,
        virus_name: String,
        scan_id: String,
        file_size: u64,
    ) -> (r: Self)
        ensures
            r.uuid == uuid,
            r.quarantined_at == quarantined_at,
            r.original_path == original_path,
            r.original_name@ == last_segment(original_path@),
            r.virus_name == virus_name,
            r.scan_id == scan_id,
            r.file_size == file_size,
            r.file_hash is None,
    {
        let original_name = file_name_of(original_path.as_str());
        QuarantineMetadata {
            uuid,
            original_path,
            original_name,
            file_size,
            file_hash: None,
            quarantined_at,
            virus_name,
            scan_id,
        }
    }
}

/// One entry of the quarantine listing.
#[derive(Debug, Clone)]
pub struct QuarantineItem {
    pub uuid: String,
    pub original_path: String,
    pub original_name: String,
    pub file_size: u64,
    pub virus_name: String,
    pub quarantined_at: i64,
    pub scan_id: String,
}

impl QuarantineItem {
    /// The listing entry of a sidecar's metadata.
    pub fn from_metadata(m: QuarantineMetadata) -> (r: Self)
        ensures
            r.uuid == m.uuid,
            r.original_path == m.original_path,
            r.original_name == m.original_name,
            r.file_size == m.file_size,
            r.virus_name == m.virus_name,
            r.quarantined_at == m.quarantined_at,
            r.scan_id == m.scan_id,
    {
        QuarantineItem {
            uuid: m.uuid,
            original_path: m.original_path,
            original_name: m.original_name,
            file_size: m.file_size,
            virus_name: m.virus_name,
            quarantined_at: m.quarantined_at,
            scan_id: m.scan_id,
        }
    }
}

/// Payload of entry `uuid` in the vault `vault`.
pub open spec fn payload_path(vault: Seq<char>, uuid: Seq<char>) -> Seq<char> {
    vault + "/files/"@ + uuid
}

/// Sidecar of entry `uuid` in the vault `vault`.
pub open spec fn sidecar_path(vault: Seq<char>, uuid: Seq<char>) -> Seq<char> {
    vault + "/metadata/"@ + uuid + ".json"@
}

/// An entry older than `days` days at time `now` (seconds).
pub open spec fn is_expired(quarantined_at: int, now: int, days: int) -> bool {
    quarantined_at < now - days * 86400
}

/// Moves that put a file into the vault.
#[derive(Debug, Clone)]
pub struct QuarantinePlan {
    /// Directory of payloads, created if missing.
    pub files_dir: String,
    /// Directory of sidecars, created if missing.
    pub metadata_dir: String,
    /// Where the file is moved.
    pub payload_path: String,
    /// Where its metadata is written.
    pub sidecar_path: String,
    pub metadata: QuarantineMetadata,
}

/// Moves that put a vault entry back in place.
#[derive(Debug, Clone)]
pub struct RestorePlan {
    /// The payload to move back.
    pub payload_path: String,
    /// Where it goes: the original path.
    pub destination: String,
    /// The sidecar to remove afterwards.
    pub sidecar_path: String,
}

/// The quarantine vault: payloads under `files/`, sidecar metadata under
/// `metadata/`, both named by the entry's identifier.
#[derive(Debug, Clone)]
pub struct QuarantineService {
    env: FnosEnv,
}

impl QuarantineService {
    pub closed spec fn vault(&self) -> Seq<char> {
        data_dir_of(self.env) + "/quarantine"@
    }

    /// The vault of the given environment.
    pub fn new(env: FnosEnv) -> (r: Self)
        ensures
            r.vault() == data_dir_of(env) + "/quarantine"@,
    {
        QuarantineService { env }
    }

    /// Directory of payloads.
    pub fn files_dir(&self) -> (r: String)
        ensures
            r@ == self.vault() + "/files"@,
    {
        self.env.quarantine_dir().concat("/files")
    }

    /// Directory of sidecars.
    pub fn metadata_dir(&self) -> (r: String)
        ensures
            r@ == self.vault() + "/metadata"@,
    {
        self.env.quarantine_dir().concat("/metadata")
    }

    /// Where the payload of entry `uuid` lies.
    pub fn payload_path(&self, uuid: &str) -> (r: String)
        ensures
            r@ == payload_path(self.vault(), uuid@),
    {
        let r = self.env.quarantine_dir().concat("/files/").concat(uuid);
        assert(r@ =~= payload_path(self.vault(), uuid@));
        r
    }

    /// Where the sidecar of entry `uuid` lies.
    pub fn sidecar_path(&self, uuid: &str) -> (r: String)
        ensures
            r@ == sidecar_path(self.vault(), uuid@),
    {
        let r = self.env.quarantine_dir().concat("/metadata/").concat(uuid).concat(".json");
        assert(r@ =~= sidecar_path(self.vault(), uuid@));
        r
    }

    /// What quarantining the file at `original_path` does, for the entry
    /// described by `metadata`: its payload and sidecar paths.
    pub fn plan_quarantine(&self, metadata: QuarantineMetadata) -> (r: QuarantinePlan)
        ensures
            r.files_dir@ == self.vault() + "/files"@,
            r.metadata_dir@ == self.vault() + "/metadata"@,
            r.payload_path@ == payload_path(self.vault(), metadata.uuid@),
            r.sidecar_path@ == sidecar_path(self.vault(), metadata.uuid@),
            r.metadata == metadata,
    {
        let payload_path = self.payload_path(metadata.uuid.as_str());
        let sidecar_path = self.sidecar_path(metadata.uuid.as_str());
        QuarantinePlan {
            files_dir: self.files_dir(),
            metadata_dir: self.metadata_dir(),
            payload_path,
            sidecar_path,
            metadata,
        }
    }

    /// What restoring entry `uuid`, whose sidecar holds `metadata`, does:
    /// the payload goes back to the original path and the sidecar goes.
    pub fn plan_restore(&self, uuid: &str, metadata: &QuarantineMetadata) -> (r: RestorePlan)
        ensures
            r.payload_path@ == payload_path(self.vault(), uuid@),
            r.destination == metadata.original_path,
            r.sidecar_path@ == sidecar_path(self.vault(), uuid@),
    {
        RestorePlan {
            payload_path: self.payload_path(uuid),
            destination: metadata.original_path.clone(),
            sidecar_path: self.sidecar_path(uuid),
        }
    }

    /// Files that deleting entry `uuid` removes: payload first, then sidecar.
    pub fn plan_delete(&self, uuid: &str) -> (r: (String, String))
        ensures
            r.0@ == payload_path(self.vault(), uuid@),
            r.1@ == sidecar_path(self.vault(), uuid@),
    {
        (self.payload_path(uuid), self.sidecar_path(uuid))
    }
}

/// Whether a file in the metadata directory is a sidecar: its name ends in
/// ".json" after at least one other character.
pub fn is_sidecar_name(path: &str) -> (r: bool)
    ensures
        r == (last_segment(path@).len() > 5 && last_segment(path@).subrange(
            last_segment(path@).len() - 5, last_segment(path@).len() as int) == ".json"@),
{
    let name = file_name_of(path);
    proof {
        reveal_strlit(".json");
    }
    name.unicode_len() > 5 && has_suffix(name.as_str(), ".json")
}

/// Whether an entry quarantined at `quarantined_at` is older than `days`
/// days at time `now`.
pub fn expired(quarantined_at: i64, now: i64, days: u32) -> (r: bool)
    ensures
        r == is_expired(quarantined_at as int, now as int, days as int),
{
    let span: i128 = (days as i128) * (SECONDS_PER_DAY as i128);
    assert(span <= 4294967295 * 86400) by (nonlinear_arith)
        requires
            span == days as i128 * 86400,
            days <= 4294967295,
    ;
    let cutoff: i128 = (now as i128) - span;
    (quarantined_at as i128) < cutoff
}

/// Identifiers of the entries older than `days` days at `now`, in order.
pub open spec fn expired_uuids(entries: Seq<QuarantineMetadata>, now: int, days: int) -> Seq<String>
    decreases entries.len(),
{
    if entries.len() == 0 {
        Seq::empty()
    } else if is_expired(entries.last().quarantined_at as int, now, days) {
        expired_uuids(entries.drop_last(), now, days).push(entries.last().uuid)
    } else {
        expired_uuids(entries.drop_last(), now, days)
    }
}

/// The identifiers of the entries older than `days` days at `now`, in
/// listing order.
pub fn select_expired(entries: &Vec<QuarantineMetadata>, now: i64, days: u32) -> (r: Vec<String>)
    ensures
        r@ == expired_uuids(entries@, now as int, days as int),
{
    let mut out: Vec<String> = Vec::new();
    let mut i: usize = 0;
    while i < entries.len()
        invariant
            0 <= i <= entries@.len(),
            out@ == expired_uuids(entries@.subrange(0, i as int), now as int, days as int),
        decreases entries@.len() - i,
    {
        let ghost prefix = entries@.subrange(0, i as int + 1);
        assert(prefix.drop_last() =~= entries@.subrange(0, i as int));
        assert(prefix.last() == entries@[i as int]);
        if expired(entries[i].quarantined_at, now, days) {
            out.push(entries[i].uuid.clone());
        }
        i += 1;
    }
    assert(entries@.subrange(0, entries@.len() as int) =~= entries@);
    out
}

/// Sum of the sizes, saturating at the largest `u64` at each step.
pub open spec fn saturating_total(sizes: Seq<u64>) -> u64
    decreases sizes.len(),
{
    if sizes.len() == 0 {
        0
    } else {
        let t = saturating_total(sizes.drop_last());
        if t + sizes.last() > u64::MAX { u64::MAX } else { (t + sizes.last()) as u64 }
    }
}

/// Count and freed bytes of a cleanup that removed payloads of the given
/// sizes; the byte total saturates at the largest `u64`.
pub fn cleanup_tally(sizes: &Vec<u64>) -> (r: (u32, u64))
    requires
        sizes@.len() <= u32::MAX,
    ensures
        r.0 == sizes@.len(),
        r.1 == saturating_total(sizes@),
{
    let mut count: u32 = 0;
    let mut bytes: u64 = 0;
    let mut i: usize = 0;
    while i < sizes.len()
        invariant
            0 <= i <= sizes@.len(),
            sizes@.len() <= u32::MAX,
            count == i,
            bytes == saturating_total(sizes@.subrange(0, i as int)),
        decreases sizes@.len() - i,
    {
        let ghost pre = sizes@.subrange(0, i as int + 1);
        assert(pre.drop_last() =~= sizes@.subrange(0, i as int));
        assert(pre.last() == sizes@[i as int]);
        count = count + 1;
        let s = sizes[i];
        if bytes > u64::MAX - s {
            bytes = u64::MAX;
        } else {
            bytes = bytes + s;
        }
        i += 1;
    }
    assert(sizes@.subrange(0, sizes@.len() as int) =~= sizes@);
    (count, bytes)
}

/// Files on disk, by path.
pub type Disk = Map<Seq<char>, Seq<u8>>;

/// The disk after renaming `from` to `to`.
pub open spec fn moved(d: Disk, from: Seq<char>, to: Seq<char>) -> Disk {
    d.remove(from).insert(to, d[from])
}

/// The disk after quarantining the file at `original` into the vault entry
/// `uuid`, with `sidecar` as the written metadata.
pub open spec fn after_quarantine(d: Disk, vault: Seq<char>, uuid: Seq<char>, original: Seq<char>, sidecar: Seq<u8>) -> Disk {
    moved(d, original, payload_path(vault, uuid)).insert(sidecar_path(vault, uuid), sidecar)
}

/// The disk after restoring vault entry `uuid` to `destination`.
pub open spec fn after_restore(d: Disk, vault: Seq<char>, uuid: Seq<char>, destination: Seq<char>) -> Disk {
    moved(d, payload_path(vault, uuid), destination).remove(sidecar_path(vault, uuid))
}

/// The disk after deleting vault entry `uuid`.
pub open spec fn after_delete(d: Disk, vault: Seq<char>, uuid: Seq<char>) -> Disk {
    d.remove(payload_path(vault, uuid)).remove(sidecar_path(vault, uuid))
}

/// Entries a listing of the vault reports: those whose sidecar is on disk.
pub open spec fn listed(d: Disk, vault: Seq<char>, uuid: Seq<char>) -> bool {
    d.contains_key(sidecar_path(vault, uuid))
}

/// Quarantine then restore puts the file back: on a disk where renames
/// move contents, the file at its original path has the same bytes as
/// before, and neither the payload nor the sidecar is left in the vault.
/// (The plans say which paths the host renames and removes:
/// `plan_quarantine` and `plan_restore` name exactly these.)
pub proof fn lemma_restore_reverses_quarantine(d: Disk, vault: Seq<char>, m: QuarantineMetadata, sidecar: Seq<u8>)
    requires
        d.contains_key(m.original_path@),
        m.original_path@ != payload_path(vault, m.uuid@),
        m.original_path@ != sidecar_path(vault, m.uuid@),
    ensures
        ({
            let q = after_quarantine(d, vault, m.uuid@, m.original_path@, sidecar);
            let r = after_restore(q, vault, m.uuid@, m.original_path@);
            &&& !q.contains_key(m.original_path@)
            &&& q[payload_path(vault, m.uuid@)] == d[m.original_path@]
            &&& r.contains_key(m.original_path@)
            &&& r[m.original_path@] == d[m.original_path@]
            &&& !r.contains_key(sidecar_path(vault, m.uuid@))
            &&& !r.contains_key(payload_path(vault, m.uuid@))
            &&& !listed(r, vault, m.uuid@)
        }),
{
    lemma_vault_paths_distinct(vault, m.uuid@, m.uuid@);
}

/// Quarantine then delete leaves nothing behind: neither payload nor
/// sidecar remains, and the listing no longer reports the entry.
pub proof fn lemma_delete_after_quarantine(d: Disk, vault: Seq<char>, m: QuarantineMetadata, sidecar: Seq<u8>)
    requires
        d.contains_key(m.original_path@),
        m.original_path@ != payload_path(vault, m.uuid@),
        m.original_path@ != sidecar_path(vault, m.uuid@),
    ensures
        ({
            let q = after_quarantine(d, vault, m.uuid@, m.original_path@, sidecar);
            let r = after_delete(q, vault, m.uuid@);
            &&& listed(q, vault, m.uuid@)
            &&& !r.contains_key(payload_path(vault, m.uuid@))
            &&& !r.contains_key(sidecar_path(vault, m.uuid@))
            &&& !listed(r, vault, m.uuid@)
        }),
{
    lemma_vault_paths_distinct(vault, m.uuid@, m.uuid@);
}

/// Payload and sidecar of one entry are distinct files, and two distinct
/// entries never share a payload or a sidecar.
pub proof fn lemma_vault_paths_distinct(vault: Seq<char>, u: Seq<char>, v: Seq<char>)
    ensures
        payload_path(vault, u) != sidecar_path(vault, u),
        u != v ==> payload_path(vault, u) != payload_path(vault, v),
        u != v ==> sidecar_path(vault, u) != sidecar_path(vault, v),
{
    reveal_strlit("/files/");
    reveal_strlit("/metadata/");
    reveal_strlit(".json");
    let p = payload_path(vault, u);
    let s = sidecar_path(vault, u);
    if p == s {
        assert(p[vault.len() as int + 1] == 'f');
        assert(s[vault.len() as int + 1] == 'm');
    }
    if u != v {
        let pv = payload_path(vault, v);
        if p == pv {
            assert(u =~= p.subrange(vault.len() as int + 7, p.len() as int));
            assert(v =~= pv.subrange(vault.len() as int + 7, pv.len() as int));
        }
        let sv = sidecar_path(vault, v);
        if s == sv {
            assert(u =~= s.subrange(vault.len() as int + 10, s.len() as int - 5));
            assert(v =~= sv.subrange(vault.len() as int + 10, sv.len() as int - 5));
        }
    }
}

/// Cleanup with zero days removes exactly the entries quarantined before now.
pub proof fn lemma_cleanup_zero_days(quarantined_at: int, now: int)
    ensures
        is_expired(quarantined_at, now, 0) <==> quarantined_at < now,
{
}

} // verus!
