//! Backups: which stored objects are backups, what is listed of them, how
//! progress is streamed while one is created or restored, and the checks
//! made before a restoration.
use vstd::prelude::*;

use crate::app_config::str_eq;
use crate::auth::{forbidden_with, is_admin_role, CallerInfo};
use crate::errors::{
    error_json, internal_server_error, spec_auto_log, validation_error, Error, STATUS_BAD_REQUEST,
    STATUS_INTERNAL_SERVER_ERROR,
};
use crate::json::{lemma_object_view, JsonNumber, JsonValue, JsonView};
use crate::text::{ends_with, push_str};

verus! {

/// The version of the archive layout that new backups use.
pub const BACKUPS_VERSION: u8 = 1;

/// The archive entry that holds the Prose Pod API's data.
pub const PROSE_POD_API_ARCHIVE_KEY: &'static str = "prose-pod-api-data";

/// The name of a backup's checksum object: the backup's name, then `.sha256`.
pub open spec fn spec_checksum_key(backup_id: Seq<char>) -> Seq<char> {
    backup_id + ".sha256"@
}

/// Objects named `*.sig` (signatures) and `*.sha256` (checksums) sit
/// beside the backups in the store; every other object is a backup.
pub open spec fn is_backup_key(key: Seq<char>) -> bool {
    !".sig"@.is_suffix_of(key) && !".sha256"@.is_suffix_of(key)
}

/// Whether an object of the store is a backup, by its name.
pub fn is_backup_object_key(key: &str) -> (b: bool)
    ensures
        b == is_backup_key(key@),
{
    !ends_with(key, ".sig") && !ends_with(key, ".sha256")
}

/// A backup's checksum object is never listed as a backup itself.
pub proof fn law_checksum_objects_are_not_backups(backup_id: Seq<char>)
    ensures
        !is_backup_key(spec_checksum_key(backup_id)),
{
    let k = spec_checksum_key(backup_id);
    let suffix = ".sha256"@;
    assert(k.subrange(k.len() - suffix.len(), k.len() as int) =~= suffix);
}

/// The name of the object holding the checksum of backup `backup_id`.
pub fn checksum_key(backup_id: &str) -> (k: String)
    ensures
        k@ == spec_checksum_key(backup_id@),
{
    let mut k = backup_id.to_owned();
    push_str(&mut k, ".sha256");
    k
}

/// The backup that a listed object stands for: its name, when it has one
/// and is a backup.
pub fn backup_id_of(key: &Option<String>) -> (r: Option<String>)
    ensures
        r == (match key {
            Some(k) => if is_backup_key(k@) { Some(*k) } else { None::<String> },
            None => None::<String>,
        }),
{
    match key {
        Some(k) => {
            if is_backup_object_key(k.as_str()) {
                Some(k.clone())
            } else {
                None
            }
        },
        None => None,
    }
}

/// An object's size as the store reports it (a signed integer), read as a
/// number of bytes the way the store's client does: by reinterpreting its
/// bits.
pub fn object_size(size: Option<i64>) -> (r: Option<u64>)
    ensures
        r == (match size {
            Some(s) => Some(s as u64),
            None => None::<u64>,
        }),
{
    match size {
        Some(s) => Some(s as u64),
        None => None,
    }
}

/// What is known of a stored backup.
#[derive(Debug)]
pub struct BackupMetadata {
    pub backup_id: String,
    /// When the backup was last modified, in nanoseconds since the Unix
    /// epoch, if the store said so.
    pub created_at: Option<i128>,
    pub size_bytes: Option<u64>,
    /// The content of the backup's checksum object, if it could be read.
    pub checksum: Option<String>,
}

/// The metadata listed for a backup object, from what the store reported
/// of it and from its checksum object.
pub fn backup_metadata(
    backup_id: String,
    created_at: Option<i128>,
    size: Option<i64>,
    checksum: Option<String>,
) -> (m: BackupMetadata)
    ensures
        m.backup_id == backup_id,
        m.created_at == created_at,
        m.size_bytes == (match size {
            Some(s) => Some(s as u64),
            None => None::<u64>,
        }),
        m.checksum == checksum,
{
    BackupMetadata { backup_id, created_at, size_bytes: object_size(size), checksum }
}

/// The backups among the listed objects, by name, in the order listed:
/// objects without a name, checksums and signatures are left out.
pub open spec fn listed_backup_ids(listing: Seq<Option<String>>) -> Seq<Seq<char>>
    decreases listing.len(),
{
    if listing.len() == 0 {
        Seq::empty()
    } else {
        let init = listed_backup_ids(listing.drop_last());
        match listing.last() {
            Some(k) => if is_backup_key(k@) {
                init.push(k@)
            } else {
                init
            },
            None => init,
        }
    }
}

/// The first step of listing backups: the names of the listed objects that
/// are backups, in order. Each then gets its metadata with
/// [`backup_metadata`].
pub fn backup_ids(listing: &Vec<Option<String>>) -> (ids: Vec<String>)
    ensures
        Seq::new(ids@.len(), |i: int| ids@[i]@) == listed_backup_ids(listing@),
{
    let mut ids: Vec<String> = Vec::new();
    let mut i: usize = 0;
    while i < listing.len()
        invariant
            i <= listing@.len(),
            Seq::new(ids@.len(), |k: int| ids@[k]@) == listed_backup_ids(listing@.take(i as int)),
        decreases listing@.len() - i,
    {
        let ghost before = ids@;
        proof {
            assert(listing@.take(i + 1).drop_last() =~= listing@.take(i as int));
            assert(listing@.take(i + 1).last() == listing@[i as int]);
        }
        match backup_id_of(&listing[i]) {
            Some(id) => {
                ids.push(id);
                proof {
                    assert(Seq::new(ids@.len(), |k: int| ids@[k]@) =~= Seq::new(
                        before.len(),
                        |k: int| before[k]@,
                    ).push(ids@[before.len() as int]@));
                }
            },
            None => {},
        }
        i = i + 1;
    }
    proof {
        assert(listing@.take(listing@.len() as int) =~= listing@);
    }
    ids
}

/// How many users a Pod has.
#[derive(Debug)]
pub struct UsersStats {
    pub count: usize,
}

/// A writer that writes everything it is given to two writers.
#[derive(Debug)]
pub struct TeeWriter<W1, W2> {
    pub a: W1,
    pub b: W2,
}

impl<W1, W2> TeeWriter<W1, W2> {
    pub fn new(a: W1, b: W2) -> (t: Self)
        ensures
            t.a == a,
            t.b == b,
    {
        TeeWriter { a, b }
    }
}

/// The body of a request that creates a backup.
#[derive(Debug)]
pub struct CreateBackupRequest {
    pub description: String,
}

/// The query of a request for a backup's download URL.
#[derive(Debug)]
pub struct GetBackupDownloadUrlRequest {
    pub ttl: Option<std::time::Duration>,
}

// MARK: - Progress events

/// A progress event: `progress` bytes out of `total`.
#[derive(Clone, Copy, Debug, PartialEq, Eq)]
pub struct ProgressEvent {
    pub progress: u64,
    pub total: u64,
}

/// The progress of a backup being created or restored, as streamed to the
/// client. Events are throttled: one is sent when the time interval since
/// the last one has elapsed (which the caller tells), and the last event
/// sent always says 100%.
#[derive(Clone, Copy, Debug, PartialEq, Eq)]
pub struct ProgressThrottle {
    pub total: u64,
    pub progress: u64,
    /// The progress that the last event sent said.
    pub last_sent: u64,
}

/// `a + b`, saturated at `u64::MAX`.
pub open spec fn sat_add(a: u64, b: u64) -> u64 {
    if a + b > u64::MAX {
        u64::MAX
    } else {
        (a + b) as u64
    }
}

/// Starting: the total is known and a first event (0%) is sent.
pub open spec fn start_step(s: ProgressThrottle, total: u64) -> (ProgressThrottle, ProgressEvent) {
    (
        ProgressThrottle { total, progress: s.progress, last_sent: 0 },
        ProgressEvent { progress: 0, total },
    )
}

/// `len` more bytes were processed; an event is sent if the throttling
/// interval has elapsed.
pub open spec fn progress_step(s: ProgressThrottle, len: u64, elapsed: bool) -> (
    ProgressThrottle,
    Option<ProgressEvent>,
) {
    let p = sat_add(s.progress, len);
    if elapsed {
        (
            ProgressThrottle { total: s.total, progress: p, last_sent: p },
            Some(ProgressEvent { progress: p, total: s.total }),
        )
    } else {
        (ProgressThrottle { total: s.total, progress: p, last_sent: s.last_sent }, None)
    }
}

/// A restoration ignores empty progress reports.
pub open spec fn restore_progress_step(s: ProgressThrottle, len: u64, elapsed: bool) -> (
    ProgressThrottle,
    Option<ProgressEvent>,
) {
    if len == 0 {
        (s, None)
    } else {
        progress_step(s, len, elapsed)
    }
}

/// Finishing: the 100% event is sent unless it was the last one sent.
pub open spec fn finish_step(s: ProgressThrottle) -> (ProgressThrottle, Option<ProgressEvent>) {
    if s.last_sent < s.total {
        (
            ProgressThrottle { total: s.total, progress: s.progress, last_sent: s.total },
            Some(ProgressEvent { progress: s.total, total: s.total }),
        )
    } else {
        (s, None)
    }
}

impl ProgressThrottle {
    /// Nothing processed, nothing sent.
    pub fn new() -> (t: ProgressThrottle)
        ensures
            t == (ProgressThrottle { total: 0, progress: 0, last_sent: 0 }),
    {
        ProgressThrottle { total: 0, progress: 0, last_sent: 0 }
    }

    fn start(&mut self, total: u64) -> (e: ProgressEvent)
        ensures
            (*final(self), e) == start_step(*old(self), total),
    {
        self.total = total;
        self.last_sent = 0;
        ProgressEvent { progress: 0, total }
    }

    fn advance(&mut self, len: u64, interval_elapsed: bool) -> (e: Option<ProgressEvent>)
        ensures
            (*final(self), e) == progress_step(*old(self), len, interval_elapsed),
    {
        self.progress = self.progress.saturating_add(len);
        if interval_elapsed {
            self.last_sent = self.progress;
            Some(ProgressEvent { progress: self.progress, total: self.total })
        } else {
            None
        }
    }

    fn finish(&mut self) -> (e: Option<ProgressEvent>)
        ensures
            (*final(self), e) == finish_step(*old(self)),
    {
        if self.last_sent < self.total {
            self.last_sent = self.total;
            Some(ProgressEvent { progress: self.total, total: self.total })
        } else {
            None
        }
    }

    /// A backup archive of `expected_archive_size` bytes is being created.
    pub fn on_archive_start(&mut self, expected_archive_size: u64) -> (e: ProgressEvent)
        ensures
            (*final(self), e) == start_step(*old(self), expected_archive_size),
    {
        self.start(expected_archive_size)
    }

    /// `archived_bytes` more bytes were archived.
    pub fn on_archive_progress(&mut self, archived_bytes: usize, interval_elapsed: bool) -> (e:
        Option<ProgressEvent>)
        ensures
            (*final(self), e) == progress_step(*old(self), archived_bytes as u64, interval_elapsed),
    {
        self.advance(archived_bytes as u64, interval_elapsed)
    }

    /// The backup was uploaded.
    pub fn on_backup_uploaded(&mut self) -> (e: Option<ProgressEvent>)
        ensures
            (*final(self), e) == finish_step(*old(self)),
    {
        self.finish()
    }

    /// A restoration of `total` bytes starts; nothing was processed yet.
    pub fn on_restoration_start(&mut self, total: u64) -> (e: ProgressEvent)
        requires
            old(self).progress == 0,
        ensures
            (*final(self), e) == start_step(*old(self), total),
    {
        self.start(total)
    }

    /// `len` more bytes were restored; the restoration has started, with a
    /// total that is not zero.
    pub fn on_restoration_progress(&mut self, len: usize, interval_elapsed: bool) -> (e: Option<
        ProgressEvent,
    >)
        requires
            old(self).total != 0,
        ensures
            (*final(self), e) == restore_progress_step(*old(self), len as u64, interval_elapsed),
    {
        if len == 0 {
            return None;
        }
        self.advance(len as u64, interval_elapsed)
    }

    /// The restoration is finished.
    pub fn on_restoration_finished(&mut self) -> (e: Option<ProgressEvent>)
        ensures
            (*final(self), e) == finish_step(*old(self)),
    {
        self.finish()
    }
}

/// The bytes that a list of progress reports adds up to.
pub open spec fn reported_bytes(steps: Seq<(u64, bool)>) -> int
    decreases steps.len(),
{
    if steps.len() == 0 {
        0
    } else {
        steps[0].0 + reported_bytes(steps.drop_first())
    }
}

/// The state after a list of progress reports (each the number of bytes
/// and whether the throttling interval had elapsed), and the last event
/// they sent, if any. `skip_empty` tells a restoration, which ignores
/// empty reports.
pub open spec fn run_progress(s: ProgressThrottle, steps: Seq<(u64, bool)>, skip_empty: bool) -> (
    ProgressThrottle,
    Option<ProgressEvent>,
)
    decreases steps.len(),
{
    if steps.len() == 0 {
        (s, None)
    } else {
        let first = if skip_empty {
            restore_progress_step(s, steps[0].0, steps[0].1)
        } else {
            progress_step(s, steps[0].0, steps[0].1)
        };
        let rest = run_progress(first.0, steps.drop_first(), skip_empty);
        (rest.0, if rest.1 is Some { rest.1 } else { first.1 })
    }
}

proof fn lemma_run_progress(s: ProgressThrottle, steps: Seq<(u64, bool)>, skip_empty: bool)
    requires
        s.last_sent <= s.progress,
        s.progress + reported_bytes(steps) <= s.total,
    ensures
        ({
            let r = run_progress(s, steps, skip_empty);
            &&& r.0.total == s.total
            &&& r.0.last_sent <= r.0.progress <= s.total
            &&& r.1 is Some ==> r.1 == Some(ProgressEvent { progress: r.0.last_sent, total: s.total })
            &&& r.1 is None ==> r.0.last_sent == s.last_sent
        }),
    decreases steps.len(),
{
    if steps.len() > 0 {
        let first = if skip_empty {
            restore_progress_step(s, steps[0].0, steps[0].1)
        } else {
            progress_step(s, steps[0].0, steps[0].1)
        };
        lemma_run_progress(first.0, steps.drop_first(), skip_empty);
    }
}

/// Whatever the throttling let through, the last progress event that a
/// client receives says 100%: after the first event, any progress reports
/// that do not add up to more than the total, and the end of the operation.
pub proof fn law_last_progress_event_is_complete(
    s: ProgressThrottle,
    total: u64,
    steps: Seq<(u64, bool)>,
    skip_empty: bool,
)
    requires
        s.progress == 0,
        reported_bytes(steps) <= total,
    ensures
        ({
            let (s1, first) = start_step(s, total);
            let (s2, during) = run_progress(s1, steps, skip_empty);
            let (s3, at_end) = finish_step(s2);
            let last = if at_end is Some {
                at_end
            } else if during is Some {
                during
            } else {
                Some(first)
            };
            &&& last == Some(ProgressEvent { progress: total, total })
            &&& s3.last_sent == total
        }),
{
    let (s1, first) = start_step(s, total);
    lemma_run_progress(s1, steps, skip_empty);
}

/// The progress event's data: `{"progress": …, "total": …}`.
pub fn progress_event_data(e: ProgressEvent) -> (j: JsonValue)
    ensures
        j@ == JsonView::Object(
            seq![
                ("progress"@, JsonView::Number(JsonNumber::PosInt(e.progress))),
                ("total"@, JsonView::Number(JsonNumber::PosInt(e.total))),
            ],
        ),
{
    let mut entries: Vec<(String, JsonValue)> = Vec::new();
    entries.push(("progress".to_owned(), JsonValue::Number(JsonNumber::PosInt(e.progress))));
    entries.push(("total".to_owned(), JsonValue::Number(JsonNumber::PosInt(e.total))));
    proof {
        lemma_object_view(entries);
        if let JsonView::Object(v) = JsonValue::Object(entries)@ {
            assert(v =~= seq![
                ("progress"@, JsonView::Number(JsonNumber::PosInt(e.progress))),
                ("total"@, JsonView::Number(JsonNumber::PosInt(e.total))),
            ]);
        }
    }
    JsonValue::Object(entries)
}

/// The name of the event that reports a backup's creation progress.
pub const BACKUP_CREATE_PROGRESS_EVENT: &'static str = "backup-create-progress";
/// The name of the event that reports a backup's creation.
pub const BACKUP_CREATE_SUCCESS_EVENT: &'static str = "backup-create-success";
/// The name of the event that reports a failed backup creation.
pub const BACKUP_CREATE_ERROR_EVENT: &'static str = "backup-create-error";
/// The name of the event that reports a restoration's progress.
pub const BACKUP_RESTORE_PROGRESS_EVENT: &'static str = "backup-restore-progress";
/// The name of the event that reports a restoration.
pub const BACKUP_RESTORE_SUCCESS_EVENT: &'static str = "backup-restore-success";
/// The name of the event that reports a failed restoration.
pub const BACKUP_RESTORE_ERROR_EVENT: &'static str = "backup-restore-error";

// MARK: - Restoration

/// A restoration also restores the Prose Pod API's data, which the backup
/// does not count: its size is estimated as a tenth of the total, so that
/// the progress does not reach 100% before that data is restored.
#[derive(Debug)]
pub struct WithAdditionalData {
    pub additional_data_size: usize,
}

/// A tenth of `total`, as a `usize` (saturated).
pub open spec fn additional_size(total: u64) -> usize {
    if total / 10 <= usize::MAX {
        (total / 10) as usize
    } else {
        usize::MAX
    }
}

impl WithAdditionalData {
    /// A restoration of `total` bytes starts: records the estimate of the
    /// additional data and returns the total that the progress counts to.
    pub fn on_restoration_start(&mut self, total: u64) -> (counted_total: u64)
        ensures
            final(self).additional_data_size == additional_size(total),
            counted_total == sat_add(total, (total / 10) as u64),
    {
        let additional: u64 = total / 10;
        self.additional_data_size = if additional <= usize::MAX as u64 {
            additional as usize
        } else {
            usize::MAX
        };
        total.saturating_add(additional)
    }
}

/// `e` is the answer to a restoration that failed on the server's side, whose
/// details are logged under `error_id`.
pub open spec fn is_restore_failed_error(e: Error, error_id: Seq<char>) -> bool {
    &&& e.kind@ == "INTERNAL_ERROR"@
    &&& e.code@ == "BACKUP_RESTORE_FAILED"@
    &&& e.status == STATUS_INTERNAL_SERVER_ERROR
    &&& e.message@ == "Internal server error"@
    &&& e.description@ == spec_auto_log("Something went wrong while restoring the backup."@, error_id)
}

/// The answer to a restoration that failed on the server's side: restoring
/// the backup's files, or handing the Prose Pod API its data, went wrong.
pub fn restore_failed_error(error_id: &str) -> (e: Error)
    ensures
        is_restore_failed_error(e, error_id@),
{
    proof {
        reveal_strlit("BACKUP_RESTORE_FAILED");
    }
    internal_server_error(error_id, "BACKUP_RESTORE_FAILED", "Something went wrong while restoring the backup.")
}

/// What happened last while a backup is restored.
#[derive(Debug)]
pub enum RestoreEvent {
    /// The backup's own files were restored (`true`) or not.
    FilesRestored(bool),
    /// The Prose Pod API's data was found in the backup (`true`) or not.
    ApiDataFound(bool),
    /// The Prose Pod API's data was packed into an archive (`true`) or not.
    ApiDataPacked(bool),
    /// The Prose Pod API took its data back (`true`) or not.
    ApiDataRestored(bool),
    /// The Prose Pod API's data was removed from the restored files
    /// (`true`) or not.
    ApiDataRemoved(bool),
}

/// What to do next while a backup is restored.
#[derive(Debug)]
pub enum RestoreAction {
    /// Look for the Prose Pod API's data among the restored files.
    FindApiData,
    /// Pack the Prose Pod API's data into an archive.
    PackApiData,
    /// Hand the Prose Pod API its data.
    RestoreApiData,
    /// Remove the Prose Pod API's data from the restored files.
    RemoveApiData,
    /// Report `progress` more bytes restored (the Prose Pod API's data),
    /// keep the restored files and answer with success.
    Finish { progress: usize },
    /// Put the previous files back and answer with this error.
    Fail(Error),
    /// Put the previous files back and answer with the internal server
    /// error made from the failure itself, which says nothing more of it.
    FailWithoutContext,
}

/// The order of a restoration: the backup's files first, then the Prose Pod
/// API's data, which must be in the backup, is packed, handed to the Prose
/// Pod API and removed from the restored files; only then does it succeed,
/// its progress completed by the size estimated for that data. Every
/// failure stops it: a backup without that data is invalid, a failed
/// restoration of the files or of the Prose Pod API's data is the server's
/// (logged under `error_id`), and a failure to pack or remove the data is
/// answered as an internal error without context.
pub fn next_restore_action(event: RestoreEvent, additional_data_size: usize, error_id: &str) -> (a:
    RestoreAction)
    ensures
        event matches RestoreEvent::FilesRestored(true) ==> a is FindApiData,
        event matches RestoreEvent::FilesRestored(false) ==> (a matches RestoreAction::Fail(e)
            && is_restore_failed_error(e, error_id@)),
        event matches RestoreEvent::ApiDataFound(true) ==> a is PackApiData,
        event matches RestoreEvent::ApiDataFound(false) ==> (a matches RestoreAction::Fail(e)
            && is_invalid_backup_error(e)),
        event matches RestoreEvent::ApiDataPacked(true) ==> a is RestoreApiData,
        event matches RestoreEvent::ApiDataPacked(false) ==> a is FailWithoutContext,
        event matches RestoreEvent::ApiDataRestored(true) ==> a is RemoveApiData,
        event matches RestoreEvent::ApiDataRestored(false) ==> (a matches RestoreAction::Fail(e)
            && is_restore_failed_error(e, error_id@)),
        event matches RestoreEvent::ApiDataRemoved(true) ==> (a matches RestoreAction::Finish {
            progress,
        } && progress == additional_data_size),
        event matches RestoreEvent::ApiDataRemoved(false) ==> a is FailWithoutContext,
{
    match event {
        RestoreEvent::FilesRestored(true) => RestoreAction::FindApiData,
        RestoreEvent::ApiDataFound(true) => RestoreAction::PackApiData,
        RestoreEvent::ApiDataPacked(true) => RestoreAction::RestoreApiData,
        RestoreEvent::ApiDataRestored(true) => RestoreAction::RemoveApiData,
        RestoreEvent::ApiDataRemoved(true) => RestoreAction::Finish { progress: additional_data_size },
        RestoreEvent::ApiDataFound(false) => match check_backup_restorable(false) {
            Err(e) => RestoreAction::Fail(e),
            Ok(()) => RestoreAction::PackApiData,
        },
        RestoreEvent::FilesRestored(false) | RestoreEvent::ApiDataRestored(false) => RestoreAction::Fail(
            restore_failed_error(error_id),
        ),
        RestoreEvent::ApiDataPacked(false) | RestoreEvent::ApiDataRemoved(false) => {
            RestoreAction::FailWithoutContext
        },
    }
}

/// The error for a backup that lacks the Prose Pod API's data.
pub open spec fn is_invalid_backup_error(e: Error) -> bool {
    &&& e.kind@ == "VALIDATION_ERROR"@
    &&& e.code@ == "INVALID_BACKUP"@
    &&& e.status == STATUS_BAD_REQUEST
    &&& e.message@ == "Invalid backup"@
    &&& e.description@ == "This backup is missing data. It can’t be restored."@
}

/// A backup can be restored only if it holds the Prose Pod API's data:
/// `has_pod_api_data` tells whether its archive held that entry and it was
/// extracted as a directory.
pub fn check_backup_restorable(has_pod_api_data: bool) -> (r: Result<(), Error>)
    ensures
        r is Ok <==> has_pod_api_data,
        r is Err ==> is_invalid_backup_error(r->Err_0),
{
    proof {
        reveal_strlit("INVALID_BACKUP");
        reveal_strlit("Invalid backup");
        reveal_strlit("This backup is missing data. It can’t be restored.");
    }
    if has_pod_api_data {
        Ok(())
    } else {
        Err(
            validation_error(
                "INVALID_BACKUP",
                "Invalid backup",
                "This backup is missing data. It can’t be restored.",
            ),
        )
    }
}

/// How a backup route answers.
#[derive(Clone, Copy, Debug, PartialEq, Eq)]
pub enum ResponseMode {
    /// One JSON answer at the end.
    Json,
    /// A stream of server-sent events.
    EventStream,
}

/// Whether the request asked for `text/event-stream`.
pub open spec fn spec_response_mode(accept: Option<Seq<char>>) -> ResponseMode {
    match accept {
        Some(a) => if a == "text/event-stream"@ {
            ResponseMode::EventStream
        } else {
            ResponseMode::Json
        },
        None => ResponseMode::Json,
    }
}

/// The answer mode that the request's `Accept` header asks for (`None`
/// when there is no such header, or when its value is not text).
pub fn response_mode(accept: Option<&str>) -> (m: ResponseMode)
    ensures
        m == spec_response_mode(
            match accept {
                Some(a) => Some(a@),
                None => None::<Seq<char>>,
            },
        ),
{
    match accept {
        None => ResponseMode::Json,
        Some(a) => {
            if str_eq(a, "text/event-stream") {
                ResponseMode::EventStream
            } else {
                ResponseMode::Json
            }
        },
    }
}

/// `e` is the error for a request that lacks something it needs.
pub open spec fn is_bad_request_error(e: Error, description: Seq<char>) -> bool {
    &&& e.kind@ == "VALIDATION_ERROR"@
    &&& e.code@ == "BAD_REQUEST"@
    &&& e.status == STATUS_BAD_REQUEST
    &&& e.message@ == "Bad request"@
    &&& e.description@ == description
}

/// The checks made before a backup is restored: the caller must be an
/// admin, and the request must carry the Prose token (`has_prose_token`)
/// that the Prose Pod API's own restoration needs. Then the `Accept`
/// header chooses how the answer comes.
pub fn restore_request_mode(caller: &CallerInfo, has_prose_token: bool, accept: Option<&str>) -> (r:
    Result<ResponseMode, Error>)
    ensures
        !is_admin_role(caller.primary_role@) ==> r is Err && forbidden_with(
            r->Err_0,
            caller.jid@ + " is not an admin."@,
        ),
        is_admin_role(caller.primary_role@) && !has_prose_token ==> r is Err
            && is_bad_request_error(r->Err_0, "Missing Prose token."@),
        is_admin_role(caller.primary_role@) && has_prose_token ==> r == Ok::<ResponseMode, Error>(
            spec_response_mode(
                match accept {
                    Some(a) => Some(a@),
                    None => None::<Seq<char>>,
                },
            ),
        ),
{
    caller.ensure_is_admin()?;
    if !has_prose_token {
        proof {
            reveal_strlit("BAD_REQUEST");
            reveal_strlit("Bad request");
            reveal_strlit("Missing Prose token.");
        }
        return Err(validation_error("BAD_REQUEST", "Bad request", "Missing Prose token."));
    }
    Ok(response_mode(accept))
}

// MARK: - Deletion

/// The keys of the listed objects that have one, in order.
pub open spec fn present_keys(listing: Seq<Option<String>>) -> Seq<Seq<char>>
    decreases listing.len(),
{
    if listing.len() == 0 {
        Seq::empty()
    } else {
        let init = present_keys(listing.drop_last());
        match listing.last() {
            Some(k) => init.push(k@),
            None => init,
        }
    }
}

/// The objects to delete with a backup: every object listed under its
/// name (the backup, its checksum, its signature), by key.
pub fn backup_object_keys(listing: &Vec<Option<String>>) -> (keys: Vec<String>)
    ensures
        Seq::new(keys@.len(), |i: int| keys@[i]@) == present_keys(listing@),
{
    let mut keys: Vec<String> = Vec::new();
    let mut i: usize = 0;
    while i < listing.len()
        invariant
            i <= listing@.len(),
            Seq::new(keys@.len(), |k: int| keys@[k]@) == present_keys(listing@.take(i as int)),
        decreases listing@.len() - i,
    {
        let ghost before = keys@;
        proof {
            assert(listing@.take(i + 1).drop_last() =~= listing@.take(i as int));
            assert(listing@.take(i + 1).last() == listing@[i as int]);
        }
        match &listing[i] {
            Some(k) => {
                keys.push(k.clone());
                proof {
                    assert(Seq::new(keys@.len(), |k: int| keys@[k]@) =~= Seq::new(
                        before.len(),
                        |k: int| before[k]@,
                    ).push(keys@[before.len() as int]@));
                }
            },
            None => {},
        }
        i = i + 1;
    }
    proof {
        assert(listing@.take(listing@.len() as int) =~= listing@);
    }
    keys
}

/// The outcome of deleting a backup's objects: `errors` is what the store
/// reported of the objects it could not delete (in debug notation), `None`
/// when it reported none.
pub fn deletion_outcome(backup_id: &str, errors: Option<&str>) -> (r: Result<(), String>)
    ensures
        errors is None ==> r is Ok,
        errors matches Some(e) ==> r is Err && r->Err_0@ == "Error deleting backup '"@ + backup_id@
            + "': "@ + e@,
{
    match errors {
        None => Ok(()),
        Some(e) => {
            let mut message = "Error deleting backup '".to_owned();
            push_str(&mut message, backup_id);
            push_str(&mut message, "': ");
            push_str(&mut message, e);
            Err(message)
        },
    }
}

/// Why uploading a backup failed, from the HTTP status the store answered
/// (if it answered): a backup of that name exists (412, as uploads are
/// conditional on no object having the name), or anything else.
pub fn upload_failure(status: Option<u16>) -> (message: &'static str)
    ensures
        status == Some(412u16) ==> message@ == "Backup name conflict"@,
        status != Some(412u16) ==> message@ == "Failed to upload backup"@,
{
    match status {
        Some(412) => "Backup name conflict",
        _ => "Failed to upload backup",
    }
}

/// The last event of a streamed restoration: its name, and its data (none
/// on success, the error's body on failure).
pub fn restore_end_event(result: &Result<(), Error>) -> (r: (&'static str, JsonValue))
    ensures
        result is Ok ==> r.0@ == BACKUP_RESTORE_SUCCESS_EVENT@ && r.1@ == JsonView::Null,
        result is Err ==> r.0@ == BACKUP_RESTORE_ERROR_EVENT@ && r.1@ == error_json(
            result->Err_0,
        ),
{
    match result {
        Ok(()) => (BACKUP_RESTORE_SUCCESS_EVENT, JsonValue::Null),
        Err(error) => (BACKUP_RESTORE_ERROR_EVENT, error.to_json()),
    }
}

} // verus!
