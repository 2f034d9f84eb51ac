//! The expiration sweep.
//!
//! At every tick the uploads that are past their expiry and not yet deleted
//! are brought in line with the configured action: either their files are
//! removed and the record is marked as deleted, or the record is withdrawn
//! from everybody but its owner. What has to happen is decided here; removing
//! files and writing records is the caller's part, and a file that cannot be
//! removed stops nothing.

use crate::codec::{encode, stored_name};
use crate::models::Upload;
use crate::number::{integer_in, parse_integer};
use crate::settings::{action_in_force, expiration_policy, optional_text, ExpirationAction, Settings};
use crate::text::texts;
use vstd::prelude::*;
use vstd::string::StringExecFns;

verus! {

/// The error type of the JSON reader.
#[verifier::external_type_specification]
#[verifier::external_body]
pub struct ExJsonError(serde_json::Error);

/// The list of names that a JSON text holds, if the text is a JSON array of
/// strings. The grammar is the `serde_json` crate's; nothing here restates
/// it.
pub uninterp spec fn json_names(text: Seq<char>) -> Option<Seq<Seq<char>>>;

/// `serde_json::from_str`, asked for a vector of strings: the names that the
/// text holds, or an error for a text that is no JSON array of strings.
#[verifier::external_body]
fn read_names(text: &str) -> (r: Result<Vec<String>, serde_json::Error>)
    ensures
        match r {
            Ok(names) => json_names(text@) == Some(texts(names@)),
            Err(_) => json_names(text@) is None,
        },
{
    serde_json::from_str::<Vec<String>>(text)
}

/// An upload as plain values.
pub struct UploadView {
    pub id: int,
    pub user_id: int,
    pub upload_id: Seq<char>,
    pub files: Seq<char>,
    pub total_size: int,
    pub email: Option<Seq<char>>,
    pub download_url: Seq<char>,
    pub created_at: int,
    pub expires_at: Option<int>,
    pub is_available: bool,
    pub is_reverse: bool,
    pub reverse_token: Option<Seq<char>>,
    pub is_deleted: bool,
    pub deleted_at: Option<int>,
    pub deletion_reason: Option<Seq<char>>,
}

/// An optional point in time as a plain value.
pub open spec fn optional_time(t: Option<i64>) -> Option<int> {
    match t {
        Some(v) => Some(v as int),
        None => None,
    }
}

impl View for Upload {
    type V = UploadView;

    open spec fn view(&self) -> UploadView {
        UploadView {
            id: self.id as int,
            user_id: self.user_id as int,
            upload_id: self.upload_id@,
            files: self.files@,
            total_size: self.total_size as int,
            email: optional_text(self.email),
            download_url: self.download_url@,
            created_at: self.created_at as int,
            expires_at: optional_time(self.expires_at),
            is_available: self.is_available,
            is_reverse: self.is_reverse,
            reverse_token: optional_text(self.reverse_token),
            is_deleted: self.is_deleted,
            deleted_at: optional_time(self.deleted_at),
            deletion_reason: optional_text(self.deletion_reason),
        }
    }
}

/// What the sweep writes into the record of an expired upload.
#[derive(Debug, Clone, PartialEq, Eq)]
pub enum RecordChange {
    /// The upload is marked as deleted, at this time and for this reason.
    MarkDeleted { at: i64, reason: String },
    /// The upload is withdrawn from everybody but its owner.
    MarkUnavailable,
}

/// A change as plain values.
pub enum ChangeView {
    MarkDeleted { at: int, reason: Seq<char> },
    MarkUnavailable,
}

impl View for RecordChange {
    type V = ChangeView;

    open spec fn view(&self) -> ChangeView {
        match self {
            RecordChange::MarkDeleted { at, reason } => ChangeView::MarkDeleted {
                at: *at as int,
                reason: reason@,
            },
            RecordChange::MarkUnavailable => ChangeView::MarkUnavailable,
        }
    }
}

/// What has to happen to one expired upload.
#[derive(Debug, Clone, PartialEq, Eq)]
pub struct Expiry {
    /// The stored files to remove, by name. A file that is missing or cannot
    /// be removed stops neither the other removals nor the change.
    pub remove: Vec<String>,
    /// What to write into the record afterwards.
    pub change: RecordChange,
}

/// The reason recorded for an upload that was deleted because it expired.
pub open spec fn expired_reason() -> Seq<char> {
    "Expired"@
}

/// Whether the sweep has to deal with an upload: it has an expiry, the expiry
/// has passed, and the upload is not yet deleted. An upload that an earlier
/// tick has withdrawn is still due; one that it deleted is not.
pub open spec fn due(u: UploadView, now: int) -> bool {
    &&& u.expires_at matches Some(t)
    &&& t <= now
    &&& !u.is_deleted
}

/// The change that an action makes to the record of an expired upload.
pub open spec fn change_for(action: ExpirationAction, now: int) -> ChangeView {
    match action {
        ExpirationAction::Delete => ChangeView::MarkDeleted { at: now, reason: expired_reason() },
        ExpirationAction::Unavailable => ChangeView::MarkUnavailable,
    }
}

/// A record after a change. Everything that the change does not name stays.
pub open spec fn changed(u: UploadView, change: ChangeView) -> UploadView {
    match change {
        ChangeView::MarkDeleted { at, reason } => UploadView {
            is_deleted: true,
            deleted_at: Some(at),
            deletion_reason: Some(reason),
            ..u
        },
        ChangeView::MarkUnavailable => UploadView { is_available: false, ..u },
    }
}

/// The stored files of the named files of an upload, in the order of the
/// names. A name without characters has no stored file.
pub open spec fn removals(upload_id: Seq<char>, names: Seq<Seq<char>>) -> Seq<Seq<char>>
    decreases names.len(),
{
    if names.len() == 0 {
        Seq::empty()
    } else if names.last().len() > 0 {
        removals(upload_id, names.drop_last()).push(stored_name(upload_id, names.last()))
    } else {
        removals(upload_id, names.drop_last())
    }
}

/// The stored files that an action removes for an expired upload with the
/// given list of names, if its list could be read. Only deletion removes
/// files, and an unreadable list names none.
pub open spec fn doomed(
    action: ExpirationAction,
    upload_id: Seq<char>,
    manifest: Option<Seq<Seq<char>>>,
) -> Seq<Seq<char>> {
    match (action, manifest) {
        (ExpirationAction::Delete, Some(names)) => removals(upload_id, names),
        _ => Seq::empty(),
    }
}

/// A record after a tick.
pub open spec fn after_tick(u: UploadView, action: ExpirationAction, now: int) -> UploadView {
    if due(u, now) {
        changed(u, change_for(action, now))
    } else {
        u
    }
}

/// The stored files that a tick removes for an upload.
pub open spec fn removed_by_tick(u: UploadView, action: ExpirationAction, now: int) -> Seq<
    Seq<char>,
> {
    if due(u, now) {
        doomed(action, u.upload_id, json_names(u.files))
    } else {
        Seq::empty()
    }
}

/// The uploads of a vector as plain values.
pub open spec fn upload_views(uploads: Seq<Upload>) -> Seq<UploadView> {
    Seq::new(uploads.len(), |i: int| uploads[i]@)
}

/// All records after a tick.
pub open spec fn all_after_tick(us: Seq<UploadView>, action: ExpirationAction, now: int) -> Seq<
    UploadView,
> {
    Seq::new(us.len(), |i: int| after_tick(us[i], action, now))
}

/// The stored files that a tick removes, upload after upload.
pub open spec fn all_removed(us: Seq<UploadView>, action: ExpirationAction, now: int) -> Seq<
    Seq<char>,
>
    decreases us.len(),
{
    if us.len() == 0 {
        Seq::empty()
    } else {
        all_removed(us.drop_last(), action, now) + removed_by_tick(us.last(), action, now)
    }
}

/// The files of the storage directory after the named ones have been
/// removed.
pub open spec fn disk_after(files: Set<Seq<char>>, removed: Seq<Seq<char>>) -> Set<Seq<char>> {
    Set::new(|f: Seq<char>| files.contains(f) && !removed.contains(f))
}

/// Reads the list of names kept with an upload's record.
pub fn parse_manifest(text: &str) -> (r: Option<Vec<String>>)
    ensures
        match r {
            Some(names) => json_names(text@) == Some(texts(names@)),
            None => json_names(text@) is None,
        },
{
    match read_names(text) {
        Ok(names) => Some(names),
        Err(_) => None,
    }
}

/// Whether the sweep has to deal with the upload at the time `now`.
pub fn is_due(upload: &Upload, now: i64) -> (r: bool)
    ensures
        r == due(upload@, now as int),
{
    match upload.expires_at {
        Some(t) => t <= now && !upload.is_deleted,
        None => false,
    }
}

/// The stored files of the named files of an upload.
pub fn stored_files_of(upload_id: &str, names: &Vec<String>) -> (out: Vec<String>)
    ensures
        texts(out@) == removals(upload_id@, texts(names@)),
{
    let mut out: Vec<String> = Vec::new();
    let mut i: usize = 0;
    proof {
        assert(texts(names@).take(0) =~= Seq::<Seq<char>>::empty());
        assert(texts(out@) =~= Seq::<Seq<char>>::empty());
    }
    while i < names.len()
        invariant
            i <= names.len(),
            texts(out@) == removals(upload_id@, texts(names@).take(i as int)),
        decreases names.len() - i,
    {
        let ghost seen = texts(names@).take(i as int);
        let ghost next = texts(names@).take(i + 1);
        let ghost kept = texts(out@);
        proof {
            assert(next.drop_last() =~= seen);
            assert(next.last() == names@[i as int]@);
        }
        match encode(upload_id, names[i].as_str()) {
            Ok(stored) => {
                out.push(stored);
                assert(texts(out@) =~= kept.push(stored_name(upload_id@, next.last())));
            },
            Err(_) => {},
        }
        i += 1;
    }
    assert(texts(names@).take(names.len() as int) =~= texts(names@));
    out
}

/// What an action does to an expired upload, given the list of names kept
/// with its record, or `None` where that list could not be read.
///
/// Deletion removes the stored file of every named file and marks the record
/// as deleted at the time `now`, for the reason `Expired`; with an unreadable
/// list it removes nothing and still marks the record. Withdrawal removes
/// nothing and marks the record as unavailable.
pub fn expiry(
    action: ExpirationAction,
    upload_id: &str,
    manifest: Option<&Vec<String>>,
    now: i64,
) -> (e: Expiry)
    ensures
        texts(e.remove@) == doomed(
            action,
            upload_id@,
            match manifest {
                Some(names) => Some(texts(names@)),
                None => None,
            },
        ),
        e.change@ == change_for(action, now as int),
{
    match action {
        ExpirationAction::Delete => {
            let remove = match manifest {
                Some(names) => stored_files_of(upload_id, names),
                None => {
                    let none: Vec<String> = Vec::new();
                    assert(texts(none@) =~= Seq::<Seq<char>>::empty());
                    none
                },
            };
            Expiry {
                remove,
                change: RecordChange::MarkDeleted { at: now, reason: String::from_str("Expired") },
            }
        },
        ExpirationAction::Unavailable => {
            let remove: Vec<String> = Vec::new();
            assert(texts(remove@) =~= Seq::<Seq<char>>::empty());
            Expiry { remove, change: RecordChange::MarkUnavailable }
        },
    }
}

/// What a tick at the time `now` does to an upload: nothing where the upload
/// is not due, else what the action does to it.
pub fn expire_upload(action: ExpirationAction, upload: &Upload, now: i64) -> (r: Option<Expiry>)
    ensures
        match r {
            Some(e) => {
                &&& due(upload@, now as int)
                &&& texts(e.remove@) == removed_by_tick(upload@, action, now as int)
                &&& e.change@ == change_for(action, now as int)
            },
            None => !due(upload@, now as int),
        },
{
    if !is_due(upload, now) {
        return None;
    }
    let manifest = parse_manifest(upload.files.as_str());
    Some(expiry(action, upload.upload_id.as_str(), manifest.as_ref(), now))
}

/// The action of a tick, given what reading the configuration gave: `None`
/// where the read failed, else the stored record if there is one. After a
/// failed read the tick is skipped; without a record the reversible action is
/// in force.
pub fn action_for_tick(settings: Option<Option<&Settings>>) -> (r: Option<ExpirationAction>)
    ensures
        r == (match settings {
            Some(found) => Some(
                action_in_force(
                    match found {
                        Some(s) => Some(s@),
                        None => None,
                    },
                ),
            ),
            None => None,
        }),
{
    match settings {
        Some(found) => Some(expiration_policy(found)),
        None => None,
    }
}

impl Upload {
    /// Writes a change into the record.
    pub fn record(&mut self, change: &RecordChange)
        ensures
            final(self)@ == changed(old(self)@, change@),
    {
        match change {
            RecordChange::MarkDeleted { at, reason } => {
                self.is_deleted = true;
                self.deleted_at = Some(*at);
                self.deletion_reason = Some(reason.clone());
            },
            RecordChange::MarkUnavailable => {
                self.is_available = false;
            },
        }
    }
}

/// The time between two ticks where none is configured: one hour.
pub const DEFAULT_INTERVAL_SECONDS: u64 = 3600;

/// The time between two ticks in seconds, given the configured text if there
/// is one: the configured number where it is a whole number of at least one
/// second, else one hour.
pub open spec fn interval_of(configured: Option<Seq<char>>) -> int {
    match configured {
        Some(text) => match integer_in(text, 1, i64::MAX as int) {
            Some(seconds) => seconds,
            None => DEFAULT_INTERVAL_SECONDS as int,
        },
        None => DEFAULT_INTERVAL_SECONDS as int,
    }
}

/// The time between two ticks in seconds. It is never 0.
pub fn interval_seconds(configured: Option<&str>) -> (seconds: u64)
    ensures
        seconds == interval_of(
            match configured {
                Some(text) => Some(text@),
                None => None,
            },
        ),
        seconds >= 1,
{
    match configured {
        Some(text) => match parse_integer(text, 1, i64::MAX) {
            Some(seconds) => seconds as u64,
            None => DEFAULT_INTERVAL_SECONDS,
        },
        None => DEFAULT_INTERVAL_SECONDS,
    }
}

/// One tick over records held in memory: every upload that is due is changed
/// as the action demands, and the names of the stored files to remove come
/// back, upload after upload.
pub fn sweep(uploads: &mut Vec<Upload>, action: ExpirationAction, now: i64) -> (removed: Vec<String>)
    ensures
        upload_views(final(uploads)@) == all_after_tick(
            upload_views(old(uploads)@),
            action,
            now as int,
        ),
        texts(removed@) == all_removed(upload_views(old(uploads)@), action, now as int),
{
    let mut removed: Vec<String> = Vec::new();
    let mut i: usize = 0;
    let ghost before = upload_views(uploads@);
    proof {
        assert(before.take(0) =~= Seq::<UploadView>::empty());
        assert(texts(removed@) =~= Seq::<Seq<char>>::empty());
    }
    while i < uploads.len()
        invariant
            i <= uploads.len(),
            uploads@.len() == before.len(),
            before == upload_views(old(uploads)@),
            forall|k: int| 0 <= k < i ==> (#[trigger] uploads@[k])@ == after_tick(before[k], action, now as int),
            forall|k: int| i <= k < uploads.len() ==> (#[trigger] uploads@[k])@ == before[k],
            texts(removed@) == all_removed(before.take(i as int), action, now as int),
        decreases uploads.len() - i,
    {
        let ghost seen = before.take(i as int);
        let ghost next = before.take(i + 1);
        proof {
            assert(next.drop_last() =~= seen);
            assert(next.last() == before[i as int]);
        }
        match expire_upload(action, &uploads[i], now) {
            Some(e) => {
                let Expiry { remove, change } = e;
                let ghost collected = texts(removed@);
                let mut names = remove;
                let ghost added = texts(names@);
                removed.append(&mut names);
                assert(texts(removed@) =~= collected + added);
                uploads[i].record(&change);
            },
            None => {
                assert(texts(removed@) + Seq::<Seq<char>>::empty() =~= texts(removed@));
            },
        }
        i += 1;
    }
    assert(before.take(uploads.len() as int) =~= before);
    assert(upload_views(uploads@) =~= all_after_tick(before, action, now as int));
    removed
}

/// The stored file of every named file that has a name is among the
/// removals.
pub proof fn removals_cover(upload_id: Seq<char>, names: Seq<Seq<char>>, i: int)
    requires
        0 <= i < names.len(),
        names[i].len() > 0,
    ensures
        removals(upload_id, names).contains(stored_name(upload_id, names[i])),
    decreases names.len(),
{
    let rest = names.drop_last();
    if i == names.len() - 1 {
        let all = removals(upload_id, names);
        assert(all[all.len() - 1] == stored_name(upload_id, names[i]));
    } else {
        removals_cover(upload_id, rest, i);
        let found = choose|k: int|
            0 <= k < removals(upload_id, rest).len() && removals(upload_id, rest)[k] == stored_name(
                upload_id,
                rest[i],
            );
        assert(removals(upload_id, names)[found] == stored_name(upload_id, names[i]));
    }
}

/// A tick removes nothing for uploads of which none is due under deletion,
/// and nothing at all under withdrawal.
pub proof fn nothing_due_nothing_removed(us: Seq<UploadView>, action: ExpirationAction, now: int)
    requires
        action == ExpirationAction::Unavailable || forall|i: int|
            0 <= i < us.len() ==> !due(#[trigger] us[i], now),
    ensures
        all_removed(us, action, now) == Seq::<Seq<char>>::empty(),
    decreases us.len(),
{
    if us.len() > 0 {
        nothing_due_nothing_removed(us.drop_last(), action, now);
        assert(!due(us[us.len() - 1], now) || action == ExpirationAction::Unavailable);
        assert(all_removed(us, action, now) =~= Seq::<Seq<char>>::empty());
    }
}

/// What a tick removes for one upload is among what it removes in all.
pub proof fn all_removed_covers(
    us: Seq<UploadView>,
    action: ExpirationAction,
    now: int,
    i: int,
    file: Seq<char>,
)
    requires
        0 <= i < us.len(),
        removed_by_tick(us[i], action, now).contains(file),
    ensures
        all_removed(us, action, now).contains(file),
    decreases us.len(),
{
    let rest = all_removed(us.drop_last(), action, now);
    let last = removed_by_tick(us.last(), action, now);
    if i == us.len() - 1 {
        let k = choose|k: int| 0 <= k < last.len() && last[k] == file;
        assert((rest + last)[rest.len() + k] == file);
    } else {
        all_removed_covers(us.drop_last(), action, now, i, file);
        let k = choose|k: int| 0 <= k < rest.len() && rest[k] == file;
        assert((rest + last)[k] == file);
    }
}

/// The sweep is idempotent. A second tick under the same action, before
/// which no further upload has expired, changes no record and removes no
/// file.
pub proof fn second_tick_changes_nothing(
    us: Seq<UploadView>,
    files: Set<Seq<char>>,
    action: ExpirationAction,
    now: int,
    later: int,
)
    requires
        forall|i: int| 0 <= i < us.len() ==> (due(#[trigger] us[i], later) ==> due(us[i], now)),
    ensures
        all_after_tick(all_after_tick(us, action, now), action, later) == all_after_tick(
            us,
            action,
            now,
        ),
        all_removed(all_after_tick(us, action, now), action, later) == Seq::<Seq<char>>::empty(),
        disk_after(
            disk_after(files, all_removed(us, action, now)),
            all_removed(all_after_tick(us, action, now), action, later),
        ) == disk_after(files, all_removed(us, action, now)),
{
    let once = all_after_tick(us, action, now);
    let twice = all_after_tick(once, action, later);
    assert forall|i: int| 0 <= i < us.len() implies twice[i] == once[i] by {
        assert(due(us[i], later) ==> due(us[i], now));
    }
    assert(twice =~= once);
    if action == ExpirationAction::Delete {
        assert forall|i: int| 0 <= i < once.len() implies !due(#[trigger] once[i], later) by {
            assert(due(us[i], later) ==> due(us[i], now));
        }
    }
    nothing_due_nothing_removed(once, action, later);
    let first_disk = disk_after(files, all_removed(us, action, now));
    assert(disk_after(first_disk, Seq::<Seq<char>>::empty()) =~= first_disk);
}

/// Deletion. After a tick under deletion, an expired upload is marked as
/// deleted at the time of the tick with the reason `Expired`, whatever its
/// availability, and the stored file of every file that its list names is
/// among the removals, hence no longer in the directory once they are done.
pub proof fn deletion_removes_files_and_marks_record(
    u: UploadView,
    files: Set<Seq<char>>,
    names: Seq<Seq<char>>,
    now: int,
    i: int,
)
    requires
        due(u, now),
        json_names(u.files) == Some(names),
        0 <= i < names.len(),
        names[i].len() > 0,
    ensures
        after_tick(u, ExpirationAction::Delete, now).is_deleted,
        after_tick(u, ExpirationAction::Delete, now).deleted_at == Some(now),
        after_tick(u, ExpirationAction::Delete, now).deletion_reason == Some(expired_reason()),
        after_tick(u, ExpirationAction::Delete, now).is_available == u.is_available,
        removed_by_tick(u, ExpirationAction::Delete, now).contains(
            stored_name(u.upload_id, names[i]),
        ),
        !disk_after(files, removed_by_tick(u, ExpirationAction::Delete, now)).contains(
            stored_name(u.upload_id, names[i]),
        ),
{
    removals_cover(u.upload_id, names, i);
}

/// Withdrawal. After a tick under withdrawal, an expired upload is
/// unavailable and not deleted, nothing else in its record has changed, and
/// every stored file is still in the directory.
pub proof fn withdrawal_keeps_files(u: UploadView, files: Set<Seq<char>>, now: int)
    requires
        due(u, now),
    ensures
        after_tick(u, ExpirationAction::Unavailable, now) == (UploadView {
            is_available: false,
            ..u
        }),
        !after_tick(u, ExpirationAction::Unavailable, now).is_deleted,
        disk_after(files, removed_by_tick(u, ExpirationAction::Unavailable, now)) == files,
{
    assert(disk_after(files, Seq::<Seq<char>>::empty()) =~= files);
}

/// An upload that is not due is left alone by a tick.
pub proof fn tick_spares_what_is_not_due(u: UploadView, action: ExpirationAction, now: int)
    requires
        !due(u, now),
    ensures
        after_tick(u, action, now) == u,
        removed_by_tick(u, action, now) == Seq::<Seq<char>>::empty(),
{
}

} // verus!
