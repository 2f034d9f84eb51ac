//! What a download serves.
//!
//! The files of an upload are found by looking through the storage directory
//! for names that carry the upload's prefix. The directory decides what can be
//! served; the list of names kept with the upload's record is advisory. One
//! file is served as it is, several are packed into an archive in the
//! dictionary order of their stored names.

use crate::archive::{packed, ArchiveError};
use crate::codec::{original_name, push_sanitized, sanitized, stored_prefix};
use crate::models::{FileInfo, UploaderInfo};
use crate::text::{ascending, ascending_is_unique, chars_of, push_chars, rows, sort_rows, starts_with_chars, string_of, texts};
use vstd::prelude::*;
use vstd::string::StringExecFns;

verus! {

/// Why nothing is served.
#[derive(Debug, Clone, Copy, PartialEq, Eq, Structural)]
pub enum DownloadError {
    /// No stored file carries the upload's prefix.
    NotFound,
}

/// A stored file and the name it gets inside the archive.
#[derive(Debug, Clone, PartialEq, Eq)]
pub struct ArchiveMember {
    /// The name of the stored file.
    pub stored: String,
    /// The name of the entry: the file's name inside its upload, with no
    /// separator left in it.
    pub entry: String,
}

/// What to serve for an upload.
#[derive(Debug, Clone, PartialEq, Eq)]
pub enum Download {
    /// The upload's only file, under its name inside the upload.
    Single { stored: String, name: String },
    /// An archive of the upload's files, in this order.
    Archive { members: Vec<ArchiveMember> },
}

/// A file of the storage directory.
#[derive(Debug, Clone, PartialEq, Eq)]
pub struct StoredFile {
    pub name: String,
    /// Its size in bytes.
    pub size: u64,
}

/// Whether a stored name carries the prefix of the upload.
pub open spec fn belongs(upload_id: Seq<char>) -> spec_fn(Seq<char>) -> bool {
    |name: Seq<char>| stored_prefix(upload_id).is_prefix_of(name)
}

/// The names of a directory listing that carry the upload's prefix, in the
/// order of the listing.
pub open spec fn matching(listing: Seq<Seq<char>>, upload_id: Seq<char>) -> Seq<Seq<char>> {
    listing.filter(belongs(upload_id))
}

/// The name of the archive entry for a stored file. No separator is left in
/// it, so that unpacking the archive cannot leave the target directory.
pub open spec fn entry_name(stored: Seq<char>, upload_id: Seq<char>) -> Seq<char> {
    sanitized(original_name(stored, upload_id))
}

/// The stored names of the members of an archive.
pub open spec fn stored_names(members: Seq<ArchiveMember>) -> Seq<Seq<char>> {
    Seq::new(members.len(), |i: int| members[i].stored@)
}

/// The entry of each member is named after its stored file.
pub open spec fn entries_named(members: Seq<ArchiveMember>, upload_id: Seq<char>) -> bool {
    forall|i: int|
        0 <= i < members.len() ==> (#[trigger] members[i]).entry@ == entry_name(
            members[i].stored@,
            upload_id,
        )
}

/// The address under which a single file of an upload is fetched.
pub open spec fn file_url(upload_id: Seq<char>, name: Seq<char>) -> Seq<char> {
    "/api/file/"@ + upload_id + "/"@ + name
}

/// A file as the listing shows it, as plain values.
pub struct FileInfoView {
    pub name: Seq<char>,
    pub size: u64,
    pub url: Seq<char>,
}

impl View for FileInfo {
    type V = FileInfoView;

    open spec fn view(&self) -> FileInfoView {
        FileInfoView { name: self.name@, size: self.size, url: self.url@ }
    }
}

impl View for StoredFile {
    type V = (Seq<char>, u64);

    open spec fn view(&self) -> (Seq<char>, u64) {
        (self.name@, self.size)
    }
}

/// The files of a directory as plain values.
pub open spec fn stored_files(files: Seq<StoredFile>) -> Seq<(Seq<char>, u64)> {
    Seq::new(files.len(), |i: int| files[i]@)
}

/// The entries of a listing as plain values.
pub open spec fn file_infos(infos: Seq<FileInfo>) -> Seq<FileInfoView> {
    Seq::new(infos.len(), |i: int| infos[i]@)
}

/// How the listing shows a stored file of the upload.
pub open spec fn shown(file: (Seq<char>, u64), upload_id: Seq<char>) -> FileInfoView {
    FileInfoView {
        name: original_name(file.0, upload_id),
        size: file.1,
        url: file_url(upload_id, original_name(file.0, upload_id)),
    }
}

/// The listing of an upload: its stored files in the order of the directory,
/// each as the listing shows it.
pub open spec fn listed(files: Seq<(Seq<char>, u64)>, upload_id: Seq<char>) -> Seq<FileInfoView>
    decreases files.len(),
{
    if files.len() == 0 {
        Seq::empty()
    } else if belongs(upload_id)(files.last().0) {
        listed(files.drop_last(), upload_id).push(shown(files.last(), upload_id))
    } else {
        listed(files.drop_last(), upload_id)
    }
}

/// The prefix of the upload's stored files.
fn prefix_chars(upload_id: &str) -> (prefix: Vec<char>)
    ensures
        prefix@ == stored_prefix(upload_id@),
{
    let mut prefix = chars_of(upload_id);
    prefix.push('_');
    prefix
}

/// Where the name inside the upload begins in a stored name.
fn name_offset(stored: &Vec<char>, prefix: &Vec<char>) -> (from: usize)
    ensures
        from <= stored.len(),
        from == (if prefix@.is_prefix_of(stored@) {
            prefix@.len()
        } else {
            0
        }),
{
    if starts_with_chars(stored, prefix) {
        prefix.len()
    } else {
        0
    }
}

/// The names of the listing that carry the upload's prefix.
fn matching_rows(upload_id: &str, listing: &Vec<String>) -> (out: Vec<Vec<char>>)
    ensures
        rows(out@) == matching(texts(listing@), upload_id@),
{
    let prefix = prefix_chars(upload_id);
    let mut out: Vec<Vec<char>> = Vec::new();
    let mut i: usize = 0;
    proof {
        reveal(Seq::filter);
        assert(texts(listing@).take(0) =~= Seq::<Seq<char>>::empty());
        assert(rows(out@) =~= Seq::<Seq<char>>::empty());
    }
    while i < listing.len()
        invariant
            i <= listing.len(),
            prefix@ == stored_prefix(upload_id@),
            rows(out@) == matching(texts(listing@).take(i as int), upload_id@),
        decreases listing.len() - i,
    {
        let name = chars_of(listing[i].as_str());
        let ghost seen = texts(listing@).take(i as int);
        let ghost next = texts(listing@).take(i + 1);
        let ghost kept = rows(out@);
        proof {
            reveal(Seq::filter);
            assert(next.drop_last() =~= seen);
            assert(next.last() == name@);
        }
        if starts_with_chars(&name, &prefix) {
            out.push(name);
            assert(rows(out@) =~= kept.push(next.last()));
        }
        i += 1;
    }
    assert(texts(listing@).take(listing.len() as int) =~= texts(listing@));
    out
}

/// Decides what a download of the upload serves, given the names of the files
/// in the storage directory.
///
/// With no stored file of the upload there is nothing to serve. A single file
/// is served under its name inside the upload. Several files are packed: the
/// members are the upload's stored files in dictionary order, each under its
/// name inside the upload with its separators neutralized.
pub fn plan_download(upload_id: &str, listing: &Vec<String>) -> (r: Result<Download, DownloadError>)
    ensures
        match r {
            Err(_) => matching(texts(listing@), upload_id@).len() == 0,
            Ok(Download::Single { stored, name }) => {
                let found = matching(texts(listing@), upload_id@);
                &&& found.len() == 1
                &&& stored@ == found[0]
                &&& name@ == original_name(found[0], upload_id@)
            },
            Ok(Download::Archive { members }) => {
                let found = matching(texts(listing@), upload_id@);
                &&& found.len() > 1
                &&& members@.len() == found.len()
                &&& archive_of(members@, texts(listing@), upload_id@)
            },
        },
{
    let prefix = prefix_chars(upload_id);
    let found = matching_rows(upload_id, listing);
    if found.len() == 0 {
        return Err(DownloadError::NotFound);
    }
    if found.len() == 1 {
        let stored = string_of(&found[0]);
        let mut name = String::new();
        let from = name_offset(&found[0], &prefix);
        push_chars(&mut name, &found[0], from);
        assert(rows(found@)[0] == found@[0]@);
        return Ok(Download::Single { stored, name });
    }
    let ghost unsorted = rows(found@);
    let sorted = sort_rows(found);
    let mut members: Vec<ArchiveMember> = Vec::new();
    let mut i: usize = 0;
    while i < sorted.len()
        invariant
            i <= sorted.len(),
            prefix@ == stored_prefix(upload_id@),
            members@.len() == i,
            forall|k: int| 0 <= k < i ==> (#[trigger] members@[k]).stored@ == sorted@[k]@,
            entries_named(members@, upload_id@),
        decreases sorted.len() - i,
    {
        let stored = string_of(&sorted[i]);
        let mut entry = String::new();
        let from = name_offset(&sorted[i], &prefix);
        push_sanitized(&mut entry, &sorted[i], from);
        assert(sorted@[i as int]@.skip(0) == sorted@[i as int]@);
        members.push(ArchiveMember { stored, entry });
        i += 1;
    }
    assert(stored_names(members@) =~= rows(sorted@));
    Ok(Download::Archive { members })
}

/// A name occurs among the matching names as often as in the listing if it
/// carries the upload's prefix, and not at all otherwise.
pub proof fn matching_counts(listing: Seq<Seq<char>>, upload_id: Seq<char>, name: Seq<char>)
    ensures
        matching(listing, upload_id).to_multiset().count(name) == (if belongs(upload_id)(name) {
            listing.to_multiset().count(name)
        } else {
            0
        }),
    decreases listing.len(),
{
    broadcast use vstd::multiset::group_multiset_axioms;
    broadcast use vstd::seq_lib::group_to_multiset_ensures;

    reveal(Seq::filter);
    if listing.len() == 0 {
        assert(listing.to_multiset().len() == 0);
        assert(matching(listing, upload_id).to_multiset().len() == 0);
    } else {
        let rest = listing.drop_last();
        matching_counts(rest, upload_id, name);
        assert(listing =~= rest.push(listing.last()));
        vstd::seq_lib::to_multiset_build(rest, listing.last());
        if belongs(upload_id)(listing.last()) {
            vstd::seq_lib::to_multiset_build(matching(rest, upload_id), listing.last());
        }
    }
}

/// What the plan of an archive promises of its members: they are the
/// matching names of the listing in dictionary order, each with its entry
/// name.
pub open spec fn archive_of(
    members: Seq<ArchiveMember>,
    listing: Seq<Seq<char>>,
    upload_id: Seq<char>,
) -> bool {
    &&& ascending(stored_names(members))
    &&& stored_names(members).to_multiset() == matching(listing, upload_id).to_multiset()
    &&& entries_named(members, upload_id)
}

/// The members of an archive and their order depend on which files are
/// stored, not on the order in which the directory lists them: two listings
/// of the same files give the same stored names and the same entry names.
pub proof fn archive_order_is_fixed(
    upload_id: Seq<char>,
    first_listing: Seq<Seq<char>>,
    second_listing: Seq<Seq<char>>,
    first: Seq<ArchiveMember>,
    second: Seq<ArchiveMember>,
)
    requires
        first_listing.to_multiset() == second_listing.to_multiset(),
        archive_of(first, first_listing, upload_id),
        archive_of(second, second_listing, upload_id),
    ensures
        stored_names(first) == stored_names(second),
        first.len() == second.len(),
        forall|i: int| 0 <= i < first.len() ==> first[i].entry@ == second[i].entry@,
{
    let a = matching(first_listing, upload_id).to_multiset();
    let b = matching(second_listing, upload_id).to_multiset();
    assert forall|name: Seq<char>| a.count(name) == b.count(name) by {
        matching_counts(first_listing, upload_id, name);
        matching_counts(second_listing, upload_id, name);
    }
    assert(a =~= b);
    ascending_is_unique(stored_names(first), stored_names(second));
    assert(stored_names(first).len() == first.len());
    assert(stored_names(second).len() == second.len());
    assert forall|i: int| 0 <= i < first.len() implies first[i].entry@ == second[i].entry@ by {
        assert(stored_names(first)[i] == first[i].stored@);
        assert(stored_names(second)[i] == second[i].stored@);
    }
}

/// The files handed to the packer for the members of an archive, given what
/// each stored file holds: every member under its entry name, with the
/// content of its stored file.
pub open spec fn packed_files(
    members: Seq<ArchiveMember>,
    content: spec_fn(Seq<char>) -> Seq<u8>,
) -> Seq<(Seq<char>, Seq<u8>)> {
    Seq::new(members.len(), |i: int| (members[i].entry@, content(members[i].stored@)))
}

/// Two downloads from the same directory give the same archive. Where the
/// directory holds the same files with the same contents at both times, the
/// order in which it lists them has no effect: both packings give the same
/// bytes, or both fail in the same way.
pub proof fn same_directory_same_archive(
    upload_id: Seq<char>,
    first_listing: Seq<Seq<char>>,
    second_listing: Seq<Seq<char>>,
    first: Seq<ArchiveMember>,
    second: Seq<ArchiveMember>,
    content: spec_fn(Seq<char>) -> Seq<u8>,
)
    requires
        first_listing.to_multiset() == second_listing.to_multiset(),
        archive_of(first, first_listing, upload_id),
        archive_of(second, second_listing, upload_id),
    ensures
        packed(packed_files(first, content)) == packed(packed_files(second, content)),
{
    archive_order_is_fixed(upload_id, first_listing, second_listing, first, second);
    assert forall|i: int| 0 <= i < first.len() implies first[i].stored@ == second[i].stored@ by {
        assert(stored_names(first)[i] == first[i].stored@);
        assert(stored_names(second)[i] == second[i].stored@);
    }
    assert(packed_files(first, content) =~= packed_files(second, content));
}

/// Stored files whose names inside the upload differ only in their
/// separators get the same entry name, and an archive holds no name twice:
/// such an upload cannot be packed.
pub proof fn colliding_entries_are_refused(
    members: Seq<ArchiveMember>,
    content: spec_fn(Seq<char>) -> Seq<u8>,
    i: int,
    j: int,
)
    requires
        crate::archive::names_fit(packed_files(members, content)),
        0 <= i < j < members.len(),
        members[i].entry@ == members[j].entry@,
    ensures
        packed(packed_files(members, content)) == Err::<Seq<u8>, ArchiveError>(
            ArchiveError::Refused,
        ),
{
    crate::archive::repeated_name_is_refused(packed_files(members, content), i, j);
}

/// The entry names of an archive hold no separator.
pub proof fn entry_names_are_plain(stored: Seq<char>, upload_id: Seq<char>)
    ensures
        crate::codec::plain(entry_name(stored, upload_id)),
{
    crate::codec::sanitized_is_plain(original_name(stored, upload_id));
}

/// Lists the files of an upload, given the files of the storage directory:
/// each stored file of the upload, in the order of the directory, with its
/// name inside the upload, its size and the address under which it is
/// fetched. With no stored file of the upload there is nothing to list.
pub fn list_files(upload_id: &str, files: &Vec<StoredFile>) -> (r: Result<
    Vec<FileInfo>,
    DownloadError,
>)
    ensures
        match r {
            Ok(infos) => infos@.len() > 0 && file_infos(infos@) == listed(
                stored_files(files@),
                upload_id@,
            ),
            Err(_) => listed(stored_files(files@), upload_id@).len() == 0,
        },
{
    let prefix = prefix_chars(upload_id);
    let mut infos: Vec<FileInfo> = Vec::new();
    let mut i: usize = 0;
    proof {
        assert(stored_files(files@).take(0) =~= Seq::<(Seq<char>, u64)>::empty());
        assert(file_infos(infos@) =~= Seq::<FileInfoView>::empty());
    }
    while i < files.len()
        invariant
            i <= files.len(),
            prefix@ == stored_prefix(upload_id@),
            file_infos(infos@) == listed(stored_files(files@).take(i as int), upload_id@),
        decreases files.len() - i,
    {
        let stored = chars_of(files[i].name.as_str());
        let ghost seen = stored_files(files@).take(i as int);
        let ghost next = stored_files(files@).take(i + 1);
        let ghost shown_so_far = file_infos(infos@);
        proof {
            assert(next.drop_last() =~= seen);
            assert(next.last() == files@[i as int]@);
        }
        if starts_with_chars(&stored, &prefix) {
            let mut name = String::new();
            push_chars(&mut name, &stored, prefix.len());
            let mut url = String::from_str("/api/file/");
            url.append(upload_id);
            url.append("/");
            url.append(name.as_str());
            infos.push(FileInfo { name, size: files[i].size, url });
            assert(file_infos(infos@) =~= shown_so_far.push(shown(next.last(), upload_id@)));
        }
        i += 1;
    }
    assert(stored_files(files@).take(files.len() as int) =~= stored_files(files@));
    if infos.len() == 0 {
        Err(DownloadError::NotFound)
    } else {
        Ok(infos)
    }
}

/// The uploader as the listing shows them, given their name, avatar, the
/// upload's contact address and its expiry as the store holds them. An upload
/// whose user is unknown to the store is shown with the name `Unknown`; a user
/// without avatar is shown with an empty one.
pub fn uploader_info(found: Option<(String, Option<String>, Option<String>, Option<i64>)>) -> (r:
    UploaderInfo)
    ensures
        match found {
            Some((username, avatar, email, expires)) => {
                &&& r.username == username
                &&& r.avatar@ == (match avatar {
                    Some(a) => a@,
                    None => Seq::<char>::empty(),
                })
                &&& r.email == email
                &&& r.expiration_date == expires
            },
            None => {
                &&& r.username@ == "Unknown"@
                &&& r.avatar@ == Seq::<char>::empty()
                &&& r.email is None
                &&& r.expiration_date is None
            },
        },
{
    match found {
        Some((username, avatar, email, expires)) => {
            let avatar = match avatar {
                Some(a) => a,
                None => String::new(),
            };
            UploaderInfo { username, avatar, email, expiration_date: expires }
        },
        None => UploaderInfo {
            username: String::from_str("Unknown"),
            avatar: String::new(),
            email: None,
            expiration_date: None,
        },
    }
}

} // verus!
