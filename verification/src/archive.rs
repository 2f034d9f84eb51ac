//! Packing files into one archive.
//!
//! The archive is a zip file held in memory, every entry compressed with
//! deflate and stamped with the same fixed time, so that the bytes of the
//! archive depend on nothing but the names and contents handed in, in their
//! order.

use std::io::Write;
use vstd::prelude::*;
use vstd::utf8::encode_utf8;

verus! {

/// The zip error type.
#[verifier::external_type_specification]
#[verifier::external_body]
pub struct ExZipError(zip::result::ZipError);

/// The error type of std's writers.
#[verifier::external_type_specification]
#[verifier::external_body]
pub struct ExIoError(std::io::Error);

/// A zip archive that is being written into memory. A writer exists only as
/// long as every step on it has succeeded: a step takes the writer and gives
/// it back on success alone.
#[verifier::external_body]
pub struct ArchiveWriter {
    inner: zip::ZipWriter<std::io::Cursor<Vec<u8>>>,
}

/// What has been written into an archive so far: for each entry, in order,
/// its name and the blocks of data written to it.
pub uninterp spec fn archive_entries(w: ArchiveWriter) -> Seq<(Seq<char>, Seq<Seq<u8>>)>;

/// Whether the writer of an archive with the given entries starts a further
/// entry under the given name. The decision is the `zip` crate's; nothing
/// here restates it.
pub uninterp spec fn zip_starts(entries: Seq<(Seq<char>, Seq<Seq<u8>>)>, name: Seq<char>) -> bool;

/// Whether the writer of an archive with the given entries takes a further
/// block of data for its last entry. The decision is the `zip` crate's.
pub uninterp spec fn zip_writes(entries: Seq<(Seq<char>, Seq<Seq<u8>>)>, block: Seq<u8>) -> bool;

/// The bytes of the finished zip archive into which the given names and
/// blocks were written, or `None` where the writer cannot finish it. The
/// format and the compression are the `zip` crate's.
pub uninterp spec fn zip_archive(entries: Seq<(Seq<char>, Seq<Seq<u8>>)>) -> Option<Seq<u8>>;

/// The longest entry name, in bytes of UTF-8, that the zip format can hold.
pub const MAX_NAME_BYTES: usize = 65535;

/// A file to pack.
#[derive(Debug, Clone, PartialEq, Eq)]
pub struct ArchiveFile {
    /// The name of the entry.
    pub name: String,
    pub content: Vec<u8>,
}

impl View for ArchiveFile {
    type V = (Seq<char>, Seq<u8>);

    open spec fn view(&self) -> (Seq<char>, Seq<u8>) {
        (self.name@, self.content@)
    }
}

/// Why no archive was produced.
#[derive(Debug, Clone, Copy, PartialEq, Eq, Structural)]
pub enum ArchiveError {
    /// The name of an entry is longer than the zip format allows.
    NameTooLong,
    /// The archive writer refused an entry or could not finish.
    Refused,
}

/// The files of a vector as names and contents.
pub open spec fn file_views(files: Seq<ArchiveFile>) -> Seq<(Seq<char>, Seq<u8>)> {
    Seq::new(files.len(), |i: int| files[i]@)
}

/// Whether a name fits into the zip format.
pub open spec fn name_fits(name: Seq<char>) -> bool {
    encode_utf8(name).len() <= MAX_NAME_BYTES
}

/// Whether the name of every file fits into the zip format.
pub open spec fn names_fit(files: Seq<(Seq<char>, Seq<u8>)>) -> bool {
    forall|i: int| 0 <= i < files.len() ==> name_fits((#[trigger] files[i]).0)
}

/// The blocks written for a content: the content as one block, or nothing
/// for a content without bytes.
pub open spec fn blocks_of(content: Seq<u8>) -> Seq<Seq<u8>> {
    if content.len() == 0 {
        Seq::empty()
    } else {
        seq![content]
    }
}

/// The archive entries for the given files: each file under its name, its
/// content written as one block.
pub open spec fn written_once(files: Seq<(Seq<char>, Seq<u8>)>) -> Seq<(Seq<char>, Seq<Seq<u8>>)> {
    Seq::new(files.len(), |i: int| (files[i].0, blocks_of(files[i].1)))
}

/// Whether one of the entries has the given name.
pub open spec fn holds_name(entries: Seq<(Seq<char>, Seq<Seq<u8>>)>, name: Seq<char>) -> bool {
    exists|i: int| 0 <= i < entries.len() && (#[trigger] entries[i]).0 == name
}

/// Whether an entry under the given name can be started after the given
/// entries: never under a name that one of them has, and otherwise as the
/// writer decides.
pub open spec fn starts(entries: Seq<(Seq<char>, Seq<Seq<u8>>)>, name: Seq<char>) -> bool {
    !holds_name(entries, name) && zip_starts(entries, name)
}

/// Whether the writer takes the file at the position `i`, after the files
/// before it: it starts the entry and, where the file has content, takes the
/// content as one block.
pub open spec fn step_taken(files: Seq<(Seq<char>, Seq<u8>)>, i: int) -> bool {
    let before = written_once(files).take(i);
    &&& starts(before, files[i].0)
    &&& files[i].1.len() > 0 ==> zip_writes(
        before.push((files[i].0, Seq::<Seq<u8>>::empty())),
        files[i].1,
    )
}

/// Whether the writer takes each of the first `n` files in turn.
pub open spec fn steps_taken(files: Seq<(Seq<char>, Seq<u8>)>, n: int) -> bool {
    forall|i: int| 0 <= i < n ==> #[trigger] step_taken(files, i)
}

/// What packing the given files gives. A name that does not fit is refused
/// before anything is written. Otherwise the result is the finished archive
/// of these files where the writer takes each of them in turn and finishes,
/// and a refusal where it does not.
pub open spec fn packed(files: Seq<(Seq<char>, Seq<u8>)>) -> Result<Seq<u8>, ArchiveError> {
    if !names_fit(files) {
        Err(ArchiveError::NameTooLong)
    } else if steps_taken(files, files.len() as int) {
        match zip_archive(written_once(files)) {
            Some(bytes) => Ok(bytes),
            None => Err(ArchiveError::Refused),
        }
    } else {
        Err(ArchiveError::Refused)
    }
}

/// `zip::ZipWriter::new`, over a cursor on an empty vector: an archive into
/// which nothing has been written.
#[verifier::external_body]
fn archive_new() -> (w: ArchiveWriter)
    ensures
        archive_entries(w) == Seq::<(Seq<char>, Seq<Seq<u8>>)>::empty(),
{
    ArchiveWriter { inner: zip::ZipWriter::new(std::io::Cursor::new(Vec::new())) }
}

/// `zip::ZipWriter::start_file`, with deflate compression and the time of
/// modification fixed to the format's earliest date. Whether it succeeds
/// depends on the entries written so far and on the name alone; it never
/// succeeds under a name that the archive already holds. Where it succeeds,
/// the archive has one more entry, under the given name and without data yet.
/// The writer panics on a name of more than 65535 bytes, which `requires`
/// leaves out.
#[verifier::external_body]
fn archive_start_file(w: ArchiveWriter, name: &str) -> (r: Result<
    ArchiveWriter,
    zip::result::ZipError,
>)
    requires
        name_fits(name@),
    ensures
        (r is Ok) == (!holds_name(archive_entries(w), name@) && zip_starts(
            archive_entries(w),
            name@,
        )),
        r matches Ok(after) ==> archive_entries(after) == archive_entries(w).push(
            (name@, Seq::<Seq<u8>>::empty()),
        ),
{
    let mut w = w;
    let options = zip::write::SimpleFileOptions::default()
        .compression_method(zip::CompressionMethod::Deflated)
        .last_modified_time(zip::DateTime::default());
    w.inner.start_file(name, options)?;
    Ok(w)
}

/// `write_all` on the `zip::ZipWriter`, for a block that is not empty.
/// Whether it succeeds depends on the entries written so far and on the block
/// alone. Where it succeeds, the block has been added to the data of the last
/// entry.
#[verifier::external_body]
fn archive_write_all(w: ArchiveWriter, data: &[u8]) -> (r: Result<ArchiveWriter, std::io::Error>)
    requires
        archive_entries(w).len() > 0,
        data@.len() > 0,
    ensures
        (r is Ok) == zip_writes(archive_entries(w), data@),
        r matches Ok(after) ==> archive_entries(after) == archive_entries(w).drop_last().push(
            (archive_entries(w).last().0, archive_entries(w).last().1.push(data@)),
        ),
{
    let mut w = w;
    w.inner.write_all(data)?;
    Ok(w)
}

/// `zip::ZipWriter::finish`. Whether it succeeds depends on the entries
/// written alone; where it does, the result is the finished archive of what
/// was written.
#[verifier::external_body]
fn archive_finish(w: ArchiveWriter) -> (r: Result<Vec<u8>, zip::result::ZipError>)
    ensures
        match r {
            Ok(bytes) => zip_archive(archive_entries(w)) == Some(bytes@),
            Err(_) => zip_archive(archive_entries(w)) is None,
        },
{
    w.inner.finish().map(|cursor| cursor.into_inner())
}

/// Whether the name of every file fits into the zip format.
pub fn check_names(files: &Vec<ArchiveFile>) -> (r: bool)
    ensures
        r == names_fit(file_views(files@)),
{
    let mut i: usize = 0;
    while i < files.len()
        invariant
            i <= files.len(),
            forall|k: int| 0 <= k < i ==> name_fits((#[trigger] file_views(files@)[k]).0),
        decreases files.len() - i,
    {
        if files[i].name.as_str().as_bytes().len() > MAX_NAME_BYTES {
            assert(!name_fits(file_views(files@)[i as int].0));
            return false;
        }
        i += 1;
    }
    true
}

/// Packs the files into one zip archive, in the order given, each under its
/// name and compressed with deflate.
///
/// A name that does not fit into the format is refused before anything is
/// written. Otherwise the files are handed to the archive writer one after
/// the other, each with its content as one block. The result is the finished
/// archive exactly where the writer takes every file and finishes; it never
/// takes a name twice. Names and contents decide alone: the same files in the
/// same order always give the same result.
pub fn assemble_archive(files: &Vec<ArchiveFile>) -> (r: Result<Vec<u8>, ArchiveError>)
    ensures
        match r {
            Ok(bytes) => packed(file_views(files@)) == Ok::<Seq<u8>, ArchiveError>(bytes@),
            Err(e) => packed(file_views(files@)) == Err::<Seq<u8>, ArchiveError>(e),
        },
{
    if !check_names(files) {
        return Err(ArchiveError::NameTooLong);
    }
    let ghost all = file_views(files@);
    let mut w = archive_new();
    let mut i: usize = 0;
    assert(written_once(all).take(0) =~= Seq::<(Seq<char>, Seq<Seq<u8>>)>::empty());
    while i < files.len()
        invariant
            i <= files.len(),
            all == file_views(files@),
            names_fit(all),
            steps_taken(all, i as int),
            archive_entries(w) == written_once(all).take(i as int),
        decreases files.len() - i,
    {
        let ghost done = archive_entries(w);
        let ghost name = all[i as int].0;
        let ghost content = all[i as int].1;
        assert(name_fits(name));
        w = match archive_start_file(w, files[i].name.as_str()) {
            Ok(started) => started,
            Err(_) => {
                assert(!step_taken(all, i as int));
                return Err(ArchiveError::Refused);
            },
        };
        if files[i].content.len() > 0 {
            w = match archive_write_all(w, files[i].content.as_slice()) {
                Ok(written) => written,
                Err(_) => {
                    assert(!step_taken(all, i as int));
                    return Err(ArchiveError::Refused);
                },
            };
        }
        proof {
            assert(Seq::<Seq<u8>>::empty().push(content) =~= seq![content]);
            assert(done.push((name, Seq::<Seq<u8>>::empty())).drop_last() =~= done);
            assert(written_once(all).take(i + 1) =~= done.push((name, blocks_of(content))));
            assert(step_taken(all, i as int));
        }
        i += 1;
    }
    assert(written_once(all).take(files.len() as int) =~= written_once(all));
    match archive_finish(w) {
        Ok(bytes) => Ok(bytes),
        Err(_) => Err(ArchiveError::Refused),
    }
}

/// An archive is reproducible: what packing gives depends on the names and
/// contents of the files and on their order alone, so that packing the same
/// files twice gives the same bytes, or fails in the same way.
pub proof fn same_files_same_archive(first: Seq<ArchiveFile>, second: Seq<ArchiveFile>)
    requires
        first.len() == second.len(),
        forall|i: int|
            0 <= i < first.len() ==> first[i].name@ == second[i].name@ && first[i].content@
                == second[i].content@,
    ensures
        packed(file_views(first)) == packed(file_views(second)),
{
    assert(file_views(first) =~= file_views(second));
}

/// An archive never holds a name twice: files of which two have the same
/// name are refused.
pub proof fn repeated_name_is_refused(files: Seq<(Seq<char>, Seq<u8>)>, i: int, j: int)
    requires
        names_fit(files),
        0 <= i < j < files.len(),
        files[i].0 == files[j].0,
    ensures
        packed(files) == Err::<Seq<u8>, ArchiveError>(ArchiveError::Refused),
{
    let before = written_once(files).take(j);
    assert(before[i].0 == files[j].0);
    assert(holds_name(before, files[j].0));
    assert(!step_taken(files, j));
}

/// Packing succeeds exactly where every name fits, the writer takes every
/// file in turn and finishes.
pub proof fn packing_succeeds_exactly(files: Seq<(Seq<char>, Seq<u8>)>)
    ensures
        packed(files) is Ok <==> names_fit(files) && steps_taken(files, files.len() as int)
            && zip_archive(written_once(files)) is Some,
{
}

} // verus!
