//! Names of stored files.
//!
//! The files of an upload live in one flat directory. A file is stored under
//! the upload's identifier, an underscore and the sanitized original name, so
//! that the files of one upload can be found again by their prefix and the
//! original name can be read back from the stored one.

use crate::text::{chars_of, push_chars, starts_with_chars};
use vstd::prelude::*;

verus! {

/// Why no stored name was produced.
#[derive(Debug, Clone, Copy, PartialEq, Eq, Structural)]
pub enum CodecError {
    /// The original name has no characters.
    EmptyName,
}

/// The characters that separate directories in a path.
pub open spec fn is_separator(c: char) -> bool {
    c == '/' || c == '\\'
}

/// A separator becomes an underscore; every other character stays.
pub open spec fn neutral(c: char) -> char {
    if is_separator(c) {
        '_'
    } else {
        c
    }
}

/// The name with every separator neutralized. Without a separator no part of
/// the result can name a directory, so a sequence such as `../` loses its
/// meaning as a path.
pub open spec fn sanitized(name: Seq<char>) -> Seq<char> {
    Seq::new(name.len(), |i: int| neutral(name[i]))
}

/// The name holds no separator.
pub open spec fn plain(name: Seq<char>) -> bool {
    forall|i: int| 0 <= i < name.len() ==> !is_separator(#[trigger] name[i])
}

/// What every stored file of the upload begins with.
pub open spec fn stored_prefix(upload_id: Seq<char>) -> Seq<char> {
    upload_id.push('_')
}

/// The stored name of the file `name` of the upload `upload_id`.
pub open spec fn stored_name(upload_id: Seq<char>, name: Seq<char>) -> Seq<char> {
    stored_prefix(upload_id) + sanitized(name)
}

/// The name that a stored file has inside its upload: what follows the
/// upload's prefix, or the whole stored name where it lacks that prefix.
pub open spec fn original_name(stored: Seq<char>, upload_id: Seq<char>) -> Seq<char> {
    if stored_prefix(upload_id).is_prefix_of(stored) {
        stored.skip(upload_id.len() as int + 1)
    } else {
        stored
    }
}

/// Whether `c` separates directories.
pub fn separates(c: char) -> (r: bool)
    ensures
        r == is_separator(c),
{
    c == '/' || c == '\\'
}

/// Appends the sanitized form of `name[from..]` to `out`.
pub(crate) fn push_sanitized(out: &mut String, name: &Vec<char>, from: usize)
    requires
        from <= name.len(),
    ensures
        final(out)@ == old(out)@ + sanitized(name@.skip(from as int)),
{
    let ghost tail = sanitized(name@.skip(from as int));
    let mut i: usize = from;
    while i < name.len()
        invariant
            from <= i <= name.len(),
            tail == sanitized(name@.skip(from as int)),
            out@ == old(out)@ + tail.take(i - from),
        decreases name.len() - i,
    {
        let c = name[i];
        if separates(c) {
            out.push('_');
        } else {
            out.push(c);
        }
        assert(tail.take(i - from + 1) == tail.take(i - from).push(neutral(name@[i as int])));
        i += 1;
    }
    assert(tail.take(name.len() - from) == tail);
}

/// Neutralizes the directory separators of a file name.
pub fn sanitize_filename_safe(name: &str) -> (out: String)
    ensures
        out@ == sanitized(name@),
        plain(out@),
        out@.len() == name@.len(),
{
    let chars = chars_of(name);
    let mut out = String::new();
    assert(chars@.skip(0) == chars@);
    push_sanitized(&mut out, &chars, 0);
    out
}

/// The name under which the file `original` of the upload `upload_id` is
/// stored. A name without characters is refused.
pub fn encode(upload_id: &str, original: &str) -> (r: Result<String, CodecError>)
    ensures
        match r {
            Ok(stored) => original@.len() > 0 && stored@ == stored_name(upload_id@, original@),
            Err(e) => original@.len() == 0 && e == CodecError::EmptyName,
        },
{
    let name = chars_of(original);
    if name.len() == 0 {
        return Err(CodecError::EmptyName);
    }
    let id = chars_of(upload_id);
    let mut out = String::new();
    push_chars(&mut out, &id, 0);
    out.push('_');
    assert(name@.skip(0) == name@);
    push_sanitized(&mut out, &name, 0);
    Ok(out)
}

/// The name inside its upload of the stored file `stored`. A stored name that
/// does not begin with the upload's prefix comes back unchanged.
pub fn decode(stored: &str, upload_id: &str) -> (out: String)
    ensures
        out@ == original_name(stored@, upload_id@),
{
    let name = chars_of(stored);
    let mut prefix = chars_of(upload_id);
    prefix.push('_');
    let mut out = String::new();
    if starts_with_chars(&name, &prefix) {
        push_chars(&mut out, &name, prefix.len());
    } else {
        push_chars(&mut out, &name, 0);
    }
    out
}

/// A sanitized name holds no separator, and sanitizing it again changes
/// nothing.
pub proof fn sanitized_is_plain(name: Seq<char>)
    ensures
        plain(sanitized(name)),
        sanitized(sanitized(name)) == sanitized(name),
{
    assert(sanitized(sanitized(name)) =~= sanitized(name));
}

/// Sanitizing leaves exactly the names without separators unchanged.
pub proof fn sanitized_fixes_plain(name: Seq<char>)
    ensures
        sanitized(name) == name <==> plain(name),
{
    if plain(name) {
        assert(sanitized(name) =~= name);
    }
    if sanitized(name) == name {
        assert forall|i: int| 0 <= i < name.len() implies !is_separator(#[trigger] name[i]) by {
            assert(sanitized(name)[i] == neutral(name[i]));
        }
    }
}

/// Reading back a stored name gives the sanitized original name.
pub proof fn decode_inverts_encode(upload_id: Seq<char>, name: Seq<char>)
    ensures
        original_name(stored_name(upload_id, name), upload_id) == sanitized(name),
{
    let stored = stored_name(upload_id, name);
    assert(stored.subrange(0, stored_prefix(upload_id).len() as int) =~= stored_prefix(upload_id));
    assert(stored.skip(upload_id.len() as int + 1) =~= sanitized(name));
}

/// Round trip: a name without separators is read back from its stored name
/// as it was.
pub proof fn round_trip(upload_id: Seq<char>, name: Seq<char>)
    requires
        plain(name),
    ensures
        original_name(stored_name(upload_id, name), upload_id) == name,
{
    decode_inverts_encode(upload_id, name);
    sanitized_fixes_plain(name);
}

/// Two names of one upload are stored under the same name exactly when their
/// sanitized forms are equal.
pub proof fn collision_condition(upload_id: Seq<char>, a: Seq<char>, b: Seq<char>)
    ensures
        stored_name(upload_id, a) == stored_name(upload_id, b) <==> sanitized(a) == sanitized(b),
{
    decode_inverts_encode(upload_id, a);
    decode_inverts_encode(upload_id, b);
}

/// Distinct names without separators never share a stored name within one
/// upload.
pub proof fn distinct_names_distinct_files(upload_id: Seq<char>, a: Seq<char>, b: Seq<char>)
    requires
        plain(a),
        plain(b),
        a != b,
    ensures
        stored_name(upload_id, a) != stored_name(upload_id, b),
{
    collision_condition(upload_id, a, b);
    sanitized_fixes_plain(a);
    sanitized_fixes_plain(b);
}

/// A stored name holds a separator only where the upload's identifier does,
/// and it is never one of the directory names `.` and `..`.
pub proof fn stored_name_stays_in_directory(upload_id: Seq<char>, name: Seq<char>)
    ensures
        plain(upload_id) ==> plain(stored_name(upload_id, name)),
        stored_name(upload_id, name) != seq!['.'],
        stored_name(upload_id, name) != seq!['.', '.'],
{
    let stored = stored_name(upload_id, name);
    assert(stored[upload_id.len() as int] == '_');
    let dot = seq!['.'];
    let dots = seq!['.', '.'];
    assert(dot.len() == 1 && dot[0] == '.');
    assert(dots.len() == 2 && dots[0] == '.' && dots[1] == '.');
}

} // verus!
