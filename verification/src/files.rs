//! The two file operations that the interface may ask for.
//!
//! The host touches the file system; what is decided here is which bytes go
//! into a file, which text comes out of one, and how each failure that the
//! host reports ends the operation.

use vstd::prelude::*;
use vstd::utf8::valid_utf8;
use crate::fatal::Fatal;
use crate::text::{decode, decoded, encode, encoded, lemma_decoded_encoded};

verus! {

/// The content of every file that can be read, by path.
pub type Files = Map<Seq<char>, Seq<u8>>;

/// What the host is to do for one write: create the file at `path`, or
/// empty it if it is there, and write `bytes` into it in full.
#[derive(Debug, PartialEq, Eq)]
pub struct WritePlan {
    pub path: String,
    pub bytes: Vec<u8>,
}

/// A write as contracts speak of it.
pub struct FileWrite {
    pub path: Seq<char>,
    pub bytes: Seq<u8>,
}

impl View for WritePlan {
    type V = FileWrite;

    open spec fn view(&self) -> FileWrite {
        FileWrite { path: self.path@, bytes: self.bytes@ }
    }
}

/// How the host fared with a write.
#[derive(Clone, Copy, Debug, PartialEq, Eq, Structural)]
pub enum WriteReport {
    /// The file could not be created or emptied.
    CreateFailed,
    /// The file was created, but not all bytes went into it.
    WriteFailed,
    /// The file holds the bytes.
    Written,
}

/// The write of `text` to `path`.
pub open spec fn write_of(path: Seq<char>, text: Seq<char>) -> FileWrite {
    FileWrite { path, bytes: encoded(text) }
}

/// The files once `write` has been carried out on `files`: the file at its
/// path holds its bytes and nothing of what it held before.
pub open spec fn carried_out(files: Files, write: FileWrite) -> Files {
    files.insert(write.path, write.bytes)
}

/// What the host loads from `path`: the bytes of the file, or nothing where
/// there is no file.
pub open spec fn loaded(files: Files, path: Seq<char>) -> Option<Seq<u8>> {
    if files.dom().contains(path) {
        Some(files[path])
    } else {
        None
    }
}

/// How a read ends on what the host loaded: with the text of the bytes, or
/// fatally where nothing was loaded or the bytes are not UTF-8.
pub open spec fn read_of(loaded: Option<Seq<u8>>) -> Result<Seq<char>, Fatal> {
    match loaded {
        Some(bytes) => match decoded(bytes) {
            Some(text) => Ok(text),
            None => Err(Fatal::ReadFailed),
        },
        None => Err(Fatal::ReadFailed),
    }
}

/// How a write ends on the host's report.
pub open spec fn write_end(report: WriteReport) -> Result<(), Fatal> {
    match report {
        WriteReport::CreateFailed => Err(Fatal::CreateFailed),
        WriteReport::WriteFailed => Err(Fatal::WriteFailed),
        WriteReport::Written => Ok(()),
    }
}

/// The bytes of what was loaded.
pub open spec fn loaded_bytes(loaded: Option<Vec<u8>>) -> Option<Seq<u8>> {
    match loaded {
        Some(bytes) => Some(bytes@),
        None => None,
    }
}

/// Plans the write of `content` to the file at `file_path`.
pub fn write_to_file(file_path: String, content: String) -> (plan: WritePlan)
    ensures
        plan@ == write_of(file_path@, content@),
{
    let bytes = encode(content.as_str());
    WritePlan { path: file_path, bytes }
}

/// Ends a write: with nothing to return where the host wrote the file,
/// fatally where it could not.
pub fn write_outcome(report: WriteReport) -> (end: Result<(), Fatal>)
    ensures
        end == write_end(report),
{
    match report {
        WriteReport::CreateFailed => Err(Fatal::CreateFailed),
        WriteReport::WriteFailed => Err(Fatal::WriteFailed),
        WriteReport::Written => Ok(()),
    }
}

/// Ends a read on what the host loaded from the file, `None` where it could
/// not load it: with the whole content as text, or fatally.
pub fn read_file(loaded: Option<Vec<u8>>) -> (end: Result<String, Fatal>)
    ensures
        end matches Ok(text) ==> read_of(loaded_bytes(loaded)) == Ok::<Seq<char>, Fatal>(text@),
        end matches Err(fatal) ==> read_of(loaded_bytes(loaded)) == Err::<Seq<char>, Fatal>(fatal),
{
    match loaded {
        Some(bytes) => match decode(bytes) {
            Some(text) => Ok(text),
            None => Err(Fatal::ReadFailed),
        },
        None => Err(Fatal::ReadFailed),
    }
}

/// A read after a write to the same path gives back exactly the text that
/// was written.
pub proof fn lemma_read_after_write(files: Files, path: Seq<char>, text: Seq<char>)
    ensures
        read_of(loaded(carried_out(files, write_of(path, text)), path)) == Ok::<Seq<char>, Fatal>(
            text,
        ),
{
    lemma_decoded_encoded(text);
}

/// A write replaces what the file held: after two writes to one path the
/// files are as if only the second had been made, and a read gives the
/// second text.
pub proof fn lemma_write_replaces(
    files: Files,
    path: Seq<char>,
    first: Seq<char>,
    second: Seq<char>,
)
    ensures
        carried_out(carried_out(files, write_of(path, first)), write_of(path, second))
            == carried_out(files, write_of(path, second)),
        read_of(
            loaded(
                carried_out(carried_out(files, write_of(path, first)), write_of(path, second)),
                path,
            ),
        ) == Ok::<Seq<char>, Fatal>(second),
{
    lemma_decoded_encoded(second);
    assert(carried_out(carried_out(files, write_of(path, first)), write_of(path, second))
        =~= carried_out(files, write_of(path, second)));
}

/// A write ends without failure only where the host wrote the file. Where
/// it could not create the file, as in a directory that is not there or
/// that it may not write to, or could not write all of the bytes, the write
/// ends fatally.
pub proof fn lemma_failed_write_is_fatal(report: WriteReport)
    ensures
        write_end(report) is Ok <==> report == WriteReport::Written,
        report == WriteReport::CreateFailed ==> write_end(report) == Err::<(), Fatal>(
            Fatal::CreateFailed,
        ),
        report == WriteReport::WriteFailed ==> write_end(report) == Err::<(), Fatal>(
            Fatal::WriteFailed,
        ),
{
}

/// A read of a path that holds no file ends fatally. It never gives a text,
/// not even the empty one.
pub proof fn lemma_read_missing(files: Files, path: Seq<char>)
    requires
        !files.dom().contains(path),
    ensures
        read_of(loaded(files, path)) == Err::<Seq<char>, Fatal>(Fatal::ReadFailed),
{
}

/// A read of a file whose bytes are not well-formed UTF-8 ends fatally. It
/// never gives a part of the content, nor a text with replacements.
pub proof fn lemma_read_malformed(files: Files, path: Seq<char>)
    requires
        files.dom().contains(path),
        !valid_utf8(files[path]),
    ensures
        read_of(loaded(files, path)) == Err::<Seq<char>, Fatal>(Fatal::ReadFailed),
{
}

} // verus!
