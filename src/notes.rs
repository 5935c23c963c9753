use vstd::prelude::*;

verus! {

/// Name of the file, in the application's data directory, that holds the note.
pub const NOTES_FILE_NAME: &'static str = "notes.txt";

/// What reading the notes file found.
#[derive(Clone, Debug, PartialEq, Eq)]
pub enum NoteFile {
    /// There is no notes file yet.
    Missing,
    /// The file exists and holds this text.
    Contents(String),
}

/// The note that a load returns: a missing file is an empty note, not an error.
pub fn note_from_file(file: NoteFile) -> (r: String)
    ensures
        file == NoteFile::Missing ==> r@ == Seq::<char>::empty(),
        file matches NoteFile::Contents(t) ==> r@ == t@,
{
    match file {
        NoteFile::Missing => String::new(),
        NoteFile::Contents(t) => t,
    }
}

} // verus!
