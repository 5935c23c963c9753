use overlay_toggle::notes::{note_from_file, NoteFile, NOTES_FILE_NAME};

#[test]
fn missing_notes_file_loads_as_empty() {
    assert_eq!(note_from_file(NoteFile::Missing), String::new());
}

#[test]
fn existing_notes_file_loads_its_text() {
    assert_eq!(note_from_file(NoteFile::Contents("buy milk".to_string())), "buy milk");
    assert_eq!(NOTES_FILE_NAME, "notes.txt");
}
