use notesync::mime_types::{
    extension_code, extension_type, file_extension, is_extension_supported, is_note_file,
    ExtensionType,
};

#[test]
fn test1() {
    assert!(is_extension_supported("md"));
    assert!(is_extension_supported("txt"));
    assert!(!is_extension_supported("bin"));
}

#[test]
fn extension_kinds() {
    assert_eq!(extension_type("txt"), Some(ExtensionType::Text));
    assert_eq!(extension_type("text"), Some(ExtensionType::Text));
    assert_eq!(extension_type("md"), Some(ExtensionType::Markdown));
    assert_eq!(extension_type("markdown"), Some(ExtensionType::Markdown));
    assert_eq!(extension_type("MD"), None);
    assert_eq!(extension_type(""), None);
    assert_eq!(extension_type("rs"), None);
}

#[test]
fn extension_codes() {
    assert_eq!(extension_code(None), 0);
    assert_eq!(extension_code(Some(ExtensionType::Text)), 1);
    assert_eq!(extension_code(Some(ExtensionType::Markdown)), 2);
}

#[test]
fn file_extensions() {
    assert_eq!(file_extension("notes.md"), Some("md".to_string()));
    assert_eq!(file_extension("archive.tar.gz"), Some("gz".to_string()));
    assert_eq!(file_extension(".gitkeep"), None);
    assert_eq!(file_extension(".hidden.txt"), Some("txt".to_string()));
    assert_eq!(file_extension("README"), None);
    assert_eq!(file_extension("trailing."), Some("".to_string()));
    assert_eq!(file_extension(".."), None);
    assert_eq!(file_extension(""), None);
}

#[test]
fn note_files() {
    assert!(is_note_file("file1.md"));
    assert!(is_note_file("file2.txt"));
    assert!(!is_note_file("file3.rs"));
    assert!(!is_note_file("file5.bin"));
    assert!(!is_note_file(".md"));
    assert!(!is_note_file("md"));
}
