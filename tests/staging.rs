use md_title_gen::generator::{add_hash_to_filename, staging_file_name};
use md_title_gen::{GeneratorError, MarkDownTitleGenerator};

#[test]
fn staging_name_with_and_without_extension() {
    assert_eq!(staging_file_name("notes", "abc", Some("md")), "notes_abc.md");
    assert_eq!(staging_file_name("notes", "abc", None), "notes_abc");
}

#[test]
fn staging_path_next_to_source() {
    let g = MarkDownTitleGenerator::new("docs/notes.md", "Auto-Title:".to_string(), 4).unwrap();
    assert_eq!(g.file_path(), "docs/notes.md");
    assert_eq!(
        g.staging_file_path(),
        "docs/notes_ab5aa97074c454a0632057e704220d9a6678fbf773a0a5806fc09b8173b07309.md"
    );
}

#[test]
fn staging_path_without_extension() {
    let g = MarkDownTitleGenerator::new("readme", "Auto-Title:".to_string(), 4).unwrap();
    assert_eq!(
        g.staging_file_path(),
        "readme_711a6108ba2ce6ca93dd47d6817f2361db10d8ab6eec89460b2dfc2c325efabe"
    );
}

#[test]
fn staging_path_hashes_stem_only() {
    let g = MarkDownTitleGenerator::new("archive.tar.gz", "Auto-Title:".to_string(), 4).unwrap();
    assert_eq!(
        g.staging_file_path(),
        "archive.tar_260389190cb2919e60b58cc8ce702d7c38d29c9f343e747783188dd02d6b8540.gz"
    );
}

#[test]
fn staging_path_is_deterministic() {
    let a = MarkDownTitleGenerator::new("a/notes.md", "x".to_string(), 4).unwrap();
    let b = MarkDownTitleGenerator::new("a/notes.md", "y".to_string(), 2).unwrap();
    assert_eq!(a.staging_file_path(), b.staging_file_path());
}

#[test]
fn path_without_stem_is_refused() {
    for p in ["", "/", "..", "docs/.."] {
        assert_eq!(
            MarkDownTitleGenerator::new(p, "Auto-Title:".to_string(), 4).err(),
            Some(GeneratorError::PathError)
        );
    }
}

#[test]
fn hashed_file_name_of_paths() {
    assert_eq!(
        add_hash_to_filename("notes.md").as_deref(),
        Some("notes_ab5aa97074c454a0632057e704220d9a6678fbf773a0a5806fc09b8173b07309.md")
    );
    assert_eq!(add_hash_to_filename(""), None);
}
