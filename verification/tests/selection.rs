use path_select::{FileType, PathEntry, PathSelectionMode};

fn entry(path: &str, file_type: FileType) -> PathEntry {
    PathEntry { path: String::from(path), file_type, symlink_path_opt: None }
}

fn each_kind(path: &str) -> [PathEntry; 3] {
    [entry(path, FileType::Dir), entry(path, FileType::File), entry(path, FileType::Other)]
}

#[test]
fn directory_mode_admits_directories_only() {
    let mode = PathSelectionMode::Directory;
    assert!(entry("/ra/set", FileType::Dir).is_selectable(&mode));
    assert!(!entry("/ra/set", FileType::File).is_selectable(&mode));
    assert!(!entry("/ra/set", FileType::Other).is_selectable(&mode));
}

#[test]
fn directory_mode_ignores_the_name() {
    let mode = PathSelectionMode::Directory;
    assert!(entry("/ra/set.rs", FileType::Dir).is_selectable(&mode));
    assert!(entry("", FileType::Dir).is_selectable(&mode));
    assert!(entry("/", FileType::Dir).is_selectable(&mode));
}

#[test]
fn file_mode_without_extension_admits_every_regular_file() {
    let mode = PathSelectionMode::File(None);
    assert!(entry("/ra/set/nefer.rs", FileType::File).is_selectable(&mode));
    assert!(entry("/ra/set/nefer", FileType::File).is_selectable(&mode));
    assert!(entry("/ra/set/.nut", FileType::File).is_selectable(&mode));
    assert!(!entry("/ra/set/nefer.rs", FileType::Dir).is_selectable(&mode));
    assert!(!entry("/ra/set/nefer.rs", FileType::Other).is_selectable(&mode));
}

#[test]
fn file_mode_with_extension_compares_the_extension() {
    let mode = PathSelectionMode::File(Some("rs"));
    assert!(entry("/ra/set/nefer.rs", FileType::File).is_selectable(&mode));
    assert!(!entry("/ra/set/nefer.py", FileType::File).is_selectable(&mode));
    assert!(!entry("/ra/set/nefer.rss", FileType::File).is_selectable(&mode));
    assert!(!entry("/ra/set/nefer.r", FileType::File).is_selectable(&mode));
    assert!(entry("/ra/set/nefer.tar.rs", FileType::File).is_selectable(&mode));
    assert!(!entry("/ra/set/nefer.rs.tar", FileType::File).is_selectable(&mode));
}

#[test]
fn file_mode_with_extension_ignores_ascii_case() {
    assert!(entry("Maat.RS", FileType::File).is_selectable(&PathSelectionMode::File(Some("rs"))));
    assert!(entry("Maat.rs", FileType::File).is_selectable(&PathSelectionMode::File(Some("RS"))));
    assert!(entry("Maat.Rs", FileType::File).is_selectable(&PathSelectionMode::File(Some("rS"))));
    assert!(!entry("Maat.É", FileType::File).is_selectable(&PathSelectionMode::File(Some("é"))));
    assert!(entry("Maat.é", FileType::File).is_selectable(&PathSelectionMode::File(Some("é"))));
}

#[test]
fn file_mode_with_extension_rejects_a_file_without_one() {
    let mode = PathSelectionMode::File(Some("rs"));
    assert!(!entry("/ra/set/rs", FileType::File).is_selectable(&mode));
    assert!(!entry("/ra/set/.rs", FileType::File).is_selectable(&mode));
    assert!(!entry("/ra.rs/set", FileType::File).is_selectable(&mode));
    assert!(!entry("", FileType::File).is_selectable(&mode));
    assert!(!entry("/ra/set.rs/..", FileType::File).is_selectable(&mode));
}

#[test]
fn file_mode_with_empty_extension_admits_names_that_end_in_a_dot() {
    let mode = PathSelectionMode::File(Some(""));
    assert!(entry("nefer.", FileType::File).is_selectable(&mode));
    assert!(!entry("nefer", FileType::File).is_selectable(&mode));
    assert!(!entry("nefer.rs", FileType::File).is_selectable(&mode));
}

#[test]
fn file_mode_with_extension_rejects_what_is_no_regular_file() {
    let mode = PathSelectionMode::File(Some("rs"));
    assert!(!entry("/ra/set/nefer.rs", FileType::Dir).is_selectable(&mode));
    assert!(!entry("/ra/set/nefer.rs", FileType::Other).is_selectable(&mode));
}

#[test]
fn empty_multiple_admits_nothing() {
    let mode = PathSelectionMode::Multiple(vec![]);
    for candidate in each_kind("/ra/set/nefer.rs") {
        assert!(!candidate.is_selectable(&mode));
    }
}

#[test]
fn multiple_of_directory_and_file_admits_both_and_nothing_else() {
    let mode = PathSelectionMode::Multiple(vec![
        PathSelectionMode::Directory,
        PathSelectionMode::File(None),
    ]);
    assert!(entry("/ra/set", FileType::Dir).is_selectable(&mode));
    assert!(entry("/ra/set", FileType::File).is_selectable(&mode));
    assert!(!entry("/dev/null", FileType::Other).is_selectable(&mode));
}

#[test]
fn multiple_does_not_depend_on_the_order_of_its_members() {
    let one = PathSelectionMode::Multiple(vec![
        PathSelectionMode::File(Some("rs")),
        PathSelectionMode::Directory,
    ]);
    let other = PathSelectionMode::Multiple(vec![
        PathSelectionMode::Directory,
        PathSelectionMode::File(Some("rs")),
    ]);
    for path in ["a.rs", "a.py", "a", ""] {
        for candidate in each_kind(path) {
            assert_eq!(candidate.is_selectable(&one), candidate.is_selectable(&other));
        }
    }
}

#[test]
fn multiple_of_several_extensions_admits_each_of_them() {
    let mode = PathSelectionMode::Multiple(vec![
        PathSelectionMode::File(Some("rs")),
        PathSelectionMode::File(Some("toml")),
    ]);
    assert!(entry("main.rs", FileType::File).is_selectable(&mode));
    assert!(entry("Cargo.TOML", FileType::File).is_selectable(&mode));
    assert!(!entry("Cargo.lock", FileType::File).is_selectable(&mode));
    assert!(!entry("src", FileType::Dir).is_selectable(&mode));
}

#[test]
fn nested_multiple_admits_what_an_inner_member_admits() {
    let mode = PathSelectionMode::Multiple(vec![
        PathSelectionMode::Multiple(vec![]),
        PathSelectionMode::Multiple(vec![
            PathSelectionMode::File(Some("rs")),
            PathSelectionMode::Multiple(vec![PathSelectionMode::Directory]),
        ]),
    ]);
    assert!(entry("src", FileType::Dir).is_selectable(&mode));
    assert!(entry("main.rs", FileType::File).is_selectable(&mode));
    assert!(!entry("main.py", FileType::File).is_selectable(&mode));
    assert!(!entry("tty", FileType::Other).is_selectable(&mode));
}

#[test]
fn nested_empty_multiples_admit_nothing() {
    let mode = PathSelectionMode::Multiple(vec![
        PathSelectionMode::Multiple(vec![]),
        PathSelectionMode::Multiple(vec![PathSelectionMode::Multiple(vec![])]),
    ]);
    for candidate in each_kind("main.rs") {
        assert!(!candidate.is_selectable(&mode));
    }
}

#[test]
fn a_symlink_is_judged_by_its_target() {
    let link = PathEntry {
        path: String::from("/target/nefer.rs"),
        file_type: FileType::File,
        symlink_path_opt: Some(String::from("/links/nefer.txt")),
    };
    assert!(link.is_selectable(&PathSelectionMode::File(Some("rs"))));
    assert!(!link.is_selectable(&PathSelectionMode::File(Some("txt"))));
    assert!(!link.is_selectable(&PathSelectionMode::Directory));
}

#[test]
fn default_mode_is_directory() {
    let mode = PathSelectionMode::default();
    assert!(mode == PathSelectionMode::Directory);
    assert!(entry("/ra", FileType::Dir).is_selectable(&mode));
    assert!(!entry("/ra", FileType::File).is_selectable(&mode));
}

#[test]
fn a_cloned_mode_equals_the_mode() {
    let mode = PathSelectionMode::Multiple(vec![
        PathSelectionMode::File(Some("rs")),
        PathSelectionMode::File(None),
        PathSelectionMode::Multiple(vec![PathSelectionMode::Directory]),
        PathSelectionMode::Multiple(vec![]),
    ]);
    assert!(mode.clone() == mode);
    assert!(PathSelectionMode::Directory.clone() == PathSelectionMode::Directory);
    assert!(PathSelectionMode::File(Some("rs")).clone() == PathSelectionMode::File(Some("rs")));
    assert!(PathSelectionMode::File(None).clone() != PathSelectionMode::File(Some("rs")));
}

#[test]
fn file_type_tells_directories_and_files_apart() {
    assert!(FileType::Dir.is_dir());
    assert!(!FileType::Dir.is_file());
    assert!(FileType::File.is_file());
    assert!(!FileType::File.is_dir());
    assert!(!FileType::Other.is_dir());
    assert!(!FileType::Other.is_file());
}

#[test]
fn an_entry_dereferences_to_its_file_type() {
    assert_eq!(*entry("/ra", FileType::Dir), FileType::Dir);
    assert_eq!(*entry("/ra", FileType::File), FileType::File);
    assert_eq!(*entry("/ra", FileType::Other), FileType::Other);
}

#[test]
fn an_entry_answers_for_its_file_type() {
    assert!(entry("/ra", FileType::Dir).is_dir());
    assert!(entry("/ra", FileType::File).is_file());
    assert!(!entry("/ra", FileType::Other).is_dir());
    assert!(!entry("/ra", FileType::Other).is_file());
}
