use jrip::listing::{ends_with, get_files, DirectoryEntry, FileFilter};

fn dir(name: &str) -> DirectoryEntry {
    DirectoryEntry { name: name.to_string(), is_directory: true }
}

fn file(name: &str) -> DirectoryEntry {
    DirectoryEntry { name: name.to_string(), is_directory: false }
}

fn mkv_only() -> FileFilter {
    FileFilter::Suffixes(vec!["mkv".to_string()])
}

#[test]
fn only_subdirectories_are_all_listed_as_directories() {
    let children = vec![dir("b"), dir("a"), dir("c")];
    let listing = get_files(&children, &mkv_only());
    assert_eq!(listing, vec![dir("b"), dir("a"), dir("c")]);
    assert!(listing.iter().all(|entry| entry.is_directory));
}

#[test]
fn directories_come_before_files_and_refused_files_are_left_out() {
    let children = vec![
        file("first.mkv"),
        dir("beta"),
        file("notes.txt"),
        file("second.mkv"),
        dir("alpha"),
        file("cover.png"),
    ];
    let listing = get_files(&children, &mkv_only());
    assert_eq!(listing, vec![dir("beta"), dir("alpha"), file("first.mkv"), file("second.mkv")]);
}

#[test]
fn movie_and_subdirectory_list_directory_first() {
    let children = vec![file("movie.mkv"), dir("sub")];
    let listing = get_files(&children, &mkv_only());
    assert_eq!(listing, vec![dir("sub"), file("movie.mkv")]);
}

#[test]
fn enumeration_order_is_kept_within_each_group() {
    let children = vec![dir("z"), file("z.mkv"), dir("a"), file("a.mkv"), dir("m"), file("m.mkv")];
    let listing = get_files(&children, &mkv_only());
    assert_eq!(
        listing,
        vec![dir("z"), dir("a"), dir("m"), file("z.mkv"), file("a.mkv"), file("m.mkv")]
    );
}

#[test]
fn accept_all_keeps_every_file() {
    let children = vec![file("notes.txt"), dir("sub"), file("movie.mkv"), file("README")];
    let listing = get_files(&children, &FileFilter::AcceptAll);
    assert_eq!(listing, vec![dir("sub"), file("notes.txt"), file("movie.mkv"), file("README")]);
}

#[test]
fn empty_directory_lists_nothing() {
    let children: Vec<DirectoryEntry> = Vec::new();
    assert_eq!(get_files(&children, &mkv_only()), Vec::<DirectoryEntry>::new());
    assert_eq!(get_files(&children, &FileFilter::AcceptAll), Vec::<DirectoryEntry>::new());
}

#[test]
fn directory_is_kept_whatever_its_name() {
    let children = vec![dir("notes.txt"), dir("movie.mkv"), dir("")];
    let none = FileFilter::Suffixes(Vec::new());
    assert_eq!(get_files(&children, &none), vec![dir("notes.txt"), dir("movie.mkv"), dir("")]);
}

#[test]
fn empty_suffix_list_keeps_no_file() {
    let children = vec![file("movie.mkv"), file("notes.txt"), dir("sub")];
    let none = FileFilter::Suffixes(Vec::new());
    assert_eq!(get_files(&children, &none), vec![dir("sub")]);
}

#[test]
fn any_of_several_suffixes_keeps_a_file() {
    let children = vec![file("a.mp4"), file("b.txt"), file("c.mkv"), file("d.webm")];
    let filter = FileFilter::Suffixes(vec![".mkv".to_string(), ".mp4".to_string()]);
    assert_eq!(get_files(&children, &filter), vec![file("a.mp4"), file("c.mkv")]);
}

#[test]
fn duplicate_children_are_each_listed() {
    let children = vec![file("a.mkv"), file("a.mkv"), dir("d"), dir("d")];
    let listing = get_files(&children, &mkv_only());
    assert_eq!(listing, vec![dir("d"), dir("d"), file("a.mkv"), file("a.mkv")]);
}

#[test]
fn listing_leaves_the_children_as_they_were() {
    let children = vec![file("movie.mkv"), dir("sub")];
    let _ = get_files(&children, &mkv_only());
    assert_eq!(children, vec![file("movie.mkv"), dir("sub")]);
}

#[test]
fn suffix_need_not_start_at_a_dot() {
    let filter = mkv_only();
    assert!(filter.accepts("movie.mkv"));
    assert!(filter.accepts("moviemkv"));
    assert!(filter.accepts("mkv"));
    assert!(!filter.accepts("movie.mkv.part"));
    assert!(!filter.accepts("movie.MKV"));
    assert!(!filter.accepts("kv"));
    assert!(!filter.accepts(""));
}

#[test]
fn accept_all_accepts_any_name() {
    assert!(FileFilter::AcceptAll.accepts("anything"));
    assert!(FileFilter::AcceptAll.accepts(""));
}

#[test]
fn ends_with_compares_the_tail() {
    assert!(ends_with("movie.mkv", "mkv"));
    assert!(ends_with("movie.mkv", ".mkv"));
    assert!(ends_with("movie.mkv", "movie.mkv"));
    assert!(ends_with("movie.mkv", ""));
    assert!(ends_with("", ""));
    assert!(!ends_with("movie.mkv", "mp4"));
    assert!(!ends_with("movie.mkv", "xmovie.mkv"));
    assert!(!ends_with("", "mkv"));
    assert!(!ends_with("mkv.movie", "mkv"));
    assert!(!ends_with("movie.mkv", "mkw"));
    assert!(!ends_with("movie.mkv", "nkv"));
}

#[test]
fn ends_with_counts_characters_not_bytes() {
    assert!(ends_with("séance.mkv", "mkv"));
    assert!(ends_with("film-é", "é"));
    assert!(ends_with("映画.mkv", "画.mkv"));
    assert!(!ends_with("film-e", "é"));
    assert!(!ends_with("é", "film-é"));
}

#[test]
fn ends_with_agrees_with_the_standard_library() {
    let names = ["", "a", "mkv", "a.mkv", "a.mkvx", "é.mkv", "mkv.é", "aaa"];
    let suffixes = ["", "a", "mkv", ".mkv", "é", "aaaa", "v"];
    for name in names {
        for suffix in suffixes {
            assert_eq!(ends_with(name, suffix), name.ends_with(suffix), "{name:?} {suffix:?}");
        }
    }
}
