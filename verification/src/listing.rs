//! Directory listings: which children of a directory are shown, and in what order.

use vstd::prelude::*;

verus! {

/// One child of a directory: its name, and whether the file system reports it
/// as a directory.
#[derive(Debug, Clone, PartialEq, Eq)]
pub struct DirectoryEntry {
    pub name: String,
    pub is_directory: bool,
}

/// The mathematical value of a [`DirectoryEntry`].
pub struct EntryView {
    pub name: Seq<char>,
    pub is_directory: bool,
}

impl View for DirectoryEntry {
    type V = EntryView;

    open spec fn view(&self) -> EntryView {
        EntryView { name: self.name@, is_directory: self.is_directory }
    }
}

impl DeepView for DirectoryEntry {
    type V = EntryView;

    open spec fn deep_view(&self) -> EntryView {
        self@
    }
}

/// `suffix` is the tail of `name`.
pub open spec fn is_suffix(suffix: Seq<char>, name: Seq<char>) -> bool {
    &&& suffix.len() <= name.len()
    &&& name.subrange(name.len() - suffix.len(), name.len() as int) == suffix
}

/// Whether `name` ends with `suffix`, character by character.
pub fn ends_with(name: &str, suffix: &str) -> (found: bool)
    ensures
        found == is_suffix(suffix@, name@),
{
    let name_len: usize = name.unicode_len();
    let suffix_len: usize = suffix.unicode_len();
    if suffix_len > name_len {
        return false;
    }
    let start: usize = name_len - suffix_len;
    let mut i: usize = 0;
    while i < suffix_len
        invariant
            i <= suffix_len,
            name_len == name@.len(),
            suffix_len == suffix@.len(),
            start + suffix_len == name_len,
            forall|j: int| 0 <= j < i ==> name@[start + j] == suffix@[j],
        decreases suffix_len - i,
    {
        if name.get_char(start + i) != suffix.get_char(i) {
            assert(name@.subrange(start as int, name_len as int)[i as int] != suffix@[i as int]);
            return false;
        }
        i += 1;
    }
    assert(name@.subrange(start as int, name_len as int) =~= suffix@);
    true
}

/// Which files a listing keeps. Directories are kept whatever the filter.
#[derive(Debug, Clone, PartialEq, Eq)]
pub enum FileFilter {
    /// Every file is kept.
    AcceptAll,
    /// A file is kept when its name ends with one of these suffixes.
    Suffixes(Vec<String>),
}

/// The mathematical value of a [`FileFilter`].
pub enum FilterView {
    AcceptAll,
    Suffixes(Seq<Seq<char>>),
}

impl View for FileFilter {
    type V = FilterView;

    open spec fn view(&self) -> FilterView {
        match self {
            FileFilter::AcceptAll => FilterView::AcceptAll,
            FileFilter::Suffixes(suffixes) => FilterView::Suffixes(suffixes.deep_view()),
        }
    }
}

/// `name` ends with one of `suffixes`.
pub open spec fn ends_with_any(name: Seq<char>, suffixes: Seq<Seq<char>>) -> bool {
    exists|i: int| 0 <= i < suffixes.len() && is_suffix(#[trigger] suffixes[i], name)
}

impl FilterView {
    /// The filter keeps a file of this name.
    pub open spec fn accepts(self, name: Seq<char>) -> bool {
        match self {
            FilterView::AcceptAll => true,
            FilterView::Suffixes(suffixes) => ends_with_any(name, suffixes),
        }
    }
}

impl FileFilter {
    /// Whether the filter keeps a file of this name.
    pub fn accepts(&self, name: &str) -> (kept: bool)
        ensures
            kept == self@.accepts(name@),
    {
        match self {
            FileFilter::AcceptAll => true,
            FileFilter::Suffixes(suffixes) => {
                let mut i: usize = 0;
                while i < suffixes.len()
                    invariant
                        i <= suffixes.len(),
                        self@ == FilterView::Suffixes(suffixes.deep_view()),
                        forall|j: int|
                            0 <= j < i ==> !is_suffix(#[trigger] suffixes.deep_view()[j], name@),
                    decreases suffixes.len() - i,
                {
                    if ends_with(name, suffixes[i].as_str()) {
                        assert(is_suffix(suffixes.deep_view()[i as int], name@));
                        return true;
                    }
                    i += 1;
                }
                false
            },
        }
    }
}

/// Picks the directories out of the children of a directory.
pub open spec fn directories() -> spec_fn(EntryView) -> bool {
    |entry: EntryView| entry.is_directory
}

/// Picks the files that `filter` keeps out of the children of a directory.
pub open spec fn kept_files(filter: FilterView) -> spec_fn(EntryView) -> bool {
    |entry: EntryView| !entry.is_directory && filter.accepts(entry.name)
}

/// What is shown of a directory whose children are `children`, in the order
/// in which the file system gave them: every directory, then every file that
/// `filter` keeps. Within each group the order of `children` stands.
pub open spec fn shown(children: Seq<EntryView>, filter: FilterView) -> Seq<EntryView> {
    children.filter(directories()) + children.filter(kept_files(filter))
}

/// Lists a directory from its children as the file system enumerated them.
pub fn get_files(children: &[DirectoryEntry], filter: &FileFilter) -> (listing: Vec<DirectoryEntry>)
    ensures
        listing.deep_view() == shown(children.deep_view(), filter@),
{
    let mut dirs: Vec<DirectoryEntry> = Vec::new();
    let mut files: Vec<DirectoryEntry> = Vec::new();
    let ghost all = children.deep_view();
    let mut i: usize = 0;
    proof {
        reveal(Seq::filter);
        assert(all.take(0) =~= Seq::<EntryView>::empty());
        assert(dirs.deep_view() =~= all.take(0).filter(directories()));
        assert(files.deep_view() =~= all.take(0).filter(kept_files(filter@)));
    }
    while i < children.len()
        invariant
            i <= children.len(),
            all == children.deep_view(),
            dirs.deep_view() == all.take(i as int).filter(directories()),
            files.deep_view() == all.take(i as int).filter(kept_files(filter@)),
        decreases children.len() - i,
    {
        let child = &children[i];
        let ghost dirs_before = dirs.deep_view();
        let ghost files_before = files.deep_view();
        proof {
            assert(all.take(i + 1) =~= all.take(i as int).push(child@));
            all.take(i as int).lemma_filter_push(child@, directories());
            all.take(i as int).lemma_filter_push(child@, kept_files(filter@));
        }
        if child.is_directory {
            dirs.push(DirectoryEntry { name: child.name.clone(), is_directory: true });
            assert(dirs.deep_view() =~= dirs_before.push(child@));
        } else if filter.accepts(child.name.as_str()) {
            files.push(DirectoryEntry { name: child.name.clone(), is_directory: false });
            assert(files.deep_view() =~= files_before.push(child@));
        }
        i += 1;
    }
    assert(all.take(i as int) =~= all);
    let ghost dirs_found = dirs.deep_view();
    let ghost files_found = files.deep_view();
    dirs.append(&mut files);
    assert(dirs.deep_view() =~= dirs_found + files_found);
    dirs
}

/// No file stands before a directory.
pub open spec fn directories_first(entries: Seq<EntryView>) -> bool {
    forall|i: int, j: int|
        #![trigger entries[i], entries[j]]
        0 <= i < j < entries.len() && entries[j].is_directory ==> entries[i].is_directory
}

/// A filter that refuses every element gives the empty sequence, and one
/// that keeps every element gives the sequence back.
proof fn filter_all_or_nothing(s: Seq<EntryView>, pred: spec_fn(EntryView) -> bool)
    ensures
        (forall|i: int| 0 <= i < s.len() ==> !pred(#[trigger] s[i])) ==> s.filter(pred)
            == Seq::<EntryView>::empty(),
        (forall|i: int| 0 <= i < s.len() ==> pred(#[trigger] s[i])) ==> s.filter(pred) == s,
    decreases s.len(),
{
    reveal(Seq::filter);
    if s.len() > 0 {
        let front = s.drop_last();
        filter_all_or_nothing(front, pred);
        assert forall|i: int| 0 <= i < front.len() implies #[trigger] front[i] == s[i] by {}
        assert(front.push(s.last()) =~= s);
    }
}

/// Of a directory that holds nothing but directories, every child is shown,
/// in the order given, and so every entry shown is a directory.
pub proof fn only_directories_are_shown_whole(children: Seq<EntryView>, filter: FilterView)
    requires
        forall|i: int| 0 <= i < children.len() ==> (#[trigger] children[i]).is_directory,
    ensures
        shown(children, filter) == children,
        forall|j: int|
            #![trigger shown(children, filter)[j]]
            0 <= j < shown(children, filter).len() ==> shown(children, filter)[j].is_directory,
{
    filter_all_or_nothing(children, directories());
    filter_all_or_nothing(children, kept_files(filter));
    assert(children + Seq::<EntryView>::empty() =~= children);
}

/// Whatever the children and the filter: in what is shown the directories
/// come before the files, and every file shown is one that the filter keeps.
pub proof fn directories_precede_kept_files(children: Seq<EntryView>, filter: FilterView)
    ensures
        directories_first(shown(children, filter)),
        forall|j: int|
            #![trigger shown(children, filter)[j]]
            0 <= j < shown(children, filter).len() ==> {
                let entry = shown(children, filter)[j];
                entry.is_directory || filter.accepts(entry.name)
            },
{
    let dirs = children.filter(directories());
    let files = children.filter(kept_files(filter));
    let all = shown(children, filter);
    assert forall|j: int| 0 <= j < all.len() implies {
        let entry = #[trigger] all[j];
        if j < dirs.len() {
            entry.is_directory
        } else {
            !entry.is_directory && filter.accepts(entry.name)
        }
    } by {
        if j < dirs.len() {
            children.lemma_filter_pred(directories(), j);
            assert(all[j] == dirs[j]);
        } else {
            children.lemma_filter_pred(kept_files(filter), j - dirs.len());
            assert(all[j] == files[j - dirs.len()]);
        }
    }
}

/// An entry is shown exactly when it is a child and is either a directory or
/// a file that the filter keeps: nothing is made up and nothing is lost.
pub proof fn shown_exactly_the_kept_children(
    children: Seq<EntryView>,
    filter: FilterView,
    entry: EntryView,
)
    ensures
        shown(children, filter).contains(entry) <==> {
            &&& children.contains(entry)
            &&& entry.is_directory || filter.accepts(entry.name)
        },
{
    let dirs = children.filter(directories());
    let files = children.filter(kept_files(filter));
    let all = shown(children, filter);
    if all.contains(entry) {
        let j = choose|j: int| 0 <= j < all.len() && all[j] == entry;
        if j < dirs.len() {
            assert(dirs[j] == entry);
            children.lemma_filter_pred(directories(), j);
            children.lemma_filter_contains_rev(directories(), entry);
        } else {
            assert(files[j - dirs.len()] == entry);
            children.lemma_filter_pred(kept_files(filter), j - dirs.len());
            children.lemma_filter_contains_rev(kept_files(filter), entry);
        }
    }
    if children.contains(entry) && (entry.is_directory || filter.accepts(entry.name)) {
        let i = choose|i: int| 0 <= i < children.len() && children[i] == entry;
        if entry.is_directory {
            children.lemma_filter_contains(directories(), i);
            let j = choose|j: int| 0 <= j < dirs.len() && dirs[j] == entry;
            assert(all[j] == entry);
        } else {
            children.lemma_filter_contains(kept_files(filter), i);
            let j = choose|j: int| 0 <= j < files.len() && files[j] == entry;
            assert(all[dirs.len() + j] == entry);
        }
    }
}

} // verus!
