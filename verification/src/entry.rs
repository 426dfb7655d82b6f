//! A path with what is known of the file it leads to.
use crate::mode::{ModeView, PathSelectionMode};
use crate::path::{extension, path_extension};
use crate::text::{eq_ignore_ascii_case, eq_ignoring_ascii_case};
use std::hash::{Hash, Hasher};
use std::ops::Deref;
use vstd::prelude::*;
use vstd::std_specs::cmp::PartialEqSpecImpl;
use vstd::std_specs::convert::TryFromSpecImpl;

verus! {

/// What kind of file a path leads to, links followed.
#[derive(Clone, Copy, Debug, PartialEq, Eq, Hash, Structural)]
pub enum FileType {
    /// A directory.
    Dir,
    /// A regular file.
    File,
    /// Anything else, such as a device or a socket.
    Other,
}

/// Path with cached information.
#[derive(Debug)]
pub struct PathEntry {
    /// The path. Corresponds to the target if this is a symlink.
    pub path: String,
    /// The type of the file that the path leads to.
    pub file_type: FileType,
    /// The original symlink path.
    pub symlink_path_opt: Option<String>,
}

/// A path entry as a mathematical value.
pub struct EntryView {
    /// The characters of the path.
    pub path: Seq<char>,
    /// The type of the file that the path leads to.
    pub file_type: FileType,
    /// The characters of the symlink path, where the entry came of a symlink.
    pub symlink_path_opt: Option<Seq<char>>,
}

impl View for PathEntry {
    type V = EntryView;

    open spec fn view(&self) -> EntryView {
        EntryView {
            path: self.path@,
            file_type: self.file_type,
            symlink_path_opt: match self.symlink_path_opt {
                Some(link) => Some(link@),
                None => None,
            },
        }
    }
}

impl Clone for PathEntry {
    fn clone(&self) -> (copy: Self)
        ensures
            copy == *self,
    {
        PathEntry {
            path: self.path.clone(),
            file_type: self.file_type,
            symlink_path_opt: match &self.symlink_path_opt {
                Some(link) => Some(link.clone()),
                None => None,
            },
        }
    }
}

/// Two entries are equal when they hold the same path, whatever else they
/// hold: an entry that came of a symbolic link equals the entry of its
/// target.
pub open spec fn equal_entries(a: EntryView, b: EntryView) -> bool {
    a.path == b.path
}

impl PartialEq for PathEntry {
    fn eq(&self, other: &Self) -> (equal: bool) {
        self.path == other.path
    }
}

impl PartialEqSpecImpl for PathEntry {
    open spec fn obeys_eq_spec() -> bool {
        true
    }

    open spec fn eq_spec(&self, other: &Self) -> bool {
        equal_entries(self@, other@)
    }
}

impl Eq for PathEntry {}

impl Hash for PathEntry {
    /// Calls `String::hash` on the path, and on nothing else, so that equal
    /// entries feed a hasher alike. Trusted; nothing is claimed of the
    /// hasher.
    #[verifier::external_body]
    fn hash<H: Hasher>(&self, state: &mut H) {
        self.path.hash(state)
    }
}

impl Deref for PathEntry {
    type Target = FileType;

    fn deref(&self) -> (file_type: &FileType)
        ensures
            *file_type == self.file_type,
    {
        &self.file_type
    }
}

/// Whether `mode` admits `entry`.
pub open spec fn selectable(entry: EntryView, mode: ModeView) -> bool
    decreases mode,
{
    match mode {
        ModeView::Directory => entry.file_type is Dir,
        ModeView::File(None) => entry.file_type is File,
        ModeView::File(Some(wanted)) => {
            &&& entry.file_type is File
            &&& path_extension(entry.path) matches Some(found)
            &&& eq_ignoring_ascii_case(found, wanted)
        },
        ModeView::Multiple(modes) => exists|i: int|
            0 <= i < modes.len() && selectable(entry, #[trigger] modes[i]),
    }
}

/// A `Multiple` admits an entry just when one of its members does.
pub proof fn lemma_selectable_multiple(entry: EntryView, modes: Seq<ModeView>)
    ensures
        selectable(entry, ModeView::Multiple(modes)) <==> exists|i: int|
            0 <= i < modes.len() && selectable(entry, #[trigger] modes[i]),
{
    assert(ModeView::Multiple(modes)->Multiple_0 == modes);
}

/// The mode `Directory` admits the directories and nothing else.
pub proof fn lemma_directory_mode_admits_directories(entry: EntryView)
    ensures
        selectable(entry, ModeView::Directory) == (entry.file_type is Dir),
{
}

/// The mode `File` without an extension admits the regular files and nothing
/// else, whatever their extension.
pub proof fn lemma_file_mode_admits_files(entry: EntryView)
    ensures
        selectable(entry, ModeView::File(None)) == (entry.file_type is File),
{
}

/// The mode `File` with an extension admits a regular file just when the
/// file's path has an extension and that extension equals the wanted one up
/// to the case of ASCII letters.
pub proof fn lemma_file_mode_compares_extensions(entry: EntryView, wanted: Seq<char>)
    requires
        entry.file_type is File,
    ensures
        selectable(entry, ModeView::File(Some(wanted))) == match path_extension(entry.path) {
            Some(found) => eq_ignoring_ascii_case(found, wanted),
            None => false,
        },
{
}

/// A `Multiple` without members admits nothing.
pub proof fn lemma_empty_multiple_admits_nothing(entry: EntryView)
    ensures
        !selectable(entry, ModeView::Multiple(Seq::empty())),
{
    lemma_selectable_multiple(entry, Seq::empty());
}

/// A `Multiple` of `Directory` and `File` without an extension admits the
/// directories and the regular files, and nothing else.
pub proof fn lemma_directory_or_file(entry: EntryView)
    ensures
        selectable(entry, ModeView::Multiple(seq![ModeView::Directory, ModeView::File(None)])) == (
        entry.file_type is Dir || entry.file_type is File),
{
    let modes = seq![ModeView::Directory, ModeView::File(None)];
    lemma_selectable_multiple(entry, modes);
    assert(modes[0] == ModeView::Directory);
    assert(modes[1] == ModeView::File(None));
    if entry.file_type is Dir {
        assert(selectable(entry, modes[0]));
    }
    if entry.file_type is File {
        assert(selectable(entry, modes[1]));
    }
}

/// What a `Multiple` admits does not depend on the order of its members, nor
/// on how often a member stands in it.
pub proof fn lemma_multiple_ignores_order(
    entry: EntryView,
    modes: Seq<ModeView>,
    others: Seq<ModeView>,
)
    requires
        forall|mode: ModeView| modes.contains(mode) <==> others.contains(mode),
    ensures
        selectable(entry, ModeView::Multiple(modes)) == selectable(
            entry,
            ModeView::Multiple(others),
        ),
{
    lemma_selectable_multiple(entry, modes);
    lemma_selectable_multiple(entry, others);
    if selectable(entry, ModeView::Multiple(modes)) {
        let i = choose|i: int| 0 <= i < modes.len() && selectable(entry, #[trigger] modes[i]);
        assert(modes.contains(modes[i]));
        let j = choose|j: int| 0 <= j < others.len() && others[j] == modes[i];
        assert(selectable(entry, others[j]));
    }
    if selectable(entry, ModeView::Multiple(others)) {
        let i = choose|i: int| 0 <= i < others.len() && selectable(entry, #[trigger] others[i]);
        assert(others.contains(others[i]));
        let j = choose|j: int| 0 <= j < modes.len() && modes[j] == others[i];
        assert(selectable(entry, modes[j]));
    }
}

/// How an entry is shown in a list: a link with its target, a directory
/// marked as one, any other entry as its bare path.
pub open spec fn display_text(entry: EntryView) -> Seq<char> {
    match entry.symlink_path_opt {
        Some(link) => link + " -> "@ + entry.path,
        None => if entry.file_type is Dir {
            "(dir) "@ + entry.path
        } else {
            entry.path
        },
    }
}

impl FileType {
    /// Whether this is the type of a directory.
    pub fn is_dir(&self) -> (dir: bool)
        ensures
            dir == (*self is Dir),
    {
        matches!(self, FileType::Dir)
    }

    /// Whether this is the type of a regular file.
    pub fn is_file(&self) -> (file: bool)
        ensures
            file == (*self is File),
    {
        matches!(self, FileType::File)
    }
}

impl PathEntry {
    /// Is this path entry selectable based on the given selection mode?
    pub fn is_selectable<'a>(&self, selection_mode: &PathSelectionMode<'a>) -> (admitted: bool)
        ensures
            admitted == selectable(self@, selection_mode@),
        decreases selection_mode,
    {
        match selection_mode {
            PathSelectionMode::Directory => self.is_dir(),
            PathSelectionMode::File(None) => self.is_file(),
            PathSelectionMode::File(Some(wanted)) => {
                if !self.is_file() {
                    return false;
                }
                match extension(self.path.as_str()) {
                    Some(found) => eq_ignore_ascii_case(found, wanted),
                    None => false,
                }
            },
            PathSelectionMode::Multiple(modes) => {
                proof {
                    PathSelectionMode::lemma_view_multiple(*modes);
                }
                let ghost views = selection_mode@->Multiple_0;
                let mut i: usize = 0;
                while i < modes.len()
                    invariant
                        i <= modes.len(),
                        *selection_mode == PathSelectionMode::Multiple(*modes),
                        selection_mode@ == ModeView::Multiple(views),
                        views.len() == modes.len(),
                        forall|j: int| 0 <= j < modes.len() ==> #[trigger] views[j] == modes[j]@,
                        forall|j: int| 0 <= j < i ==> !selectable(self@, #[trigger] views[j]),
                    decreases modes.len() - i,
                {
                    assert(decreases_to!(selection_mode => selection_mode->Multiple_0));
                    assert(decreases_to!(*modes => modes[i as int]));
                    if self.is_selectable(&modes[i]) {
                        proof {
                            assert(selectable(self@, views[i as int]));
                            lemma_selectable_multiple(self@, views);
                        }
                        return true;
                    }
                    i += 1;
                }
                proof {
                    lemma_selectable_multiple(self@, views);
                }
                false
            },
        }
    }

    /// Is this path entry for a symlink?
    pub fn is_symlink(&self) -> (link: bool)
        ensures
            link == (self@.symlink_path_opt is Some),
    {
        self.symlink_path_opt.is_some()
    }

    /// The entry as a list shows it: `link -> target` for a symlink,
    /// `(dir) path` for a directory, the bare path for anything else.
    pub fn to_string(&self) -> (shown: String)
        ensures
            shown@ == display_text(self@),
    {
        proof {
            reveal_strlit(" -> ");
            reveal_strlit("(dir) ");
        }
        match &self.symlink_path_opt {
            Some(link) => {
                let mut shown = link.clone();
                shown.append(" -> ");
                shown.append(self.path.as_str());
                assert(shown@ =~= display_text(self@));
                shown
            },
            None => {
                if self.is_dir() {
                    let mut shown = String::from_str("(dir) ");
                    shown.append(self.path.as_str());
                    assert(shown@ =~= display_text(self@));
                    shown
                } else {
                    self.path.clone()
                }
            },
        }
    }
}

/// What the file system says of a path.
#[derive(Debug)]
pub struct PathProbe {
    /// The path that was looked up.
    pub path: String,
    /// Whether the path itself is a symbolic link.
    pub is_symlink: bool,
    /// The type of the file that the path leads to, links followed; `None`
    /// where the lookup failed.
    pub target_type: Option<FileType>,
    /// For a symbolic link, the canonical path of its target; `None` where
    /// the link could not be resolved. Not read for any other path.
    pub canonical: Option<String>,
}

/// Why a path could not be made into an entry.
#[derive(Clone, Copy, Debug, PartialEq, Eq, Structural)]
pub enum ResolutionError {
    /// The file that the path leads to could not be looked up.
    Metadata,
    /// The symbolic link could not be resolved to a canonical path.
    Canonicalize,
}

/// The entry that comes of a probe, or why none does. The file that the path
/// leads to must have been found; a symbolic link must have been resolved,
/// and its entry then holds the target as its path and the link beside it;
/// any other path is kept as it is.
pub open spec fn resolved(probe: PathProbe) -> Result<PathEntry, ResolutionError> {
    if probe.target_type is None {
        Err(ResolutionError::Metadata)
    } else if !probe.is_symlink {
        Ok(
            PathEntry {
                path: probe.path,
                file_type: probe.target_type->0,
                symlink_path_opt: None,
            },
        )
    } else if probe.canonical is None {
        Err(ResolutionError::Canonicalize)
    } else {
        Ok(
            PathEntry {
                path: probe.canonical->0,
                file_type: probe.target_type->0,
                symlink_path_opt: Some(probe.path),
            },
        )
    }
}

impl TryFrom<PathProbe> for PathEntry {
    type Error = ResolutionError;

    fn try_from(probe: PathProbe) -> (entry: Result<Self, ResolutionError>) {
        match probe.target_type {
            None => Err(ResolutionError::Metadata),
            Some(file_type) => {
                if probe.is_symlink {
                    match probe.canonical {
                        Some(target) => Ok(
                            PathEntry {
                                path: target,
                                file_type,
                                symlink_path_opt: Some(probe.path),
                            },
                        ),
                        None => Err(ResolutionError::Canonicalize),
                    }
                } else {
                    Ok(PathEntry { path: probe.path, file_type, symlink_path_opt: None })
                }
            },
        }
    }
}

impl TryFromSpecImpl<PathProbe> for PathEntry {
    open spec fn obeys_try_from_spec() -> bool {
        true
    }

    open spec fn try_from_spec(probe: PathProbe) -> Result<Self, ResolutionError> {
        resolved(probe)
    }
}

/// No entry comes of a path whose target could not be looked up, nor of a
/// symbolic link that could not be resolved; of every other path one does.
pub proof fn lemma_entry_or_error(probe: PathProbe)
    ensures
        probe.target_type is None ==> resolved(probe) == Err::<PathEntry, ResolutionError>(
            ResolutionError::Metadata,
        ),
        probe.target_type is Some && probe.is_symlink && probe.canonical is None ==> resolved(probe)
            == Err::<PathEntry, ResolutionError>(ResolutionError::Canonicalize),
        resolved(probe) is Ok <==> probe.target_type is Some && (probe.is_symlink
            ==> probe.canonical is Some),
{
}

/// The entry made of a symbolic link and the entry made of the link's target
/// itself are equal, though they are shown differently.
pub proof fn lemma_link_equals_target(link: PathProbe, target: PathProbe)
    requires
        link.is_symlink,
        link.target_type is Some,
        link.canonical is Some,
        !target.is_symlink,
        target.target_type is Some,
        target.path@ == link.canonical->0@,
    ensures
        resolved(link) is Ok,
        resolved(target) is Ok,
        equal_entries(resolved(link)->Ok_0@, resolved(target)->Ok_0@),
        display_text(resolved(link)->Ok_0@) != display_text(resolved(target)->Ok_0@),
{
    reveal_strlit(" -> ");
    reveal_strlit("(dir) ");
    let via_link = resolved(link)->Ok_0@;
    let direct = resolved(target)->Ok_0@;
    let shown_link = display_text(via_link);
    let shown_direct = display_text(direct);
    assert(shown_link.len() == link.path@.len() + 4 + direct.path.len());
    if direct.file_type is Dir {
        assert(shown_direct.len() == 6 + direct.path.len());
        if link.path@.len() == 2 {
            assert(shown_link[2] == ' ');
            assert(shown_direct[2] == 'i');
        }
    } else {
        assert(shown_direct.len() == direct.path.len());
    }
}

} // verus!
