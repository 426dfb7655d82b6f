//! The options of a path prompt, and what it does by default.
use crate::entry::PathEntry;
use crate::mode::PathSelectionMode;
use crate::path::{file_name, final_segment, lemma_final_segment_is_a_name};
use crate::text::{
    contains, contains_text, join, joined, lemma_joined_in_order, lowercase, to_lowercase, views,
};
use vstd::prelude::*;

verus! {

/// Whether a path counts as hidden: on a Unix system, when its final segment
/// starts with a dot; on any other system, never.
pub open spec fn hidden(path: Seq<char>, unix: bool) -> bool {
    &&& unix
    &&& final_segment(path) matches Some(name)
    &&& name.len() > 0
    &&& name[0] == '.'
}

/// The final segment of a path, or the empty text where it has none.
pub open spec fn final_segment_or_empty(path: Seq<char>) -> Seq<char> {
    match final_segment(path) {
        Some(name) => name,
        None => Seq::empty(),
    }
}

/// Whether a path matches what the user has typed: the lower-case form of its
/// final segment holds the lower-case form of the typed text.
pub open spec fn filter_matches(filter: Seq<char>, path: Seq<char>) -> bool {
    contains_text(lowercase(final_segment_or_empty(path)), lowercase(filter))
}

/// The paths of the entries, in their order.
pub open spec fn entry_paths(entries: Seq<PathEntry>) -> Seq<Seq<char>> {
    Seq::new(entries.len(), |i: int| entries[i].path@)
}

/// How a selection is shown by default: the paths of the selected entries
/// in the order of selection, with a comma and a space between each two.
pub open spec fn formatted(entries: Seq<PathEntry>) -> Seq<char> {
    joined(entry_paths(entries), ", "@)
}

/// Off Unix no path is hidden, whatever its name.
pub proof fn lemma_nothing_hidden_off_unix(path: Seq<char>)
    ensures
        !hidden(path, false),
{
}

/// On Unix a path is hidden just when it has a final segment and that
/// segment starts with a dot.
pub proof fn lemma_hidden_on_unix(path: Seq<char>)
    ensures
        hidden(path, true) <==> final_segment(path) is Some && final_segment(path)->0.first()
            == '.',
{
    lemma_final_segment_is_a_name(path);
}

/// No selection is shown as the empty text, one selection as its path, and
/// two selections as the first path, a comma with a space, and the second
/// path: the order of selection is kept.
pub proof fn lemma_formatted_in_order(first: PathEntry, second: PathEntry)
    ensures
        formatted(Seq::empty()) == Seq::<char>::empty(),
        formatted(seq![first]) == first.path@,
        formatted(seq![first, second]) == first.path@ + ", "@ + second.path@,
{
    lemma_joined_in_order(first.path@, second.path@, ", "@);
    assert(entry_paths(Seq::empty()) =~= Seq::empty());
    assert(entry_paths(seq![first]) =~= seq![first.path@]);
    assert(entry_paths(seq![first, second]) =~= seq![first.path@, second.path@]);
}

/// Why a prompt gave no answer.
#[derive(Debug)]
pub enum PromptError<E> {
    /// The user canceled the prompt.
    OperationCanceled,
    /// The prompt failed for the reason given.
    Failed(E),
}

/// What a prompt that may be skipped returns for the outcome of one that may
/// not: no answer where the user canceled, the outcome itself otherwise.
pub open spec fn skipped<A, E>(outcome: Result<A, PromptError<E>>) -> Result<
    Option<A>,
    PromptError<E>,
> {
    match outcome {
        Ok(answer) => Ok(Some(answer)),
        Err(PromptError::OperationCanceled) => Ok(None),
        Err(PromptError::Failed(reason)) => Err(PromptError::Failed(reason)),
    }
}

/// Turns the outcome of a prompt into that of a prompt that may be skipped:
/// a canceled prompt is no error, it has no answer.
pub fn skippable<A, E>(outcome: Result<A, PromptError<E>>) -> (answer: Result<
    Option<A>,
    PromptError<E>,
>)
    ensures
        answer == skipped(outcome),
{
    match outcome {
        Ok(answer) => Ok(Some(answer)),
        Err(PromptError::OperationCanceled) => Ok(None),
        Err(error) => Err(error),
    }
}

/// Prompt for choosing one or multiple files.
pub struct PathSelect<'a, T> {
    /// Message to be presented to the user.
    pub message: &'a str,
    /// Start path shown to the user.
    pub start_path_opt: Option<T>,
    /// Default selected paths.
    pub default: Option<&'a [T]>,
    /// Help message to be presented to the user.
    pub help_message: Option<&'a str>,
    /// Page size of the options displayed to the user.
    pub page_size: usize,
    /// Whether vim mode is enabled. When enabled, the user can
    /// navigate through the options using hjkl.
    pub vim_mode: bool,
    /// Whether to show hidden files.
    pub show_hidden: bool,
    /// Whether to show symlinks.
    pub show_symlinks: bool,
    /// Whether to allow selecting multiple files.
    pub select_multiple: bool,
    /// The divider to use in the selection list following current-directory entries.
    pub divider: &'a str,
    /// Whether the current filter typed by the user is kept or cleaned after a selection is made.
    pub keep_filter: bool,
    /// The path selection mode determines what the user can select.
    pub selection_mode: PathSelectionMode<'a>,
}

impl<'a, T: Clone> Clone for PathSelect<'a, T> {
    fn clone(&self) -> (copy: Self)
        ensures
            copy.message == self.message,
            copy.start_path_opt is Some <==> self.start_path_opt is Some,
            self.start_path_opt is Some ==> cloned(
                self.start_path_opt->0,
                copy.start_path_opt->0,
            ),
            copy.default == self.default,
            copy.help_message == self.help_message,
            copy.page_size == self.page_size,
            copy.vim_mode == self.vim_mode,
            copy.show_hidden == self.show_hidden,
            copy.show_symlinks == self.show_symlinks,
            copy.select_multiple == self.select_multiple,
            copy.divider == self.divider,
            copy.keep_filter == self.keep_filter,
            copy.selection_mode@ == self.selection_mode@,
    {
        PathSelect {
            message: self.message,
            start_path_opt: self.start_path_opt.clone(),
            default: self.default,
            help_message: self.help_message,
            page_size: self.page_size,
            vim_mode: self.vim_mode,
            show_hidden: self.show_hidden,
            show_symlinks: self.show_symlinks,
            select_multiple: self.select_multiple,
            divider: self.divider,
            keep_filter: self.keep_filter,
            selection_mode: self.selection_mode.clone(),
        }
    }
}

impl<'a, T> PathSelect<'a, T> {
    /// Default page size.
    pub const DEFAULT_PAGE_SIZE: usize = 7;

    /// Default value of vim mode.
    pub const DEFAULT_VIM_MODE: bool = false;

    /// Default value of showing hidden files.
    pub const DEFAULT_SHOW_HIDDEN: bool = false;

    /// Default behavior of keeping or cleaning the current filter value.
    pub const DEFAULT_KEEP_FILTER: bool = true;

    /// Default value of showing symlinks.
    pub const DEFAULT_SHOW_SYMLINKS: bool = false;

    /// Default value of selecting multiple files.
    pub const DEFAULT_SELECT_MULTIPLE: bool = false;

    /// Default help message.
    pub const DEFAULT_HELP_MESSAGE: &'a str =
        "↑↓ to move, space to select one, → to navigate to path, ← to navigate up, shift+→ to select all, shift+← to clear, type to filter";

    /// Default visual divider value.
    pub const DEFAULT_DIVIDER: &'a str = "-----";

    /// Creates a [PathSelect] with the provided message and start path, along
    /// with default configuration values.
    pub fn new(message: &'a str, start_path_opt: Option<T>) -> (prompt: Self)
        ensures
            prompt == (PathSelect {
                message,
                start_path_opt,
                default: None,
                divider: Self::DEFAULT_DIVIDER,
                help_message: Some(Self::DEFAULT_HELP_MESSAGE),
                show_hidden: Self::DEFAULT_SHOW_HIDDEN,
                show_symlinks: Self::DEFAULT_SHOW_SYMLINKS,
                select_multiple: Self::DEFAULT_SELECT_MULTIPLE,
                page_size: Self::DEFAULT_PAGE_SIZE,
                vim_mode: Self::DEFAULT_VIM_MODE,
                keep_filter: Self::DEFAULT_KEEP_FILTER,
                selection_mode: PathSelectionMode::Directory,
            }),
    {
        PathSelect {
            message,
            start_path_opt,
            default: None,
            divider: Self::DEFAULT_DIVIDER,
            help_message: Some(Self::DEFAULT_HELP_MESSAGE),
            show_hidden: Self::DEFAULT_SHOW_HIDDEN,
            show_symlinks: Self::DEFAULT_SHOW_SYMLINKS,
            select_multiple: Self::DEFAULT_SELECT_MULTIPLE,
            page_size: Self::DEFAULT_PAGE_SIZE,
            vim_mode: Self::DEFAULT_VIM_MODE,
            keep_filter: Self::DEFAULT_KEEP_FILTER,
            selection_mode: PathSelectionMode::default(),
        }
    }

    /// Sets the keep filter behavior.
    pub fn with_keep_filter(self, keep_filter: bool) -> (prompt: Self)
        ensures
            prompt == (PathSelect { keep_filter, ..self }),
    {
        PathSelect { keep_filter, ..self }
    }

    /// Sets the select multiple behavior.
    pub fn with_select_multiple(self, select_multiple: bool) -> (prompt: Self)
        ensures
            prompt == (PathSelect { select_multiple, ..self }),
    {
        PathSelect { select_multiple, ..self }
    }

    /// Sets the show hidden behavior.
    pub fn with_show_hidden(self, show_hidden: bool) -> (prompt: Self)
        ensures
            prompt == (PathSelect { show_hidden, ..self }),
    {
        PathSelect { show_hidden, ..self }
    }

    /// Sets the show symlinks behavior.
    pub fn with_show_symlinks(self, show_symlinks: bool) -> (prompt: Self)
        ensures
            prompt == (PathSelect { show_symlinks, ..self }),
    {
        PathSelect { show_symlinks, ..self }
    }

    /// Sets the help message of the prompt.
    pub fn with_help_message(self, message: &'a str) -> (prompt: Self)
        ensures
            prompt == (PathSelect { help_message: Some(message), ..self }),
    {
        PathSelect { help_message: Some(message), ..self }
    }

    /// Removes the set help message.
    pub fn without_help_message(self) -> (prompt: Self)
        ensures
            prompt == (PathSelect { help_message: None, ..self }),
    {
        PathSelect { help_message: None, ..self }
    }

    /// Sets the page size.
    pub fn with_page_size(self, page_size: usize) -> (prompt: Self)
        ensures
            prompt == (PathSelect { page_size, ..self }),
    {
        PathSelect { page_size, ..self }
    }

    /// Enables or disables vim_mode.
    pub fn with_vim_mode(self, vim_mode: bool) -> (prompt: Self)
        ensures
            prompt == (PathSelect { vim_mode, ..self }),
    {
        PathSelect { vim_mode, ..self }
    }

    /// Sets the default selected paths.
    pub fn with_default(self, default: &'a [T]) -> (prompt: Self)
        ensures
            prompt == (PathSelect { default: Some(default), ..self }),
    {
        PathSelect { default: Some(default), ..self }
    }

    /// Sets the divider selected paths.
    pub fn with_divider(self, divider: &'a str) -> (prompt: Self)
        ensures
            prompt == (PathSelect { divider, ..self }),
    {
        PathSelect { divider, ..self }
    }

    /// Sets the default starting paths.
    pub fn with_start_path(self, start_path: T) -> (prompt: Self)
        ensures
            prompt == (PathSelect { start_path_opt: Some(start_path), ..self }),
    {
        PathSelect { start_path_opt: Some(start_path), ..self }
    }

    /// Sets the selection mode for picker behavior.
    pub fn with_selection_mode(self, selection_mode: PathSelectionMode<'a>) -> (prompt: Self)
        ensures
            prompt == (PathSelect { selection_mode, ..self }),
    {
        PathSelect { selection_mode, ..self }
    }

    /// Filter used by default: checks only whether the END component (file
    /// name, directory name) of the path is a match for the filter, whatever
    /// the case of either.
    pub fn default_filter(filter: &str, path: &str) -> (matched: bool)
        ensures
            matched == filter_matches(filter@, path@),
    {
        let filter = to_lowercase(filter);
        let name = match file_name(path) {
            Some(name) => to_lowercase(name),
            None => {
                proof {
                    reveal_strlit("");
                }
                assert(""@ =~= Seq::<char>::empty());
                to_lowercase("")
            },
        };
        contains(name.as_str(), filter.as_str())
    }

    /// Path formatter used by default: the selected paths, in the order of
    /// selection, separated by commas.
    pub fn default_path_formatter(ans: &[&str]) -> (text: String)
        ensures
            text@ == joined(views(ans@), ", "@),
    {
        join(ans, ", ")
    }

    /// Formatter used by default: the paths of the selected entries, in the
    /// order of selection, separated by commas.
    pub fn default_formatter(ans: &[PathEntry]) -> (text: String)
        ensures
            text@ == formatted(ans@),
    {
        let mut paths: Vec<&str> = Vec::new();
        let mut i: usize = 0;
        while i < ans.len()
            invariant
                i <= ans.len(),
                paths.len() == i,
                forall|j: int| 0 <= j < i ==> paths[j]@ == ans[j].path@,
            decreases ans.len() - i,
        {
            paths.push(ans[i].path.as_str());
            i += 1;
        }
        assert(views(paths@) =~= entry_paths(ans@));
        Self::default_path_formatter(paths.as_slice())
    }

    /// Test if a path is hidden file. Only a Unix hides files by their
    /// name, so `unix` says whether the platform is one.
    pub fn is_path_hidden_file(path: &str, unix: bool) -> (is_hidden: bool)
        ensures
            is_hidden == hidden(path@, unix),
    {
        if !unix {
            return false;
        }
        match file_name(path) {
            Some(name) => name.unicode_len() > 0 && name.get_char(0) == '.',
            None => false,
        }
    }
}

} // verus!
