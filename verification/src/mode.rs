//! What a user may pick.
use vstd::prelude::*;

verus! {

/// Different path selection modes specify what the user can choose.
#[derive(Eq, PartialEq)]
pub enum PathSelectionMode<'a> {
    /// The user may pick a file with the given (optional) extension.
    File(Option<&'a str>),
    /// The user may pick a directory.
    Directory,
    /// The user may pick whatever one of the given modes admits.
    Multiple(Vec<PathSelectionMode<'a>>),
}

/// A selection mode as a mathematical value.
pub enum ModeView {
    /// The regular files, or those with the given extension.
    File(Option<Seq<char>>),
    /// The directories.
    Directory,
    /// Whatever one of the given modes admits.
    Multiple(Seq<ModeView>),
}

/// The mathematical value of a selection mode.
pub open spec fn mode_view(mode: PathSelectionMode) -> ModeView
    decreases mode,
{
    match mode {
        PathSelectionMode::File(Some(extension)) => ModeView::File(Some(extension@)),
        PathSelectionMode::File(None) => ModeView::File(None),
        PathSelectionMode::Directory => ModeView::Directory,
        PathSelectionMode::Multiple(modes) => ModeView::Multiple(
            Seq::new(
                modes@.len(),
                |i: int|
                    if 0 <= i < modes@.len() {
                        mode_view(modes@[i])
                    } else {
                        ModeView::Directory
                    },
            ),
        ),
    }
}

impl<'a> View for PathSelectionMode<'a> {
    type V = ModeView;

    open spec fn view(&self) -> ModeView {
        mode_view(*self)
    }
}

impl<'a> PathSelectionMode<'a> {
    /// The view of a `Multiple` holds the views of its members, in order.
    pub proof fn lemma_view_multiple(modes: Vec<PathSelectionMode<'a>>)
        ensures
            PathSelectionMode::Multiple(modes)@ is Multiple,
            PathSelectionMode::Multiple(modes)@->Multiple_0.len() == modes.len(),
            forall|i: int|
                0 <= i < modes.len() ==> #[trigger] PathSelectionMode::Multiple(
                    modes,
                )@->Multiple_0[i] == modes[i]@,
    {
    }
}

impl<'a> Clone for PathSelectionMode<'a> {
    fn clone(&self) -> (copy: Self)
        ensures
            copy@ == self@,
        decreases self,
    {
        match self {
            PathSelectionMode::File(extension) => PathSelectionMode::File(*extension),
            PathSelectionMode::Directory => PathSelectionMode::Directory,
            PathSelectionMode::Multiple(modes) => {
                let mut copies: Vec<PathSelectionMode<'a>> = Vec::new();
                let mut i: usize = 0;
                while i < modes.len()
                    invariant
                        i <= modes.len(),
                        copies.len() == i,
                        *self == PathSelectionMode::Multiple(*modes),
                        forall|j: int| 0 <= j < i ==> copies[j]@ == modes[j]@,
                    decreases modes.len() - i,
                {
                    assert(decreases_to!(self => self->Multiple_0));
                    assert(decreases_to!(*modes => modes[i as int]));
                    copies.push(modes[i].clone());
                    i += 1;
                }
                assert(self@->Multiple_0 =~= PathSelectionMode::Multiple(copies)@->Multiple_0);
                PathSelectionMode::Multiple(copies)
            },
        }
    }
}

impl<'a> Default for PathSelectionMode<'a> {
    fn default() -> (mode: Self)
        ensures
            mode@ == ModeView::Directory,
    {
        PathSelectionMode::Directory
    }
}

} // verus!
