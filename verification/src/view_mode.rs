use vstd::prelude::*;

verus! {

/// What the image area of the editor shows: the edited image, the whole
/// image for cropping, or the image with one radial mask selected.
#[derive(Debug, Copy, Clone, PartialEq, Eq, Structural)]
pub enum ViewMode {
    Normal,
    Crop,
    Mask(usize),
}

impl ViewMode {
    /// The mode that follows a request for `view_mode`: asking again for the
    /// current mode leaves it and returns to `Normal`.
    pub open spec fn toggled(self, view_mode: ViewMode) -> ViewMode {
        if self == view_mode {
            ViewMode::Normal
        } else {
            view_mode
        }
    }

    pub fn toggle_view_mode(&self, view_mode: ViewMode) -> (result: ViewMode)
        ensures
            result == self.toggled(view_mode),
    {
        if *self == view_mode {
            ViewMode::Normal
        } else {
            view_mode
        }
    }
}

} // verus!

verus! {

/// Asking twice for the same mode from the normal view returns to the
/// normal view, and any request leads either to that mode or to the
/// normal view.
pub proof fn lemma_toggle_twice_from_normal(view_mode: ViewMode)
    ensures
        ViewMode::Normal.toggled(view_mode).toggled(view_mode) == ViewMode::Normal,
        forall|current: ViewMode|
            #[trigger] current.toggled(view_mode) == view_mode || current.toggled(view_mode)
                == ViewMode::Normal,
{
}

} // verus!

verus! {

/// Asking for a mode other than the current one enters it; asking for the
/// current one leaves it for the normal view.
pub proof fn lemma_toggle_enters_or_leaves(current: ViewMode, view_mode: ViewMode)
    ensures
        current != view_mode ==> current.toggled(view_mode) == view_mode,
        current == view_mode ==> current.toggled(view_mode) == ViewMode::Normal,
{
}

} // verus!
