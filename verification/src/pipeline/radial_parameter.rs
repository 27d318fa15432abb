use vstd::prelude::*;

use crate::view_mode::ViewMode;

verus! {

/// Whether the outline of the mask at `index` is drawn (1) or not (0): only
/// the mask being edited shows its outline.
pub fn should_draw_boundary(index: usize, view_mode: ViewMode) -> (result: u32)
    ensures
        result == (if view_mode == ViewMode::Mask(index) {
            1u32
        } else {
            0u32
        }),
{
    match view_mode {
        ViewMode::Mask(mask_index) => {
            if index == mask_index {
                1
            } else {
                0
            }
        },
        _ => 0,
    }
}

} // verus!
