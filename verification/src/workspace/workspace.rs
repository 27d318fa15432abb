use vstd::prelude::*;

use crate::ui::message::MouseState;
use crate::view_mode::ViewMode;

verus! {

/// The editing state of the open photo that is not part of its parameters:
/// the view mode, whether the edits are shown, and where a drag with the
/// mouse started.
#[derive(Debug, Clone, Copy, PartialEq, Eq, Structural)]
pub struct WorkspaceState {
    pub view_mode: ViewMode,
    pub parameters_visible: bool,
    pub mouse_state: MouseState,
    pub mouse_origin_x: i32,
    pub mouse_origin_y: i32,
    pub offset_origin_x: i32,
    pub offset_origin_y: i32,
}

/// `value` held to the range from `-bound` to `bound`.
pub open spec fn clamp_symmetric(value: int, bound: int) -> int {
    if value < -bound {
        -bound
    } else if value > bound {
        bound
    } else {
        value
    }
}

impl WorkspaceState {
    /// The state of a freshly opened photo: normal view, edits shown, no drag.
    pub fn new() -> (result: Self)
        ensures
            result == (WorkspaceState {
                view_mode: ViewMode::Normal,
                parameters_visible: true,
                mouse_state: MouseState::Up,
                mouse_origin_x: 0,
                mouse_origin_y: 0,
                offset_origin_x: 0,
                offset_origin_y: 0,
            }),
    {
        Self {
            view_mode: ViewMode::Normal,
            parameters_visible: true,
            mouse_state: MouseState::Up,
            mouse_origin_x: 0,
            mouse_origin_y: 0,
            offset_origin_x: 0,
            offset_origin_y: 0,
        }
    }

    pub fn get_mouse_state(&self) -> (result: MouseState)
        ensures
            result == self.mouse_state,
    {
        self.mouse_state
    }

    pub fn set_mouse_state(&mut self, mouse_state: MouseState)
        ensures
            *final(self) == (WorkspaceState { mouse_state, ..*old(self) }),
    {
        self.mouse_state = mouse_state;
    }

    pub fn get_parameters_visible(&self) -> (result: bool)
        ensures
            result == self.parameters_visible,
    {
        self.parameters_visible
    }

    /// Shows the edits if they were hidden, hides them if they were shown.
    pub fn toggle_parameters_visibility(&mut self)
        ensures
            *final(self) == (WorkspaceState {
                parameters_visible: !old(self).parameters_visible,
                ..*old(self)
            }),
    {
        self.parameters_visible = !self.parameters_visible;
    }

    pub fn get_view_mode(&self) -> (result: ViewMode)
        ensures
            result == self.view_mode,
    {
        self.view_mode
    }

    pub fn is_crop_mode(&self) -> (result: bool)
        ensures
            result == (self.view_mode == ViewMode::Crop),
    {
        match self.view_mode {
            ViewMode::Crop => true,
            _ => false,
        }
    }

    /// The mask being edited, if the view is in mask mode.
    pub fn get_mask_index(&self) -> (result: Option<usize>)
        ensures
            result == match self.view_mode {
                ViewMode::Mask(index) => Some(index),
                _ => None,
            },
    {
        if let ViewMode::Mask(index) = self.view_mode {
            Some(index)
        } else {
            None
        }
    }

    /// Enters `view_mode`, or leaves it for the normal view if it is the
    /// current one.
    pub fn toggle_view_mode(&mut self, view_mode: ViewMode)
        ensures
            *final(self) == (WorkspaceState {
                view_mode: old(self).view_mode.toggled(view_mode),
                ..*old(self)
            }),
    {
        self.view_mode = self.view_mode.toggle_view_mode(view_mode);
    }

    /// Edits the mask at `mask_index`, as a newly added mask is.
    pub fn edit_mask(&mut self, mask_index: usize)
        ensures
            *final(self) == (WorkspaceState { view_mode: ViewMode::Mask(mask_index), ..*old(self) }),
    {
        self.view_mode = ViewMode::Mask(mask_index);
    }

    /// Returns to the normal view, as deleting a mask does.
    pub fn leave_mask(&mut self)
        ensures
            *final(self) == (WorkspaceState { view_mode: ViewMode::Normal, ..*old(self) }),
    {
        self.view_mode = ViewMode::Normal;
    }

    /// The state carried over to another photo, which has `mask_count`
    /// radial masks: everything stays, but a mask that the new photo does
    /// not have is no longer edited, so the view returns to normal.
    pub fn for_photo(&self, mask_count: usize) -> (result: Self)
        ensures
            result == (WorkspaceState {
                view_mode: match self.view_mode {
                    ViewMode::Mask(index) => if index < mask_count {
                        self.view_mode
                    } else {
                        ViewMode::Normal
                    },
                    _ => self.view_mode,
                },
                ..*self
            }),
    {
        let view_mode = match self.view_mode {
            ViewMode::Mask(index) => if index < mask_count {
                self.view_mode
            } else {
                ViewMode::Normal
            },
            _ => self.view_mode,
        };
        WorkspaceState { view_mode, ..*self }
    }

    /// Starts dragging the crop at mouse (x, y); `crop_center` is the centre
    /// of the crop, if the photo has one.
    pub fn new_crop_offset_origin(&mut self, x: i32, y: i32, crop_center: Option<(i32, i32)>)
        ensures
            *final(self) == (match crop_center {
                Some((center_x, center_y)) => WorkspaceState {
                    mouse_origin_x: x,
                    mouse_origin_y: y,
                    offset_origin_x: center_x,
                    offset_origin_y: center_y,
                    ..*old(self)
                },
                None => WorkspaceState { mouse_origin_x: x, mouse_origin_y: y, ..*old(self) },
            }),
    {
        self.mouse_origin_x = x;
        self.mouse_origin_y = y;
        if let Some((center_x, center_y)) = crop_center {
            self.offset_origin_x = center_x;
            self.offset_origin_y = center_y;
        }
    }

    /// The crop centre for the mouse at (x, y) during a drag: the centre at
    /// the start, moved against the mouse.
    pub fn crop_offset(&self, x: i32, y: i32) -> (result: (i32, i32))
        requires
            i32::MIN <= self.mouse_origin_x - x <= i32::MAX,
            i32::MIN <= self.mouse_origin_y - y <= i32::MAX,
            i32::MIN <= self.offset_origin_x + (self.mouse_origin_x - x) <= i32::MAX,
            i32::MIN <= self.offset_origin_y + (self.mouse_origin_y - y) <= i32::MAX,
        ensures
            result.0 == self.offset_origin_x + (self.mouse_origin_x - x),
            result.1 == self.offset_origin_y + (self.mouse_origin_y - y),
    {
        let delta_x: i32 = self.mouse_origin_x - x;
        let delta_y: i32 = self.mouse_origin_y - y;
        let offset_x: i32 = self.offset_origin_x + delta_x;
        let offset_y: i32 = self.offset_origin_y + delta_y;
        (offset_x, offset_y)
    }

    /// Starts dragging the view at mouse (x, y), with the view offset at
    /// (offset_x, offset_y).
    pub fn new_view_offset_origin(&mut self, x: i32, y: i32, offset_x: i32, offset_y: i32)
        ensures
            *final(self) == (WorkspaceState {
                mouse_origin_x: x,
                mouse_origin_y: y,
                offset_origin_x: offset_x,
                offset_origin_y: offset_y,
                ..*old(self)
            }),
    {
        self.mouse_origin_x = x;
        self.mouse_origin_y = y;
        self.offset_origin_x = offset_x;
        self.offset_origin_y = offset_y;
    }

    /// The view offset for the mouse at (x, y) during a drag, held within
    /// half the view's width and height of the centre.
    pub fn view_offset(&self, x: i32, y: i32, half_width: i32, half_height: i32) -> (result: (
        i32,
        i32,
    ))
        requires
            half_width >= 0,
            half_height >= 0,
            i32::MIN <= self.mouse_origin_x - x <= i32::MAX,
            i32::MIN <= self.mouse_origin_y - y <= i32::MAX,
            i32::MIN <= self.offset_origin_x + (self.mouse_origin_x - x) <= i32::MAX,
            i32::MIN <= self.offset_origin_y + (self.mouse_origin_y - y) <= i32::MAX,
        ensures
            result.0 == clamp_symmetric(
                self.offset_origin_x + (self.mouse_origin_x - x),
                half_width as int,
            ),
            result.1 == clamp_symmetric(
                self.offset_origin_y + (self.mouse_origin_y - y),
                half_height as int,
            ),
    {
        let delta_x: i32 = self.mouse_origin_x - x;
        let delta_y: i32 = self.mouse_origin_y - y;
        let offset_x: i32 = clamp_i32(self.offset_origin_x + delta_x, -half_width, half_width);
        let offset_y: i32 = clamp_i32(self.offset_origin_y + delta_y, -half_height, half_height);
        (offset_x, offset_y)
    }
}

/// `value` held between `min` and `max`, as `i32::clamp` does.
fn clamp_i32(value: i32, min: i32, max: i32) -> (result: i32)
    requires
        min <= max,
    ensures
        result == if value < min {
            min
        } else if value > max {
            max
        } else {
            value
        },
{
    if value < min {
        min
    } else if value > max {
        max
    } else {
        value
    }
}

} // verus!

verus! {

/// A value held to the range from `-bound` to `bound` lies in that range,
/// and a value already in it is kept.
pub proof fn lemma_clamp_symmetric_holds(value: int, bound: int)
    requires
        bound >= 0,
    ensures
        -bound <= clamp_symmetric(value, bound) <= bound,
        -bound <= value <= bound ==> clamp_symmetric(value, bound) == value,
        value > bound ==> clamp_symmetric(value, bound) == bound,
        value < -bound ==> clamp_symmetric(value, bound) == -bound,
{
}

} // verus!
