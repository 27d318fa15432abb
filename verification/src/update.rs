use vstd::prelude::*;

use crate::ui::message::MouseState;
use crate::update_event::{AlbumEvent, MouseInput, MousePosition};
use crate::view_mode::ViewMode;
use crate::workspace::album::Album;
use crate::workspace::workspace::WorkspaceState;

verus! {

/// The edit that a mouse event over the image asks of the open photo.
#[derive(Debug, Clone, Copy, PartialEq, Eq, Structural)]
pub enum MouseAction {
    Nothing,
    /// Neutralise the colour cast at this image position.
    WhiteBalanceAt(i32, i32),
    /// Zoom the view by the distance the scroll covered.
    ZoomView,
    /// Move the view while it is dragged to this relative position.
    UpdateViewOffset(i32, i32),
    /// Start dragging the view at this relative position.
    NewViewOffsetOrigin(i32, i32),
    /// Move the crop while it is dragged to this image position.
    UpdateCropOffset(i32, i32),
    /// Start dragging the crop at this image position.
    NewCropOffsetOrigin(i32, i32),
    /// Size the mask at this index by this image position.
    UpdateMaskSize(usize, i32, i32),
    /// Centre the mask at this index on this image position.
    UpdateMaskPosition(usize, i32, i32),
}

/// The mouse state after `input`: a press holds the button, a release lets
/// it go, and other events leave it.
pub open spec fn mouse_state_after(state: MouseState, input: MouseInput) -> MouseState {
    match input {
        MouseInput::Press(_) => MouseState::Down,
        MouseInput::Release => MouseState::Up,
        _ => state,
    }
}

/// In the normal view: a right click sets the white balance, a scroll
/// zooms, a press starts a drag of the view and moving with the button held
/// drags it.
pub open spec fn normal_mode_action(state: MouseState, input: MouseInput) -> MouseAction {
    match input {
        MouseInput::RightPress(p) => MouseAction::WhiteBalanceAt(p.image_x, p.image_y),
        MouseInput::Scroll => MouseAction::ZoomView,
        MouseInput::Over(p) => if state == MouseState::Down {
            MouseAction::UpdateViewOffset(p.relative_x, p.relative_y)
        } else {
            MouseAction::Nothing
        },
        MouseInput::Press(p) => MouseAction::NewViewOffsetOrigin(p.relative_x, p.relative_y),
        MouseInput::Release => MouseAction::Nothing,
    }
}

/// In crop mode: a press starts a drag of the crop and moving with the
/// button held drags it. The drag moves the crop centre by the distance the
/// mouse moved since the press (`WorkspaceState::crop_offset`), so the crop
/// does not jump to the mouse when the press is off its centre.
pub open spec fn crop_mode_action(state: MouseState, input: MouseInput) -> MouseAction {
    match input {
        MouseInput::Over(p) => if state == MouseState::Down {
            MouseAction::UpdateCropOffset(p.image_x, p.image_y)
        } else {
            MouseAction::Nothing
        },
        MouseInput::Press(p) => MouseAction::NewCropOffsetOrigin(p.image_x, p.image_y),
        _ => MouseAction::Nothing,
    }
}

/// In mask mode: a press centres the mask, moving with the button held
/// sizes it, and a scroll zooms.
pub open spec fn mask_mode_action(
    state: MouseState,
    input: MouseInput,
    mask_index: usize,
) -> MouseAction {
    match input {
        MouseInput::Over(p) => if state == MouseState::Down {
            MouseAction::UpdateMaskSize(mask_index, p.image_x, p.image_y)
        } else {
            MouseAction::Nothing
        },
        MouseInput::Press(p) => MouseAction::UpdateMaskPosition(mask_index, p.image_x, p.image_y),
        MouseInput::Scroll => MouseAction::ZoomView,
        _ => MouseAction::Nothing,
    }
}

/// The action for `input` in `view_mode`, with the mouse in `state` after it.
pub open spec fn mouse_action(view_mode: ViewMode, state: MouseState, input: MouseInput) -> MouseAction {
    match view_mode {
        ViewMode::Normal => normal_mode_action(state, input),
        ViewMode::Crop => crop_mode_action(state, input),
        ViewMode::Mask(mask_index) => mask_mode_action(state, input, mask_index),
    }
}

/// Takes a mouse event over the image: updates whether the button is held
/// and returns the edit the event asks for in the current view mode.
pub fn update_mouse_on_image(workspace: &mut WorkspaceState, input: MouseInput) -> (result:
    MouseAction)
    ensures
        *final(workspace) == (WorkspaceState {
            mouse_state: mouse_state_after(old(workspace).mouse_state, input),
            ..*old(workspace)
        }),
        result == mouse_action(
            old(workspace).view_mode,
            mouse_state_after(old(workspace).mouse_state, input),
            input,
        ),
{
    match input {
        MouseInput::Press(_) => workspace.set_mouse_state(MouseState::Down),
        MouseInput::Release => workspace.set_mouse_state(MouseState::Up),
        _ => {},
    }
    let state = workspace.get_mouse_state();
    match workspace.get_view_mode() {
        ViewMode::Normal => update_mouse_normal_mode(state, input),
        ViewMode::Crop => update_mouse_crop_mode(state, input),
        ViewMode::Mask(mask_index) => update_mouse_mask_mode(state, input, mask_index),
    }
}

pub fn update_mouse_normal_mode(state: MouseState, input: MouseInput) -> (result: MouseAction)
    ensures
        result == normal_mode_action(state, input),
{
    match input {
        MouseInput::RightPress(p) => MouseAction::WhiteBalanceAt(p.image_x, p.image_y),
        MouseInput::Scroll => MouseAction::ZoomView,
        MouseInput::Over(p) => {
            if state == MouseState::Down {
                MouseAction::UpdateViewOffset(p.relative_x, p.relative_y)
            } else {
                MouseAction::Nothing
            }
        },
        MouseInput::Press(p) => MouseAction::NewViewOffsetOrigin(p.relative_x, p.relative_y),
        MouseInput::Release => MouseAction::Nothing,
    }
}

pub fn update_mouse_crop_mode(state: MouseState, input: MouseInput) -> (result: MouseAction)
    ensures
        result == crop_mode_action(state, input),
{
    match input {
        MouseInput::Over(p) => {
            if state == MouseState::Down {
                MouseAction::UpdateCropOffset(p.image_x, p.image_y)
            } else {
                MouseAction::Nothing
            }
        },
        MouseInput::Press(p) => MouseAction::NewCropOffsetOrigin(p.image_x, p.image_y),
        _ => MouseAction::Nothing,
    }
}

pub fn update_mouse_mask_mode(state: MouseState, input: MouseInput, mask_index: usize) -> (result:
    MouseAction)
    ensures
        result == mask_mode_action(state, input, mask_index),
{
    match input {
        MouseInput::Over(p) => {
            if state == MouseState::Down {
                MouseAction::UpdateMaskSize(mask_index, p.image_x, p.image_y)
            } else {
                MouseAction::Nothing
            }
        },
        MouseInput::Press(p) => MouseAction::UpdateMaskPosition(mask_index, p.image_x, p.image_y),
        MouseInput::Scroll => MouseAction::ZoomView,
        _ => MouseAction::Nothing,
    }
}

/// Changes the selected photo of `album` as `event` asks. Stepping needs at
/// least one photo.
pub fn update_album(album: &mut Album, event: AlbumEvent)
    requires
        (event == AlbumEvent::NextImage || event == AlbumEvent::PreviousImage) ==> old(
            album,
        ).images_spec().len() > 0,
    ensures
        final(album).well_formed(),
        final(album).images_spec() == old(album).images_spec(),
        final(album).index_spec() == match event {
            AlbumEvent::NextImage => crate::workspace::album::next_index(
                old(album).images_spec().len() as int,
                old(album).index_spec(),
            ),
            AlbumEvent::PreviousImage => crate::workspace::album::previous_index(
                old(album).images_spec().len() as int,
                old(album).index_spec(),
            ),
            AlbumEvent::SetImage(index) => if index < old(album).images_spec().len() {
                index as int
            } else {
                old(album).index_spec()
            },
        },
{
    match event {
        AlbumEvent::NextImage => album.next_image(),
        AlbumEvent::PreviousImage => album.previous_image(),
        AlbumEvent::SetImage(index) => album.set_image_index(index),
    }
}

} // verus!

verus! {

/// Only a left press holds the button and only a release lets it go: a
/// right click, a move or a scroll leaves the button as it was.
pub proof fn lemma_only_left_press_holds_button(state: MouseState, input: MouseInput)
    ensures
        input is Press ==> mouse_state_after(state, input) == MouseState::Down,
        input is Release ==> mouse_state_after(state, input) == MouseState::Up,
        !(input is Press) && !(input is Release) ==> mouse_state_after(state, input) == state,
{
}

/// Moving the mouse edits nothing unless the button is held, whatever the
/// view mode; so after a right click (which does not hold the button) a
/// move does nothing.
pub proof fn lemma_moves_act_only_while_held(
    view_mode: ViewMode,
    state: MouseState,
    position: MousePosition,
)
    ensures
        mouse_action(view_mode, MouseState::Up, MouseInput::Over(position)) == MouseAction::Nothing,
        mouse_action(
            view_mode,
            mouse_state_after(MouseState::Up, MouseInput::RightPress(position)),
            MouseInput::Over(position),
        ) == MouseAction::Nothing,
        mouse_action(view_mode, state, MouseInput::Release) == MouseAction::Nothing,
{
}

/// What each view mode does with the mouse: in the normal view a right
/// click sets the white balance at the image point and a press or a held
/// move drags the view by its relative position; in crop mode a press or a
/// held move drags the crop by the image point; in mask mode a press
/// centres the edited mask on the image point and a held move sizes it.
/// Scrolling zooms except in crop mode.
pub proof fn lemma_mouse_actions_by_mode(position: MousePosition, mask_index: usize)
    ensures
        mouse_action(ViewMode::Normal, MouseState::Up, MouseInput::RightPress(position))
            == MouseAction::WhiteBalanceAt(position.image_x, position.image_y),
        mouse_action(ViewMode::Normal, MouseState::Down, MouseInput::Press(position))
            == MouseAction::NewViewOffsetOrigin(position.relative_x, position.relative_y),
        mouse_action(ViewMode::Normal, MouseState::Down, MouseInput::Over(position))
            == MouseAction::UpdateViewOffset(position.relative_x, position.relative_y),
        mouse_action(ViewMode::Normal, MouseState::Up, MouseInput::Scroll) == MouseAction::ZoomView,
        mouse_action(ViewMode::Crop, MouseState::Down, MouseInput::Press(position))
            == MouseAction::NewCropOffsetOrigin(position.image_x, position.image_y),
        mouse_action(ViewMode::Crop, MouseState::Down, MouseInput::Over(position))
            == MouseAction::UpdateCropOffset(position.image_x, position.image_y),
        mouse_action(ViewMode::Crop, MouseState::Up, MouseInput::Scroll) == MouseAction::Nothing,
        mouse_action(ViewMode::Crop, MouseState::Up, MouseInput::RightPress(position))
            == MouseAction::Nothing,
        mouse_action(ViewMode::Mask(mask_index), MouseState::Down, MouseInput::Press(position))
            == MouseAction::UpdateMaskPosition(mask_index, position.image_x, position.image_y),
        mouse_action(ViewMode::Mask(mask_index), MouseState::Down, MouseInput::Over(position))
            == MouseAction::UpdateMaskSize(mask_index, position.image_x, position.image_y),
        mouse_action(ViewMode::Mask(mask_index), MouseState::Up, MouseInput::Scroll)
            == MouseAction::ZoomView,
        mouse_action(ViewMode::Mask(mask_index), MouseState::Up, MouseInput::RightPress(position))
            == MouseAction::Nothing,
{
}

} // verus!
