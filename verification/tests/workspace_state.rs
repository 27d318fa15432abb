use photo_editor::ui::message::MouseState;
use photo_editor::update::{
    update_mouse_crop_mode, update_mouse_mask_mode, update_mouse_normal_mode,
    update_mouse_on_image, MouseAction,
};
use photo_editor::update_event::{MouseInput, MousePosition};
use photo_editor::view_mode::ViewMode;
use photo_editor::workspace::workspace::WorkspaceState;

fn position(image_x: i32, image_y: i32, relative_x: i32, relative_y: i32) -> MousePosition {
    MousePosition { image_x, image_y, relative_x, relative_y }
}

#[test]
fn toggle_view_mode_enters_and_leaves() {
    assert_eq!(ViewMode::Normal.toggle_view_mode(ViewMode::Crop), ViewMode::Crop);
    assert_eq!(ViewMode::Crop.toggle_view_mode(ViewMode::Crop), ViewMode::Normal);
    assert_eq!(ViewMode::Mask(1).toggle_view_mode(ViewMode::Mask(2)), ViewMode::Mask(2));
    assert_eq!(ViewMode::Mask(2).toggle_view_mode(ViewMode::Mask(2)), ViewMode::Normal);
}

#[test]
fn new_state_is_normal_and_visible() {
    let state = WorkspaceState::new();
    assert_eq!(state.get_view_mode(), ViewMode::Normal);
    assert!(state.get_parameters_visible());
    assert_eq!(state.get_mouse_state(), MouseState::Up);
    assert!(!state.is_crop_mode());
    assert_eq!(state.get_mask_index(), None);
}

#[test]
fn state_modes_and_toggles() {
    let mut state = WorkspaceState::new();
    state.toggle_view_mode(ViewMode::Crop);
    assert!(state.is_crop_mode());
    state.toggle_view_mode(ViewMode::Crop);
    assert_eq!(state.get_view_mode(), ViewMode::Normal);
    state.edit_mask(3);
    assert_eq!(state.get_mask_index(), Some(3));
    state.leave_mask();
    assert_eq!(state.get_view_mode(), ViewMode::Normal);
    state.toggle_parameters_visibility();
    assert!(!state.get_parameters_visible());
    state.set_mouse_state(MouseState::Down);
    assert_eq!(state.get_mouse_state(), MouseState::Down);
}

#[test]
fn crop_drag_moves_against_mouse() {
    let mut state = WorkspaceState::new();
    state.new_crop_offset_origin(100, 50, Some((400, 300)));
    assert_eq!(state.crop_offset(110, 40), (390, 310));
    state.new_crop_offset_origin(7, 8, None);
    assert_eq!(state.offset_origin_x, 400);
    assert_eq!(state.crop_offset(7, 8), (400, 300));
}

#[test]
fn view_drag_is_clamped() {
    let mut state = WorkspaceState::new();
    state.new_view_offset_origin(0, 0, 10, -10);
    assert_eq!(state.view_offset(-5, 5, 100, 100), (15, -15));
    assert_eq!(state.view_offset(-500, 500, 100, 50), (100, -50));
    assert_eq!(state.view_offset(500, -500, 100, 50), (-100, 50));
    assert_eq!(state.view_offset(3, 3, 0, 0), (0, 0));
}

#[test]
fn mouse_in_normal_mode() {
    let p = position(1, 2, 3, 4);
    assert_eq!(update_mouse_normal_mode(MouseState::Up, MouseInput::RightPress(p)), MouseAction::WhiteBalanceAt(1, 2));
    assert_eq!(update_mouse_normal_mode(MouseState::Up, MouseInput::Scroll), MouseAction::ZoomView);
    assert_eq!(update_mouse_normal_mode(MouseState::Up, MouseInput::Over(p)), MouseAction::Nothing);
    assert_eq!(update_mouse_normal_mode(MouseState::Down, MouseInput::Over(p)), MouseAction::UpdateViewOffset(3, 4));
    assert_eq!(update_mouse_normal_mode(MouseState::Down, MouseInput::Press(p)), MouseAction::NewViewOffsetOrigin(3, 4));
    assert_eq!(update_mouse_normal_mode(MouseState::Down, MouseInput::Release), MouseAction::Nothing);
}

#[test]
fn mouse_in_crop_mode() {
    let p = position(1, 2, 3, 4);
    assert_eq!(update_mouse_crop_mode(MouseState::Down, MouseInput::Over(p)), MouseAction::UpdateCropOffset(1, 2));
    assert_eq!(update_mouse_crop_mode(MouseState::Up, MouseInput::Over(p)), MouseAction::Nothing);
    assert_eq!(update_mouse_crop_mode(MouseState::Down, MouseInput::Press(p)), MouseAction::NewCropOffsetOrigin(1, 2));
    assert_eq!(update_mouse_crop_mode(MouseState::Down, MouseInput::Scroll), MouseAction::Nothing);
    assert_eq!(update_mouse_crop_mode(MouseState::Down, MouseInput::RightPress(p)), MouseAction::Nothing);
}

#[test]
fn mouse_in_mask_mode() {
    let p = position(1, 2, 3, 4);
    assert_eq!(update_mouse_mask_mode(MouseState::Down, MouseInput::Over(p), 5), MouseAction::UpdateMaskSize(5, 1, 2));
    assert_eq!(update_mouse_mask_mode(MouseState::Up, MouseInput::Over(p), 5), MouseAction::Nothing);
    assert_eq!(update_mouse_mask_mode(MouseState::Down, MouseInput::Press(p), 5), MouseAction::UpdateMaskPosition(5, 1, 2));
    assert_eq!(update_mouse_mask_mode(MouseState::Up, MouseInput::Scroll, 5), MouseAction::ZoomView);
    assert_eq!(update_mouse_mask_mode(MouseState::Up, MouseInput::Release, 5), MouseAction::Nothing);
}

#[test]
fn press_then_move_drags_view() {
    let mut state = WorkspaceState::new();
    let p = position(9, 9, 20, 30);
    assert_eq!(update_mouse_on_image(&mut state, MouseInput::Over(p)), MouseAction::Nothing);
    assert_eq!(update_mouse_on_image(&mut state, MouseInput::Press(p)), MouseAction::NewViewOffsetOrigin(20, 30));
    assert_eq!(state.get_mouse_state(), MouseState::Down);
    assert_eq!(update_mouse_on_image(&mut state, MouseInput::Over(p)), MouseAction::UpdateViewOffset(20, 30));
    assert_eq!(update_mouse_on_image(&mut state, MouseInput::Release), MouseAction::Nothing);
    assert_eq!(state.get_mouse_state(), MouseState::Up);
    assert_eq!(update_mouse_on_image(&mut state, MouseInput::Over(p)), MouseAction::Nothing);
}

#[test]
fn mouse_dispatch_follows_view_mode() {
    let mut state = WorkspaceState::new();
    let p = position(5, 6, 7, 8);
    state.toggle_view_mode(ViewMode::Crop);
    assert_eq!(update_mouse_on_image(&mut state, MouseInput::Press(p)), MouseAction::NewCropOffsetOrigin(5, 6));
    state.toggle_view_mode(ViewMode::Mask(2));
    assert_eq!(update_mouse_on_image(&mut state, MouseInput::Over(p)), MouseAction::UpdateMaskSize(2, 5, 6));
}

#[test]
fn toggling_a_mode_twice_returns_to_normal() {
    for mode in [ViewMode::Crop, ViewMode::Mask(0), ViewMode::Mask(5)] {
        assert_eq!(ViewMode::Normal.toggle_view_mode(mode).toggle_view_mode(mode), ViewMode::Normal);
    }
}

#[test]
fn other_photo_drops_a_mask_it_lacks() {
    let mut state = WorkspaceState::new();
    state.edit_mask(2);
    state.set_mouse_state(MouseState::Down);
    let kept = state.for_photo(3);
    assert_eq!(kept.get_view_mode(), ViewMode::Mask(2));
    let dropped = state.for_photo(2);
    assert_eq!(dropped.get_view_mode(), ViewMode::Normal);
    assert_eq!(dropped.get_mouse_state(), MouseState::Down);
    state.toggle_view_mode(ViewMode::Crop);
    assert_eq!(state.for_photo(0).get_view_mode(), ViewMode::Crop);
}
