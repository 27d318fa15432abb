use photo_editor::keyboard::{handle_key_press_character, handle_key_press_named, NamedKey};
use photo_editor::ui::message::KeyboardMessage;

#[test]
fn control_shift_z_redoes() {
    assert_eq!(handle_key_press_character("z", true, true), Some(KeyboardMessage::Redo));
    assert_eq!(handle_key_press_character("c", true, true), None);
}

#[test]
fn control_shortcuts() {
    assert_eq!(handle_key_press_character("z", true, false), Some(KeyboardMessage::Undo));
    assert_eq!(handle_key_press_character("c", true, false), Some(KeyboardMessage::Copy));
    assert_eq!(handle_key_press_character("v", true, false), Some(KeyboardMessage::Paste));
    assert_eq!(handle_key_press_character("d", true, false), None);
}

#[test]
fn plain_shortcuts() {
    assert_eq!(handle_key_press_character("d", false, false), Some(KeyboardMessage::NextImage));
    assert_eq!(handle_key_press_character("a", false, false), Some(KeyboardMessage::PreviousImage));
    assert_eq!(handle_key_press_character("q", false, false), Some(KeyboardMessage::CropRotateLeft));
    assert_eq!(handle_key_press_character("e", false, false), Some(KeyboardMessage::CropRotateRight));
    assert_eq!(handle_key_press_character("f", false, false), Some(KeyboardMessage::ToggleFavorite));
    assert_eq!(handle_key_press_character("g", false, false), Some(KeyboardMessage::ToggleDisplayGrid));
    assert_eq!(handle_key_press_character("c", false, false), Some(KeyboardMessage::ToggleCropMode));
    assert_eq!(handle_key_press_character("z", false, true), None);
    assert_eq!(handle_key_press_character("dd", false, false), None);
    assert_eq!(handle_key_press_character("D", false, false), None);
}

#[test]
fn arrow_keys_change_parameter() {
    assert_eq!(handle_key_press_named(NamedKey::ArrowLeft, false), Some(KeyboardMessage::DecreaseParameter));
    assert_eq!(handle_key_press_named(NamedKey::ArrowRight, false), Some(KeyboardMessage::IncreaseParameter));
    assert_eq!(handle_key_press_named(NamedKey::ArrowLeft, true), Some(KeyboardMessage::DecreaseParameterLarge));
    assert_eq!(handle_key_press_named(NamedKey::ArrowRight, true), Some(KeyboardMessage::IncreaseParameterLarge));
    assert_eq!(handle_key_press_named(NamedKey::Other, true), None);
    assert_eq!(handle_key_press_named(NamedKey::Other, false), None);
}
