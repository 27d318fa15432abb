use vstd::prelude::*;

use crate::ui::message::KeyboardMessage;
use crate::update_event::{keyboard_route, AlbumEvent, Route, WorkspaceCommand};

verus! {

/// The named keys the editor answers to; every other named key is `Other`.
#[derive(Debug, Clone, Copy, PartialEq, Eq, Structural)]
pub enum NamedKey {
    ArrowLeft,
    ArrowRight,
    Other,
}

/// Whether two texts are the same.
fn same_text(text: &str, other: &str) -> (result: bool)
    ensures
        result == (text@ == other@),
{
    let a: String = text.to_owned();
    let b: String = other.to_owned();
    a == b
}

/// The message for a key that types `character`, with Control and Shift
/// held or not.
pub open spec fn character_message(character: Seq<char>, control: bool, shift: bool) -> Option<
    KeyboardMessage,
> {
    if control && shift {
        if character == "z"@ {
            Some(KeyboardMessage::Redo)
        } else {
            None
        }
    } else if control {
        if character == "z"@ {
            Some(KeyboardMessage::Undo)
        } else if character == "c"@ {
            Some(KeyboardMessage::Copy)
        } else if character == "v"@ {
            Some(KeyboardMessage::Paste)
        } else {
            None
        }
    } else {
        if character == "d"@ {
            Some(KeyboardMessage::NextImage)
        } else if character == "a"@ {
            Some(KeyboardMessage::PreviousImage)
        } else if character == "q"@ {
            Some(KeyboardMessage::CropRotateLeft)
        } else if character == "e"@ {
            Some(KeyboardMessage::CropRotateRight)
        } else if character == "f"@ {
            Some(KeyboardMessage::ToggleFavorite)
        } else if character == "g"@ {
            Some(KeyboardMessage::ToggleDisplayGrid)
        } else if character == "c"@ {
            Some(KeyboardMessage::ToggleCropMode)
        } else {
            None
        }
    }
}

/// The message for a press of a named key, with Shift held or not.
pub open spec fn named_message(named: NamedKey, shift: bool) -> Option<KeyboardMessage> {
    match named {
        NamedKey::ArrowLeft => if shift {
            Some(KeyboardMessage::DecreaseParameterLarge)
        } else {
            Some(KeyboardMessage::DecreaseParameter)
        },
        NamedKey::ArrowRight => if shift {
            Some(KeyboardMessage::IncreaseParameterLarge)
        } else {
            Some(KeyboardMessage::IncreaseParameter)
        },
        NamedKey::Other => None,
    }
}

/// The editor's shortcut for a key that types `character`: with Control and
/// Shift, redo; with Control, undo, copy and paste; alone, the navigation,
/// crop, favourite and grid keys.
pub fn handle_key_press_character(character: &str, control: bool, shift: bool) -> (result: Option<
    KeyboardMessage,
>)
    ensures
        result == character_message(character@, control, shift),
{
    if control && shift {
        if same_text(character, "z") {
            Some(KeyboardMessage::Redo)
        } else {
            None
        }
    } else if control {
        if same_text(character, "z") {
            Some(KeyboardMessage::Undo)
        } else if same_text(character, "c") {
            Some(KeyboardMessage::Copy)
        } else if same_text(character, "v") {
            Some(KeyboardMessage::Paste)
        } else {
            None
        }
    } else {
        if same_text(character, "d") {
            Some(KeyboardMessage::NextImage)
        } else if same_text(character, "a") {
            Some(KeyboardMessage::PreviousImage)
        } else if same_text(character, "q") {
            Some(KeyboardMessage::CropRotateLeft)
        } else if same_text(character, "e") {
            Some(KeyboardMessage::CropRotateRight)
        } else if same_text(character, "f") {
            Some(KeyboardMessage::ToggleFavorite)
        } else if same_text(character, "g") {
            Some(KeyboardMessage::ToggleDisplayGrid)
        } else if same_text(character, "c") {
            Some(KeyboardMessage::ToggleCropMode)
        } else {
            None
        }
    }
}

/// The editor's shortcut for a named key: the arrows change the last
/// edited value, by a large step with Shift.
pub fn handle_key_press_named(named: NamedKey, shift: bool) -> (result: Option<KeyboardMessage>)
    ensures
        result == named_message(named, shift),
{
    if shift {
        match named {
            NamedKey::ArrowLeft => Some(KeyboardMessage::DecreaseParameterLarge),
            NamedKey::ArrowRight => Some(KeyboardMessage::IncreaseParameterLarge),
            _ => None,
        }
    } else {
        match named {
            NamedKey::ArrowLeft => Some(KeyboardMessage::DecreaseParameter),
            NamedKey::ArrowRight => Some(KeyboardMessage::IncreaseParameter),
            _ => None,
        }
    }
}

} // verus!

verus! {

/// The editing shortcuts end at the command they are known for: Control+Z
/// undoes, Control+Shift+Z redoes, Control+C copies and Control+V pastes
/// the parameters; with Shift as well, only Z does anything.
pub proof fn lemma_control_shortcuts(character: Seq<char>)
    ensures
        character_message("z"@, true, false) matches Some(message) && keyboard_route(message)
            == Route::Workspace(WorkspaceCommand::Undo),
        character_message("z"@, true, true) matches Some(message) && keyboard_route(message)
            == Route::Workspace(WorkspaceCommand::Redo),
        character_message("c"@, true, false) matches Some(message) && keyboard_route(message)
            == Route::Workspace(WorkspaceCommand::Copy),
        character_message("v"@, true, false) matches Some(message) && keyboard_route(message)
            == Route::Workspace(WorkspaceCommand::Paste),
        character != "z"@ ==> character_message(character, true, true) is None,
{
    reveal_strlit("z");
    reveal_strlit("c");
    reveal_strlit("v");
    assert("z"@[0] != "c"@[0]);
    assert("z"@[0] != "v"@[0]);
    assert("c"@[0] != "v"@[0]);
}

/// The plain shortcuts: D and A step forward and back through the album,
/// Q and E turn the crop left and right, F marks a favourite, G toggles the
/// grid and C the crop mode.
pub proof fn lemma_plain_shortcuts()
    ensures
        character_message("d"@, false, false) matches Some(message) && keyboard_route(message)
            == Route::Album(AlbumEvent::NextImage),
        character_message("a"@, false, false) matches Some(message) && keyboard_route(message)
            == Route::Album(AlbumEvent::PreviousImage),
        character_message("q"@, false, false) matches Some(message) && keyboard_route(message)
            == Route::Workspace(WorkspaceCommand::CropRotateLeft),
        character_message("e"@, false, false) matches Some(message) && keyboard_route(message)
            == Route::Workspace(WorkspaceCommand::CropRotateRight),
        character_message("f"@, false, false) matches Some(message) && keyboard_route(message)
            == Route::Workspace(WorkspaceCommand::ToggleFavorite),
        character_message("g"@, false, false) matches Some(message) && keyboard_route(message)
            == Route::Workspace(WorkspaceCommand::ToggleDisplayGrid),
        character_message("c"@, false, false) matches Some(message) && keyboard_route(message)
            == Route::Workspace(WorkspaceCommand::ToggleCropMode),
{
    reveal_strlit("d");
    reveal_strlit("a");
    reveal_strlit("q");
    reveal_strlit("e");
    reveal_strlit("f");
    reveal_strlit("g");
    reveal_strlit("c");
    assert("d"@[0] != "a"@[0] && "d"@[0] != "q"@[0] && "d"@[0] != "e"@[0] && "d"@[0] != "f"@[0] && "d"@[0] != "g"@[0]);
    assert("a"@[0] != "q"@[0] && "a"@[0] != "e"@[0] && "a"@[0] != "f"@[0] && "a"@[0] != "g"@[0]);
    assert("q"@[0] != "e"@[0] && "q"@[0] != "f"@[0] && "q"@[0] != "g"@[0]);
    assert("e"@[0] != "f"@[0] && "e"@[0] != "g"@[0] && "f"@[0] != "g"@[0]);
    assert("c"@[0] != "d"@[0] && "c"@[0] != "a"@[0] && "c"@[0] != "q"@[0] && "c"@[0] != "e"@[0] && "c"@[0] != "f"@[0] && "c"@[0] != "g"@[0]);
}

/// The arrows change the last edited value: left lowers it and right
/// raises it, by a large step with Shift; no other named key does anything.
pub proof fn lemma_arrow_keys(named: NamedKey, shift: bool)
    ensures
        named == NamedKey::ArrowLeft ==> named_message(named, shift) == Some(
            if shift {
                KeyboardMessage::DecreaseParameterLarge
            } else {
                KeyboardMessage::DecreaseParameter
            },
        ),
        named == NamedKey::ArrowRight ==> named_message(named, shift) == Some(
            if shift {
                KeyboardMessage::IncreaseParameterLarge
            } else {
                KeyboardMessage::IncreaseParameter
            },
        ),
        named == NamedKey::Other ==> named_message(named, shift) is None,
{
}

} // verus!
