use vstd::prelude::*;

use crate::types::RawImage;
use crate::ui::message::{
    BottomPaneMessage, ImageSelectionMessage, KeyboardMessage, TopPaneMessage, WelcomeMessage,
};

verus! {

/// Where the mouse is: in the coordinates of the image, and relative to the
/// centre of the current view.
#[derive(Debug, Clone, Copy, PartialEq, Eq, Structural)]
pub struct MousePosition {
    pub image_x: i32,
    pub image_y: i32,
    pub relative_x: i32,
    pub relative_y: i32,
}

/// A mouse event over the image. The distance a scroll covers is not part of
/// it: the editor hands it on unchanged to the zoom it asks for.
#[derive(Debug, Clone, Copy, PartialEq, Eq, Structural)]
pub enum MouseInput {
    Press(MousePosition),
    Release,
    RightPress(MousePosition),
    Over(MousePosition),
    Scroll,
}

/// A request to change which photo of the album is selected.
#[derive(Debug, Clone, PartialEq, Eq, Structural)]
pub enum AlbumEvent {
    NextImage,
    PreviousImage,
    SetImage(usize),
}

/// A request to the store of photos.
#[derive(Debug, Clone)]
pub enum ImageManagerEvent {
    AddImages,
    Save,
    DeleteImage(i32),
    LoadImage(i32, RawImage, RawImage),
    ToggleFilter,
}

} // verus!

verus! {

/// A request to the open photo that carries no value from a slider.
#[derive(Debug, Clone, Copy, PartialEq, Eq, Structural)]
pub enum WorkspaceCommand {
    ToggleCropMode,
    CropRotateLeft,
    CropRotateRight,
    ToggleParametersVisibility,
    ToggleFavorite,
    ExportImage,
    Undo,
    Redo,
    Copy,
    Paste,
    IncreaseParameter,
    DecreaseParameter,
    IncreaseParameterLarge,
    DecreaseParameterLarge,
    ResetView,
    ToggleDisplayGrid,
}

/// Where a message from the buttons, the image strip, the welcome screen
/// or the keyboard goes: to the album, to the store of photos, or to the
/// open photo.
#[derive(Debug, Clone)]
pub enum Route {
    Album(AlbumEvent),
    ImageManager(ImageManagerEvent),
    Workspace(WorkspaceCommand),
}

/// The route of a button below the image.
pub open spec fn bottom_pane_route(message: BottomPaneMessage) -> Route {
    match message {
        BottomPaneMessage::NextImage => Route::Album(AlbumEvent::NextImage),
        BottomPaneMessage::PreviousImage => Route::Album(AlbumEvent::PreviousImage),
        BottomPaneMessage::ToggleFavorite => Route::Workspace(WorkspaceCommand::ToggleFavorite),
        BottomPaneMessage::DeleteImage(photo_id) => Route::ImageManager(
            ImageManagerEvent::DeleteImage(photo_id),
        ),
        BottomPaneMessage::ResetView => Route::Workspace(WorkspaceCommand::ResetView),
        BottomPaneMessage::ToggleDisplayGrid => Route::Workspace(
            WorkspaceCommand::ToggleDisplayGrid,
        ),
        BottomPaneMessage::ToggleParametersVisibility => Route::Workspace(
            WorkspaceCommand::ToggleParametersVisibility,
        ),
    }
}

/// The route of a button above the image.
pub open spec fn top_pane_route(message: TopPaneMessage) -> Route {
    match message {
        TopPaneMessage::AddImages => Route::ImageManager(ImageManagerEvent::AddImages),
        TopPaneMessage::Export => Route::Workspace(WorkspaceCommand::ExportImage),
        TopPaneMessage::Undo => Route::Workspace(WorkspaceCommand::Undo),
        TopPaneMessage::Redo => Route::Workspace(WorkspaceCommand::Redo),
        TopPaneMessage::ToggleFilter => Route::ImageManager(ImageManagerEvent::ToggleFilter),
    }
}

/// The route of a key press.
pub open spec fn keyboard_route(message: KeyboardMessage) -> Route {
    match message {
        KeyboardMessage::NextImage => Route::Album(AlbumEvent::NextImage),
        KeyboardMessage::PreviousImage => Route::Album(AlbumEvent::PreviousImage),
        KeyboardMessage::CropRotateLeft => Route::Workspace(WorkspaceCommand::CropRotateLeft),
        KeyboardMessage::CropRotateRight => Route::Workspace(WorkspaceCommand::CropRotateRight),
        KeyboardMessage::ToggleFavorite => Route::Workspace(WorkspaceCommand::ToggleFavorite),
        KeyboardMessage::ToggleDisplayGrid => Route::Workspace(WorkspaceCommand::ToggleDisplayGrid),
        KeyboardMessage::ToggleCropMode => Route::Workspace(WorkspaceCommand::ToggleCropMode),
        KeyboardMessage::Undo => Route::Workspace(WorkspaceCommand::Undo),
        KeyboardMessage::Redo => Route::Workspace(WorkspaceCommand::Redo),
        KeyboardMessage::Copy => Route::Workspace(WorkspaceCommand::Copy),
        KeyboardMessage::Paste => Route::Workspace(WorkspaceCommand::Paste),
        KeyboardMessage::IncreaseParameter => Route::Workspace(WorkspaceCommand::IncreaseParameter),
        KeyboardMessage::DecreaseParameter => Route::Workspace(WorkspaceCommand::DecreaseParameter),
        KeyboardMessage::IncreaseParameterLarge => Route::Workspace(
            WorkspaceCommand::IncreaseParameterLarge,
        ),
        KeyboardMessage::DecreaseParameterLarge => Route::Workspace(
            WorkspaceCommand::DecreaseParameterLarge,
        ),
    }
}

/// Routes a button below the image.
pub fn route_bottom_pane(message: BottomPaneMessage) -> (result: Route)
    ensures
        result == bottom_pane_route(message),
{
    match message {
        BottomPaneMessage::NextImage => Route::Album(AlbumEvent::NextImage),
        BottomPaneMessage::PreviousImage => Route::Album(AlbumEvent::PreviousImage),
        BottomPaneMessage::ToggleFavorite => Route::Workspace(WorkspaceCommand::ToggleFavorite),
        BottomPaneMessage::DeleteImage(photo_id) => Route::ImageManager(
            ImageManagerEvent::DeleteImage(photo_id),
        ),
        BottomPaneMessage::ResetView => Route::Workspace(WorkspaceCommand::ResetView),
        BottomPaneMessage::ToggleDisplayGrid => Route::Workspace(
            WorkspaceCommand::ToggleDisplayGrid,
        ),
        BottomPaneMessage::ToggleParametersVisibility => Route::Workspace(
            WorkspaceCommand::ToggleParametersVisibility,
        ),
    }
}

/// Routes a button above the image.
pub fn route_top_pane(message: TopPaneMessage) -> (result: Route)
    ensures
        result == top_pane_route(message),
{
    match message {
        TopPaneMessage::AddImages => Route::ImageManager(ImageManagerEvent::AddImages),
        TopPaneMessage::Export => Route::Workspace(WorkspaceCommand::ExportImage),
        TopPaneMessage::Undo => Route::Workspace(WorkspaceCommand::Undo),
        TopPaneMessage::Redo => Route::Workspace(WorkspaceCommand::Redo),
        TopPaneMessage::ToggleFilter => Route::ImageManager(ImageManagerEvent::ToggleFilter),
    }
}

/// Routes a key press.
pub fn route_keyboard(message: KeyboardMessage) -> (result: Route)
    ensures
        result == keyboard_route(message),
{
    match message {
        KeyboardMessage::NextImage => Route::Album(AlbumEvent::NextImage),
        KeyboardMessage::PreviousImage => Route::Album(AlbumEvent::PreviousImage),
        KeyboardMessage::CropRotateLeft => Route::Workspace(WorkspaceCommand::CropRotateLeft),
        KeyboardMessage::CropRotateRight => Route::Workspace(WorkspaceCommand::CropRotateRight),
        KeyboardMessage::ToggleFavorite => Route::Workspace(WorkspaceCommand::ToggleFavorite),
        KeyboardMessage::ToggleDisplayGrid => Route::Workspace(WorkspaceCommand::ToggleDisplayGrid),
        KeyboardMessage::ToggleCropMode => Route::Workspace(WorkspaceCommand::ToggleCropMode),
        KeyboardMessage::Undo => Route::Workspace(WorkspaceCommand::Undo),
        KeyboardMessage::Redo => Route::Workspace(WorkspaceCommand::Redo),
        KeyboardMessage::Copy => Route::Workspace(WorkspaceCommand::Copy),
        KeyboardMessage::Paste => Route::Workspace(WorkspaceCommand::Paste),
        KeyboardMessage::IncreaseParameter => Route::Workspace(WorkspaceCommand::IncreaseParameter),
        KeyboardMessage::DecreaseParameter => Route::Workspace(WorkspaceCommand::DecreaseParameter),
        KeyboardMessage::IncreaseParameterLarge => Route::Workspace(
            WorkspaceCommand::IncreaseParameterLarge,
        ),
        KeyboardMessage::DecreaseParameterLarge => Route::Workspace(
            WorkspaceCommand::DecreaseParameterLarge,
        ),
    }
}

/// Routes a click on a thumbnail: it selects that photo of the album.
pub fn route_image_selection(message: ImageSelectionMessage) -> (result: Route)
    ensures
        result == match message {
            ImageSelectionMessage::SelectImage(index) => Route::Album(AlbumEvent::SetImage(index)),
        },
{
    match message {
        ImageSelectionMessage::SelectImage(index) => Route::Album(AlbumEvent::SetImage(index)),
    }
}

/// Routes the welcome screen's button: it adds photos.
pub fn route_welcome(message: WelcomeMessage) -> (result: Route)
    ensures
        result == match message {
            WelcomeMessage::AddImages => Route::ImageManager(ImageManagerEvent::AddImages),
        },
{
    match message {
        WelcomeMessage::AddImages => Route::ImageManager(ImageManagerEvent::AddImages),
    }
}

} // verus!

verus! {

/// Each button above the image does what it is named for: adding photos
/// and the favourites filter go to the store of photos, export, undo and
/// redo to the open photo as the command of the same name.
pub proof fn lemma_top_pane_routes_by_name()
    ensures
        top_pane_route(TopPaneMessage::AddImages) == Route::ImageManager(ImageManagerEvent::AddImages),
        top_pane_route(TopPaneMessage::ToggleFilter) == Route::ImageManager(
            ImageManagerEvent::ToggleFilter,
        ),
        top_pane_route(TopPaneMessage::Export) == Route::Workspace(WorkspaceCommand::ExportImage),
        top_pane_route(TopPaneMessage::Undo) == Route::Workspace(WorkspaceCommand::Undo),
        top_pane_route(TopPaneMessage::Redo) == Route::Workspace(WorkspaceCommand::Redo),
{
}

/// Each button below the image does what it is named for: the arrows step
/// through the album (right forward, left back), the bin deletes the photo
/// it names, and the other buttons go to the open photo as the command of
/// the same name.
pub proof fn lemma_bottom_pane_routes_by_name(photo_id: i32)
    ensures
        bottom_pane_route(BottomPaneMessage::NextImage) == Route::Album(AlbumEvent::NextImage),
        bottom_pane_route(BottomPaneMessage::PreviousImage) == Route::Album(AlbumEvent::PreviousImage),
        bottom_pane_route(BottomPaneMessage::DeleteImage(photo_id)) == Route::ImageManager(
            ImageManagerEvent::DeleteImage(photo_id),
        ),
        bottom_pane_route(BottomPaneMessage::ToggleFavorite) == Route::Workspace(
            WorkspaceCommand::ToggleFavorite,
        ),
        bottom_pane_route(BottomPaneMessage::ResetView) == Route::Workspace(
            WorkspaceCommand::ResetView,
        ),
        bottom_pane_route(BottomPaneMessage::ToggleDisplayGrid) == Route::Workspace(
            WorkspaceCommand::ToggleDisplayGrid,
        ),
        bottom_pane_route(BottomPaneMessage::ToggleParametersVisibility) == Route::Workspace(
            WorkspaceCommand::ToggleParametersVisibility,
        ),
{
}

/// Each shortcut does what it is named for: the album keys step through
/// the album (next forward, previous back) and every other shortcut goes to
/// the open photo as the command of the same name, so undo undoes and redo
/// redoes.
pub proof fn lemma_keyboard_routes_by_name()
    ensures
        keyboard_route(KeyboardMessage::NextImage) == Route::Album(AlbumEvent::NextImage),
        keyboard_route(KeyboardMessage::PreviousImage) == Route::Album(AlbumEvent::PreviousImage),
        keyboard_route(KeyboardMessage::Undo) == Route::Workspace(WorkspaceCommand::Undo),
        keyboard_route(KeyboardMessage::Redo) == Route::Workspace(WorkspaceCommand::Redo),
        keyboard_route(KeyboardMessage::Copy) == Route::Workspace(WorkspaceCommand::Copy),
        keyboard_route(KeyboardMessage::Paste) == Route::Workspace(WorkspaceCommand::Paste),
        keyboard_route(KeyboardMessage::CropRotateLeft) == Route::Workspace(
            WorkspaceCommand::CropRotateLeft,
        ),
        keyboard_route(KeyboardMessage::CropRotateRight) == Route::Workspace(
            WorkspaceCommand::CropRotateRight,
        ),
        keyboard_route(KeyboardMessage::ToggleFavorite) == Route::Workspace(
            WorkspaceCommand::ToggleFavorite,
        ),
        keyboard_route(KeyboardMessage::ToggleDisplayGrid) == Route::Workspace(
            WorkspaceCommand::ToggleDisplayGrid,
        ),
        keyboard_route(KeyboardMessage::ToggleCropMode) == Route::Workspace(
            WorkspaceCommand::ToggleCropMode,
        ),
        keyboard_route(KeyboardMessage::IncreaseParameter) == Route::Workspace(
            WorkspaceCommand::IncreaseParameter,
        ),
        keyboard_route(KeyboardMessage::DecreaseParameter) == Route::Workspace(
            WorkspaceCommand::DecreaseParameter,
        ),
        keyboard_route(KeyboardMessage::IncreaseParameterLarge) == Route::Workspace(
            WorkspaceCommand::IncreaseParameterLarge,
        ),
        keyboard_route(KeyboardMessage::DecreaseParameterLarge) == Route::Workspace(
            WorkspaceCommand::DecreaseParameterLarge,
        ),
{
}

/// No two different buttons or keys of the same kind lead to the open
/// photo with the same command: each command has one button and one key at
/// most.
pub proof fn lemma_commands_have_one_source(a: KeyboardMessage, b: KeyboardMessage, c: TopPaneMessage, d: TopPaneMessage)
    ensures
        keyboard_route(a) == keyboard_route(b) ==> a == b,
        top_pane_route(c) == top_pane_route(d) ==> c == d,
{
}

} // verus!
