use vstd::prelude::*;

verus! {

/// Whether the mouse button is held over the image.
#[derive(Debug, Clone, Copy, PartialEq, Eq, Structural)]
pub enum MouseState {
    Up,
    Down,
}

/// What the buttons below the image ask for.
#[derive(Debug, Clone, PartialEq, Eq, Structural)]
pub enum BottomPaneMessage {
    NextImage,
    PreviousImage,
    ToggleFavorite,
    DeleteImage(i32),
    ResetView,
    ToggleDisplayGrid,
    ToggleParametersVisibility,
}

/// What the buttons above the image ask for.
#[derive(Debug, Clone, PartialEq, Eq, Structural)]
pub enum TopPaneMessage {
    AddImages,
    Export,
    Undo,
    Redo,
    ToggleFilter,
}

/// A click on a thumbnail of the image strip.
#[derive(Debug, Clone, PartialEq, Eq, Structural)]
pub enum ImageSelectionMessage {
    SelectImage(usize),
}

/// What the welcome screen asks for.
#[derive(Debug, Clone, PartialEq, Eq, Structural)]
pub enum WelcomeMessage {
    AddImages,
}

/// What a key press asks for.
#[derive(Debug, Clone, Copy, PartialEq, Eq, Structural)]
pub enum KeyboardMessage {
    NextImage,
    PreviousImage,
    CropRotateLeft,
    CropRotateRight,
    ToggleFavorite,
    ToggleDisplayGrid,
    ToggleCropMode,
    Undo,
    Redo,
    Copy,
    Paste,
    IncreaseParameter,
    DecreaseParameter,
    IncreaseParameterLarge,
    DecreaseParameterLarge,
}

} // verus!
