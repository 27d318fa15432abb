use photo_editor::ui::message::{
    BottomPaneMessage, ImageSelectionMessage, KeyboardMessage, TopPaneMessage, WelcomeMessage,
};
use photo_editor::update_event::{
    route_bottom_pane, route_image_selection, route_keyboard, route_top_pane, route_welcome,
    AlbumEvent, ImageManagerEvent, Route, WorkspaceCommand,
};

#[test]
fn buttons_route_to_album_store_or_photo() {
    assert!(matches!(route_bottom_pane(BottomPaneMessage::NextImage), Route::Album(AlbumEvent::NextImage)));
    assert!(matches!(
        route_bottom_pane(BottomPaneMessage::DeleteImage(7)),
        Route::ImageManager(ImageManagerEvent::DeleteImage(7))
    ));
    assert!(matches!(
        route_bottom_pane(BottomPaneMessage::ToggleParametersVisibility),
        Route::Workspace(WorkspaceCommand::ToggleParametersVisibility)
    ));
    assert!(matches!(route_top_pane(TopPaneMessage::Export), Route::Workspace(WorkspaceCommand::ExportImage)));
    assert!(matches!(
        route_top_pane(TopPaneMessage::ToggleFilter),
        Route::ImageManager(ImageManagerEvent::ToggleFilter)
    ));
    assert!(matches!(
        route_image_selection(ImageSelectionMessage::SelectImage(4)),
        Route::Album(AlbumEvent::SetImage(4))
    ));
    assert!(matches!(route_welcome(WelcomeMessage::AddImages), Route::ImageManager(ImageManagerEvent::AddImages)));
}

#[test]
fn keys_route_to_their_commands() {
    assert!(matches!(route_keyboard(KeyboardMessage::PreviousImage), Route::Album(AlbumEvent::PreviousImage)));
    assert!(matches!(route_keyboard(KeyboardMessage::Paste), Route::Workspace(WorkspaceCommand::Paste)));
    assert!(matches!(
        route_keyboard(KeyboardMessage::DecreaseParameterLarge),
        Route::Workspace(WorkspaceCommand::DecreaseParameterLarge)
    ));
    assert!(matches!(route_keyboard(KeyboardMessage::ToggleCropMode), Route::Workspace(WorkspaceCommand::ToggleCropMode)));
}
