use photo_editor::ui::message::{BottomPaneMessage, ImageSelectionMessage, TopPaneMessage, WelcomeMessage};
use photo_editor::ui::panes::bottom_pane::BottomPane;
use photo_editor::ui::panes::top_pane::TopPane;
use photo_editor::ui::panes::welcome_pane::WelcomePane;
use photo_editor::ui::welcome_window::WelcomeWindow;
use photo_editor::update_event::{ImageManagerEvent, MousePosition};
use photo_editor::workspace::album_image_loader::AlbumImageLoader;

#[test]
fn panes_keep_their_state() {
    let bottom = BottomPane::new(Some(5), false, true);
    assert_eq!((bottom.photo_id, bottom.parameters_visible, bottom.is_favorite), (Some(5), false, true));
    let top = TopPane::new(true);
    assert!(top.is_filter_active);
    let _pane = WelcomePane::new();
    let _window = WelcomeWindow::new();
    let _loader = AlbumImageLoader::new();
}

#[test]
fn messages_compare_by_value() {
    assert_eq!(BottomPaneMessage::DeleteImage(3), BottomPaneMessage::DeleteImage(3));
    assert_ne!(TopPaneMessage::Undo, TopPaneMessage::Redo);
    assert_eq!(ImageSelectionMessage::SelectImage(1), ImageSelectionMessage::SelectImage(1));
    assert_eq!(WelcomeMessage::AddImages, WelcomeMessage::AddImages);
    let position = MousePosition { image_x: 1, image_y: 2, relative_x: 3, relative_y: 4 };
    assert_eq!(position.relative_y, 4);
    assert!(matches!(ImageManagerEvent::DeleteImage(2), ImageManagerEvent::DeleteImage(2)));
}
