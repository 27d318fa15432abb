use std::sync::Arc;

use photo_editor::types::RawImage;
use photo_editor::update::update_album;
use photo_editor::update_event::AlbumEvent;
use photo_editor::workspace::album::Album;
use photo_editor::workspace::album_image::AlbumImage;

fn images(ids: &[i32]) -> Vec<AlbumImage> {
    ids.iter().map(|id| AlbumImage::new(*id, None)).collect()
}

#[test]
fn new_album_selects_first_photo() {
    let album = Album::new(images(&[4, 8]));
    assert_eq!(album.get_image_index(), 0);
    assert_eq!(album.get_photo_id(), Some(4));
    assert_eq!(album.get_images().len(), 2);
}

#[test]
fn empty_album_has_no_photo() {
    let album = Album::new(Vec::new());
    assert_eq!(album.get_photo_id(), None);
}

#[test]
fn next_and_previous_wrap_around() {
    let mut album = Album::new(images(&[1, 2, 3]));
    album.previous_image();
    assert_eq!(album.get_image_index(), 2);
    album.next_image();
    assert_eq!(album.get_image_index(), 0);
    album.next_image();
    album.next_image();
    assert_eq!(album.get_photo_id(), Some(3));
    album.next_image();
    assert_eq!(album.get_photo_id(), Some(1));
}

#[test]
fn next_then_previous_restores_selection() {
    let mut album = Album::new(images(&[1, 2, 3, 4]));
    album.set_image_index(2);
    album.next_image();
    album.previous_image();
    assert_eq!(album.get_image_index(), 2);
}

#[test]
fn set_image_index_ignores_out_of_range() {
    let mut album = Album::new(images(&[1, 2]));
    album.set_image_index(1);
    assert_eq!(album.get_image_index(), 1);
    album.set_image_index(5);
    assert_eq!(album.get_image_index(), 1);
}

#[test]
fn set_images_keeps_selected_photo() {
    let mut album = Album::new(images(&[1, 3, 5]));
    album.set_image_index(1);
    album.set_images(images(&[0, 1, 3, 7]));
    assert_eq!(album.get_photo_id(), Some(3));
    assert_eq!(album.get_image_index(), 2);
}

#[test]
fn set_images_moves_to_next_id_when_selected_photo_is_gone() {
    let mut album = Album::new(images(&[1, 3, 5]));
    album.set_image_index(1);
    album.set_images(images(&[1, 5, 9]));
    assert_eq!(album.get_photo_id(), Some(5));
}

#[test]
fn set_images_falls_back_to_last_photo() {
    let mut album = Album::new(images(&[1, 3, 9]));
    album.set_image_index(2);
    album.set_images(images(&[2, 4]));
    assert_eq!(album.get_photo_id(), Some(4));
}

#[test]
fn set_images_on_empty_album_uses_id_zero() {
    let mut album = Album::new(Vec::new());
    album.set_images(images(&[-3, 0, 2]));
    assert_eq!(album.get_photo_id(), Some(0));
    album.set_images(Vec::new());
    assert_eq!(album.get_image_index(), 0);
    assert_eq!(album.get_photo_id(), None);
}

#[test]
fn album_image_keeps_thumbnail() {
    let thumbnail = Arc::new(RawImage { width: 1, height: 1, pixels: vec![1, 2, 3, 255] });
    let image = AlbumImage::new(12, Some(thumbnail.clone()));
    assert_eq!(image.photo_id, 12);
    assert!(Arc::ptr_eq(image.thumbnail.as_ref().unwrap(), &thumbnail));
}

#[test]
fn update_album_follows_events() {
    let mut album = Album::new(images(&[1, 2, 3]));
    update_album(&mut album, AlbumEvent::PreviousImage);
    assert_eq!(album.get_image_index(), 2);
    update_album(&mut album, AlbumEvent::NextImage);
    assert_eq!(album.get_image_index(), 0);
    update_album(&mut album, AlbumEvent::SetImage(1));
    assert_eq!(album.get_image_index(), 1);
    update_album(&mut album, AlbumEvent::SetImage(3));
    assert_eq!(album.get_image_index(), 1);
}
