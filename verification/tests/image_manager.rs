use std::collections::BTreeMap;
use std::path::PathBuf;
use std::sync::Arc;

use photo_editor::types::RawImage;
use photo_editor::workspace::image_manager::{default_crop_center, ImageManager, SourceImage};

fn source(path: &str, favorite: bool, loaded: bool) -> SourceImage<bool, u8> {
    let thumbnail = if loaded {
        Some(Arc::new(RawImage { width: 1, height: 1, pixels: vec![0, 0, 0, 255] }))
    } else {
        None
    };
    SourceImage {
        path: PathBuf::from(path),
        image: thumbnail.clone(),
        thumbnail,
        parameter_history: favorite,
        image_view: 0,
    }
}

fn store() -> ImageManager<bool, u8> {
    let mut photos = BTreeMap::new();
    photos.insert(5, source("e.png", false, true));
    photos.insert(2, source("b.png", true, false));
    photos.insert(9, source("i.jpg", true, true));
    photos.insert(1, source("a.png", false, false));
    ImageManager::new(photos)
}

#[test]
fn paths_without_image_in_id_order() {
    let manager = store();
    let paths = manager.get_paths_without_image();
    let ids: Vec<i32> = paths.iter().map(|p| p.photo_id).collect();
    assert_eq!(ids, vec![1, 2]);
    assert_eq!(paths[0].path, PathBuf::from("a.png"));
    assert_eq!(paths[1].path, PathBuf::from("b.png"));
}

#[test]
fn album_images_all_or_favourites() {
    let mut manager = store();
    let all: Vec<i32> = manager.get_all_album_images(|favorite: &bool| *favorite).iter().map(|i| i.photo_id).collect();
    assert_eq!(all, vec![1, 2, 5, 9]);
    manager.toggle_filter();
    assert!(manager.get_is_filter_active());
    let favourites = manager.get_all_album_images(|favorite: &bool| *favorite);
    let ids: Vec<i32> = favourites.iter().map(|i| i.photo_id).collect();
    assert_eq!(ids, vec![2, 9]);
    let stored = manager.get_source_image(9).unwrap();
    assert!(Arc::ptr_eq(favourites[1].thumbnail.as_ref().unwrap(), stored.thumbnail.as_ref().unwrap()));
    assert!(favourites[0].thumbnail.is_none());
    manager.toggle_filter();
    assert!(!manager.get_is_filter_active());
}

#[test]
fn set_image_loads_known_photo_only() {
    let mut manager = store();
    let image = RawImage { width: 2, height: 1, pixels: vec![1; 8] };
    let thumbnail = RawImage { width: 1, height: 1, pixels: vec![2; 4] };
    assert!(manager.set_image(1, image, thumbnail.clone()));
    let loaded = manager.get_source_image(1).unwrap();
    assert_eq!(loaded.image.as_ref().unwrap().width, 2);
    assert_eq!(loaded.thumbnail.as_ref().unwrap().pixels, vec![2; 4]);
    assert_eq!(loaded.path, PathBuf::from("a.png"));
    assert!(!manager.set_image(4, thumbnail.clone(), thumbnail));
    assert!(manager.get_source_image(4).is_none());
    let ids: Vec<i32> = manager.get_paths_without_image().iter().map(|p| p.photo_id).collect();
    assert_eq!(ids, vec![2]);
}

#[test]
fn delete_removes_photo() {
    let mut manager = store();
    manager.delete_image(5);
    assert!(manager.get_source_image(5).is_none());
    assert_eq!(manager.get_source_images().len(), 3);
    manager.delete_image(42);
    assert_eq!(manager.get_source_images().len(), 3);
}

#[test]
fn refresh_keeps_state_of_remaining_photos() {
    let mut manager = store();
    let mut reloaded = BTreeMap::new();
    reloaded.insert(9, source("other.png", false, false));
    reloaded.insert(12, source("l.png", false, false));
    manager.refresh(reloaded);
    let ids: Vec<i32> = manager.get_source_images().keys().copied().collect();
    assert_eq!(ids, vec![9, 12]);
    let kept = manager.get_source_image(9).unwrap();
    assert_eq!(kept.path, PathBuf::from("i.jpg"));
    assert!(kept.parameter_history);
    assert!(kept.image.is_some());
    assert_eq!(manager.get_source_image(12).unwrap().path, PathBuf::from("l.png"));
}

#[test]
fn default_crop_is_centred() {
    assert_eq!(default_crop_center(640, 480), (320, 240));
    assert_eq!(default_crop_center(7, 5), (3, 2));
    assert_eq!(default_crop_center(0, 1), (0, 0));
}
