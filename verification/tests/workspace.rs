use photo_editor::album::{Album, AlbumImage};
use photo_editor::types::RawImage;
use photo_editor::workspace::WorkSpace;

fn image(photo_id: i32) -> AlbumImage<i32, u8, (i32, i32)> {
    AlbumImage {
        photo_id,
        source_image: RawImage { width: 1, height: 1, pixels: vec![photo_id as u8, 0, 0, 255] },
        parameters: photo_id * 10,
        image_view: 0,
        crop: (photo_id, photo_id),
        thumbnail: RawImage { width: 1, height: 1, pixels: vec![0, 0, 0, 255] },
    }
}

fn workspace() -> WorkSpace<i32, u8, (i32, i32)> {
    WorkSpace::new(Album { images: vec![image(1), image(2), image(3)] }, 1)
}

#[test]
fn current_accessors_read_open_photo() {
    let workspace = workspace();
    assert_eq!(workspace.album_images().len(), 3);
    assert_eq!(workspace.current_image().photo_id, 2);
    assert_eq!(*workspace.current_parameters(), 20);
    assert_eq!(*workspace.current_crop(), (2, 2));
    assert_eq!(*workspace.current_image_view(), 0);
    assert_eq!(workspace.current_source_image().pixels[0], 2);
}

#[test]
fn mutable_accessors_change_open_photo_only() {
    let mut workspace = workspace();
    *workspace.current_parameters_mut() = 99;
    *workspace.current_image_view_mut() = 7;
    *workspace.current_crop_mut() = (5, 6);
    assert_eq!(*workspace.current_parameters(), 99);
    assert_eq!(*workspace.current_image_view(), 7);
    assert_eq!(*workspace.current_crop(), (5, 6));
    assert_eq!(workspace.album_images()[0].parameters, 10);
    assert_eq!(workspace.album_images()[2].parameters, 30);
}

#[test]
fn image_index_wraps_and_ignores_out_of_range() {
    let mut workspace = workspace();
    workspace.next_image_index();
    assert_eq!(workspace.current_image().photo_id, 3);
    workspace.next_image_index();
    assert_eq!(workspace.current_image().photo_id, 1);
    workspace.set_image_index(2);
    assert_eq!(workspace.current_image().photo_id, 3);
    workspace.set_image_index(3);
    assert_eq!(workspace.current_image().photo_id, 3);
}
