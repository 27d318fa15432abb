use photo_editor::pipeline::export_image::{export_rgb_bytes, EXPORT_SIZE};
use photo_editor::pipeline::radial_parameter::should_draw_boundary;
use photo_editor::repository::album_repository::{thumbnail_from_columns, AlbumPhotoDto};
use photo_editor::repository::parameter_name::ParameterName;
use photo_editor::repository::repository::AlbumPhoto;
use photo_editor::types::{PixelImage, RawImage};
use photo_editor::view_mode::ViewMode;
use photo_editor::pipeline::viewport::needs_update;
use photo_editor::workspace::image_loader::{convert_to_raw_image, resize_to_thumbnail_size};

#[test]
fn rgb_bytes_inside_and_outside() {
    let image = RawImage {
        width: 2,
        height: 2,
        pixels: vec![1, 2, 3, 255, 4, 5, 6, 255, 7, 8, 9, 255, 10, 11, 12, 255],
    };
    assert_eq!(image.rgb_bytes_at(0, 0), Some((1, 2, 3)));
    assert_eq!(image.rgb_bytes_at(1, 0), Some((4, 5, 6)));
    assert_eq!(image.rgb_bytes_at(0, 1), Some((7, 8, 9)));
    assert_eq!(image.rgb_bytes_at(1, 1), Some((10, 11, 12)));
    assert_eq!(image.rgb_bytes_at(2, 0), None);
    assert_eq!(image.rgb_bytes_at(0, 2), None);
}

#[test]
fn thumbnail_needs_all_three_columns() {
    let image = thumbnail_from_columns(Some(vec![1, 2, 3, 4]), Some(1), Some(1)).unwrap();
    assert_eq!((image.width, image.height, image.pixels), (1, 1, vec![1, 2, 3, 4]));
    assert!(thumbnail_from_columns(None, Some(1), Some(1)).is_none());
    assert!(thumbnail_from_columns(Some(vec![]), None, Some(1)).is_none());
    assert!(thumbnail_from_columns(Some(vec![]), Some(1), None).is_none());
}

#[test]
fn stored_photo_records() {
    let photo = AlbumPhoto { id: 3, file_name: "a.png".to_string(), parameters: "{}".to_string() };
    assert_eq!(photo.id, 3);
    let dto = AlbumPhotoDto { id: 4, file_name: "b.jpg".to_string(), parameters: "{}".to_string(), thumbnail: None };
    assert!(dto.thumbnail.is_none());
}

#[test]
fn setting_name() {
    assert_eq!(ParameterName::LatestExportDir.name(), "LatestExportDir");
}

#[test]
fn boundary_only_for_edited_mask() {
    assert_eq!(should_draw_boundary(2, ViewMode::Mask(2)), 1);
    assert_eq!(should_draw_boundary(1, ViewMode::Mask(2)), 0);
    assert_eq!(should_draw_boundary(0, ViewMode::Normal), 0);
    assert_eq!(should_draw_boundary(0, ViewMode::Crop), 0);
}

#[test]
fn export_keeps_corner_and_drops_alpha() {
    let size = EXPORT_SIZE as usize;
    let mut data = vec![0u32; size * 2];
    data[0] = 0xff332211;
    data[1] = 0x00665544;
    data[2] = 0x00998877;
    data[size] = 0x00cbbaa9;
    data[size + 1] = 0x00fedcba;
    let bytes = export_rgb_bytes(&data, 2, 2);
    assert_eq!(bytes, vec![0x11, 0x22, 0x33, 0x44, 0x55, 0x66, 0xa9, 0xba, 0xcb, 0xba, 0xdc, 0xfe]);
    let one_row = export_rgb_bytes(&data, 1, 1);
    assert_eq!(one_row, vec![0x11, 0x22, 0x33]);
    assert!(export_rgb_bytes(&Vec::new(), 5, 5).is_empty());
}

#[test]
fn small_image_thumbnail_is_a_copy() {
    let image = PixelImage { width: 3, height: 2, pixels: vec![1, 2, 3, 4, 5, 6] };
    let thumbnail = resize_to_thumbnail_size(&image);
    assert_eq!((thumbnail.width, thumbnail.height), (3, 2));
    assert_eq!(thumbnail.pixels, vec![1, 2, 3, 4, 5, 6]);
}

#[test]
fn large_image_thumbnail_samples_every_nth_pixel() {
    let width = 250;
    let height = 310;
    let pixels: Vec<usize> = (0..width * height).collect();
    let image = PixelImage { width, height, pixels };
    let thumbnail = resize_to_thumbnail_size(&image);
    assert_eq!((thumbnail.width, thumbnail.height), (125, 103));
    assert_eq!(thumbnail.pixels.len(), 125 * 103);
    assert_eq!(thumbnail.pixels[0], 0);
    assert_eq!(thumbnail.pixels[1], 2);
    assert_eq!(thumbnail.pixels[125], 3 * width);
    assert_eq!(thumbnail.pixels[125 * 103 - 1], 102 * 3 * width + 124 * 2);
}

#[test]
fn raw_image_has_opaque_alpha() {
    let image = PixelImage { width: 2, height: 1, pixels: vec![(1u8, 2u8, 3u8), (4u8, 5u8, 6u8)] };
    let raw = convert_to_raw_image(&image);
    assert_eq!(raw.width, 2);
    assert_eq!(raw.height, 1);
    assert_eq!(raw.pixels, vec![1, 2, 3, 255, 4, 5, 6, 255]);
    assert_eq!(raw.rgb_bytes_at(1, 0), Some((4, 5, 6)));
}

#[test]
fn pipeline_rebuilt_only_for_another_photo() {
    assert!(needs_update(None, false, 3));
    assert!(!needs_update(None, true, 3));
    assert!(!needs_update(Some(3), true, 3));
    assert!(needs_update(Some(2), true, 3));
    assert!(needs_update(Some(2), false, 3));
}

#[test]
fn export_places_each_corner_pixel_by_row() {
    let size = EXPORT_SIZE as usize;
    let mut data = vec![0u32; size * 3];
    for y in 0..3usize {
        for x in 0..size {
            data[y * size + x] = ((y * 16 + x) as u32) & 0xff;
        }
    }
    let (width, height) = (3usize, 2usize);
    let bytes = export_rgb_bytes(&data, width as u32, height as u32);
    assert_eq!(bytes.len(), 3 * width * height);
    for y in 0..height {
        for x in 0..width {
            assert_eq!(bytes[3 * (y * width + x)], (y * 16 + x) as u8);
            assert_eq!(bytes[3 * (y * width + x) + 1], 0);
        }
    }
}
