use vstd::prelude::*;

use crate::types::RawImage;

verus! {

/// A stored photo together with its stored thumbnail, if it has one.
pub struct AlbumPhotoDto {
    pub id: i32,
    pub file_name: String,
    pub parameters: String,
    pub thumbnail: Option<RawImage>,
}

/// The thumbnail stored in the three columns of a photo's row: there is one
/// only when the data, the width and the height are all present.
pub fn thumbnail_from_columns(
    data: Option<Vec<u8>>,
    width: Option<usize>,
    height: Option<usize>,
) -> (result: Option<RawImage>)
    ensures
        result.is_some() <==> (data.is_some() && width.is_some() && height.is_some()),
        result matches Some(image) ==> {
            &&& image.pixels@ == data.unwrap()@
            &&& image.width == width.unwrap()
            &&& image.height == height.unwrap()
        },
{
    match (data, width, height) {
        (Some(data), Some(width), Some(height)) => Some(
            RawImage { pixels: data, width: width, height: height },
        ),
        _ => None,
    }
}

} // verus!
