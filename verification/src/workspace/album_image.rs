use std::sync::Arc;
use vstd::prelude::*;

use crate::types::RawImage;

verus! {

/// A photo of the album as the image strip shows it: its id and, once it is
/// loaded, its thumbnail.
pub struct AlbumImage {
    pub photo_id: i32,
    pub thumbnail: Option<Arc<RawImage>>,
}

impl AlbumImage {
    pub fn new(photo_id: i32, thumbnail: Option<Arc<RawImage>>) -> (result: Self)
        ensures
            result.photo_id == photo_id,
            result.thumbnail == thumbnail,
    {
        Self { photo_id, thumbnail }
    }
}

} // verus!
