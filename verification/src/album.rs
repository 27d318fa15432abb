use vstd::prelude::*;

use crate::types::RawImage;

verus! {

/// A loaded photo: its image and thumbnail, with its parameters, its view
/// and its crop, whose types the caller chooses.
pub struct AlbumImage<P, V, C> {
    pub photo_id: i32,
    pub source_image: RawImage,
    pub parameters: P,
    pub image_view: V,
    pub crop: C,
    pub thumbnail: RawImage,
}

/// The loaded photos, in order.
pub struct Album<P, V, C> {
    pub images: Vec<AlbumImage<P, V, C>>,
}

} // verus!
