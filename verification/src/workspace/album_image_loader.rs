use vstd::prelude::*;

verus! {

/// Turns stored photos into album images.
pub struct AlbumImageLoader {}

impl AlbumImageLoader {
    pub fn new() -> (result: Self)
        ensures
            result == (AlbumImageLoader {}),
    {
        Self {}
    }
}

} // verus!
