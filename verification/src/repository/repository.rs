use vstd::prelude::*;

verus! {

/// A stored photo: its id, the file it was loaded from and its parameters
/// as stored text.
#[derive(Debug)]
pub struct AlbumPhoto {
    pub id: i32,
    pub file_name: String,
    pub parameters: String,
}

} // verus!
