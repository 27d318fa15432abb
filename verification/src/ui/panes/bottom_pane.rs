use vstd::prelude::*;

verus! {

/// The state the row of buttons below the image is drawn from.
pub struct BottomPane {
    pub photo_id: Option<i32>,
    pub parameters_visible: bool,
    pub is_favorite: bool,
}

impl BottomPane {
    pub fn new(photo_id: Option<i32>, parameters_visible: bool, is_favorite: bool) -> (result:
        Self)
        ensures
            result.photo_id == photo_id,
            result.parameters_visible == parameters_visible,
            result.is_favorite == is_favorite,
    {
        Self { photo_id, parameters_visible, is_favorite }
    }
}

} // verus!
