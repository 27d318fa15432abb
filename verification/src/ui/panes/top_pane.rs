use vstd::prelude::*;

verus! {

/// The state the row of buttons above the image is drawn from.
pub struct TopPane {
    pub is_filter_active: bool,
}

impl TopPane {
    pub fn new(is_filter_active: bool) -> (result: Self)
        ensures
            result.is_filter_active == is_filter_active,
    {
        Self { is_filter_active }
    }
}

} // verus!
