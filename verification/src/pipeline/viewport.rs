use vstd::prelude::*;

verus! {

/// Whether the renderer must build its pipeline anew: when the photo it
/// last drew (`stored_photo_id`, if it remembers one) is not `photo_id`, or,
/// remembering none, when it has no pipeline yet.
pub fn needs_update(stored_photo_id: Option<i32>, has_pipeline: bool, photo_id: i32) -> (result:
    bool)
    ensures
        result == match stored_photo_id {
            Some(stored) => stored != photo_id,
            None => !has_pipeline,
        },
{
    match stored_photo_id {
        Some(stored) => stored != photo_id,
        None => !has_pipeline,
    }
}

} // verus!
