use vstd::prelude::*;

verus! {

/// The pane that invites to load the first photos.
pub struct WelcomePane {}

impl WelcomePane {
    pub fn new() -> (result: Self)
        ensures
            result == (WelcomePane {}),
    {
        Self {}
    }
}

} // verus!
