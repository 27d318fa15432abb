use vstd::prelude::*;

use super::panes::welcome_pane::WelcomePane;

verus! {

/// The window shown while the album has no photos.
pub struct WelcomeWindow {
    pub welcome_pane: WelcomePane,
}

impl WelcomeWindow {
    pub fn new() -> (result: WelcomeWindow)
        ensures
            result.welcome_pane == (WelcomePane {}),
    {
        let welcome_pane: WelcomePane = WelcomePane::new();
        Self { welcome_pane }
    }
}

} // verus!
