pub mod bottom_pane;
pub mod top_pane;
pub mod welcome_pane;
