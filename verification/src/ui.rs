pub mod message;
pub mod panes;
pub mod welcome_window;
