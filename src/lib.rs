pub mod location;
pub mod listing;
pub mod app;
pub mod sniff;
pub mod pane;
pub mod browser;
pub mod cwd;
pub mod laws;
