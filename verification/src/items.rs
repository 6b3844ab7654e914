pub mod action;
pub mod submenu;
pub mod window;
