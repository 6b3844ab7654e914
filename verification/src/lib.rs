pub mod cli;
pub mod controller;
pub mod daemon;
pub mod events;
pub mod ipc;
pub mod item;
pub mod items;
pub mod scorer;
