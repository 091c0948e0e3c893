pub mod audio;
pub mod color;
pub mod config;
pub mod controller;
pub mod frame_buffer;
pub mod hotkey;
pub mod input;
pub mod key_assign;
pub mod label;
pub mod menu;
pub mod rewinding;
