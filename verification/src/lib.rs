//! Event mapping for Kindle input devices: the rules that decide what a
//! button, pad, trigger or keyboard press does, with their contracts.

pub mod text;
pub mod config;
pub mod gesture;
pub mod ini;
pub mod input;
pub mod keys;
pub mod keysym;
pub mod kolayout;
pub mod koreader;
pub mod layout;
pub mod mapper;
pub mod order;
pub mod reload;
pub mod vkeyboard;
pub mod waf;
pub mod worker;
pub mod xkey;
