pub mod audio_processor;
pub mod channel;
pub mod client;
pub mod discovery;
pub mod gui;
pub mod host;
pub mod main_thread;
pub mod plugin;
pub mod shared;
pub mod timer;
pub mod worker;

pub use client::ClapPlugin;
