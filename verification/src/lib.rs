//! The logic of the OpenClips game recorder, with its behaviour stated in
//! contracts and proved.

pub mod bootstrap;
pub mod config;
pub mod crash;
pub mod discord;
pub mod encoders;
pub mod engine;
pub mod error;
pub mod games;
pub mod hotkeys;
pub mod i18n;
pub mod instance;
pub mod library;
pub mod linux;
pub mod lists;
pub mod numbers;
pub mod paths;
pub mod pipeline;
pub mod platform;
pub mod playback;
pub mod player;
pub mod settings;
pub mod shell;
pub mod sink;
pub mod startup;
pub mod steam;
pub mod text;
pub mod toast;
pub mod ui;
pub mod updater;
