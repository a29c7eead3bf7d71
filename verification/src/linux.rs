//! The Linux side of the capture: processes, displays, sound and the screen.

pub mod audio;
pub mod monitors;
pub mod native;
pub mod portal;
pub mod processes;
pub mod video;
