//! Audio device control: the values exchanged with a sound server and the
//! decisions that turn its callbacks into answers.
pub mod controllers;
pub mod device;
pub mod errors;
pub mod operation;
pub mod pulseaudio;
pub mod result_cell;
pub mod server;
pub mod sound_api;
pub mod subscribe;
pub mod volume;
