//! Core of a gapless music playback engine: the crossfade state machine, the
//! ring-buffered track sources, the two-source provider that hands one track
//! over to the next, and the decisions of the command controller.

pub mod api;
pub mod commands;
pub mod controller;
pub mod crossfader;
pub mod decoder;
pub mod mixer;
pub mod provider;
pub mod resample;
pub mod scanner;
pub mod source;
