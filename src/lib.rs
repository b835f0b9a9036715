//! Playback-control core of a local music player: the play queue, the
//! history of superseded tracks, progress counting and the decisions of the
//! background scheduler, over a single audio output.

pub mod device;
pub mod laws;
pub mod library;
pub mod metadata;
pub mod player;
pub mod track;
