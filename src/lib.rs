//! Core logic of a desktop music player: the play queue and its cursor,
//! navigation over the track list, the playback worker's state machine,
//! theme selection and the small text helpers the interface needs.
pub mod navigation;
pub mod playlist;
pub mod text;
pub mod theme;
pub mod worker;
