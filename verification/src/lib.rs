//! jalwa — the media library, play queue and playback logic of the Jalwa
//! media player.

pub mod text;
pub mod paths;
pub mod errors;
pub mod hardware;
pub mod ids;
pub mod media;
pub mod playlist;
pub mod queue;
pub mod seqs;
pub mod status;
pub mod library;
pub mod recommend;
pub mod smart;
pub mod tui;
pub mod engine;
pub mod gui;
pub mod render;
pub mod insights;
pub mod daimon;
pub mod store;
pub mod m3u;
pub mod scanner;
pub mod art_cache;
pub mod eq;
pub mod wav;
pub mod tools;
pub mod rpc;
