//! Request handling, configuration and audio framing of the ToSpeak TTS API,
//! with their contracts proved by Verus.

pub mod text;
pub mod wav;
pub mod config;
pub mod error;
pub mod engine;
pub mod api;
