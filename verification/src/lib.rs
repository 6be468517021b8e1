//! Derives audio metadata (artist, title, album, year, track number) from
//! file names, by ordered templates or by one regular expression whose
//! capture groups fill positional tokens, and prepares what is written to a
//! file's tags.

pub mod error;
pub mod metadata;
pub mod text;
pub mod token;
pub mod regex_engine;
pub mod template;
pub mod pattern;
pub mod substitute;
pub mod tags;
pub mod audio_file;
pub mod options;
