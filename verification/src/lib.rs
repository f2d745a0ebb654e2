//! Cover art and playback duration of parsed audio containers.
//!
//! A container is handed over as plain data: its tag blocks, the position of
//! the primary tag, and the stream duration. From it the library selects the
//! cover picture, labels its image encoding, renders it as a data URL, and
//! rounds the duration to whole seconds. It also holds the protocol by which
//! a byte buffer is materialised as a temporary file, parsed and cleaned up.

pub mod model;
pub mod encoding;
pub mod cover;
pub mod duration;
pub mod adapter;

pub use crate::model::{AudioContainer, ExtractionError, Failure, Picture, StreamDuration, Tag};
pub use crate::cover::{
    cover_art, data_url, decode_data_url, extract_cover_art, first_picture, mime_type_of, select_tag,
};
pub use crate::duration::{get_audio_duration, rounded_seconds};
pub use crate::adapter::{advance, temp_file_name, Action, Event, Extracted, Operation, Stage};
