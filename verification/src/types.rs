//! Core data types.

use vstd::prelude::*;

verus! {

/// Audio format of a stream.
#[derive(Debug, Clone, Copy, PartialEq, Eq, Structural, Hash)]
pub enum AudioFormat {
    Mp3,
    FlacLossless,
    FlacHiRes96,
    FlacHiRes192,
}

impl AudioFormat {
    /// The format identifier Qobuz uses.
    pub open spec fn spec_format_id(self) -> u8 {
        match self {
            AudioFormat::Mp3 => 5,
            AudioFormat::FlacLossless => 6,
            AudioFormat::FlacHiRes96 => 7,
            AudioFormat::FlacHiRes192 => 27,
        }
    }

    /// The format identifier Qobuz uses.
    pub fn format_id(self) -> (id: u8)
        ensures
            id == self.spec_format_id(),
    {
        match self {
            AudioFormat::Mp3 => 5,
            AudioFormat::FlacLossless => 6,
            AudioFormat::FlacHiRes96 => 7,
            AudioFormat::FlacHiRes192 => 27,
        }
    }
}

/// Artist metadata.
#[derive(Debug, Clone, PartialEq)]
pub struct Artist {
    pub id: u64,
    pub name: String,
}

/// Album metadata.
#[derive(Debug, Clone, PartialEq)]
pub struct Album {
    pub id: String,
    pub title: String,
    pub artist: Artist,
    pub image_url: Option<String>,
}

/// Track metadata and streaming information.
#[derive(Debug, Clone, PartialEq)]
pub struct Track {
    pub id: u64,
    pub title: String,
    pub artist: Artist,
    pub album: Album,
    pub duration_ms: u64,
    pub format: Option<AudioFormat>,
    pub file_url: Option<String>,
}

} // verus!
