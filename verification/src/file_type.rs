//! The audio formats that the native library tells apart, and their native codes.

use vstd::prelude::*;

verus! {

/// The audio format of a file, as the native library classifies it.
///
/// FLAC is split by bit depth where the depth is known, and MP3 by bitrate mode.
/// `Unknown` stands for every file that the native library cannot read.
#[allow(clippy::upper_case_acronyms)]
#[derive(Clone, Copy, Debug, PartialEq, Eq, Hash, Structural)]
pub enum TrackFileType {
    FLAC,
    FLAC4,
    FLAC8,
    FLAC16,
    FLAC24,
    FLAC32,
    ALAC,
    MP3CBR,
    MP3VBR,
    AAC,
    Vorbis,
    Opus,
    Wavpack,
    MonkeysAudio,
    Unknown,
}

impl TrackFileType {
    /// The format that a native code stands for, if it stands for any.
    pub open spec fn spec_from_u32(code: u32) -> Option<TrackFileType> {
        if code == 0 {
            Some(TrackFileType::FLAC)
        } else if code == 1 {
            Some(TrackFileType::FLAC4)
        } else if code == 2 {
            Some(TrackFileType::FLAC8)
        } else if code == 3 {
            Some(TrackFileType::FLAC16)
        } else if code == 4 {
            Some(TrackFileType::FLAC24)
        } else if code == 5 {
            Some(TrackFileType::FLAC32)
        } else if code == 6 {
            Some(TrackFileType::ALAC)
        } else if code == 7 {
            Some(TrackFileType::MP3CBR)
        } else if code == 8 {
            Some(TrackFileType::MP3VBR)
        } else if code == 9 {
            Some(TrackFileType::AAC)
        } else if code == 10 {
            Some(TrackFileType::Vorbis)
        } else if code == 11 {
            Some(TrackFileType::Opus)
        } else if code == 12 {
            Some(TrackFileType::Wavpack)
        } else if code == 13 {
            Some(TrackFileType::MonkeysAudio)
        } else if code == 14 {
            Some(TrackFileType::Unknown)
        } else {
            None
        }
    }

    /// The native code of a format.
    pub open spec fn spec_to_u32(self) -> u32 {
        match self {
            TrackFileType::FLAC => 0,
            TrackFileType::FLAC4 => 1,
            TrackFileType::FLAC8 => 2,
            TrackFileType::FLAC16 => 3,
            TrackFileType::FLAC24 => 4,
            TrackFileType::FLAC32 => 5,
            TrackFileType::ALAC => 6,
            TrackFileType::MP3CBR => 7,
            TrackFileType::MP3VBR => 8,
            TrackFileType::AAC => 9,
            TrackFileType::Vorbis => 10,
            TrackFileType::Opus => 11,
            TrackFileType::Wavpack => 12,
            TrackFileType::MonkeysAudio => 13,
            TrackFileType::Unknown => 14,
        }
    }

    /// The format of a file whose native code is `code`: `Unknown` for every code that
    /// stands for no format.
    pub open spec fn spec_from_code(code: i32) -> TrackFileType {
        if code < 0 {
            TrackFileType::Unknown
        } else {
            match Self::spec_from_u32(code as u32) {
                Some(file_type) => file_type,
                None => TrackFileType::Unknown,
            }
        }
    }

    /// Decodes a native code. `None` where the code stands for no format.
    pub fn from_u32(code: u32) -> (file_type: Option<TrackFileType>)
        ensures
            file_type == Self::spec_from_u32(code),
            file_type matches Some(t) ==> t.spec_to_u32() == code,
    {
        match code {
            0 => Some(TrackFileType::FLAC),
            1 => Some(TrackFileType::FLAC4),
            2 => Some(TrackFileType::FLAC8),
            3 => Some(TrackFileType::FLAC16),
            4 => Some(TrackFileType::FLAC24),
            5 => Some(TrackFileType::FLAC32),
            6 => Some(TrackFileType::ALAC),
            7 => Some(TrackFileType::MP3CBR),
            8 => Some(TrackFileType::MP3VBR),
            9 => Some(TrackFileType::AAC),
            10 => Some(TrackFileType::Vorbis),
            11 => Some(TrackFileType::Opus),
            12 => Some(TrackFileType::Wavpack),
            13 => Some(TrackFileType::MonkeysAudio),
            14 => Some(TrackFileType::Unknown),
            _ => None,
        }
    }

    /// The native code of this format. Decoding it gives the format back.
    pub fn to_u32(&self) -> (code: u32)
        ensures
            code == self.spec_to_u32(),
            Self::spec_from_u32(code) == Some(*self),
    {
        match self {
            TrackFileType::FLAC => 0,
            TrackFileType::FLAC4 => 1,
            TrackFileType::FLAC8 => 2,
            TrackFileType::FLAC16 => 3,
            TrackFileType::FLAC24 => 4,
            TrackFileType::FLAC32 => 5,
            TrackFileType::ALAC => 6,
            TrackFileType::MP3CBR => 7,
            TrackFileType::MP3VBR => 8,
            TrackFileType::AAC => 9,
            TrackFileType::Vorbis => 10,
            TrackFileType::Opus => 11,
            TrackFileType::Wavpack => 12,
            TrackFileType::MonkeysAudio => 13,
            TrackFileType::Unknown => 14,
        }
    }

    /// Decodes the code that the native library reports for a file. A code that stands
    /// for no format, a negative one among them, gives `Unknown`: an unreadable file is
    /// an ordinary outcome.
    pub fn from_code(code: i32) -> (file_type: TrackFileType)
        ensures
            file_type == Self::spec_from_code(code),
    {
        if code < 0 {
            TrackFileType::Unknown
        } else {
            match Self::from_u32(code as u32) {
                Some(file_type) => file_type,
                None => TrackFileType::Unknown,
            }
        }
    }
}

} // verus!
