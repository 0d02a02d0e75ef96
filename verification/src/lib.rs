//! Safe access to the tags of audio files that a native tag library reads and writes.
//!
//! The native library hands out C strings and raw buffers. This crate holds what comes
//! after the copy: the tags of one native track object as plain values, the decoding and
//! encoding of text at that boundary, and the snapshot types built from them.

pub mod cover;
pub mod error;
pub mod file_type;
pub mod guard;
pub mod native;
pub mod path;
pub mod stamp;
pub mod text;
pub mod track;

pub use error::FileError;
pub use file_type::TrackFileType;
pub use guard::TrackData;
pub use native::{art_bytes, track_data};
pub use path::get_path;
pub use stamp::Date;
pub use track::{ReadOnlyTrack, ReadWriteTrack};
