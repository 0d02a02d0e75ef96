//! The owner of a native track object, with a safe getter and setter for each tag.

use crate::error::FileError;
use crate::file_type::TrackFileType;
use crate::native::{art_bytes, track_data, Tags};
use crate::text::{c_str_to_str, has_nul, native_text, native_text_or_empty, to_c_string};
use vstd::prelude::*;
use vstd::utf8::*;

verus! {

/// The one owner of a native track object, seen from the safe side: the tags that the
/// open handle holds, which the setters change, and the tags that were read from the
/// file or last handed to `save`.
///
/// The native library does not say whether a save succeeded. That record is what the
/// file holds only on the assumption that it did.
#[derive(Debug)]
pub struct TrackData {
    raw: track_data,
    file: track_data,
}

/// The bytes that the native library keeps of a tag value written to it.
fn tag_bytes(value: &str) -> (bytes: Result<Vec<u8>, FileError>)
    ensures
        bytes is Err <==> has_nul(value@),
        bytes matches Err(e) ==> e is EmbeddedNulError,
        bytes matches Ok(b) ==> b@ == encode_utf8(value@),
{
    match to_c_string(value) {
        Ok(mut c_str) => {
            c_str.pop();
            assert(c_str@ =~= encode_utf8(value@));
            Ok(c_str)
        },
        Err(e) => Err(e),
    }
}

impl TrackData {
    /// The tags that the open handle holds.
    pub closed spec fn tags(&self) -> Tags {
        self.raw@
    }

    /// The tags that were read when the file was opened, or that were last handed to
    /// `save`: what the file holds, on the assumption that the native save succeeded.
    pub closed spec fn stored(&self) -> Tags {
        self.file@
    }

    /// The owner of the native object that was opened on a file with the tags `file`.
    pub fn new(file: track_data) -> (guard: TrackData)
        ensures
            guard.tags() == file@,
            guard.stored() == file@,
    {
        TrackData { raw: file.clone(), file }
    }

    /// Hands the tags that the handle holds to the native save, and records them as
    /// stored. Whether the file was written the native library does not say.
    pub fn save(&mut self)
        ensures
            final(self).stored() == old(self).tags(),
            final(self).tags() == old(self).tags(),
    {
        self.file = self.raw.clone();
    }

    /// A copy of the stored tags: what opening the file again reads, on the assumption
    /// that the native save succeeded.
    pub fn file(&self) -> (file: track_data)
        ensures
            file@ == self.stored(),
    {
        self.file.clone()
    }

    pub fn title(&self) -> (text: String)
        ensures
            text@ == native_text_or_empty(self.tags().title),
    {
        match c_str_to_str(&self.raw.title) {
            Some(text) => text,
            None => String::new(),
        }
    }

    pub fn artist(&self) -> (text: String)
        ensures
            text@ == native_text_or_empty(self.tags().artist),
    {
        match c_str_to_str(&self.raw.artist) {
            Some(text) => text,
            None => String::new(),
        }
    }

    pub fn album(&self) -> (text: String)
        ensures
            text@ == native_text_or_empty(self.tags().album),
    {
        match c_str_to_str(&self.raw.album) {
            Some(text) => text,
            None => String::new(),
        }
    }

    pub fn album_artists(&self) -> (text: String)
        ensures
            text@ == native_text_or_empty(self.tags().album_artists),
    {
        match c_str_to_str(&self.raw.album_artists) {
            Some(text) => text,
            None => String::new(),
        }
    }

    /// The MusicBrainz identifier of the track, where the tags hold one. It is never an
    /// empty text.
    pub fn musicbrainz_track_id(&self) -> (text: Option<String>)
        ensures
            text is Some <==> native_text(self.tags().musicbrainz_track_id) is Some,
            text matches Some(t) ==> native_text(self.tags().musicbrainz_track_id) == Some(t@)
                && t@.len() > 0,
    {
        c_str_to_str(&self.raw.musicbrainz_track_id)
    }

    pub fn year(&self) -> (year: u32)
        ensures
            year == self.tags().year,
    {
        self.raw.year
    }

    pub fn track_number(&self) -> (number: u32)
        ensures
            number == self.tags().track_number,
    {
        self.raw.track_number
    }

    pub fn bitrate(&self) -> (bitrate: i32)
        ensures
            bitrate == self.tags().bitrate,
    {
        self.raw.bitrate
    }

    pub fn disc_number(&self) -> (number: u32)
        ensures
            number == self.tags().disc_number,
    {
        self.raw.disc_number
    }

    pub fn duration(&self) -> (duration: i64)
        ensures
            duration == self.tags().duration,
    {
        self.raw.duration
    }

    pub fn sample_rate(&self) -> (rate: i32)
        ensures
            rate == self.tags().sample_rate,
    {
        self.raw.sample_rate
    }

    /// The format of the file. `Unknown` where the native code stands for no format.
    pub fn file_type(&self) -> (file_type: TrackFileType)
        ensures
            file_type == TrackFileType::spec_from_code(self.tags().file_type),
    {
        TrackFileType::from_code(self.raw.file_type)
    }

    /// Whether the tags declare a front cover.
    pub fn has_front_cover(&self) -> (has: bool)
        ensures
            has == self.tags().has_album_art,
    {
        self.raw.has_album_art
    }

    /// The cover art that the handle holds. Its bytes are empty where the tags declare
    /// no cover.
    pub fn cover_bytes(&self) -> (art: &art_bytes)
        ensures
            art@ == self.tags().album_art,
    {
        &self.raw.album_art
    }

    /// Writes the title to the handle. Fails with `EmbeddedNulError` where the value
    /// holds U+0000, and then changes nothing.
    pub fn set_title(&mut self, title: &str) -> (done: Result<(), FileError>)
        ensures
            done is Err <==> has_nul(title@),
            done matches Err(e) ==> e is EmbeddedNulError && *final(self) == *old(self),
            done is Ok ==> final(self).tags() == (Tags {
                title: Some(encode_utf8(title@)),
                ..old(self).tags()
            }),
            final(self).stored() == old(self).stored(),
    {
        match tag_bytes(title) {
            Ok(bytes) => {
                self.raw.title = Some(bytes);
                Ok(())
            },
            Err(e) => Err(e),
        }
    }

    /// Writes the artist to the handle. Fails with `EmbeddedNulError` where the value
    /// holds U+0000, and then changes nothing.
    pub fn set_artist(&mut self, artist: &str) -> (done: Result<(), FileError>)
        ensures
            done is Err <==> has_nul(artist@),
            done matches Err(e) ==> e is EmbeddedNulError && *final(self) == *old(self),
            done is Ok ==> final(self).tags() == (Tags {
                artist: Some(encode_utf8(artist@)),
                ..old(self).tags()
            }),
            final(self).stored() == old(self).stored(),
    {
        match tag_bytes(artist) {
            Ok(bytes) => {
                self.raw.artist = Some(bytes);
                Ok(())
            },
            Err(e) => Err(e),
        }
    }

    /// Writes the album to the handle. Fails with `EmbeddedNulError` where the value
    /// holds U+0000, and then changes nothing.
    pub fn set_album(&mut self, album: &str) -> (done: Result<(), FileError>)
        ensures
            done is Err <==> has_nul(album@),
            done matches Err(e) ==> e is EmbeddedNulError && *final(self) == *old(self),
            done is Ok ==> final(self).tags() == (Tags {
                album: Some(encode_utf8(album@)),
                ..old(self).tags()
            }),
            final(self).stored() == old(self).stored(),
    {
        match tag_bytes(album) {
            Ok(bytes) => {
                self.raw.album = Some(bytes);
                Ok(())
            },
            Err(e) => Err(e),
        }
    }

    /// Writes the album artists to the handle. Fails with `EmbeddedNulError` where the
    /// value holds U+0000, and then changes nothing.
    pub fn set_album_artists(&mut self, album_artists: &str) -> (done: Result<(), FileError>)
        ensures
            done is Err <==> has_nul(album_artists@),
            done matches Err(e) ==> e is EmbeddedNulError && *final(self) == *old(self),
            done is Ok ==> final(self).tags() == (Tags {
                album_artists: Some(encode_utf8(album_artists@)),
                ..old(self).tags()
            }),
            final(self).stored() == old(self).stored(),
    {
        match tag_bytes(album_artists) {
            Ok(bytes) => {
                self.raw.album_artists = Some(bytes);
                Ok(())
            },
            Err(e) => Err(e),
        }
    }
}

} // verus!
