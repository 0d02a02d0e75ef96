//! The snapshot of a file's tags, and the track that can be written to.

use crate::cover::{cover_size, measure, measured, spec_cover_size};
use crate::error::FileError;
use crate::file_type::TrackFileType;
use crate::guard::TrackData;
use crate::native::{track_data, Tags};
use crate::path::{get_path, is_encodable_path};
use crate::stamp::{date_stamp, Date};
use crate::text::{from_utf8, has_nul, native_text, native_text_or_empty, trim, trimmed};
use vstd::prelude::*;
use vstd::slice::slice_to_vec;
use vstd::utf8::*;

verus! {

/// The tags of a file at the time it was opened. Nothing in it refers to the native
/// library, and nothing changes it afterwards.
#[derive(Debug)]
pub struct ReadOnlyTrack {
    pub file_path: String,
    pub file_type: TrackFileType,
    pub title: String,
    pub artist: String,
    pub album: String,
    pub album_artists: String,
    pub year: i32,
    pub track_number: i32,
    pub musicbrainz_track_id: Option<String>,
    /// Whether the tags declare a front cover, readable or not.
    pub has_front_cover: bool,
    /// 0 where there is no cover or its header cannot be read.
    pub front_cover_width: i32,
    /// 0 where there is no cover or its header cannot be read.
    pub front_cover_height: i32,
    pub bitrate: i32,
    pub sample_rate: i32,
    /// A label for where the file came from.
    pub source: String,
    pub disc_number: i32,
    pub duration: i32,
    /// The day on which the snapshot was taken.
    pub updated: String,
    /// The bytes of the cover; empty where there is none.
    pub album_art: Vec<u8>,
}

/// A `ReadOnlyTrack` as mathematical values.
pub struct Snapshot {
    pub file_path: Seq<char>,
    pub file_type: TrackFileType,
    pub title: Seq<char>,
    pub artist: Seq<char>,
    pub album: Seq<char>,
    pub album_artists: Seq<char>,
    pub year: i32,
    pub track_number: i32,
    pub musicbrainz_track_id: Option<Seq<char>>,
    pub has_front_cover: bool,
    pub front_cover_width: i32,
    pub front_cover_height: i32,
    pub bitrate: i32,
    pub sample_rate: i32,
    pub source: Seq<char>,
    pub disc_number: i32,
    pub duration: i32,
    pub updated: Seq<char>,
    pub album_art: Seq<u8>,
}

/// An optional text as a mathematical value.
pub open spec fn text_view(text: Option<String>) -> Option<Seq<char>> {
    match text {
        Some(t) => Some(t@),
        None => None,
    }
}

/// An optional label as a mathematical value.
pub open spec fn label_view(label: Option<&str>) -> Option<Seq<char>> {
    match label {
        Some(l) => Some(l@),
        None => None,
    }
}

impl View for ReadOnlyTrack {
    type V = Snapshot;

    open spec fn view(&self) -> Snapshot {
        Snapshot {
            file_path: self.file_path@,
            file_type: self.file_type,
            title: self.title@,
            artist: self.artist@,
            album: self.album@,
            album_artists: self.album_artists@,
            year: self.year,
            track_number: self.track_number,
            musicbrainz_track_id: text_view(self.musicbrainz_track_id),
            has_front_cover: self.has_front_cover,
            front_cover_width: self.front_cover_width,
            front_cover_height: self.front_cover_height,
            bitrate: self.bitrate,
            sample_rate: self.sample_rate,
            source: self.source@,
            disc_number: self.disc_number,
            duration: self.duration,
            updated: self.updated@,
            album_art: self.album_art@,
        }
    }
}

/// The source label of a snapshot: the given one, or the word `None` where none is given.
pub open spec fn source_label(source: Option<Seq<char>>) -> Seq<char> {
    match source {
        Some(label) => label,
        None => "None"@,
    }
}

/// The snapshot of a file at `path` whose native object holds `tags`, where measuring
/// the cover gave `dimensions` and the day is `updated`.
///
/// Free text is trimmed. Numbers are cut to 32 bits as a cast cuts them. The cover is
/// kept, and counted as present, whether or not it could be measured; without a cover
/// the dimensions are 0 and the bytes empty.
pub open spec fn snapshot_of(
    path: Seq<char>,
    tags: Tags,
    source: Option<Seq<char>>,
    dimensions: Option<(usize, usize)>,
    updated: Seq<char>,
) -> Snapshot {
    Snapshot {
        file_path: path,
        file_type: TrackFileType::spec_from_code(tags.file_type),
        title: trimmed(native_text_or_empty(tags.title)),
        artist: trimmed(native_text_or_empty(tags.artist)),
        album: trimmed(native_text_or_empty(tags.album)),
        album_artists: trimmed(native_text_or_empty(tags.album_artists)),
        year: tags.year as i32,
        track_number: tags.track_number as i32,
        musicbrainz_track_id: native_text(tags.musicbrainz_track_id),
        has_front_cover: tags.has_album_art,
        front_cover_width: if tags.has_album_art {
            spec_cover_size(dimensions).0
        } else {
            0
        },
        front_cover_height: if tags.has_album_art {
            spec_cover_size(dimensions).1
        } else {
            0
        },
        bitrate: tags.bitrate,
        sample_rate: tags.sample_rate,
        source: source_label(source),
        disc_number: tags.disc_number as i32,
        duration: tags.duration as i32,
        updated,
        album_art: if tags.has_album_art {
            tags.album_art
        } else {
            Seq::empty()
        },
    }
}

/// Whether the native library can read a file whose format it reports as `code`.
pub open spec fn is_supported(code: i32) -> bool {
    TrackFileType::spec_from_code(code) != TrackFileType::Unknown
}

impl ReadOnlyTrack {
    /// Builds the snapshot of the file at `path` from its native object, given what
    /// measuring the cover gave, and stamps it with the day `today`.
    ///
    /// Fails with `UnsupportedFormatError`, which carries the path, exactly where the
    /// format is `Unknown`.
    pub fn assemble(
        path: &str,
        track_data: &TrackData,
        source: Option<&str>,
        dimensions: Option<(usize, usize)>,
        today: Date,
    ) -> (track: Result<ReadOnlyTrack, FileError>)
        ensures
            track is Ok <==> is_supported(track_data.tags().file_type),
            track matches Err(e) ==> (e matches FileError::UnsupportedFormatError(p) && p@
                == path@),
            track matches Ok(t) ==> t@ == snapshot_of(
                path@,
                track_data.tags(),
                label_view(source),
                dimensions,
                date_stamp(today),
            ),
    {
        let file_type = track_data.file_type();
        if file_type == TrackFileType::Unknown {
            return Err(FileError::UnsupportedFormatError(path.to_owned()));
        }
        let has_front_cover = track_data.has_front_cover();
        let (front_cover_width, front_cover_height) = if has_front_cover {
            cover_size(dimensions)
        } else {
            (0, 0)
        };
        let album_art = if has_front_cover {
            slice_to_vec(track_data.cover_bytes().data())
        } else {
            Vec::new()
        };
        let source = match source {
            Some(label) => label.to_owned(),
            None => "None".to_owned(),
        };
        Ok(
            ReadOnlyTrack {
                file_path: path.to_owned(),
                file_type,
                title: trim(track_data.title().as_str()),
                artist: trim(track_data.artist().as_str()),
                album: trim(track_data.album().as_str()),
                album_artists: trim(track_data.album_artists().as_str()),
                year: #[verifier::truncate]
                (track_data.year() as i32),
                track_number: #[verifier::truncate]
                (track_data.track_number() as i32),
                musicbrainz_track_id: track_data.musicbrainz_track_id(),
                has_front_cover,
                front_cover_width,
                front_cover_height,
                bitrate: track_data.bitrate(),
                sample_rate: track_data.sample_rate(),
                source,
                disc_number: #[verifier::truncate]
                (track_data.disc_number() as i32),
                duration: #[verifier::truncate]
                (track_data.duration() as i32),
                updated: today.stamp(),
                album_art,
            },
        )
    }

    /// Builds the snapshot of the file at `path` from its native object: measures the
    /// cover where the tags declare one, and stamps the snapshot with the day `today`.
    ///
    /// Fails with `UnsupportedFormatError`, which carries the path, exactly where the
    /// format is `Unknown`; the cover is then not looked at.
    pub fn from_track_data(
        path: &str,
        track_data: &TrackData,
        source: Option<&str>,
        today: Date,
    ) -> (track: Result<ReadOnlyTrack, FileError>)
        ensures
            track is Ok <==> is_supported(track_data.tags().file_type),
            track matches Err(e) ==> (e matches FileError::UnsupportedFormatError(p) && p@
                == path@),
            track matches Ok(t) ==> t@ == snapshot_of(
                path@,
                track_data.tags(),
                label_view(source),
                measured(track_data.tags().album_art),
                date_stamp(today),
            ),
    {
        if track_data.file_type() == TrackFileType::Unknown {
            return Err(FileError::UnsupportedFormatError(path.to_owned()));
        }
        let dimensions = if track_data.has_front_cover() {
            measure(track_data.cover_bytes().data())
        } else {
            None
        };
        Self::assemble(path, track_data, source, dimensions, today)
    }
}

/// What opening the file at `path` on the day `today` gives, where something exists at
/// the path, a C string can carry it and the native object that was created for it holds
/// `tags`.
pub open spec fn opened_as(
    track: Result<ReadOnlyTrack, FileError>,
    path: Seq<u8>,
    tags: Tags,
    source: Option<Seq<char>>,
    today: Date,
) -> bool {
    match track {
        Ok(t) => {
            &&& is_supported(tags.file_type)
            &&& t@.file_type != TrackFileType::Unknown
            &&& t@ == snapshot_of(
                decode_utf8(path),
                tags,
                source,
                measured(tags.album_art),
                date_stamp(today),
            )
        },
        Err(e) => {
            &&& !is_supported(tags.file_type)
            &&& e matches FileError::UnsupportedFormatError(p)
            &&& p@ == decode_utf8(path)
        },
    }
}

impl ReadOnlyTrack {
    /// Opens the file at `path` for reading, on the day `today`. `exists` says whether
    /// anything is at the path, and `native` holds the tags of the native object that was
    /// created for it, `None` where none was created.
    ///
    /// Fails with `FileNotFound` where nothing is at the path, with `PathEncodingError`
    /// where no C string can carry the path, both without a look at `native`, and with
    /// `UnsupportedFormatError` where the native library reports an unknown format.
    /// Every other file opens. For a path that passes `get_path` a native object must
    /// have been created.
    pub fn from_path(
        path: &[u8],
        exists: bool,
        native: Option<track_data>,
        source: Option<&str>,
        today: Date,
    ) -> (track: Result<ReadOnlyTrack, FileError>)
        requires
            exists && is_encodable_path(path@) ==> native is Some,
        ensures
            !exists ==> (track matches Err(e) && e is FileNotFound),
            exists && !is_encodable_path(path@) ==> (track matches Err(e) && e
                is PathEncodingError),
            exists && is_encodable_path(path@) ==> opened_as(
                track,
                path@,
                native.unwrap()@,
                label_view(source),
                today,
            ),
    {
        match get_path(exists, path) {
            Err(e) => Err(e),
            Ok(_) => {
                let text = from_utf8(path).unwrap();
                let track_data = TrackData::new(native.unwrap());
                Self::from_track_data(text, &track_data, source, today)
            },
        }
    }
}

/// The tags of a file at the time it was opened, together with the open native object,
/// through which tags are written and saved.
///
/// The setters write to the native object only: `data` keeps what was read when the
/// file was opened, and shows a change only after the file is opened again.
#[derive(Debug)]
pub struct ReadWriteTrack {
    pub data: ReadOnlyTrack,
    pub track_data: TrackData,
}

impl ReadWriteTrack {
    /// Opens the file at `path` for reading and writing: as `ReadOnlyTrack::from_path`
    /// does, and keeps the native object.
    pub fn from_path(
        path: &[u8],
        exists: bool,
        native: Option<track_data>,
        source: Option<&str>,
        today: Date,
    ) -> (track: Result<ReadWriteTrack, FileError>)
        requires
            exists && is_encodable_path(path@) ==> native is Some,
        ensures
            !exists ==> (track matches Err(e) && e is FileNotFound),
            exists && !is_encodable_path(path@) ==> (track matches Err(e) && e
                is PathEncodingError),
            exists && is_encodable_path(path@) ==> match track {
                Ok(t) => {
                    &&& opened_as(Ok(t.data), path@, native.unwrap()@, label_view(source), today)
                    &&& t.track_data.tags() == native.unwrap()@
                    &&& t.track_data.stored() == native.unwrap()@
                },
                Err(e) => opened_as(Err(e), path@, native.unwrap()@, label_view(source), today),
            },
    {
        match get_path(exists, path) {
            Err(e) => Err(e),
            Ok(_) => {
                let text = from_utf8(path).unwrap();
                let track_data = TrackData::new(native.unwrap());
                match ReadOnlyTrack::from_track_data(text, &track_data, source, today) {
                    Ok(data) => Ok(ReadWriteTrack { data, track_data }),
                    Err(e) => Err(e),
                }
            },
        }
    }

    /// Writes the title to the native object. Fails with `EmbeddedNulError` where the
    /// value holds U+0000, and then changes nothing. `data` is never changed.
    pub fn set_title(&mut self, title: &str) -> (done: Result<(), FileError>)
        ensures
            done is Err <==> has_nul(title@),
            done matches Err(e) ==> e is EmbeddedNulError && *final(self) == *old(self),
            done is Ok ==> final(self).track_data.tags() == (Tags {
                title: Some(encode_utf8(title@)),
                ..old(self).track_data.tags()
            }),
            final(self).track_data.stored() == old(self).track_data.stored(),
            final(self).data == old(self).data,
    {
        self.track_data.set_title(title)
    }

    /// Writes the artist to the native object. Fails with `EmbeddedNulError` where the
    /// value holds U+0000, and then changes nothing. `data` is never changed.
    pub fn set_artist(&mut self, artist: &str) -> (done: Result<(), FileError>)
        ensures
            done is Err <==> has_nul(artist@),
            done matches Err(e) ==> e is EmbeddedNulError && *final(self) == *old(self),
            done is Ok ==> final(self).track_data.tags() == (Tags {
                artist: Some(encode_utf8(artist@)),
                ..old(self).track_data.tags()
            }),
            final(self).track_data.stored() == old(self).track_data.stored(),
            final(self).data == old(self).data,
    {
        self.track_data.set_artist(artist)
    }

    /// Writes the album to the native object. Fails with `EmbeddedNulError` where the
    /// value holds U+0000, and then changes nothing. `data` is never changed.
    pub fn set_album(&mut self, album: &str) -> (done: Result<(), FileError>)
        ensures
            done is Err <==> has_nul(album@),
            done matches Err(e) ==> e is EmbeddedNulError && *final(self) == *old(self),
            done is Ok ==> final(self).track_data.tags() == (Tags {
                album: Some(encode_utf8(album@)),
                ..old(self).track_data.tags()
            }),
            final(self).track_data.stored() == old(self).track_data.stored(),
            final(self).data == old(self).data,
    {
        self.track_data.set_album(album)
    }

    /// Writes the album artists to the native object. Fails with `EmbeddedNulError`
    /// where the value holds U+0000, and then changes nothing. `data` is never changed.
    pub fn set_album_artists(&mut self, album_artists: &str) -> (done: Result<(), FileError>)
        ensures
            done is Err <==> has_nul(album_artists@),
            done matches Err(e) ==> e is EmbeddedNulError && *final(self) == *old(self),
            done is Ok ==> final(self).track_data.tags() == (Tags {
                album_artists: Some(encode_utf8(album_artists@)),
                ..old(self).track_data.tags()
            }),
            final(self).track_data.stored() == old(self).track_data.stored(),
            final(self).data == old(self).data,
    {
        self.track_data.set_album_artists(album_artists)
    }

    /// Hands the tags that the native object holds to the native save, and records
    /// them as stored. `data` is not changed.
    pub fn save(&mut self)
        ensures
            final(self).track_data.stored() == old(self).track_data.tags(),
            final(self).track_data.tags() == old(self).track_data.tags(),
            final(self).data == old(self).data,
    {
        self.track_data.save()
    }
}

/// A cover that the tags declare is present in the snapshot, with its bytes, whether or
/// not it can be measured. Where it cannot, width and height are 0. Where it can, and
/// both are above 0 and within 32 bits, the snapshot has them, above 0.
pub proof fn lemma_declared_cover(
    path: Seq<char>,
    tags: Tags,
    source: Option<Seq<char>>,
    dimensions: Option<(usize, usize)>,
    updated: Seq<char>,
)
    requires
        tags.has_album_art,
    ensures
        ({
            let snapshot = snapshot_of(path, tags, source, dimensions, updated);
            &&& snapshot.has_front_cover
            &&& snapshot.album_art == tags.album_art
            &&& dimensions is None ==> snapshot.front_cover_width == 0
                && snapshot.front_cover_height == 0
            &&& dimensions matches Some((width, height)) ==> (0 < width <= i32::MAX && 0 < height
                <= i32::MAX ==> snapshot.front_cover_width == width && snapshot.front_cover_height
                == height && snapshot.front_cover_width > 0 && snapshot.front_cover_height > 0)
        }),
{
}

/// A title that was written, saved and read again comes back trimmed: where `written`
/// is the native object after `set_title` took `title`, `saved` is it after `save`, and
/// `reopened` is a native object opened on what `saved` has stored, the snapshot of
/// `reopened` has the title `trimmed(title)`.
pub proof fn lemma_title_round_trip(
    before: TrackData,
    written: TrackData,
    saved: TrackData,
    reopened: TrackData,
    title: Seq<char>,
    path: Seq<char>,
    source: Option<Seq<char>>,
    dimensions: Option<(usize, usize)>,
    updated: Seq<char>,
)
    requires
        !has_nul(title),
        written.tags() == (Tags { title: Some(encode_utf8(title)), ..before.tags() }),
        saved.stored() == written.tags(),
        reopened.tags() == saved.stored(),
    ensures
        snapshot_of(path, reopened.tags(), source, dimensions, updated).title == trimmed(title),
{
    crate::text::lemma_written_text_reads_back(title);
}

} // verus!
