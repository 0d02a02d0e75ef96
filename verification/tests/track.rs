use chrono::Datelike;
use katatsuki::{
    art_bytes, track_data, Date, FileError, ReadOnlyTrack, ReadWriteTrack, TrackData,
    TrackFileType,
};

const PNG_123_321: [u8; 32] = [
    0x89, 0x50, 0x4E, 0x47, 0x0D, 0x0A, 0x1A, 0x0A, 0x00, 0x00, 0x00, 0x0D, 0x49, 0x48, 0x44, 0x52,
    0x00, 0x00, 0x00, 0x7B, 0x00, 0x00, 0x01, 0x41, 0x08, 0x06, 0x00, 0x00, 0x00, 0x9A, 0x38, 0xC4,
];

fn image(file_type: i32, cover: Option<&[u8]>) -> track_data {
    track_data {
        title: Some(b"  A Title \n".to_vec()),
        artist: Some(b"\tAn Artist".to_vec()),
        album: Some(b"An Album  ".to_vec()),
        album_artists: Some(b" Various ".to_vec()),
        musicbrainz_track_id: Some(b" 0f2e3c4d ".to_vec()),
        year: 1999,
        track_number: 3,
        disc_number: 1,
        duration: 215,
        bitrate: 320,
        sample_rate: 44_100,
        file_type,
        has_album_art: cover.is_some(),
        album_art: match cover {
            Some(bytes) => art_bytes::new(bytes.to_vec()).unwrap(),
            None => art_bytes::empty(),
        },
    }
}

const DAY: Date = Date { year: 2024, month: 3, day: 9 };

#[test]
fn snapshot_copies_and_trims() {
    let guard = TrackData::new(image(7, None));
    let track = ReadOnlyTrack::from_track_data("song.mp3", &guard, Some("test"), DAY).unwrap();
    assert_eq!(track.file_path, "song.mp3");
    assert_eq!(track.file_type, TrackFileType::MP3CBR);
    assert_eq!(track.title, "A Title");
    assert_eq!(track.artist, "An Artist");
    assert_eq!(track.album, "An Album");
    assert_eq!(track.album_artists, "Various");
    assert_eq!(track.musicbrainz_track_id, Some(" 0f2e3c4d ".to_string()));
    assert_eq!(track.year, 1999);
    assert_eq!(track.track_number, 3);
    assert_eq!(track.disc_number, 1);
    assert_eq!(track.duration, 215);
    assert_eq!(track.bitrate, 320);
    assert_eq!(track.sample_rate, 44_100);
    assert_eq!(track.source, "test");
    assert!(!track.has_front_cover);
    assert_eq!(track.front_cover_width, 0);
    assert_eq!(track.front_cover_height, 0);
    assert!(track.album_art.is_empty());
}

#[test]
fn snapshot_is_stamped_with_the_day() {
    let guard = TrackData::new(image(0, None));
    let track = ReadOnlyTrack::from_track_data("song.flac", &guard, None, DAY).unwrap();
    assert_eq!(track.updated, "2024-03-09");
    let later = Date { year: 1999, month: 12, day: 31 };
    let track = ReadOnlyTrack::from_track_data("song.flac", &guard, None, later).unwrap();
    assert_eq!(track.updated, "1999-12-31");
}

#[test]
fn snapshot_is_stamped_with_the_clock_s_day() {
    let now = chrono::Local::now();
    let today = Date { year: now.year(), month: now.month(), day: now.day() };
    let guard = TrackData::new(image(0, None));
    let track = ReadOnlyTrack::from_track_data("song.flac", &guard, None, today).unwrap();
    assert_eq!(track.updated, now.format("%Y-%m-%d").to_string());
}

#[test]
fn missing_source_is_labelled_none() {
    let guard = TrackData::new(image(0, None));
    let track = ReadOnlyTrack::from_track_data("song.flac", &guard, None, DAY).unwrap();
    assert_eq!(track.source, "None");
}

#[test]
fn unknown_format_is_unsupported() {
    for code in [14, 15, -1, 1000] {
        let guard = TrackData::new(image(code, Some(&PNG_123_321)));
        let track = ReadOnlyTrack::from_track_data("notes.txt", &guard, Some("test"), DAY);
        assert_eq!(
            track.err(),
            Some(FileError::UnsupportedFormatError("notes.txt".to_string()))
        );
    }
}

#[test]
fn every_supported_format_opens() {
    for code in 0..14 {
        let guard = TrackData::new(image(code, None));
        let track = ReadOnlyTrack::from_track_data("song", &guard, None, DAY).unwrap();
        assert_ne!(track.file_type, TrackFileType::Unknown);
        assert_eq!(track.file_type.to_u32(), code as u32);
    }
}

#[test]
fn readable_cover_is_measured_and_kept() {
    let guard = TrackData::new(image(3, Some(&PNG_123_321)));
    let track = ReadOnlyTrack::from_track_data("song.flac", &guard, None, DAY).unwrap();
    assert!(track.has_front_cover);
    assert_eq!(track.front_cover_width, 123);
    assert_eq!(track.front_cover_height, 321);
    assert_eq!(track.album_art, PNG_123_321.to_vec());
}

#[test]
fn corrupt_cover_is_kept_unmeasured() {
    let corrupt = [0x89u8; 32];
    let guard = TrackData::new(image(3, Some(&corrupt)));
    let track = ReadOnlyTrack::from_track_data("song.flac", &guard, None, DAY).unwrap();
    assert!(track.has_front_cover);
    assert_eq!(track.front_cover_width, 0);
    assert_eq!(track.front_cover_height, 0);
    assert_eq!(track.album_art, corrupt.to_vec());
}

#[test]
fn empty_cover_is_present_and_unmeasured() {
    let guard = TrackData::new(image(3, Some(&[])));
    let track = ReadOnlyTrack::from_track_data("song.flac", &guard, None, DAY).unwrap();
    assert!(track.has_front_cover);
    assert_eq!(track.front_cover_width, 0);
    assert_eq!(track.front_cover_height, 0);
    assert!(track.album_art.is_empty());
}

#[test]
fn undeclared_cover_is_ignored() {
    let mut tags = image(3, Some(&PNG_123_321));
    tags.has_album_art = false;
    let guard = TrackData::new(tags);
    let track = ReadOnlyTrack::from_track_data("song.flac", &guard, None, DAY).unwrap();
    assert!(!track.has_front_cover);
    assert_eq!(track.front_cover_width, 0);
    assert_eq!(track.front_cover_height, 0);
    assert!(track.album_art.is_empty());
}

#[test]
fn numbers_are_cut_to_32_bits() {
    let mut tags = image(3, None);
    tags.year = u32::MAX;
    tags.track_number = 1 << 31;
    tags.disc_number = (1 << 31) + 5;
    tags.duration = (1 << 32) + 7;
    let guard = TrackData::new(tags);
    let track = ReadOnlyTrack::from_track_data("song.flac", &guard, None, DAY).unwrap();
    assert_eq!(track.year, -1);
    assert_eq!(track.track_number, i32::MIN);
    assert_eq!(track.disc_number, i32::MIN + 5);
    assert_eq!(track.duration, 7);
}

#[test]
fn assemble_takes_size_and_stamp_as_given() {
    let guard = TrackData::new(image(9, Some(&[1, 2, 3])));
    let track = ReadOnlyTrack::assemble(
        "a.m4a",
        &guard,
        Some("import"),
        Some((640, 480)),
        Date { year: 2001, month: 2, day: 3 },
    )
    .unwrap();
    assert_eq!(track.file_type, TrackFileType::AAC);
    assert_eq!(track.front_cover_width, 640);
    assert_eq!(track.front_cover_height, 480);
    assert_eq!(track.updated, "2001-02-03");
    assert_eq!(track.album_art, vec![1, 2, 3]);
    assert_eq!(track.source, "import");
}

#[test]
fn assemble_refuses_unknown_format() {
    let guard = TrackData::new(image(14, None));
    let track = ReadOnlyTrack::assemble("a.bin", &guard, None, None, DAY);
    assert_eq!(track.err(), Some(FileError::UnsupportedFormatError("a.bin".to_string())));
}

#[test]
fn open_song_with_source_label() {
    let track =
        ReadOnlyTrack::from_path(b"song.mp3", true, Some(image(8, None)), Some("test"), DAY)
            .unwrap();
    assert_eq!(track.source, "test");
    assert_eq!(track.updated, "2024-03-09");
    assert_eq!(track.file_path, "song.mp3");
    assert_eq!(track.file_type, TrackFileType::MP3VBR);
}

#[test]
fn open_missing_file_is_not_found() {
    let track = ReadOnlyTrack::from_path(b"gone.mp3", false, None, Some("test"), DAY);
    assert_eq!(track.err(), Some(FileError::FileNotFound));
    let track = ReadWriteTrack::from_path(b"gone.mp3", false, None, Some("test"), DAY);
    assert_eq!(track.err(), Some(FileError::FileNotFound));
    let track = ReadOnlyTrack::from_path(&[0xff], false, None, None, DAY);
    assert_eq!(track.err(), Some(FileError::FileNotFound));
}

#[test]
fn open_path_that_cannot_be_encoded() {
    let track = ReadOnlyTrack::from_path(&[0x61, 0xff], true, None, None, DAY);
    assert_eq!(track.err(), Some(FileError::PathEncodingError));
    let track = ReadOnlyTrack::from_path(b"a\0b.mp3", true, None, None, DAY);
    assert_eq!(track.err(), Some(FileError::PathEncodingError));
    let track = ReadWriteTrack::from_path(b"a\0b.mp3", true, None, None, DAY);
    assert_eq!(track.err(), Some(FileError::PathEncodingError));
}

#[test]
fn open_unrecognised_file_is_unsupported() {
    let track = ReadOnlyTrack::from_path(b"notes.txt", true, Some(image(14, None)), None, DAY);
    assert_eq!(track.err(), Some(FileError::UnsupportedFormatError("notes.txt".to_string())));
    let track = ReadWriteTrack::from_path(b"notes.txt", true, Some(image(77, None)), None, DAY);
    assert_eq!(track.err(), Some(FileError::UnsupportedFormatError("notes.txt".to_string())));
}

#[test]
fn open_each_supported_format() {
    for code in 0..14 {
        let track =
            ReadOnlyTrack::from_path(b"song", true, Some(image(code, None)), None, DAY).unwrap();
        assert_ne!(track.file_type, TrackFileType::Unknown);
        let track =
            ReadWriteTrack::from_path(b"song", true, Some(image(code, None)), None, DAY).unwrap();
        assert_ne!(track.data.file_type, TrackFileType::Unknown);
        assert_ne!(track.track_data.file_type(), TrackFileType::Unknown);
    }
}

#[test]
fn title_round_trip() {
    for title in ["New Title", "  padded\t", "日本語", "a"] {
        let mut track =
            ReadWriteTrack::from_path(b"song.flac", true, Some(image(2, None)), None, DAY).unwrap();
        assert_eq!(track.set_title(title), Ok(()));
        track.save();
        let again =
            ReadOnlyTrack::from_path(b"song.flac", true, Some(track.track_data.file()), None, DAY)
                .unwrap();
        assert_eq!(again.title, title.trim());
    }
}

#[test]
fn unsaved_title_is_not_in_the_file() {
    let mut track =
        ReadWriteTrack::from_path(b"song.flac", true, Some(image(2, None)), None, DAY).unwrap();
    track.set_title("New Title").unwrap();
    let again =
        ReadOnlyTrack::from_path(b"song.flac", true, Some(track.track_data.file()), None, DAY).unwrap();
    assert_eq!(again.title, "A Title");
}

#[test]
fn snapshot_is_stale_after_a_setter() {
    let mut track =
        ReadWriteTrack::from_path(b"song.flac", true, Some(image(2, None)), None, DAY).unwrap();
    track.set_title("New Title").unwrap();
    track.set_artist("New Artist").unwrap();
    track.set_album("New Album").unwrap();
    track.set_album_artists("New Artists").unwrap();
    track.save();
    assert_eq!(track.data.title, "A Title");
    assert_eq!(track.data.artist, "An Artist");
    assert_eq!(track.data.album, "An Album");
    assert_eq!(track.data.album_artists, "Various");
    assert_eq!(track.track_data.title(), "New Title");
    assert_eq!(track.track_data.artist(), "New Artist");
    assert_eq!(track.track_data.album(), "New Album");
    assert_eq!(track.track_data.album_artists(), "New Artists");
}

#[test]
fn setter_with_nul_fails_and_changes_nothing() {
    let mut track =
        ReadWriteTrack::from_path(b"song.flac", true, Some(image(2, None)), None, DAY).unwrap();
    assert_eq!(track.set_title("a\0b"), Err(FileError::EmbeddedNulError));
    assert_eq!(track.set_artist("a\0b"), Err(FileError::EmbeddedNulError));
    assert_eq!(track.set_album("a\0b"), Err(FileError::EmbeddedNulError));
    assert_eq!(track.set_album_artists("a\0b"), Err(FileError::EmbeddedNulError));
    assert_eq!(track.track_data.title(), "  A Title \n");
    track.save();
    assert_eq!(track.track_data.file(), image(2, None));
}
