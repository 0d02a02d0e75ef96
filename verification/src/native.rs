//! The tags of one native track object as owned values: what is left of the native
//! library's answers once every buffer has been copied and freed.

use vstd::prelude::*;
use vstd::slice::slice_to_vec;

verus! {

/// The cover art of a track as the native library hands it out, after the copy: the
/// bytes, and their count as the native descriptor states it.
#[allow(non_camel_case_types)]
#[derive(Debug, PartialEq, Eq)]
pub struct art_bytes {
    data: Vec<u8>,
    size: u32,
}

impl View for art_bytes {
    type V = Seq<u8>;

    closed spec fn view(&self) -> Seq<u8> {
        self.data@
    }
}

impl art_bytes {
    /// The descriptor counts exactly the bytes that it holds.
    #[verifier::type_invariant]
    pub closed spec fn wf(self) -> bool {
        self.data@.len() == self.size
    }

    /// The descriptor of `data`. `None` where the bytes are more than a native
    /// descriptor can count.
    pub fn new(data: Vec<u8>) -> (art: Option<art_bytes>)
        ensures
            art is Some <==> data@.len() <= u32::MAX,
            art matches Some(a) ==> a@ == data@ && a.wf(),
    {
        if data.len() <= u32::MAX as usize {
            let size = data.len() as u32;
            Some(art_bytes { data, size })
        } else {
            None
        }
    }

    /// The descriptor of no bytes: what stands for the cover of a track without one.
    pub fn empty() -> (art: art_bytes)
        ensures
            art@ == Seq::<u8>::empty(),
            art.wf(),
    {
        art_bytes { data: Vec::new(), size: 0 }
    }

    /// The bytes.
    pub fn data(&self) -> (data: &[u8])
        ensures
            data@ == self@,
            data@.len() <= u32::MAX,
    {
        proof {
            use_type_invariant(self);
        }
        self.data.as_slice()
    }

    /// The number of bytes.
    pub fn size(&self) -> (size: u32)
        ensures
            size == self@.len(),
    {
        proof {
            use_type_invariant(self);
        }
        self.size
    }
}

impl Clone for art_bytes {
    fn clone(&self) -> (art: art_bytes)
        ensures
            art@ == self@,
    {
        proof {
            use_type_invariant(self);
        }
        art_bytes { data: slice_to_vec(self.data.as_slice()), size: self.size }
    }
}

/// A string tag as a mathematical value: `None` for a null pointer, else the bytes.
pub open spec fn c_str_view(c_str: Option<Vec<u8>>) -> Option<Seq<u8>> {
    match c_str {
        Some(bytes) => Some(bytes@),
        None => None,
    }
}

/// The tags of one native track object as mathematical values: a string tag is `None`
/// where the native getter gives a null pointer, else the bytes before the terminator.
pub struct Tags {
    pub title: Option<Seq<u8>>,
    pub artist: Option<Seq<u8>>,
    pub album: Option<Seq<u8>>,
    pub album_artists: Option<Seq<u8>>,
    pub musicbrainz_track_id: Option<Seq<u8>>,
    pub year: u32,
    pub track_number: u32,
    pub disc_number: u32,
    pub duration: i64,
    pub bitrate: i32,
    pub sample_rate: i32,
    pub file_type: i32,
    pub has_album_art: bool,
    pub album_art: Seq<u8>,
}

/// The tags of one native track object, each as its native getter hands it out, after
/// the copy into owned values. Nothing in it points into native memory.
#[allow(non_camel_case_types)]
#[derive(Debug, PartialEq, Eq)]
pub struct track_data {
    pub title: Option<Vec<u8>>,
    pub artist: Option<Vec<u8>>,
    pub album: Option<Vec<u8>>,
    pub album_artists: Option<Vec<u8>>,
    pub musicbrainz_track_id: Option<Vec<u8>>,
    pub year: u32,
    pub track_number: u32,
    pub disc_number: u32,
    pub duration: i64,
    pub bitrate: i32,
    pub sample_rate: i32,
    pub file_type: i32,
    pub has_album_art: bool,
    pub album_art: art_bytes,
}

impl View for track_data {
    type V = Tags;

    open spec fn view(&self) -> Tags {
        Tags {
            title: c_str_view(self.title),
            artist: c_str_view(self.artist),
            album: c_str_view(self.album),
            album_artists: c_str_view(self.album_artists),
            musicbrainz_track_id: c_str_view(self.musicbrainz_track_id),
            year: self.year,
            track_number: self.track_number,
            disc_number: self.disc_number,
            duration: self.duration,
            bitrate: self.bitrate,
            sample_rate: self.sample_rate,
            file_type: self.file_type,
            has_album_art: self.has_album_art,
            album_art: self.album_art@,
        }
    }
}

/// A copy of a string tag.
fn clone_c_str(c_str: &Option<Vec<u8>>) -> (copy: Option<Vec<u8>>)
    ensures
        c_str_view(copy) == c_str_view(*c_str),
{
    match c_str {
        Some(bytes) => Some(slice_to_vec(bytes.as_slice())),
        None => None,
    }
}

impl Clone for track_data {
    fn clone(&self) -> (copy: track_data)
        ensures
            copy@ == self@,
    {
        track_data {
            title: clone_c_str(&self.title),
            artist: clone_c_str(&self.artist),
            album: clone_c_str(&self.album),
            album_artists: clone_c_str(&self.album_artists),
            musicbrainz_track_id: clone_c_str(&self.musicbrainz_track_id),
            year: self.year,
            track_number: self.track_number,
            disc_number: self.disc_number,
            duration: self.duration,
            bitrate: self.bitrate,
            sample_rate: self.sample_rate,
            file_type: self.file_type,
            has_album_art: self.has_album_art,
            album_art: self.album_art.clone(),
        }
    }
}

} // verus!
