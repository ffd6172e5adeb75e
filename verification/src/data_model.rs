//! Data types of the engine: identifiers, input groups and input songs.
//!
//! A group is a directory subtree described by one user-authored descriptor,
//! either an album or a compilation. Assembling a group merges the scanned
//! song files with the descriptor's per-song overrides into one ordered song
//! sequence; the invariant of an assembled group is that its relative song
//! paths are unique.
//!
//! File paths are held as their raw bytes; human-facing metadata fields are
//! held as strings.

use vstd::prelude::*;

pub mod metadata;
pub mod native_metadata;
pub mod user_defined;

verus! {

/// MusicBrainz identifier, which can denote one of many entity kinds.
#[derive(Debug, Clone)]
pub struct MbId(pub String);

/// MusicBrainz disc id.
#[derive(Debug, Clone)]
pub struct MbDiscId(pub String);

/// CDDB disc id.
#[derive(Debug, Clone)]
pub struct CddbDiscId(pub String);

/// Song audio fingerprint: the fingerprinter's algorithm id and the raw
/// fingerprint bytes. Computing a fingerprint is the fingerprinter's
/// business; the engine only carries the value as a cache key, so the
/// algorithm is held as the fingerprinting library's plain integer id.
#[derive(Debug, Clone)]
pub struct Chromaprint(pub i32, pub Vec<u8>);

impl View for MbId {
    type V = Seq<char>;

    open spec fn view(&self) -> Seq<char> {
        self.0@
    }
}

impl DeepView for MbId {
    type V = Seq<char>;

    open spec fn deep_view(&self) -> Seq<char> {
        self.0@
    }
}

/// Ghost record of a fingerprint value.
pub ghost struct ChromaprintView {
    pub algorithm: int,
    pub fingerprint: Seq<u8>,
}

impl View for Chromaprint {
    type V = ChromaprintView;

    open spec fn view(&self) -> ChromaprintView {
        ChromaprintView { algorithm: self.0 as int, fingerprint: self.1@ }
    }
}

impl DeepView for Chromaprint {
    type V = ChromaprintView;

    open spec fn deep_view(&self) -> ChromaprintView {
        self.view()
    }
}

/// A compilation song after assembly: the relative path is the song's
/// identity within its group.
#[derive(Debug)]
pub struct CompilationInputSong {
    /// Relative path below the group root, the identity key.
    pub file: Vec<u8>,
    /// User-asserted recording id for this song, if any.
    pub origin_mbid: Option<MbId>,
    /// User metadata override for this song, if any.
    pub override_metadata: Option<metadata::song::Override>,
    /// Derived lookup key, produced lazily by the deriver capability.
    pub derived_metadata_src: Option<metadata::song::CompilationDerivedMetadataSource>,
    /// Cached human-facing fields for the derived key.
    pub cached_metadata: Option<metadata::song::Cached>,
}

/// Ghost record of a compilation song.
pub ghost struct CompilationInputSongView {
    pub file: Seq<u8>,
    pub origin_mbid: Option<Seq<char>>,
    pub override_metadata: Option<metadata::song::OverrideView>,
    pub derived_metadata_src: Option<metadata::song::CompilationDerivedMetadataSourceView>,
    pub cached_metadata: Option<metadata::song::CachedView>,
}

impl View for CompilationInputSong {
    type V = CompilationInputSongView;

    open spec fn view(&self) -> CompilationInputSongView {
        CompilationInputSongView {
            file: self.file@,
            origin_mbid: self.origin_mbid.deep_view(),
            override_metadata: self.override_metadata.deep_view(),
            derived_metadata_src: self.derived_metadata_src.deep_view(),
            cached_metadata: self.cached_metadata.deep_view(),
        }
    }
}

impl DeepView for CompilationInputSong {
    type V = CompilationInputSongView;

    open spec fn deep_view(&self) -> CompilationInputSongView {
        self.view()
    }
}

/// An assembled compilation group: its songs in final order.
#[derive(Debug)]
pub struct CompilationInputGroup {
    pub origin: user_defined::Origin,
    pub scan_filter: Option<user_defined::ScanFilter>,
    pub title: String,
    pub song_files: Vec<CompilationInputSong>,
}

/// An album song after assembly: the relative path is the song's identity
/// within its group. Disc and track indices are not stored here; they are
/// derived later from native tags, overrides and the carried numbering
/// state.
#[derive(Debug)]
pub struct AlbumInputSong {
    /// Relative path below the group root, the identity key.
    pub file: Vec<u8>,
    /// User metadata override for this song, if any.
    pub override_metadata: Option<metadata::song::Override>,
    /// User override of the source disc index, if any.
    pub override_disc_idx: Option<u64>,
    /// User override of the source track index, if any.
    pub override_track_idx: Option<u64>,
}

/// Ghost record of an album song.
pub ghost struct AlbumInputSongView {
    pub file: Seq<u8>,
    pub override_metadata: Option<metadata::song::OverrideView>,
    pub override_disc_idx: Option<u64>,
    pub override_track_idx: Option<u64>,
}

impl View for AlbumInputSong {
    type V = AlbumInputSongView;

    open spec fn view(&self) -> AlbumInputSongView {
        AlbumInputSongView {
            file: self.file@,
            override_metadata: self.override_metadata.deep_view(),
            override_disc_idx: self.override_disc_idx,
            override_track_idx: self.override_track_idx,
        }
    }
}

impl DeepView for AlbumInputSong {
    type V = AlbumInputSongView;

    open spec fn deep_view(&self) -> AlbumInputSongView {
        self.view()
    }
}

/// An assembled album group: its songs in final order.
#[derive(Debug)]
pub struct AlbumInputGroup {
    pub origin: user_defined::Origin,
    pub override_metadata: Option<metadata::album::Override>,
    pub scan_filter: Option<user_defined::ScanFilter>,
    /// Relative path of the album art below the group root, if declared.
    pub album_art: Option<Vec<u8>>,
    pub song_files: Vec<AlbumInputSong>,
    /// Derived lookup key, produced lazily by the deriver capability.
    pub derived_metadata: Option<metadata::album::DerivedMetadataSource>,
    /// Cached album fields and per-song fields for the derived key.
    pub cached_metadata: Option<(metadata::album::Cached, Vec<metadata::song::Cached>)>,
}

} // verus!
