//! Data types of the user-authored configuration and group descriptors.
//!
//! These records are loaded once per run from the user's files; the engine
//! never derives or overwrites them. Parsing the files is an I/O concern
//! outside this crate; the engine receives the records as plain values.

use crate::data_model::metadata;
use crate::data_model::{CddbDiscId, MbDiscId, MbId};
use vstd::prelude::*;

verus! {

/// Process-wide configuration.
#[derive(Debug)]
pub struct ConfigFile {
    pub search_paths: Vec<String>,
    pub artist_name_overrides: Vec<ConfigArtistNameOverride>,
}

/// A configured replacement of an artist's display name, keyed by the
/// MusicBrainz artist id.
#[derive(Debug, Clone)]
pub struct ConfigArtistNameOverride {
    pub artist_id: MbId,
    pub artist_name: String,
}

/// Ghost record of an artist name override.
pub ghost struct ConfigArtistNameOverrideView {
    pub artist_id: Seq<char>,
    pub artist_name: Seq<char>,
}

impl View for ConfigArtistNameOverride {
    type V = ConfigArtistNameOverrideView;

    open spec fn view(&self) -> ConfigArtistNameOverrideView {
        ConfigArtistNameOverrideView { artist_id: self.artist_id@, artist_name: self.artist_name@ }
    }
}

impl DeepView for ConfigArtistNameOverride {
    type V = ConfigArtistNameOverrideView;

    open spec fn deep_view(&self) -> ConfigArtistNameOverrideView {
        self.view()
    }
}

/// User-asserted provenance of a group, never computed by the engine.
#[derive(Debug)]
pub struct Origin {
    pub url: Option<String>,
    pub mb_release_group_id: Option<MbId>,
    pub mb_release_id: Option<MbId>,
    pub mb_discid: Option<MbDiscId>,
    pub cddb_discid: Option<CddbDiscId>,
}

/// A filter restricting which scanned files a group uses, as a list of file
/// extensions.
#[derive(Debug, Clone)]
pub struct ScanFilter {
    pub ext_filters: Vec<String>,
}

/// One group descriptor, either a compilation or an album.
#[derive(Debug)]
pub enum GroupFile {
    Compilation {
        origin: Origin,
        scan_filter: Option<ScanFilter>,
        title: String,
        songs: Vec<CompilationInputSongOverride>,
    },
    Album {
        origin: Origin,
        scan_filter: Option<ScanFilter>,
        album_art_rel_path: Option<String>,
        override_metadata: Option<metadata::album::Override>,
        songs: Vec<AlbumInputSongOverride>,
    },
}

impl GroupFile {
    /// The descriptor's scan filter, whichever variant holds it.
    pub fn scan_filter(&self) -> (r: Option<&ScanFilter>)
        ensures
            r is Some <==> self.spec_scan_filter() is Some,
            r matches Some(f) ==> self.spec_scan_filter() == Some(*f),
    {
        match self {
            GroupFile::Compilation { scan_filter, .. } => scan_filter.as_ref(),
            GroupFile::Album { scan_filter, .. } => scan_filter.as_ref(),
        }
    }

    /// The scan filter field of either variant.
    pub open spec fn spec_scan_filter(&self) -> Option<ScanFilter> {
        match self {
            GroupFile::Compilation { scan_filter, .. } => *scan_filter,
            GroupFile::Album { scan_filter, .. } => *scan_filter,
        }
    }
}

/// Per-song override record of a compilation descriptor.
#[derive(Debug)]
pub struct CompilationInputSongOverride {
    /// Relative path of the song this override targets.
    pub file_rel_path: Vec<u8>,
    pub origin_mbid: Option<MbId>,
    pub override_metadata: Option<metadata::song::Override>,
    /// Requested position of the song in the group's final order.
    pub override_position: Option<usize>,
}

/// Ghost record of a compilation song override.
pub ghost struct CompilationInputSongOverrideView {
    pub file_rel_path: Seq<u8>,
    pub origin_mbid: Option<Seq<char>>,
    pub override_metadata: Option<metadata::song::OverrideView>,
    pub override_position: Option<usize>,
}

impl View for CompilationInputSongOverride {
    type V = CompilationInputSongOverrideView;

    open spec fn view(&self) -> CompilationInputSongOverrideView {
        CompilationInputSongOverrideView {
            file_rel_path: self.file_rel_path@,
            origin_mbid: self.origin_mbid.deep_view(),
            override_metadata: self.override_metadata.deep_view(),
            override_position: self.override_position,
        }
    }
}

impl DeepView for CompilationInputSongOverride {
    type V = CompilationInputSongOverrideView;

    open spec fn deep_view(&self) -> CompilationInputSongOverrideView {
        self.view()
    }
}

/// Per-song override record of an album descriptor.
#[derive(Debug)]
pub struct AlbumInputSongOverride {
    /// Relative path of the song this override targets.
    pub file_rel_path: Vec<u8>,
    pub override_metadata: Option<metadata::song::Override>,
    pub override_disc_idx: Option<u64>,
    pub override_track_idx: Option<u64>,
}

/// Ghost record of an album song override.
pub ghost struct AlbumInputSongOverrideView {
    pub file_rel_path: Seq<u8>,
    pub override_metadata: Option<metadata::song::OverrideView>,
    pub override_disc_idx: Option<u64>,
    pub override_track_idx: Option<u64>,
}

impl View for AlbumInputSongOverride {
    type V = AlbumInputSongOverrideView;

    open spec fn view(&self) -> AlbumInputSongOverrideView {
        AlbumInputSongOverrideView {
            file_rel_path: self.file_rel_path@,
            override_metadata: self.override_metadata.deep_view(),
            override_disc_idx: self.override_disc_idx,
            override_track_idx: self.override_track_idx,
        }
    }
}

impl DeepView for AlbumInputSongOverride {
    type V = AlbumInputSongOverrideView;

    open spec fn deep_view(&self) -> AlbumInputSongOverrideView {
        self.view()
    }
}

} // verus!
