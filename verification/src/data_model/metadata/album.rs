//! Per-album metadata records.

use crate::data_model::metadata::{CachedArtist, CachedArtistView};
use crate::data_model::{Chromaprint, ChromaprintView, MbId};
use vstd::prelude::*;

verus! {

/// Derived lookup key for one album: the resolved release-group and release
/// ids, plus one derived entry per song. Stable once computed and reusable
/// as a cache key.
#[derive(Debug)]
pub struct DerivedMetadataSource {
    pub mb_release_group_and_release_ids: Option<(MbId, MbId)>,
    pub derived_songs: Vec<SongDerivedMetadataSource>,
}

/// Derived lookup key of one song within an album: a fingerprint and the
/// media/track pair that locates the song in the release's track listing.
#[derive(Debug)]
pub struct SongDerivedMetadataSource {
    pub chromaprint: Option<Chromaprint>,
    pub media_track_idxs: Option<(i64, i64)>,
}

/// Ghost record of an album song's derived lookup key.
pub ghost struct SongDerivedMetadataSourceView {
    pub chromaprint: Option<ChromaprintView>,
    pub media_track_idxs: Option<(i64, i64)>,
}

impl View for SongDerivedMetadataSource {
    type V = SongDerivedMetadataSourceView;

    open spec fn view(&self) -> SongDerivedMetadataSourceView {
        SongDerivedMetadataSourceView {
            chromaprint: self.chromaprint.deep_view(),
            media_track_idxs: self.media_track_idxs,
        }
    }
}

impl DeepView for SongDerivedMetadataSource {
    type V = SongDerivedMetadataSourceView;

    open spec fn deep_view(&self) -> SongDerivedMetadataSourceView {
        self.view()
    }
}

/// User override of an album's human-facing fields. An unset field leaves
/// the value of the earlier layers untouched.
#[derive(Debug)]
pub struct Override {
    pub album_title: Option<String>,
    pub album_artists: Option<Vec<String>>,
}

/// Ghost record of an album override.
pub ghost struct OverrideView {
    pub album_title: Option<Seq<char>>,
    pub album_artists: Option<Seq<Seq<char>>>,
}

impl View for Override {
    type V = OverrideView;

    open spec fn view(&self) -> OverrideView {
        OverrideView {
            album_title: self.album_title.deep_view(),
            album_artists: self.album_artists.deep_view(),
        }
    }
}

impl DeepView for Override {
    type V = OverrideView;

    open spec fn deep_view(&self) -> OverrideView {
        self.view()
    }
}

/// Cached human-facing fields of one album, looked up from a derived key.
#[derive(Debug)]
pub struct Cached {
    pub title: String,
    pub artists: Vec<CachedArtist>,
}

/// Ghost record of an album's cached fields.
pub ghost struct CachedView {
    pub title: Seq<char>,
    pub artists: Seq<CachedArtistView>,
}

impl View for Cached {
    type V = CachedView;

    open spec fn view(&self) -> CachedView {
        CachedView { title: self.title@, artists: self.artists.deep_view() }
    }
}

impl DeepView for Cached {
    type V = CachedView;

    open spec fn deep_view(&self) -> CachedView {
        self.view()
    }
}

} // verus!
