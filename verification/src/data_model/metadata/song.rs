//! Per-song metadata records.

use crate::data_model::metadata::{CachedArtist, CachedArtistView};
use crate::data_model::{Chromaprint, ChromaprintView, MbId};
use vstd::prelude::*;

verus! {

/// Derived lookup key for one compilation song: a fingerprint, a resolved
/// recording id, or both. Stable once computed and reusable as a cache key.
#[derive(Debug)]
pub struct CompilationDerivedMetadataSource {
    pub chromaprint: Option<Chromaprint>,
    pub mb_recording_id: Option<MbId>,
}

/// Ghost record of a compilation song's derived lookup key.
pub ghost struct CompilationDerivedMetadataSourceView {
    pub chromaprint: Option<ChromaprintView>,
    pub mb_recording_id: Option<Seq<char>>,
}

impl View for CompilationDerivedMetadataSource {
    type V = CompilationDerivedMetadataSourceView;

    open spec fn view(&self) -> CompilationDerivedMetadataSourceView {
        CompilationDerivedMetadataSourceView {
            chromaprint: self.chromaprint.deep_view(),
            mb_recording_id: self.mb_recording_id.deep_view(),
        }
    }
}

impl DeepView for CompilationDerivedMetadataSource {
    type V = CompilationDerivedMetadataSourceView;

    open spec fn deep_view(&self) -> CompilationDerivedMetadataSourceView {
        self.view()
    }
}

/// User override of a song's human-facing fields. An unset field leaves the
/// value of the earlier layers untouched.
#[derive(Debug)]
pub struct Override {
    pub song_title: Option<String>,
    pub song_artists: Option<Vec<String>>,
}

/// Ghost record of a song override.
pub ghost struct OverrideView {
    pub song_title: Option<Seq<char>>,
    pub song_artists: Option<Seq<Seq<char>>>,
}

impl View for Override {
    type V = OverrideView;

    open spec fn view(&self) -> OverrideView {
        OverrideView {
            song_title: self.song_title.deep_view(),
            song_artists: self.song_artists.deep_view(),
        }
    }
}

impl DeepView for Override {
    type V = OverrideView;

    open spec fn deep_view(&self) -> OverrideView {
        self.view()
    }
}

/// Cached human-facing fields of one song, looked up from a derived key.
#[derive(Debug)]
pub struct Cached {
    pub song_title: String,
    pub song_artists: Vec<CachedArtist>,
}

/// Ghost record of a song's cached fields.
pub ghost struct CachedView {
    pub song_title: Seq<char>,
    pub song_artists: Seq<CachedArtistView>,
}

impl View for Cached {
    type V = CachedView;

    open spec fn view(&self) -> CachedView {
        CachedView {
            song_title: self.song_title@,
            song_artists: self.song_artists.deep_view(),
        }
    }
}

impl DeepView for Cached {
    type V = CachedView;

    open spec fn deep_view(&self) -> CachedView {
        self.view()
    }
}

/// Fully resolved output record of one song: every naming-required field is
/// present.
#[derive(Debug)]
pub struct Output {
    pub song_title: String,
    pub song_artists: Vec<String>,
}

} // verus!
