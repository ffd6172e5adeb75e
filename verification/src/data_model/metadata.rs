//! Metadata records: cached lookup results and user overrides.

use crate::data_model::MbId;
use vstd::prelude::*;

pub mod album;
pub mod song;

verus! {

/// An artist as a cache holds it: the MusicBrainz artist id and the name
/// that was looked up for it. The display name may still be replaced by a
/// configured artist name override.
#[derive(Debug, Clone)]
pub struct CachedArtist {
    pub id: MbId,
    pub name: String,
}

/// Ghost record of a cached artist.
pub ghost struct CachedArtistView {
    pub id: Seq<char>,
    pub name: Seq<char>,
}

impl View for CachedArtist {
    type V = CachedArtistView;

    open spec fn view(&self) -> CachedArtistView {
        CachedArtistView { id: self.id@, name: self.name@ }
    }
}

impl DeepView for CachedArtist {
    type V = CachedArtistView;

    open spec fn deep_view(&self) -> CachedArtistView {
        self.view()
    }
}

} // verus!
