//! The deriver capability: external lookup of derived metadata sources and
//! of the cached human-facing fields behind them.
//!
//! Implementations live outside the engine (a MusicBrainz client with a
//! local cache, for instance). Every operation may report "no data", and
//! the engine treats that exactly like "not yet looked up". Callers resolve
//! each lookup to a concrete present/absent value before invoking the merge
//! step, so the engine itself never blocks or suspends.

use crate::data_model::metadata;
use crate::data_model::AlbumInputGroup;
use vstd::prelude::*;

verus! {

/// External lookups of derived metadata sources and cached fields. Nothing
/// is promised of the results beyond their types: the engine states what
/// holds whatever an implementation returns.
pub trait MetadataDeriver {
    /// A stored derived source for the album at the given root path, if
    /// one exists.
    fn get_derived_album(&self, album_path: &Vec<u8>) -> Option<
        metadata::album::DerivedMetadataSource,
    >;

    /// Derives the album's source anew, from its origin and audio content.
    fn try_rederive_album(&mut self, album: &AlbumInputGroup) -> Option<
        metadata::album::DerivedMetadataSource,
    >;

    /// The cached album fields for a derived source, if any.
    fn get_cached_album(&self, src: metadata::album::DerivedMetadataSource) -> Option<
        metadata::album::Cached,
    >;

    /// Looks the album fields up anew for a derived source.
    fn try_recache_album(&mut self, src: metadata::album::DerivedMetadataSource) -> Option<
        metadata::album::Cached,
    >;

    /// A stored derived source for the compilation song at the given
    /// relative path, if one exists.
    fn get_derived_compilation_song(&self, song_path: &Vec<u8>) -> Option<
        metadata::song::CompilationDerivedMetadataSource,
    >;

    /// Derives the song's source anew.
    fn try_rederive_compilation_song(&mut self, song_path: &Vec<u8>) -> Option<
        metadata::song::CompilationDerivedMetadataSource,
    >;

    /// The cached song fields for a derived source, if any.
    fn get_cached_compilation_song(
        &self,
        src: metadata::song::CompilationDerivedMetadataSource,
    ) -> Option<metadata::song::Cached>;

    /// Looks the song fields up anew for a derived source.
    fn try_recache_compilation_song(
        &self,
        src: metadata::song::CompilationDerivedMetadataSource,
    ) -> Option<metadata::song::Cached>;
}

/// The explicit always-absent deriver: every operation reports no data, so
/// resolution falls back to the native and override layers. Each method's
/// contract states the absence; the struct has no fields, so the `&mut`
/// operations have no state to speak of.
pub struct AbsentDeriver;

impl MetadataDeriver for AbsentDeriver {
    fn get_derived_album(&self, album_path: &Vec<u8>) -> (r: Option<
        metadata::album::DerivedMetadataSource,
    >)
        ensures
            r is None,
    {
        None
    }

    fn try_rederive_album(&mut self, album: &AlbumInputGroup) -> (r: Option<
        metadata::album::DerivedMetadataSource,
    >)
        ensures
            r is None,
    {
        None
    }

    fn get_cached_album(&self, src: metadata::album::DerivedMetadataSource) -> (r: Option<
        metadata::album::Cached,
    >)
        ensures
            r is None,
    {
        None
    }

    fn try_recache_album(&mut self, src: metadata::album::DerivedMetadataSource) -> (r: Option<
        metadata::album::Cached,
    >)
        ensures
            r is None,
    {
        None
    }

    fn get_derived_compilation_song(&self, song_path: &Vec<u8>) -> (r: Option<
        metadata::song::CompilationDerivedMetadataSource,
    >)
        ensures
            r is None,
    {
        None
    }

    fn try_rederive_compilation_song(&mut self, song_path: &Vec<u8>) -> (r: Option<
        metadata::song::CompilationDerivedMetadataSource,
    >)
        ensures
            r is None,
    {
        None
    }

    fn get_cached_compilation_song(
        &self,
        src: metadata::song::CompilationDerivedMetadataSource,
    ) -> (r: Option<metadata::song::Cached>)
        ensures
            r is None,
    {
        None
    }

    fn try_recache_compilation_song(
        &self,
        src: metadata::song::CompilationDerivedMetadataSource,
    ) -> (r: Option<metadata::song::Cached>)
        ensures
            r is None,
    {
        None
    }
}

} // verus!
