//! Metadata resolution: the layered merge of native tags, cached lookup
//! results and user overrides into one resolved record per song.
//!
//! The layers are merged field by field, in order: the native tag record,
//! then the cached fields looked up through the derived source, then the
//! group's user overrides as the final authority. A field present in a
//! later layer overwrites; an absent field leaves the earlier value
//! untouched. A list field counts as present when it is non-empty. The
//! merged record keeps no notion of which layer contributed which field.
//!
//! Cached artists arrive as (id, name) pairs; the configuration may replace
//! the display name of an artist id, and the first matching configured
//! override wins.

use crate::data_model::metadata::{self, CachedArtist, CachedArtistView};
use crate::data_model::native_metadata::{NativeMetadata, NativeMetadataView};
use crate::data_model::user_defined::{ConfigArtistNameOverride, ConfigArtistNameOverrideView};
use crate::order::lemma_vec_deep_view_index;
use vstd::prelude::*;

verus! {

broadcast use lemma_vec_deep_view_index;

/// The final output record of one song: title, artists, album and album
/// artists, each still optional until path planning demands the
/// naming-required ones.
#[derive(Debug)]
pub struct ResolvedMetadata {
    pub title: Option<String>,
    pub artists: Vec<String>,
    pub album: Option<String>,
    pub album_artists: Vec<String>,
}

/// Ghost record of a resolved song.
pub ghost struct ResolvedMetadataView {
    pub title: Option<Seq<char>>,
    pub artists: Seq<Seq<char>>,
    pub album: Option<Seq<char>>,
    pub album_artists: Seq<Seq<char>>,
}

impl View for ResolvedMetadata {
    type V = ResolvedMetadataView;

    open spec fn view(&self) -> ResolvedMetadataView {
        ResolvedMetadataView {
            title: self.title.deep_view(),
            artists: self.artists.deep_view(),
            album: self.album.deep_view(),
            album_artists: self.album_artists.deep_view(),
        }
    }
}

impl DeepView for ResolvedMetadata {
    type V = ResolvedMetadataView;

    open spec fn deep_view(&self) -> ResolvedMetadataView {
        self.view()
    }
}

/// The display name of a cached artist: the name of the first configured
/// override whose artist id matches, else the cached name.
pub open spec fn spec_artist_name(
    cfg: Seq<ConfigArtistNameOverrideView>,
    a: CachedArtistView,
) -> Seq<char>
    decreases cfg.len(),
{
    if cfg.len() == 0 {
        a.name
    } else if cfg[0].artist_id == a.id {
        cfg[0].artist_name
    } else {
        spec_artist_name(cfg.skip(1), a)
    }
}

/// The display names of a cached artist list, in order.
pub open spec fn spec_artist_names(
    cfg: Seq<ConfigArtistNameOverrideView>,
    artists: Seq<CachedArtistView>,
) -> Seq<Seq<char>> {
    artists.map_values(|a: CachedArtistView| spec_artist_name(cfg, a))
}

/// The first merge layer: the native tag record.
pub open spec fn native_layer(n: NativeMetadataView) -> ResolvedMetadataView {
    ResolvedMetadataView {
        title: n.name,
        artists: n.artist,
        album: n.album,
        album_artists: n.album_artists,
    }
}

/// Merges the cached song fields over the record: a cache hit always
/// carries a title; its artist list counts only when non-empty.
pub open spec fn apply_song_cached(
    r: ResolvedMetadataView,
    c: Option<metadata::song::CachedView>,
    cfg: Seq<ConfigArtistNameOverrideView>,
) -> ResolvedMetadataView {
    match c {
        None => r,
        Some(c) => ResolvedMetadataView {
            title: Some(c.song_title),
            artists: if c.song_artists.len() > 0 {
                spec_artist_names(cfg, c.song_artists)
            } else {
                r.artists
            },
            album: r.album,
            album_artists: r.album_artists,
        },
    }
}

/// Merges the cached album fields over the record.
pub open spec fn apply_album_cached(
    r: ResolvedMetadataView,
    c: Option<metadata::album::CachedView>,
    cfg: Seq<ConfigArtistNameOverrideView>,
) -> ResolvedMetadataView {
    match c {
        None => r,
        Some(c) => ResolvedMetadataView {
            title: r.title,
            artists: r.artists,
            album: Some(c.title),
            album_artists: if c.artists.len() > 0 {
                spec_artist_names(cfg, c.artists)
            } else {
                r.album_artists
            },
        },
    }
}

/// Merges the user's song override over the record, field by field.
pub open spec fn apply_song_override(
    r: ResolvedMetadataView,
    o: Option<metadata::song::OverrideView>,
) -> ResolvedMetadataView {
    match o {
        None => r,
        Some(o) => ResolvedMetadataView {
            title: if o.song_title is Some {
                o.song_title
            } else {
                r.title
            },
            artists: match o.song_artists {
                Some(a) => a,
                None => r.artists,
            },
            album: r.album,
            album_artists: r.album_artists,
        },
    }
}

/// Merges the user's album override over the record, field by field.
pub open spec fn apply_album_override(
    r: ResolvedMetadataView,
    o: Option<metadata::album::OverrideView>,
) -> ResolvedMetadataView {
    match o {
        None => r,
        Some(o) => ResolvedMetadataView {
            title: r.title,
            artists: r.artists,
            album: if o.album_title is Some {
                o.album_title
            } else {
                r.album
            },
            album_artists: match o.album_artists {
                Some(a) => a,
                None => r.album_artists,
            },
        },
    }
}

/// The fully merged record of one song: native layer, then cached layer,
/// then the user overrides as the final authority.
pub open spec fn spec_resolve(
    n: NativeMetadataView,
    album_cached: Option<metadata::album::CachedView>,
    song_cached: Option<metadata::song::CachedView>,
    album_override: Option<metadata::album::OverrideView>,
    song_override: Option<metadata::song::OverrideView>,
    cfg: Seq<ConfigArtistNameOverrideView>,
) -> ResolvedMetadataView {
    apply_album_override(
        apply_song_override(
            apply_album_cached(apply_song_cached(native_layer(n), song_cached, cfg), album_cached, cfg),
            song_override,
        ),
        album_override,
    )
}

/// Law: the override layer is idempotent. Re-applying the same override
/// set to an already resolved record leaves it unchanged, so resolving
/// with the overrides applied twice equals resolving once.
pub proof fn lemma_override_merge_idempotent(
    n: NativeMetadataView,
    album_cached: Option<metadata::album::CachedView>,
    song_cached: Option<metadata::song::CachedView>,
    album_override: Option<metadata::album::OverrideView>,
    song_override: Option<metadata::song::OverrideView>,
    cfg: Seq<ConfigArtistNameOverrideView>,
)
    ensures
        apply_album_override(
            apply_song_override(
                spec_resolve(n, album_cached, song_cached, album_override, song_override, cfg),
                song_override,
            ),
            album_override,
        ) == spec_resolve(n, album_cached, song_cached, album_override, song_override, cfg),
{
}

/// Law: an override that sets only the song title leaves the artists of
/// the earlier layers unchanged.
pub proof fn lemma_title_only_override_keeps_artists(
    r: ResolvedMetadataView,
    o: metadata::song::OverrideView,
)
    requires
        o.song_artists is None,
    ensures
        apply_song_override(r, Some(o)).artists == r.artists,
        apply_song_override(r, Some(o)).album == r.album,
        apply_song_override(r, Some(o)).album_artists == r.album_artists,
        o.song_title is Some ==> apply_song_override(r, Some(o)).title == o.song_title,
{
}

/// Clones an optional string.
fn clone_opt_string(o: &Option<String>) -> (r: Option<String>)
    ensures
        r.deep_view() == o.deep_view(),
{
    match o {
        Some(s) => Some(s.clone()),
        None => None,
    }
}

/// Clones a string list.
fn clone_vec_string(v: &Vec<String>) -> (r: Vec<String>)
    ensures
        r.deep_view() == v.deep_view(),
{
    let mut r: Vec<String> = Vec::new();
    let mut i: usize = 0;
    while i < v.len()
        invariant
            i <= v@.len(),
            r@.len() == i,
            forall|k: int| 0 <= k < i ==> #[trigger] r.deep_view()[k] == v.deep_view()[k],
        decreases v@.len() - i,
    {
        let ghost r0 = r.deep_view();
        let x = v[i].clone();
        r.push(x);
        proof {
            assert(r.deep_view() =~= r0.push(v.deep_view()[i as int]));
        }
        i = i + 1;
    }
    proof {
        assert(r.deep_view() =~= v.deep_view());
    }
    r
}

/// The display name of one cached artist under the configured overrides.
#[verifier::loop_isolation(false)]
pub fn artist_display_name(
    config_artist_overrides: &Vec<ConfigArtistNameOverride>,
    artist: &CachedArtist,
) -> (r: String)
    ensures
        r@ == spec_artist_name(config_artist_overrides.deep_view(), artist@),
{
    let ghost cfg = config_artist_overrides.deep_view();
    let mut i: usize = 0;
    proof {
        assert(cfg.skip(0) =~= cfg);
    }
    while i < config_artist_overrides.len()
        invariant
            i <= cfg.len(),
            spec_artist_name(cfg, artist@) == spec_artist_name(cfg.skip(i as int), artist@),
        decreases cfg.len() - i,
    {
        if config_artist_overrides[i].artist_id.0 == artist.id.0 {
            proof {
                assert(cfg.skip(i as int)[0] == cfg[i as int]);
            }
            return config_artist_overrides[i].artist_name.clone();
        }
        proof {
            assert(cfg.skip(i as int)[0] == cfg[i as int]);
            assert(cfg.skip(i as int).skip(1) =~= cfg.skip(i + 1));
        }
        i = i + 1;
    }
    artist.name.clone()
}

/// The display names of a cached artist list, in order.
#[verifier::loop_isolation(false)]
pub fn artist_display_names(
    config_artist_overrides: &Vec<ConfigArtistNameOverride>,
    artists: &Vec<CachedArtist>,
) -> (r: Vec<String>)
    ensures
        r.deep_view() == spec_artist_names(
            config_artist_overrides.deep_view(),
            artists.deep_view(),
        ),
{
    let mut r: Vec<String> = Vec::new();
    let mut i: usize = 0;
    while i < artists.len()
        invariant
            i <= artists@.len(),
            r@.len() == i,
            forall|k: int| 0 <= k < i ==> #[trigger] r.deep_view()[k] == spec_artist_name(
                config_artist_overrides.deep_view(),
                artists.deep_view()[k],
            ),
        decreases artists@.len() - i,
    {
        let ghost r0 = r.deep_view();
        let name = artist_display_name(config_artist_overrides, &artists[i]);
        proof {
            assert(artists.deep_view()[i as int] == artists@[i as int]@);
        }
        r.push(name);
        proof {
            assert(r.deep_view() =~= r0.push(
                spec_artist_name(config_artist_overrides.deep_view(), artists.deep_view()[i as int]),
            ));
        }
        i = i + 1;
    }
    proof {
        assert(r.deep_view() =~= spec_artist_names(
            config_artist_overrides.deep_view(),
            artists.deep_view(),
        ));
    }
    r
}

/// Resolves one song: merges the native record, the cached album and song
/// fields, and the user's album and song overrides, in layer order.
pub fn resolve_song_metadata(
    native: &NativeMetadata,
    album_cached: Option<&metadata::album::Cached>,
    song_cached: Option<&metadata::song::Cached>,
    album_override: Option<&metadata::album::Override>,
    song_override: Option<&metadata::song::Override>,
    config_artist_overrides: &Vec<ConfigArtistNameOverride>,
) -> (r: ResolvedMetadata)
    ensures
        r@ == spec_resolve(
            native@,
            album_cached.deep_view(),
            song_cached.deep_view(),
            album_override.deep_view(),
            song_override.deep_view(),
            config_artist_overrides.deep_view(),
        ),
{
    let ghost cfg = config_artist_overrides.deep_view();
    let mut r = ResolvedMetadata {
        title: clone_opt_string(&native.name),
        artists: clone_vec_string(&native.artist),
        album: clone_opt_string(&native.album),
        album_artists: clone_vec_string(&native.album_artists),
    };
    proof {
        assert(r@ == native_layer(native@));
    }
    let ghost after_native = r@;
    match song_cached {
        Some(c) => {
            r.title = Some(c.song_title.clone());
            if c.song_artists.len() > 0 {
                r.artists = artist_display_names(config_artist_overrides, &c.song_artists);
            }
        },
        None => {},
    }
    proof {
        assert(r@ == apply_song_cached(after_native, song_cached.deep_view(), cfg));
    }
    let ghost after_song_cached = r@;
    match album_cached {
        Some(c) => {
            r.album = Some(c.title.clone());
            if c.artists.len() > 0 {
                r.album_artists = artist_display_names(config_artist_overrides, &c.artists);
            }
        },
        None => {},
    }
    proof {
        assert(r@ == apply_album_cached(after_song_cached, album_cached.deep_view(), cfg));
    }
    let ghost after_album_cached = r@;
    match song_override {
        Some(o) => {
            if o.song_title.is_some() {
                r.title = clone_opt_string(&o.song_title);
            }
            match &o.song_artists {
                Some(a) => {
                    r.artists = clone_vec_string(a);
                },
                None => {},
            }
        },
        None => {},
    }
    proof {
        assert(r@ == apply_song_override(after_album_cached, song_override.deep_view()));
    }
    let ghost after_song_override = r@;
    match album_override {
        Some(o) => {
            if o.album_title.is_some() {
                r.album = clone_opt_string(&o.album_title);
            }
            match &o.album_artists {
                Some(a) => {
                    r.album_artists = clone_vec_string(a);
                },
                None => {},
            }
        },
        None => {},
    }
    proof {
        assert(r@ == apply_album_override(after_song_override, album_override.deep_view()));
    }
    r
}

} // verus!
