//! Track index assignment for album groups.
//!
//! Every album song gets a (media index, track index) pair, used both for
//! output naming and for looking the song up in the release's track
//! listing. Songs are processed in final group order with a carried pair
//! that starts at media 1, track 0, so the first defaulted song gets
//! (1, 1):
//! - a song whose native tag holds both a disc and a track number uses them
//!   as they are;
//! - else, if the song's override holds a disc or track index, the given
//!   component is used and the missing component follows the default rule;
//! - else the media index is carried over and the track index is the
//!   carried track index plus one (saturating at the numeric limit).
//!
//! The fixed raw pair is then split across media: while the track index
//! exceeds the known track count of its media, the media index advances by
//! one and the track count is subtracted. If the track count of the current
//! media is unknown, whether a split is needed cannot be decided: the raw
//! pair is kept unchanged and the assignment is flagged ambiguous rather
//! than silently guessing. After each song the carried pair becomes that
//! song's final pair.

use crate::data_model::native_metadata::{NativeMetadata, NativeMetadataView};
use crate::data_model::{AlbumInputSong, AlbumInputSongView};
use crate::order::lemma_vec_deep_view_index;
use vstd::prelude::*;

verus! {

broadcast use lemma_vec_deep_view_index;

/// One song's assigned pair. `split_ambiguous` reports that the numbering
/// overflowed into a media whose track count is unknown (or that no track
/// count was known at all), so the raw pair was kept.
#[derive(Debug, Clone, Copy, PartialEq, Eq, Structural)]
pub struct TrackAssignment {
    pub media_idx: u64,
    pub track_idx: u64,
    pub split_ambiguous: bool,
}

/// Increment that stays at the numeric limit instead of wrapping.
pub open spec fn sat_inc(t: u64) -> u64 {
    if t == u64::MAX {
        t
    } else {
        (t + 1) as u64
    }
}

/// The known track count of a media index, if any. Media indices are
/// 1-based; an index outside the known list is unknown.
pub open spec fn count_of(counts: Seq<Option<u64>>, media: u64) -> Option<u64> {
    if 1 <= media <= counts.len() {
        counts[media - 1]
    } else {
        None
    }
}

/// Walks the splitting rule: `Some` with the settled pair once the track
/// index fits its media's known track count, `None` as soon as a needed
/// track count is unknown (or the media index cannot advance further).
pub open spec fn split_steps(counts: Seq<Option<u64>>, media: u64, track: u64) -> Option<
    (u64, u64),
>
    decreases counts.len() + 1 - media,
{
    match count_of(counts, media) {
        None => None,
        Some(c) => if track > c {
            if media == u64::MAX {
                None
            } else {
                split_steps(counts, (media + 1) as u64, (track - c) as u64)
            }
        } else {
            Some((media, track))
        },
    }
}

/// The raw pair of one song, before splitting: native tag pair if complete,
/// else override components, else the default rule over the carried pair.
pub open spec fn raw_pair(
    carried: (u64, u64),
    s: AlbumInputSongView,
    n: NativeMetadataView,
) -> (u64, u64) {
    match (n.disc_idx, n.track_idx) {
        (Some(d), Some(t)) => (d, t),
        _ => (
            match s.override_disc_idx {
                Some(d) => d,
                None => carried.0,
            },
            match s.override_track_idx {
                Some(t) => t,
                None => sat_inc(carried.1),
            },
        ),
    }
}

/// The assignment of one song from the carried pair.
pub open spec fn assign_one(
    counts: Seq<Option<u64>>,
    carried: (u64, u64),
    s: AlbumInputSongView,
    n: NativeMetadataView,
) -> TrackAssignment {
    let raw = raw_pair(carried, s, n);
    match split_steps(counts, raw.0, raw.1) {
        Some(p) => TrackAssignment { media_idx: p.0, track_idx: p.1, split_ambiguous: false },
        None => TrackAssignment { media_idx: raw.0, track_idx: raw.1, split_ambiguous: true },
    }
}

/// The assignments of a song sequence, carrying each song's final pair into
/// the next.
pub open spec fn assign_seq(
    counts: Seq<Option<u64>>,
    carried: (u64, u64),
    songs: Seq<AlbumInputSongView>,
    natives: Seq<NativeMetadataView>,
) -> Seq<TrackAssignment>
    decreases songs.len(),
{
    if songs.len() == 0 {
        Seq::empty()
    } else {
        let a = assign_one(counts, carried, songs[0], natives[0]);
        seq![a] + assign_seq(
            counts,
            (a.media_idx, a.track_idx),
            songs.skip(1),
            natives.skip(1),
        )
    }
}

/// The assignments of a whole album, starting from media 1, track 0.
pub open spec fn spec_assign_track_indices(
    counts: Seq<Option<u64>>,
    songs: Seq<AlbumInputSongView>,
    natives: Seq<NativeMetadataView>,
) -> Seq<TrackAssignment> {
    assign_seq(counts, (1u64, 0u64), songs, natives)
}

/// Applies the splitting rule to one raw pair.
#[verifier::loop_isolation(false)]
fn split_pair(media_track_counts: &Vec<Option<u64>>, media: u64, track: u64) -> (r: TrackAssignment)
    ensures
        r == (match split_steps(media_track_counts@, media, track) {
            Some(p) => TrackAssignment { media_idx: p.0, track_idx: p.1, split_ambiguous: false },
            None => TrackAssignment { media_idx: media, track_idx: track, split_ambiguous: true },
        }),
{
    let mut m = media;
    let mut t = track;
    loop
        invariant
            split_steps(media_track_counts@, media, track) == split_steps(
                media_track_counts@,
                m,
                t,
            ),
        decreases media_track_counts@.len() + 1 - m,
    {
        if m < 1 || m > media_track_counts.len() as u64 {
            return TrackAssignment { media_idx: media, track_idx: track, split_ambiguous: true };
        }
        match media_track_counts[(m - 1) as usize] {
            None => {
                return TrackAssignment {
                    media_idx: media,
                    track_idx: track,
                    split_ambiguous: true,
                };
            },
            Some(c) => {
                if t > c {
                    if m == u64::MAX {
                        return TrackAssignment {
                            media_idx: media,
                            track_idx: track,
                            split_ambiguous: true,
                        };
                    }
                    t = t - c;
                    m = m + 1;
                } else {
                    return TrackAssignment { media_idx: m, track_idx: t, split_ambiguous: false };
                }
            },
        }
    }
}

/// Assigns a (media, track) pair to every song of an album, in final group
/// order. `natives` holds each song's native tag record, in the same order;
/// `media_track_counts` holds the known track count of each media, from the
/// derived release metadata.
#[verifier::loop_isolation(false)]
pub fn assign_track_indices(
    songs: &Vec<AlbumInputSong>,
    natives: &Vec<NativeMetadata>,
    media_track_counts: &Vec<Option<u64>>,
) -> (r: Vec<TrackAssignment>)
    requires
        natives@.len() == songs@.len(),
    ensures
        r@ == spec_assign_track_indices(media_track_counts@, songs.deep_view(), natives.deep_view()),
        r@.len() == songs@.len(),
{
    let ghost sdv = songs.deep_view();
    let ghost ndv = natives.deep_view();
    let ghost counts = media_track_counts@;
    let mut r: Vec<TrackAssignment> = Vec::new();
    let mut media: u64 = 1;
    let mut track: u64 = 0;
    let mut i: usize = 0;
    proof {
        assert(sdv.skip(0) =~= sdv);
        assert(ndv.skip(0) =~= ndv);
    }
    while i < songs.len()
        invariant
            i <= songs@.len(),
            r@.len() == i,
            assign_seq(counts, (1u64, 0u64), sdv, ndv) =~= r@ + assign_seq(
                counts,
                (media, track),
                sdv.skip(i as int),
                ndv.skip(i as int),
            ),
        decreases songs@.len() - i,
    {
        let native = &natives[i];
        let song = &songs[i];
        let raw: (u64, u64) = if native.disc_idx.is_some() && native.track_idx.is_some() {
            (native.disc_idx.unwrap(), native.track_idx.unwrap())
        } else {
            let d = match song.override_disc_idx {
                Some(d) => d,
                None => media,
            };
            let t = match song.override_track_idx {
                Some(t) => t,
                None => if track == u64::MAX {
                    track
                } else {
                    track + 1
                },
            };
            (d, t)
        };
        proof {
            assert(sdv[i as int] == songs@[i as int]@);
            assert(ndv[i as int] == natives@[i as int]@);
            assert(raw == raw_pair((media, track), sdv[i as int], ndv[i as int]));
        }
        let a = split_pair(media_track_counts, raw.0, raw.1);
        proof {
            assert(a == assign_one(counts, (media, track), sdv[i as int], ndv[i as int]));
            assert(sdv.skip(i as int)[0] == sdv[i as int]);
            assert(ndv.skip(i as int)[0] == ndv[i as int]);
            assert(sdv.skip(i as int).skip(1) =~= sdv.skip(i + 1));
            assert(ndv.skip(i as int).skip(1) =~= ndv.skip(i + 1));
            assert(assign_seq(counts, (media, track), sdv.skip(i as int), ndv.skip(i as int))
                =~= seq![a] + assign_seq(
                counts,
                (a.media_idx, a.track_idx),
                sdv.skip(i + 1),
                ndv.skip(i + 1),
            ));
        }
        media = a.media_idx;
        track = a.track_idx;
        r.push(a);
        i = i + 1;
    }
    proof {
        assert(sdv.skip(i as int) =~= Seq::<AlbumInputSongView>::empty());
        assert(assign_seq(counts, (media, track), sdv.skip(i as int), ndv.skip(i as int))
            =~= Seq::<TrackAssignment>::empty());
        assert(r@ =~= assign_seq(counts, (1u64, 0u64), sdv, ndv));
    }
    r
}

} // verus!
