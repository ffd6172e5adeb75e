//! Group assembly: merging the scanned song files of a group with the
//! descriptor's per-song overrides into one ordered song sequence.
//!
//! Assembly of either group kind proceeds in the same steps: each scanned
//! path is made relative to the group root (`ScanError` if one is not under
//! the root), the relative paths are sorted ascending in the canonical path
//! order, duplicates are rejected (`ReferenceError`), one song record per
//! path is seeded without overrides, and the descriptor's override records
//! are applied in declaration order. An override that names an unknown path
//! or an out-of-range position is a `ReferenceError`. Compilation overrides
//! may also reposition their song: the song moves to the requested index and
//! the songs between the two positions shift by one slot, so later overrides
//! see already-shifted positions.

use crate::data_model::user_defined::{
    AlbumInputSongOverride, AlbumInputSongOverrideView, CompilationInputSongOverride,
    CompilationInputSongOverrideView, Origin, ScanFilter,
};
use crate::data_model::{
    metadata, AlbumInputGroup, AlbumInputSong, AlbumInputSongView, CompilationInputGroup,
    CompilationInputSong, CompilationInputSongView,
};
use crate::errors::GroupError;
use crate::order::{
    find_adjacent_duplicate, is_under_root, lemma_paths_deep_view_index, lemma_vec_deep_view_index,
    path_eq_exec, rel_of, sort_paths, sorted_rel_paths, strip_root_prefix,
};
use vstd::prelude::*;

verus! {

broadcast use lemma_paths_deep_view_index, lemma_vec_deep_view_index;

/// The relative paths of the scanned files below the group root.
pub open spec fn rel_paths_of(root: Seq<u8>, fulls: Seq<Seq<u8>>) -> Seq<Seq<u8>> {
    fulls.map_values(|f: Seq<u8>| rel_of(root, f))
}

/// Whether every scanned file lies below the group root.
pub open spec fn all_under_root(root: Seq<u8>, fulls: Seq<Seq<u8>>) -> bool {
    forall|i: int| 0 <= i < fulls.len() ==> is_under_root(root, #[trigger] fulls[i])
}

/// Moves the element at `cur` to position `tgt`, shifting the elements
/// between the two positions by one slot.
pub open spec fn move_element<A>(s: Seq<A>, cur: int, tgt: int) -> Seq<A> {
    s.remove(cur).insert(tgt, s[cur])
}

/// Moving an element around preserves the multiset of elements.
pub proof fn lemma_move_element_multiset<A>(s: Seq<A>, cur: int, tgt: int)
    requires
        0 <= cur < s.len(),
        0 <= tgt < s.len(),
    ensures
        move_element(s, cur, tgt).to_multiset() == s.to_multiset(),
{
    broadcast use vstd::seq_lib::group_to_multiset_ensures;

    let removed = s.remove(cur);
    let moved = move_element(s, cur, tgt);
    assert(removed.to_multiset() =~= s.to_multiset().remove(s[cur]));
    assert(moved.remove(tgt) =~= removed);
    assert(moved.remove(tgt).to_multiset() =~= moved.to_multiset().remove(moved[tgt]));
    assert(moved[tgt] == s[cur]);
    assert(moved.contains(moved[tgt]));
    assert(s.to_multiset().contains(s[cur]));
    assert(moved.to_multiset() =~= s.to_multiset());
}

/// An update preserves the multiset of any mapping that the update leaves
/// unchanged; here used for the file paths of a song list.
pub proof fn lemma_update_same_multiset<A>(s: Seq<A>, i: int, x: A)
    requires
        0 <= i < s.len(),
        x == s[i],
    ensures
        s.update(i, x).to_multiset() == s.to_multiset(),
{
    assert(s.update(i, x) =~= s);
}

/// Merges a later set metadata override over the earlier value, field by
/// field.
fn merge_override_exec(
    prev: Option<metadata::song::Override>,
    next: metadata::song::Override,
) -> (r: metadata::song::Override)
    ensures
        Some(r.deep_view()) == merge_song_override(prev.deep_view(), Some(next.deep_view())),
{
    match prev {
        None => next,
        Some(pm) => metadata::song::Override {
            song_title: if next.song_title.is_some() {
                next.song_title
            } else {
                pm.song_title
            },
            song_artists: if next.song_artists.is_some() {
                next.song_artists
            } else {
                pm.song_artists
            },
        },
    }
}

// ---------------------------------------------------------------------
// Compilation groups
// ---------------------------------------------------------------------

/// One seeded song record per relative path, without overrides.
pub open spec fn initial_comp_songs(rels: Seq<Seq<u8>>) -> Seq<CompilationInputSongView> {
    rels.map_values(
        |p: Seq<u8>|
            CompilationInputSongView {
                file: p,
                origin_mbid: None,
                override_metadata: None,
                derived_metadata_src: None,
                cached_metadata: None,
            },
    )
}

/// The relative paths of a compilation song list, in order.
pub open spec fn comp_files(songs: Seq<CompilationInputSongView>) -> Seq<Seq<u8>> {
    songs.map_values(|s: CompilationInputSongView| s.file)
}

/// Whether some song of the list has the given relative path.
pub open spec fn comp_has_file(songs: Seq<CompilationInputSongView>, p: Seq<u8>) -> bool {
    exists|i: int| 0 <= i < songs.len() && (#[trigger] songs[i]).file == p
}

/// The index of the song with the given relative path; within a group the
/// paths are unique, so the index is determined.
pub open spec fn comp_file_index(songs: Seq<CompilationInputSongView>, p: Seq<u8>) -> int {
    choose|i: int| 0 <= i < songs.len() && (#[trigger] songs[i]).file == p
}

/// Merges a later metadata override over an earlier one, field by field:
/// a field the later record leaves unset keeps the earlier record's value,
/// down inside the metadata record — never an object replace.
pub open spec fn merge_song_override(
    prev: Option<metadata::song::OverrideView>,
    next: Option<metadata::song::OverrideView>,
) -> Option<metadata::song::OverrideView> {
    match (prev, next) {
        (p, None) => p,
        (None, Some(n)) => Some(n),
        (Some(p), Some(n)) => Some(
            metadata::song::OverrideView {
                song_title: if n.song_title is Some {
                    n.song_title
                } else {
                    p.song_title
                },
                song_artists: if n.song_artists is Some {
                    n.song_artists
                } else {
                    p.song_artists
                },
            },
        ),
    }
}

/// Merges one override record into one song record, field by field: an
/// unset override field leaves the prior value untouched, including the
/// individual fields inside the metadata override.
pub open spec fn merge_comp_song(
    s: CompilationInputSongView,
    ov: CompilationInputSongOverrideView,
) -> CompilationInputSongView {
    CompilationInputSongView {
        file: s.file,
        origin_mbid: if ov.origin_mbid is Some {
            ov.origin_mbid
        } else {
            s.origin_mbid
        },
        override_metadata: merge_song_override(s.override_metadata, ov.override_metadata),
        derived_metadata_src: s.derived_metadata_src,
        cached_metadata: s.cached_metadata,
    }
}

/// Law: merging one override record is idempotent. A field the override
/// sets is overwritten with the same value the second time; a field it
/// leaves unset stays untouched both times.
pub proof fn lemma_merge_comp_song_idempotent(
    s: CompilationInputSongView,
    ov: CompilationInputSongOverrideView,
)
    ensures
        merge_comp_song(merge_comp_song(s, ov), ov) == merge_comp_song(s, ov),
{
}

/// The position the override's song ends up at: the requested position if
/// one is given and in range, else the song's current position.
pub open spec fn comp_target_index(
    songs: Seq<CompilationInputSongView>,
    ov: CompilationInputSongOverrideView,
) -> int {
    let cur = comp_file_index(songs, ov.file_rel_path);
    match ov.override_position {
        Some(p) => if p < songs.len() {
            p as int
        } else {
            cur
        },
        None => cur,
    }
}

/// Applies one override: repositions the song if requested, then merges the
/// override fields into it.
pub open spec fn apply_comp_override(
    songs: Seq<CompilationInputSongView>,
    ov: CompilationInputSongOverrideView,
) -> Seq<CompilationInputSongView> {
    if !comp_has_file(songs, ov.file_rel_path) {
        songs
    } else {
        let cur = comp_file_index(songs, ov.file_rel_path);
        let tgt = comp_target_index(songs, ov);
        let moved = if tgt == cur {
            songs
        } else {
            move_element(songs, cur, tgt)
        };
        moved.update(tgt, merge_comp_song(moved[tgt], ov))
    }
}

/// Law: applying one override record twice equals applying it once. The
/// second application finds the song already at the requested position and
/// re-merges the same field values.
pub proof fn lemma_apply_comp_override_idempotent(
    songs: Seq<CompilationInputSongView>,
    ov: CompilationInputSongOverrideView,
)
    requires
        comp_files(songs).no_duplicates(),
    ensures
        apply_comp_override(apply_comp_override(songs, ov), ov) == apply_comp_override(songs, ov),
{
    broadcast use vstd::seq_lib::group_to_multiset_ensures;

    let p = ov.file_rel_path;
    if comp_has_file(songs, p) {
        let cur = comp_file_index(songs, p);
        assert(0 <= cur < songs.len() && songs[cur].file == p);
        let tgt = comp_target_index(songs, ov);
        assert(0 <= tgt < songs.len());
        let moved = if tgt == cur {
            songs
        } else {
            move_element(songs, cur, tgt)
        };
        let merged = merge_comp_song(moved[tgt], ov);
        let s1 = moved.update(tgt, merged);
        assert(apply_comp_override(songs, ov) == s1);
        assert(moved[tgt] == songs[cur]);
        assert(s1[tgt].file == p);
        assert(comp_has_file(s1, p));
        // the file paths of the applied group are still unique
        assert(comp_files(moved) =~= (if tgt == cur {
            comp_files(songs)
        } else {
            move_element(comp_files(songs), cur, tgt)
        }));
        if tgt != cur {
            lemma_move_element_multiset(comp_files(songs), cur, tgt);
        }
        assert(comp_files(s1) =~= comp_files(moved).update(tgt, merged.file));
        lemma_update_same_multiset(comp_files(moved), tgt, merged.file);
        assert(comp_files(s1).to_multiset() == comp_files(songs).to_multiset());
        comp_files(songs).lemma_multiset_has_no_duplicates();
        comp_files(s1).lemma_multiset_has_no_duplicates_conv();
        assert(comp_files(s1).no_duplicates());
        // the second application finds the song where the first left it
        let cur2 = comp_file_index(s1, p);
        assert(0 <= cur2 < s1.len() && s1[cur2].file == p);
        assert(comp_files(s1)[cur2] == s1[cur2].file);
        assert(comp_files(s1)[tgt] == s1[tgt].file);
        assert(cur2 == tgt);
        let tgt2 = comp_target_index(s1, ov);
        assert(tgt2 == cur2);
        let merged2 = merge_comp_song(s1[tgt2], ov);
        assert(merged2 == merge_comp_song(merged, ov));
        lemma_merge_comp_song_idempotent(moved[tgt], ov);
        assert(merged2 == merged);
        assert(apply_comp_override(s1, ov) == s1.update(tgt, merged));
        assert(s1.update(tgt, merged) =~= s1);
    }
}

/// Applies the override records in declaration order.
pub open spec fn apply_comp_overrides(
    songs: Seq<CompilationInputSongView>,
    ovs: Seq<CompilationInputSongOverrideView>,
) -> Seq<CompilationInputSongView>
    decreases ovs.len(),
{
    if ovs.len() == 0 {
        songs
    } else {
        apply_comp_override(apply_comp_overrides(songs, ovs.drop_last()), ovs.last())
    }
}

/// Law: assembly is a bijection between scanned files and songs. Applying
/// any override list never adds or removes a song, so an assembled group
/// holds exactly one song per scanned relative path.
pub proof fn lemma_assembly_preserves_song_count(
    songs: Seq<CompilationInputSongView>,
    ovs: Seq<CompilationInputSongOverrideView>,
)
    ensures
        apply_comp_overrides(songs, ovs).len() == songs.len(),
    decreases ovs.len(),
{
    if ovs.len() > 0 {
        lemma_assembly_preserves_song_count(songs, ovs.drop_last());
    }
}

/// Law: album assembly is a bijection between scanned files and songs.
pub proof fn lemma_album_assembly_preserves_song_count(
    songs: Seq<AlbumInputSongView>,
    ovs: Seq<AlbumInputSongOverrideView>,
)
    ensures
        apply_album_overrides(songs, ovs).len() == songs.len(),
    decreases ovs.len(),
{
    if ovs.len() > 0 {
        lemma_album_assembly_preserves_song_count(songs, ovs.drop_last());
    }
}

/// Whether one override refers to a scanned path and an in-range position.
pub open spec fn comp_override_ok(
    rels: Seq<Seq<u8>>,
    ov: CompilationInputSongOverrideView,
) -> bool {
    &&& rels.contains(ov.file_rel_path)
    &&& match ov.override_position {
        Some(p) => p < rels.len(),
        None => true,
    }
}

/// Whether every override of the descriptor is valid.
pub open spec fn comp_overrides_ok(
    rels: Seq<Seq<u8>>,
    ovs: Seq<CompilationInputSongOverrideView>,
) -> bool {
    forall|k: int| 0 <= k < ovs.len() ==> comp_override_ok(rels, #[trigger] ovs[k])
}

/// The assembled song sequence of a compilation group.
pub open spec fn spec_assemble_compilation(
    root: Seq<u8>,
    fulls: Seq<Seq<u8>>,
    ovs: Seq<CompilationInputSongOverrideView>,
) -> Seq<CompilationInputSongView> {
    apply_comp_overrides(initial_comp_songs(sorted_rel_paths(rel_paths_of(root, fulls))), ovs)
}

// ---------------------------------------------------------------------
// Shared executable steps
// ---------------------------------------------------------------------

/// Strips the group root from every scanned path and sorts the relative
/// paths ascending; rejects paths outside the root and duplicates.
#[verifier::loop_isolation(false)]
pub fn rel_sorted_paths(root: &Vec<u8>, non_rel_song_paths: Vec<Vec<u8>>) -> (r: Result<
    Vec<Vec<u8>>,
    GroupError,
>)
    ensures
        r is Ok <==> all_under_root(root@, non_rel_song_paths.deep_view()) && rel_paths_of(
            root@,
            non_rel_song_paths.deep_view(),
        ).no_duplicates(),
        r matches Ok(v) ==> v.deep_view() == sorted_rel_paths(
            rel_paths_of(root@, non_rel_song_paths.deep_view()),
        ),
        r matches Err(GroupError::ScanError { path }) ==> exists|i: int|
            0 <= i < non_rel_song_paths.deep_view().len() && !is_under_root(
                root@,
                #[trigger] non_rel_song_paths.deep_view()[i],
            ) && path@ == non_rel_song_paths.deep_view()[i],
        r matches Err(GroupError::ReferenceError { path }) ==> all_under_root(
            root@,
            non_rel_song_paths.deep_view(),
        ) && !rel_paths_of(root@, non_rel_song_paths.deep_view()).no_duplicates() && (exists|
            i: int,
            j: int,
        |
            0 <= i < rel_paths_of(root@, non_rel_song_paths.deep_view()).len() && 0 <= j
                < rel_paths_of(root@, non_rel_song_paths.deep_view()).len() && i != j && (
            #[trigger] rel_paths_of(root@, non_rel_song_paths.deep_view())[i]) == path@ && (
            #[trigger] rel_paths_of(root@, non_rel_song_paths.deep_view())[j]) == path@),
{
    broadcast use vstd::seq_lib::group_to_multiset_ensures;

    let ghost fulls = non_rel_song_paths.deep_view();
    let ghost all_rels = rel_paths_of(root@, fulls);
    let mut rels: Vec<Vec<u8>> = Vec::new();
    let mut fs = non_rel_song_paths;
    let mut i: usize = 0;
    while i < fs.len()
        invariant
            fs.deep_view() == fulls,
            fs@.len() == fulls.len(),
            i <= fulls.len(),
            forall|k: int| 0 <= k < i ==> is_under_root(root@, #[trigger] fulls[k]),
            rels.deep_view() =~= all_rels.take(i as int),
        decreases fulls.len() - i,
    {
        proof {
            assert(fulls[i as int] == fs.deep_view()[i as int]);
            assert(fs.deep_view()[i as int] == fs@[i as int]@);
        }
        match strip_root_prefix(root, &fs[i]) {
            Some(rel) => {
                let ghost relv = rel@;
                let ghost rels0 = rels.deep_view();
                rels.push(rel);
                proof {
                    assert(relv == rel_of(root@, fulls[i as int]));
                    assert(rels.deep_view() =~= rels0.push(relv));
                    assert(rels.deep_view() =~= all_rels.take(i + 1));
                }
                i = i + 1;
            },
            None => {
                let ghost fsdv = fs.deep_view();
                let p = fs.remove(i);
                proof {
                    assert(p@ == fsdv[i as int]);
                    assert(!is_under_root(root@, fulls[i as int]));
                }
                return Err(GroupError::ScanError { path: p });
            },
        }
    }
    proof {
        assert(rels.deep_view() =~= all_rels);
    }
    let sorted = sort_paths(rels);
    proof {
        crate::order::lemma_path_le_total_ordering();
        all_rels.lemma_sort_by_ensures(crate::order::path_le_fn());
        all_rels.to_multiset_ensures();
        sorted.deep_view().to_multiset_ensures();
    }
    match find_adjacent_duplicate(&sorted) {
        Some(d) => {
            let ghost sdv = sorted.deep_view();
            let mut sorted = sorted;
            let p = sorted.remove(d);
            proof {
                // a duplicate among the sorted paths is a duplicate among
                // the relative paths, which are a permutation of them
                assert(p@ == sdv[d as int]);
                assert(sdv.contains(p@));
                assert(all_rels.to_multiset() == sdv.to_multiset());
                if all_rels.no_duplicates() {
                    all_rels.lemma_multiset_has_no_duplicates();
                    sdv.lemma_multiset_has_no_duplicates_conv();
                    assert(sdv.no_duplicates());
                    assert(false);
                }
                // the duplicated value occurs at least twice, so it sits at
                // two distinct indices of the relative paths
                let s1 = sdv.remove(d as int);
                assert(s1.to_multiset() =~= sdv.to_multiset().remove(sdv[d as int]));
                assert(s1[d as int] == sdv[d + 1]);
                assert(s1.contains(p@));
                assert(s1.to_multiset().count(p@) >= 1);
                assert(sdv.to_multiset().count(p@) >= 2);
                assert(all_rels.to_multiset().count(p@) >= 2);
                assert(all_rels.contains(p@));
                let i0 = choose|i: int| 0 <= i < all_rels.len() && all_rels[i] == p@;
                let r1 = all_rels.remove(i0);
                assert(r1.to_multiset() =~= all_rels.to_multiset().remove(all_rels[i0]));
                assert(r1.to_multiset().count(p@) >= 1);
                assert(r1.contains(p@));
                let j0 = choose|j: int| 0 <= j < r1.len() && r1[j] == p@;
                let j1 = if j0 < i0 {
                    j0
                } else {
                    j0 + 1
                };
                assert(j1 != i0 && 0 <= j1 < all_rels.len() && all_rels[j1] == p@);
            }
            return Err(GroupError::ReferenceError { path: p });
        },
        None => {
            proof {
                assert(sorted.deep_view().no_duplicates());
                sorted.deep_view().lemma_multiset_has_no_duplicates();
                all_rels.lemma_multiset_has_no_duplicates_conv();
                assert(all_rels.no_duplicates());
            }
            Ok(sorted)
        },
    }
}


/// Applies a compilation descriptor's override records, in declaration
/// order, to the seeded songs of the sorted relative paths.
#[verifier::loop_isolation(false)]
#[verifier::rlimit(60)]
fn apply_comp_overrides_exec(sorted: Vec<Vec<u8>>, overrides: Vec<CompilationInputSongOverride>)
    -> (r: Result<Vec<CompilationInputSong>, GroupError>)
    requires
        sorted.deep_view().no_duplicates(),
    ensures
        r is Ok <==> comp_overrides_ok(sorted.deep_view(), overrides.deep_view()),
        r matches Ok(songs) ==> songs.deep_view() == apply_comp_overrides(
            initial_comp_songs(sorted.deep_view()),
            overrides.deep_view(),
        ) && songs@.len() == sorted@.len(),
        r matches Err(e) ==> (e matches GroupError::ReferenceError { path } && exists|j: int|
            0 <= j < overrides.deep_view().len() && !comp_override_ok(
                sorted.deep_view(),
                #[trigger] overrides.deep_view()[j],
            ) && path@ == overrides.deep_view()[j].file_rel_path),
{
    broadcast use vstd::seq_lib::group_to_multiset_ensures;

    let ghost sdv = sorted.deep_view();
    let ghost ovs0 = overrides.deep_view();
    let ghost initial = initial_comp_songs(sdv);

    // seed one song record per relative path, in sorted order
    let mut paths = sorted;
    let mut songs: Vec<CompilationInputSong> = Vec::new();
    while paths.len() > 0
        invariant
            songs@.len() + paths@.len() == sdv.len(),
            paths.deep_view() =~= sdv.skip(songs@.len() as int),
            songs.deep_view() =~= initial.take(songs@.len() as int),
        decreases paths@.len(),
    {
        let ghost n = songs@.len() as int;
        let ghost pdv0 = paths.deep_view();
        let p = paths.remove(0);
        proof {
            assert(p@ == pdv0[0]);
            assert(p@ == sdv[n]);
            assert(paths.deep_view() =~= pdv0.skip(1));
            assert(paths.deep_view() =~= sdv.skip(n + 1));
        }
        songs.push(
            CompilationInputSong {
                file: p,
                origin_mbid: None,
                override_metadata: None,
                derived_metadata_src: None,
                cached_metadata: None,
            },
        );
        proof {
            assert(songs.deep_view() =~= initial.take(n + 1));
        }
    }
    proof {
        assert(songs.deep_view() =~= initial);
        assert(comp_files(initial) =~= sdv);
        assert(apply_comp_overrides(initial, ovs0.take(0)) == initial) by {
            assert(ovs0.take(0) =~= Seq::<CompilationInputSongOverrideView>::empty());
        }
    }

    // apply the override records in declaration order
    let mut ovs = overrides;
    let ghost mut k: int = 0;
    while ovs.len() > 0
        invariant
            0 <= k <= ovs0.len(),
            ovs@.len() + k == ovs0.len(),
            ovs.deep_view() =~= ovs0.skip(k),
            songs@.len() == sdv.len(),
            songs.deep_view() == apply_comp_overrides(initial, ovs0.take(k)),
            comp_files(songs.deep_view()).to_multiset() == sdv.to_multiset(),
            comp_files(songs.deep_view()).no_duplicates(),
            forall|j: int| 0 <= j < k ==> comp_override_ok(sdv, #[trigger] ovs0[j]),
        decreases ovs@.len(),
    {
        let ghost dv0 = songs.deep_view();
        let ghost files0 = comp_files(dv0);
        let ghost odv0 = ovs.deep_view();
        let ov = ovs.remove(0);
        proof {
            assert(ov@ == odv0[0]);
            assert(ov@ == ovs0[k]);
            assert(ovs.deep_view() =~= odv0.skip(1));
            assert(ovs.deep_view() =~= ovs0.skip(k + 1));
        }
        let ghost ovv = ov@;

        // locate the song this override targets
        let mut idx: usize = 0;
        while idx < songs.len() && !path_eq_exec(&songs[idx].file, &ov.file_rel_path)
            invariant
                idx <= songs@.len(),
                forall|j: int| 0 <= j < idx ==> (#[trigger] dv0[j]).file != ovv.file_rel_path,
            decreases songs@.len() - idx,
        {
            idx = idx + 1;
        }
        if idx >= songs.len() {
            proof {
                assert forall|j: int| 0 <= j < files0.len() implies #[trigger] files0[j]
                    != ovv.file_rel_path by {
                    assert(files0[j] == dv0[j].file);
                }
                assert(!files0.contains(ovv.file_rel_path));
                files0.to_multiset_ensures();
                sdv.to_multiset_ensures();
                assert(files0.to_multiset().count(ovv.file_rel_path) == 0);
                assert(sdv.to_multiset().count(ovv.file_rel_path) == 0);
                assert(!sdv.contains(ovv.file_rel_path));
                assert(!comp_override_ok(sdv, ovs0[k]));
            }
            return Err(GroupError::ReferenceError { path: ov.file_rel_path });
        }
        proof {
            assert(dv0[idx as int].file == ovv.file_rel_path);
            assert(comp_has_file(dv0, ovv.file_rel_path));
            let ci = comp_file_index(dv0, ovv.file_rel_path);
            assert(0 <= ci < dv0.len() && dv0[ci].file == ovv.file_rel_path);
            assert(comp_files(dv0)[ci] == dv0[ci].file);
            assert(comp_files(dv0)[idx as int] == dv0[idx as int].file);
            assert(ci == idx as int);
            // the song is present, so the override refers to a scanned path
            assert(files0[idx as int] == dv0[idx as int].file);
            assert(files0.contains(ovv.file_rel_path));
            files0.to_multiset_ensures();
            sdv.to_multiset_ensures();
            assert(files0.to_multiset().count(ovv.file_rel_path) > 0);
            assert(sdv.to_multiset().count(ovv.file_rel_path) > 0);
            assert(sdv.contains(ovv.file_rel_path));
        }

        // reposition the song if the override asks for it
        let tgt: usize = match ov.override_position {
            Some(p) => {
                if p >= songs.len() {
                    proof {
                        assert(!comp_override_ok(sdv, ovs0[k]));
                    }
                    return Err(GroupError::ReferenceError { path: ov.file_rel_path });
                }
                if p != idx {
                    let moved_song = songs.remove(idx);
                    songs.insert(p, moved_song);
                    proof {
                        assert(songs.deep_view() =~= move_element(dv0, idx as int, p as int));
                    }
                }
                p
            },
            None => idx,
        };
        let ghost moved = if tgt as int == idx as int {
            dv0
        } else {
            move_element(dv0, idx as int, tgt as int)
        };
        proof {
            assert(songs.deep_view() == moved);
            assert(comp_target_index(dv0, ovv) == tgt as int);
        }

        // merge the override fields into the song, field by field
        let mut song = songs.remove(tgt);
        proof {
            assert(song@ == moved[tgt as int]);
        }
        let ghost merged = merge_comp_song(moved[tgt as int], ovv);
        if ov.origin_mbid.is_some() {
            song.origin_mbid = ov.origin_mbid;
        }
        match ov.override_metadata {
            Some(o) => {
                let prev = song.override_metadata;
                song.override_metadata = Some(merge_override_exec(prev, o));
            },
            None => {},
        }
        proof {
            assert(song@ == merged);
        }
        songs.insert(tgt, song);
        proof {
            assert(songs.deep_view() =~= moved.update(tgt as int, merged));
            assert(songs.deep_view() == apply_comp_override(dv0, ovv));
            assert(ovs0.take(k + 1).drop_last() =~= ovs0.take(k));
            assert(ovs0.take(k + 1).last() == ovs0[k]);
            assert(songs.deep_view() == apply_comp_overrides(initial, ovs0.take(k + 1)));
            // the file paths stay a permutation of the sorted paths
            assert(comp_files(moved) =~= (if tgt as int == idx as int {
                files0
            } else {
                move_element(files0, idx as int, tgt as int)
            }));
            if tgt as int != idx as int {
                lemma_move_element_multiset(files0, idx as int, tgt as int);
            }
            assert(comp_files(songs.deep_view()) =~= comp_files(moved).update(
                tgt as int,
                merged.file,
            ));
            assert(merged.file == comp_files(moved)[tgt as int]);
            lemma_update_same_multiset(comp_files(moved), tgt as int, merged.file);
            assert(comp_files(songs.deep_view()).to_multiset() == sdv.to_multiset());
            comp_files(songs.deep_view()).to_multiset_ensures();
            files0.to_multiset_ensures();
            if !comp_files(songs.deep_view()).no_duplicates() {
                comp_files(songs.deep_view()).lemma_multiset_has_no_duplicates();
                assert(false);
            }
            assert(comp_override_ok(sdv, ovs0[k]));
            k = k + 1;
        }
    }
    proof {
        assert(ovs0.take(k) =~= ovs0);
    }
    Ok(songs)
}


impl CompilationInputGroup {
    /// Assembles a compilation group: relativizes and sorts the scanned
    /// paths, seeds one song per path, and applies the descriptor's
    /// override records in declaration order.
    pub fn new(
        path: &Vec<u8>,
        origin: Origin,
        scan_filter: Option<ScanFilter>,
        title: String,
        songs: Vec<CompilationInputSongOverride>,
        non_rel_song_paths: Vec<Vec<u8>>,
    ) -> (r: Result<CompilationInputGroup, GroupError>)
        ensures
            r is Ok <==> (all_under_root(path@, non_rel_song_paths.deep_view()) && rel_paths_of(
                path@,
                non_rel_song_paths.deep_view(),
            ).no_duplicates() && comp_overrides_ok(
                rel_paths_of(path@, non_rel_song_paths.deep_view()),
                songs.deep_view(),
            )),
            r matches Ok(g) ==> (g.origin == origin && g.scan_filter == scan_filter && g.title
                == title && g.song_files.deep_view() == spec_assemble_compilation(
                path@,
                non_rel_song_paths.deep_view(),
                songs.deep_view(),
            ) && g.song_files@.len() == non_rel_song_paths@.len()),
            r matches Err(GroupError::ScanError { path: bad }) ==> exists|i: int|
                0 <= i < non_rel_song_paths.deep_view().len() && !is_under_root(
                    path@,
                    #[trigger] non_rel_song_paths.deep_view()[i],
                ) && bad@ == non_rel_song_paths.deep_view()[i],
            r matches Err(GroupError::ReferenceError { path: bad }) ==> all_under_root(
                path@,
                non_rel_song_paths.deep_view(),
            ) && ((exists|i: int, j: int|
                0 <= i < rel_paths_of(path@, non_rel_song_paths.deep_view()).len() && 0 <= j
                    < rel_paths_of(path@, non_rel_song_paths.deep_view()).len() && i != j && (
                #[trigger] rel_paths_of(path@, non_rel_song_paths.deep_view())[i]) == bad@ && (
                #[trigger] rel_paths_of(path@, non_rel_song_paths.deep_view())[j]) == bad@) || (
            exists|k: int|
                0 <= k < songs.deep_view().len() && !comp_override_ok(
                    rel_paths_of(path@, non_rel_song_paths.deep_view()),
                    #[trigger] songs.deep_view()[k],
                ) && bad@ == songs.deep_view()[k].file_rel_path)),
    {
        broadcast use vstd::seq_lib::group_to_multiset_ensures;

        let ghost fulls = non_rel_song_paths.deep_view();
        let ghost rels = rel_paths_of(path@, fulls);
        let ghost ovs0 = songs.deep_view();
        let sorted = match rel_sorted_paths(path, non_rel_song_paths) {
            Ok(v) => v,
            Err(e) => {
                return Err(e);
            },
        };
        let ghost sdv = sorted.deep_view();
        proof {
            crate::order::lemma_path_le_total_ordering();
            rels.lemma_sort_by_ensures(crate::order::path_le_fn());
            rels.to_multiset_ensures();
            sdv.to_multiset_ensures();
            rels.lemma_multiset_has_no_duplicates();
            sdv.lemma_multiset_has_no_duplicates_conv();
            assert(sdv.no_duplicates());
            assert(sdv.len() == rels.len());
            assert forall|j: int| 0 <= j < ovs0.len() implies (comp_override_ok(
                sdv,
                #[trigger] ovs0[j],
            ) <==> comp_override_ok(rels, ovs0[j])) by {
                let p = ovs0[j].file_rel_path;
                assert(sdv.contains(p) <==> sdv.to_multiset().count(p) > 0);
                assert(rels.contains(p) <==> rels.to_multiset().count(p) > 0);
            }
        }
        let song_files = match apply_comp_overrides_exec(sorted, songs) {
            Ok(v) => v,
            Err(e) => {
                return Err(e);
            },
        };
        Ok(CompilationInputGroup { origin, scan_filter, title, song_files })
    }
}

// ---------------------------------------------------------------------
// Album groups
// ---------------------------------------------------------------------

/// One seeded album song record per relative path, without overrides.
pub open spec fn initial_album_songs(rels: Seq<Seq<u8>>) -> Seq<AlbumInputSongView> {
    rels.map_values(
        |p: Seq<u8>|
            AlbumInputSongView {
                file: p,
                override_metadata: None,
                override_disc_idx: None,
                override_track_idx: None,
            },
    )
}

/// The relative paths of an album song list, in order.
pub open spec fn album_files(songs: Seq<AlbumInputSongView>) -> Seq<Seq<u8>> {
    songs.map_values(|s: AlbumInputSongView| s.file)
}

/// Whether some song of the list has the given relative path.
pub open spec fn album_has_file(songs: Seq<AlbumInputSongView>, p: Seq<u8>) -> bool {
    exists|i: int| 0 <= i < songs.len() && (#[trigger] songs[i]).file == p
}

/// The index of the song with the given relative path; within a group the
/// paths are unique, so the index is determined.
pub open spec fn album_file_index(songs: Seq<AlbumInputSongView>, p: Seq<u8>) -> int {
    choose|i: int| 0 <= i < songs.len() && (#[trigger] songs[i]).file == p
}

/// Merges one override record into one album song, field by field: an
/// unset override field leaves the prior value untouched, including the
/// individual fields inside the metadata override.
pub open spec fn merge_album_song(
    s: AlbumInputSongView,
    ov: AlbumInputSongOverrideView,
) -> AlbumInputSongView {
    AlbumInputSongView {
        file: s.file,
        override_metadata: merge_song_override(s.override_metadata, ov.override_metadata),
        override_disc_idx: if ov.override_disc_idx is Some {
            ov.override_disc_idx
        } else {
            s.override_disc_idx
        },
        override_track_idx: if ov.override_track_idx is Some {
            ov.override_track_idx
        } else {
            s.override_track_idx
        },
    }
}

/// Law: merging one album override record is idempotent.
pub proof fn lemma_merge_album_song_idempotent(
    s: AlbumInputSongView,
    ov: AlbumInputSongOverrideView,
)
    ensures
        merge_album_song(merge_album_song(s, ov), ov) == merge_album_song(s, ov),
{
}

/// Applies one album override: merges its fields into the named song.
/// Album descriptors have no reordering overrides.
pub open spec fn apply_album_override(
    songs: Seq<AlbumInputSongView>,
    ov: AlbumInputSongOverrideView,
) -> Seq<AlbumInputSongView> {
    if !album_has_file(songs, ov.file_rel_path) {
        songs
    } else {
        let cur = album_file_index(songs, ov.file_rel_path);
        songs.update(cur, merge_album_song(songs[cur], ov))
    }
}

/// Law: applying one album override record twice equals applying it once.
pub proof fn lemma_apply_album_override_idempotent(
    songs: Seq<AlbumInputSongView>,
    ov: AlbumInputSongOverrideView,
)
    requires
        album_files(songs).no_duplicates(),
    ensures
        apply_album_override(apply_album_override(songs, ov), ov) == apply_album_override(
            songs,
            ov,
        ),
{
    let p = ov.file_rel_path;
    if album_has_file(songs, p) {
        let cur = album_file_index(songs, p);
        assert(0 <= cur < songs.len() && songs[cur].file == p);
        let merged = merge_album_song(songs[cur], ov);
        let s1 = songs.update(cur, merged);
        assert(apply_album_override(songs, ov) == s1);
        assert(s1[cur].file == p);
        assert(album_has_file(s1, p));
        assert(album_files(s1) =~= album_files(songs));
        let cur2 = album_file_index(s1, p);
        assert(0 <= cur2 < s1.len() && s1[cur2].file == p);
        assert(album_files(s1)[cur2] == s1[cur2].file);
        assert(album_files(s1)[cur] == s1[cur].file);
        assert(cur2 == cur);
        lemma_merge_album_song_idempotent(songs[cur], ov);
        assert(apply_album_override(s1, ov) == s1.update(cur, merged));
        assert(s1.update(cur, merged) =~= s1);
    }
}

/// Applies the override records in declaration order.
pub open spec fn apply_album_overrides(
    songs: Seq<AlbumInputSongView>,
    ovs: Seq<AlbumInputSongOverrideView>,
) -> Seq<AlbumInputSongView>
    decreases ovs.len(),
{
    if ovs.len() == 0 {
        songs
    } else {
        apply_album_override(apply_album_overrides(songs, ovs.drop_last()), ovs.last())
    }
}

/// Whether one album override refers to a scanned path.
pub open spec fn album_override_ok(rels: Seq<Seq<u8>>, ov: AlbumInputSongOverrideView) -> bool {
    rels.contains(ov.file_rel_path)
}

/// Whether every override of the descriptor is valid.
pub open spec fn album_overrides_ok(
    rels: Seq<Seq<u8>>,
    ovs: Seq<AlbumInputSongOverrideView>,
) -> bool {
    forall|k: int| 0 <= k < ovs.len() ==> album_override_ok(rels, #[trigger] ovs[k])
}

/// The assembled song sequence of an album group.
pub open spec fn spec_assemble_album(
    root: Seq<u8>,
    fulls: Seq<Seq<u8>>,
    ovs: Seq<AlbumInputSongOverrideView>,
) -> Seq<AlbumInputSongView> {
    apply_album_overrides(initial_album_songs(sorted_rel_paths(rel_paths_of(root, fulls))), ovs)
}

/// Applies an album descriptor's override records, in declaration order, to
/// the seeded songs of the sorted relative paths.
#[verifier::loop_isolation(false)]
#[verifier::rlimit(60)]
fn apply_album_overrides_exec(sorted: Vec<Vec<u8>>, overrides: Vec<AlbumInputSongOverride>) -> (r:
    Result<Vec<AlbumInputSong>, GroupError>)
    requires
        sorted.deep_view().no_duplicates(),
    ensures
        r is Ok <==> album_overrides_ok(sorted.deep_view(), overrides.deep_view()),
        r matches Ok(songs) ==> songs.deep_view() == apply_album_overrides(
            initial_album_songs(sorted.deep_view()),
            overrides.deep_view(),
        ) && songs@.len() == sorted@.len(),
        r matches Err(e) ==> (e matches GroupError::ReferenceError { path } && exists|j: int|
            0 <= j < overrides.deep_view().len() && !album_override_ok(
                sorted.deep_view(),
                #[trigger] overrides.deep_view()[j],
            ) && path@ == overrides.deep_view()[j].file_rel_path),
{
    broadcast use vstd::seq_lib::group_to_multiset_ensures;

    let ghost sdv = sorted.deep_view();
    let ghost ovs0 = overrides.deep_view();
    let ghost initial = initial_album_songs(sdv);

    // seed one song record per relative path, in sorted order
    let mut paths = sorted;
    let mut songs: Vec<AlbumInputSong> = Vec::new();
    while paths.len() > 0
        invariant
            songs@.len() + paths@.len() == sdv.len(),
            paths.deep_view() =~= sdv.skip(songs@.len() as int),
            songs.deep_view() =~= initial.take(songs@.len() as int),
        decreases paths@.len(),
    {
        let ghost n = songs@.len() as int;
        let ghost pdv0 = paths.deep_view();
        let p = paths.remove(0);
        proof {
            assert(p@ == pdv0[0]);
            assert(p@ == sdv[n]);
            assert(paths.deep_view() =~= pdv0.skip(1));
            assert(paths.deep_view() =~= sdv.skip(n + 1));
        }
        songs.push(
            AlbumInputSong {
                file: p,
                override_metadata: None,
                override_disc_idx: None,
                override_track_idx: None,
            },
        );
        proof {
            assert(songs.deep_view() =~= initial.take(n + 1));
        }
    }
    proof {
        assert(songs.deep_view() =~= initial);
        assert(album_files(initial) =~= sdv);
        assert(apply_album_overrides(initial, ovs0.take(0)) == initial) by {
            assert(ovs0.take(0) =~= Seq::<AlbumInputSongOverrideView>::empty());
        }
    }

    // apply the override records in declaration order
    let mut ovs = overrides;
    let ghost mut k: int = 0;
    while ovs.len() > 0
        invariant
            0 <= k <= ovs0.len(),
            ovs@.len() + k == ovs0.len(),
            ovs.deep_view() =~= ovs0.skip(k),
            songs@.len() == sdv.len(),
            songs.deep_view() == apply_album_overrides(initial, ovs0.take(k)),
            album_files(songs.deep_view()) =~= sdv,
            forall|j: int| 0 <= j < k ==> album_override_ok(sdv, #[trigger] ovs0[j]),
        decreases ovs@.len(),
    {
        let ghost dv0 = songs.deep_view();
        let ghost odv0 = ovs.deep_view();
        let ov = ovs.remove(0);
        proof {
            assert(ov@ == odv0[0]);
            assert(ov@ == ovs0[k]);
            assert(ovs.deep_view() =~= odv0.skip(1));
            assert(ovs.deep_view() =~= ovs0.skip(k + 1));
        }
        let ghost ovv = ov@;

        // locate the song this override targets
        let mut idx: usize = 0;
        while idx < songs.len() && !path_eq_exec(&songs[idx].file, &ov.file_rel_path)
            invariant
                idx <= songs@.len(),
                forall|j: int| 0 <= j < idx ==> (#[trigger] dv0[j]).file != ovv.file_rel_path,
            decreases songs@.len() - idx,
        {
            idx = idx + 1;
        }
        if idx >= songs.len() {
            proof {
                assert forall|j: int| 0 <= j < sdv.len() implies #[trigger] sdv[j]
                    != ovv.file_rel_path by {
                    assert(album_files(dv0)[j] == dv0[j].file);
                }
                assert(!sdv.contains(ovv.file_rel_path));
                assert(!album_override_ok(sdv, ovs0[k]));
            }
            return Err(GroupError::ReferenceError { path: ov.file_rel_path });
        }
        proof {
            assert(dv0[idx as int].file == ovv.file_rel_path);
            assert(album_has_file(dv0, ovv.file_rel_path));
            let ci = album_file_index(dv0, ovv.file_rel_path);
            assert(0 <= ci < dv0.len() && dv0[ci].file == ovv.file_rel_path);
            assert(album_files(dv0)[ci] == dv0[ci].file);
            assert(album_files(dv0)[idx as int] == dv0[idx as int].file);
            if ci != idx as int {
                // unique paths force the found index and the chosen index
                // to agree
                assert(album_files(dv0).no_duplicates()) by {
                    sdv.lemma_multiset_has_no_duplicates();
                    album_files(dv0).lemma_multiset_has_no_duplicates_conv();
                }
                assert(false);
            }
            assert(sdv[idx as int] == ovv.file_rel_path);
            assert(sdv.contains(ovv.file_rel_path));
        }

        // merge the override fields into the song, field by field
        let mut song = songs.remove(idx);
        proof {
            assert(song@ == dv0[idx as int]);
        }
        let ghost merged = merge_album_song(dv0[idx as int], ovv);
        match ov.override_metadata {
            Some(o) => {
                let prev = song.override_metadata;
                song.override_metadata = Some(merge_override_exec(prev, o));
            },
            None => {},
        }
        if ov.override_disc_idx.is_some() {
            song.override_disc_idx = ov.override_disc_idx;
        }
        if ov.override_track_idx.is_some() {
            song.override_track_idx = ov.override_track_idx;
        }
        proof {
            assert(song@ == merged);
        }
        songs.insert(idx, song);
        proof {
            assert(songs.deep_view() =~= dv0.update(idx as int, merged));
            assert(songs.deep_view() == apply_album_override(dv0, ovv));
            assert(ovs0.take(k + 1).drop_last() =~= ovs0.take(k));
            assert(ovs0.take(k + 1).last() == ovs0[k]);
            assert(songs.deep_view() == apply_album_overrides(initial, ovs0.take(k + 1)));
            assert(album_files(songs.deep_view()) =~= sdv);
            assert(album_override_ok(sdv, ovs0[k]));
            k = k + 1;
        }
    }
    proof {
        assert(ovs0.take(k) =~= ovs0);
    }
    Ok(songs)
}

impl AlbumInputGroup {
    /// Assembles an album group: relativizes and sorts the scanned paths,
    /// seeds one song per path, and applies the descriptor's override
    /// records in declaration order.
    pub fn new(
        path: &Vec<u8>,
        origin: Origin,
        override_metadata: Option<metadata::album::Override>,
        scan_filter: Option<ScanFilter>,
        album_art_rel_path: Option<Vec<u8>>,
        songs: Vec<AlbumInputSongOverride>,
        non_rel_song_paths: Vec<Vec<u8>>,
    ) -> (r: Result<AlbumInputGroup, GroupError>)
        ensures
            r is Ok <==> (all_under_root(path@, non_rel_song_paths.deep_view()) && rel_paths_of(
                path@,
                non_rel_song_paths.deep_view(),
            ).no_duplicates() && album_overrides_ok(
                rel_paths_of(path@, non_rel_song_paths.deep_view()),
                songs.deep_view(),
            )),
            r matches Ok(g) ==> (g.origin == origin && g.override_metadata == override_metadata
                && g.scan_filter == scan_filter && g.album_art == album_art_rel_path
                && g.derived_metadata is None && g.cached_metadata is None
                && g.song_files.deep_view() == spec_assemble_album(
                path@,
                non_rel_song_paths.deep_view(),
                songs.deep_view(),
            ) && g.song_files@.len() == non_rel_song_paths@.len()),
            r matches Err(GroupError::ScanError { path: bad }) ==> exists|i: int|
                0 <= i < non_rel_song_paths.deep_view().len() && !is_under_root(
                    path@,
                    #[trigger] non_rel_song_paths.deep_view()[i],
                ) && bad@ == non_rel_song_paths.deep_view()[i],
            r matches Err(GroupError::ReferenceError { path: bad }) ==> all_under_root(
                path@,
                non_rel_song_paths.deep_view(),
            ) && ((exists|i: int, j: int|
                0 <= i < rel_paths_of(path@, non_rel_song_paths.deep_view()).len() && 0 <= j
                    < rel_paths_of(path@, non_rel_song_paths.deep_view()).len() && i != j && (
                #[trigger] rel_paths_of(path@, non_rel_song_paths.deep_view())[i]) == bad@ && (
                #[trigger] rel_paths_of(path@, non_rel_song_paths.deep_view())[j]) == bad@) || (
            exists|k: int|
                0 <= k < songs.deep_view().len() && !album_override_ok(
                    rel_paths_of(path@, non_rel_song_paths.deep_view()),
                    #[trigger] songs.deep_view()[k],
                ) && bad@ == songs.deep_view()[k].file_rel_path)),
    {
        broadcast use vstd::seq_lib::group_to_multiset_ensures;

        let ghost fulls = non_rel_song_paths.deep_view();
        let ghost rels = rel_paths_of(path@, fulls);
        let ghost ovs0 = songs.deep_view();
        let sorted = match rel_sorted_paths(path, non_rel_song_paths) {
            Ok(v) => v,
            Err(e) => {
                return Err(e);
            },
        };
        let ghost sdv = sorted.deep_view();
        proof {
            crate::order::lemma_path_le_total_ordering();
            rels.lemma_sort_by_ensures(crate::order::path_le_fn());
            rels.to_multiset_ensures();
            sdv.to_multiset_ensures();
            rels.lemma_multiset_has_no_duplicates();
            sdv.lemma_multiset_has_no_duplicates_conv();
            assert(sdv.no_duplicates());
            assert(sdv.len() == rels.len());
            assert forall|j: int| 0 <= j < ovs0.len() implies (album_override_ok(
                sdv,
                #[trigger] ovs0[j],
            ) <==> album_override_ok(rels, ovs0[j])) by {
                let p = ovs0[j].file_rel_path;
                assert(sdv.contains(p) <==> sdv.to_multiset().count(p) > 0);
                assert(rels.contains(p) <==> rels.to_multiset().count(p) > 0);
            }
        }
        let song_files = match apply_album_overrides_exec(sorted, songs) {
            Ok(v) => v,
            Err(e) => {
                return Err(e);
            },
        };
        Ok(
            AlbumInputGroup {
                origin,
                override_metadata,
                scan_filter,
                album_art: album_art_rel_path,
                song_files,
                derived_metadata: None,
                cached_metadata: None,
            },
        )
    }
}

} // verus!
