//! End-to-end checks of the engine: group assembly, track index
//! assignment, metadata resolution and output path planning.

use turnip_music2::data_model::native_metadata::{
    default_scan_exts, parse_track_number, NativeMetadata, NativeMetadataFormat,
};
use turnip_music2::data_model::user_defined::{
    AlbumInputSongOverride, CompilationInputSongOverride, ConfigArtistNameOverride, GroupFile,
    Origin, ScanFilter,
};
use turnip_music2::data_model::metadata;
use turnip_music2::data_model::{AlbumInputGroup, CompilationInputGroup, MbId};
use turnip_music2::errors::{GroupError, PlanError};
use turnip_music2::planner::{plan_output_paths, GroupKind};
use turnip_music2::resolve::{resolve_song_metadata, ResolvedMetadata};
use turnip_music2::track_index::assign_track_indices;

fn p(s: &str) -> Vec<u8> {
    s.as_bytes().to_vec()
}

fn empty_origin() -> Origin {
    Origin {
        url: None,
        mb_release_group_id: None,
        mb_release_id: None,
        mb_discid: None,
        cddb_discid: None,
    }
}

fn comp_override(
    path: &str,
    position: Option<usize>,
    title: Option<&str>,
) -> CompilationInputSongOverride {
    CompilationInputSongOverride {
        file_rel_path: p(path),
        origin_mbid: None,
        override_metadata: title.map(|t| metadata::song::Override {
            song_title: Some(t.to_string()),
            song_artists: None,
        }),
        override_position: position,
    }
}

fn resolved(title: &str, artist: &str, album: &str, album_artist: &str) -> ResolvedMetadata {
    ResolvedMetadata {
        title: Some(title.to_string()),
        artists: vec![artist.to_string()],
        album: Some(album.to_string()),
        album_artists: vec![album_artist.to_string()],
    }
}

#[test]
fn compilation_sorts_scanned_paths_ascending() {
    let root = p("/lib/mix");
    let scanned = vec![p("/lib/mix/b.mp3"), p("/lib/mix/a.mp3"), p("/lib/mix/c.mp3")];
    let g = CompilationInputGroup::new(
        &root,
        empty_origin(),
        None,
        "Mix".to_string(),
        vec![],
        scanned,
    )
    .unwrap();
    let files: Vec<Vec<u8>> = g.song_files.iter().map(|s| s.file.clone()).collect();
    assert_eq!(files, vec![p("a.mp3"), p("b.mp3"), p("c.mp3")]);
}

#[test]
fn compilation_reorder_to_front() {
    // scanned order [a, b, c]; an override sets c to position 0
    let root = p("/lib/mix");
    let scanned = vec![p("/lib/mix/a.mp3"), p("/lib/mix/b.mp3"), p("/lib/mix/c.mp3")];
    let g = CompilationInputGroup::new(
        &root,
        empty_origin(),
        None,
        "Mix".to_string(),
        vec![comp_override("c.mp3", Some(0), None)],
        scanned,
    )
    .unwrap();
    let files: Vec<Vec<u8>> = g.song_files.iter().map(|s| s.file.clone()).collect();
    assert_eq!(files, vec![p("c.mp3"), p("a.mp3"), p("b.mp3")]);
}

#[test]
fn compilation_reorder_to_back_shifts_between() {
    let root = p("/m");
    let scanned = vec![p("/m/a.mp3"), p("/m/b.mp3"), p("/m/c.mp3"), p("/m/d.mp3")];
    let g = CompilationInputGroup::new(
        &root,
        empty_origin(),
        None,
        "Mix".to_string(),
        vec![comp_override("a.mp3", Some(2), None)],
        scanned,
    )
    .unwrap();
    let files: Vec<Vec<u8>> = g.song_files.iter().map(|s| s.file.clone()).collect();
    assert_eq!(files, vec![p("b.mp3"), p("c.mp3"), p("a.mp3"), p("d.mp3")]);
}

#[test]
fn compilation_song_count_matches_scan_count() {
    let root = p("/lib/mix");
    let scanned = vec![
        p("/lib/mix/one.ogg"),
        p("/lib/mix/two.ogg"),
        p("/lib/mix/three.ogg"),
        p("/lib/mix/sub/four.ogg"),
    ];
    let n = scanned.len();
    let g = CompilationInputGroup::new(
        &root,
        empty_origin(),
        None,
        "Mix".to_string(),
        vec![comp_override("two.ogg", Some(0), Some("Two"))],
        scanned,
    )
    .unwrap();
    assert_eq!(g.song_files.len(), n);
}

#[test]
fn compilation_merge_is_field_level() {
    // two overrides for one song: the later one sets only the title, the
    // earlier origin id survives
    let root = p("/m");
    let scanned = vec![p("/m/a.mp3")];
    let mut first = comp_override("a.mp3", None, None);
    first.origin_mbid = Some(MbId("rec-1".to_string()));
    let second = comp_override("a.mp3", None, Some("Kept Title"));
    let g = CompilationInputGroup::new(
        &root,
        empty_origin(),
        None,
        "Mix".to_string(),
        vec![first, second],
        scanned,
    )
    .unwrap();
    let song = &g.song_files[0];
    assert_eq!(song.origin_mbid.as_ref().unwrap().0, "rec-1");
    assert_eq!(
        song.override_metadata.as_ref().unwrap().song_title.as_deref(),
        Some("Kept Title")
    );
}

#[test]
fn scan_error_for_path_outside_root() {
    let root = p("/lib/mix");
    let scanned = vec![p("/lib/mix/a.mp3"), p("/elsewhere/b.mp3")];
    let e = CompilationInputGroup::new(
        &root,
        empty_origin(),
        None,
        "Mix".to_string(),
        vec![],
        scanned,
    )
    .unwrap_err();
    match e {
        GroupError::ScanError { path } => assert_eq!(path, p("/elsewhere/b.mp3")),
        _ => panic!("expected a scan error"),
    }
}

#[test]
fn reference_error_for_duplicate_relative_paths() {
    let root = p("/m");
    let scanned = vec![p("/m/a.mp3"), p("/m/a.mp3")];
    let e = CompilationInputGroup::new(
        &root,
        empty_origin(),
        None,
        "Mix".to_string(),
        vec![],
        scanned,
    )
    .unwrap_err();
    assert!(matches!(e, GroupError::ReferenceError { .. }));
}

#[test]
fn reference_error_for_unknown_override_target() {
    let root = p("/m");
    let scanned = vec![p("/m/a.mp3")];
    let e = CompilationInputGroup::new(
        &root,
        empty_origin(),
        None,
        "Mix".to_string(),
        vec![comp_override("missing.mp3", None, None)],
        scanned,
    )
    .unwrap_err();
    match e {
        GroupError::ReferenceError { path } => assert_eq!(path, p("missing.mp3")),
        _ => panic!("expected a reference error"),
    }
}

#[test]
fn reference_error_for_position_out_of_range() {
    let root = p("/m");
    let scanned = vec![p("/m/a.mp3"), p("/m/b.mp3")];
    let e = CompilationInputGroup::new(
        &root,
        empty_origin(),
        None,
        "Mix".to_string(),
        vec![comp_override("a.mp3", Some(2), None)],
        scanned,
    )
    .unwrap_err();
    assert!(matches!(e, GroupError::ReferenceError { .. }));
}

#[test]
fn album_assembly_merges_index_overrides() {
    let root = p("/lib/alb");
    let scanned = vec![p("/lib/alb/01.flac"), p("/lib/alb/02.flac")];
    let ov = AlbumInputSongOverride {
        file_rel_path: p("02.flac"),
        override_metadata: None,
        override_disc_idx: Some(2),
        override_track_idx: Some(1),
    };
    let g = AlbumInputGroup::new(
        &root,
        empty_origin(),
        None,
        None,
        None,
        vec![ov],
        scanned,
    )
    .unwrap();
    assert_eq!(g.song_files.len(), 2);
    assert_eq!(g.song_files[0].file, p("01.flac"));
    assert_eq!(g.song_files[0].override_disc_idx, None);
    assert_eq!(g.song_files[1].override_disc_idx, Some(2));
    assert_eq!(g.song_files[1].override_track_idx, Some(1));
    assert!(g.derived_metadata.is_none());
    assert!(g.cached_metadata.is_none());
}

fn plain_album_song(name: &str) -> turnip_music2::data_model::AlbumInputSong {
    turnip_music2::data_model::AlbumInputSong {
        file: p(name),
        override_metadata: None,
        override_disc_idx: None,
        override_track_idx: None,
    }
}

#[test]
fn track_split_spills_over_known_disc_lengths() {
    // disc lengths known as [10, 12]; 12 songs with no native tag data
    // yield (1,1)..(1,10),(2,1),(2,2)
    let songs: Vec<_> = (0..12).map(|i| plain_album_song(&format!("{i:02}.mp3"))).collect();
    let natives: Vec<NativeMetadata> = (0..12).map(|_| NativeMetadata::default()).collect();
    let counts = vec![Some(10u64), Some(12u64)];
    let r = assign_track_indices(&songs, &natives, &counts);
    assert_eq!(r.len(), 12);
    for i in 0..10 {
        assert_eq!((r[i].media_idx, r[i].track_idx), (1, (i + 1) as u64));
        assert!(!r[i].split_ambiguous);
    }
    assert_eq!((r[10].media_idx, r[10].track_idx), (2, 1));
    assert_eq!((r[11].media_idx, r[11].track_idx), (2, 2));
    assert!(!r[10].split_ambiguous && !r[11].split_ambiguous);
}

#[test]
fn track_assignment_uses_native_pair_and_carries_it() {
    let songs = vec![plain_album_song("a.mp3"), plain_album_song("b.mp3")];
    let mut tagged = NativeMetadata::default();
    tagged.disc_idx = Some(3);
    tagged.track_idx = Some(4);
    let natives = vec![tagged, NativeMetadata::default()];
    let counts: Vec<Option<u64>> = vec![];
    let r = assign_track_indices(&songs, &natives, &counts);
    // no known track count at all: the raw pairs are kept and flagged
    assert_eq!((r[0].media_idx, r[0].track_idx), (3, 4));
    assert!(r[0].split_ambiguous);
    assert_eq!((r[1].media_idx, r[1].track_idx), (3, 5));
}

#[test]
fn track_assignment_unknown_next_disc_keeps_raw_pair() {
    // the track index exceeds the only known length: the next media's
    // length is unknown, so no split happens and the raw pair stays
    let songs = vec![plain_album_song("a.mp3")];
    let mut tagged = NativeMetadata::default();
    tagged.disc_idx = Some(1);
    tagged.track_idx = Some(11);
    let natives = vec![tagged];
    let counts = vec![Some(10u64)];
    let r = assign_track_indices(&songs, &natives, &counts);
    assert_eq!((r[0].media_idx, r[0].track_idx), (1, 11));
    assert!(r[0].split_ambiguous);
}

#[test]
fn track_assignment_override_indices_apply() {
    let mut song = plain_album_song("a.mp3");
    song.override_disc_idx = Some(2);
    song.override_track_idx = Some(5);
    let songs = vec![song, plain_album_song("b.mp3")];
    let natives = vec![NativeMetadata::default(), NativeMetadata::default()];
    let counts = vec![Some(9u64), Some(9u64)];
    let r = assign_track_indices(&songs, &natives, &counts);
    assert_eq!((r[0].media_idx, r[0].track_idx), (2, 5));
    assert!(!r[0].split_ambiguous);
    // the default rule continues from the overridden pair
    assert_eq!((r[1].media_idx, r[1].track_idx), (2, 6));
}

#[test]
fn resolution_layers_merge_field_by_field() {
    let mut native = NativeMetadata::default();
    native.name = Some("Native Title".to_string());
    native.artist = vec!["Native Artist".to_string()];
    native.album = Some("Native Album".to_string());
    let cached = metadata::song::Cached {
        song_title: "Cached Title".to_string(),
        song_artists: vec![],
    };
    let song_ov = metadata::song::Override {
        song_title: None,
        song_artists: Some(vec!["Override Artist".to_string()]),
    };
    let cfg: Vec<ConfigArtistNameOverride> = vec![];
    let r = resolve_song_metadata(&native, None, Some(&cached), None, Some(&song_ov), &cfg);
    // the cache overwrites the title; its empty artist list is absent, but
    // the override then replaces the native artists; the album passes
    // through untouched
    assert_eq!(r.title.as_deref(), Some("Cached Title"));
    assert_eq!(r.artists, vec!["Override Artist".to_string()]);
    assert_eq!(r.album.as_deref(), Some("Native Album"));
}

#[test]
fn resolution_title_only_override_keeps_artists() {
    // a metadata override specifying only the song title leaves the song
    // artists from the prior layer unchanged
    let mut native = NativeMetadata::default();
    native.name = Some("Old".to_string());
    native.artist = vec!["Kept One".to_string(), "Kept Two".to_string()];
    let song_ov = metadata::song::Override {
        song_title: Some("New".to_string()),
        song_artists: None,
    };
    let cfg: Vec<ConfigArtistNameOverride> = vec![];
    let r = resolve_song_metadata(&native, None, None, None, Some(&song_ov), &cfg);
    assert_eq!(r.title.as_deref(), Some("New"));
    assert_eq!(r.artists, vec!["Kept One".to_string(), "Kept Two".to_string()]);
}

#[test]
fn resolution_is_idempotent_under_reapplied_overrides() {
    // feeding a resolved record back through the same override set yields
    // a byte-identical record
    let mut native = NativeMetadata::default();
    native.name = Some("T".to_string());
    native.artist = vec!["A".to_string()];
    native.album = Some("Al".to_string());
    native.album_artists = vec!["AA".to_string()];
    let song_ov = metadata::song::Override {
        song_title: Some("T2".to_string()),
        song_artists: None,
    };
    let album_ov = metadata::album::Override {
        album_title: None,
        album_artists: Some(vec!["AA2".to_string()]),
    };
    let cfg: Vec<ConfigArtistNameOverride> = vec![];
    let r1 = resolve_song_metadata(&native, None, None, Some(&album_ov), Some(&song_ov), &cfg);
    let as_native = NativeMetadata {
        fmt: NativeMetadataFormat::Unsupported,
        name: r1.title.clone(),
        album: r1.album.clone(),
        album_artists: r1.album_artists.clone(),
        artist: r1.artists.clone(),
        num_discs: None,
        disc_idx: None,
        num_tracks: None,
        track_idx: None,
    };
    let r2 = resolve_song_metadata(&as_native, None, None, Some(&album_ov), Some(&song_ov), &cfg);
    assert_eq!(r1.title, r2.title);
    assert_eq!(r1.artists, r2.artists);
    assert_eq!(r1.album, r2.album);
    assert_eq!(r1.album_artists, r2.album_artists);
}

#[test]
fn resolution_applies_configured_artist_names() {
    let native = NativeMetadata::default();
    let cached = metadata::song::Cached {
        song_title: "T".to_string(),
        song_artists: vec![metadata::CachedArtist {
            id: MbId("artist-1".to_string()),
            name: "Looked Up".to_string(),
        }],
    };
    let cfg = vec![ConfigArtistNameOverride {
        artist_id: MbId("artist-1".to_string()),
        artist_name: "Configured".to_string(),
    }];
    let r = resolve_song_metadata(&native, None, Some(&cached), None, None, &cfg);
    assert_eq!(r.artists, vec!["Configured".to_string()]);
}

#[test]
fn planned_paths_follow_the_templates() {
    let songs = vec![resolved("Song", "Artist", "Album", "Band")];
    let album_paths = plan_output_paths(GroupKind::Album, &songs).unwrap();
    assert_eq!(album_paths, vec!["Band/Album/Song".to_string()]);
    let comp_paths = plan_output_paths(GroupKind::Compilation, &songs).unwrap();
    assert_eq!(comp_paths, vec!["Artist/Song".to_string()]);
}

#[test]
fn planned_path_count_matches_song_count() {
    let songs = vec![
        resolved("One", "A", "Al", "AA"),
        resolved("Two", "A", "Al", "AA"),
        resolved("Three", "A", "Al", "AA"),
    ];
    let paths = plan_output_paths(GroupKind::Album, &songs).unwrap();
    assert_eq!(paths.len(), songs.len());
}

#[test]
fn duplicate_titles_get_letter_suffixes() {
    // two songs both titled Intro under the same album path
    let songs = vec![
        resolved("Intro", "X", "Album", "Band"),
        resolved("Intro", "X", "Album", "Band"),
    ];
    let paths = plan_output_paths(GroupKind::Album, &songs).unwrap();
    assert_eq!(
        paths,
        vec!["Band/Album/Intro".to_string(), "Band/Album/Intro A".to_string()]
    );
}

#[test]
fn many_duplicates_roll_over_to_double_letters() {
    let songs: Vec<ResolvedMetadata> =
        (0..28).map(|_| resolved("Intro", "X", "Al", "AA")).collect();
    let paths = plan_output_paths(GroupKind::Album, &songs).unwrap();
    assert_eq!(paths[0], "AA/Al/Intro");
    assert_eq!(paths[1], "AA/Al/Intro A");
    assert_eq!(paths[26], "AA/Al/Intro Z");
    assert_eq!(paths[27], "AA/Al/Intro AA");
}

#[test]
fn invalid_character_fails_whole_group_but_not_siblings() {
    // a title containing a question mark aborts the group's planning pass
    // before any path is finalized; an unrelated group still succeeds
    let bad_group = vec![
        resolved("Fine", "A", "Al", "AA"),
        resolved("What?", "A", "Al", "AA"),
        resolved("Also Fine", "A", "Al", "AA"),
    ];
    let e = plan_output_paths(GroupKind::Album, &bad_group).unwrap_err();
    match e {
        PlanError::PathValidationError { song, character } => {
            assert_eq!(song, 1);
            assert_eq!(character, '?');
        }
        _ => panic!("expected a path validation error"),
    }
    let sibling = vec![resolved("Ok Song", "A", "Al", "AA")];
    assert!(plan_output_paths(GroupKind::Album, &sibling).is_ok());
}

#[test]
fn missing_title_is_unresolved_metadata() {
    let song = ResolvedMetadata {
        title: None,
        artists: vec!["A".to_string()],
        album: Some("Al".to_string()),
        album_artists: vec!["AA".to_string()],
    };
    let e = plan_output_paths(GroupKind::Album, &vec![song]).unwrap_err();
    assert!(matches!(e, PlanError::UnresolvedMetadataError { song: 0 }));
}

#[test]
fn missing_primary_artist_is_unresolved_metadata() {
    let song = ResolvedMetadata {
        title: Some("T".to_string()),
        artists: vec![],
        album: None,
        album_artists: vec![],
    };
    let e = plan_output_paths(GroupKind::Compilation, &vec![song]).unwrap_err();
    assert!(matches!(e, PlanError::UnresolvedMetadataError { song: 0 }));
}

#[test]
fn extension_dispatch_is_case_insensitive() {
    assert_eq!(NativeMetadataFormat::from_extension(&p("MP3")), NativeMetadataFormat::ID3);
    assert_eq!(NativeMetadataFormat::from_extension(&p("wav")), NativeMetadataFormat::ID3);
    assert_eq!(NativeMetadataFormat::from_extension(&p("Aiff")), NativeMetadataFormat::ID3);
    assert_eq!(NativeMetadataFormat::from_extension(&p("FLAC")), NativeMetadataFormat::FLAC);
    assert_eq!(NativeMetadataFormat::from_extension(&p("m4a")), NativeMetadataFormat::M4A);
    assert_eq!(
        NativeMetadataFormat::from_extension(&p("ogg")),
        NativeMetadataFormat::Unsupported
    );
}

#[test]
fn default_extension_set_is_documented() {
    assert_eq!(default_scan_exts(), vec!["mp3", "ogg", "flac", "wav", "aiff", "m4a"]);
}

#[test]
fn group_file_scan_filter_of_either_variant() {
    let filter = ScanFilter { ext_filters: vec!["flac".to_string()] };
    let comp = GroupFile::Compilation {
        origin: empty_origin(),
        scan_filter: Some(filter.clone()),
        title: "T".to_string(),
        songs: vec![],
    };
    assert_eq!(comp.scan_filter().unwrap().ext_filters, vec!["flac".to_string()]);
    let album = GroupFile::Album {
        origin: empty_origin(),
        scan_filter: None,
        album_art_rel_path: None,
        override_metadata: None,
        songs: vec![],
    };
    assert!(album.scan_filter().is_none());
}

#[test]
fn track_number_comment_parses_index_and_total() {
    assert_eq!(parse_track_number(&p("3")), Ok((Some(3), None)));
    assert_eq!(parse_track_number(&p("12/34")), Ok((Some(12), Some(34))));
    assert_eq!(parse_track_number(&p("Track 7/9!")), Ok((Some(7), Some(9))));
    assert_eq!(parse_track_number(&p("7/")), Ok((Some(7), None)));
    assert_eq!(parse_track_number(&p("no digits")), Ok((None, None)));
    assert_eq!(parse_track_number(&p("007")), Ok((Some(7), None)));
    assert!(parse_track_number(&p("99999999999999999999999")).is_err());
}

#[test]
fn default_native_record_is_all_absent() {
    let n = NativeMetadata::default();
    assert_eq!(n.fmt, NativeMetadataFormat::Unsupported);
    assert!(n.name.is_none() && n.album.is_none());
    assert!(n.album_artists.is_empty() && n.artist.is_empty());
    assert!(n.num_discs.is_none() && n.disc_idx.is_none());
    assert!(n.num_tracks.is_none() && n.track_idx.is_none());
}

#[test]
fn path_order_is_component_wise() {
    // "x y.mp3" is a single component; "x/z.mp3" starts with the shorter
    // component "x", so the file in the subdirectory sorts first even
    // though a space is a smaller byte than a slash
    let root = p("/m");
    let scanned = vec![p("/m/x y.mp3"), p("/m/x/z.mp3")];
    let g = CompilationInputGroup::new(
        &root,
        empty_origin(),
        None,
        "Mix".to_string(),
        vec![],
        scanned,
    )
    .unwrap();
    let files: Vec<Vec<u8>> = g.song_files.iter().map(|s| s.file.clone()).collect();
    assert_eq!(files, vec![p("x/z.mp3"), p("x y.mp3")]);
}

#[test]
fn album_song_count_matches_scan_count() {
    let root = p("/lib/alb");
    let scanned = vec![
        p("/lib/alb/01.flac"),
        p("/lib/alb/02.flac"),
        p("/lib/alb/deep/03.flac"),
    ];
    let n = scanned.len();
    let g = AlbumInputGroup::new(&root, empty_origin(), None, None, None, vec![], scanned)
        .unwrap();
    assert_eq!(g.song_files.len(), n);
}

#[test]
fn root_prefix_must_end_at_a_component_boundary() {
    // "/lib/mixtape" starts with the bytes of "/lib/mix" but is not under
    // that root
    let root = p("/lib/mix");
    let scanned = vec![p("/lib/mixtape/a.mp3")];
    let e = CompilationInputGroup::new(
        &root,
        empty_origin(),
        None,
        "Mix".to_string(),
        vec![],
        scanned,
    )
    .unwrap_err();
    assert!(matches!(e, GroupError::ScanError { .. }));
}

#[test]
fn reapplying_the_override_list_changes_nothing() {
    // assembling with the override list doubled yields the same order and
    // the same merged song fields as assembling with it once
    let root = p("/m");
    let scanned = || vec![p("/m/a.mp3"), p("/m/b.mp3"), p("/m/c.mp3")];
    let ovs = || {
        vec![comp_override("c.mp3", Some(0), Some("C Title")), comp_override("a.mp3", Some(2), None)]
    };
    let once = CompilationInputGroup::new(
        &root,
        empty_origin(),
        None,
        "Mix".to_string(),
        ovs(),
        scanned(),
    )
    .unwrap();
    let mut doubled_ovs = ovs();
    doubled_ovs.extend(ovs());
    let twice = CompilationInputGroup::new(
        &root,
        empty_origin(),
        None,
        "Mix".to_string(),
        doubled_ovs,
        scanned(),
    )
    .unwrap();
    assert_eq!(once.song_files.len(), twice.song_files.len());
    for (a, b) in once.song_files.iter().zip(twice.song_files.iter()) {
        assert_eq!(a.file, b.file);
        assert_eq!(
            a.origin_mbid.as_ref().map(|m| m.0.clone()),
            b.origin_mbid.as_ref().map(|m| m.0.clone())
        );
        assert_eq!(
            a.override_metadata.as_ref().map(|o| o.song_title.clone()),
            b.override_metadata.as_ref().map(|o| o.song_title.clone())
        );
    }
}

#[test]
fn metadata_override_merges_field_by_field_across_records() {
    // first record sets only the artists, second only the title: both
    // fields survive inside the merged metadata override
    let root = p("/g");
    let scanned = vec![p("/g/a.mp3")];
    let first = CompilationInputSongOverride {
        file_rel_path: p("a.mp3"),
        origin_mbid: None,
        override_metadata: Some(metadata::song::Override {
            song_title: None,
            song_artists: Some(vec!["X".to_string()]),
        }),
        override_position: None,
    };
    let second = comp_override("a.mp3", None, Some("T"));
    let g = CompilationInputGroup::new(
        &root,
        empty_origin(),
        None,
        "Mix".to_string(),
        vec![first, second],
        scanned,
    )
    .unwrap();
    let m = g.song_files[0].override_metadata.as_ref().unwrap();
    assert_eq!(m.song_title.as_deref(), Some("T"));
    assert_eq!(m.song_artists, Some(vec!["X".to_string()]));
}

#[test]
fn album_metadata_override_merges_field_by_field_across_records() {
    let root = p("/g");
    let scanned = vec![p("/g/01.flac")];
    let first = AlbumInputSongOverride {
        file_rel_path: p("01.flac"),
        override_metadata: Some(metadata::song::Override {
            song_title: None,
            song_artists: Some(vec!["X".to_string()]),
        }),
        override_disc_idx: None,
        override_track_idx: None,
    };
    let second = AlbumInputSongOverride {
        file_rel_path: p("01.flac"),
        override_metadata: Some(metadata::song::Override {
            song_title: Some("T".to_string()),
            song_artists: None,
        }),
        override_disc_idx: None,
        override_track_idx: None,
    };
    let g = AlbumInputGroup::new(
        &root,
        empty_origin(),
        None,
        None,
        None,
        vec![first, second],
        scanned,
    )
    .unwrap();
    let m = g.song_files[0].override_metadata.as_ref().unwrap();
    assert_eq!(m.song_title.as_deref(), Some("T"));
    assert_eq!(m.song_artists, Some(vec!["X".to_string()]));
}

#[test]
fn suffixed_duplicate_walks_past_a_clashing_bare_title() {
    // the second Intro would get the suffix A, but another song's bare
    // title already is Intro A, so the walk moves on to the next letter
    let songs = vec![
        resolved("Intro A", "X", "Al", "AA"),
        resolved("Intro", "X", "Al", "AA"),
        resolved("Intro", "X", "Al", "AA"),
    ];
    let paths = plan_output_paths(GroupKind::Album, &songs).unwrap();
    assert_eq!(
        paths,
        vec![
            "AA/Al/Intro A".to_string(),
            "AA/Al/Intro".to_string(),
            "AA/Al/Intro B".to_string(),
        ]
    );
    for i in 0..paths.len() {
        for j in 0..paths.len() {
            if i != j {
                assert_ne!(paths[i], paths[j]);
            }
        }
    }
}
