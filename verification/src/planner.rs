//! Output path planning: one deduplicated, validated relative output path
//! per resolved song.
//!
//! The path template is `<first album artist>/<album title>/<song title>`
//! for album songs and `<first song artist>/<song title>` for compilation
//! songs. Every component must be a valid path segment: any character of
//! `/ \ : * " ? < > |` fails the whole group's planning pass with a
//! `PathValidationError`, before any deduplication; a missing
//! naming-required field is an `UnresolvedMetadataError`. Other groups are
//! unaffected.
//!
//! After every candidate path is built, identical candidates are
//! disambiguated: the first-seen song keeps the bare path and each later
//! one gets an uppercase letter suffix (` A`, ` B`, ..., ` Z`, ` AA`, ...)
//! in final song order. A song whose suffixed path would still equal an
//! earlier song's output walks on to the next letter suffix, so the
//! returned paths are pairwise distinct, and the plan is deterministic for
//! one input order.
//!
//! For a compilation group the returned path list, in final song order, is
//! also the group's playlist content.

use crate::errors::PlanError;
use crate::resolve::{ResolvedMetadata, ResolvedMetadataView};
use vstd::prelude::*;
use vstd::string::StringExecFns;

verus! {

/// The two group kinds, which differ in their path template.
#[derive(Debug, Clone, Copy, PartialEq, Eq, Structural)]
pub enum GroupKind {
    Album,
    Compilation,
}

/// Whether a character may not appear in a path component.
pub open spec fn forbidden_char(c: char) -> bool {
    c == '/' || c == '\\' || c == ':' || c == '*' || c == '"' || c == '?' || c == '<' || c == '>'
        || c == '|'
}

/// Whether every character of a component is allowed.
pub open spec fn component_ok(s: Seq<char>) -> bool {
    forall|i: int| 0 <= i < s.len() ==> !forbidden_char(#[trigger] s[i])
}

/// Whether position `i` holds the first forbidden character of `s`.
pub open spec fn is_first_bad_char(s: Seq<char>, i: int) -> bool {
    &&& 0 <= i < s.len()
    &&& forbidden_char(s[i])
    &&& forall|j: int| 0 <= j < i ==> !forbidden_char(#[trigger] s[j])
}

/// The content of an optional field, or empty.
pub open spec fn opt_or_empty(o: Option<Seq<char>>) -> Seq<char> {
    match o {
        Some(s) => s,
        None => Seq::empty(),
    }
}

/// The first entry of a list field, or empty.
pub open spec fn first_or_empty(l: Seq<Seq<char>>) -> Seq<char> {
    if l.len() > 0 {
        l[0]
    } else {
        Seq::empty()
    }
}

/// Whether the naming-required fields of a song are present: title and
/// primary artist, plus album title and primary album artist for albums.
pub open spec fn song_resolved(kind: GroupKind, r: ResolvedMetadataView) -> bool {
    match kind {
        GroupKind::Album => r.title is Some && r.album is Some && r.album_artists.len() > 0,
        GroupKind::Compilation => r.title is Some && r.artists.len() > 0,
    }
}

/// The path components of a song under its group's template, in template
/// order.
pub open spec fn song_components(kind: GroupKind, r: ResolvedMetadataView) -> Seq<Seq<char>> {
    match kind {
        GroupKind::Album => seq![
            first_or_empty(r.album_artists),
            opt_or_empty(r.album),
            opt_or_empty(r.title),
        ],
        GroupKind::Compilation => seq![first_or_empty(r.artists), opt_or_empty(r.title)],
    }
}

/// Whether every component of a song is a valid path segment.
pub open spec fn song_valid(kind: GroupKind, r: ResolvedMetadataView) -> bool {
    forall|ci: int| 0 <= ci < song_components(kind, r).len() ==> component_ok(
        #[trigger] song_components(kind, r)[ci],
    )
}

/// Whether a song can be planned: resolved and valid.
pub open spec fn song_plannable(kind: GroupKind, r: ResolvedMetadataView) -> bool {
    song_resolved(kind, r) && song_valid(kind, r)
}

/// The candidate path of a song: its components joined with `/`.
pub open spec fn candidate_of(kind: GroupKind, r: ResolvedMetadataView) -> Seq<char> {
    match kind {
        GroupKind::Album => first_or_empty(r.album_artists) + seq!['/'] + opt_or_empty(r.album)
            + seq!['/'] + opt_or_empty(r.title),
        GroupKind::Compilation => first_or_empty(r.artists) + seq!['/'] + opt_or_empty(r.title),
    }
}

/// The candidate paths of all songs, in final song order.
pub open spec fn candidates_of(kind: GroupKind, rs: Seq<ResolvedMetadataView>) -> Seq<Seq<char>> {
    rs.map_values(|r: ResolvedMetadataView| candidate_of(kind, r))
}

/// How many of the first `n` candidates equal `p`.
pub open spec fn count_eq_in_prefix(cands: Seq<Seq<char>>, p: Seq<char>, n: int) -> nat
    decreases n,
{
    if n <= 0 {
        0
    } else {
        count_eq_in_prefix(cands, p, n - 1) + (if cands[n - 1] == p {
            1nat
        } else {
            0nat
        })
    }
}

/// The letter at a digit position of a suffix: 0 is `A`, 25 is `Z`.
pub open spec fn letter_char(d: int) -> char {
    if d == 0 { 'A' }
    else if d == 1 { 'B' }
    else if d == 2 { 'C' }
    else if d == 3 { 'D' }
    else if d == 4 { 'E' }
    else if d == 5 { 'F' }
    else if d == 6 { 'G' }
    else if d == 7 { 'H' }
    else if d == 8 { 'I' }
    else if d == 9 { 'J' }
    else if d == 10 { 'K' }
    else if d == 11 { 'L' }
    else if d == 12 { 'M' }
    else if d == 13 { 'N' }
    else if d == 14 { 'O' }
    else if d == 15 { 'P' }
    else if d == 16 { 'Q' }
    else if d == 17 { 'R' }
    else if d == 18 { 'S' }
    else if d == 19 { 'T' }
    else if d == 20 { 'U' }
    else if d == 21 { 'V' }
    else if d == 22 { 'W' }
    else if d == 23 { 'X' }
    else if d == 24 { 'Y' }
    else { 'Z' }
}

/// The uppercase-letter suffix of the n-th duplicate: 1 is `A`, 2 is `B`,
/// 26 is `Z`, 27 is `AA`, and so on; 0 is no suffix.
pub open spec fn suffix_letters(n: nat) -> Seq<char>
    decreases n,
{
    if n == 0 {
        Seq::empty()
    } else {
        suffix_letters(((n - 1) / 26) as nat) + seq![letter_char(((n - 1) % 26) as int)]
    }
}

/// The candidate path carrying the suffix of rank `k`: rank 0 is the bare
/// path, a higher rank appends a space and that rank's letter suffix.
pub open spec fn with_suffix(c: Seq<char>, k: nat) -> Seq<char> {
    if k == 0 {
        c
    } else {
        c + seq![' '] + suffix_letters(k)
    }
}

/// The first suffix rank at or after `k` whose path none of the already
/// assigned outputs uses. The fuel bounds the walk; one more try than
/// there are assigned outputs always suffices.
pub open spec fn free_rank(assigned: Seq<Seq<char>>, c: Seq<char>, k: nat, fuel: nat) -> nat
    decreases fuel,
{
    if fuel == 0 {
        k
    } else if !assigned.contains(with_suffix(c, k)) {
        k
    } else {
        free_rank(assigned, c, (k + 1) as nat, (fuel - 1) as nat)
    }
}

/// The output paths of the first `n` songs: each song's candidate carries
/// the first suffix rank, counted from its duplicate rank, whose path no
/// earlier song's output already uses. The walk keeps the outputs pairwise
/// distinct even when a suffixed path would equal another song's bare
/// candidate.
pub open spec fn planned_outputs(cands: Seq<Seq<char>>, n: int) -> Seq<Seq<char>>
    decreases n,
{
    if n <= 0 {
        Seq::empty()
    } else {
        let prev = planned_outputs(cands, n - 1);
        let base = count_eq_in_prefix(cands, cands[n - 1], n - 1);
        prev.push(
            with_suffix(cands[n - 1], free_rank(prev, cands[n - 1], base, (prev.len() + 1) as nat)),
        )
    }
}

/// The output paths of all songs, in final song order.
pub open spec fn spec_planned_paths(kind: GroupKind, rs: Seq<ResolvedMetadataView>) -> Seq<
    Seq<char>,
> {
    planned_outputs(candidates_of(kind, rs), rs.len() as int)
}

/// Distinct ranks give distinct letter suffixes.
pub proof fn lemma_suffix_letters_injective(a: nat, b: nat)
    ensures
        suffix_letters(a) == suffix_letters(b) ==> a == b,
    decreases a,
{
    if suffix_letters(a) == suffix_letters(b) && a != b {
        if a == 0 {
            assert(suffix_letters(a).len() == 0);
            assert(suffix_letters(b).len() >= 1);
        } else if b == 0 {
            assert(suffix_letters(b).len() == 0);
            assert(suffix_letters(a).len() >= 1);
        } else {
            let qa = ((a - 1) / 26) as nat;
            let qb = ((b - 1) / 26) as nat;
            assert(suffix_letters(a).last() == letter_char(((a - 1) % 26) as int));
            assert(suffix_letters(b).last() == letter_char(((b - 1) % 26) as int));
            assert forall|d1: int, d2: int|
                0 <= d1 < 26 && 0 <= d2 < 26 && letter_char(d1) == letter_char(d2) implies d1
                == d2 by {}
            assert((a - 1) % 26 == (b - 1) % 26);
            assert(suffix_letters(a).drop_last() =~= suffix_letters(qa));
            assert(suffix_letters(b).drop_last() =~= suffix_letters(qb));
            assert((a - 1) / 26 <= a - 1) by (nonlinear_arith)
                requires
                    a >= 1,
            ;
            lemma_suffix_letters_injective(qa, qb);
            vstd::arithmetic::div_mod::lemma_fundamental_div_mod((a - 1) as int, 26);
            vstd::arithmetic::div_mod::lemma_fundamental_div_mod((b - 1) as int, 26);
            assert(a == b);
        }
    }
}

/// Distinct ranks give distinct suffixed paths for one candidate.
pub proof fn lemma_with_suffix_injective(c: Seq<char>, k1: nat, k2: nat)
    ensures
        with_suffix(c, k1) == with_suffix(c, k2) ==> k1 == k2,
{
    if with_suffix(c, k1) == with_suffix(c, k2) && k1 != k2 {
        if k1 == 0 || k2 == 0 {
            // the bare path is shorter than any suffixed one
            assert(false);
        } else {
            let s1 = suffix_letters(k1);
            let s2 = suffix_letters(k2);
            assert(s1.len() == s2.len()) by {
                assert((c + seq![' '] + s1).len() == (c + seq![' '] + s2).len());
            }
            assert forall|i: int| 0 <= i < s1.len() implies s1[i] == s2[i] by {
                assert((c + seq![' '] + s1)[c.len() + 1 + i] == s1[i]);
                assert((c + seq![' '] + s2)[c.len() + 1 + i] == s2[i]);
            }
            assert(s1 =~= s2);
            lemma_suffix_letters_injective(k1, k2);
        }
    }
}

/// If the walk returns a taken rank, every rank it tried was taken.
pub proof fn lemma_free_rank_tried(assigned: Seq<Seq<char>>, c: Seq<char>, k: nat, fuel: nat)
    ensures
        assigned.contains(with_suffix(c, free_rank(assigned, c, k, fuel))) ==> forall|j: int|
            k <= j < k + fuel ==> assigned.contains(#[trigger] with_suffix(c, j as nat)),
    decreases fuel,
{
    if fuel > 0 && assigned.contains(with_suffix(c, k)) {
        lemma_free_rank_tried(assigned, c, (k + 1) as nat, (fuel - 1) as nat);
    }
}

/// The walk with one more unit of fuel than there are assigned outputs
/// always lands on a free path: the tried paths are pairwise distinct, so
/// the assigned outputs cannot hold them all.
pub proof fn lemma_free_rank_finds_free(assigned: Seq<Seq<char>>, c: Seq<char>, k: nat)
    ensures
        !assigned.contains(with_suffix(c, free_rank(assigned, c, k, (assigned.len() + 1) as nat))),
{
    broadcast use vstd::seq_lib::seq_to_set_is_finite;

    let fuel = (assigned.len() + 1) as nat;
    lemma_free_rank_tried(assigned, c, k, fuel);
    if assigned.contains(with_suffix(c, free_rank(assigned, c, k, fuel))) {
        let tried = Seq::new(fuel, |j: int| with_suffix(c, (k + j) as nat));
        assert(tried.no_duplicates()) by {
            assert forall|i: int, j: int|
                0 <= i < tried.len() && 0 <= j < tried.len() && i != j implies tried[i]
                != tried[j] by {
                lemma_with_suffix_injective(c, (k + i) as nat, (k + j) as nat);
            }
        }
        tried.unique_seq_to_set();
        assert forall|x: Seq<char>| tried.to_set().contains(x) implies assigned.to_set().contains(
            x,
        ) by {
            let j = choose|j: int| 0 <= j < tried.len() && tried[j] == x;
            assert(assigned.contains(with_suffix(c, (k + j) as nat)));
        }
        assert(tried.to_set().subset_of(assigned.to_set()));
        assigned.lemma_cardinality_of_set();
        vstd::set_lib::lemma_len_subset(tried.to_set(), assigned.to_set());
        assert(false);
    }
}

/// Law: planning yields exactly one path per song.
pub proof fn lemma_planned_outputs_len(cands: Seq<Seq<char>>, n: int)
    ensures
        planned_outputs(cands, n).len() == (if n <= 0 {
            0int
        } else {
            n
        }),
    decreases n,
{
    if n > 0 {
        lemma_planned_outputs_len(cands, n - 1);
    }
}

/// Law: planning is a bijection between resolved songs and output paths:
/// a successfully planned group gets exactly one path per song.
pub proof fn lemma_one_path_per_song(kind: GroupKind, rs: Seq<ResolvedMetadataView>)
    ensures
        spec_planned_paths(kind, rs).len() == rs.len(),
{
    lemma_planned_outputs_len(candidates_of(kind, rs), rs.len() as int);
}

/// Law: the planned output paths are pairwise distinct, because every song
/// walks past all paths the earlier songs hold.
pub proof fn lemma_planned_outputs_distinct(cands: Seq<Seq<char>>, n: int)
    ensures
        planned_outputs(cands, n).no_duplicates(),
    decreases n,
{
    if n > 0 {
        lemma_planned_outputs_distinct(cands, n - 1);
        let prev = planned_outputs(cands, n - 1);
        let base = count_eq_in_prefix(cands, cands[n - 1], n - 1);
        lemma_free_rank_finds_free(prev, cands[n - 1], base);
        let newp = with_suffix(
            cands[n - 1],
            free_rank(prev, cands[n - 1], base, (prev.len() + 1) as nat),
        );
        assert(!prev.contains(newp));
        let whole = prev.push(newp);
        assert forall|i: int, j: int|
            0 <= i < whole.len() && 0 <= j < whole.len() && i != j implies whole[i]
            != whole[j] by {
            if i < prev.len() && j < prev.len() {
            } else if i < prev.len() {
                assert(whole[i] == prev[i]);
                assert(prev.contains(prev[i]));
            } else {
                assert(whole[j] == prev[j]);
                assert(prev.contains(prev[j]));
            }
        }
    }
}

/// Law: a planned group's song-to-path mapping is collision-free.
pub proof fn lemma_planned_paths_distinct(kind: GroupKind, rs: Seq<ResolvedMetadataView>)
    ensures
        spec_planned_paths(kind, rs).no_duplicates(),
{
    lemma_planned_outputs_distinct(candidates_of(kind, rs), rs.len() as int);
}

/// Whether a character may not appear in a path component.
fn forbidden_char_exec(c: char) -> (r: bool)
    ensures
        r == forbidden_char(c),
{
    c == '/' || c == '\\' || c == ':' || c == '*' || c == '"' || c == '?' || c == '<' || c == '>'
        || c == '|'
}

/// The first forbidden character of a component, if any.
#[verifier::loop_isolation(false)]
fn first_forbidden_char(s: &String) -> (r: Option<char>)
    ensures
        r is None <==> component_ok(s@),
        r matches Some(c) ==> exists|i: int| is_first_bad_char(s@, i) && c == s@[i],
{
    let mut it = s.as_str().chars();
    let ghost mut consumed: int = 0;
    loop
        invariant
            vstd::std_specs::iter::IteratorSpec::remaining(&it) =~= s@.skip(consumed),
            vstd::std_specs::iter::IteratorSpec::obeys_prophetic_iter_laws(&it),
            0 <= consumed <= s@.len(),
            forall|j: int| 0 <= j < consumed ==> !forbidden_char(#[trigger] s@[j]),
        decreases s@.len() - consumed,
    {
        let ghost before = vstd::std_specs::iter::IteratorSpec::remaining(&it);
        match it.next() {
            None => {
                proof {
                    assert(before.len() == 0);
                    assert(consumed == s@.len());
                }
                return None;
            },
            Some(c) => {
                proof {
                    assert(c == before[0]);
                    assert(c == s@[consumed]);
                }
                if forbidden_char_exec(c) {
                    proof {
                        assert(is_first_bad_char(s@, consumed));
                    }
                    return Some(c);
                }
                proof {
                    assert(before.drop_first() =~= s@.skip(consumed + 1));
                    consumed = consumed + 1;
                }
            },
        }
    }
}

/// The uppercase-letter suffix of the n-th duplicate.
fn suffix_letters_exec(n: u128) -> (r: String)
    ensures
        r@ == suffix_letters(n as nat),
    decreases n,
{
    if n == 0 {
        String::new()
    } else {
        let d = ((n - 1) % 26) as usize;
        let mut r = suffix_letters_exec((n - 1) / 26);
        r.append(letter_str(d));
        r
    }
}

/// Builds the candidate path carrying the suffix of rank `k`.
fn suffixed_path(c: &String, k: u128) -> (r: String)
    ensures
        r@ == with_suffix(c@, k as nat),
{
    proof {
        reveal_strlit(" ");
    }
    if k == 0 {
        c.clone()
    } else {
        let mut r = c.clone();
        r.append(" ");
        let sfx = suffix_letters_exec(k);
        r.append(sfx.as_str());
        proof {
            assert(r@ =~= with_suffix(c@, k as nat));
        }
        r
    }
}

/// Whether one of the assigned output paths equals `p`.
fn contains_string(v: &Vec<String>, p: &String) -> (r: bool)
    ensures
        r == v.deep_view().contains(p@),
{
    broadcast use crate::order::lemma_vec_deep_view_index;

    let mut i: usize = 0;
    while i < v.len()
        invariant
            i <= v@.len(),
            forall|j: int| 0 <= j < i ==> #[trigger] v.deep_view()[j] != p@,
        decreases v@.len() - i,
    {
        if v[i] == *p {
            proof {
                assert(v.deep_view()[i as int] == p@);
            }
            return true;
        }
        i = i + 1;
    }
    proof {
        if v.deep_view().contains(p@) {
            let j = choose|j: int| 0 <= j < v.deep_view().len() && v.deep_view()[j] == p@;
            assert(false);
        }
    }
    false
}

/// The letter of one suffix digit.
fn letter_str(d: usize) -> (r: &'static str)
    requires
        d < 26,
    ensures
        r@ =~= seq![letter_char(d as int)],
{
    proof {
        reveal_strlit("A");
        reveal_strlit("B");
        reveal_strlit("C");
        reveal_strlit("D");
        reveal_strlit("E");
        reveal_strlit("F");
        reveal_strlit("G");
        reveal_strlit("H");
        reveal_strlit("I");
        reveal_strlit("J");
        reveal_strlit("K");
        reveal_strlit("L");
        reveal_strlit("M");
        reveal_strlit("N");
        reveal_strlit("O");
        reveal_strlit("P");
        reveal_strlit("Q");
        reveal_strlit("R");
        reveal_strlit("S");
        reveal_strlit("T");
        reveal_strlit("U");
        reveal_strlit("V");
        reveal_strlit("W");
        reveal_strlit("X");
        reveal_strlit("Y");
        reveal_strlit("Z");
    }
    if d == 0 { "A" }
    else if d == 1 { "B" }
    else if d == 2 { "C" }
    else if d == 3 { "D" }
    else if d == 4 { "E" }
    else if d == 5 { "F" }
    else if d == 6 { "G" }
    else if d == 7 { "H" }
    else if d == 8 { "I" }
    else if d == 9 { "J" }
    else if d == 10 { "K" }
    else if d == 11 { "L" }
    else if d == 12 { "M" }
    else if d == 13 { "N" }
    else if d == 14 { "O" }
    else if d == 15 { "P" }
    else if d == 16 { "Q" }
    else if d == 17 { "R" }
    else if d == 18 { "S" }
    else if d == 19 { "T" }
    else if d == 20 { "U" }
    else if d == 21 { "V" }
    else if d == 22 { "W" }
    else if d == 23 { "X" }
    else if d == 24 { "Y" }
    else { "Z" }
}

/// Plans the output paths of one group's resolved songs, in final song
/// order: validates every component, joins the template, and disambiguates
/// identical candidates with letter suffixes, walking past any collision
/// with an earlier song's output. The whole group fails on the first
/// unresolved or invalid song; the result holds exactly one path per song
/// and the paths are pairwise distinct. For a compilation the result is
/// also the playlist content.
#[verifier::loop_isolation(false)]
#[verifier::rlimit(80)]
pub fn plan_output_paths(kind: GroupKind, resolved: &Vec<ResolvedMetadata>) -> (r: Result<
    Vec<String>,
    PlanError,
>)
    ensures
        r is Ok <==> (forall|i: int| 0 <= i < resolved@.len() ==> song_plannable(
            kind,
            #[trigger] resolved.deep_view()[i],
        )),
        r matches Ok(paths) ==> paths@.len() == resolved@.len() && paths.deep_view()
            == spec_planned_paths(kind, resolved.deep_view())
            && paths.deep_view().no_duplicates(),
        r matches Err(PlanError::UnresolvedMetadataError { song }) ==> 0 <= song
            < resolved@.len() && !song_resolved(kind, resolved.deep_view()[song as int]) && forall|
            j: int,
        |
            0 <= j < song ==> song_plannable(kind, #[trigger] resolved.deep_view()[j]),
        r matches Err(PlanError::PathValidationError { song, character }) ==> 0 <= song
            < resolved@.len() && song_resolved(kind, resolved.deep_view()[song as int])
            && !song_valid(kind, resolved.deep_view()[song as int]) && forbidden_char(character)
            && (exists|ci: int, k: int|
            0 <= ci < song_components(kind, resolved.deep_view()[song as int]).len()
                && is_first_bad_char(
                song_components(kind, resolved.deep_view()[song as int])[ci],
                k,
            ) && character == song_components(kind, resolved.deep_view()[song as int])[ci][k])
            && forall|j: int|
            0 <= j < song ==> song_plannable(kind, #[trigger] resolved.deep_view()[j]),
{
    broadcast use crate::order::lemma_vec_deep_view_index;

    let ghost rs = resolved.deep_view();
    let ghost cspec = candidates_of(kind, rs);
    proof {
        reveal_strlit("/");
        reveal_strlit(" ");
    }
    let mut cands: Vec<String> = Vec::new();
    let mut i: usize = 0;
    while i < resolved.len()
        invariant
            i <= rs.len(),
            cands@.len() == i,
            forall|j: int| 0 <= j < i ==> song_plannable(kind, #[trigger] rs[j]),
            forall|j: int| 0 <= j < i ==> #[trigger] cands.deep_view()[j] == cspec[j],
        decreases rs.len() - i,
    {
        let ghost rv = rs[i as int];
        let song = &resolved[i];
        // gather the components in template order; a missing
        // naming-required field fails the group
        let mut components: Vec<&String> = Vec::new();
        match kind {
            GroupKind::Album => {
                if song.album_artists.len() == 0 || song.album.is_none() || song.title.is_none() {
                    return Err(PlanError::UnresolvedMetadataError { song: i });
                }
                components.push(&song.album_artists[0]);
                match &song.album {
                    Some(al) => components.push(al),
                    None => (),
                }
                match &song.title {
                    Some(t) => components.push(t),
                    None => (),
                }
            },
            GroupKind::Compilation => {
                if song.artists.len() == 0 || song.title.is_none() {
                    return Err(PlanError::UnresolvedMetadataError { song: i });
                }
                components.push(&song.artists[0]);
                match &song.title {
                    Some(t) => components.push(t),
                    None => (),
                }
            },
        }
        proof {
            assert(song_resolved(kind, rv));
            assert(components.deep_view() =~= song_components(kind, rv));
        }
        // validate every component before any deduplication
        let mut ci: usize = 0;
        while ci < components.len()
            invariant
                ci <= components@.len(),
                components.deep_view() =~= song_components(kind, rv),
                forall|cj: int| 0 <= cj < ci ==> component_ok(
                    #[trigger] components.deep_view()[cj],
                ),
            decreases components@.len() - ci,
        {
            match first_forbidden_char(components[ci]) {
                Some(c) => {
                    proof {
                        assert(components.deep_view()[ci as int] == song_components(kind, rv)[ci as int]);
                        let k = choose|k: int|
                            is_first_bad_char(song_components(kind, rv)[ci as int], k) && c
                                == song_components(kind, rv)[ci as int][k];
                        assert(is_first_bad_char(song_components(kind, rv)[ci as int], k));
                        assert(!component_ok(song_components(kind, rv)[ci as int]));
                        assert(!song_valid(kind, rv));
                    }
                    return Err(PlanError::PathValidationError { song: i, character: c });
                },
                None => (),
            }
            ci = ci + 1;
        }
        proof {
            assert(song_valid(kind, rv));
        }
        // join the components with the separator
        let mut p: String = components[0].clone();
        let mut cj: usize = 1;
        while cj < components.len()
            invariant
                1 <= cj <= components@.len(),
                components@.len() >= 1,
                components.deep_view() =~= song_components(kind, rv),
                p@ =~= join_prefix(song_components(kind, rv), cj as int),
            decreases components@.len() - cj,
        {
            p.append("/");
            p.append(components[cj].as_str());
            cj = cj + 1;
        }
        proof {
            let comps = song_components(kind, rv);
            assert(join_prefix(comps, 1) == comps[0]);
            assert(join_prefix(comps, 2) == join_prefix(comps, 1) + seq!['/'] + comps[1]);
            if comps.len() == 3 {
                assert(join_prefix(comps, 3) == join_prefix(comps, 2) + seq!['/'] + comps[2]);
            }
            assert(p@ =~= candidate_of(kind, rv));
        }
        let ghost cands0 = cands.deep_view();
        cands.push(p);
        proof {
            assert(cands.deep_view() =~= cands0.push(candidate_of(kind, rv)));
            assert(cspec[i as int] == candidate_of(kind, rv));
        }
        i = i + 1;
    }
    proof {
        assert(cands.deep_view() =~= cspec);
    }
    // assign each song the first free suffixed path, in final song order
    let mut out: Vec<String> = Vec::new();
    let mut i2: usize = 0;
    while i2 < cands.len()
        invariant
            i2 <= cands@.len(),
            out@.len() == i2,
            cands.deep_view() == cspec,
            cands@.len() == rs.len(),
            out.deep_view() =~= planned_outputs(cspec, i2 as int),
        decreases cands@.len() - i2,
    {
        // how many earlier songs share this candidate: the base rank
        let mut count: usize = 0;
        let mut j: usize = 0;
        while j < i2
            invariant
                j <= i2 <= cands@.len(),
                count <= j,
                count as nat == count_eq_in_prefix(cspec, cspec[i2 as int], j as int),
            decreases i2 - j,
        {
            if cands[j] == cands[i2] {
                count = count + 1;
            }
            j = j + 1;
        }
        // walk the suffix ranks upward past every already assigned path
        let ghost prev = out.deep_view();
        let ghost cv = cspec[i2 as int];
        let ghost spec_fuel = (prev.len() + 1) as nat;
        let ghost rank = free_rank(prev, cv, count as nat, spec_fuel);
        let mut k: u128 = count as u128;
        let mut remaining: usize = out.len();
        let mut path = suffixed_path(&cands[i2], k);
        loop
            invariant
                out.deep_view() == prev,
                out@.len() == i2,
                path@ == with_suffix(cv, k as nat),
                remaining <= i2,
                k as int == count + (i2 - remaining),
                rank == free_rank(prev, cv, k as nat, (remaining + 1) as nat),
            decreases remaining,
        {
            if !contains_string(&out, &path) {
                proof {
                    assert(rank == k as nat);
                }
                break;
            }
            if remaining == 0 {
                // the walk ran its fuel down; one more rank than there are
                // assigned paths always frees one, so this next rank is free
                proof {
                    assert(free_rank(prev, cv, k as nat, 1nat) == free_rank(
                        prev,
                        cv,
                        ((k as nat) + 1) as nat,
                        0nat,
                    ));
                    assert(free_rank(prev, cv, ((k as nat) + 1) as nat, 0nat) == ((k as nat)
                        + 1) as nat);
                }
                k = k + 1;
                path = suffixed_path(&cands[i2], k);
                proof {
                    assert(rank == k as nat);
                }
                break;
            }
            proof {
                assert(free_rank(prev, cv, k as nat, (remaining + 1) as nat) == free_rank(
                    prev,
                    cv,
                    ((k as nat) + 1) as nat,
                    remaining as nat,
                ));
            }
            k = k + 1;
            remaining = remaining - 1;
            path = suffixed_path(&cands[i2], k);
        }
        proof {
            assert(path@ == with_suffix(cv, rank));
        }
        out.push(path);
        proof {
            assert(out.deep_view() =~= prev.push(with_suffix(cv, rank)));
            assert(out.deep_view() =~= planned_outputs(cspec, i2 + 1));
        }
        i2 = i2 + 1;
    }
    proof {
        assert(out.deep_view() =~= spec_planned_paths(kind, rs));
        lemma_planned_paths_distinct(kind, rs);
    }
    Ok(out)
}

/// The first `n` components joined with the separator.
pub open spec fn join_prefix(comps: Seq<Seq<char>>, n: int) -> Seq<char>
    decreases n,
{
    if n <= 0 {
        Seq::empty()
    } else if n == 1 {
        comps[0]
    } else {
        join_prefix(comps, n - 1) + seq!['/'] + comps[n - 1]
    }
}

} // verus!
