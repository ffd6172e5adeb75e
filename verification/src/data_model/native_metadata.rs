//! Native tag metadata: the record a format-specific tag decoder yields for
//! one source file, and the dispatch from file extension to tag format.
//!
//! Decoding a tag is an I/O concern outside this crate; an unreadable or
//! unsupported file yields an all-absent record, never an engine-fatal
//! error.

use vstd::prelude::*;
use vstd::string::StringExecFns;

verus! {

/// The tag format a file extension dispatches to.
#[derive(Debug, Clone, Copy, PartialEq, Eq, Structural)]
pub enum NativeMetadataFormat {
    Unsupported,
    ID3,
    M4A,
    FLAC,
}

/// The native tag record of one source file. Every field may be absent.
#[derive(Debug)]
pub struct NativeMetadata {
    pub fmt: NativeMetadataFormat,
    pub name: Option<String>,
    pub album: Option<String>,
    pub album_artists: Vec<String>,
    pub artist: Vec<String>,
    pub num_discs: Option<u64>,
    pub disc_idx: Option<u64>,
    pub num_tracks: Option<u64>,
    pub track_idx: Option<u64>,
}

/// Ghost record of a native tag.
pub ghost struct NativeMetadataView {
    pub fmt: NativeMetadataFormat,
    pub name: Option<Seq<char>>,
    pub album: Option<Seq<char>>,
    pub album_artists: Seq<Seq<char>>,
    pub artist: Seq<Seq<char>>,
    pub num_discs: Option<u64>,
    pub disc_idx: Option<u64>,
    pub num_tracks: Option<u64>,
    pub track_idx: Option<u64>,
}

impl View for NativeMetadata {
    type V = NativeMetadataView;

    open spec fn view(&self) -> NativeMetadataView {
        NativeMetadataView {
            fmt: self.fmt,
            name: self.name.deep_view(),
            album: self.album.deep_view(),
            album_artists: self.album_artists.deep_view(),
            artist: self.artist.deep_view(),
            num_discs: self.num_discs,
            disc_idx: self.disc_idx,
            num_tracks: self.num_tracks,
            track_idx: self.track_idx,
        }
    }
}

impl DeepView for NativeMetadata {
    type V = NativeMetadataView;

    open spec fn deep_view(&self) -> NativeMetadataView {
        self.view()
    }
}

/// The all-absent native record.
pub open spec fn spec_absent_native() -> NativeMetadataView {
    NativeMetadataView {
        fmt: NativeMetadataFormat::Unsupported,
        name: None,
        album: None,
        album_artists: Seq::empty(),
        artist: Seq::empty(),
        num_discs: None,
        disc_idx: None,
        num_tracks: None,
        track_idx: None,
    }
}

impl Default for NativeMetadata {
    /// The record of an unreadable or unsupported file: everything absent.
    fn default() -> (r: Self)
        ensures
            r@ == spec_absent_native(),
    {
        let r = NativeMetadata {
            fmt: NativeMetadataFormat::Unsupported,
            name: None,
            album: None,
            album_artists: Vec::new(),
            artist: Vec::new(),
            num_discs: None,
            disc_idx: None,
            num_tracks: None,
            track_idx: None,
        };
        proof {
            assert(r@ =~= spec_absent_native()) by {
                assert(r.album_artists.deep_view() =~= Seq::<Seq<char>>::empty());
                assert(r.artist.deep_view() =~= Seq::<Seq<char>>::empty());
            }
        }
        r
    }
}

/// ASCII lower-casing of one byte.
pub open spec fn ascii_lower(b: u8) -> u8 {
    if 65 <= b <= 90 {
        (b + 32) as u8
    } else {
        b
    }
}

/// A file extension, ASCII lower-cased byte for byte.
pub open spec fn lower_bytes(e: Seq<u8>) -> Seq<u8> {
    e.map_values(|b: u8| ascii_lower(b))
}

/// The tag format an extension dispatches to, compared case-insensitively:
/// `mp3`, `wav` and `aiff` carry an ID3 tag, `flac` a FLAC comment block,
/// `m4a` an MPEG-4 item list; everything else is unsupported.
pub open spec fn spec_format_of_ext(e: Seq<u8>) -> NativeMetadataFormat {
    let l = lower_bytes(e);
    if l == seq![109u8, 112u8, 51u8] || l == seq![119u8, 97u8, 118u8] || l == seq![
        97u8,
        105u8,
        102u8,
        102u8,
    ] {
        NativeMetadataFormat::ID3
    } else if l == seq![102u8, 108u8, 97u8, 99u8] {
        NativeMetadataFormat::FLAC
    } else if l == seq![109u8, 52u8, 97u8] {
        NativeMetadataFormat::M4A
    } else {
        NativeMetadataFormat::Unsupported
    }
}

impl NativeMetadataFormat {
    /// Dispatches a file extension to its tag format.
    pub fn from_extension(ext: &Vec<u8>) -> (r: NativeMetadataFormat)
        ensures
            r == spec_format_of_ext(ext@),
    {
        let mut low: Vec<u8> = Vec::new();
        let mut i: usize = 0;
        while i < ext.len()
            invariant
                i <= ext@.len(),
                low@.len() == i,
                forall|k: int| 0 <= k < i ==> low@[k] == ascii_lower(ext@[k]),
            decreases ext@.len() - i,
        {
            let b = ext[i];
            if 65 <= b && b <= 90 {
                low.push(b + 32);
            } else {
                low.push(b);
            }
            i = i + 1;
        }
        proof {
            assert(low@ =~= lower_bytes(ext@));
        }
        let r = if match_bytes3(&low, 109, 112, 51) || match_bytes3(&low, 119, 97, 118)
            || match_bytes4(&low, 97, 105, 102, 102) {
            NativeMetadataFormat::ID3
        } else if match_bytes4(&low, 102, 108, 97, 99) {
            NativeMetadataFormat::FLAC
        } else if match_bytes3(&low, 109, 52, 97) {
            NativeMetadataFormat::M4A
        } else {
            NativeMetadataFormat::Unsupported
        };
        r
    }
}

/// Whether `v` is exactly the three given bytes.
fn match_bytes3(v: &Vec<u8>, a: u8, b: u8, c: u8) -> (r: bool)
    ensures
        r == (v@ == seq![a, b, c]),
{
    let r = v.len() == 3 && v[0] == a && v[1] == b && v[2] == c;
    proof {
        if r {
            assert(v@ =~= seq![a, b, c]);
        } else {
            assert(v@ != seq![a, b, c]);
        }
    }
    r
}

/// Whether `v` is exactly the four given bytes.
fn match_bytes4(v: &Vec<u8>, a: u8, b: u8, c: u8, d: u8) -> (r: bool)
    ensures
        r == (v@ == seq![a, b, c, d]),
{
    let r = v.len() == 4 && v[0] == a && v[1] == b && v[2] == c && v[3] == d;
    proof {
        if r {
            assert(v@ =~= seq![a, b, c, d]);
        } else {
            assert(v@ != seq![a, b, c, d]);
        }
    }
    r
}

/// The default extension set scanned when a group declares no filter.
pub fn default_scan_exts() -> (r: Vec<String>)
    ensures
        r.deep_view() == seq!["mp3"@, "ogg"@, "flac"@, "wav"@, "aiff"@, "m4a"@],
{
    let mut r: Vec<String> = Vec::new();
    r.push(String::from_str("mp3"));
    r.push(String::from_str("ogg"));
    r.push(String::from_str("flac"));
    r.push(String::from_str("wav"));
    r.push(String::from_str("aiff"));
    r.push(String::from_str("m4a"));
    proof {
        assert(r.deep_view() =~= seq!["mp3"@, "ogg"@, "flac"@, "wav"@, "aiff"@, "m4a"@]);
    }
    r
}


/// Whether a byte is an ASCII decimal digit.
pub open spec fn is_digit_byte(b: u8) -> bool {
    48 <= b <= 57
}

/// The index of the first digit at or after `i`, or -1 if there is none.
pub open spec fn first_digit_from(s: Seq<u8>, i: int) -> int
    decreases s.len() - i,
{
    if i < 0 || i >= s.len() {
        -1
    } else if is_digit_byte(s[i]) {
        i
    } else {
        first_digit_from(s, i + 1)
    }
}

/// The end of the digit run starting at `i`.
pub open spec fn digit_run_end(s: Seq<u8>, i: int) -> int
    decreases s.len() - i,
{
    if i < 0 || i >= s.len() || !is_digit_byte(s[i]) {
        i
    } else {
        digit_run_end(s, i + 1)
    }
}

/// The decimal value of the digits in `[lo, hi)`.
pub open spec fn digits_value(s: Seq<u8>, lo: int, hi: int) -> nat
    decreases hi - lo,
{
    if hi <= lo {
        0
    } else {
        digits_value(s, lo, hi - 1) * 10 + (s[hi - 1] as int - 48) as nat
    }
}

/// What a track-number comment denotes: the first digit run, and the
/// second digit run if a separator follows immediately. `None` when the
/// text holds no digit at all.
pub open spec fn spec_track_pair(s: Seq<u8>) -> Option<(nat, Option<nat>)> {
    let f = first_digit_from(s, 0);
    if f < 0 {
        None
    } else {
        let e = digit_run_end(s, f);
        let t = digits_value(s, f, e);
        if e + 1 < s.len() && s[e] == 47 && is_digit_byte(s[e + 1]) {
            Some((t, Some(digits_value(s, e + 1, digit_run_end(s, e + 1)))))
        } else {
            Some((t, None))
        }
    }
}

/// A digit run's value does not fit the index type.
#[derive(Debug, Clone, Copy, PartialEq, Eq, Structural)]
pub struct TrackNumberOverflow;

/// Reads one digit run from `start`: its end and its value, or an overflow
/// report when the value does not fit.
#[verifier::loop_isolation(false)]
fn parse_digit_run(s: &Vec<u8>, start: usize) -> (r: (usize, Result<u64, TrackNumberOverflow>))
    requires
        start < s@.len(),
        is_digit_byte(s@[start as int]),
    ensures
        r.0 == digit_run_end(s@, start as int),
        start < r.0 <= s@.len(),
        r.1 matches Ok(v) ==> v as nat == digits_value(s@, start as int, r.0 as int),
        r.1 is Err <==> digits_value(s@, start as int, digit_run_end(s@, start as int))
            > u64::MAX,
{
    let mut i = start;
    let mut v: u64 = 0;
    let mut over = false;
    while i < s.len() && 48 <= s[i] && s[i] <= 57
        invariant
            start <= i <= s@.len(),
            digit_run_end(s@, start as int) == digit_run_end(s@, i as int),
            !over ==> v as nat == digits_value(s@, start as int, i as int),
            over ==> digits_value(s@, start as int, i as int) > u64::MAX,
        decreases s@.len() - i,
    {
        let d = s[i] - 48;
        proof {
            assert(digits_value(s@, start as int, i + 1) == digits_value(
                s@,
                start as int,
                i as int,
            ) * 10 + d);
            assert(digit_run_end(s@, i as int) == digit_run_end(s@, i + 1));
        }
        if !over {
            if v > u64::MAX / 10 || (v == u64::MAX / 10 && d > 5) {
                over = true;
                proof {
                    assert(digits_value(s@, start as int, i + 1) > u64::MAX);
                }
            } else {
                v = v * 10 + (d as u64);
            }
        } else {
            proof {
                assert(digits_value(s@, start as int, i as int) * 10 >= digits_value(
                    s@,
                    start as int,
                    i as int,
                ));
            }
        }
        i = i + 1;
    }
    proof {
        assert(digit_run_end(s@, i as int) == i);
        assert(i > start) by {
            if i == start {
                assert(is_digit_byte(s@[start as int]));
            }
        }
    }
    if over {
        (i, Err(TrackNumberOverflow))
    } else {
        (i, Ok(v))
    }
}

/// Parses a track-number comment such as a bare index or an
/// index/total pair: the first digit run is the track index, and a second
/// run directly after a slash is the media's track total. Text without any
/// digit yields no indices; a value too large for the index type is an
/// overflow error.
#[verifier::loop_isolation(false)]
pub fn parse_track_number(s: &Vec<u8>) -> (r: Result<
    (Option<u64>, Option<u64>),
    TrackNumberOverflow,
>)
    ensures
        spec_track_pair(s@) is None ==> r == Ok::<(Option<u64>, Option<u64>), TrackNumberOverflow>(
            (None, None),
        ),
        r matches Ok(p) ==> (match spec_track_pair(s@) {
            None => p == (None::<u64>, None::<u64>),
            Some(q) => p.0 == Some(q.0 as u64) && q.0 <= u64::MAX && (match q.1 {
                Some(n) => p.1 == Some(n as u64) && n <= u64::MAX,
                None => p.1 is None,
            }),
        }),
        r is Err <==> (match spec_track_pair(s@) {
            None => false,
            Some(q) => q.0 > u64::MAX || (q.1 matches Some(n) && n > u64::MAX),
        }),
{
    let mut f: usize = 0;
    proof {
        assert(first_digit_from(s@, 0) == first_digit_from(s@, f as int));
    }
    while f < s.len() && !(48 <= s[f] && s[f] <= 57)
        invariant
            0 <= f <= s@.len(),
            first_digit_from(s@, 0) == first_digit_from(s@, f as int),
        decreases s@.len() - f,
    {
        proof {
            assert(first_digit_from(s@, f as int) == first_digit_from(s@, f + 1));
        }
        f = f + 1;
    }
    if f >= s.len() {
        proof {
            assert(first_digit_from(s@, f as int) == -1);
        }
        return Ok((None, None));
    }
    proof {
        assert(first_digit_from(s@, 0) == f as int);
    }
    let (e, tres) = parse_digit_run(s, f);
    let t = match tres {
        Ok(v) => v,
        Err(x) => {
            return Err(x);
        },
    };
    if s.len() - e >= 2 && s[e] == 47 && 48 <= s[e + 1] && s[e + 1] <= 57 {
        let (_e2, nres) = parse_digit_run(s, e + 1);
        match nres {
            Ok(n) => Ok((Some(t), Some(n))),
            Err(x) => Err(x),
        }
    } else {
        Ok((Some(t), None))
    }
}

} // verus!
