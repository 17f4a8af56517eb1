//! Decisions of the library scan: which files to read tags from, which
//! formats count as audio, and which known files are gone.
//!
//! The walk over the disk and the tag reading happen outside; they hand the
//! paths, times and extensions they found to the functions here.

use vstd::prelude::*;
use vstd::string::*;

verus! {

/// What the scan found out about one audio file.
#[derive(Debug, Clone)]
pub struct AudioFileMetadata {
    pub path: String,
    pub title: Option<String>,
    pub artist: Option<String>,
    pub album: Option<String>,
    pub duration_secs: Option<u64>,
    pub format: String,
    pub last_modified: i64,
}

/// Result of a scan: files that are new or changed, and known files that are
/// gone.
#[derive(Debug, Clone)]
pub struct ScanResult {
    pub new_or_modified: Vec<AudioFileMetadata>,
    pub deleted_paths: Vec<String>,
}

/// A file must be read again when it is unknown, or changed after the time
/// that was recorded for it.
pub open spec fn spec_needs_processing(known: Option<i64>, modified: i64) -> bool {
    match known {
        Some(t) => modified > t,
        None => true,
    }
}

/// Whether a file must be read again; see [`spec_needs_processing`].
pub fn needs_processing(known: Option<i64>, modified: i64) -> (r: bool)
    ensures
        r == spec_needs_processing(known, modified),
{
    match known {
        Some(t) => modified > t,
        None => true,
    }
}

/// The lowercase form of a string, as `str::to_lowercase` gives it.
pub uninterp spec fn lower_of(s: Seq<char>) -> Seq<char>;

/// Relies on `str::to_lowercase`: the result depends on the characters alone.
#[verifier::external_body]
fn to_lower(s: &str) -> (r: String)
    ensures
        r@ == lower_of(s@),
{
    s.to_lowercase()
}

/// The extensions, in lowercase, of the formats that the scan accepts.
pub open spec fn supported_format(ext: Seq<char>) -> bool {
    ext == "mp3"@ || ext == "flac"@ || ext == "ogg"@ || ext == "m4a"@ || ext == "wav"@
}

fn is(s: &String, lit: &str) -> (r: bool)
    ensures
        r == (s@ == lit@),
{
    let l = String::from_str(lit);
    *s == l
}

/// Whether a lowercase extension names a supported format.
pub fn is_supported_format(ext: &String) -> (r: bool)
    ensures
        r == supported_format(ext@),
{
    is(ext, "mp3") || is(ext, "flac") || is(ext, "ogg") || is(ext, "m4a") || is(ext, "wav")
}

/// The format of a file with extension `ext` (any case): its lowercase
/// extension when that is a supported format, else `None`.
pub fn audio_format_of(ext: &str) -> (r: Option<String>)
    ensures
        match r {
            Some(f) => f@ == lower_of(ext@) && supported_format(f@),
            None => !supported_format(lower_of(ext@)),
        },
{
    let lower = to_lower(ext);
    if is_supported_format(&lower) {
        Some(lower)
    } else {
        None
    }
}

/// The characters of each string.
pub open spec fn views(s: Seq<String>) -> Seq<Seq<char>> {
    s.map_values(|x: String| x@)
}

/// The known paths that were not found, in their order.
pub open spec fn spec_deleted(known: Seq<Seq<char>>, found: Seq<Seq<char>>) -> Seq<Seq<char>>
    decreases known.len(),
{
    if known.len() == 0 {
        Seq::empty()
    } else {
        let prev = spec_deleted(known.drop_last(), found);
        if found.contains(known.last()) {
            prev
        } else {
            prev.push(known.last())
        }
    }
}

fn contains_path(found: &Vec<String>, p: &String) -> (r: bool)
    ensures
        r == views(found@).contains(p@),
{
    let mut i: usize = 0;
    while i < found.len()
        invariant
            i <= found@.len(),
            forall|j: int| 0 <= j < i ==> found@[j]@ != p@,
        decreases found@.len() - i,
    {
        if found[i] == *p {
            assert(views(found@)[i as int] == p@);
            return true;
        }
        i = i + 1;
    }
    proof {
        if views(found@).contains(p@) {
            let j = choose|j: int| 0 <= j < views(found@).len() && views(found@)[j] == p@;
            assert(found@[j]@ == p@);
        }
    }
    false
}

/// The paths of `known` that are not among `found`, in the order of `known`.
pub fn deleted_paths(known: &Vec<String>, found: &Vec<String>) -> (r: Vec<String>)
    ensures
        views(r@) == spec_deleted(views(known@), views(found@)),
{
    let mut r: Vec<String> = Vec::new();
    let mut i: usize = 0;
    while i < known.len()
        invariant
            i <= known@.len(),
            views(r@) == spec_deleted(views(known@).take(i as int), views(found@)),
        decreases known@.len() - i,
    {
        let k = &known[i];
        proof {
            let t = views(known@).take(i as int + 1);
            assert(t.drop_last() =~= views(known@).take(i as int));
            assert(t.last() == k@);
        }
        if !contains_path(found, k) {
            r.push(k.clone());
            assert(views(r@) =~= spec_deleted(views(known@).take(i as int), views(found@)).push(
                k@,
            ));
        }
        i = i + 1;
    }
    assert(views(known@).take(known@.len() as int) =~= views(known@));
    r
}

} // verus!
