//! The sweep of expired cache files: families that collect their entries in
//! a directory of their own grow without bound, so their files are deleted
//! once they age past the family's staleness window. Which files a sweep
//! deletes is decided and proved here; the calling program lists the
//! directory, hands the listing in, and removes exactly the files returned.
//! Families without a directory keep one file, overwritten in place, and are
//! not swept.

use vstd::prelude::*;

verus! {

use crate::text::spec_views;

/// One file of a family's cache directory, as a directory listing reports
/// it.
pub struct SweepEntry {
    /// The file's name.
    pub name: String,
    /// The file's modification time, in Unix milliseconds.
    pub modified_ms: u64,
}

/// Whether a file name carries the cache file extension.
pub open spec fn spec_has_json_ext(name: Seq<char>) -> bool {
    name.len() >= 5 && name.subrange(name.len() - 5, name.len() as int) == ".json"@
}

/// Whether a file's age exceeds the staleness window, strictly. A
/// modification time in the future counts as a clock anomaly and the file is
/// kept.
pub open spec fn spec_expired(now_ms: u64, modified_ms: u64, interval_ms: u64) -> bool {
    modified_ms <= now_ms && now_ms - modified_ms > interval_ms
}

/// Whether a sweep deletes a file: it carries the cache extension and its
/// age exceeds the window.
pub open spec fn spec_should_sweep(
    name: Seq<char>,
    modified_ms: u64,
    now_ms: u64,
    interval_ms: u64,
) -> bool {
    spec_has_json_ext(name) && spec_expired(now_ms, modified_ms, interval_ms)
}

/// The names a sweep of one listing deletes, in listing order: exactly the
/// cache files aged past the window.
pub open spec fn spec_swept(entries: Seq<SweepEntry>, now_ms: u64, interval_ms: u64) -> Seq<
    Seq<char>,
> {
    entries.filter(
        |e: SweepEntry| spec_should_sweep(e.name@, e.modified_ms, now_ms, interval_ms),
    ).map_values(|e: SweepEntry| e.name@)
}

/// Whether a file name carries the cache file extension.
pub fn has_json_ext(name: &str) -> (r: bool)
    ensures
        r == spec_has_json_ext(name@),
{
    let n = name.unicode_len();
    if n < 5 {
        proof {
            reveal_strlit(".json");
        }
        false
    } else {
        let r = name.get_char(n - 5) == '.' && name.get_char(n - 4) == 'j' && name.get_char(n - 3)
            == 's' && name.get_char(n - 2) == 'o' && name.get_char(n - 1) == 'n';
        proof {
            reveal_strlit(".json");
            let tail = name@.subrange(name@.len() - 5, name@.len() as int);
            if r {
                assert(tail =~= ".json"@);
            } else {
                assert(tail != ".json"@) by {
                    if tail == ".json"@ {
                        assert(tail[0] == '.' && tail[1] == 'j' && tail[2] == 's' && tail[3] == 'o'
                            && tail[4] == 'n');
                    }
                }
            }
        }
        r
    }
}

/// Whether a sweep deletes a file.
pub fn should_sweep(entry: &SweepEntry, now_ms: u64, interval_ms: u64) -> (r: bool)
    ensures
        r == spec_should_sweep(entry.name@, entry.modified_ms, now_ms, interval_ms),
{
    has_json_ext(entry.name.as_str()) && entry.modified_ms <= now_ms && now_ms - entry.modified_ms
        > interval_ms
}

/// Picks from one directory listing the files a sweep deletes: exactly the
/// cache files aged strictly past the family's window, in listing order.
/// A file of another age, another extension, or a modification time in the
/// future is left in place.
pub fn select_expired(entries: &Vec<SweepEntry>, now_ms: u64, interval_ms: u64) -> (r: Vec<String>)
    ensures
        spec_views(r@) == spec_swept(entries@, now_ms, interval_ms),
{
    let mut r: Vec<String> = Vec::new();
    let mut i: usize = 0;
    while i < entries.len()
        invariant
            i <= entries.len(),
            spec_views(r@) =~= spec_swept(entries@.subrange(0, i as int), now_ms, interval_ms),
        decreases entries.len() - i,
    {
        let e = &entries[i];
        if should_sweep(e, now_ms, interval_ms) {
            r.push(e.name.clone());
        }
        i += 1;
        proof {
            broadcast use vstd::prelude::Seq::lemma_push_map_commute;

            let pre = entries@.subrange(0, i - 1);
            let post = entries@.subrange(0, i as int);
            assert(post.drop_last() =~= pre);
            reveal(Seq::filter);
            assert(spec_views(r@) =~= spec_swept(post, now_ms, interval_ms));
        }
    }
    proof {
        assert(entries@.subrange(0, entries@.len() as int) =~= entries@);
    }
    r
}

} // verus!
