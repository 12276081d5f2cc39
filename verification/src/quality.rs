//! Video quality buckets derived from stream heights.

use vstd::prelude::*;

verus! {

/// Video quality level derived from stream height (pixels).
#[derive(Debug, Clone, Copy, PartialEq, Eq, Hash, Structural)]
pub enum Quality {
    /// 2160p / 4K
    P2160,
    /// 1440p / 2K
    P1440,
    /// 1080p Full HD
    P1080,
    /// 720p HD
    P720,
    /// 480p SD
    P480,
    /// 360p and below
    P360,
    /// Unconstrained: let yt-dlp pick the best available stream.
    Best,
}

/// The quality bucket of a stream of height `h`: the greatest bucket whose
/// lower bound `h` reaches, and `P360` below 480.
pub open spec fn quality_for_height(h: int) -> Quality {
    if h >= 2160 {
        Quality::P2160
    } else if h >= 1440 {
        Quality::P1440
    } else if h >= 1080 {
        Quality::P1080
    } else if h >= 720 {
        Quality::P720
    } else if h >= 480 {
        Quality::P480
    } else {
        Quality::P360
    }
}

/// Height ceiling of a bounded quality level (`Best` has none).
pub open spec fn height_cap_of(q: Quality) -> u32
    recommends
        q != Quality::Best,
{
    match q {
        Quality::P2160 => 2160,
        Quality::P1440 => 1440,
        Quality::P1080 => 1080,
        Quality::P720 => 720,
        Quality::P480 => 480,
        Quality::P360 => 360,
        Quality::Best => 0,
    }
}

/// Ordering key: `Best` above every bounded level, the others by height.
pub open spec fn rank(q: Quality) -> u32 {
    match q {
        Quality::Best => u32::MAX,
        _ => height_cap_of(q),
    }
}

/// All quality levels, from the most to the least prominent.
pub open spec fn descending_qualities() -> Seq<Quality> {
    seq![
        Quality::Best,
        Quality::P2160,
        Quality::P1440,
        Quality::P1080,
        Quality::P720,
        Quality::P480,
        Quality::P360,
    ]
}

/// Index of `q` in `descending_qualities()`.
pub open spec fn position(q: Quality) -> int {
    match q {
        Quality::Best => 0,
        Quality::P2160 => 1,
        Quality::P1440 => 2,
        Quality::P1080 => 3,
        Quality::P720 => 4,
        Quality::P480 => 5,
        Quality::P360 => 6,
    }
}

/// Human-readable label, as shown in the quality selector.
pub open spec fn quality_label(q: Quality) -> Seq<char> {
    match q {
        Quality::P2160 => "2160p"@,
        Quality::P1440 => "1440p"@,
        Quality::P1080 => "1080p"@,
        Quality::P720 => "720p"@,
        Quality::P480 => "480p"@,
        Quality::P360 => "360p"@,
        Quality::Best => "Best"@,
    }
}

/// `res` is the selectable list built from `available`: strictly descending
/// by rank, holding `Best` and exactly the levels found in `available`.
pub open spec fn is_selectable_list(available: Seq<Quality>, res: Seq<Quality>) -> bool {
    &&& forall|i: int, j: int| 0 <= i < j < res.len() ==> rank(res[i]) > rank(res[j])
    &&& forall|q: Quality| res.contains(q) <==> (q == Quality::Best || available.contains(q))
}

impl Quality {
    /// Map a stream height (in pixels) to its quality bucket.
    ///
    /// Thresholds (inclusive lower bound): 2160, 1440, 1080, 720, 480;
    /// anything below 480 is `P360`.
    pub fn from_height(h: u32) -> (q: Quality)
        ensures
            q == quality_for_height(h as int),
    {
        if h >= 2160 {
            Quality::P2160
        } else if h >= 1440 {
            Quality::P1440
        } else if h >= 1080 {
            Quality::P1080
        } else if h >= 720 {
            Quality::P720
        } else if h >= 480 {
            Quality::P480
        } else {
            Quality::P360
        }
    }

    /// Numeric height ceiling of this quality level.
    ///
    /// `Best` has no ceiling: callers handle it separately.
    pub fn height_cap(self) -> (cap: u32)
        requires
            self != Quality::Best,
        ensures
            cap == height_cap_of(self),
    {
        match self {
            Quality::P2160 => 2160,
            Quality::P1440 => 1440,
            Quality::P1080 => 1080,
            Quality::P720 => 720,
            Quality::P480 => 480,
            Quality::P360 => 360,
            Quality::Best => vstd::pervasive::unreached(),
        }
    }

    /// Ordering key for a descending sort: `Best` maps to `u32::MAX`, every
    /// other level to its height ceiling.
    pub fn sort_key(self) -> (key: u32)
        ensures
            key == rank(self),
    {
        match self {
            Quality::Best => u32::MAX,
            other => other.height_cap(),
        }
    }

    /// Label of this level ("1080p", ..., "Best").
    pub fn label(self) -> (s: &'static str)
        ensures
            s@ == quality_label(self),
    {
        match self {
            Quality::P2160 => "2160p",
            Quality::P1440 => "1440p",
            Quality::P1080 => "1080p",
            Quality::P720 => "720p",
            Quality::P480 => "480p",
            Quality::P360 => "360p",
            Quality::Best => "Best",
        }
    }

    /// Build the list offered by the quality selector: every level found in
    /// `available` exactly once, plus `Best`, sorted descending by
    /// `sort_key`, so that `Best` always comes first.
    pub fn selectable_list(available: &[Quality]) -> (res: Vec<Quality>)
        ensures
            is_selectable_list(available@, res@),
            res@.len() >= 1,
            res@[0] == Quality::Best,
    {
        let order: [Quality; 7] = [
            Quality::Best,
            Quality::P2160,
            Quality::P1440,
            Quality::P1080,
            Quality::P720,
            Quality::P480,
            Quality::P360,
        ];
        assert(order@ == descending_qualities());
        let mut res: Vec<Quality> = Vec::new();
        for i in 0..7
            invariant
                order@ == descending_qualities(),
                forall|a: int, b: int| 0 <= a < b < res@.len() ==> rank(res@[a]) > rank(res@[b]),
                forall|k: int| 0 <= k < res@.len() ==> position(#[trigger] res@[k]) < i,
                forall|q: Quality|
                    res@.contains(q) <==> (position(q) < i && (q == Quality::Best
                        || available@.contains(q))),
                i > 0 ==> res@.len() >= 1 && res@[0] == Quality::Best,
        {
            let q = order[i];
            assert(position(q) == i);
            if q == Quality::Best || contains_quality(available, q) {
                let ghost before = res@;
                res.push(q);
                assert forall|qq: Quality|
                    res@.contains(qq) <==> (position(qq) < i + 1 && (qq == Quality::Best
                        || available@.contains(qq))) by {
                    if res@.contains(qq) && qq != q {
                        let k = choose|k: int| 0 <= k < res@.len() && res@[k] == qq;
                        assert(before[k] == qq);
                    }
                    if position(qq) < i + 1 && (qq == Quality::Best || available@.contains(qq)) {
                        if qq == q {
                            assert(res@[res@.len() - 1] == qq);
                        } else {
                            assert(before.contains(qq));
                            let k = choose|k: int| 0 <= k < before.len() && before[k] == qq;
                            assert(res@[k] == qq);
                        }
                    }
                }
            } else {
                assert forall|qq: Quality|
                    res@.contains(qq) <==> (position(qq) < i + 1 && (qq == Quality::Best
                        || available@.contains(qq))) by {
                    if position(qq) == i {
                        assert(qq == q);
                    }
                }
            }
        }
        res
    }
}

/// `sort_key` orders the levels as documented (Best > 2160p > 1440p > 1080p
/// > 720p > 480p > 360p), so no two levels share a key.
pub proof fn sort_key_orders_levels(i: int, j: int)
    requires
        0 <= i < j < 7,
    ensures
        rank(descending_qualities()[i]) > rank(descending_qualities()[j]),
{
}

/// A list strictly descending by `sort_key` holds no level twice.
pub proof fn ranked_list_has_no_repeats(res: Seq<Quality>)
    requires
        forall|i: int, j: int| 0 <= i < j < res.len() ==> rank(res[i]) > rank(res[j]),
    ensures
        res.no_duplicates(),
{
}

/// The selectable list of no available level is `[Best]`, and any
/// selectable list has `Best` first and no repeats.
pub proof fn selectable_list_shape(available: Seq<Quality>, res: Seq<Quality>)
    requires
        is_selectable_list(available, res),
    ensures
        res.no_duplicates(),
        res.len() > 0 && res[0] == Quality::Best,
        available.len() == 0 ==> res == seq![Quality::Best],
{
    assert(res.contains(Quality::Best));
    let k = choose|k: int| 0 <= k < res.len() && res[k] == Quality::Best;
    if k > 0 {
        assert(rank(res[0]) > rank(res[k]));
    }
    if available.len() == 0 {
        if res.len() > 1 {
            assert(res.contains(res[1]));
            assert(rank(res[0]) > rank(res[1]));
        }
        assert(res =~= seq![Quality::Best]);
    }
}

/// Distinct levels have distinct keys.
pub proof fn sort_key_is_injective(a: Quality, b: Quality)
    ensures
        rank(a) == rank(b) ==> a == b,
{
}

/// Heights map to bounded levels only, monotonically, and a level's own
/// height cap maps back to that level.
pub proof fn from_height_buckets(h1: int, h2: int, q: Quality)
    ensures
        quality_for_height(h1) != Quality::Best,
        h1 <= h2 ==> rank(quality_for_height(h1)) <= rank(quality_for_height(h2)),
        q != Quality::Best ==> quality_for_height(height_cap_of(q) as int) == q,
        h1 >= 360 ==> height_cap_of(quality_for_height(h1)) <= h1,
{
}

/// Whether `q` occurs in `xs`.
fn contains_quality(xs: &[Quality], q: Quality) -> (b: bool)
    ensures
        b == xs@.contains(q),
{
    let n = xs.len();
    for i in 0..n
        invariant
            n == xs@.len(),
            forall|k: int| 0 <= k < i ==> xs@[k] != q,
    {
        if xs[i] == q {
            assert(xs@[i as int] == q);
            return true;
        }
    }
    false
}

} // verus!
