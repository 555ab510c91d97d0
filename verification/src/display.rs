//! Display-mode selection: choosing the mode whose refresh rate best
//! matches a profile's policy.
//!
//! The host enumerates the adapter's modes; the logic here filters them
//! down to the current resolution and color depth and picks the one the
//! configured [`RefreshRateMode`] asks for.  Setting the chosen mode is a
//! platform call outside the library.

use vstd::prelude::*;

verus! {

/// The refresh-rate policy of a power profile.
#[derive(Clone, Copy, Debug, PartialEq, Eq, Hash, Structural)]
pub enum RefreshRateMode {
    /// The highest refresh rate the display offers.
    Max,
    /// The rate closest to this value, in Hz.
    Value(u32),
    /// The lowest refresh rate the display offers.
    Min,
}

/// The fields of a display mode that the selection logic reads.
#[derive(Clone, Copy, Debug, PartialEq, Eq, Structural)]
pub struct DisplayMode {
    /// Horizontal resolution in pixels.
    pub width: u32,
    /// Vertical resolution in pixels.
    pub height: u32,
    /// Color depth in bits per pixel.
    pub bits_per_pixel: u32,
    /// Refresh rate in Hz.
    pub frequency: u32,
}

/// True when `m` has the same resolution and color depth as `current`.
pub open spec fn spec_same_resolution(m: DisplayMode, current: DisplayMode) -> bool {
    m.width == current.width && m.height == current.height && m.bits_per_pixel
        == current.bits_per_pixel
}

/// The modes of `modes` that share `current`'s resolution and color
/// depth, in order.
pub open spec fn spec_matching_modes(modes: Seq<DisplayMode>, current: DisplayMode) -> Seq<
    DisplayMode,
>
    decreases modes.len(),
{
    if modes.len() == 0 {
        Seq::empty()
    } else {
        let prefix = spec_matching_modes(modes.drop_last(), current);
        if spec_same_resolution(modes.last(), current) {
            prefix.push(modes.last())
        } else {
            prefix
        }
    }
}

/// Keeps the modes that share the current resolution and color depth,
/// as candidates for a refresh-rate change.
pub fn modes_matching_current(modes: &Vec<DisplayMode>, current: &DisplayMode) -> (r: Vec<
    DisplayMode,
>)
    ensures
        r@ == spec_matching_modes(modes@, *current),
{
    let mut out: Vec<DisplayMode> = Vec::new();
    let n = modes.len();
    let mut i: usize = 0;
    proof {
        assert(modes@.take(0) =~= Seq::<DisplayMode>::empty());
    }
    while i < n
        invariant
            0 <= i <= n,
            n == modes@.len(),
            out@ == spec_matching_modes(modes@.take(i as int), *current),
        decreases n - i,
    {
        let m = modes[i];
        proof {
            assert(modes@.take(i + 1).drop_last() =~= modes@.take(i as int));
            assert(modes@.take(i + 1).last() == modes@[i as int]);
        }
        if m.width == current.width && m.height == current.height && m.bits_per_pixel
            == current.bits_per_pixel {
            out.push(m);
        }
        i = i + 1;
    }
    proof {
        assert(modes@.take(n as int) =~= modes@);
    }
    out
}

/// Distance between a wanted rate and a mode's rate.
pub open spec fn spec_rate_distance(wanted: u32, freq: u32) -> u32 {
    if wanted >= freq {
        (wanted - freq) as u32
    } else {
        (freq - wanted) as u32
    }
}

/// The scan for the highest-frequency mode, starting from `acc`: a mode
/// replaces the accumulator only when strictly faster, so the first of
/// equally fast modes wins.
pub open spec fn spec_max_mode(modes: Seq<DisplayMode>, acc: DisplayMode) -> DisplayMode
    decreases modes.len(),
{
    if modes.len() == 0 {
        acc
    } else {
        spec_max_mode(
            modes.drop_first(),
            if modes[0].frequency > acc.frequency {
                modes[0]
            } else {
                acc
            },
        )
    }
}

/// The scan for the lowest-frequency mode, symmetric to `spec_max_mode`.
pub open spec fn spec_min_mode(modes: Seq<DisplayMode>, acc: DisplayMode) -> DisplayMode
    decreases modes.len(),
{
    if modes.len() == 0 {
        acc
    } else {
        spec_min_mode(
            modes.drop_first(),
            if modes[0].frequency < acc.frequency {
                modes[0]
            } else {
                acc
            },
        )
    }
}

/// The scan for the mode closest to `wanted`, starting from `acc` at
/// distance `best`: a mode replaces the accumulator only when strictly
/// closer, so the first of equally close modes wins.
pub open spec fn spec_closest_mode(
    modes: Seq<DisplayMode>,
    wanted: u32,
    acc: DisplayMode,
    best: u32,
) -> DisplayMode
    decreases modes.len(),
{
    if modes.len() == 0 {
        acc
    } else {
        let d = spec_rate_distance(wanted, modes[0].frequency);
        if d < best {
            spec_closest_mode(modes.drop_first(), wanted, modes[0], d)
        } else {
            spec_closest_mode(modes.drop_first(), wanted, acc, best)
        }
    }
}

/// The mode a refresh-rate policy selects among the candidates.
///
/// `Max` and `Min` scan outward from the current mode; `Value(v)` starts
/// from the current mode with an initial tolerance of 1000 Hz, so a
/// candidate further than that from the wanted rate never wins.
pub open spec fn spec_selected_mode(
    modes: Seq<DisplayMode>,
    current: DisplayMode,
    mode: RefreshRateMode,
) -> DisplayMode {
    match mode {
        RefreshRateMode::Max => spec_max_mode(modes, current),
        RefreshRateMode::Value(v) => spec_closest_mode(modes, v, current, 1000),
        RefreshRateMode::Min => spec_min_mode(modes, current),
    }
}

/// Picks, among `modes`, the one whose refresh rate the policy asks for,
/// starting from the current mode.
///
/// The result is always the current mode or one of the candidates.
/// Under `Max` no candidate is faster than it and it is no slower than
/// the current mode; under `Min` the mirror holds; under `Value(v)` no
/// candidate is closer to `v`, and the current mode is only ever left
/// for a candidate within the 1000 Hz tolerance.
pub fn get_closest_match_display_mode(
    modes: &Vec<DisplayMode>,
    current: DisplayMode,
    mode: RefreshRateMode,
) -> (r: DisplayMode)
    ensures
        r == spec_selected_mode(modes@, current, mode),
        r == current || modes@.contains(r),
        mode is Max ==> r.frequency >= current.frequency && (forall|i: int|
            0 <= i < modes@.len() ==> modes@[i].frequency <= r.frequency),
        mode is Min ==> r.frequency <= current.frequency && (forall|i: int|
            0 <= i < modes@.len() ==> modes@[i].frequency >= r.frequency),
        mode matches RefreshRateMode::Value(v) ==> {
            &&& (r != current ==> spec_rate_distance(v, r.frequency) < 1000)
            &&& forall|i: int|
                0 <= i < modes@.len() ==> spec_rate_distance(v, modes@[i].frequency) as int >= (
                if spec_rate_distance(v, r.frequency) < 1000 {
                    spec_rate_distance(v, r.frequency) as int
                } else {
                    1000
                })
        },
{
    proof {
        match mode {
            RefreshRateMode::Max => lemma_max_mode_dominates(modes@, current),
            RefreshRateMode::Min => lemma_min_mode_dominates(modes@, current),
            RefreshRateMode::Value(v) => lemma_closest_mode_props(modes@, v, current, 1000),
        }
    }
    let n = modes.len();
    match mode {
        RefreshRateMode::Max => {
            let mut best = current;
            let mut i: usize = 0;
            proof {
                assert(modes@.skip(0) =~= modes@);
            }
            while i < n
                invariant
                    0 <= i <= n,
                    n == modes@.len(),
                    spec_max_mode(modes@.skip(i as int), best) == spec_max_mode(modes@, current),
                decreases n - i,
            {
                proof {
                    assert(modes@.skip(i as int).drop_first() =~= modes@.skip(i + 1));
                }
                let m = modes[i];
                if m.frequency > best.frequency {
                    best = m;
                }
                i = i + 1;
            }
            proof {
                assert(modes@.skip(n as int) =~= Seq::<DisplayMode>::empty());
            }
            best
        },
        RefreshRateMode::Min => {
            let mut best = current;
            let mut i: usize = 0;
            proof {
                assert(modes@.skip(0) =~= modes@);
            }
            while i < n
                invariant
                    0 <= i <= n,
                    n == modes@.len(),
                    spec_min_mode(modes@.skip(i as int), best) == spec_min_mode(modes@, current),
                decreases n - i,
            {
                proof {
                    assert(modes@.skip(i as int).drop_first() =~= modes@.skip(i + 1));
                }
                let m = modes[i];
                if m.frequency < best.frequency {
                    best = m;
                }
                i = i + 1;
            }
            proof {
                assert(modes@.skip(n as int) =~= Seq::<DisplayMode>::empty());
            }
            best
        },
        RefreshRateMode::Value(v) => {
            let mut best = current;
            let mut best_dist: u32 = 1000;
            let mut i: usize = 0;
            proof {
                assert(modes@.skip(0) =~= modes@);
            }
            while i < n
                invariant
                    0 <= i <= n,
                    n == modes@.len(),
                    spec_closest_mode(modes@.skip(i as int), v, best, best_dist)
                        == spec_closest_mode(modes@, v, current, 1000),
                decreases n - i,
            {
                proof {
                    assert(modes@.skip(i as int).drop_first() =~= modes@.skip(i + 1));
                }
                let m = modes[i];
                let d = if v >= m.frequency {
                    v - m.frequency
                } else {
                    m.frequency - v
                };
                if d < best_dist {
                    best = m;
                    best_dist = d;
                }
                i = i + 1;
            }
            proof {
                assert(modes@.skip(n as int) =~= Seq::<DisplayMode>::empty());
            }
            best
        },
    }
}

/// The mode the `Max` policy selects is at least as fast as the current
/// mode and as every candidate, and is the current mode or a candidate.
proof fn lemma_max_mode_dominates(modes: Seq<DisplayMode>, acc: DisplayMode)
    ensures
        spec_max_mode(modes, acc).frequency >= acc.frequency,
        forall|i: int|
            0 <= i < modes.len() ==> modes[i].frequency <= spec_max_mode(modes, acc).frequency,
        spec_max_mode(modes, acc) == acc || modes.contains(spec_max_mode(modes, acc)),
    decreases modes.len(),
{
    if modes.len() > 0 {
        let next = if modes[0].frequency > acc.frequency {
            modes[0]
        } else {
            acc
        };
        lemma_max_mode_dominates(modes.drop_first(), next);
        assert forall|i: int|
            0 <= i < modes.len() implies modes[i].frequency <= spec_max_mode(
            modes,
            acc,
        ).frequency by {
            if i > 0 {
                assert(modes.drop_first()[i - 1] == modes[i]);
            }
        }
        if spec_max_mode(modes, acc) != acc {
            let r = spec_max_mode(modes, acc);
            if r == modes[0] {
                assert(modes.contains(r));
            } else {
                assert(modes.drop_first().contains(r));
                let j = choose|j: int| 0 <= j < modes.drop_first().len() && modes.drop_first()[j] == r;
                assert(modes[j + 1] == r);
            }
        }
    }
}

/// The mode the `Min` policy selects is at most as fast as the current
/// mode and as every candidate, and is the current mode or a candidate.
proof fn lemma_min_mode_dominates(modes: Seq<DisplayMode>, acc: DisplayMode)
    ensures
        spec_min_mode(modes, acc).frequency <= acc.frequency,
        forall|i: int|
            0 <= i < modes.len() ==> modes[i].frequency >= spec_min_mode(modes, acc).frequency,
        spec_min_mode(modes, acc) == acc || modes.contains(spec_min_mode(modes, acc)),
    decreases modes.len(),
{
    if modes.len() > 0 {
        let next = if modes[0].frequency < acc.frequency {
            modes[0]
        } else {
            acc
        };
        lemma_min_mode_dominates(modes.drop_first(), next);
        assert forall|i: int|
            0 <= i < modes.len() implies modes[i].frequency >= spec_min_mode(
            modes,
            acc,
        ).frequency by {
            if i > 0 {
                assert(modes.drop_first()[i - 1] == modes[i]);
            }
        }
        if spec_min_mode(modes, acc) != acc {
            let r = spec_min_mode(modes, acc);
            if r == modes[0] {
                assert(modes.contains(r));
            } else {
                assert(modes.drop_first().contains(r));
                let j = choose|j: int| 0 <= j < modes.drop_first().len() && modes.drop_first()[j] == r;
                assert(modes[j + 1] == r);
            }
        }
    }
}

/// The mode the `Value` policy's scan selects is the accumulator or a
/// candidate; leaving the accumulator takes a strictly closer candidate,
/// and no candidate is closer than the scan's final tolerance.
proof fn lemma_closest_mode_props(modes: Seq<DisplayMode>, wanted: u32, acc: DisplayMode, best: u32)
    ensures
        ({
            let r = spec_closest_mode(modes, wanted, acc, best);
            &&& (r == acc || modes.contains(r))
            &&& (r != acc ==> spec_rate_distance(wanted, r.frequency) < best)
            &&& forall|i: int|
                0 <= i < modes.len() ==> spec_rate_distance(wanted, modes[i].frequency) as int
                    >= (if spec_rate_distance(wanted, r.frequency) < best {
                    spec_rate_distance(wanted, r.frequency) as int
                } else {
                    best as int
                })
        }),
    decreases modes.len(),
{
    if modes.len() > 0 {
        let r = spec_closest_mode(modes, wanted, acc, best);
        let d0 = spec_rate_distance(wanted, modes[0].frequency);
        if d0 < best {
            lemma_closest_mode_props(modes.drop_first(), wanted, modes[0], d0);
        } else {
            lemma_closest_mode_props(modes.drop_first(), wanted, acc, best);
        }
        assert forall|i: int|
            0 <= i < modes.len() implies spec_rate_distance(wanted, modes[i].frequency) as int
            >= (if spec_rate_distance(wanted, r.frequency) < best {
            spec_rate_distance(wanted, r.frequency) as int
        } else {
            best as int
        }) by {
            if i > 0 {
                assert(modes.drop_first()[i - 1] == modes[i]);
            }
        }
        if r != acc && !(d0 < best && r == modes[0]) {
            if d0 < best {
                if r != modes[0] {
                    assert(modes.drop_first().contains(r));
                    let j = choose|j: int|
                        0 <= j < modes.drop_first().len() && modes.drop_first()[j] == r;
                    assert(modes[j + 1] == r);
                }
            } else {
                assert(modes.drop_first().contains(r));
                let j = choose|j: int|
                    0 <= j < modes.drop_first().len() && modes.drop_first()[j] == r;
                assert(modes[j + 1] == r);
            }
        }
    }
}

} // verus!
