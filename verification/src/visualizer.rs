//! The frequency-bar visualisation: which snapshot of the spectrogram is shown,
//! how the 64 bars follow it, how they fade, and how they are merged for a
//! narrow display.
//!
//! A bar level is kept in millionths of a display unit, from 0 up to
//! [`LEVEL_MAX`] (a bar of height 100), so that every step is exact integer
//! arithmetic. One snapshot of the spectrogram lasts 42.66 ms, written as the
//! fraction [`FRAME_PERIOD_NUM`] / [`FRAME_PERIOD_DEN`].

use vstd::prelude::*;

verus! {

/// Number of frequency bands in a snapshot and of bars kept.
pub const BANDS: usize = 64;

/// Millionths in one display unit.
pub const LEVEL_UNIT: u32 = 1000000;

/// The highest level a bar reaches: 100 display units.
pub const LEVEL_MAX: u32 = 100000000;

/// Numerator of the duration of one snapshot in milliseconds.
pub const FRAME_PERIOD_NUM: u64 = 2133;

/// Denominator of the duration of one snapshot in milliseconds.
pub const FRAME_PERIOD_DEN: u64 = 50;

/// The playback position shifted by the visualizer offset, kept within `u64`.
pub open spec fn adjusted_ms(elapsed_ms: u64, offset_ms: i64) -> int {
    let shifted = elapsed_ms + offset_ms;
    if shifted < 0 {
        0
    } else if shifted > u64::MAX {
        u64::MAX as int
    } else {
        shifted
    }
}

/// The snapshot that is current at a playback position: the shifted position
/// divided by the duration of a snapshot, rounded down.
pub open spec fn spec_frame_index(elapsed_ms: u64, offset_ms: i64) -> int {
    adjusted_ms(elapsed_ms, offset_ms) * FRAME_PERIOD_DEN as int / FRAME_PERIOD_NUM as int
}

/// The index of the snapshot to show at `elapsed_ms`, with the visualizer
/// offset `offset_ms` applied.
pub fn frame_index(elapsed_ms: u64, offset_ms: i64) -> (index: u64)
    ensures
        index == spec_frame_index(elapsed_ms, offset_ms),
{
    let adjusted: u64 = if offset_ms >= 0 {
        elapsed_ms.saturating_add(offset_ms as u64)
    } else {
        let back: u64 = (-(offset_ms as i128)) as u64;
        elapsed_ms.saturating_sub(back)
    };
    assert(adjusted == adjusted_ms(elapsed_ms, offset_ms));
    let scaled: u128 = adjusted as u128 * 50;
    (scaled / 2133) as u64
}

/// The snapshot of `frames` to show at a playback position, if the
/// spectrogram reaches that far.
pub open spec fn spec_select_frame(frames: nat, elapsed_ms: u64, offset_ms: i64) -> Option<
    usize,
> {
    if spec_frame_index(elapsed_ms, offset_ms) < frames {
        Some(spec_frame_index(elapsed_ms, offset_ms) as usize)
    } else {
        None
    }
}

/// Picks the snapshot to show out of `frames` snapshots; `None` when the
/// position lies past the last one.
pub fn select_frame(frames: usize, elapsed_ms: u64, offset_ms: i64) -> (r: Option<usize>)
    ensures
        r == spec_select_frame(frames as nat, elapsed_ms, offset_ms),
{
    let index = frame_index(elapsed_ms, offset_ms);
    if index < frames as u64 {
        Some(index as usize)
    } else {
        None
    }
}

/// The noise floor of a band: higher for the three lowest bands.
pub open spec fn spec_band_floor(band: int) -> int {
    if band < 3 {
        60
    } else {
        30
    }
}

/// The gain of a band in tenths: 0.1 for the lowest band, 0.6 for the others.
pub open spec fn spec_band_gain_tenths(band: int) -> int {
    if band == 0 {
        1
    } else {
        6
    }
}

/// The level a band aims at for a magnitude: the magnitude less the noise
/// floor, not below zero, times the gain, not above [`LEVEL_MAX`].
pub open spec fn spec_band_target(band: int, magnitude: u8) -> int {
    let raw = if magnitude > spec_band_floor(band) {
        magnitude - spec_band_floor(band)
    } else {
        0
    };
    let scaled = raw * spec_band_gain_tenths(band) * 100000;
    if scaled > LEVEL_MAX {
        LEVEL_MAX as int
    } else {
        scaled
    }
}

/// The level that band `band` aims at when the snapshot holds `magnitude`.
pub fn band_target(band: usize, magnitude: u8) -> (target: u32)
    ensures
        target == spec_band_target(band as int, magnitude),
        target <= LEVEL_MAX,
{
    let floor: u32 = if band < 3 {
        60
    } else {
        30
    };
    let gain_tenths: u32 = if band == 0 {
        1
    } else {
        6
    };
    let raw: u32 = if magnitude as u32 > floor {
        magnitude as u32 - floor
    } else {
        0
    };
    let scaled: u32 = raw * gain_tenths * 100000;
    if scaled > LEVEL_MAX {
        LEVEL_MAX
    } else {
        scaled
    }
}

/// One smoothing step: two fifths of the gap when the target lies above the
/// level, three twentieths of it when the target lies at or below.
pub open spec fn spec_smooth(level: int, target: int) -> int {
    if target > level {
        level + (target - level) * 2 / 5
    } else {
        level - (level - target) * 3 / 20
    }
}

/// Moves `level` one step toward `target`: fast when rising, slow when
/// falling. The result lies between the two and is no farther from the
/// target than `level` was.
pub fn smooth_toward(level: u32, target: u32) -> (next: u32)
    ensures
        next == spec_smooth(level as int, target as int),
        target > level ==> level <= next <= target,
        target <= level ==> target <= next <= level,
{
    if target > level {
        let gap: u64 = (target - level) as u64;
        let step: u64 = gap * 2 / 5;
        (level as u64 + step) as u32
    } else {
        let gap: u64 = (level - target) as u64;
        let step: u64 = gap * 3 / 20;
        (level as u64 - step) as u32
    }
}

/// One idle step: the level falls to nineteen twentieths, rounded down.
pub open spec fn spec_decay(level: int) -> int {
    level * 19 / 20
}

/// Lets `level` fade by one idle step.
pub fn decay(level: u32) -> (next: u32)
    ensures
        next == spec_decay(level as int),
        next <= level,
{
    (level as u64 * 19 / 20) as u32
}

/// The level after `ticks` idle steps.
pub open spec fn decayed(level: int, ticks: nat) -> int
    decreases ticks,
{
    if ticks == 0 {
        level
    } else {
        spec_decay(decayed(level, (ticks - 1) as nat))
    }
}

/// `base` to the power `exp`.
pub open spec fn power(base: int, exp: nat) -> int
    decreases exp,
{
    if exp == 0 {
        1
    } else {
        base * power(base, (exp - 1) as nat)
    }
}

/// Idle decay follows the factor 0.95 per step: after `ticks` steps the
/// level is at most `level * 0.95^ticks` and less than 19 millionths below
/// it. Both bounds are stated without fractions, multiplied by
/// `20^ticks`.
pub proof fn lemma_idle_decay(level: int, ticks: nat)
    requires
        0 <= level,
    ensures
        0 <= decayed(level, ticks),
        decayed(level, ticks) * power(20, ticks) <= level * power(19, ticks),
        level * power(19, ticks) - decayed(level, ticks) * power(20, ticks) <= 19 * (power(
            20,
            ticks,
        ) - power(19, ticks)),
        0 < power(19, ticks) <= power(20, ticks),
    decreases ticks,
{
    if ticks > 0 {
        let before = (ticks - 1) as nat;
        lemma_idle_decay(level, before);
        let v = decayed(level, before);
        let w = spec_decay(v);
        let p20 = power(20, before);
        let p19 = power(19, before);
        assert(w == decayed(level, ticks));
        assert(power(20, ticks) == 20 * p20);
        assert(power(19, ticks) == 19 * p19);
        assert(20 * w <= 19 * v && 19 * v - 19 <= 20 * w);
        assert(w * (20 * p20) == (20 * w) * p20) by (nonlinear_arith);
        assert((20 * w) * p20 <= (19 * v) * p20) by (nonlinear_arith)
            requires
                20 * w <= 19 * v,
                p20 > 0,
        ;
        assert((19 * v) * p20 == 19 * (v * p20)) by (nonlinear_arith);
        assert(level * (19 * p19) == 19 * (level * p19)) by (nonlinear_arith);
        assert((20 * w) * p20 >= (19 * v - 19) * p20) by (nonlinear_arith)
            requires
                19 * v - 19 <= 20 * w,
                p20 > 0,
        ;
        assert((19 * v - 19) * p20 == 19 * (v * p20) - 19 * p20) by (nonlinear_arith);
    }
}

/// The bars after a smoothing step toward the snapshot `frame`: each band
/// that the snapshot holds moves toward its target, the others stay.
pub open spec fn smoothed(bars: Seq<u32>, frame: Seq<u8>) -> Seq<u32> {
    Seq::new(
        bars.len(),
        |i: int|
            if i < frame.len() {
                spec_smooth(bars[i] as int, spec_band_target(i, frame[i])) as u32
            } else {
                bars[i]
            },
    )
}

/// The bars after one idle step.
pub open spec fn faded(bars: Seq<u32>) -> Seq<u32> {
    Seq::new(bars.len(), |i: int| spec_decay(bars[i] as int) as u32)
}

/// The bars after `ticks` idle steps.
pub open spec fn faded_by(bars: Seq<u32>, ticks: nat) -> Seq<u32>
    decreases ticks,
{
    if ticks == 0 {
        bars
    } else {
        faded(faded_by(bars, (ticks - 1) as nat))
    }
}

/// Whether `bars` is a full set of bars with every level in range.
pub open spec fn bars_ok(bars: Seq<u32>) -> bool {
    &&& bars.len() == BANDS
    &&& forall|i: int| 0 <= i < bars.len() ==> #[trigger] bars[i] <= LEVEL_MAX
}

/// A smoothing step keeps a full set of bars in range.
pub proof fn lemma_smoothed_ok(bars: Seq<u32>, frame: Seq<u8>)
    requires
        bars_ok(bars),
    ensures
        bars_ok(smoothed(bars, frame)),
{
    assert forall|i: int| 0 <= i < bars.len() implies #[trigger] smoothed(bars, frame)[i]
        <= LEVEL_MAX by {
        assert(bars[i] <= LEVEL_MAX);
        if i < frame.len() {
            assert(spec_band_target(i, frame[i]) <= LEVEL_MAX);
        }
    }
}

/// An idle step keeps a full set of bars in range.
pub proof fn lemma_faded_ok(bars: Seq<u32>)
    requires
        bars_ok(bars),
    ensures
        bars_ok(faded(bars)),
{
    assert forall|i: int| 0 <= i < bars.len() implies #[trigger] faded(bars)[i] <= LEVEL_MAX by {
        assert(bars[i] <= LEVEL_MAX);
    }
}

/// A full set of bars at level zero.
pub fn silent_bars() -> (bars: Vec<u32>)
    ensures
        bars_ok(bars@),
        forall|i: int| 0 <= i < BANDS ==> bars@[i] == 0,
{
    let mut bars: Vec<u32> = Vec::new();
    let mut i: usize = 0;
    while i < BANDS
        invariant
            i <= BANDS,
            bars@.len() == i,
            forall|k: int| 0 <= k < i ==> bars@[k] == 0,
        decreases BANDS - i,
    {
        bars.push(0);
        i = i + 1;
    }
    bars
}

/// Moves every bar one step toward the snapshot `frame`. A snapshot with
/// fewer than 64 bands leaves the bars above its width as they are; bands
/// past the 64th are not read.
pub fn smooth_frame(bars: &mut Vec<u32>, frame: &Vec<u8>)
    requires
        bars_ok(old(bars)@),
    ensures
        bars_ok(final(bars)@),
        final(bars)@ == smoothed(old(bars)@, frame@),
{
    let width: usize = if frame.len() < BANDS {
        frame.len()
    } else {
        BANDS
    };
    let ghost before = bars@;
    let mut i: usize = 0;
    while i < width
        invariant
            i <= width <= BANDS,
            width <= frame.len(),
            width == frame.len() || width == BANDS,
            bars_ok(before),
            bars@.len() == BANDS,
            forall|k: int| 0 <= k < i ==> bars@[k] == smoothed(before, frame@)[k],
            forall|k: int| i <= k < BANDS ==> bars@[k] == before[k],
        decreases width - i,
    {
        let target = band_target(i, frame[i]);
        let next = smooth_toward(bars[i], target);
        bars.set(i, next);
        i = i + 1;
    }
    assert(bars@ =~= smoothed(before, frame@));
    assert forall|k: int| 0 <= k < bars@.len() implies #[trigger] bars@[k] <= LEVEL_MAX by {
        if k < frame@.len() {
            let target = spec_band_target(k, frame@[k]);
            assert(target <= LEVEL_MAX);
            assert(before[k] <= LEVEL_MAX);
        }
    }
}

/// Lets every bar fade by one idle step.
pub fn fade_bars(bars: &mut Vec<u32>)
    requires
        bars_ok(old(bars)@),
    ensures
        bars_ok(final(bars)@),
        final(bars)@ == faded(old(bars)@),
{
    let ghost before = bars@;
    let mut i: usize = 0;
    while i < BANDS
        invariant
            i <= BANDS,
            bars_ok(before),
            bars@.len() == BANDS,
            forall|k: int| 0 <= k < i ==> bars@[k] == faded(before)[k],
            forall|k: int| i <= k < BANDS ==> bars@[k] == before[k],
        decreases BANDS - i,
    {
        let next = decay(bars[i]);
        bars.set(i, next);
        i = i + 1;
    }
    assert(bars@ =~= faded(before));
}

/// After `ticks` idle steps every bar holds what `ticks` decay steps make
/// of its level at the start.
pub proof fn lemma_faded_by(bars: Seq<u32>, ticks: nat, band: int)
    requires
        bars_ok(bars),
        0 <= band < BANDS,
    ensures
        bars_ok(faded_by(bars, ticks)),
        faded_by(bars, ticks)[band] == decayed(bars[band] as int, ticks),
        faded_by(bars, ticks)[band] <= bars[band],
    decreases ticks,
{
    if ticks > 0 {
        let before = (ticks - 1) as nat;
        lemma_faded_by(bars, before, band);
        let prev = faded_by(bars, before);
        assert forall|i: int| 0 <= i < prev.len() implies #[trigger] faded(prev)[i]
            <= LEVEL_MAX by {
            assert(prev[i] <= LEVEL_MAX);
        }
    }
}

/// How many bars a display of `width` cells shows: one per three cells, at
/// most 64.
pub fn slot_count(width: u16) -> (slots: usize)
    ensures
        slots == if width / 3 < 64 {
            (width / 3) as int
        } else {
            64
        },
{
    let by_width: u16 = width / 3;
    if by_width < 64 {
        by_width as usize
    } else {
        64
    }
}

/// The share of band `band` that falls into slot `slot` of `slots`, on an
/// axis on which a band is `slots` wide and a slot is 64 wide.
pub open spec fn overlap(band: int, slot: int, slots: int) -> int {
    let high = if (band + 1) * slots < (slot + 1) * 64 {
        (band + 1) * slots
    } else {
        (slot + 1) * 64
    };
    let low = if band * slots > slot * 64 {
        band * slots
    } else {
        slot * 64
    };
    if high > low {
        high - low
    } else {
        0
    }
}

/// The sum of the levels of the first `upto` bands, each weighted by its
/// share of slot `slot`.
pub open spec fn weighted_sum(bars: Seq<u32>, slot: int, slots: int, upto: nat) -> int
    decreases upto,
{
    if upto == 0 {
        0
    } else {
        weighted_sum(bars, slot, slots, (upto - 1) as nat) + bars[upto - 1] * overlap(
            upto - 1,
            slot,
            slots,
        )
    }
}

/// The sum of the shares that the first `upto` bands have of slot `slot`.
pub open spec fn total_weight(slot: int, slots: int, upto: nat) -> int
    decreases upto,
{
    if upto == 0 {
        0
    } else {
        total_weight(slot, slots, (upto - 1) as nat) + overlap(upto - 1, slot, slots)
    }
}

/// The height of slot `slot`, in whole display units: the weighted mean of
/// the bands it covers, rounded down.
pub open spec fn slot_height(bars: Seq<u32>, slot: int, slots: int) -> int {
    if total_weight(slot, slots, BANDS as nat) > 0 {
        weighted_sum(bars, slot, slots, BANDS as nat) / (total_weight(slot, slots, BANDS as nat)
            * LEVEL_UNIT)
    } else {
        0
    }
}

/// The part of the stretch from `low` to `low + 64` that lies below `edge`.
pub open spec fn covered(edge: int, low: int) -> int {
    if edge <= low {
        0
    } else if edge >= low + 64 {
        64
    } else {
        edge - low
    }
}

/// The shares that the first `upto` bands have of a slot add up to the part
/// of the slot that lies below band `upto`.
pub proof fn lemma_total_weight(slot: int, slots: int, upto: nat)
    requires
        0 <= slot < slots <= 64,
        upto <= 64,
    ensures
        total_weight(slot, slots, upto) == covered(upto * slots, slot * 64),
    decreases upto,
{
    if upto > 0 {
        let band: int = upto - 1;
        lemma_total_weight(slot, slots, band as nat);
        let start: int = band * slots;
        let end: int = upto * slots;
        let low: int = slot * 64;
        assert(end == start + slots) by (nonlinear_arith)
            requires
                end == upto * slots,
                start == band * slots,
                band == upto - 1,
        ;
        assert((band + 1) * slots == end);
        assert((slot + 1) * 64 == low + 64);
        let share = overlap(band, slot, slots);
        let high_edge = if end < low + 64 {
            end
        } else {
            low + 64
        };
        let low_edge = if start > low {
            start
        } else {
            low
        };
        assert(share == if high_edge > low_edge {
            high_edge - low_edge
        } else {
            0
        });
        assert(total_weight(slot, slots, upto) == total_weight(slot, slots, band as nat) + share);
        assert(total_weight(slot, slots, band as nat) == covered(start, low));
        assert(covered(start, low) + share == covered(end, low));
    } else {
        assert(upto * slots == 0) by (nonlinear_arith)
            requires
                upto == 0,
        ;
    }
}

/// Every slot is covered by bands with a total share of exactly 64, and so
/// its height is a mean of levels: at most 100 when the bars are in range.
pub proof fn lemma_slot_height(bars: Seq<u32>, slot: int, slots: int)
    requires
        bars_ok(bars),
        0 <= slot < slots <= 64,
    ensures
        total_weight(slot, slots, BANDS as nat) == 64,
        0 <= slot_height(bars, slot, slots) <= 100,
{
    lemma_total_weight(slot, slots, 64);
    assert(64 * slots >= slot * 64 + 64);
    lemma_weighted_sum_bound(bars, slot, slots, 64);
    let sum = weighted_sum(bars, slot, slots, 64);
    assert(0 <= sum <= 100000000 * 64);
    assert(sum / 64000000 <= 100);
}

/// A weighted sum of levels in range is at most [`LEVEL_MAX`] times the sum
/// of the weights.
pub proof fn lemma_weighted_sum_bound(bars: Seq<u32>, slot: int, slots: int, upto: nat)
    requires
        bars_ok(bars),
        0 <= slot < slots <= 64,
        upto <= 64,
    ensures
        0 <= weighted_sum(bars, slot, slots, upto) <= LEVEL_MAX * total_weight(
            slot,
            slots,
            upto,
        ),
        0 <= total_weight(slot, slots, upto),
    decreases upto,
{
    if upto > 0 {
        let band = (upto - 1) as nat;
        lemma_weighted_sum_bound(bars, slot, slots, band);
        let share = overlap(band as int, slot, slots);
        let level = bars[band as int];
        assert(level <= LEVEL_MAX);
        assert(0 <= level * share <= LEVEL_MAX * share) by (nonlinear_arith)
            requires
                0 <= level <= LEVEL_MAX,
                0 <= share,
        ;
    }
}

/// The share of band `band` in slot `slot`.
fn overlap_of(band: usize, slot: usize, slots: usize) -> (share: u64)
    requires
        band < 64,
        slot < slots <= 64,
    ensures
        share == overlap(band as int, slot as int, slots as int),
        share <= 64,
{
    assert(band * slots <= 64 * 64 && (band + 1) * slots <= 64 * 64) by (nonlinear_arith)
        requires
            band < 64,
            slots <= 64,
    ;
    let band_low: u64 = band as u64 * slots as u64;
    let band_high: u64 = (band as u64 + 1) * slots as u64;
    let slot_low: u64 = slot as u64 * 64;
    let slot_high: u64 = (slot as u64 + 1) * 64;
    let high: u64 = if band_high < slot_high {
        band_high
    } else {
        slot_high
    };
    let low: u64 = if band_low > slot_low {
        band_low
    } else {
        slot_low
    };
    if high > low {
        high - low
    } else {
        0
    }
}

/// The height of one slot.
fn slot_height_of(bars: &Vec<u32>, slot: usize, slots: usize) -> (height: u64)
    requires
        bars_ok(bars@),
        slot < slots <= 64,
    ensures
        height == slot_height(bars@, slot as int, slots as int),
        height <= 100,
{
    let mut sum: u64 = 0;
    let mut weight: u64 = 0;
    let mut i: usize = 0;
    while i < BANDS
        invariant
            i <= BANDS,
            bars_ok(bars@),
            slot < slots <= 64,
            sum == weighted_sum(bars@, slot as int, slots as int, i as nat),
            weight == total_weight(slot as int, slots as int, i as nat),
            weight <= 64 * i,
            sum <= 6400000000 * i,
        decreases BANDS - i,
    {
        let share = overlap_of(i, slot, slots);
        let level: u64 = bars[i] as u64;
        assert(level <= 100000000);
        assert(level * share <= 6400000000) by (nonlinear_arith)
            requires
                level <= 100000000,
                share <= 64,
        ;
        sum = sum + level * share;
        weight = weight + share;
        i = i + 1;
    }
    proof {
        lemma_slot_height(bars@, slot as int, slots as int);
    }
    if weight > 0 {
        sum / (weight * LEVEL_UNIT as u64)
    } else {
        0
    }
}

/// The bars merged into `slots` columns, each the whole-unit height of the
/// weighted mean of the bands that its range of the band axis covers.
pub fn merge_bars(bars: &Vec<u32>, slots: usize) -> (heights: Vec<u64>)
    requires
        bars_ok(bars@),
        slots <= 64,
    ensures
        heights@.len() == slots,
        forall|j: int|
            0 <= j < slots ==> #[trigger] heights@[j] == slot_height(bars@, j, slots as int),
        forall|j: int| 0 <= j < slots ==> #[trigger] heights@[j] <= 100,
{
    let mut heights: Vec<u64> = Vec::new();
    let mut j: usize = 0;
    while j < slots
        invariant
            j <= slots <= 64,
            bars_ok(bars@),
            heights@.len() == j,
            forall|k: int|
                0 <= k < j ==> #[trigger] heights@[k] == slot_height(bars@, k, slots as int),
            forall|k: int| 0 <= k < j ==> #[trigger] heights@[k] <= 100,
        decreases slots - j,
    {
        let height = slot_height_of(bars, j, slots);
        heights.push(height);
        j = j + 1;
    }
    heights
}

} // verus!
