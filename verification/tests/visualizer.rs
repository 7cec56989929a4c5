use jorik_cli::visualizer::{
    band_target, decay, fade_bars, frame_index, merge_bars, select_frame, silent_bars,
    slot_count, smooth_frame, smooth_toward, LEVEL_MAX, LEVEL_UNIT,
};

#[test]
fn frame_index_divides_position_by_snapshot_duration() {
    // 1280 / 42.66 = 30.004...
    assert_eq!(frame_index(1280, 0), 30);
    // 1279 / 42.66 = 29.98...
    assert_eq!(frame_index(1279, 0), 29);
    assert_eq!(frame_index(0, 0), 0);
    assert_eq!(frame_index(42, 0), 0);
    assert_eq!(frame_index(43, 0), 1);
    // 2133 ms are exactly 50 snapshots
    assert_eq!(frame_index(2133, 0), 50);
    assert_eq!(frame_index(2132, 0), 49);
}

#[test]
fn frame_index_agrees_with_the_division_in_floating_point() {
    let mut elapsed: u64 = 0;
    while elapsed < 400_000 {
        let expected = (elapsed as f64 / 42.66).floor() as u64;
        assert_eq!(frame_index(elapsed, 0), expected, "at {}", elapsed);
        elapsed += 7;
    }
}

#[test]
fn frame_index_applies_the_offset() {
    assert_eq!(frame_index(1080, 200), 30);
    assert_eq!(frame_index(1480, -200), 30);
    assert_eq!(frame_index(100, -200), 0);
    assert_eq!(frame_index(u64::MAX, i64::MAX), frame_index(u64::MAX, 0));
    assert_eq!(frame_index(0, i64::MIN), 0);
}

#[test]
fn bands_are_read_from_the_selected_snapshot() {
    // 100 snapshots of 64 magnitudes; snapshot k holds the magnitude 100 + k.
    let spectrogram: Vec<Vec<u8>> = (0..100u8).map(|k| vec![100 + k; 64]).collect();
    let picked = select_frame(spectrogram.len(), 1280, 0);
    assert_eq!(picked, Some(30));
    let mut bars = silent_bars();
    smooth_frame(&mut bars, &spectrogram[picked.unwrap()]);
    // band 5: magnitude 130, floor 30, gain 0.6: target 60.0; a rise of 40 %: 24.0
    assert_eq!(bars[5], 24_000_000);
    // band 0: floor 60, gain 0.1: target 7.0; 40 %: 2.8
    assert_eq!(bars[0], 2_800_000);
    // bands 1 and 2: floor 60, gain 0.6: target 42.0; 40 %: 16.8
    assert_eq!(bars[1], 16_800_000);
    assert_eq!(bars[2], 16_800_000);
}

#[test]
fn position_past_the_spectrogram_selects_nothing() {
    assert_eq!(select_frame(100, 4266, 0), None);
    assert_eq!(select_frame(100, 4265, 0), Some(99));
    assert_eq!(select_frame(0, 0, 0), None);
}

#[test]
fn band_target_subtracts_floor_and_applies_gain() {
    assert_eq!(band_target(0, 255), 19_500_000);
    assert_eq!(band_target(0, 60), 0);
    assert_eq!(band_target(0, 10), 0);
    assert_eq!(band_target(2, 61), 600_000);
    assert_eq!(band_target(3, 31), 600_000);
    assert_eq!(band_target(3, 30), 0);
    assert_eq!(band_target(63, 200), LEVEL_MAX);
    assert_eq!(band_target(63, 255), LEVEL_MAX);
    assert_eq!(band_target(10, 130), 60_000_000);
    assert_eq!(LEVEL_MAX, 100 * LEVEL_UNIT);
}

#[test]
fn smoothing_rises_fast_and_falls_slowly() {
    assert_eq!(smooth_toward(0, 100_000_000), 40_000_000);
    assert_eq!(smooth_toward(40_000_000, 100_000_000), 64_000_000);
    assert_eq!(smooth_toward(100_000_000, 0), 85_000_000);
    assert_eq!(smooth_toward(50_000_000, 50_000_000), 50_000_000);
    assert_eq!(smooth_toward(0, 2), 0);
    assert_eq!(smooth_toward(0, 3), 1);
    assert_eq!(smooth_toward(7, 0), 6);
    assert_eq!(smooth_toward(6, 0), 6);
}

#[test]
fn short_snapshot_leaves_the_upper_bars() {
    let mut bars = silent_bars();
    for i in 0..64 {
        bars[i] = 10_000_000;
    }
    smooth_frame(&mut bars, &vec![255u8; 4]);
    assert_eq!(bars[3], 10_000_000 + (100_000_000 - 10_000_000) * 2 / 5);
    assert_eq!(bars[4], 10_000_000);
    assert_eq!(bars[63], 10_000_000);
    assert_eq!(bars.len(), 64);
}

#[test]
fn idle_bars_decay_by_a_twentieth_per_tick() {
    // start levels in display units, small ones among them
    let starts = [100.0f64, 90.25, 19.0, 1.0, 0.5, 0.002, 0.000_019, 0.0];
    for start in starts {
        let mut bars = silent_bars();
        for i in 0..64 {
            bars[i] = (start * LEVEL_UNIT as f64).round() as u32;
        }
        for n in 1..=200 {
            fade_bars(&mut bars);
            let expected = start * 0.95f64.powi(n);
            let tolerance = 1e-3 * start.abs().max(1.0);
            for i in 0..64 {
                let shown = bars[i] as f64 / LEVEL_UNIT as f64;
                assert!(shown <= expected + 1e-9, "start {} tick {}", start, n);
                assert!(expected - shown < 0.000_019 + 1e-9, "start {} tick {}", start, n);
                assert!((shown - expected).abs() <= tolerance, "start {} tick {}", start, n);
            }
        }
    }
    assert_eq!(decay(100_000_000), 95_000_000);
    assert_eq!(decay(95_000_000), 90_250_000);
    assert_eq!(decay(2_000), 1_900);
    assert_eq!(decay(1_900), 1_805);
    assert_eq!(decay(1), 0);
    assert_eq!(decay(0), 0);
}

#[test]
fn merging_to_fewer_slots_takes_the_weighted_mean() {
    let mut bars = silent_bars();
    for i in 0..64 {
        bars[i] = (i as u32) * LEVEL_UNIT;
    }
    let same = merge_bars(&bars, 64);
    assert_eq!(same, (0..64u64).collect::<Vec<u64>>());
    let halves = merge_bars(&bars, 32);
    // slot j covers bands 2j and 2j+1: mean 2j + 0.5, shown as 2j
    assert_eq!(halves, (0..32u64).map(|j| 2 * j).collect::<Vec<u64>>());
    let one = merge_bars(&bars, 1);
    assert_eq!(one, vec![31]);
    // three slots: slot 0 covers bands 0..21 and a third of band 21
    let three = merge_bars(&bars, 3);
    let sum0: u64 = (0..21u64).map(|i| i * 3).sum::<u64>() + 21;
    assert_eq!(three[0], sum0 / 64);
    assert_eq!(three[0], 10);
    assert_eq!(three.len(), 3);
    assert!(merge_bars(&bars, 0).is_empty());
}

#[test]
fn slot_count_is_a_third_of_the_width_up_to_64() {
    assert_eq!(slot_count(0), 0);
    assert_eq!(slot_count(2), 0);
    assert_eq!(slot_count(3), 1);
    assert_eq!(slot_count(100), 33);
    assert_eq!(slot_count(192), 64);
    assert_eq!(slot_count(u16::MAX), 64);
}
