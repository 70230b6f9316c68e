use combat_core::pattern::{
    pattern_directions, safe_dir, Dir, ShootingPattern, FALLBACK_DIR, TURN,
};

/// Angle units to radians, exactly as the caller of the library would.
fn to_radians(d: &Dir) -> f64 {
    (d.num as f64 / d.den as f64) * (std::f64::consts::TAU / TURN as f64)
}

#[test]
fn straight_emits_the_aim() {
    let dirs = pattern_directions(12_345, &ShootingPattern::Straight, 1000, 1000, 0);
    assert_eq!(dirs.len(), 1);
    assert_eq!(dirs[0], Dir { num: 12_345, den: 1 });
}

#[test]
fn spread_is_evenly_spaced_and_symmetric() {
    // Five shots across a quarter turn, aim slightly off axis.
    let aim: i64 = 10_000;
    let arc: i64 = 90_000;
    let dirs = pattern_directions(aim, &ShootingPattern::Spread { count: 5, arc }, 1000, 1000, 0);
    assert_eq!(dirs.len(), 5);
    let den: i64 = 2 * 4;
    for d in dirs.iter() {
        assert_eq!(d.den, den);
    }
    // Exact numerators: aim - arc/2 + i * arc/4, over the common denominator.
    let expected: Vec<i64> = (0..5).map(|i| -280_000 + 180_000 * i).collect();
    for (d, e) in dirs.iter().zip(expected.iter()) {
        assert_eq!(d.num, *e);
    }
    // Evenly spaced; first and last differ by exactly the arc.
    for w in dirs.windows(2) {
        assert_eq!(w[1].num - w[0].num, 2 * arc);
    }
    assert_eq!(dirs[4].num - dirs[0].num, arc * den);
    // Symmetric about the aim: each mirrored pair averages to the aim.
    for i in 0..5 {
        assert_eq!(dirs[i].num + dirs[4 - i].num, 2 * aim * den);
    }
}

#[test]
fn spread_with_one_shot_degenerates_to_straight() {
    let dirs = pattern_directions(7, &ShootingPattern::Spread { count: 1, arc: 90_000 }, 1000, 1000, 0);
    assert_eq!(dirs.len(), 1);
    assert_eq!(dirs[0], Dir { num: 7, den: 1 });
    let dirs = pattern_directions(7, &ShootingPattern::Spread { count: 0, arc: 90_000 }, 1000, 1000, 0);
    assert_eq!(dirs.len(), 1);
    assert_eq!(dirs[0], Dir { num: 7, den: 1 });
}

#[test]
fn ring_is_evenly_spaced_and_anchored() {
    let aim: i64 = 5_000;
    let dirs = pattern_directions(aim, &ShootingPattern::Ring { count: 8 }, 1000, 1000, 0);
    assert_eq!(dirs.len(), 8);
    for (i, d) in dirs.iter().enumerate() {
        assert_eq!(d.den, 8);
        assert_eq!(d.num, aim * 8 + (i as i64) * TURN);
    }
    // Consecutive numerators differ by TURN: a step of exactly TURN/8.
    for w in dirs.windows(2) {
        assert_eq!(w[1].num - w[0].num, TURN);
    }
}

#[test]
fn ring_vector_sum_is_near_zero() {
    for count in [3usize, 8, 12] {
        let dirs = pattern_directions(31_416, &ShootingPattern::Ring { count }, 1000, 1000, 0);
        let (mut sx, mut sy) = (0.0f64, 0.0f64);
        for d in dirs.iter() {
            let a = to_radians(d);
            sx += a.cos();
            sy += a.sin();
        }
        assert!(sx.abs() < 1e-9, "x sum {} for count {}", sx, count);
        assert!(sy.abs() < 1e-9, "y sum {} for count {}", sy, count);
    }
}

#[test]
fn flank_emits_two_symmetric_shots() {
    let aim: i64 = 5_000;
    let angle: i64 = 22_500;
    let dirs = pattern_directions(aim, &ShootingPattern::Flank { angle }, 1000, 1000, 0);
    assert_eq!(dirs.len(), 2);
    assert_eq!(dirs[0], Dir { num: aim - angle, den: 1 });
    assert_eq!(dirs[1], Dir { num: aim + angle, den: 1 });
    assert_eq!(dirs[0].num + dirs[1].num, 2 * aim);
}

#[test]
fn random_offsets_stay_inside_the_arc() {
    let aim: i64 = 1_000;
    let arc: i64 = 40_000;
    let dirs = pattern_directions(aim, &ShootingPattern::Random { count: 50, arc }, 1000, 1000, 0);
    assert_eq!(dirs.len(), 50);
    for d in dirs.iter() {
        assert_eq!(d.den, 2);
        assert!(2 * aim - arc <= d.num && d.num <= 2 * aim + arc);
    }
}

#[test]
fn sweep_walks_across_the_arc() {
    let arc: i64 = 90_000;
    // Two steps: duration one second, one shot each half second.
    let p = ShootingPattern::Sweep { arc, clockwise: true };
    let first = pattern_directions(0, &p, 500, 1000, 0);
    assert_eq!(first.len(), 1);
    assert_eq!(first[0], Dir { num: arc, den: 2 }); // +arc/2
    let second = pattern_directions(0, &p, 500, 1000, 750);
    assert_eq!(second[0], Dir { num: -arc, den: 2 }); // -arc/2
    // Past the window the index clamps to the last step.
    let clamped = pattern_directions(0, &p, 500, 1000, 5000);
    assert_eq!(clamped[0], Dir { num: -arc, den: 2 });
    // Counter-clockwise runs the other way.
    let ccw = ShootingPattern::Sweep { arc, clockwise: false };
    let start = pattern_directions(0, &ccw, 500, 1000, 0);
    assert_eq!(start[0], Dir { num: -arc, den: 2 });
}

#[test]
fn sweep_single_step_holds_the_edge() {
    // Cooldown longer than the duration: one step only.
    let p = ShootingPattern::Sweep { arc: 60_000, clockwise: true };
    let only = pattern_directions(2_000, &p, 3000, 1000, 0);
    assert_eq!(only.len(), 1);
    assert_eq!(only[0], Dir { num: 2 * 2_000 + 60_000, den: 2 });
}

#[test]
fn zero_offset_falls_back_to_the_default_direction() {
    assert_eq!(safe_dir(0, 0, 123), FALLBACK_DIR);
    assert_eq!(safe_dir(3, -4, 123), 123);
}
