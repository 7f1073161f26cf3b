use turtle::speed::{Rate, Speed};

const LEVELS: [Speed; 10] = [
    Speed::One,
    Speed::Two,
    Speed::Three,
    Speed::Four,
    Speed::Five,
    Speed::Six,
    Speed::Seven,
    Speed::Eight,
    Speed::Nine,
    Speed::Ten,
];

#[test]
fn linear_rate_table() {
    let expected: [u64; 10] = [10, 50, 100, 150, 200, 250, 300, 350, 400, 500];
    for (s, e) in LEVELS.iter().zip(expected.iter()) {
        assert_eq!(s.to_absolute(), Rate::Finite(*e));
    }
    assert_eq!(Speed::Instant.to_absolute(), Rate::Infinite);
}

#[test]
fn angular_rate_table() {
    // Level k turns at 54 * k degrees per second, i.e. 0.3 * k * pi rad/s.
    let expected: [u64; 10] = [54, 108, 162, 216, 270, 324, 378, 432, 486, 540];
    for (s, e) in LEVELS.iter().zip(expected.iter()) {
        assert_eq!(s.to_rotation(), Rate::Finite(*e));
    }
    assert_eq!(Speed::Instant.to_rotation(), Rate::Infinite);
}

#[test]
fn adjacent_levels_strictly_increase() {
    for pair in LEVELS.windows(2) {
        let (a, b) = (pair[0], pair[1]);
        match (a.to_absolute(), b.to_absolute()) {
            (Rate::Finite(x), Rate::Finite(y)) => assert!(x < y),
            _ => panic!("named levels must have finite linear rates"),
        }
        match (a.to_rotation(), b.to_rotation()) {
            (Rate::Finite(x), Rate::Finite(y)) => assert!(x < y),
            _ => panic!("named levels must have finite angular rates"),
        }
    }
}

#[test]
fn five_exceeds_three_on_both_axes() {
    match (Speed::Three.to_absolute(), Speed::Five.to_absolute()) {
        (Rate::Finite(x), Rate::Finite(y)) => assert!(y > x),
        _ => panic!("finite rates expected"),
    }
    match (Speed::Three.to_rotation(), Speed::Five.to_rotation()) {
        (Rate::Finite(x), Rate::Finite(y)) => assert!(y > x),
        _ => panic!("finite rates expected"),
    }
}

#[test]
fn instant_is_the_maximum() {
    assert_eq!(Speed::Instant.to_absolute(), Rate::Infinite);
    assert_eq!(Speed::Instant.to_rotation(), Rate::Infinite);
    for s in LEVELS.iter() {
        // Every named level is finite, hence strictly below infinity;
        // in particular Ten's rates are exceeded.
        assert!(matches!(s.to_absolute(), Rate::Finite(_)));
        assert!(matches!(s.to_rotation(), Rate::Finite(_)));
    }
}

#[test]
fn names_map_to_their_levels() {
    assert_eq!(Speed::from_name("slowest"), Speed::One);
    assert_eq!(Speed::from_name("slow"), Speed::Three);
    assert_eq!(Speed::from_name("normal"), Speed::Six);
    assert_eq!(Speed::from_name("fast"), Speed::Ten);
    assert_eq!(Speed::from_name("fastest"), Speed::Instant);
}

#[test]
fn unrecognized_names_fail() {
    assert_eq!(Speed::parse_name(""), None);
    assert_eq!(Speed::parse_name("Slow"), None);
    assert_eq!(Speed::parse_name("slowest "), None);
    assert_eq!(Speed::parse_name("medium"), None);
    assert_eq!(Speed::parse_name("fastest!"), None);
}

#[test]
fn levels_map_one_to_one() {
    let mapped: Vec<Speed> = (1..=10).map(Speed::from_level).collect();
    assert_eq!(mapped, LEVELS.to_vec());
    for i in 0..mapped.len() {
        for j in 0..mapped.len() {
            if i != j {
                assert_ne!(mapped[i], mapped[j]);
            }
        }
    }
}

#[test]
fn out_of_range_levels_clamp_to_instant() {
    for n in [0, -1, -10, 11, 100, i32::MIN, i32::MAX] {
        assert_eq!(Speed::from_level(n), Speed::Instant);
    }
}

#[test]
fn from_impl_matches_from_level() {
    for n in [-2, 0, 1, 5, 10, 11] {
        assert_eq!(Speed::from(n), Speed::from_level(n));
    }
}
