use rollforgrue::dice::{select_roll, Advantage, Dice};
use rollforgrue::environment::{lighting_advantage, Lighting};

const ALL: [Advantage; 5] = [
    Advantage::Neutral,
    Advantage::Canceled,
    Advantage::Advantage,
    Advantage::Disadvantage,
    Advantage::Fail,
];

fn expected(a: Advantage, b: Advantage) -> Advantage {
    match (a, b) {
        (Advantage::Neutral, x) => x,
        (_, Advantage::Fail) | (Advantage::Fail, _) => Advantage::Fail,
        (Advantage::Canceled, _) | (_, Advantage::Canceled) => Advantage::Canceled,
        (Advantage::Advantage, Advantage::Disadvantage)
        | (Advantage::Disadvantage, Advantage::Advantage) => Advantage::Canceled,
        (x, _) => x,
    }
}

#[test]
fn combine_truth_table() {
    for a in ALL {
        for b in ALL {
            assert_eq!(a.combine(b), expected(a, b), "{:?} with {:?}", a, b);
            assert_eq!(a + b, expected(a, b));
        }
    }
}

#[test]
fn combine_named_pairs() {
    assert_eq!(Advantage::Advantage.combine(Advantage::Disadvantage), Advantage::Canceled);
    assert_eq!(Advantage::Fail.combine(Advantage::Canceled), Advantage::Fail);
    assert_eq!(Advantage::Neutral.combine(Advantage::Disadvantage), Advantage::Disadvantage);
    assert_eq!(Advantage::Canceled.combine(Advantage::Advantage), Advantage::Canceled);
    assert_eq!(Advantage::Canceled.combine(Advantage::Fail), Advantage::Fail);
    assert_eq!(Advantage::Disadvantage.combine(Advantage::Advantage), Advantage::Canceled);
}

#[test]
fn select_from_fixed_draws() {
    assert_eq!(select_roll(Advantage::Advantage, 4, 17), 17);
    assert_eq!(select_roll(Advantage::Advantage, 17, 4), 17);
    assert_eq!(select_roll(Advantage::Disadvantage, 4, 17), 4);
    assert_eq!(select_roll(Advantage::Disadvantage, 17, 4), 4);
    assert_eq!(select_roll(Advantage::Neutral, 9, 2), 9);
    assert_eq!(select_roll(Advantage::Canceled, 2, 9), 2);
    assert_eq!(select_roll(Advantage::Fail, 12, 19), 0);
    assert_eq!(select_roll(Advantage::Fail, -3, -8), 0);
}

#[test]
fn flat_roll_stays_in_range() {
    let dice = Dice::new();
    for sides in 1u8..=100 {
        for modifier in [-100i8, -5, 0, 3, 27] {
            for _ in 0..20 {
                let r = dice.d_flat(sides, modifier) as i32;
                assert!(r >= 1 + modifier as i32 && r <= sides as i32 + modifier as i32);
            }
        }
    }
}

#[test]
fn one_sided_die_gives_one_plus_modifier() {
    let dice = Dice::new();
    assert_eq!(dice.d_flat(1, 0), 1);
    assert_eq!(dice.d_flat(1, -7), -6);
    assert_eq!(dice.d(1, 5, Advantage::Advantage), 6);
}

#[test]
fn flat_roll_is_close_to_uniform() {
    let dice = Dice::new();
    let sides: usize = 20;
    let draws: usize = 100_000;
    let mut counts = vec![0usize; sides];
    for _ in 0..draws {
        let r = dice.d_flat(sides as u8, 0);
        counts[(r - 1) as usize] += 1;
    }
    let expected = draws as f64 / sides as f64;
    let chi_square: f64 = counts
        .iter()
        .map(|&c| {
            let d = c as f64 - expected;
            d * d / expected
        })
        .sum();
    // 19 degrees of freedom: the 0.999 quantile is about 43.8.
    assert!(chi_square < 43.8, "chi-square {}", chi_square);
}

#[test]
fn failed_roll_is_zero() {
    let dice = Dice::new();
    for _ in 0..100 {
        assert_eq!(dice.d(20, 7, Advantage::Fail), 0);
    }
}

#[test]
fn advantage_rolls_stay_in_range() {
    let dice = Dice::new();
    for adv in ALL {
        if adv == Advantage::Fail {
            continue;
        }
        for _ in 0..200 {
            let r = dice.d(20, 3, adv);
            assert!((4..=23).contains(&r));
        }
    }
}

#[test]
fn advantage_beats_disadvantage_on_average() {
    let dice = Dice::new();
    let n = 20_000;
    let high: i64 = (0..n).map(|_| dice.d(20, 0, Advantage::Advantage) as i64).sum();
    let low: i64 = (0..n).map(|_| dice.d(20, 0, Advantage::Disadvantage) as i64).sum();
    let flat: i64 = (0..n).map(|_| dice.d(20, 0, Advantage::Neutral) as i64).sum();
    assert!(high > flat && flat > low);
}

#[test]
fn lighting_rules() {
    assert_eq!(lighting_advantage(Lighting::Dark, true), Advantage::Disadvantage);
    assert_eq!(lighting_advantage(Lighting::Dark, false), Advantage::Fail);
    assert_eq!(lighting_advantage(Lighting::Dim, true), Advantage::Neutral);
    assert_eq!(lighting_advantage(Lighting::Dim, false), Advantage::Disadvantage);
    assert_eq!(lighting_advantage(Lighting::Light, true), Advantage::Neutral);
    assert_eq!(lighting_advantage(Lighting::Light, false), Advantage::Neutral);
}

#[test]
fn lighting_names() {
    assert_eq!(Lighting::Dark.name(), "Dark Light");
    assert_eq!(Lighting::Dim.name(), "Dim Light");
    assert_eq!(Lighting::Light.name(), "Bright Light");
}
