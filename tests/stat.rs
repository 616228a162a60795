//! The methods of `Stat`.

use immediate_stats::{Modifier, Ratio, Stat, StatContainer};

#[test]
fn stat_reset() {
    for i in 0..10 {
        let mut stat = Stat {
            base: i,
            bonus: 4,
            multiplier: Ratio::new(3, 2),
        };
        stat.reset_modifiers();

        assert_eq!(stat, Stat::new(i));
    }
}

#[test]
fn stat_add() {
    let mut stat = Stat::new(10);
    stat += 5;
    assert_eq!(
        stat,
        Stat {
            base: 10,
            bonus: 5,
            multiplier: Ratio::from_int(1),
        }
    );
}

#[test]
fn stat_subtract() {
    let mut stat = Stat::new(10);
    stat -= 5;
    assert_eq!(
        stat,
        Stat {
            base: 10,
            bonus: -5,
            multiplier: Ratio::from_int(1),
        }
    );
}

#[test]
fn stat_multiply() {
    let mut stat = Stat::new(10);
    stat *= Ratio::from_int(2);
    assert_eq!(
        stat,
        Stat {
            base: 10,
            bonus: 0,
            multiplier: Ratio::from_int(2),
        }
    );
}

#[test]
fn stat_divide() {
    let mut stat = Stat::new(10);
    stat /= Ratio::from_int(2);
    assert_eq!(
        stat,
        Stat {
            base: 10,
            bonus: 0,
            multiplier: Ratio::new(1, 2),
        }
    );
}

#[test]
fn default_total() {
    for i in 0..10 {
        assert_eq!(Stat::new(i).total(), i);
    }
}

#[test]
fn total() {
    assert_eq!(
        Stat {
            base: 10,
            bonus: 4,
            multiplier: Ratio::new(3, 2),
        }
        .total(),
        21
    )
}

#[test]
fn total_no_bonus() {
    assert_eq!(Stat::new(20).with_multiplier(Ratio::new(1, 2)).total(), 10);
}

#[test]
fn total_no_multiplier() {
    assert_eq!(Stat::new(2).with_bonus(1).total(), 3);
}

#[test]
fn total_with_modifier() {
    assert_eq!(
        Stat::new(5)
            .with_modifier(Modifier::new(1, Ratio::new(1, 2)))
            .total(),
        3
    );
}

#[test]
fn apply() {
    let mut stat = Stat::new(10);

    stat.apply(Modifier::new(2, Ratio::from_int(2)));
    stat.apply(Modifier::new(3, Ratio::from_int(4)));

    assert_eq!(
        stat,
        Stat {
            base: 10,
            bonus: 5,
            multiplier: Ratio::from_int(8),
        }
    )
}

#[test]
fn apply_scaled() {
    let mut stat = Stat::new(10);

    // Should result in +1, x1.5
    stat.apply_scaled(Modifier::new(2, Ratio::from_int(2)), Ratio::new(1, 2));

    // Should result in +2, x3
    stat.apply_scaled(Modifier::new(4, Ratio::from_int(5)), Ratio::new(1, 2));

    assert_eq!(
        stat,
        Stat {
            base: 10,
            bonus: 3,
            multiplier: Ratio::new(9, 2),
        }
    )
}

#[test]
fn lib_reset() {
    for base in 0..10 {
        let mut health = Stat {
            base,
            bonus: 3,
            multiplier: Ratio::new(3, 2),
        };

        health.reset_modifiers();

        assert_eq!(
            health,
            Stat {
                base,
                bonus: 0,
                multiplier: Ratio::from_int(1),
            },
        );
    }
}

#[test]
fn calculate() {
    assert_eq!(
        Stat {
            base: 10,
            bonus: 4,
            multiplier: Ratio::new(3, 2),
        }
        .total(),
        21,
    );
}

#[test]
fn reset_twice_same_as_once() {
    let mut once = Stat {
        base: 7,
        bonus: -2,
        multiplier: Ratio::new(5, 3),
    };
    let mut twice = once;
    once.reset_modifiers();
    twice.reset_modifiers();
    twice.reset_modifiers();
    assert_eq!(once, twice);
    assert_eq!(twice.bonus, 0);
    assert_eq!(twice.multiplier.numerator(), 1);
    assert_eq!(twice.multiplier.denominator(), 1);
}

#[test]
fn reset_total_is_base() {
    for base in [-40i64, -1, 0, 1, 99, 1_000_000_000_000] {
        let mut stat = Stat {
            base,
            bonus: 17,
            multiplier: Ratio::new(-7, 4),
        };
        stat.reset_modifiers();
        assert_eq!(stat.total(), base);
        assert_eq!(stat.base, base);
    }
}

#[test]
fn accumulation_order_does_not_matter() {
    let mut add_first = Stat::new(10);
    add_first += 5;
    add_first *= Ratio::from_int(2);
    assert_eq!(add_first.total(), 30);

    let mut multiply_first = Stat::new(10);
    multiply_first *= Ratio::from_int(2);
    multiply_first += 5;
    assert_eq!(multiply_first.total(), 30);

    assert_eq!(add_first, multiply_first);
}

#[test]
fn speed_scenario() {
    let mut speed = Stat::new(10);
    speed *= Ratio::from_int(2);
    speed += 5;
    assert_eq!(speed.total(), 30);
    speed.reset_modifiers();
    assert_eq!(speed.total(), 10);
}

#[test]
fn total_rounds_toward_zero() {
    // (-3 + 0) * 1/2 = -1.5, rounded toward zero
    assert_eq!(Stat::new(-3).with_multiplier(Ratio::new(1, 2)).total(), -1);
    // 7 * 1/3 = 2.33..
    assert_eq!(Stat::new(7).with_multiplier(Ratio::new(1, 3)).total(), 2);
    // 7 * 2/3 = 4.66..
    assert_eq!(Stat::new(7).with_multiplier(Ratio::new(2, 3)).total(), 4);
}

#[test]
fn divide_by_negative_keeps_denominator_positive() {
    let mut stat = Stat::new(12);
    stat /= Ratio::from_int(-4);
    assert_eq!(stat.multiplier, Ratio::new(-1, 4));
    assert!(stat.multiplier.denominator() > 0);
    assert_eq!(stat.total(), -3);
}

#[test]
fn default_stat_is_zero() {
    let stat: Stat<i64> = Stat::default();
    assert_eq!(stat, Stat::new(0));
    assert_eq!(stat.total(), 0);
}

#[test]
fn builders_do_not_touch_other_fields() {
    let stat = Stat::new(4).with_bonus(2).with_multiplier(Ratio::from_int(3));
    assert_eq!(stat.base, 4);
    assert_eq!(stat.bonus, 2);
    assert_eq!(stat.multiplier, Ratio::from_int(3));
    assert_eq!(stat.total(), 18);
}

#[test]
fn total_saturates_at_the_kind_bounds() {
    assert_eq!(
        Stat::new(i32::MAX).with_multiplier(Ratio::from_int(2)).total(),
        i32::MAX
    );
    assert_eq!(
        Stat::new(i32::MIN).with_multiplier(Ratio::from_int(3)).total(),
        i32::MIN
    );
    assert_eq!(
        Stat::new(i64::MAX).with_multiplier(Ratio::new(-3, 2)).total(),
        i64::MIN
    );
}
