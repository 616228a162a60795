//! The methods of `Modifier` and `Ratio`.

use immediate_stats::{Modifier, Ratio};

#[test]
fn modifier_add() {
    let mut modifier = Modifier::default();
    modifier += 5;
    assert_eq!(
        modifier,
        Modifier {
            bonus: 5,
            multiplier: Ratio::from_int(1),
        }
    );
}

#[test]
fn modifier_subtract() {
    let mut modifier = Modifier::default();
    modifier -= 5;
    assert_eq!(
        modifier,
        Modifier {
            bonus: -5,
            multiplier: Ratio::from_int(1),
        }
    );
}

#[test]
fn modifier_multiply() {
    let mut modifier: Modifier<i32> = Modifier::default();
    modifier *= Ratio::from_int(2);
    assert_eq!(
        modifier,
        Modifier {
            bonus: 0,
            multiplier: Ratio::from_int(2),
        }
    );
}

#[test]
fn modifier_divide() {
    let mut modifier: Modifier<i32> = Modifier::default();
    modifier /= Ratio::from_int(2);
    assert_eq!(
        modifier,
        Modifier {
            bonus: 0,
            multiplier: Ratio::new(1, 2),
        }
    );
}

#[test]
fn scaled() {
    let modifier = Modifier {
        bonus: 10,
        multiplier: Ratio::from_int(3),
    };
    assert_eq!(
        modifier.scaled(Ratio::new(1, 2)),
        Modifier {
            bonus: 5,
            multiplier: Ratio::from_int(2),
        }
    );
}

#[test]
fn scaled_rounds_bonus_toward_zero() {
    let modifier = Modifier {
        bonus: -5,
        multiplier: Ratio::new(1, 2),
    };
    let half = modifier.scaled(Ratio::new(1, 2));
    assert_eq!(half.bonus, -2);
    // 1 + (1/2 - 1) * 1/2 = 3/4
    assert_eq!(half.multiplier, Ratio::new(3, 4));
}

#[test]
fn from_bonus_and_from_multiplier() {
    assert_eq!(
        Modifier::from_bonus(7),
        Modifier {
            bonus: 7,
            multiplier: Ratio::from_int(1),
        }
    );
    assert_eq!(
        Modifier::<i64>::from_multiplier(Ratio::new(5, 4)),
        Modifier {
            bonus: 0,
            multiplier: Ratio::new(5, 4),
        }
    );
}

#[test]
fn ratio_equality_is_by_value() {
    assert_eq!(Ratio::new(2, 4), Ratio::new(1, 2));
    assert_ne!(Ratio::new(2, 3), Ratio::new(1, 2));
    assert_eq!(Ratio::new(18, 4), Ratio::new(9, 2));
    assert_eq!(Ratio::new(3, 2).mul(Ratio::new(2, 3)), Ratio::one());
    assert_eq!(Ratio::new(3, 2).div(Ratio::new(3, 2)), Ratio::one());
}

#[test]
fn ratio_scale_int_truncates() {
    assert_eq!(Ratio::new(3, 2).scale_int(5), 7);
    assert_eq!(Ratio::new(3, 2).scale_int(-5), -7);
    assert_eq!(Ratio::new(2, 1).scale_deviation(Ratio::new(1, 2)), Ratio::new(3, 2));
}

#[test]
fn scaled_bonus_saturates() {
    let modifier = Modifier::from_bonus(i32::MAX);
    assert_eq!(modifier.scaled(Ratio::from_int(3)).bonus, i32::MAX);
    let modifier = Modifier::from_bonus(i32::MIN);
    assert_eq!(modifier.scaled(Ratio::new(5, 2)).bonus, i32::MIN);
}
