use energy_calculator::{evaluate, ActionKind, BonusSign, CalculationInput, DiceKind, Variant};

fn value_of(num: u128, den: u64) -> f64 {
    num as f64 / den as f64
}

#[test]
fn fixture_full_action() {
    let input = CalculationInput::default();
    let cost = evaluate(&input, Variant::BonusesThenDice);
    assert_eq!(cost.num, 3600);
    assert_eq!(cost.den, 1);
    assert_eq!(value_of(cost.num, cost.den), 3600.0);
}

#[test]
fn fixture_reaction() {
    let mut input = CalculationInput::default();
    input.action_kind = ActionKind::Reaction;
    let cost = evaluate(&input, Variant::BonusesThenDice);
    assert_eq!(cost.num, 600);
    assert_eq!(cost.den, 2);
    assert_eq!(value_of(cost.num, cost.den), 300.0);
}

#[test]
fn fixture_two_d6() {
    let mut input = CalculationInput::default();
    input.dice_kind = DiceKind::D6;
    input.dice_count = 2;
    let cost = evaluate(&input, Variant::BonusesThenDice);
    assert_eq!(cost.num, 7200);
    assert_eq!(cost.den, 6);
    assert_eq!(value_of(cost.num, cost.den), 1200.0);
}

#[test]
fn fixture_additive_material() {
    let mut input = CalculationInput::default();
    input.material_amount = 5;
    input.material_sign = BonusSign::Additive;
    let cost = evaluate(&input, Variant::BonusesThenDice);
    assert_eq!(cost.num, 3605);
    assert_eq!(cost.den, 1);
}

#[test]
fn bonus_action_multiplier() {
    let mut input = CalculationInput::default();
    input.action_kind = ActionKind::BonusAction;
    let cost = evaluate(&input, Variant::BonusesThenDice);
    assert_eq!(cost.num, 1200);
    assert_eq!(cost.den, 1);
}

#[test]
fn component_factors() {
    let mut input = CalculationInput::default();
    input.verbal = false;
    let cost = evaluate(&input, Variant::BonusesThenDice);
    assert_eq!((cost.num, cost.den), (180, 1));
    input.verbal = true;
    input.somatic = false;
    let cost = evaluate(&input, Variant::BonusesThenDice);
    assert_eq!((cost.num, cost.den), (120, 1));
    input.verbal = false;
    let cost = evaluate(&input, Variant::BonusesThenDice);
    assert_eq!((cost.num, cost.den), (6, 1));
}

#[test]
fn no_dice_is_neutral_whatever_the_count() {
    let mut with_zero = CalculationInput::default();
    with_zero.dice_count = 0;
    let mut with_seven = with_zero;
    with_seven.dice_count = 7;
    for variant in [Variant::BonusesThenDice, Variant::DiceThenBonuses] {
        let a = evaluate(&with_zero, variant);
        let b = evaluate(&with_seven, variant);
        assert_eq!(a, b);
    }
}

#[test]
fn switching_to_additive_decreases() {
    let mut multiplicative = CalculationInput::default();
    multiplicative.material_amount = 5;
    let mut additive = multiplicative;
    additive.material_sign = BonusSign::Additive;
    let m = evaluate(&multiplicative, Variant::BonusesThenDice);
    let a = evaluate(&additive, Variant::BonusesThenDice);
    assert_eq!((m.num, m.den), (18000, 1));
    assert_eq!((a.num, a.den), (3605, 1));
    assert!(value_of(a.num, a.den) < value_of(m.num, m.den));
}

#[test]
fn base_is_linear_in_level() {
    let mut input = CalculationInput::default();
    input.level = 2;
    let cost = evaluate(&input, Variant::BonusesThenDice);
    assert_eq!((cost.num, cost.den), (7200, 1));
    input.level = 3;
    let cost = evaluate(&input, Variant::BonusesThenDice);
    assert_eq!((cost.num, cost.den), (10800, 1));
}

#[test]
fn zero_level_zeroes_one_ordering_and_halves_the_other() {
    let mut input = CalculationInput::default();
    input.level = 0;
    let a = evaluate(&input, Variant::BonusesThenDice);
    assert_eq!((a.num, a.den), (0, 1));
    let b = evaluate(&input, Variant::DiceThenBonuses);
    assert_eq!((b.num, b.den), (3600, 2));
    assert_eq!(value_of(b.num, b.den), 1800.0);
}

#[test]
fn orderings_differ_when_dice_meet_an_additive_bonus() {
    let mut input = CalculationInput::default();
    input.verbal = false;
    input.somatic = false;
    input.action_kind = ActionKind::BonusAction;
    input.material_amount = 3;
    input.material_sign = BonusSign::Additive;
    input.dice_kind = DiceKind::D4;
    input.dice_count = 2;
    let a = evaluate(&input, Variant::BonusesThenDice);
    assert_eq!((a.num, a.den), (10, 4));
    assert_eq!(value_of(a.num, a.den), 2.5);
    let b = evaluate(&input, Variant::DiceThenBonuses);
    assert_eq!((b.num, b.den), (16, 4));
    assert_eq!(value_of(b.num, b.den), 4.0);
}

#[test]
fn evaluation_is_idempotent() {
    let mut input = CalculationInput::default();
    input.level = 7;
    input.action_kind = ActionKind::Reaction;
    input.material_amount = 4;
    input.bonus_amount = 9;
    input.bonus_sign = BonusSign::Additive;
    input.dice_kind = DiceKind::D20;
    input.dice_count = 3;
    for variant in [Variant::BonusesThenDice, Variant::DiceThenBonuses] {
        let first = evaluate(&input, variant);
        let second = evaluate(&input, variant);
        assert_eq!(first, second);
        assert_eq!(
            value_of(first.num, first.den).to_bits(),
            value_of(second.num, second.den).to_bits()
        );
    }
}

#[test]
fn large_amounts_do_not_wrap() {
    let mut input = CalculationInput::default();
    input.level = 11;
    input.material_amount = u32::MAX;
    input.bonus_amount = u32::MAX;
    input.dice_kind = DiceKind::D100;
    input.dice_count = u32::MAX;
    let expected: u128 = 39600 * (u32::MAX as u128) * (u32::MAX as u128) * (u32::MAX as u128);
    let cost = evaluate(&input, Variant::BonusesThenDice);
    assert_eq!(cost.num, expected);
    assert_eq!(cost.den, 100);
}
