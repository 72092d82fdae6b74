use energy_calculator::{ActionKind, BonusSign, CalculationInput, DiceKind, EnergyCost};

#[test]
fn defaults_match_the_startup_state() {
    let input = CalculationInput::default();
    assert_eq!(input.level, 1);
    assert_eq!(input.action_kind, ActionKind::Action);
    assert!(input.verbal);
    assert!(input.somatic);
    assert_eq!(input.material_amount, 1);
    assert_eq!(input.material_sign, BonusSign::Multiplicative);
    assert_eq!(input.bonus_amount, 1);
    assert_eq!(input.bonus_sign, BonusSign::Multiplicative);
    assert_eq!(input.dice_count, 0);
    assert_eq!(input.dice_kind, DiceKind::NoDice);
}

#[test]
fn set_level_clamps_into_range() {
    let mut input = CalculationInput::default();
    input.set_level(3);
    assert_eq!(input.level, 3);
    input.set_level(25);
    assert_eq!(input.level, 11);
    input.set_level(0);
    assert_eq!(input.level, 0);
}

#[test]
fn rounding_is_exact_on_whole_values() {
    assert_eq!(EnergyCost { num: 3600, den: 1 }.rounded_half_even(), 3600);
    assert_eq!(EnergyCost { num: 7200, den: 6 }.rounded_half_even(), 1200);
    assert_eq!(EnergyCost { num: 600, den: 2 }.rounded_half_even(), 300);
    assert_eq!(EnergyCost { num: 0, den: 5 }.rounded_half_even(), 0);
}

#[test]
fn rounding_goes_to_the_nearest() {
    assert_eq!(EnergyCost { num: 10, den: 4 }.rounded_half_even(), 2);
    assert_eq!(EnergyCost { num: 1, den: 3 }.rounded_half_even(), 0);
    assert_eq!(EnergyCost { num: 2, den: 3 }.rounded_half_even(), 1);
    assert_eq!(EnergyCost { num: 7, den: 3 }.rounded_half_even(), 2);
    assert_eq!(EnergyCost { num: 8, den: 3 }.rounded_half_even(), 3);
}

#[test]
fn rounding_ties_go_to_the_even_neighbour() {
    assert_eq!(EnergyCost { num: 1, den: 2 }.rounded_half_even(), 0);
    assert_eq!(EnergyCost { num: 3, den: 2 }.rounded_half_even(), 2);
    assert_eq!(EnergyCost { num: 5, den: 2 }.rounded_half_even(), 2);
    assert_eq!(EnergyCost { num: 7, den: 2 }.rounded_half_even(), 4);
    // The display formatter rounds an f64 the same way.
    assert_eq!(format!("{:.0}", 2.5f64), "2");
    assert_eq!(format!("{:.0}", 3.5f64), "4");
}
