use vstd::prelude::*;

use crate::input::{ActionKind, BonusSign, CalculationInput, DiceKind, Variant};

verus! {

/// An exactly represented, non-negative rational energy cost.
///
/// The formula only ever multiplies by small integers, divides by a die's face
/// count, halves, and adds whole amounts, so the cost is always the quotient
/// of these two machine words.  The value it stands for is `num / den`.
#[derive(Clone, Copy, Debug, PartialEq, Eq, Structural)]
pub struct EnergyCost {
    pub num: u128,
    /// Always positive: the formula never divides by zero.
    pub den: u64,
}

impl EnergyCost {
    pub open spec fn wf(self) -> bool {
        self.den >= 1
    }

    /// Round the cost to the nearest whole number, ties to the even neighbour;
    /// this is the rounding the rounded display policy uses.
    ///
    /// The result is within half a unit of `num / den`, and a value exactly
    /// half way between two whole numbers rounds to the even one.
    pub fn rounded_half_even(&self) -> (r: u128)
        requires
            self.wf(),
        ensures
            2 * (self.num - r * self.den) <= self.den,
            2 * (r * self.den - self.num) <= self.den,
            2 * (self.num - r * self.den) == self.den ==> r % 2 == 0,
            2 * (r * self.den - self.num) == self.den ==> r % 2 == 0,
    {
        let den: u128 = self.den as u128;
        let q: u128 = self.num / den;
        let rem: u128 = self.num % den;
        let ghost n: int = self.num as int;
        let ghost d: int = self.den as int;
        proof {
            vstd::arithmetic::div_mod::lemma_fundamental_div_mod(n, d);
            vstd::arithmetic::div_mod::lemma_mod_division_less_than_divisor(n, d);
        }
        let twice: u128 = 2 * rem;
        if twice < den {
            proof {
                assert((2 * (n - q * d) <= d) && (2 * (q * d - n) <= d) && !(2 * (n - q * d)
                    == d) && !(2 * (q * d - n) == d)) by (nonlinear_arith)
                    requires
                        n == d * q + rem,
                        0 <= rem < d,
                        2 * rem < d,
                        d >= 1;
            }
            q
        } else {
            proof {
                assert(q < u128::MAX) by (nonlinear_arith)
                    requires
                        n == d * q + rem,
                        1 <= rem < d,
                        n <= u128::MAX,
                        q >= 0;
            }
            if twice > den {
                proof {
                    assert((2 * (n - (q + 1) * d) <= d) && (2 * ((q + 1) * d - n) <= d) && !(2 * (n
                        - (q + 1) * d) == d) && !(2 * ((q + 1) * d - n) == d)) by (nonlinear_arith)
                        requires
                            n == d * q + rem,
                            0 <= rem < d,
                            2 * rem > d,
                            d >= 1;
                }
                q + 1
            } else if q % 2 == 0 {
                proof {
                    assert((2 * (n - q * d) <= d) && (2 * (q * d - n) <= d) && !(2 * (q * d - n)
                        == d)) by (nonlinear_arith)
                        requires
                            n == d * q + rem,
                            0 <= rem < d,
                            2 * rem == d,
                            d >= 1;
                }
                q
            } else {
                proof {
                    assert((2 * (n - (q + 1) * d) <= d) && (2 * ((q + 1) * d - n) <= d) && !(2 * (n
                        - (q + 1) * d) == d)) by (nonlinear_arith)
                        requires
                            n == d * q + rem,
                            0 <= rem < d,
                            2 * rem == d,
                            d >= 1;
                    assert((q + 1) % 2 == 0);
                }
                q + 1
            }
        }
    }
}

/// Numerator of the action multiplier: a full action counts six, a bonus
/// action two, a reaction one half.
pub open spec fn action_factor_num(a: ActionKind) -> int {
    match a {
        ActionKind::Action => 6,
        ActionKind::BonusAction => 2,
        ActionKind::Reaction => 1,
    }
}

/// Denominator of the action multiplier; only a reaction halves the result.
pub open spec fn action_factor_den(a: ActionKind) -> int {
    match a {
        ActionKind::Action => 1,
        ActionKind::BonusAction => 1,
        ActionKind::Reaction => 2,
    }
}

/// Face count of the chosen die; the neutral choice counts one face.
pub open spec fn face_count(d: DiceKind) -> int {
    match d {
        DiceKind::NoDice => 1,
        DiceKind::D4 => 4,
        DiceKind::D6 => 6,
        DiceKind::D8 => 8,
        DiceKind::D10 => 10,
        DiceKind::D12 => 12,
        DiceKind::D20 => 20,
        DiceKind::D100 => 100,
    }
}

/// Numerator of the level term under the chosen ordering.
pub open spec fn level_factor_num(v: Variant, level: int) -> int {
    match v {
        Variant::BonusesThenDice => level,
        Variant::DiceThenBonuses => if level == 0 {
            1
        } else {
            level
        },
    }
}

/// Denominator of the level term: only the dice-first ordering halves a
/// zero level instead of zeroing the result.
pub open spec fn level_factor_den(v: Variant, level: int) -> int {
    match v {
        Variant::BonusesThenDice => 1,
        Variant::DiceThenBonuses => if level == 0 {
            2
        } else {
            1
        },
    }
}

/// Product of the level-independent multipliers: twenty for a verbal
/// component, thirty for a somatic one, and the action numerator.
pub open spec fn fixed_factors(i: CalculationInput) -> int {
    (if i.verbal { 20int } else { 1int }) * (if i.somatic { 30int } else { 1int })
        * action_factor_num(i.action_kind)
}

/// Numerator of the result before adjustments and dice.
pub open spec fn base_num(v: Variant, i: CalculationInput) -> int {
    level_factor_num(v, i.level as int) * fixed_factors(i)
}

/// Denominator of the result before adjustments and dice.
pub open spec fn base_den(v: Variant, i: CalculationInput) -> int {
    level_factor_den(v, i.level as int) * action_factor_den(i.action_kind)
}

/// How one adjustment changes a running numerator over a fixed denominator:
/// an additive amount is brought to the common denominator and added, a
/// multiplicative amount scales the numerator.
pub open spec fn bonus_num(num: int, den: int, amount: int, sign: BonusSign) -> int {
    match sign {
        BonusSign::Additive => num + amount * den,
        BonusSign::Multiplicative => num * amount,
    }
}

/// The dice numerator factor: the count when a die is chosen, else neutral.
pub open spec fn dice_count_factor(i: CalculationInput) -> int {
    if i.dice_kind == DiceKind::NoDice {
        1
    } else {
        i.dice_count as int
    }
}

/// Denominator of the full result; the same under both orderings.
pub open spec fn eval_den(v: Variant, i: CalculationInput) -> int {
    base_den(v, i) * face_count(i.dice_kind)
}

/// Numerator of the full result under the chosen ordering.
pub open spec fn eval_num(v: Variant, i: CalculationInput) -> int {
    match v {
        Variant::BonusesThenDice => bonus_num(
            bonus_num(base_num(v, i), base_den(v, i), i.material_amount as int, i.material_sign),
            base_den(v, i),
            i.bonus_amount as int,
            i.bonus_sign,
        ) * dice_count_factor(i),
        Variant::DiceThenBonuses => bonus_num(
            bonus_num(
                base_num(v, i) * dice_count_factor(i),
                eval_den(v, i),
                i.material_amount as int,
                i.material_sign,
            ),
            eval_den(v, i),
            i.bonus_amount as int,
            i.bonus_sign,
        ),
    }
}

/// One adjustment step of the evaluator.
fn apply_bonus(num: u128, den: u64, amount: u32, sign: BonusSign) -> (r: u128)
    requires
        num + amount * den <= u128::MAX,
        num * amount <= u128::MAX,
    ensures
        r == bonus_num(num as int, den as int, amount as int, sign),
{
    match sign {
        BonusSign::Additive => num + (amount as u128) * (den as u128),
        BonusSign::Multiplicative => num * (amount as u128),
    }
}

/// The parts both orderings share: the base numerator and denominator, the
/// full denominator, and the dice count factor, each with its range.
fn base_parts(input: &CalculationInput, variant: Variant) -> (p: (u128, u64, u64, u128))
    requires
        input.wf(),
    ensures
        p.0 == base_num(variant, *input),
        p.1 == base_den(variant, *input),
        p.2 == eval_den(variant, *input),
        p.3 == dice_count_factor(*input),
        p.0 <= 39600,
        1 <= p.1 <= 4,
        1 <= p.2 <= 400,
        p.3 < 0x100000000,
{
    let level_num: u128 = match variant {
        Variant::BonusesThenDice => input.level as u128,
        Variant::DiceThenBonuses => if input.level == 0 {
            1
        } else {
            input.level as u128
        },
    };
    let level_den: u64 = match variant {
        Variant::BonusesThenDice => 1,
        Variant::DiceThenBonuses => if input.level == 0 {
            2
        } else {
            1
        },
    };
    let verbal_factor: u128 = if input.verbal { 20 } else { 1 };
    let somatic_factor: u128 = if input.somatic { 30 } else { 1 };
    let action_num: u128 = match input.action_kind {
        ActionKind::Action => 6,
        ActionKind::BonusAction => 2,
        ActionKind::Reaction => 1,
    };
    let action_den: u64 = match input.action_kind {
        ActionKind::Action => 1,
        ActionKind::BonusAction => 1,
        ActionKind::Reaction => 2,
    };
    proof {
        assert(verbal_factor * somatic_factor <= 600) by (nonlinear_arith)
            requires
                verbal_factor <= 20,
                somatic_factor <= 30;
        assert(verbal_factor * somatic_factor * action_num <= 3600) by (nonlinear_arith)
            requires
                verbal_factor * somatic_factor <= 600,
                action_num <= 6;
    }
    let fixed: u128 = verbal_factor * somatic_factor * action_num;
    proof {
        assert(level_num * fixed <= 39600) by (nonlinear_arith)
            requires
                level_num <= 11,
                fixed <= 3600;
        assert(1 <= level_den * action_den <= 4) by (nonlinear_arith)
            requires
                1 <= level_den <= 2,
                1 <= action_den <= 2;
    }
    let base_n: u128 = level_num * fixed;
    let base_d: u64 = level_den * action_den;
    let face: u64 = match input.dice_kind {
        DiceKind::NoDice => 1,
        DiceKind::D4 => 4,
        DiceKind::D6 => 6,
        DiceKind::D8 => 8,
        DiceKind::D10 => 10,
        DiceKind::D12 => 12,
        DiceKind::D20 => 20,
        DiceKind::D100 => 100,
    };
    let count_factor: u128 = match input.dice_kind {
        DiceKind::NoDice => 1,
        _ => input.dice_count as u128,
    };
    proof {
        assert(1 <= base_d * face <= 400) by (nonlinear_arith)
            requires
                1 <= base_d <= 4,
                1 <= face <= 100;
    }
    let full_d: u64 = base_d * face;
    (base_n, base_d, full_d, count_factor)
}

/// Finish the bonuses-then-dice ordering: both adjustments over the base
/// denominator, then the dice factor.
fn finish_bonuses_then_dice(
    input: &CalculationInput,
    base_n: u128,
    base_d: u64,
    full_d: u64,
    count_factor: u128,
) -> (r: EnergyCost)
    requires
        base_n == base_num(Variant::BonusesThenDice, *input),
        base_d == base_den(Variant::BonusesThenDice, *input),
        full_d == eval_den(Variant::BonusesThenDice, *input),
        count_factor == dice_count_factor(*input),
        base_n <= 39600,
        1 <= base_d <= 4,
        1 <= full_d,
        count_factor < 0x100000000,
    ensures
        r.num == eval_num(Variant::BonusesThenDice, *input),
        r.den == eval_den(Variant::BonusesThenDice, *input),
        r.wf(),
{
    proof {
        assert(base_n + input.material_amount * base_d <= u128::MAX && base_n
            * input.material_amount <= u128::MAX) by (nonlinear_arith)
            requires
                base_n <= 39600,
                base_d <= 4,
                input.material_amount < 0x100000000;
    }
    let n1: u128 = apply_bonus(base_n, base_d, input.material_amount, input.material_sign);
    proof {
        assert(n1 < 0x1000000000000u128) by (nonlinear_arith)
            requires
                n1 == base_n + input.material_amount * base_d || n1 == base_n
                    * input.material_amount,
                base_n <= 39600,
                base_d <= 4,
                input.material_amount < 0x100000000;
        assert(n1 + input.bonus_amount * base_d <= u128::MAX && n1 * input.bonus_amount
            <= u128::MAX) by (nonlinear_arith)
            requires
                n1 < 0x1000000000000u128,
                base_d <= 4,
                input.bonus_amount < 0x100000000;
    }
    let n2: u128 = apply_bonus(n1, base_d, input.bonus_amount, input.bonus_sign);
    proof {
        assert(n2 < 0x200000000000000000000u128) by (nonlinear_arith)
            requires
                n2 == n1 + input.bonus_amount * base_d || n2 == n1 * input.bonus_amount,
                n1 < 0x1000000000000u128,
                base_d <= 4,
                input.bonus_amount < 0x100000000;
        assert(n2 * count_factor <= u128::MAX) by (nonlinear_arith)
            requires
                n2 < 0x200000000000000000000u128,
                count_factor < 0x100000000;
    }
    let num: u128 = n2 * count_factor;
    EnergyCost { num, den: full_d }
}

/// Finish the dice-then-bonuses ordering: the dice factor first, then both
/// adjustments over the full denominator.
fn finish_dice_then_bonuses(
    input: &CalculationInput,
    base_n: u128,
    full_d: u64,
    count_factor: u128,
) -> (r: EnergyCost)
    requires
        base_n == base_num(Variant::DiceThenBonuses, *input),
        full_d == eval_den(Variant::DiceThenBonuses, *input),
        count_factor == dice_count_factor(*input),
        base_n <= 39600,
        1 <= full_d <= 400,
        count_factor < 0x100000000,
    ensures
        r.num == eval_num(Variant::DiceThenBonuses, *input),
        r.den == eval_den(Variant::DiceThenBonuses, *input),
        r.wf(),
{
    proof {
        assert(base_n * count_factor < 0x1000000000000u128) by (nonlinear_arith)
            requires
                base_n <= 39600,
                count_factor < 0x100000000;
    }
    let n0: u128 = base_n * count_factor;
    proof {
        assert(n0 + input.material_amount * full_d <= u128::MAX && n0 * input.material_amount
            <= u128::MAX) by (nonlinear_arith)
            requires
                n0 < 0x1000000000000u128,
                full_d <= 400,
                input.material_amount < 0x100000000;
    }
    let n1: u128 = apply_bonus(n0, full_d, input.material_amount, input.material_sign);
    proof {
        assert(n1 < 0x200000000000000000000u128) by (nonlinear_arith)
            requires
                n1 == n0 + input.material_amount * full_d || n1 == n0 * input.material_amount,
                n0 < 0x1000000000000u128,
                full_d <= 400,
                input.material_amount < 0x100000000;
        assert(n1 + input.bonus_amount * full_d <= u128::MAX && n1 * input.bonus_amount
            <= u128::MAX) by (nonlinear_arith)
            requires
                n1 < 0x200000000000000000000u128,
                full_d <= 400,
                input.bonus_amount < 0x100000000;
    }
    let n2: u128 = apply_bonus(n1, full_d, input.bonus_amount, input.bonus_sign);
    EnergyCost { num: n2, den: full_d }
}

/// Map an input record to its energy cost, exactly, under the chosen
/// ordering.  A pure function: no side effects and no failure mode, since
/// every denominator is positive by construction.
pub fn evaluate(input: &CalculationInput, variant: Variant) -> (r: EnergyCost)
    requires
        input.wf(),
    ensures
        r.num == eval_num(variant, *input),
        r.den == eval_den(variant, *input),
        r.wf(),
{
    let p: (u128, u64, u64, u128) = base_parts(input, variant);
    match variant {
        Variant::BonusesThenDice => finish_bonuses_then_dice(input, p.0, p.1, p.2, p.3),
        Variant::DiceThenBonuses => finish_dice_then_bonuses(input, p.0, p.2, p.3),
    }
}

} // verus!
