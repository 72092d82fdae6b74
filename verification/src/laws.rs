use vstd::prelude::*;

use crate::eval::{
    action_factor_den, action_factor_num, base_den, base_num, bonus_num, dice_count_factor,
    eval_den, eval_num, face_count, fixed_factors, level_factor_den, level_factor_num, EnergyCost,
};
use crate::input::{BonusSign, CalculationInput, DiceKind, Variant};

verus! {

/// Evaluation is total and bounded: for every well-formed input and either
/// ordering, the denominator is positive (so the cost is a finite number) and
/// the numerator fits the machine word the evaluator returns.
pub proof fn lemma_evaluation_total(v: Variant, i: CalculationInput)
    requires
        i.wf(),
    ensures
        1 <= eval_den(v, i) <= 400,
        0 <= eval_num(v, i),
        eval_num(v, i) < 0x40000000000000000000000000000,
{
    let lf = level_factor_num(v, i.level as int);
    let ld = level_factor_den(v, i.level as int);
    let ff = fixed_factors(i);
    let bn = base_num(v, i);
    let bd = base_den(v, i);
    let fc = face_count(i.dice_kind);
    let cf = dice_count_factor(i);
    let m = i.material_amount as int;
    let b = i.bonus_amount as int;
    assert(0 <= lf <= 11 && 1 <= ld <= 2);
    assert(1 <= ff <= 3600) by (nonlinear_arith)
        requires
            ff == (if i.verbal { 20int } else { 1int }) * (if i.somatic { 30int } else { 1int })
                * action_factor_num(i.action_kind),
            1 <= action_factor_num(i.action_kind) <= 6;
    assert(0 <= bn <= 39600) by (nonlinear_arith)
        requires
            bn == lf * ff,
            0 <= lf <= 11,
            1 <= ff <= 3600;
    assert(1 <= bd <= 4) by (nonlinear_arith)
        requires
            bd == ld * action_factor_den(i.action_kind),
            1 <= ld <= 2,
            1 <= action_factor_den(i.action_kind) <= 2;
    assert(1 <= eval_den(v, i) <= 400) by (nonlinear_arith)
        requires
            eval_den(v, i) == bd * fc,
            1 <= bd <= 4,
            1 <= fc <= 100;
    let ed = eval_den(v, i);
    match v {
        Variant::BonusesThenDice => {
            let n1 = bonus_num(bn, bd, m, i.material_sign);
            assert(0 <= n1 < 0x1000000000000) by (nonlinear_arith)
                requires
                    n1 == bn + m * bd || n1 == bn * m,
                    0 <= bn <= 39600,
                    1 <= bd <= 4,
                    0 <= m < 0x100000000;
            let n2 = bonus_num(n1, bd, b, i.bonus_sign);
            assert(0 <= n2 < 0x200000000000000000000) by (nonlinear_arith)
                requires
                    n2 == n1 + b * bd || n2 == n1 * b,
                    0 <= n1 < 0x1000000000000,
                    1 <= bd <= 4,
                    0 <= b < 0x100000000;
            assert(0 <= n2 * cf < 0x40000000000000000000000000000) by (nonlinear_arith)
                requires
                    0 <= n2 < 0x200000000000000000000,
                    0 <= cf < 0x100000000;
        },
        Variant::DiceThenBonuses => {
            let n0 = bn * cf;
            assert(0 <= n0 < 0x1000000000000) by (nonlinear_arith)
                requires
                    n0 == bn * cf,
                    0 <= bn <= 39600,
                    0 <= cf < 0x100000000;
            let n1 = bonus_num(n0, ed, m, i.material_sign);
            assert(0 <= n1 < 0x200000000000000000000) by (nonlinear_arith)
                requires
                    n1 == n0 + m * ed || n1 == n0 * m,
                    0 <= n0 < 0x1000000000000,
                    1 <= ed <= 400,
                    0 <= m < 0x100000000;
            let n2 = bonus_num(n1, ed, b, i.bonus_sign);
            assert(0 <= n2 < 0x40000000000000000000000000000) by (nonlinear_arith)
                requires
                    n2 == n1 + b * ed || n2 == n1 * b,
                    0 <= n1 < 0x200000000000000000000,
                    1 <= ed <= 400,
                    0 <= b < 0x100000000;
        },
    }
}

/// With no die chosen the dice term is neutral: the cost is the same whatever
/// the dice count shows, exactly as if the count were one and the die had a
/// single face.
pub proof fn lemma_no_dice_neutral(v: Variant, i: CalculationInput, j: CalculationInput)
    requires
        i.dice_kind == DiceKind::NoDice,
        j == (CalculationInput { dice_count: j.dice_count, ..i }),
    ensures
        dice_count_factor(i) == 1,
        face_count(i.dice_kind) == 1,
        eval_num(v, i) == eval_num(v, j),
        eval_den(v, i) == eval_den(v, j),
{
}

/// Under the bonuses-then-dice ordering the base term is linear in the level:
/// one more level adds exactly one level's worth, so the base scales in
/// proportion to the level and strictly grows with it.
pub proof fn lemma_base_linear_in_level(i: CalculationInput, j: CalculationInput)
    requires
        j == (CalculationInput { level: j.level, ..i }),
        j.level == i.level + 1,
    ensures
        base_num(Variant::BonusesThenDice, j) == base_num(Variant::BonusesThenDice, i)
            + fixed_factors(i),
        base_num(Variant::BonusesThenDice, j) * i.level == base_num(Variant::BonusesThenDice, i)
            * j.level,
        base_num(Variant::BonusesThenDice, j) > base_num(Variant::BonusesThenDice, i),
        base_den(Variant::BonusesThenDice, j) == base_den(Variant::BonusesThenDice, i),
{
    let ff = fixed_factors(i);
    assert(ff == fixed_factors(j));
    assert(1 <= ff) by (nonlinear_arith)
        requires
            ff == (if i.verbal { 20int } else { 1int }) * (if i.somatic { 30int } else { 1int })
                * action_factor_num(i.action_kind),
            1 <= action_factor_num(i.action_kind) <= 6;
    assert((i.level + 1) * ff == i.level * ff + ff) by (nonlinear_arith);
    assert(((i.level + 1) * ff) * i.level == (i.level * ff) * (i.level + 1)) by (nonlinear_arith);
}

/// For one adjustment step over a positive running value, switching the sign
/// from multiplicative to additive strictly lowers the outcome exactly when
/// the running value exceeds `amount / (amount - 1)`; the denominator does not
/// move, so the numerators compare directly.
pub proof fn lemma_sign_strictly_decreases(num: int, den: int, amount: int)
    requires
        den >= 1,
        amount >= 2,
        num * (amount - 1) > amount * den,
    ensures
        bonus_num(num, den, amount, BonusSign::Additive) < bonus_num(
            num,
            den,
            amount,
            BonusSign::Multiplicative,
        ),
{
    assert(num + amount * den < num * amount) by (nonlinear_arith)
        requires
            den >= 1,
            amount >= 2,
            num * (amount - 1) > amount * den;
}

/// The sign law lifted to the evaluator, for the bonuses-then-dice ordering:
/// switching the material adjustment from multiplicative to additive strictly
/// lowers the cost whenever the base exceeds `amount / (amount - 1)`, provided
/// the later factors do not zero the result (a zero multiplicative extra
/// adjustment or a zero dice count would make both costs zero instead).
pub proof fn lemma_material_sign_strictly_decreases(i: CalculationInput, j: CalculationInput)
    requires
        i.material_sign == BonusSign::Multiplicative,
        j == (CalculationInput { material_sign: BonusSign::Additive, ..i }),
        i.material_amount >= 2,
        base_num(Variant::BonusesThenDice, i) * (i.material_amount - 1) > i.material_amount
            * base_den(Variant::BonusesThenDice, i),
        i.bonus_amount >= 1,
        dice_count_factor(i) >= 1,
    ensures
        eval_den(Variant::BonusesThenDice, j) == eval_den(Variant::BonusesThenDice, i),
        eval_num(Variant::BonusesThenDice, j) < eval_num(Variant::BonusesThenDice, i),
{
    let v = Variant::BonusesThenDice;
    let bn = base_num(v, i);
    let bd = base_den(v, i);
    let m = i.material_amount as int;
    let b = i.bonus_amount as int;
    let cf = dice_count_factor(i);
    assert(bn == base_num(v, j) && bd == base_den(v, j) && cf == dice_count_factor(j));
    assert(bd == action_factor_den(i.action_kind));
    lemma_sign_strictly_decreases(bn, bd, m);
    let n1j = bonus_num(bn, bd, m, BonusSign::Additive);
    let n1i = bonus_num(bn, bd, m, BonusSign::Multiplicative);
    assert(n1j >= 0) by (nonlinear_arith)
        requires
            n1j == bn + m * bd,
            bn * (m - 1) > m * bd,
            m >= 2,
            bd >= 1;
    let n2j = bonus_num(n1j, bd, b, i.bonus_sign);
    let n2i = bonus_num(n1i, bd, b, i.bonus_sign);
    assert(0 <= n2j && n2j < n2i) by (nonlinear_arith)
        requires
            (n2j == n1j + b * bd && n2i == n1i + b * bd) || (n2j == n1j * b && n2i == n1i * b),
            0 <= n1j < n1i,
            b >= 1,
            bd >= 1;
    assert(n2j * cf < n2i * cf) by (nonlinear_arith)
        requires
            0 <= n2j < n2i,
            cf >= 1;
}

/// Evaluation is a function of the input alone: any two results that satisfy
/// the evaluator's contract for one input and ordering are identical, so
/// evaluating an unchanged input twice yields the same cost bit for bit.
pub proof fn lemma_evaluation_deterministic(
    v: Variant,
    i: CalculationInput,
    a: EnergyCost,
    b: EnergyCost,
)
    requires
        a.num == eval_num(v, i),
        a.den == eval_den(v, i),
        b.num == eval_num(v, i),
        b.den == eval_den(v, i),
    ensures
        a == b,
{
}

} // verus!
