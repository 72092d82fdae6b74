use vstd::prelude::*;

verus! {

/// Highest spell level the form accepts; the level control clamps to it.
pub const LEVEL_MAX: u32 = 11;

/// Categorical selector determining a fixed result multiplier.
#[derive(Clone, Copy, Debug, PartialEq, Eq, Structural)]
pub enum ActionKind {
    Action,
    BonusAction,
    Reaction,
}

/// How a numeric adjustment is combined into the running result.
#[derive(Clone, Copy, Debug, PartialEq, Eq, Structural)]
pub enum BonusSign {
    Additive,
    Multiplicative,
}

/// Die-size selector whose face count divides the result.
///
/// `NoDice` is the neutral case: it contributes a factor of one, whatever the
/// dice count shows.
#[derive(Clone, Copy, Debug, PartialEq, Eq, Structural)]
pub enum DiceKind {
    NoDice,
    D4,
    D6,
    D8,
    D10,
    D12,
    D20,
    D100,
}

/// The two observed orderings of the formula, exposed as an explicit policy so
/// an integrator can pick one.
#[derive(Clone, Copy, Debug, PartialEq, Eq, Structural)]
pub enum Variant {
    /// Both adjustments are applied before the dice term, and the level
    /// multiplies the result directly, so a level of zero zeroes it.
    BonusesThenDice,
    /// The dice term is applied before the adjustments, and a level of zero
    /// counts as one half.
    DiceThenBonuses,
}

/// The record of the seven user-controlled parameters the formula reads.
#[derive(Clone, Copy, Debug, PartialEq, Eq, Structural)]
pub struct CalculationInput {
    pub level: u32,
    pub action_kind: ActionKind,
    pub verbal: bool,
    pub somatic: bool,
    pub material_amount: u32,
    pub material_sign: BonusSign,
    pub bonus_amount: u32,
    pub bonus_sign: BonusSign,
    pub dice_count: u32,
    pub dice_kind: DiceKind,
}

impl CalculationInput {
    /// The level stays within the range the level control enforces.
    pub open spec fn wf(self) -> bool {
        self.level <= LEVEL_MAX
    }

    /// The state the application starts from.
    pub open spec fn initial() -> CalculationInput {
        CalculationInput {
            level: 1,
            action_kind: ActionKind::Action,
            verbal: true,
            somatic: true,
            material_amount: 1,
            material_sign: BonusSign::Multiplicative,
            bonus_amount: 1,
            bonus_sign: BonusSign::Multiplicative,
            dice_count: 0,
            dice_kind: DiceKind::NoDice,
        }
    }

    /// Store a level chosen in the UI, clamped into range; no other field moves.
    pub fn set_level(&mut self, value: u32)
        ensures
            *final(self) == (CalculationInput {
                level: if value <= LEVEL_MAX { value } else { LEVEL_MAX },
                ..*old(self)
            }),
            final(self).wf(),
    {
        self.level = if value <= LEVEL_MAX { value } else { LEVEL_MAX };
    }
}

impl Default for CalculationInput {
    /// The fixed defaults: first level, full action, both spoken components,
    /// neutral multiplicative adjustments, and no dice.
    fn default() -> (d: Self)
        ensures
            d == CalculationInput::initial(),
            d.wf(),
    {
        CalculationInput {
            level: 1,
            action_kind: ActionKind::Action,
            verbal: true,
            somatic: true,
            material_amount: 1,
            material_sign: BonusSign::Multiplicative,
            bonus_amount: 1,
            bonus_sign: BonusSign::Multiplicative,
            dice_count: 0,
            dice_kind: DiceKind::NoDice,
        }
    }
}

} // verus!
