use vstd::prelude::*;
use crate::dragon::{BattleDragon, StatStages, add_stage, stage_sum};
use crate::moves::MoveStats;

verus! {

/// The user's stages, the move's parameters and the opponent's stages, as they
/// pass through the offending and defending hooks.
pub type MoveStages = (StatStages, MoveStats, StatStages);

/// Raises (or lowers) the attack stage while attached.
#[derive(Clone, Copy, PartialEq, Eq, Structural, Debug)]
pub struct AttackStageModifier(pub i8);

impl AttackStageModifier {
    pub fn new(amount: i8) -> (r: Self)
        ensures
            r.0 == amount,
    {
        Self(amount)
    }
}

/// Raises (or lowers) the defense stage while attached.
#[derive(Clone, Copy, PartialEq, Eq, Structural, Debug)]
pub struct DefenseStageModifier(pub i8);

impl DefenseStageModifier {
    pub fn new(amount: i8) -> (r: Self)
        ensures
            r.0 == amount,
    {
        Self(amount)
    }
}

/// Sets the combatant's hit points once when attached (never above its
/// maximum), then removes itself.
#[derive(Clone, Copy, PartialEq, Eq, Structural, Debug)]
pub struct OneshotEffect {
    pub hp: u32,
}

impl OneshotEffect {
    pub fn new(hp: u32) -> (r: Self)
        ensures
            r.hp == hp,
    {
        Self { hp }
    }
}

/// An effect that needs no countdown of its own.
#[derive(Clone, Copy, PartialEq, Eq, Structural, Debug)]
pub enum BasicEffect {
    AttackStage(AttackStageModifier),
    DefenseStage(DefenseStageModifier),
    Oneshot(OneshotEffect),
    /// The combatant cannot use moves.
    Flinch,
    /// Moves against the combatant fail.
    Protect,
    /// The combatant cannot be switched out.
    SwitchLock,
}

/// Stays attached for `lifespan` turns: on the tick that counts its last turn
/// it detaches and queues `follow_up`, if any.
#[derive(Clone, Copy, PartialEq, Eq, Structural, Debug)]
pub struct ExpiringEffect {
    pub lifespan: u16,
    pub follow_up: Option<BasicEffect>,
}

impl ExpiringEffect {
    pub fn new(lifespan: u16, follow_up: Option<BasicEffect>) -> (r: Self)
        ensures
            r == (ExpiringEffect { lifespan, follow_up }),
    {
        Self { lifespan, follow_up }
    }
}

/// A long-term effect attached to a combatant.
#[derive(Clone, Copy, PartialEq, Eq, Structural, Debug)]
pub enum LongTermEffect {
    Basic(BasicEffect),
    Expiring(ExpiringEffect),
}

/// The hooks every long-term effect answers. An effect that has nothing to do
/// in a hook hands its input back unchanged (or allows the action).
pub trait LongTermEffectTrait {
    /// A lowercase name for the kind of effect.
    fn get_name(&self) -> &str;

    /// Called when the effect is first added to a combatant; returns whether
    /// it stays attached, and the combatant as the effect leaves it.
    fn apply(&self, dragon: BattleDragon) -> (bool, BattleDragon);

    /// Called once per turn with the turn count since attachment; returns
    /// whether the effect stays attached and the effects it queues.
    fn turn(&self, turn: u16) -> (bool, Vec<LongTermEffect>);

    /// Called when stat stages are being calculated.
    fn stat_calculation(&self, stages: StatStages) -> StatStages;

    /// Called when the owner attacks; `None` cancels the move.
    fn offending(
        &self,
        stages: StatStages,
        move_stats: MoveStats,
        opponent_stages: StatStages,
    ) -> Option<MoveStages>;

    /// Called when the owner is attacked; `None` cancels the move.
    fn defending(
        &self,
        stages: StatStages,
        move_stats: MoveStats,
        opponent_stages: StatStages,
    ) -> Option<MoveStages>;

    /// Called when the owner is about to be switched out; `false` forbids it.
    fn switching(&self) -> bool;
}

/// The lowercase name of the effect's kind.
pub open spec fn effect_name(e: LongTermEffect) -> Seq<char> {
    match e {
        LongTermEffect::Basic(BasicEffect::AttackStage(_)) => "attack_modifier"@,
        LongTermEffect::Basic(BasicEffect::DefenseStage(_)) => "defense_modifier"@,
        LongTermEffect::Basic(BasicEffect::Oneshot(_)) => "oneshot"@,
        LongTermEffect::Basic(BasicEffect::Flinch) => "flinch"@,
        LongTermEffect::Basic(BasicEffect::Protect) => "protect"@,
        LongTermEffect::Basic(BasicEffect::SwitchLock) => "switch_lock"@,
        LongTermEffect::Expiring(_) => "expiring"@,
    }
}

/// Whether the effect stays attached after it is first applied.
pub open spec fn effect_stays_on_apply(e: LongTermEffect) -> bool {
    !(e matches LongTermEffect::Basic(BasicEffect::Oneshot(_)))
}

/// The combatant's hit points after the effect is first applied.
pub open spec fn effect_applied_hp(e: LongTermEffect, dragon: BattleDragon) -> u32 {
    match e {
        LongTermEffect::Basic(BasicEffect::Oneshot(o)) => if o.hp > dragon.max_hp() {
            dragon.max_hp() as u32
        } else {
            o.hp
        },
        _ => dragon.hp,
    }
}

/// The combatant as the effect leaves it when first applied.
pub open spec fn effect_applied(e: LongTermEffect, dragon: BattleDragon) -> BattleDragon {
    BattleDragon { hp: effect_applied_hp(e, dragon), ..dragon }
}

/// Whether the effect stays attached on the tick that counts `turn` turns.
pub open spec fn effect_stays_on_tick(e: LongTermEffect, turn: u16) -> bool {
    match e {
        LongTermEffect::Expiring(x) => turn < x.lifespan,
        _ => true,
    }
}

/// The effects queued by the tick that counts `turn` turns.
pub open spec fn effect_queued(e: LongTermEffect, turn: u16) -> Seq<LongTermEffect> {
    match e {
        LongTermEffect::Expiring(x) => if turn < x.lifespan {
            Seq::empty()
        } else {
            match x.follow_up {
                Some(b) => seq![LongTermEffect::Basic(b)],
                None => Seq::empty(),
            }
        },
        _ => Seq::empty(),
    }
}

/// The stages after the effect's stat-calculation hook.
pub open spec fn effect_stages(e: LongTermEffect, s: StatStages) -> StatStages {
    match e {
        LongTermEffect::Basic(BasicEffect::AttackStage(m)) => StatStages {
            attack: stage_sum(s.attack, m.0),
            ..s
        },
        LongTermEffect::Basic(BasicEffect::DefenseStage(m)) => StatStages {
            defense: stage_sum(s.defense, m.0),
            ..s
        },
        _ => s,
    }
}

/// The offending hook: `None` when the effect cancels the move.
pub open spec fn effect_offending(e: LongTermEffect, t: MoveStages) -> Option<MoveStages> {
    match e {
        LongTermEffect::Basic(BasicEffect::Flinch) => None,
        _ => Some(t),
    }
}

/// The defending hook: `None` when the effect cancels the move.
pub open spec fn effect_defending(e: LongTermEffect, t: MoveStages) -> Option<MoveStages> {
    match e {
        LongTermEffect::Basic(BasicEffect::Protect) => None,
        _ => Some(t),
    }
}

/// The switching hook: whether the effect allows its owner to be switched out.
pub open spec fn effect_allows_switch(e: LongTermEffect) -> bool {
    !(e matches LongTermEffect::Basic(BasicEffect::SwitchLock))
}

impl LongTermEffectTrait for LongTermEffect {
    fn get_name(&self) -> (r: &str)
        ensures
            r@ == effect_name(*self),
    {
        match self {
            LongTermEffect::Basic(BasicEffect::AttackStage(_)) => "attack_modifier",
            LongTermEffect::Basic(BasicEffect::DefenseStage(_)) => "defense_modifier",
            LongTermEffect::Basic(BasicEffect::Oneshot(_)) => "oneshot",
            LongTermEffect::Basic(BasicEffect::Flinch) => "flinch",
            LongTermEffect::Basic(BasicEffect::Protect) => "protect",
            LongTermEffect::Basic(BasicEffect::SwitchLock) => "switch_lock",
            LongTermEffect::Expiring(_) => "expiring",
        }
    }

    fn apply(&self, dragon: BattleDragon) -> (r: (bool, BattleDragon))
        ensures
            r.0 == effect_stays_on_apply(*self),
            r.1 == effect_applied(*self, dragon),
    {
        match self {
            LongTermEffect::Basic(BasicEffect::Oneshot(o)) => {
                let max: u64 = dragon.base_stats.hp as u64 + crate::dragon::HP_BONUS as u64;
                let hp = if o.hp as u64 > max {
                    max as u32
                } else {
                    o.hp
                };
                (false, BattleDragon { hp, ..dragon })
            },
            _ => (true, dragon),
        }
    }

    fn turn(&self, turn: u16) -> (r: (bool, Vec<LongTermEffect>))
        ensures
            r.0 == effect_stays_on_tick(*self, turn),
            r.1@ == effect_queued(*self, turn),
    {
        match self {
            LongTermEffect::Expiring(x) => {
                if turn < x.lifespan {
                    (true, Vec::new())
                } else {
                    let mut queued = Vec::new();
                    match x.follow_up {
                        Some(b) => queued.push(LongTermEffect::Basic(b)),
                        None => {},
                    }
                    proof {
                        assert(queued@ =~= effect_queued(*self, turn));
                    }
                    (false, queued)
                }
            },
            _ => (true, Vec::new()),
        }
    }

    fn stat_calculation(&self, stages: StatStages) -> (r: StatStages)
        ensures
            r == effect_stages(*self, stages),
    {
        match self {
            LongTermEffect::Basic(BasicEffect::AttackStage(m)) => StatStages {
                attack: add_stage(stages.attack, m.0),
                ..stages
            },
            LongTermEffect::Basic(BasicEffect::DefenseStage(m)) => StatStages {
                defense: add_stage(stages.defense, m.0),
                ..stages
            },
            _ => stages,
        }
    }

    fn offending(
        &self,
        stages: StatStages,
        move_stats: MoveStats,
        opponent_stages: StatStages,
    ) -> (r: Option<MoveStages>)
        ensures
            r == effect_offending(*self, (stages, move_stats, opponent_stages)),
    {
        match self {
            LongTermEffect::Basic(BasicEffect::Flinch) => None,
            _ => Some((stages, move_stats, opponent_stages)),
        }
    }

    fn defending(
        &self,
        stages: StatStages,
        move_stats: MoveStats,
        opponent_stages: StatStages,
    ) -> (r: Option<MoveStages>)
        ensures
            r == effect_defending(*self, (stages, move_stats, opponent_stages)),
    {
        match self {
            LongTermEffect::Basic(BasicEffect::Protect) => None,
            _ => Some((stages, move_stats, opponent_stages)),
        }
    }

    fn switching(&self) -> (r: bool)
        ensures
            r == effect_allows_switch(*self),
    {
        match self {
            LongTermEffect::Basic(BasicEffect::SwitchLock) => false,
            _ => true,
        }
    }
}

} // verus!
