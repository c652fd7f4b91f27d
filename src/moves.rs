use vstd::prelude::*;
use rand::Rng;
use crate::dragon::{
    StatStages,
    Stats,
    apply_stat_stage,
    stage_diff,
    staged,
    staged_stats,
    sub_stage,
    zero_stages,
};
use crate::effect::MoveStages;
use crate::events::MoveEvent;
use crate::party::{
    Chain,
    PartyItem,
    RelativePartyId,
    chain_defend,
    chain_offend,
    chain_stages,
    hp_after_damage,
    merge_reply,
};

verus! {

/// Number of faces of the die rolled for critical hits.
pub const CRIT_ROLL_SIDES: u32 = 24;

/// Odds against a critical hit at rank 0: one in 24.
pub const CRIT_ODDS_RANK_0: u32 = 24;

/// Odds against a critical hit at rank 1: one in 8.
pub const CRIT_ODDS_RANK_1: u32 = 8;

/// Odds against a critical hit at rank 2: one in 2.
pub const CRIT_ODDS_RANK_2: u32 = 2;

/// Odds against a critical hit at rank 3 and above: every hit is critical.
pub const CRIT_ODDS_RANK_3: u32 = 1;

/// Number of faces of the die rolled for accuracy (a percentage).
pub const ACCURACY_ROLL_SIDES: u32 = 100;

/// Parameters of one move invocation. Effects may change them before the
/// damage is computed.
#[derive(Clone, Copy, PartialEq, Eq, Structural, Debug)]
pub struct MoveStats {
    /// Chance to hit, in percent.
    pub accuracy: u32,
    pub base_power: u32,
    /// Critical-hit rank; ranks from 3 up always land a critical hit.
    pub crit_calc: u8,
}

impl MoveStats {
    pub fn new(base_power: u32, accuracy: u32) -> (r: Self)
        ensures
            r == (MoveStats { accuracy, base_power, crit_calc: 0 }),
    {
        Self { accuracy, base_power, crit_calc: 0 }
    }
}

/// Caps a mathematical integer at `u32::MAX`.
pub open spec fn cap_u32(v: int) -> u32 {
    if v > u32::MAX {
        u32::MAX
    } else {
        v as u32
    }
}

/// `22 * attack * power / defense / 50 + 2`, with floor division taken left to
/// right, capped at `u32::MAX`.
pub open spec fn static_damage(attack: u32, defense: u32, power: u32) -> u32
    recommends
        defense > 0,
{
    cap_u32(22 * attack * power / (defense as int) / 50 + 2)
}

/// The odds against a critical hit at `rank`: one in `CRIT_ODDS_RANK_0` to
/// `CRIT_ODDS_RANK_3` for ranks 0, 1, 2 and 3 or more.
pub open spec fn crit_odds(rank: u8) -> u32 {
    if rank == 0 {
        CRIT_ODDS_RANK_0
    } else if rank == 1 {
        CRIT_ODDS_RANK_1
    } else if rank == 2 {
        CRIT_ODDS_RANK_2
    } else {
        CRIT_ODDS_RANK_3
    }
}

/// A roll of the critical-hit die lands a critical hit at `rank` when it falls
/// among the lowest `CRIT_ROLL_SIDES / crit_odds(rank)` faces.
pub open spec fn is_critical(rank: u8, roll: u32) -> bool {
    roll * crit_odds(rank) < CRIT_ROLL_SIDES
}

/// The odds table divides the critical-hit die evenly: at every rank exactly
/// the lowest `CRIT_ROLL_SIDES / crit_odds(rank)` faces land a critical hit,
/// one face in `crit_odds(rank)`.
pub proof fn lemma_critical_faces(rank: u8, roll: u32)
    ensures
        CRIT_ROLL_SIDES % crit_odds(rank) == 0,
        is_critical(rank, roll) <==> roll < CRIT_ROLL_SIDES / crit_odds(rank),
{
    let odds = crit_odds(rank) as int;
    let r = roll as int;
    assert(odds == 24 || odds == 8 || odds == 2 || odds == 1);
    assert(24int % odds == 0);
    assert(r * odds < 24 <==> r < 24int / odds) by (nonlinear_arith)
        requires
            odds == 24 || odds == 8 || odds == 2 || odds == 1,
            r >= 0,
    ;
}

/// Damage raised by half for a critical hit, capped at `u32::MAX`.
pub open spec fn critical_damage(damage: u32) -> u32 {
    cap_u32(damage + damage / 2)
}

/// Static damage, raised by half when the roll lands a critical hit.
pub open spec fn rolled_damage(attack: u32, defense: u32, power: u32, rank: u8, roll: u32) -> u32
    recommends
        defense > 0,
{
    if is_critical(rank, roll) {
        critical_damage(static_damage(attack, defense, power))
    } else {
        static_damage(attack, defense, power)
    }
}

pub fn calculate_static_damage(user_attack: u32, opponent_defense: u32, base_power: u32) -> (r: u32)
    requires
        opponent_defense > 0,
    ensures
        r == static_damage(user_attack, opponent_defense, base_power),
{
    let a = user_attack as u128;
    let p = base_power as u128;
    assert(22 * a * p <= 22 * (u32::MAX as u128) * (u32::MAX as u128)) by (nonlinear_arith)
        requires
            a <= u32::MAX,
            p <= u32::MAX,
    ;
    let v: u128 = 22 * a * p / opponent_defense as u128 / 50 + 2;
    if v > u32::MAX as u128 {
        u32::MAX
    } else {
        v as u32
    }
}

/// The odds against a critical hit at `rank`.
pub fn critical_odds(rank: u8) -> (r: u32)
    ensures
        r == crit_odds(rank),
{
    if rank == 0 {
        CRIT_ODDS_RANK_0
    } else if rank == 1 {
        CRIT_ODDS_RANK_1
    } else if rank == 2 {
        CRIT_ODDS_RANK_2
    } else {
        CRIT_ODDS_RANK_3
    }
}

/// Whether a roll of the critical-hit die lands a critical hit at `rank`.
pub fn critical_hit(rank: u8, roll: u32) -> (r: bool)
    ensures
        r == is_critical(rank, roll),
{
    let odds = critical_odds(rank) as u64;
    assert(roll as u64 * odds <= u32::MAX as u64 * 24) by (nonlinear_arith)
        requires
            odds <= 24,
    ;
    (roll as u64) * odds < CRIT_ROLL_SIDES as u64
}

/// Damage computed from the stats and a given roll of the critical-hit die.
pub fn calculate_rolled_damage(
    user_attack: u32,
    opponent_defense: u32,
    base_power: u32,
    crit: u8,
    crit_roll: u32,
) -> (r: u32)
    requires
        opponent_defense > 0,
    ensures
        r == rolled_damage(user_attack, opponent_defense, base_power, crit, crit_roll),
{
    let base_damage = calculate_static_damage(user_attack, opponent_defense, base_power);
    if critical_hit(crit, crit_roll) {
        let raised: u64 = base_damage as u64 + base_damage as u64 / 2;
        if raised > u32::MAX as u64 {
            u32::MAX
        } else {
            raised as u32
        }
    } else {
        base_damage
    }
}

/// Relies on `rand::Rng::gen_range` on the thread-local generator: a draw from
/// `0..bound`, which panics only when the range is empty.
#[verifier::external_body]
fn roll_below(bound: u32) -> (r: u32)
    requires
        bound > 0,
    ensures
        r < bound,
{
    rand::thread_rng().gen_range(0..bound)
}

/// Rolls the critical-hit die.
pub fn roll_critical() -> (r: u32)
    ensures
        r < CRIT_ROLL_SIDES,
{
    roll_below(CRIT_ROLL_SIDES)
}

/// Rolls the accuracy die: a percentage in `0..100`.
pub fn roll_accuracy() -> (r: u32)
    ensures
        r < ACCURACY_ROLL_SIDES,
{
    roll_below(ACCURACY_ROLL_SIDES)
}

/// Damage with a freshly rolled critical hit: one in `crit_odds(crit)` rolls
/// raises the static damage by half.
pub fn calculate_random_damage(
    user_attack: u32,
    opponent_defense: u32,
    base_power: u32,
    crit: u8,
) -> (r: u32)
    requires
        opponent_defense > 0,
    ensures
        exists|roll: u32|
            roll < CRIT_ROLL_SIDES && r == rolled_damage(
                user_attack,
                opponent_defense,
                base_power,
                crit,
                roll,
            ),
{
    let roll = roll_critical();
    calculate_rolled_damage(user_attack, opponent_defense, base_power, crit, roll)
}

} // verus!

verus! {

/// How a move ended.
pub enum MoveResult {
    Succeeded(Option<MoveEvent>),
    /// An effect cancelled the move.
    Failed,
    /// The accuracy roll failed.
    Missed,
}

/// The offend/defend transaction between a user with effect chain `user` and
/// an opponent with chain `opponent`: the user's offending fold, then the
/// opponent's defending fold on its result, merged. `None` if either cancels.
pub open spec fn transaction(user: Chain, opponent: Chain, move_stats: MoveStats) -> Option<
    MoveStages,
> {
    match chain_offend(user, (chain_stages(user), move_stats, chain_stages(opponent))) {
        Some(t) => merge_reply(t.2, chain_defend(opponent, (zero_stages(), t.1, t.0))),
        None => None,
    }
}

/// The chance to hit, in percent, after the transaction: the move's accuracy
/// scaled by the user's accuracy stage less the opponent's evasion stage.
pub open spec fn effective_accuracy(t: MoveStages) -> u32 {
    staged(t.1.accuracy, stage_diff(t.0.accuracy, t.2.evasion))
}

/// A defense that stages bring down to zero counts as one.
pub open spec fn nonzero_defense(defense: u32) -> u32 {
    if defense == 0 {
        1
    } else {
        defense
    }
}

/// The damage dealt after the transaction `t`, given the base stats of both
/// sides and the critical-hit roll.
pub open spec fn transaction_damage(user: Stats, opponent: Stats, t: MoveStages, crit_roll: u32) -> u32 {
    rolled_damage(
        staged_stats(user, t.0).attack,
        nonzero_defense(staged_stats(opponent, t.2).defense),
        t.1.base_power,
        t.1.crit_calc,
        crit_roll,
    )
}

/// A move that only deals damage.
pub struct SimpleDamagingMove {
    pub(crate) base_power: u32,
    pub(crate) crit_boost: u8,
    pub(crate) name: String,
}

impl SimpleDamagingMove {
    /// The parameters the move starts its resolution with: always accurate,
    /// with the move's power and critical-hit rank.
    pub closed spec fn stats_spec(&self) -> MoveStats {
        MoveStats { accuracy: 100, base_power: self.base_power, crit_calc: self.crit_boost }
    }

    /// The move's display name.
    pub closed spec fn name_spec(&self) -> Seq<char> {
        self.name@
    }

    pub fn new(name: String, base_power: u32) -> (r: Self)
        ensures
            r.stats_spec() == (MoveStats { accuracy: 100, base_power, crit_calc: 0 }),
            r.name_spec() == name@,
    {
        Self { base_power, crit_boost: 0, name }
    }

    pub fn new_crit(name: String, base_power: u32, crit_boost: u8) -> (r: Self)
        ensures
            r.stats_spec() == (MoveStats { accuracy: 100, base_power, crit_calc: crit_boost }),
            r.name_spec() == name@,
    {
        Self { base_power, crit_boost, name }
    }

    pub fn get_name(&self) -> (r: &str)
        ensures
            r@ == self.name_spec(),
    {
        self.name.as_str()
    }

    pub fn move_stats(&self) -> (r: MoveStats)
        ensures
            r == self.stats_spec(),
    {
        MoveStats { accuracy: 100, base_power: self.base_power, crit_calc: self.crit_boost }
    }

    /// Resolves the move from `user` against `opponent` with the given rolls of
    /// the accuracy die and the critical-hit die: the transaction, then the
    /// accuracy check (`accuracy_roll` at or above the effective accuracy
    /// misses), then the damage, which is applied to the opponent.
    pub fn attack_opponent(
        &self,
        opponent: &mut PartyItem,
        user: &PartyItem,
        accuracy_roll: u32,
        crit_roll: u32,
    ) -> (r: MoveResult)
        ensures
            ({
                match transaction(user.chain(), old(opponent).chain(), self.stats_spec()) {
                    None => r == MoveResult::Failed && *final(opponent) == *old(opponent),
                    Some(t) => if accuracy_roll >= effective_accuracy(t) {
                        r == MoveResult::Missed && *final(opponent) == *old(opponent)
                    } else {
                        let amount = transaction_damage(
                            user.combatant().base_stats,
                            old(opponent).combatant().base_stats,
                            t,
                            crit_roll,
                        );
                        &&& r == MoveResult::Succeeded(
                            Some(
                                MoveEvent::Damaged {
                                    rel_party_id: RelativePartyId::Opposing,
                                    damage_amount: amount,
                                },
                            ),
                        )
                        &&& final(opponent).chain() == old(opponent).chain()
                        &&& final(opponent).combatant().base_stats == old(
                            opponent,
                        ).combatant().base_stats
                        &&& final(opponent).combatant().hp == hp_after_damage(
                            old(opponent).combatant().hp,
                            amount,
                        )
                    },
                }
            }),
    {
        let move_stats = self.move_stats();
        let target: &PartyItem = &*opponent;
        let defend = |m: MoveStats, o: StatStages| -> (reply: Option<MoveStages>)
            ensures
                reply == chain_defend(target.chain(), (zero_stages(), m, o)),
            { target.defend(m, o) };
        let stats = user.offend(move_stats, target.calc_stages(), defend);
        let (user_stages, move_stats, opponent_stages) = match stats {
            None => return MoveResult::Failed,
            Some(s) => s,
        };
        let accuracy = apply_stat_stage(
            move_stats.accuracy,
            sub_stage(user_stages.accuracy, opponent_stages.evasion),
        );
        if accuracy_roll >= accuracy {
            return MoveResult::Missed;
        }
        let user_stats = user.dragon().stats().apply_stages(user_stages);
        let opponent_stats = opponent.dragon().stats().apply_stages(opponent_stages);
        let defense = if opponent_stats.defense == 0 {
            1
        } else {
            opponent_stats.defense
        };
        let final_damage = calculate_rolled_damage(
            user_stats.attack,
            defense,
            move_stats.base_power,
            move_stats.crit_calc,
            crit_roll,
        );
        opponent.damage(final_damage);
        MoveResult::Succeeded(
            Some(
                MoveEvent::Damaged {
                    rel_party_id: RelativePartyId::Opposing,
                    damage_amount: final_damage,
                },
            ),
        )
    }
}

} // verus!
