use vstd::prelude::*;
use crate::dragon::{BattleDragon, StatStages, Stats, combine, staged_stats, zero_stages};
use crate::effect::{
    BasicEffect,
    ExpiringEffect,
    LongTermEffect,
    LongTermEffectTrait,
    MoveStages,
    effect_allows_switch,
    effect_applied,
    effect_defending,
    effect_offending,
    effect_queued,
    effect_stages,
    effect_stays_on_apply,
    effect_stays_on_tick,
};
use crate::moves::{MoveStats, calculate_static_damage, static_damage};

verus! {

/// An effect chain: (turns since attachment, effect) pairs in attachment order.
pub type Chain = Seq<(u16, LongTermEffect)>;

/// The stat-calculation hook folded left to right over the chain, from zero.
pub open spec fn chain_stages(c: Chain) -> StatStages
    decreases c.len(),
{
    if c.len() == 0 {
        zero_stages()
    } else {
        effect_stages(c.last().1, chain_stages(c.drop_last()))
    }
}

/// The offending hook folded left to right over the chain; the first
/// cancellation stops the fold.
pub open spec fn chain_offend(c: Chain, t: MoveStages) -> Option<MoveStages>
    decreases c.len(),
{
    if c.len() == 0 {
        Some(t)
    } else {
        match chain_offend(c.drop_last(), t) {
            Some(x) => effect_offending(c.last().1, x),
            None => None,
        }
    }
}

/// The defending hook folded left to right over the chain; the first
/// cancellation stops the fold.
pub open spec fn chain_defend(c: Chain, t: MoveStages) -> Option<MoveStages>
    decreases c.len(),
{
    if c.len() == 0 {
        Some(t)
    } else {
        match chain_defend(c.drop_last(), t) {
            Some(x) => effect_defending(c.last().1, x),
            None => None,
        }
    }
}

/// Every effect of the chain allows a switch.
pub open spec fn chain_allows_switch(c: Chain) -> bool {
    forall|i: int| 0 <= i < c.len() ==> effect_allows_switch(#[trigger] c[i].1)
}

/// A duration counter after one more turn; it stops at `u16::MAX`.
pub open spec fn next_count(d: u16) -> u16 {
    if d < u16::MAX {
        (d + 1) as u16
    } else {
        d
    }
}

/// The chain after every effect has ticked once: counters advanced, and the
/// effects that asked to detach removed.
pub open spec fn chain_ticked(c: Chain) -> Chain
    decreases c.len(),
{
    if c.len() == 0 {
        Seq::empty()
    } else {
        let prev = chain_ticked(c.drop_last());
        let (d, e) = c.last();
        if effect_stays_on_tick(e, next_count(d)) {
            prev.push((next_count(d), e))
        } else {
            prev
        }
    }
}

/// The effects queued by one tick of every effect of the chain, in order.
pub open spec fn chain_queued(c: Chain) -> Seq<LongTermEffect>
    decreases c.len(),
{
    if c.len() == 0 {
        Seq::empty()
    } else {
        let (d, e) = c.last();
        chain_queued(c.drop_last()) + effect_queued(e, next_count(d))
    }
}

/// Attaching `e`: it is applied to the combatant, and joins the end of the
/// chain with a zero counter if it stays.
pub open spec fn attach_one(dragon: BattleDragon, c: Chain, e: LongTermEffect) -> (
    BattleDragon,
    Chain,
) {
    (
        effect_applied(e, dragon),
        if effect_stays_on_apply(e) {
            c.push((0u16, e))
        } else {
            c
        },
    )
}

/// Attaching each effect of `q` in order.
pub open spec fn attach_all(dragon: BattleDragon, c: Chain, q: Seq<LongTermEffect>) -> (
    BattleDragon,
    Chain,
)
    decreases q.len(),
{
    if q.len() == 0 {
        (dragon, c)
    } else {
        let (d, c2) = attach_all(dragon, c, q.drop_last());
        attach_one(d, c2, q.last())
    }
}

/// The opponent's reply to an attack merged into the attacker's view: the
/// reply's attacker stages and move replace the attacker's, and the defender's
/// own contribution is combined into the opponent stages.
pub open spec fn merge_reply(opponent_stages: StatStages, reply: Option<MoveStages>) -> Option<
    MoveStages,
> {
    match reply {
        Some((powered_opponent_stages, m, stages)) => Some(
            (stages, m, combine(opponent_stages, powered_opponent_stages)),
        ),
        None => None,
    }
}

/// `r` is what the attacker makes of a reply that `defender` may give to the
/// offending result `t`.
pub open spec fn replied<F: FnOnce(MoveStats, StatStages) -> Option<MoveStages>>(
    defender: F,
    t: MoveStages,
    r: Option<MoveStages>,
) -> bool {
    exists|reply: Option<MoveStages>|
        defender.ensures((t.1, t.0), reply) && r == merge_reply(t.2, reply)
}

proof fn lemma_offend_cancel_sticks(c: Chain, t: MoveStages, i: int)
    requires
        0 <= i <= c.len(),
        chain_offend(c.subrange(0, i), t) is None,
    ensures
        chain_offend(c, t) is None,
    decreases c.len() - i,
{
    if i < c.len() {
        assert(c.subrange(0, i + 1).drop_last() =~= c.subrange(0, i));
        lemma_offend_cancel_sticks(c, t, i + 1);
    } else {
        assert(c.subrange(0, i) =~= c);
    }
}

proof fn lemma_defend_cancel_sticks(c: Chain, t: MoveStages, i: int)
    requires
        0 <= i <= c.len(),
        chain_defend(c.subrange(0, i), t) is None,
    ensures
        chain_defend(c, t) is None,
    decreases c.len() - i,
{
    if i < c.len() {
        assert(c.subrange(0, i + 1).drop_last() =~= c.subrange(0, i));
        lemma_defend_cancel_sticks(c, t, i + 1);
    } else {
        assert(c.subrange(0, i) =~= c);
    }
}

/// Hit points left after `amount` of damage, stopping at zero.
pub open spec fn hp_after_damage(hp: u32, amount: u32) -> u32 {
    if amount < hp {
        (hp - amount) as u32
    } else {
        0
    }
}

/// Damage takes hit points down by the amount and never below zero: what is
/// left is `max(0, hp - amount)`, which is never more than `hp`.
pub proof fn lemma_damage_clamped(hp: u32, amount: u32)
    ensures
        hp_after_damage(hp, amount) == if hp - amount > 0 {
            hp - amount
        } else {
            0
        },
        0 <= hp_after_damage(hp, amount) <= hp,
{
}

/// One combatant in a party: its runtime state and its effect chain.
pub struct PartyItem {
    pub(crate) dragon: BattleDragon,
    pub(crate) effects: Vec<(u16, LongTermEffect)>,
}

impl PartyItem {
    /// The combatant's runtime state.
    pub closed spec fn combatant(&self) -> BattleDragon {
        self.dragon
    }

    /// The effect chain.
    pub closed spec fn chain(&self) -> Chain {
        self.effects@
    }

    pub fn new(dragon: BattleDragon) -> (r: Self)
        ensures
            r.combatant() == dragon,
            r.chain() == Seq::<(u16, LongTermEffect)>::empty(),
    {
        Self { dragon, effects: Vec::new() }
    }

    pub fn hp(&self) -> (r: u32)
        ensures
            r == self.combatant().hp,
    {
        self.dragon.hp
    }

    pub fn dragon(&self) -> (r: &BattleDragon)
        ensures
            *r == self.combatant(),
    {
        &self.dragon
    }

    pub fn effects(&self) -> (r: &Vec<(u16, LongTermEffect)>)
        ensures
            r@ == self.chain(),
    {
        &self.effects
    }

    /// The current stat stages: the stat-calculation fold over the chain.
    pub fn calc_stages(&self) -> (r: StatStages)
        ensures
            r == chain_stages(self.chain()),
    {
        let mut stages = StatStages::new();
        let mut i: usize = 0;
        while i < self.effects.len()
            invariant
                i <= self.effects@.len(),
                stages == chain_stages(self.effects@.subrange(0, i as int)),
            decreases self.effects@.len() - i,
        {
            proof {
                assert(self.effects@.subrange(0, i + 1).drop_last() =~= self.effects@.subrange(
                    0,
                    i as int,
                ));
            }
            stages = self.effects[i].1.stat_calculation(stages);
            i += 1;
        }
        proof {
            assert(self.effects@.subrange(0, i as int) =~= self.effects@);
        }
        stages
    }

    /// The effective stats under the current stages.
    pub fn calc_stats(&self) -> (r: Stats)
        ensures
            r == staged_stats(self.combatant().base_stats, chain_stages(self.chain())),
    {
        self.dragon.stats().apply_stages(self.calc_stages())
    }

    /// Static damage of a move of `base_power` from this combatant against
    /// `opponent_defense`.
    pub fn calc_damage(&self, base_power: u32, opponent_defense: u32) -> (r: u32)
        requires
            opponent_defense > 0,
        ensures
            r == static_damage(
                staged_stats(self.combatant().base_stats, chain_stages(self.chain())).attack,
                opponent_defense,
                base_power,
            ),
    {
        calculate_static_damage(self.calc_stats().attack, opponent_defense, base_power)
    }

    /// The defending fold, from zero own stages; `None` if an effect cancels.
    pub fn defend(&self, move_stats: MoveStats, opponent_stages: StatStages) -> (r: Option<
        MoveStages,
    >)
        ensures
            r == chain_defend(self.chain(), (zero_stages(), move_stats, opponent_stages)),
    {
        let ghost t = (zero_stages(), move_stats, opponent_stages);
        let mut acc: MoveStages = (StatStages::new(), move_stats, opponent_stages);
        let mut i: usize = 0;
        while i < self.effects.len()
            invariant
                i <= self.effects@.len(),
                t == (zero_stages(), move_stats, opponent_stages),
                chain_defend(self.effects@.subrange(0, i as int), t) == Some(acc),
            decreases self.effects@.len() - i,
        {
            proof {
                assert(self.effects@.subrange(0, i + 1).drop_last() =~= self.effects@.subrange(
                    0,
                    i as int,
                ));
            }
            let (u, m, o) = acc;
            match self.effects[i].1.defending(u, m, o) {
                Some(next) => {
                    acc = next;
                },
                None => {
                    proof {
                        assert(self.effects@.subrange(0, i + 1).last() == self.effects@[i as int]);
                        assert(chain_defend(self.effects@.subrange(0, i + 1), t) is None);
                        lemma_defend_cancel_sticks(self.effects@, t, i + 1);
                    }
                    return None;
                },
            }
            i += 1;
        }
        proof {
            assert(self.effects@.subrange(0, i as int) =~= self.effects@);
        }
        Some(acc)
    }

    /// The offending fold, from the current stages; if no effect cancels,
    /// `defender` is called once with the move and the resulting stages, and
    /// its reply is merged in.
    pub fn offend<F>(&self, move_stats: MoveStats, opponent_stages: StatStages, defender: F) -> (r:
        Option<MoveStages>) where F: FnOnce(MoveStats, StatStages) -> Option<MoveStages>
        requires
            forall|m: MoveStats, s: StatStages| defender.requires((m, s)),
        ensures
            ({
                match chain_offend(
                    self.chain(),
                    (chain_stages(self.chain()), move_stats, opponent_stages),
                ) {
                    Some(t) => replied(defender, t, r),
                    None => r is None,
                }
            }),
    {
        let start = self.calc_stages();
        let ghost t = (start, move_stats, opponent_stages);
        let mut acc: MoveStages = (start, move_stats, opponent_stages);
        let mut i: usize = 0;
        while i < self.effects.len()
            invariant
                i <= self.effects@.len(),
                t == (start, move_stats, opponent_stages),
                start == chain_stages(self.effects@),
                chain_offend(self.effects@.subrange(0, i as int), t) == Some(acc),
            decreases self.effects@.len() - i,
        {
            proof {
                assert(self.effects@.subrange(0, i + 1).drop_last() =~= self.effects@.subrange(
                    0,
                    i as int,
                ));
            }
            let (u, m, o) = acc;
            match self.effects[i].1.offending(u, m, o) {
                Some(next) => {
                    acc = next;
                },
                None => {
                    proof {
                        assert(self.effects@.subrange(0, i + 1).last() == self.effects@[i as int]);
                        assert(chain_offend(self.effects@.subrange(0, i + 1), t) is None);
                        lemma_offend_cancel_sticks(self.effects@, t, i + 1);
                    }
                    return None;
                },
            }
            i += 1;
        }
        proof {
            assert(self.effects@.subrange(0, i as int) =~= self.effects@);
        }
        let (user_stages, attack_stats, target_stages) = acc;
        let reply = defender(attack_stats, user_stages);
        let r = match reply {
            Some((powered_opponent_stages, reply_stats, reply_stages)) => Some(
                (reply_stages, reply_stats, target_stages.combine(powered_opponent_stages)),
            ),
            None => None,
        };
        proof {
            assert(chain_offend(self.chain(), t) == Some(acc));
            assert(defender.ensures((acc.1, acc.0), reply) && r == merge_reply(acc.2, reply));
            assert(replied(defender, acc, r));
        }
        r
    }

    /// The switching fold: whether every effect allows a switch.
    pub fn may_switch(&self) -> (r: bool)
        ensures
            r == chain_allows_switch(self.chain()),
    {
        let mut i: usize = 0;
        while i < self.effects.len()
            invariant
                i <= self.effects@.len(),
                forall|k: int| 0 <= k < i ==> effect_allows_switch(#[trigger] self.effects@[k].1),
            decreases self.effects@.len() - i,
        {
            if !self.effects[i].1.switching() {
                return false;
            }
            i += 1;
        }
        true
    }

    /// Applies `effect` to the combatant and keeps it in the chain if it asks
    /// to stay.
    pub fn add_effect(&mut self, effect: LongTermEffect)
        ensures
            (final(self).combatant(), final(self).chain()) == attach_one(
                old(self).combatant(),
                old(self).chain(),
                effect,
            ),
    {
        let (attach, dragon) = effect.apply(self.dragon);
        self.dragon = dragon;
        if attach {
            self.effects.push((0, effect));
        }
    }

    /// Reduces the hit points by `amount`, stopping at zero. Returns whether
    /// the combatant has fainted.
    pub fn damage(&mut self, amount: u32) -> (fainted: bool)
        ensures
            final(self).combatant().hp == hp_after_damage(old(self).combatant().hp, amount),
            final(self).combatant().base_stats == old(self).combatant().base_stats,
            final(self).chain() == old(self).chain(),
            fainted == (final(self).combatant().hp == 0),
    {
        if amount < self.dragon.hp {
            self.dragon.hp = self.dragon.hp - amount;
            false
        } else {
            self.dragon.hp = 0;
            true
        }
    }

    /// Starts a new turn: every effect ticks once with its advanced counter,
    /// those that ask to detach are removed, and only then are the effects
    /// they queued attached, in order.
    pub fn turn(&mut self)
        ensures
            (final(self).combatant(), final(self).chain()) == attach_all(
                old(self).combatant(),
                chain_ticked(old(self).chain()),
                chain_queued(old(self).chain()),
            ),
    {
        let ghost c = self.effects@;
        let mut kept: Vec<(u16, LongTermEffect)> = Vec::new();
        let mut queued: Vec<LongTermEffect> = Vec::new();
        let mut i: usize = 0;
        while i < self.effects.len()
            invariant
                i <= c.len(),
                self.effects@ == c,
                kept@ == chain_ticked(c.subrange(0, i as int)),
                queued@ == chain_queued(c.subrange(0, i as int)),
            decreases c.len() - i,
        {
            proof {
                assert(c.subrange(0, i + 1).drop_last() =~= c.subrange(0, i as int));
            }
            let (count, effect) = self.effects[i];
            let count = if count < u16::MAX {
                count + 1
            } else {
                count
            };
            let (keep, mut added) = effect.turn(count);
            if keep {
                kept.push((count, effect));
            }
            queued.append(&mut added);
            i += 1;
        }
        proof {
            assert(c.subrange(0, i as int) =~= c);
        }
        self.effects = kept;
        let ghost dragon0 = self.dragon;
        let ghost ticked = self.effects@;
        let mut j: usize = 0;
        while j < queued.len()
            invariant
                j <= queued@.len(),
                (self.dragon, self.effects@) == attach_all(
                    dragon0,
                    ticked,
                    queued@.subrange(0, j as int),
                ),
            decreases queued@.len() - j,
        {
            proof {
                assert(queued@.subrange(0, j + 1).drop_last() =~= queued@.subrange(0, j as int));
            }
            self.add_effect(queued[j]);
            j += 1;
        }
        proof {
            assert(queued@.subrange(0, j as int) =~= queued@);
        }
    }
}

/// A side as seen from the user of a move.
#[derive(Clone, Copy, PartialEq, Eq, Structural, Debug)]
pub enum RelativePartyId {
    User,
    Opposing,
}

} // verus!

verus! {

/// One of the two sides of a battle.
#[derive(Clone, Copy, PartialEq, Eq, Structural, Debug)]
pub enum PartyId {
    Party1,
    Party2,
}

/// The other side.
pub open spec fn opposing_of(id: PartyId) -> PartyId {
    match id {
        PartyId::Party1 => PartyId::Party2,
        PartyId::Party2 => PartyId::Party1,
    }
}

/// The absolute side that `relative` names, seen from `id`.
pub open spec fn relative_of(id: PartyId, relative: RelativePartyId) -> PartyId {
    match relative {
        RelativePartyId::User => id,
        RelativePartyId::Opposing => opposing_of(id),
    }
}

/// The number of a side: `0` for the first party, `1` for the second.
pub open spec fn party_number(id: PartyId) -> u8 {
    match id {
        PartyId::Party1 => 0,
        PartyId::Party2 => 1,
    }
}

impl PartyId {
    /// Returns the opposing ID to this party ID.
    pub fn opposing(&self) -> (r: Self)
        ensures
            r == opposing_of(*self),
    {
        match *self {
            Self::Party1 => PartyId::Party2,
            Self::Party2 => PartyId::Party1,
        }
    }

    /// Gets the party ID relative to this.
    pub fn relative(&self, relative: RelativePartyId) -> (r: Self)
        ensures
            r == relative_of(*self, relative),
    {
        match relative {
            RelativePartyId::User => *self,
            RelativePartyId::Opposing => self.opposing(),
        }
    }

    pub fn from_u8(party_id: u8) -> (r: Option<Self>)
        ensures
            party_id == 0 ==> r == Some(PartyId::Party1),
            party_id == 1 ==> r == Some(PartyId::Party2),
            party_id > 1 <==> r is None,
    {
        match party_id {
            0 => Some(PartyId::Party1),
            1 => Some(PartyId::Party2),
            _ => None,
        }
    }
}

impl From<PartyId> for u8 {
    fn from(party_id: PartyId) -> (r: u8) {
        match party_id {
            PartyId::Party1 => 0,
            PartyId::Party2 => 1,
        }
    }
}

impl vstd::std_specs::convert::FromSpecImpl<PartyId> for u8 {
    open spec fn obeys_from_spec() -> bool {
        true
    }

    open spec fn from_spec(party_id: PartyId) -> u8 {
        party_number(party_id)
    }
}

/// The active position after a request to switch to `next`: `next` if the
/// active combatant may be switched out, else unchanged.
pub open spec fn index_after_switch(p: Party, next: int) -> int {
    if chain_allows_switch(p.active_member().chain()) {
        next
    } else {
        p.active_index()
    }
}

/// In a party of one combatant no switch can change the active combatant:
/// the only target in range is the active one itself.
pub proof fn lemma_single_member_never_switches(p: Party, next: int)
    requires
        p.wf(),
        p.members().len() == 1,
        0 <= next < p.members().len(),
    ensures
        index_after_switch(p, next) == p.active_index(),
        index_after_switch(p, next) == 0,
{
}

/// An ordered roster of combatants with one of them active.
pub struct Party {
    pub(crate) items: Vec<PartyItem>,
    pub(crate) active: usize,
}

impl Party {
    /// The combatants, in roster order.
    pub closed spec fn members(&self) -> Seq<PartyItem> {
        self.items@
    }

    /// The position of the active combatant in the roster.
    pub closed spec fn active_index(&self) -> int {
        self.active as int
    }

    /// The active combatant is one of the roster.
    pub open spec fn wf(&self) -> bool {
        0 <= self.active_index() < self.members().len()
    }

    /// The active combatant.
    pub open spec fn active_member(&self) -> PartyItem {
        self.members()[self.active_index()]
    }

    /// A party of `items`, the first of them active. The roster must not be
    /// empty.
    pub fn new_from_vec(items: Vec<PartyItem>) -> (r: Self)
        requires
            items.len() > 0,
        ensures
            r.wf(),
            r.members() == items@,
            r.active_index() == 0,
    {
        Self { items, active: 0 }
    }

    /// Gets a reference to the active dragon.
    pub fn active(&self) -> (r: &PartyItem)
        requires
            self.wf(),
        ensures
            *r == self.active_member(),
    {
        &self.items[self.active]
    }

    /// Gets a mutable reference to the active dragon.
    pub fn active_mut(&mut self) -> (r: &mut PartyItem)
        requires
            old(self).wf(),
        ensures
            final(self).wf(),
            *r == old(self).active_member(),
            final(self).members() == old(self).members().update(
                old(self).active_index(),
                *final(r),
            ),
            final(self).active_index() == old(self).active_index(),
    {
        &mut self.items[self.active]
    }

    /// Makes `next` the active combatant if the active one may be switched
    /// out; returns false, and changes nothing, if an effect forbids it.
    pub fn switch(&mut self, next: usize) -> (r: bool)
        requires
            old(self).wf(),
            next < old(self).members().len(),
        ensures
            final(self).wf(),
            r == chain_allows_switch(old(self).active_member().chain()),
            final(self).members() == old(self).members(),
            final(self).active_index() == index_after_switch(*old(self), next as int),
    {
        if self.active().may_switch() {
            self.active = next;
            true
        } else {
            false
        }
    }

    /// Adds a fresh combatant at the end of the roster.
    pub fn add_dragon(&mut self, dragon: BattleDragon)
        requires
            old(self).wf(),
        ensures
            final(self).wf(),
            final(self).members().len() == old(self).members().len() + 1,
            final(self).members().drop_last() == old(self).members(),
            final(self).members().last().combatant() == dragon,
            final(self).members().last().chain() == Seq::<(u16, LongTermEffect)>::empty(),
            final(self).active_index() == old(self).active_index(),
    {
        self.items.push(PartyItem::new(dragon));
        proof {
            assert(self.items@.drop_last() =~= old(self).items@);
        }
    }
}

} // verus!

verus! {

/// An effect anywhere in the chain whose defending hook always cancels
/// cancels the whole defending fold, whatever the effects after it would do.
pub proof fn lemma_defend_cancelled_by_any(c: Chain, t: MoveStages, i: int)
    requires
        0 <= i < c.len(),
        forall|x: MoveStages| #[trigger] effect_defending(c[i].1, x) is None,
    ensures
        chain_defend(c, t) is None,
{
    assert(c.subrange(0, i + 1).drop_last() =~= c.subrange(0, i));
    assert(c.subrange(0, i + 1).last() == c[i]);
    lemma_defend_cancel_sticks(c, t, i + 1);
}

/// An effect anywhere in the chain whose offending hook always cancels
/// cancels the whole offending fold.
pub proof fn lemma_offend_cancelled_by_any(c: Chain, t: MoveStages, i: int)
    requires
        0 <= i < c.len(),
        forall|x: MoveStages| #[trigger] effect_offending(c[i].1, x) is None,
    ensures
        chain_offend(c, t) is None,
{
    assert(c.subrange(0, i + 1).drop_last() =~= c.subrange(0, i));
    assert(c.subrange(0, i + 1).last() == c[i]);
    lemma_offend_cancel_sticks(c, t, i + 1);
}

/// A switch lock anywhere in the active combatant's chain refuses every
/// switch: the active position stays where it is.
pub proof fn lemma_switch_lock_refuses(p: Party, i: int, next: int)
    requires
        p.wf(),
        0 <= i < p.active_member().chain().len(),
        p.active_member().chain()[i].1 == LongTermEffect::Basic(BasicEffect::SwitchLock),
    ensures
        !chain_allows_switch(p.active_member().chain()),
        index_after_switch(p, next) == p.active_index(),
{
    assert(!effect_allows_switch(p.active_member().chain()[i].1));
}

/// Effects queued during a tick join the chain after every effect that
/// ticked, with a zero counter: none of them has ticked in that turn.
pub proof fn lemma_queued_effects_start_fresh(dragon: BattleDragon, c: Chain)
    ensures
        ({
            let ticked = chain_ticked(c);
            let after = attach_all(dragon, ticked, chain_queued(c)).1;
            &&& ticked.len() <= after.len()
            &&& after.subrange(0, ticked.len() as int) == ticked
            &&& forall|k: int| ticked.len() <= k < after.len() ==> (#[trigger] after[k]).0 == 0
        }),
{
    lemma_attach_all_appends(dragon, chain_ticked(c), chain_queued(c));
}

proof fn lemma_attach_all_appends(dragon: BattleDragon, c: Chain, q: Seq<LongTermEffect>)
    ensures
        ({
            let after = attach_all(dragon, c, q).1;
            &&& c.len() <= after.len()
            &&& after.subrange(0, c.len() as int) == c
            &&& forall|k: int| c.len() <= k < after.len() ==> (#[trigger] after[k]).0 == 0
            &&& forall|k: int| c.len() <= k < after.len() ==> q.contains((#[trigger] after[k]).1)
        }),
    decreases q.len(),
{
    if q.len() > 0 {
        lemma_attach_all_appends(dragon, c, q.drop_last());
        let (d, c2) = attach_all(dragon, c, q.drop_last());
        let after = attach_all(dragon, c, q).1;
        assert forall|k: int| c.len() <= k < after.len() implies q.contains(
            (#[trigger] after[k]).1,
        ) by {
            if k < c2.len() {
                assert(after[k] == c2[k]);
                let j = choose|j: int| 0 <= j < q.drop_last().len() && q.drop_last()[j] == c2[k].1;
                assert(q[j] == c2[k].1);
            } else {
                assert(q[q.len() - 1] == after[k].1);
            }
        }
        if effect_stays_on_apply(q.last()) {
            assert(after.subrange(0, c.len() as int) =~= c2.subrange(0, c.len() as int));
        } else {
            assert(after == c2);
        }
    } else {
        assert(c.subrange(0, c.len() as int) =~= c);
    }
}

/// Every effect queued by a tick is a basic effect.
proof fn lemma_queued_are_basic(c: Chain)
    ensures
        forall|j: int| 0 <= j < chain_queued(c).len() ==> (#[trigger] chain_queued(c)[j]) is Basic,
    decreases c.len(),
{
    if c.len() > 0 {
        lemma_queued_are_basic(c.drop_last());
        let prev = chain_queued(c.drop_last());
        let added = effect_queued(c.last().1, next_count(c.last().0));
        assert forall|j: int| 0 <= j < chain_queued(c).len() implies (#[trigger] chain_queued(
            c,
        )[j]) is Basic by {
            if j >= prev.len() {
                assert(chain_queued(c)[j] == added[j - prev.len()]);
            } else {
                assert(chain_queued(c)[j] == prev[j]);
            }
        }
    }
}

/// `entry` is some entry of `c` that stays on its tick, one turn older.
spec fn ticked_from(c: Chain, entry: (u16, LongTermEffect)) -> bool {
    exists|i: int|
        0 <= i < c.len() && entry == (next_count((#[trigger] c[i]).0), c[i].1)
            && effect_stays_on_tick(c[i].1, next_count(c[i].0))
}

/// The ticked chain holds exactly the entries whose effect stays on its tick,
/// each one turn older.
proof fn lemma_ticked_entries(c: Chain)
    ensures
        forall|i: int|
            0 <= i < c.len() && effect_stays_on_tick(c[i].1, next_count(c[i].0))
                ==> chain_ticked(c).contains((next_count(#[trigger] c[i].0), c[i].1)),
        forall|k: int| 0 <= k < chain_ticked(c).len() ==> ticked_from(c, #[trigger] chain_ticked(c)[k]),
    decreases c.len(),
{
    if c.len() > 0 {
        let p = c.drop_last();
        lemma_ticked_entries(p);
        let prev = chain_ticked(p);
        let ticked = chain_ticked(c);
        let n = c.len() - 1;
        let stays_last = effect_stays_on_tick(c[n].1, next_count(c[n].0));
        assert(c.last() == c[n]);
        assert forall|i: int|
            0 <= i < c.len() && effect_stays_on_tick(c[i].1, next_count(c[i].0)) implies ticked.contains(
            (next_count(#[trigger] c[i].0), c[i].1),
        ) by {
            if i < n {
                assert(p[i] == c[i]);
                let k = choose|k: int| 0 <= k < prev.len() && prev[k] == (next_count(p[i].0), p[i].1);
                assert(ticked[k] == prev[k]);
            } else {
                assert(ticked[ticked.len() - 1] == (next_count(c[i].0), c[i].1));
            }
        }
        assert forall|k: int| 0 <= k < ticked.len() implies ticked_from(c, #[trigger] ticked[k]) by {
            if k < prev.len() {
                assert(ticked[k] == prev[k]);
                assert(ticked_from(p, prev[k]));
                let i = choose|i: int|
                    0 <= i < p.len() && prev[k] == (next_count((#[trigger] p[i]).0), p[i].1)
                        && effect_stays_on_tick(p[i].1, next_count(p[i].0));
                assert(p[i] == c[i]);
            } else {
                assert(ticked[k] == (next_count(c[n].0), c[n].1));
                assert(c[n] == c[n]);
            }
        }
    }
}

/// Over any chain, one turn ticks every entry once with its counter advanced
/// by one: an entry whose effect stays is still in the chain afterwards, one
/// turn older; an expiring effect that detaches on its tick is gone from the
/// chain after the turn (when no other entry holds the same effect), since
/// only basic effects are ever queued; and whatever is queued joins with a
/// zero counter, after every entry that ticked.
pub proof fn lemma_turn_ticks_each_entry(dragon: BattleDragon, c: Chain, i: int)
    requires
        0 <= i < c.len(),
    ensures
        ({
            let after = attach_all(dragon, chain_ticked(c), chain_queued(c)).1;
            &&& effect_stays_on_tick(c[i].1, next_count(c[i].0)) ==> after.contains(
                (next_count(c[i].0), c[i].1),
            )
            &&& (c[i].1 is Expiring && !effect_stays_on_tick(c[i].1, next_count(c[i].0)) && (
            forall|j: int| 0 <= j < c.len() && j != i ==> #[trigger] c[j].1 != c[i].1))
                ==> forall|k: int| 0 <= k < after.len() ==> (#[trigger] after[k]).1 != c[i].1
            &&& forall|k: int|
                chain_ticked(c).len() <= k < after.len() ==> (#[trigger] after[k]).0 == 0
        }),
{
    let ticked = chain_ticked(c);
    let queued = chain_queued(c);
    let after = attach_all(dragon, ticked, queued).1;
    lemma_ticked_entries(c);
    lemma_queued_are_basic(c);
    lemma_attach_all_appends(dragon, ticked, queued);
    assert forall|k: int| 0 <= k < ticked.len() implies after[k] == ticked[k] by {
        assert(after.subrange(0, ticked.len() as int)[k] == after[k]);
    }
    if effect_stays_on_tick(c[i].1, next_count(c[i].0)) {
        assert(c[i] == c[i]);
        let k = choose|k: int| 0 <= k < ticked.len() && ticked[k] == (next_count(c[i].0), c[i].1);
        assert(after[k] == ticked[k]);
    }
    if c[i].1 is Expiring && !effect_stays_on_tick(c[i].1, next_count(c[i].0)) && (forall|j: int|
        0 <= j < c.len() && j != i ==> #[trigger] c[j].1 != c[i].1) {
        assert forall|k: int| 0 <= k < after.len() implies (#[trigger] after[k]).1 != c[i].1 by {
            if k < ticked.len() {
                assert(after[k] == ticked[k]);
                assert(ticked_from(c, ticked[k]));
                let m = choose|m: int|
                    0 <= m < c.len() && ticked[k] == (next_count((#[trigger] c[m]).0), c[m].1)
                        && effect_stays_on_tick(c[m].1, next_count(c[m].0));
                if m == i {
                    assert(false);
                }
            } else {
                let j = choose|j: int| 0 <= j < queued.len() && queued[j] == after[k].1;
                assert(queued[j] is Basic);
            }
        }
    }
}

/// An expiring effect that has not run out stays through each tick that
/// leaves it turns to go, counting one more turn; the tick that counts its
/// `lifespan`-th turn removes it, and its follow-up, if any, is attached with a
/// zero counter in the same turn.
pub proof fn lemma_expiring_lifespan(dragon: BattleDragon, x: ExpiringEffect, d: u16)
    requires
        d < x.lifespan,
    ensures
        ({
            let c = seq![(d, LongTermEffect::Expiring(x))];
            let (dragon2, c2) = attach_all(dragon, chain_ticked(c), chain_queued(c));
            if d + 1 < x.lifespan {
                &&& c2 == seq![((d + 1) as u16, LongTermEffect::Expiring(x))]
                &&& dragon2 == dragon
            } else {
                match x.follow_up {
                    Some(b) => (dragon2, c2) == attach_one(
                        dragon,
                        Seq::empty(),
                        LongTermEffect::Basic(b),
                    ),
                    None => c2 == Seq::<(u16, LongTermEffect)>::empty() && dragon2 == dragon,
                }
            }
        }),
{
    let c = seq![(d, LongTermEffect::Expiring(x))];
    assert(c.drop_last() =~= Seq::<(u16, LongTermEffect)>::empty());
    assert(c.last() == (d, LongTermEffect::Expiring(x)));
    assert(chain_ticked(c.drop_last()) == Seq::<(u16, LongTermEffect)>::empty());
    assert(chain_queued(c.drop_last()) == Seq::<LongTermEffect>::empty());
    assert(next_count(d) == d + 1);
    let q = chain_queued(c);
    if d + 1 < x.lifespan {
        assert(q =~= Seq::<LongTermEffect>::empty());
        assert(chain_ticked(c) =~= seq![((d + 1) as u16, LongTermEffect::Expiring(x))]);
        assert(attach_all(dragon, chain_ticked(c), q) == (dragon, chain_ticked(c)));
    } else {
        assert(chain_ticked(c) =~= Seq::<(u16, LongTermEffect)>::empty());
        match x.follow_up {
            Some(b) => {
                assert(q =~= seq![LongTermEffect::Basic(b)]);
                assert(q.drop_last() =~= Seq::<LongTermEffect>::empty());
                assert(attach_all(dragon, chain_ticked(c), q.drop_last()) == (
                    dragon,
                    chain_ticked(c),
                ));
            },
            None => {
                assert(q =~= Seq::<LongTermEffect>::empty());
                assert(attach_all(dragon, chain_ticked(c), q) == (dragon, chain_ticked(c)));
            },
        }
    }
}

} // verus!
