use vstd::prelude::*;
use crate::events::MoveEvent;
use crate::moves::{
    ACCURACY_ROLL_SIDES,
    CRIT_ROLL_SIDES,
    MoveResult,
    SimpleDamagingMove,
    effective_accuracy,
    roll_accuracy,
    roll_critical,
    transaction,
    transaction_damage,
};
use crate::party::{
    Party,
    PartyId,
    PartyItem,
    attach_all,
    chain_queued,
    chain_ticked,
    hp_after_damage,
    RelativePartyId,
    opposing_of,
    relative_of,
};

verus! {

/// The sink that battle events are reported to.
pub trait Messenger: Sized {
    fn on_attack(&self, field: &Battlefield<Self>, party: PartyId, move_name: &str);

    fn on_damage(&self, field: &Battlefield<Self>, party: PartyId, amount: u32);

    fn on_switch(&self, field: &Battlefield<Self>, party: PartyId, old_index: u8, new_index: u8);

    fn on_effect_applied(&self, field: &Battlefield<Self>, party: PartyId, effect_desc: &str);
}

/// A messenger that ignores every event.
pub struct NopMessenger;

impl Messenger for NopMessenger {
    fn on_attack(&self, _field: &Battlefield<Self>, _party: PartyId, _move_name: &str) {
    }

    fn on_damage(&self, _field: &Battlefield<Self>, _party: PartyId, _amount: u32) {
    }

    fn on_switch(&self, _field: &Battlefield<Self>, _party: PartyId, _origin: u8, _next: u8) {
    }

    fn on_effect_applied(&self, _field: &Battlefield<Self>, _party: PartyId, _effect_desc: &str) {
    }
}

/// The two parties of a battle and the messenger their events go to.
pub struct Battlefield<T: Messenger> {
    parties: (Party, Party),
    messenger: T,
}

/// The active combatant after one turn tick.
pub open spec fn ticked_member(p: PartyItem, q: PartyItem) -> bool {
    (q.combatant(), q.chain()) == attach_all(
        p.combatant(),
        chain_ticked(p.chain()),
        chain_queued(p.chain()),
    )
}

/// Party `after` is `before` with its active combatant ticked once.
pub open spec fn party_ticked(before: Party, after: Party) -> bool {
    &&& after.wf()
    &&& after.active_index() == before.active_index()
    &&& after.members().len() == before.members().len()
    &&& forall|i: int|
        0 <= i < before.members().len() && i != before.active_index() ==> after.members()[i]
            == before.members()[i]
    &&& ticked_member(before.active_member(), after.active_member())
}

/// The outcome of side `party_id` attacking with `attack` under the given
/// rolls: the move resolver decides the result and what happens to the
/// opposing active combatant, and the rest of the opposing roster stays as it
/// was.
pub open spec fn attack_outcome<T: Messenger>(
    before_field: Battlefield<T>,
    after_field: Battlefield<T>,
    party_id: PartyId,
    attack: SimpleDamagingMove,
    accuracy_roll: u32,
    crit_roll: u32,
    r: MoveResult,
) -> bool {
    let user = before_field.side(party_id).active_member();
    let before = before_field.side(opposing_of(party_id));
    let after = after_field.side(opposing_of(party_id));
    let target = before.active_member();
    &&& after.active_index() == before.active_index()
    &&& after.members().len() == before.members().len()
    &&& forall|i: int|
        0 <= i < before.members().len() && i != before.active_index()
            ==> after.members()[i] == before.members()[i]
    &&& match transaction(user.chain(), target.chain(), attack.stats_spec()) {
        None => r == MoveResult::Failed && after.members() == before.members(),
        Some(t) => if accuracy_roll >= effective_accuracy(t) {
            r == MoveResult::Missed && after.members() == before.members()
        } else {
            let amount = transaction_damage(
                user.combatant().base_stats,
                target.combatant().base_stats,
                t,
                crit_roll,
            );
            &&& r == MoveResult::Succeeded(
                Some(
                    MoveEvent::Damaged {
                        rel_party_id: crate::party::RelativePartyId::Opposing,
                        damage_amount: amount,
                    },
                ),
            )
            &&& after.active_member().chain() == target.chain()
            &&& after.active_member().combatant().base_stats
                == target.combatant().base_stats
            &&& after.active_member().combatant().hp == hp_after_damage(
                target.combatant().hp,
                amount,
            )
        },
    }
}

impl<T: Messenger> Battlefield<T> {
    /// The party on side `id`.
    pub closed spec fn side(&self, id: PartyId) -> Party {
        match id {
            PartyId::Party1 => self.parties.0,
            PartyId::Party2 => self.parties.1,
        }
    }

    /// Both parties have their active combatant in their roster.
    pub open spec fn wf(&self) -> bool {
        self.side(PartyId::Party1).wf() && self.side(PartyId::Party2).wf()
    }

    pub fn new(party_a: Party, party_b: Party, msg: T) -> (r: Self)
        requires
            party_a.wf(),
            party_b.wf(),
        ensures
            r.wf(),
            r.side(PartyId::Party1) == party_a,
            r.side(PartyId::Party2) == party_b,
    {
        Self { parties: (party_a, party_b), messenger: msg }
    }

    pub fn party(&self, id: PartyId) -> (r: &Party)
        ensures
            *r == self.side(id),
    {
        match id {
            PartyId::Party1 => &self.parties.0,
            PartyId::Party2 => &self.parties.1,
        }
    }

    pub fn party_mut(&mut self, id: PartyId) -> (r: &mut Party)
        ensures
            *r == old(self).side(id),
            final(self).side(id) == *final(r),
            final(self).side(opposing_of(id)) == old(self).side(opposing_of(id)),
    {
        match id {
            PartyId::Party1 => &mut self.parties.0,
            PartyId::Party2 => &mut self.parties.1,
        }
    }

    pub fn party_and_opposing(&self, id: PartyId) -> (r: (&Party, &Party))
        ensures
            *r.0 == self.side(id),
            *r.1 == self.side(opposing_of(id)),
    {
        (self.party(id), self.party(id.opposing()))
    }

    pub fn party_and_opposing_mut(&mut self, id: PartyId) -> (r: (&mut Party, &mut Party))
        ensures
            *r.0 == old(self).side(id),
            *r.1 == old(self).side(opposing_of(id)),
            final(self).side(id) == *final(r.0),
            final(self).side(opposing_of(id)) == *final(r.1),
    {
        match id {
            PartyId::Party1 => (&mut self.parties.0, &mut self.parties.1),
            PartyId::Party2 => (&mut self.parties.1, &mut self.parties.0),
        }
    }

    /// Side `party_id` attacks the opposing side's active combatant with `attack`,
    /// using the given rolls of the accuracy die and the critical-hit die. The
    /// attack is announced to the messenger, and a damage event is reported
    /// for the side it names.
    pub fn attack_with_rolls(
        &mut self,
        party_id: PartyId,
        attack: &SimpleDamagingMove,
        accuracy_roll: u32,
        crit_roll: u32,
    ) -> (r: MoveResult)
        requires
            old(self).wf(),
        ensures
            final(self).wf(),
            final(self).side(party_id) == old(self).side(party_id),
            attack_outcome(*old(self), *final(self), party_id, *attack, accuracy_roll, crit_roll, r),
    {
        self.messenger.on_attack(&self, party_id, attack.get_name());
        let ghost before = self.side(opposing_of(party_id));
        let result = {
            let (party, opposing) = self.party_and_opposing_mut(party_id);
            attack.attack_opponent(opposing.active_mut(), party.active(), accuracy_roll, crit_roll)
        };
        proof {
            let after = self.side(opposing_of(party_id));
            if after.active_member() == before.active_member() {
                assert(after.members() =~= before.members());
            }
        }
        if let MoveResult::Succeeded(Some(event)) = &result {
            let side = send_move_event_to_messenger(&self.messenger, event, party_id, &self);
            proof {
                assert(side == opposing_of(party_id));
            }
        }
        result
    }

    /// Side `party_id` attacks with `attack`, rolling the accuracy die and the
    /// critical-hit die.
    pub fn attack(&mut self, party_id: PartyId, attack: &SimpleDamagingMove) -> (r: MoveResult)
        requires
            old(self).wf(),
        ensures
            final(self).wf(),
            final(self).side(party_id) == old(self).side(party_id),
            exists|accuracy_roll: u32, crit_roll: u32|
                accuracy_roll < ACCURACY_ROLL_SIDES && crit_roll < CRIT_ROLL_SIDES
                    && attack_outcome(
                    *old(self),
                    *final(self),
                    party_id,
                    *attack,
                    accuracy_roll,
                    crit_roll,
                    r,
                ),
    {
        let accuracy_roll = roll_accuracy();
        let crit_roll = roll_critical();
        self.attack_with_rolls(party_id, attack, accuracy_roll, crit_roll)
    }

    /// A full turn: the active combatants of both sides tick once.
    pub fn turn(&mut self)
        requires
            old(self).wf(),
        ensures
            final(self).wf(),
            party_ticked(old(self).side(PartyId::Party1), final(self).side(PartyId::Party1)),
            party_ticked(old(self).side(PartyId::Party2), final(self).side(PartyId::Party2)),
    {
        self.parties.0.active_mut().turn();
        self.parties.1.active_mut().turn();
    }
}

/// The side, relative to the user of the move, that a move event names.
pub open spec fn event_side(e: MoveEvent) -> RelativePartyId {
    match e {
        MoveEvent::Damaged { rel_party_id, .. } => rel_party_id,
        MoveEvent::Effected { rel_party_id, .. } => rel_party_id,
    }
}

/// Forwards a move event to the messenger, with the side it names made
/// absolute from the side of the move's user; returns that absolute side.
fn send_move_event_to_messenger<T: Messenger>(
    messenger: &T,
    move_event: &MoveEvent,
    user_party_id: PartyId,
    battlefield: &Battlefield<T>,
) -> (side: PartyId)
    ensures
        side == relative_of(user_party_id, event_side(*move_event)),
{
    match move_event {
        MoveEvent::Damaged { rel_party_id, damage_amount } => {
            let side = user_party_id.relative(*rel_party_id);
            messenger.on_damage(battlefield, side, *damage_amount);
            side
        },
        MoveEvent::Effected { rel_party_id, description } => {
            let side = user_party_id.relative(*rel_party_id);
            messenger.on_effect_applied(battlefield, side, description.as_str());
            side
        },
    }
}

} // verus!
