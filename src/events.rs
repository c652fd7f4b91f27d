use vstd::prelude::*;
use crate::party::RelativePartyId;

verus! {

/// What the battlefield reports to its messenger; sides are given as `0` for
/// the first party and `1` for the second.
#[derive(Clone, PartialEq, Eq, Debug)]
pub enum Event {
    Damaged { party_id: u8, damage_amount: u32 },
    Attacked { offending_party_id: u8, move_name: String },
    Switched { party_id: u8, old_index: u8, new_index: u8 },
}

/// What a move reports, with the side given relative to the user of the move.
#[derive(Clone, PartialEq, Eq, Debug)]
pub enum MoveEvent {
    Damaged { rel_party_id: RelativePartyId, damage_amount: u32 },
    Effected { rel_party_id: RelativePartyId, description: String },
}

} // verus!
