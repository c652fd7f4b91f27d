use dragon_battle::battle::{Battlefield, Messenger, NopMessenger};
use dragon_battle::dragon::{apply_stat_stage, BattleDragon, StatStages, Stats};
use dragon_battle::effect::{
    AttackStageModifier, BasicEffect, DefenseStageModifier, ExpiringEffect, LongTermEffect,
    LongTermEffectTrait, OneshotEffect,
};
use dragon_battle::events::MoveEvent;
use dragon_battle::moves::{
    calculate_random_damage, calculate_rolled_damage, calculate_static_damage, critical_hit,
    critical_odds, CRIT_ODDS_RANK_0, CRIT_ODDS_RANK_1, CRIT_ODDS_RANK_2, CRIT_ODDS_RANK_3, roll_accuracy, roll_critical, MoveResult, MoveStats, SimpleDamagingMove,
};
use dragon_battle::party::{Party, PartyId, PartyItem, RelativePartyId};

struct TestMessenger;

impl Messenger for TestMessenger {
    fn on_attack(&self, _field: &Battlefield<Self>, party: PartyId, move_name: &str) {
        println!("Party {:?} attacks with {}!", party, move_name);
    }
    fn on_damage(&self, _field: &Battlefield<Self>, party: PartyId, amount: u32) {
        println!("Party {:?} damaged by {}!", party, amount);
    }
    fn on_switch(&self, _field: &Battlefield<Self>, party: PartyId, origin: u8, next: u8) {
        println!("Party {:?}: switch {} to {}", party, origin, next);
    }
    fn on_effect_applied(&self, _field: &Battlefield<Self>, party: PartyId, effect_desc: &str) {
        println!("Party {:?} got effect: {}!", party, effect_desc);
    }
}

fn combatant(attack: u32, defense: u32, hp: u32) -> PartyItem {
    PartyItem::new(BattleDragon::new(Stats::new_exact(attack, defense, hp)))
}

fn attack_stage(amount: i8) -> LongTermEffect {
    LongTermEffect::Basic(BasicEffect::AttackStage(AttackStageModifier::new(amount)))
}

fn defense_stage(amount: i8) -> LongTermEffect {
    LongTermEffect::Basic(BasicEffect::DefenseStage(DefenseStageModifier::new(amount)))
}

#[test]
fn it_works() {
    let mut mew = PartyItem::new(BattleDragon::new(Stats::new_exact(100, 100, 100)));
    mew.add_effect(attack_stage(2));

    let mewtwo = PartyItem::new(BattleDragon::new(Stats::new_exact(110, 90, 106)));

    let opposing_mew = PartyItem::new(BattleDragon::new(Stats::new_exact(100, 100, 100)));

    let mew_party = Party::new_from_vec(vec![mew, mewtwo]);
    let opposing_party = Party::new_from_vec(vec![opposing_mew]);

    let mut battlefield = Battlefield::new(mew_party, opposing_party, TestMessenger);

    battlefield.attack(PartyId::Party1, &SimpleDamagingMove::new("Pound".to_string(), 40));
    println!("enemy_mew.hp = {}", battlefield.party(PartyId::Party2).active().hp());

    battlefield.party_mut(PartyId::Party1).switch(1);
    battlefield.attack(PartyId::Party1, &SimpleDamagingMove::new("Confusion".to_string(), 50));
    println!("enemy_mew.hp = {}", battlefield.party(PartyId::Party2).active().hp());
}

#[test]
fn stage_multiplier_values() {
    assert_eq!(apply_stat_stage(100, 0), 100);
    assert_eq!(apply_stat_stage(100, 1), 150);
    assert_eq!(apply_stat_stage(100, 2), 200);
    assert_eq!(apply_stat_stage(100, -1), 66);
    assert_eq!(apply_stat_stage(100, -2), 50);
    assert_eq!(apply_stat_stage(u32::MAX, 6), u32::MAX);
    assert_eq!(apply_stat_stage(7, 127), 7 * 129 / 2);
    assert_eq!(apply_stat_stage(1000, -128), 1000 * 2 / 130);
}

#[test]
fn apply_stages_is_monotonic_in_attack() {
    let base = Stats::new_exact(100, 80, 50);
    let mut last = 0;
    for stage in -6i8..=6 {
        let stages = StatStages { attack: stage, ..StatStages::new() };
        let effective = base.apply_stages(stages);
        assert!(effective.attack >= last);
        assert_eq!(effective.defense, 80);
        assert_eq!(effective.hp, 50);
        last = effective.attack;
    }
    assert_eq!(base * StatStages { attack: 2, ..StatStages::new() }, base.apply_stages(StatStages { attack: 2, ..StatStages::new() }));
}

#[test]
fn combine_is_commutative_with_zero_identity() {
    let a = StatStages { attack: 2, defense: -1, accuracy: 3, evasion: 0 };
    let b = StatStages { attack: -4, defense: 5, accuracy: 0, evasion: 1 };
    assert_eq!(a.combine(b), b.combine(a));
    assert_eq!(a + b, StatStages { attack: -2, defense: 4, accuracy: 3, evasion: 1 });
    assert_eq!(StatStages::new().combine(a), a);
    assert_eq!(StatStages::default() + b, b);
    let high = StatStages { attack: 120, defense: -120, accuracy: 0, evasion: 0 };
    let saturated = high.combine(high);
    assert_eq!(saturated.attack, 127);
    assert_eq!(saturated.defense, -128);
}

#[test]
fn damage_clamps_at_zero() {
    let mut item = combatant(100, 100, 100);
    assert_eq!(item.hp(), 105);
    assert!(!item.damage(19));
    assert_eq!(item.hp(), 86);
    assert!(!item.damage(0));
    assert_eq!(item.hp(), 86);
    assert!(item.damage(86));
    assert_eq!(item.hp(), 0);
    let mut other = combatant(100, 100, 100);
    assert!(other.damage(u32::MAX));
    assert_eq!(other.hp(), 0);
}

#[test]
fn single_member_party_cannot_switch_away() {
    let mut party = Party::new_from_vec(vec![combatant(100, 100, 100)]);
    assert!(party.switch(0));
    assert_eq!(party.active().hp(), 105);
    party.add_dragon(BattleDragon::new(Stats::new_exact(1, 1, 1)));
    assert!(party.switch(1));
    assert_eq!(party.active().hp(), 6);
}

#[test]
fn cancelling_effect_stops_defending_fold() {
    let mut defender = combatant(100, 100, 100);
    defender.add_effect(LongTermEffect::Basic(BasicEffect::Protect));
    defender.add_effect(attack_stage(2));
    let move_stats = MoveStats::new(40, 100);
    assert!(defender.defend(move_stats, StatStages::new()).is_none());

    let plain = combatant(100, 100, 100);
    let reply = plain.defend(move_stats, StatStages::new()).unwrap();
    assert_eq!(reply.0, StatStages::new());
    assert_eq!(reply.1, move_stats);
}

#[test]
fn flinch_cancels_offending() {
    let mut user = combatant(100, 100, 100);
    user.add_effect(LongTermEffect::Basic(BasicEffect::Flinch));
    let called = std::cell::Cell::new(false);
    let r = user.offend(MoveStats::new(40, 100), StatStages::new(), |m, o| {
        called.set(true);
        Some((StatStages::new(), m, o))
    });
    assert!(r.is_none());
    assert!(!called.get());
}

#[test]
fn offend_merges_defender_reply() {
    let mut user = combatant(100, 100, 100);
    user.add_effect(attack_stage(2));
    let opponent = StatStages { defense: 1, ..StatStages::new() };
    let r = user
        .offend(MoveStats::new(40, 100), opponent, |m, o| {
            assert_eq!(o.attack, 2);
            Some((StatStages { defense: 2, ..StatStages::new() }, m, o))
        })
        .unwrap();
    assert_eq!(r.0.attack, 2);
    assert_eq!(r.2.defense, 3);
}

#[test]
fn protected_defender_takes_no_damage() {
    let user = combatant(100, 100, 100);
    let mut target = combatant(100, 100, 100);
    target.add_effect(LongTermEffect::Basic(BasicEffect::Protect));
    let r = SimpleDamagingMove::new("Pound".to_string(), 40).attack_opponent(&mut target, &user, 0, 23);
    assert!(matches!(r, MoveResult::Failed));
    assert_eq!(target.hp(), 105);
}

#[test]
fn end_to_end_plain_damage() {
    assert_eq!(calculate_static_damage(100, 100, 40), 19);
    let user = combatant(100, 100, 100);
    let mut target = combatant(100, 100, 100);
    let r = SimpleDamagingMove::new("Pound".to_string(), 40).attack_opponent(&mut target, &user, 0, 23);
    match r {
        MoveResult::Succeeded(Some(MoveEvent::Damaged { rel_party_id, damage_amount })) => {
            assert_eq!(rel_party_id, RelativePartyId::Opposing);
            assert_eq!(damage_amount, 19);
        }
        _ => panic!("the move should have hit"),
    }
    assert_eq!(target.hp(), 86);
}

#[test]
fn end_to_end_boosted_attack() {
    let mut user = combatant(100, 100, 100);
    user.add_effect(attack_stage(2));
    assert_eq!(user.calc_stats().attack, 200);
    assert_eq!(user.calc_damage(40, 100), 37);
    let mut target = combatant(100, 100, 100);
    SimpleDamagingMove::new("Pound".to_string(), 40).attack_opponent(&mut target, &user, 0, 23);
    assert_eq!(target.hp(), 68);
}

#[test]
fn battlefield_attack_with_rolls_damages_opposing_side() {
    let mut user = combatant(100, 100, 100);
    user.add_effect(attack_stage(2));
    let mut field = Battlefield::new(
        Party::new_from_vec(vec![user]),
        Party::new_from_vec(vec![combatant(100, 100, 100)]),
        NopMessenger,
    );
    let r = field.attack_with_rolls(PartyId::Party1, &SimpleDamagingMove::new("Pound".to_string(), 40), 0, 23);
    assert!(matches!(r, MoveResult::Succeeded(Some(MoveEvent::Damaged { damage_amount: 37, .. }))));
    assert_eq!(field.party(PartyId::Party2).active().hp(), 68);
    assert_eq!(field.party(PartyId::Party1).active().hp(), 105);
    let r = field.attack_with_rolls(PartyId::Party2, &SimpleDamagingMove::new("Pound".to_string(), 40), 0, 23);
    assert!(matches!(r, MoveResult::Succeeded(_)));
    assert_eq!(field.party(PartyId::Party1).active().hp(), 86);
}

#[test]
fn accuracy_roll_at_or_above_accuracy_misses() {
    let user = combatant(100, 100, 100);
    let mut target = combatant(100, 100, 100);
    let mv = SimpleDamagingMove::new("Pound".to_string(), 40);
    let r = mv.attack_opponent(&mut target, &user, 100, 23);
    assert!(matches!(r, MoveResult::Missed));
    assert_eq!(target.hp(), 105);
    let r = mv.attack_opponent(&mut target, &user, 99, 23);
    assert!(matches!(r, MoveResult::Succeeded(_)));
}

#[test]
fn critical_hit_raises_damage_by_half() {
    assert_eq!(critical_odds(0), 24);
    assert_eq!(critical_odds(1), 8);
    assert_eq!(critical_odds(2), 2);
    assert_eq!(critical_odds(3), 1);
    assert_eq!(critical_odds(200), 1);
    assert!(critical_hit(0, 0));
    assert!(!critical_hit(0, 1));
    assert!(critical_hit(1, 2));
    assert!(!critical_hit(1, 3));
    assert!(critical_hit(2, 11));
    assert!(!critical_hit(2, 12));
    assert!(critical_hit(3, 23));
    assert_eq!(calculate_rolled_damage(100, 100, 40, 0, 0), 28);
    assert_eq!(calculate_rolled_damage(100, 100, 40, 0, 5), 19);
    assert_eq!(calculate_rolled_damage(100, 100, 40, 3, 23), 28);
    let user = combatant(100, 100, 100);
    let mut target = combatant(100, 100, 100);
    SimpleDamagingMove::new_crit("Slash".to_string(), 40, 3).attack_opponent(&mut target, &user, 0, 17);
    assert_eq!(target.hp(), 105 - 28);
}

#[test]
fn static_damage_saturates() {
    assert_eq!(calculate_static_damage(u32::MAX, 1, u32::MAX), u32::MAX);
    assert_eq!(calculate_static_damage(0, 5, 100), 2);
    assert_eq!(calculate_static_damage(200, 100, 40), 37);
}

#[test]
fn random_damage_is_static_or_critical() {
    for _ in 0..50 {
        let d = calculate_random_damage(100, 100, 40, 0);
        assert!(d == 19 || d == 28);
        assert_eq!(calculate_random_damage(100, 100, 40, 3), 28);
    }
}

#[test]
fn rolls_stay_below_their_bounds() {
    for _ in 0..200 {
        assert!(roll_accuracy() < 100);
        assert!(roll_critical() < 24);
    }
}

#[test]
fn switch_lock_refuses_switch() {
    let mut locked = combatant(100, 100, 100);
    locked.add_effect(LongTermEffect::Basic(BasicEffect::SwitchLock));
    assert!(!locked.may_switch());
    let mut party = Party::new_from_vec(vec![locked, combatant(50, 50, 50)]);
    assert!(!party.switch(1));
    assert_eq!(party.active().hp(), 105);
    assert_eq!(party.active_mut().hp(), 105);
}

#[test]
fn expiring_effect_detaches_on_third_tick() {
    let mut item = combatant(100, 100, 100);
    let follow_up = BasicEffect::DefenseStage(DefenseStageModifier::new(1));
    let timed = LongTermEffect::Expiring(ExpiringEffect::new(3, Some(follow_up)));
    item.add_effect(timed);
    assert_eq!(item.effects().len(), 1);
    assert_eq!(item.effects()[0].0, 0);
    item.turn();
    assert_eq!(item.effects().len(), 1);
    assert_eq!(item.effects()[0], (1, timed));
    item.turn();
    assert_eq!(item.effects()[0], (2, timed));
    assert_eq!(timed.turn(3).0, false);
    assert_eq!(timed.turn(2).0, true);
    item.turn();
    assert_eq!(item.effects().len(), 1);
    assert_eq!(item.effects()[0], (0, LongTermEffect::Basic(follow_up)));
    assert_eq!(item.calc_stages().defense, 1);
    item.turn();
    assert_eq!(item.effects()[0], (1, LongTermEffect::Basic(follow_up)));
}

#[test]
fn queued_short_lived_effect_does_not_tick_in_same_turn() {
    let mut item = combatant(100, 100, 100);
    item.add_effect(attack_stage(1));
    item.add_effect(LongTermEffect::Expiring(ExpiringEffect::new(1, Some(BasicEffect::Flinch))));
    item.turn();
    assert_eq!(item.effects().len(), 2);
    assert_eq!(item.effects()[0], (1, attack_stage(1)));
    assert_eq!(item.effects()[1], (0, LongTermEffect::Basic(BasicEffect::Flinch)));
}

#[test]
fn battlefield_turn_ticks_both_active_combatants() {
    let mut a = combatant(100, 100, 100);
    a.add_effect(LongTermEffect::Expiring(ExpiringEffect::new(1, None)));
    let mut b = combatant(100, 100, 100);
    b.add_effect(defense_stage(-1));
    let mut benched = combatant(10, 10, 10);
    benched.add_effect(defense_stage(1));
    let mut field = Battlefield::new(
        Party::new_from_vec(vec![a, benched]),
        Party::new_from_vec(vec![b]),
        NopMessenger,
    );
    field.turn();
    assert_eq!(field.party(PartyId::Party1).active().effects().len(), 0);
    assert_eq!(field.party(PartyId::Party2).active().effects()[0].0, 1);
    let (mine, theirs) = field.party_and_opposing(PartyId::Party1);
    assert_eq!(mine.active().hp(), 105);
    assert_eq!(theirs.active().calc_stages().defense, -1);
    let (mine, _) = field.party_and_opposing_mut(PartyId::Party1);
    assert!(mine.switch(1));
    assert_eq!(field.party(PartyId::Party1).active().effects()[0].0, 0);
}

#[test]
fn oneshot_sets_hp_and_leaves() {
    let mut item = combatant(100, 100, 100);
    item.add_effect(LongTermEffect::Basic(BasicEffect::Oneshot(OneshotEffect::new(40))));
    assert_eq!(item.hp(), 40);
    assert_eq!(item.effects().len(), 0);
    item.add_effect(LongTermEffect::Basic(BasicEffect::Oneshot(OneshotEffect::new(1000))));
    assert_eq!(item.hp(), 105);
}

#[test]
fn party_ids() {
    assert_eq!(PartyId::Party1.opposing(), PartyId::Party2);
    assert_eq!(PartyId::Party2.opposing(), PartyId::Party1);
    assert_eq!(PartyId::Party1.relative(RelativePartyId::User), PartyId::Party1);
    assert_eq!(PartyId::Party1.relative(RelativePartyId::Opposing), PartyId::Party2);
    assert_eq!(PartyId::from_u8(0), Some(PartyId::Party1));
    assert_eq!(PartyId::from_u8(1), Some(PartyId::Party2));
    assert_eq!(PartyId::from_u8(2), None);
    assert_eq!(u8::from(PartyId::Party2), 1);
    assert_eq!(u8::from(PartyId::Party1), 0);
}

#[test]
fn effect_names() {
    assert_eq!(attack_stage(1).get_name(), "attack_modifier");
    assert_eq!(defense_stage(1).get_name(), "defense_modifier");
    assert_eq!(LongTermEffect::Basic(BasicEffect::Oneshot(OneshotEffect::new(1))).get_name(), "oneshot");
}

#[test]
fn stats_constructors() {
    assert_eq!(Stats::new(), Stats::new_exact(100, 100, 100));
    assert_eq!(Stats::default(), Stats::new());
    assert_eq!(Stats::new_exact(1, 2, 3).calculate_hp(), 8);
    let d = dragon_battle::dragon::DragonData::new("Mew", Stats::new());
    assert_eq!(d.name, "Mew");
    let m = SimpleDamagingMove::new("Pound".to_string(), 40);
    assert_eq!(m.get_name(), "Pound");
    assert_eq!(m.move_stats(), MoveStats { accuracy: 100, base_power: 40, crit_calc: 0 });
}

struct RecordingMessenger {
    damaged: std::rc::Rc<std::cell::RefCell<Vec<(PartyId, u32)>>>,
}

impl Messenger for RecordingMessenger {
    fn on_attack(&self, _field: &Battlefield<Self>, _party: PartyId, _move_name: &str) {}
    fn on_damage(&self, _field: &Battlefield<Self>, party: PartyId, amount: u32) {
        self.damaged.borrow_mut().push((party, amount));
    }
    fn on_switch(&self, _field: &Battlefield<Self>, _party: PartyId, _origin: u8, _next: u8) {}
    fn on_effect_applied(&self, _field: &Battlefield<Self>, _party: PartyId, _effect_desc: &str) {}
}

#[test]
fn damage_is_reported_against_the_opposing_side() {
    let log = std::rc::Rc::new(std::cell::RefCell::new(Vec::new()));
    let mut field = Battlefield::new(
        Party::new_from_vec(vec![combatant(100, 100, 100)]),
        Party::new_from_vec(vec![combatant(100, 100, 100)]),
        RecordingMessenger { damaged: log.clone() },
    );
    let pound = SimpleDamagingMove::new("Pound".to_string(), 40);
    field.attack_with_rolls(PartyId::Party1, &pound, 0, 23);
    field.attack_with_rolls(PartyId::Party2, &pound, 0, 0);
    field.attack_with_rolls(PartyId::Party2, &pound, 100, 23);
    assert_eq!(*log.borrow(), vec![(PartyId::Party2, 19), (PartyId::Party1, 28)]);
    assert_eq!(field.party(PartyId::Party2).active().hp(), 86);
    assert_eq!(field.party(PartyId::Party1).active().hp(), 77);
}

#[test]
fn crit_odds_are_named() {
    assert_eq!(CRIT_ODDS_RANK_0, 24);
    assert_eq!(CRIT_ODDS_RANK_1, 8);
    assert_eq!(CRIT_ODDS_RANK_2, 2);
    assert_eq!(CRIT_ODDS_RANK_3, 1);
    assert_eq!(critical_odds(0), CRIT_ODDS_RANK_0);
}
