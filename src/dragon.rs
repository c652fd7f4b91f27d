use vstd::prelude::*;
use vstd::arithmetic::div_mod::{lemma_div_is_ordered, lemma_div_is_ordered_by_denominator};
use vstd::arithmetic::mul::lemma_mul_inequality;

verus! {

/// Hit points every combatant gets on top of its base hp stat.
pub const HP_BONUS: u32 = 5;

/// Base statistics of a combatant.
#[derive(Clone, Copy, PartialEq, Eq, Structural, Debug)]
pub struct Stats {
    pub attack: u32,
    pub defense: u32,
    pub hp: u32,
}

/// Transient stage modifiers, recomputed from the effect chain on demand.
#[derive(Clone, Copy, PartialEq, Eq, Structural, Debug)]
pub struct StatStages {
    pub attack: i8,
    pub defense: i8,
    pub accuracy: i8,
    pub evasion: i8,
}

/// A named species or build together with its base stats.
pub struct DragonData {
    pub name: String,
    pub base_stats: Stats,
}

impl DragonData {
    pub fn new(name: &str, base_stats: Stats) -> (r: Self)
        ensures
            r.name@ == name@,
            r.base_stats == base_stats,
    {
        Self { name: name.to_owned(), base_stats }
    }
}

/// The runtime state of one combatant: its base stats, which stay as they were
/// built, and its current hit points.
#[derive(Clone, Copy, PartialEq, Eq, Structural, Debug)]
pub struct BattleDragon {
    pub base_stats: Stats,
    pub hp: u32,
}

impl BattleDragon {
    /// Maximum hit points: the base hp plus `HP_BONUS`.
    pub open spec fn max_hp(&self) -> int {
        self.base_stats.hp + HP_BONUS
    }

    /// A fresh combatant at full hit points.
    pub fn new(base_stats: Stats) -> (r: BattleDragon)
        requires
            base_stats.hp + HP_BONUS <= u32::MAX,
        ensures
            r.base_stats == base_stats,
            r.hp == r.max_hp(),
    {
        Self { hp: base_stats.calculate_hp(), base_stats }
    }

    pub fn stats(&self) -> (r: &Stats)
        ensures
            *r == self.base_stats,
    {
        &self.base_stats
    }
}

/// Clamps a mathematical integer into the range of `i8`.
pub open spec fn clamp_i8(v: int) -> i8 {
    if v > 127 {
        127i8
    } else if v < -128 {
        -128i8
    } else {
        v as i8
    }
}

/// Sum of two stages; stage arithmetic saturates at the bounds of `i8`.
pub open spec fn stage_sum(a: i8, b: i8) -> i8 {
    clamp_i8(a + b)
}

/// Difference of two stages, saturating like `stage_sum`.
pub open spec fn stage_diff(a: i8, b: i8) -> i8 {
    clamp_i8(a - b)
}

/// The all-zero stage set.
pub open spec fn zero_stages() -> StatStages {
    StatStages { attack: 0, defense: 0, accuracy: 0, evasion: 0 }
}

/// Elementwise sum of two stage sets.
pub open spec fn combine(a: StatStages, b: StatStages) -> StatStages {
    StatStages {
        attack: stage_sum(a.attack, b.attack),
        defense: stage_sum(a.defense, b.defense),
        accuracy: stage_sum(a.accuracy, b.accuracy),
        evasion: stage_sum(a.evasion, b.evasion),
    }
}

/// Numerator of the stage multiplier: `max(2, 2 + stage)`.
pub open spec fn stage_numerator(stage: i8) -> int {
    if 2 + stage > 2 {
        2 + stage
    } else {
        2
    }
}

/// Denominator of the stage multiplier: `max(2, 2 - stage)`.
pub open spec fn stage_denominator(stage: i8) -> int {
    if 2 - stage > 2 {
        2 - stage
    } else {
        2
    }
}

/// A value scaled by a stage, `base * max(2, 2 + stage) / max(2, 2 - stage)`,
/// capped at `u32::MAX`.
pub open spec fn staged(base: u32, stage: i8) -> u32 {
    let v = base * stage_numerator(stage) / stage_denominator(stage);
    if v > u32::MAX {
        u32::MAX
    } else {
        v as u32
    }
}

/// Base stats with the attack and defense stages applied; hp is left as it is.
pub open spec fn staged_stats(base: Stats, stages: StatStages) -> Stats {
    Stats {
        attack: staged(base.attack, stages.attack),
        defense: staged(base.defense, stages.defense),
        hp: base.hp,
    }
}

/// Adds two stages, saturating at the bounds of `i8`.
pub fn add_stage(a: i8, b: i8) -> (r: i8)
    ensures
        r == stage_sum(a, b),
{
    let s: i16 = a as i16 + b as i16;
    if s > 127 {
        127
    } else if s < -128 {
        -128
    } else {
        s as i8
    }
}

/// Subtracts one stage from another, saturating at the bounds of `i8`.
pub fn sub_stage(a: i8, b: i8) -> (r: i8)
    ensures
        r == stage_diff(a, b),
{
    let s: i16 = a as i16 - b as i16;
    if s > 127 {
        127
    } else if s < -128 {
        -128
    } else {
        s as i8
    }
}

/// Scales `base_value` by the multiplier of `stage`.
pub fn apply_stat_stage(base_value: u32, stage: i8) -> (r: u32)
    ensures
        r == staged(base_value, stage),
{
    let num: u64 = if stage > 0 { 2 + stage as u64 } else { 2 };
    let den: u64 = if stage < 0 { (2 - stage as i16) as u64 } else { 2 };
    assert(base_value as u64 * num <= u32::MAX as u64 * 129) by (nonlinear_arith)
        requires num <= 129;
    let v: u64 = base_value as u64 * num / den;
    if v > u32::MAX as u64 {
        u32::MAX
    } else {
        v as u32
    }
}

impl Stats {
    /// The default build: 100 in every stat.
    pub fn new() -> (r: Self)
        ensures
            r == (Stats { attack: 100, defense: 100, hp: 100 }),
    {
        Self { attack: 100, defense: 100, hp: 100 }
    }

    pub fn new_exact(attack: u32, defense: u32, hp: u32) -> (r: Self)
        ensures
            r == (Stats { attack, defense, hp }),
    {
        Self { attack, defense, hp }
    }

    /// Effective stats under `stages`.
    pub fn apply_stages(&self, stages: StatStages) -> (r: Self)
        ensures
            r == staged_stats(*self, stages),
    {
        Self {
            attack: apply_stat_stage(self.attack, stages.attack),
            defense: apply_stat_stage(self.defense, stages.defense),
            hp: self.hp,
        }
    }

    /// Maximum hit points: the base hp plus `HP_BONUS`.
    pub fn calculate_hp(&self) -> (r: u32)
        requires
            self.hp + HP_BONUS <= u32::MAX,
        ensures
            r == self.hp + HP_BONUS,
    {
        self.hp + HP_BONUS
    }
}

impl StatStages {
    /// All stages at zero.
    pub fn new() -> (r: Self)
        ensures
            r == zero_stages(),
    {
        Self { attack: 0, defense: 0, accuracy: 0, evasion: 0 }
    }

    /// Elementwise (saturating) sum of two stage sets.
    pub fn combine(self, other: StatStages) -> (r: Self)
        ensures
            r == combine(self, other),
    {
        Self {
            attack: add_stage(self.attack, other.attack),
            defense: add_stage(self.defense, other.defense),
            accuracy: add_stage(self.accuracy, other.accuracy),
            evasion: add_stage(self.evasion, other.evasion),
        }
    }
}

impl Default for Stats {
    fn default() -> (r: Self)
        ensures
            r == (Stats { attack: 100, defense: 100, hp: 100 }),
    {
        Self::new()
    }
}

impl Default for StatStages {
    fn default() -> (r: Self)
        ensures
            r == zero_stages(),
    {
        Self::new()
    }
}

impl core::ops::Mul<StatStages> for Stats {
    type Output = Stats;

    fn mul(self, rhs: StatStages) -> (r: Stats)
        ensures
            r == staged_stats(self, rhs),
    {
        self.apply_stages(rhs)
    }
}

impl vstd::std_specs::ops::MulSpecImpl<StatStages> for Stats {
    open spec fn obeys_mul_spec() -> bool {
        true
    }

    open spec fn mul_req(self, rhs: StatStages) -> bool {
        true
    }

    open spec fn mul_spec(self, rhs: StatStages) -> Stats {
        staged_stats(self, rhs)
    }
}

impl core::ops::Add<StatStages> for StatStages {
    type Output = StatStages;

    fn add(self, rhs: StatStages) -> (r: StatStages)
        ensures
            r == combine(self, rhs),
    {
        self.combine(rhs)
    }
}

impl vstd::std_specs::ops::AddSpecImpl<StatStages> for StatStages {
    open spec fn obeys_add_spec() -> bool {
        true
    }

    open spec fn add_req(self, rhs: StatStages) -> bool {
        true
    }

    open spec fn add_spec(self, rhs: StatStages) -> StatStages {
        combine(self, rhs)
    }
}

/// A stage scales a value by no more than its sign allows: a stage at or below
/// zero never raises it, and a stage at or above zero never lowers it.
proof fn lemma_staged_against_base(base: u32, stage: i8)
    ensures
        stage <= 0 ==> staged(base, stage) <= base,
        stage >= 0 ==> staged(base, stage) >= base,
{
    let n = stage_numerator(stage);
    let d = stage_denominator(stage);
    if stage <= 0 {
        lemma_div_is_ordered_by_denominator(base * 2, 2, d);
        assert((base * 2) / 2 == base);
    } else {
        lemma_mul_inequality(2, n, base as int);
        lemma_div_is_ordered(base * 2, base * n, 2);
        assert((base * 2) / 2 == base);
    }
}

/// Scaling by a stage is monotonic: a strictly higher stage never gives a
/// smaller value.
pub proof fn lemma_staged_monotonic(base: u32, lo: i8, hi: i8)
    requires
        lo < hi,
    ensures
        staged(base, lo) <= staged(base, hi),
{
    if hi <= 0 {
        lemma_div_is_ordered_by_denominator(
            base * 2,
            stage_denominator(hi),
            stage_denominator(lo),
        );
    } else if lo >= 0 {
        let (nl, nh) = (stage_numerator(lo), stage_numerator(hi));
        assert(base * nl <= base * nh) by (nonlinear_arith)
            requires
                nl <= nh,
                base >= 0,
        ;
        lemma_div_is_ordered(base * stage_numerator(lo), base * stage_numerator(hi), 2);
    } else {
        lemma_staged_against_base(base, lo);
        lemma_staged_against_base(base, hi);
    }
}

/// For fixed base stats, a strictly higher attack stage never gives a lower
/// effective attack, and a strictly higher defense stage never gives a lower
/// effective defense.
pub proof fn lemma_apply_stages_monotonic(base: Stats, lo: StatStages, hi: StatStages)
    ensures
        lo.attack < hi.attack ==> staged_stats(base, lo).attack <= staged_stats(base, hi).attack,
        lo.defense < hi.defense ==> staged_stats(base, lo).defense <= staged_stats(
            base,
            hi,
        ).defense,
        staged_stats(base, lo).hp == base.hp,
{
    if lo.attack < hi.attack {
        lemma_staged_monotonic(base.attack, lo.attack, hi.attack);
    }
    if lo.defense < hi.defense {
        lemma_staged_monotonic(base.defense, lo.defense, hi.defense);
    }
}

/// Combining stage sets is commutative, and the zero stage set is its identity.
pub proof fn lemma_combine_commutative_identity(a: StatStages, b: StatStages)
    ensures
        combine(a, b) == combine(b, a),
        combine(zero_stages(), a) == a,
        combine(a, zero_stages()) == a,
{
}

} // verus!
