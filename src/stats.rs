//! The additive stat component and the full named stat block.
use vstd::prelude::*;

verus! {

/// The mathematical content of a [`Stat`]: five independent accumulators.
pub ghost struct StatModel {
    pub flat: int,
    pub percent: int,
    pub per_level: int,
    pub percent_base: int,
    pub percent_bonus: int,
}

/// The component with every field zero.
pub open spec fn zero_stat() -> StatModel {
    StatModel { flat: 0, percent: 0, per_level: 0, percent_base: 0, percent_bonus: 0 }
}

/// Field-by-field sum of two components.
pub open spec fn merged(a: StatModel, b: StatModel) -> StatModel {
    StatModel {
        flat: a.flat + b.flat,
        percent: a.percent + b.percent,
        per_level: a.per_level + b.per_level,
        percent_base: a.percent_base + b.percent_base,
        percent_bonus: a.percent_bonus + b.percent_bonus,
    }
}

/// `x` is representable as an `i64`.
pub open spec fn fits_i64(x: int) -> bool {
    i64::MIN <= x <= i64::MAX
}

/// Largest magnitude accepted for a field of a single source's component:
/// a billion stat points.
pub const STAT_LIMIT: i64 = 1_000_000_000_000_000;

/// Every field of `merged(a, b)` is representable as an `i64`.
pub open spec fn addable(a: StatModel, b: StatModel) -> bool {
    let m = merged(a, b);
    &&& fits_i64(m.flat)
    &&& fits_i64(m.percent)
    &&& fits_i64(m.per_level)
    &&& fits_i64(m.percent_base)
    &&& fits_i64(m.percent_bonus)
}

/// Every field of `s` lies in `[-limit, limit]`.
pub open spec fn stat_within(s: StatModel, limit: int) -> bool {
    &&& -limit <= s.flat <= limit
    &&& -limit <= s.percent <= limit
    &&& -limit <= s.per_level <= limit
    &&& -limit <= s.percent_base <= limit
    &&& -limit <= s.percent_bonus <= limit
}

/// One additive contribution to a named stat, from one source.
/// Values are in millionths of a stat point.
#[derive(Clone, Copy, Debug, PartialEq, Eq, Structural)]
pub struct Stat {
    pub flat: i64,
    pub percent: i64,
    pub per_level: i64,
    pub percent_base: i64,
    pub percent_bonus: i64,
}

impl View for Stat {
    type V = StatModel;

    open spec fn view(&self) -> StatModel {
        StatModel {
            flat: self.flat as int,
            percent: self.percent as int,
            per_level: self.per_level as int,
            percent_base: self.percent_base as int,
            percent_bonus: self.percent_bonus as int,
        }
    }
}

impl Stat {
    /// The zero component.
    pub fn new() -> (r: Stat)
        ensures
            r@ == zero_stat(),
    {
        Stat { flat: 0, percent: 0, per_level: 0, percent_base: 0, percent_bonus: 0 }
    }

    /// Whether every field lies in `[-limit, limit]`.
    pub fn is_within(&self, limit: i64) -> (r: bool)
        requires
            limit >= 0,
        ensures
            r == stat_within(self@, limit as int),
    {
        -limit <= self.flat && self.flat <= limit && -limit <= self.percent && self.percent <= limit
            && -limit <= self.per_level && self.per_level <= limit && -limit <= self.percent_base
            && self.percent_base <= limit && -limit <= self.percent_bonus && self.percent_bonus <= limit
    }
}

impl Default for Stat {
    fn default() -> (r: Stat)
        ensures
            r@ == zero_stat(),
    {
        Stat::new()
    }
}

/// Merges two components: every field of the result is the sum of the
/// corresponding fields.
pub fn add(stat1: &Stat, stat2: &Stat) -> (r: Stat)
    requires
        addable(stat1@, stat2@),
    ensures
        r@ == merged(stat1@, stat2@),
{
    Stat {
        flat: stat1.flat + stat2.flat,
        percent: stat1.percent + stat2.percent,
        per_level: stat1.per_level + stat2.per_level,
        percent_base: stat1.percent_base + stat2.percent_base,
        percent_bonus: stat1.percent_bonus + stat2.percent_bonus,
    }
}

/// Number of named stats in a [`Stats`] block.
pub const STAT_COUNT: usize = 21;

/// A block with every stat zero.
pub open spec fn zero_block() -> Seq<StatModel> {
    Seq::new(STAT_COUNT as nat, |i: int| zero_stat())
}

/// Stat-by-stat merge of two blocks.
pub open spec fn merged_block(a: Seq<StatModel>, b: Seq<StatModel>) -> Seq<StatModel> {
    Seq::new(STAT_COUNT as nat, |i: int| merged(a[i], b[i]))
}

/// Every stat of `merged_block(a, b)` is representable.
pub open spec fn block_addable(a: Seq<StatModel>, b: Seq<StatModel>) -> bool {
    forall|i: int| 0 <= i < STAT_COUNT ==> #[trigger] addable(a[i], b[i])
}

/// Every field of every stat of `a` lies in `[-limit, limit]`.
pub open spec fn block_within(a: Seq<StatModel>, limit: int) -> bool {
    forall|i: int| 0 <= i < STAT_COUNT ==> #[trigger] stat_within(a[i], limit)
}

/// The closed set of stat names; each names one field of [`Stats`].
#[derive(Clone, Copy, Debug, PartialEq, Eq, Structural)]
pub enum StatName {
    AbilityPower,
    Armor,
    ArmorPenetration,
    AttackDamage,
    AttackSpeed,
    CooldownReduction,
    CriticalStrikeChance,
    GoldPer10,
    HealAndShieldPower,
    Health,
    HealthRegen,
    Lethality,
    Lifesteal,
    MagicPenetration,
    MagicResistance,
    Mana,
    ManaRegen,
    Movespeed,
    AbilityHaste,
    Omnivamp,
    Tenacity,
}

impl StatName {
    /// Position of this stat in the view of a [`Stats`] block.
    pub open spec fn index(self) -> int {
        match self {
            StatName::AbilityPower => 0,
            StatName::Armor => 1,
            StatName::ArmorPenetration => 2,
            StatName::AttackDamage => 3,
            StatName::AttackSpeed => 4,
            StatName::CooldownReduction => 5,
            StatName::CriticalStrikeChance => 6,
            StatName::GoldPer10 => 7,
            StatName::HealAndShieldPower => 8,
            StatName::Health => 9,
            StatName::HealthRegen => 10,
            StatName::Lethality => 11,
            StatName::Lifesteal => 12,
            StatName::MagicPenetration => 13,
            StatName::MagicResistance => 14,
            StatName::Mana => 15,
            StatName::ManaRegen => 16,
            StatName::Movespeed => 17,
            StatName::AbilityHaste => 18,
            StatName::Omnivamp => 19,
            StatName::Tenacity => 20,
        }
    }
}

/// A full stat block: one component for every stat name, none missing.
#[derive(Clone, Copy, Debug, PartialEq, Eq, Structural)]
pub struct Stats {
    pub ability_power: Stat,
    pub armor: Stat,
    pub armor_penetration: Stat,
    pub attack_damage: Stat,
    pub attack_speed: Stat,
    pub cooldown_reduction: Stat,
    pub critical_strike_chance: Stat,
    pub gold_per_10: Stat,
    pub heal_and_shield_power: Stat,
    pub health: Stat,
    pub health_regen: Stat,
    pub lethality: Stat,
    pub lifesteal: Stat,
    pub magic_penetration: Stat,
    pub magic_resistance: Stat,
    pub mana: Stat,
    pub mana_regen: Stat,
    pub movespeed: Stat,
    pub ability_haste: Stat,
    pub omnivamp: Stat,
    pub tenacity: Stat,
}

/// A block is seen as the sequence of its components, in field order; a
/// stat's position is [`StatName::index`].
impl View for Stats {
    type V = Seq<StatModel>;

    open spec fn view(&self) -> Seq<StatModel> {
        seq![
            self.ability_power@,
            self.armor@,
            self.armor_penetration@,
            self.attack_damage@,
            self.attack_speed@,
            self.cooldown_reduction@,
            self.critical_strike_chance@,
            self.gold_per_10@,
            self.heal_and_shield_power@,
            self.health@,
            self.health_regen@,
            self.lethality@,
            self.lifesteal@,
            self.magic_penetration@,
            self.magic_resistance@,
            self.mana@,
            self.mana_regen@,
            self.movespeed@,
            self.ability_haste@,
            self.omnivamp@,
            self.tenacity@,
        ]
    }
}

impl Default for Stats {
    fn default() -> (r: Stats)
        ensures
            r@ == zero_block(),
    {
        Stats::new()
    }
}

impl Stats {
    /// The all-zero block.
    pub fn new() -> (r: Stats)
        ensures
            r@ == zero_block(),
    {
        let r = Stats {
            ability_power: Stat::new(),
            armor: Stat::new(),
            armor_penetration: Stat::new(),
            attack_damage: Stat::new(),
            attack_speed: Stat::new(),
            cooldown_reduction: Stat::new(),
            critical_strike_chance: Stat::new(),
            gold_per_10: Stat::new(),
            heal_and_shield_power: Stat::new(),
            health: Stat::new(),
            health_regen: Stat::new(),
            lethality: Stat::new(),
            lifesteal: Stat::new(),
            magic_penetration: Stat::new(),
            magic_resistance: Stat::new(),
            mana: Stat::new(),
            mana_regen: Stat::new(),
            movespeed: Stat::new(),
            ability_haste: Stat::new(),
            omnivamp: Stat::new(),
            tenacity: Stat::new(),
        };
        assert(r@ =~= zero_block());
        r
    }

    /// A copy of this block.
    pub fn get_stats(&self) -> (r: Stats)
        ensures
            r@ == self@,
    {
        *self
    }

    /// The all-zero block.
    pub fn create_stats() -> (r: Stats)
        ensures
            r@ == zero_block(),
    {
        Stats::new()
    }

    /// Merges two blocks stat by stat.
    pub fn add_stats(stats1: &Stats, stats2: &Stats) -> (r: Stats)
        requires
            block_addable(stats1@, stats2@),
        ensures
            r@ == merged_block(stats1@, stats2@),
    {
        assert(addable(stats1@[0], stats2@[0]));
        assert(addable(stats1@[1], stats2@[1]));
        assert(addable(stats1@[2], stats2@[2]));
        assert(addable(stats1@[3], stats2@[3]));
        assert(addable(stats1@[4], stats2@[4]));
        assert(addable(stats1@[5], stats2@[5]));
        assert(addable(stats1@[6], stats2@[6]));
        assert(addable(stats1@[7], stats2@[7]));
        assert(addable(stats1@[8], stats2@[8]));
        assert(addable(stats1@[9], stats2@[9]));
        assert(addable(stats1@[10], stats2@[10]));
        assert(addable(stats1@[11], stats2@[11]));
        assert(addable(stats1@[12], stats2@[12]));
        assert(addable(stats1@[13], stats2@[13]));
        assert(addable(stats1@[14], stats2@[14]));
        assert(addable(stats1@[15], stats2@[15]));
        assert(addable(stats1@[16], stats2@[16]));
        assert(addable(stats1@[17], stats2@[17]));
        assert(addable(stats1@[18], stats2@[18]));
        assert(addable(stats1@[19], stats2@[19]));
        assert(addable(stats1@[20], stats2@[20]));
        let r = Stats {
            ability_power: crate::stats::add(&stats1.ability_power, &stats2.ability_power),
            armor: crate::stats::add(&stats1.armor, &stats2.armor),
            armor_penetration: crate::stats::add(&stats1.armor_penetration, &stats2.armor_penetration),
            attack_damage: crate::stats::add(&stats1.attack_damage, &stats2.attack_damage),
            attack_speed: crate::stats::add(&stats1.attack_speed, &stats2.attack_speed),
            cooldown_reduction: crate::stats::add(&stats1.cooldown_reduction, &stats2.cooldown_reduction),
            critical_strike_chance: crate::stats::add(&stats1.critical_strike_chance, &stats2.critical_strike_chance),
            gold_per_10: crate::stats::add(&stats1.gold_per_10, &stats2.gold_per_10),
            heal_and_shield_power: crate::stats::add(&stats1.heal_and_shield_power, &stats2.heal_and_shield_power),
            health: crate::stats::add(&stats1.health, &stats2.health),
            health_regen: crate::stats::add(&stats1.health_regen, &stats2.health_regen),
            lethality: crate::stats::add(&stats1.lethality, &stats2.lethality),
            lifesteal: crate::stats::add(&stats1.lifesteal, &stats2.lifesteal),
            magic_penetration: crate::stats::add(&stats1.magic_penetration, &stats2.magic_penetration),
            magic_resistance: crate::stats::add(&stats1.magic_resistance, &stats2.magic_resistance),
            mana: crate::stats::add(&stats1.mana, &stats2.mana),
            mana_regen: crate::stats::add(&stats1.mana_regen, &stats2.mana_regen),
            movespeed: crate::stats::add(&stats1.movespeed, &stats2.movespeed),
            ability_haste: crate::stats::add(&stats1.ability_haste, &stats2.ability_haste),
            omnivamp: crate::stats::add(&stats1.omnivamp, &stats2.omnivamp),
            tenacity: crate::stats::add(&stats1.tenacity, &stats2.tenacity),
        };
        assert(r@ =~= merged_block(stats1@, stats2@));
        r
    }


    /// Whether every field of every stat lies in `[-limit, limit]`.
    pub fn is_within(&self, limit: i64) -> (r: bool)
        requires
            limit >= 0,
        ensures
            r == block_within(self@, limit as int),
    {
        let r = self.ability_power.is_within(limit)
            && self.armor.is_within(limit)
            && self.armor_penetration.is_within(limit)
            && self.attack_damage.is_within(limit)
            && self.attack_speed.is_within(limit)
            && self.cooldown_reduction.is_within(limit)
            && self.critical_strike_chance.is_within(limit)
            && self.gold_per_10.is_within(limit)
            && self.heal_and_shield_power.is_within(limit)
            && self.health.is_within(limit)
            && self.health_regen.is_within(limit)
            && self.lethality.is_within(limit)
            && self.lifesteal.is_within(limit)
            && self.magic_penetration.is_within(limit)
            && self.magic_resistance.is_within(limit)
            && self.mana.is_within(limit)
            && self.mana_regen.is_within(limit)
            && self.movespeed.is_within(limit)
            && self.ability_haste.is_within(limit)
            && self.omnivamp.is_within(limit)
            && self.tenacity.is_within(limit);
        proof {
            if !r {
                if !stat_within(self@[0], limit as int) { assert(!block_within(self@, limit as int)); }
                if !stat_within(self@[1], limit as int) { assert(!block_within(self@, limit as int)); }
                if !stat_within(self@[2], limit as int) { assert(!block_within(self@, limit as int)); }
                if !stat_within(self@[3], limit as int) { assert(!block_within(self@, limit as int)); }
                if !stat_within(self@[4], limit as int) { assert(!block_within(self@, limit as int)); }
                if !stat_within(self@[5], limit as int) { assert(!block_within(self@, limit as int)); }
                if !stat_within(self@[6], limit as int) { assert(!block_within(self@, limit as int)); }
                if !stat_within(self@[7], limit as int) { assert(!block_within(self@, limit as int)); }
                if !stat_within(self@[8], limit as int) { assert(!block_within(self@, limit as int)); }
                if !stat_within(self@[9], limit as int) { assert(!block_within(self@, limit as int)); }
                if !stat_within(self@[10], limit as int) { assert(!block_within(self@, limit as int)); }
                if !stat_within(self@[11], limit as int) { assert(!block_within(self@, limit as int)); }
                if !stat_within(self@[12], limit as int) { assert(!block_within(self@, limit as int)); }
                if !stat_within(self@[13], limit as int) { assert(!block_within(self@, limit as int)); }
                if !stat_within(self@[14], limit as int) { assert(!block_within(self@, limit as int)); }
                if !stat_within(self@[15], limit as int) { assert(!block_within(self@, limit as int)); }
                if !stat_within(self@[16], limit as int) { assert(!block_within(self@, limit as int)); }
                if !stat_within(self@[17], limit as int) { assert(!block_within(self@, limit as int)); }
                if !stat_within(self@[18], limit as int) { assert(!block_within(self@, limit as int)); }
                if !stat_within(self@[19], limit as int) { assert(!block_within(self@, limit as int)); }
                if !stat_within(self@[20], limit as int) { assert(!block_within(self@, limit as int)); }
            }
        }
        r
    }

    /// The component stored under `name`.
    pub fn get(&self, name: StatName) -> (r: Stat)
        ensures
            r@ == self@[name.index()],
    {
        match name {
            StatName::AbilityPower => self.ability_power,
            StatName::Armor => self.armor,
            StatName::ArmorPenetration => self.armor_penetration,
            StatName::AttackDamage => self.attack_damage,
            StatName::AttackSpeed => self.attack_speed,
            StatName::CooldownReduction => self.cooldown_reduction,
            StatName::CriticalStrikeChance => self.critical_strike_chance,
            StatName::GoldPer10 => self.gold_per_10,
            StatName::HealAndShieldPower => self.heal_and_shield_power,
            StatName::Health => self.health,
            StatName::HealthRegen => self.health_regen,
            StatName::Lethality => self.lethality,
            StatName::Lifesteal => self.lifesteal,
            StatName::MagicPenetration => self.magic_penetration,
            StatName::MagicResistance => self.magic_resistance,
            StatName::Mana => self.mana,
            StatName::ManaRegen => self.mana_regen,
            StatName::Movespeed => self.movespeed,
            StatName::AbilityHaste => self.ability_haste,
            StatName::Omnivamp => self.omnivamp,
            StatName::Tenacity => self.tenacity,
        }
    }

    /// Replaces the component stored under `name`, leaving every other stat.
    pub fn set(&mut self, name: StatName, stat: Stat)
        ensures
            final(self)@ == old(self)@.update(name.index(), stat@),
    {
        match name {
            StatName::AbilityPower => self.ability_power = stat,
            StatName::Armor => self.armor = stat,
            StatName::ArmorPenetration => self.armor_penetration = stat,
            StatName::AttackDamage => self.attack_damage = stat,
            StatName::AttackSpeed => self.attack_speed = stat,
            StatName::CooldownReduction => self.cooldown_reduction = stat,
            StatName::CriticalStrikeChance => self.critical_strike_chance = stat,
            StatName::GoldPer10 => self.gold_per_10 = stat,
            StatName::HealAndShieldPower => self.heal_and_shield_power = stat,
            StatName::Health => self.health = stat,
            StatName::HealthRegen => self.health_regen = stat,
            StatName::Lethality => self.lethality = stat,
            StatName::Lifesteal => self.lifesteal = stat,
            StatName::MagicPenetration => self.magic_penetration = stat,
            StatName::MagicResistance => self.magic_resistance = stat,
            StatName::Mana => self.mana = stat,
            StatName::ManaRegen => self.mana_regen = stat,
            StatName::Movespeed => self.movespeed = stat,
            StatName::AbilityHaste => self.ability_haste = stat,
            StatName::Omnivamp => self.omnivamp = stat,
            StatName::Tenacity => self.tenacity = stat,
        }
        assert(final(self)@ =~= old(self)@.update(name.index(), stat@));
    }
}

/// Merging components is associative: `(a + b) + c == a + (b + c)`.
pub proof fn lemma_add_associative(a: Stat, b: Stat, c: Stat)
    ensures
        merged(merged(a@, b@), c@) == merged(a@, merged(b@, c@)),
{
}

/// Merging components is commutative: `a + b == b + a`.
pub proof fn lemma_add_commutative(a: Stat, b: Stat)
    ensures
        merged(a@, b@) == merged(b@, a@),
{
}

/// The zero component is an identity for merging: `a + 0 == a == 0 + a`.
pub proof fn lemma_add_zero_identity(a: Stat)
    ensures
        merged(a@, zero_stat()) == a@,
        merged(zero_stat(), a@) == a@,
{
}

/// Merging blocks is commutative.
pub proof fn lemma_add_stats_commutative(a: Stats, b: Stats)
    ensures
        merged_block(a@, b@) == merged_block(b@, a@),
{
    assert(merged_block(a@, b@) =~= merged_block(b@, a@));
}

/// Merging blocks is associative.
pub proof fn lemma_add_stats_associative(a: Stats, b: Stats, c: Stats)
    ensures
        merged_block(merged_block(a@, b@), c@) == merged_block(a@, merged_block(b@, c@)),
{
    assert(merged_block(merged_block(a@, b@), c@) =~= merged_block(a@, merged_block(b@, c@)));
}

/// The all-zero block is an identity for merging blocks.
pub proof fn lemma_add_stats_zero_identity(a: Stats)
    ensures
        merged_block(a@, zero_block()) == a@,
        merged_block(zero_block(), a@) == a@,
{
    assert(merged_block(a@, zero_block()) =~= a@);
    assert(merged_block(zero_block(), a@) =~= a@);
}

/// Two blocks whose fields are bounded by `m` and `n` can be merged, and the
/// merge is bounded by `m + n`.
pub proof fn lemma_merged_block_within(a: Seq<StatModel>, b: Seq<StatModel>, m: int, n: int)
    requires
        block_within(a, m),
        block_within(b, n),
        0 <= m,
        0 <= n,
        m + n <= i64::MAX,
    ensures
        block_addable(a, b),
        block_within(merged_block(a, b), m + n),
{
    assert forall|i: int| 0 <= i < STAT_COUNT implies #[trigger] addable(a[i], b[i]) by {
        assert(stat_within(a[i], m));
        assert(stat_within(b[i], n));
    }
    assert forall|i: int| 0 <= i < STAT_COUNT implies #[trigger] stat_within(
        merged_block(a, b)[i],
        m + n,
    ) by {
        assert(stat_within(a[i], m));
        assert(stat_within(b[i], n));
    }
}

} // verus!
