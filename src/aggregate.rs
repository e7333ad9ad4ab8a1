//! Aggregation of a build's effective stats: base stats, adjustments and
//! equipped items merged, then the attack-speed correction; and the
//! level-scaled values shown to the player.
use vstd::prelude::*;
use crate::catalog::{find_item, get_item_stats, Catalog, ItemRecord};
use crate::player::{Player, EMPTY_SLOT, INVENTORY_SLOTS, MAX_LEVEL};
use crate::stats::{
    block_within, fits_i64, lemma_merged_block_within, merged_block, stat_within, zero_block,
    StatModel, StatName, Stats, STAT_COUNT, STAT_LIMIT,
};

verus! {

/// Stats that an inventory slot holding `id` contributes, if it resolves:
/// an empty slot and an id without a record contribute nothing.
pub open spec fn slot_stats(id: u16, records: Seq<ItemRecord>) -> Option<Stats> {
    if id == EMPTY_SLOT {
        None
    } else {
        find_item(records, id as int)
    }
}

/// What a slot holding `id` adds: its item's stats, or nothing.
pub open spec fn slot_contribution(id: u16, records: Seq<ItemRecord>) -> Seq<StatModel> {
    match slot_stats(id, records) {
        Some(s) => s@,
        None => zero_block(),
    }
}

/// Sum of the contributions of the slots in `items`.
pub open spec fn items_total(items: Seq<u16>, records: Seq<ItemRecord>) -> Seq<StatModel>
    decreases items.len(),
{
    if items.len() == 0 {
        zero_block()
    } else {
        merged_block(
            items_total(items.drop_last(), records),
            slot_contribution(items.last(), records),
        )
    }
}

/// A block with a non-zero flat attack speed has it moved into the percent
/// field; any other block is left as it is.
pub open spec fn attack_speed_corrected(block: Seq<StatModel>) -> Seq<StatModel> {
    let k = StatName::AttackSpeed.index();
    let a = block[k];
    if a.flat != 0 {
        block.update(
            k,
            StatModel {
                flat: 0,
                percent: a.percent + a.flat,
                per_level: a.per_level,
                percent_base: a.percent_base,
                percent_bonus: a.percent_bonus,
            },
        )
    } else {
        block
    }
}

/// Effective stats of a build: base stats, adjustments and the total of the
/// equipped items merged, then the attack-speed correction, applied once.
pub open spec fn effective_model(
    base: Seq<StatModel>,
    bonus: Seq<StatModel>,
    items: Seq<u16>,
    records: Seq<ItemRecord>,
) -> Seq<StatModel> {
    attack_speed_corrected(merged_block(merged_block(base, bonus), items_total(items, records)))
}

/// Magnitude bound of an effective stat value: each of the two blocks and
/// six items adds at most [`STAT_LIMIT`], and the correction may add the
/// flat field to the percent one.
pub open spec fn effective_limit() -> int {
    16 * STAT_LIMIT
}

/// Widening a bound keeps a block within it.
proof fn lemma_block_within_wider(a: Seq<StatModel>, m: int, n: int)
    requires
        block_within(a, m),
        m <= n,
    ensures
        block_within(a, n),
{
    assert forall|i: int| 0 <= i < STAT_COUNT implies #[trigger] stat_within(a[i], n) by {
        assert(stat_within(a[i], m));
    }
}

/// Moves a non-zero flat attack speed into its percent field.
pub fn apply_attack_speed_correction(stats: &mut Stats)
    requires
        fits_i64(old(stats).attack_speed.flat + old(stats).attack_speed.percent),
    ensures
        final(stats)@ == attack_speed_corrected(old(stats)@),
{
    if stats.attack_speed.flat != 0 {
        stats.attack_speed.percent = stats.attack_speed.percent + stats.attack_speed.flat;
        stats.attack_speed.flat = 0;
    }
    proof {
        assert(final(stats)@ =~= attack_speed_corrected(old(stats)@));
    }
}

/// The build's effective stats. Slots whose item has no record contribute
/// nothing.
pub fn effective_stats(player: &Player, catalog: &Catalog) -> (r: Stats)
    requires
        player.wf(),
        catalog.wf(),
    ensures
        r@ == effective_model(
            player.base_stats@,
            player.stats@,
            player.items@,
            catalog.items@,
        ),
        block_within(r@, effective_limit()),
{
    let ghost start = merged_block(player.base_stats@, player.stats@);
    proof {
        lemma_merged_block_within(
            player.base_stats@,
            player.stats@,
            STAT_LIMIT as int,
            STAT_LIMIT as int,
        );
    }
    let mut merged = Stats::add_stats(&player.base_stats, &player.stats);
    let mut i: usize = 0;
    assert(player.items@.subrange(0, 0) =~= Seq::<u16>::empty());
    assert(merged@ =~= merged_block(start, zero_block()));
    while i < INVENTORY_SLOTS
        invariant
            player.wf(),
            catalog.wf(),
            i <= INVENTORY_SLOTS,
            merged@ == merged_block(
                start,
                items_total(player.items@.subrange(0, i as int), catalog.items@),
            ),
            block_within(merged@, (2 + i) * STAT_LIMIT),
        decreases INVENTORY_SLOTS - i,
    {
        let ghost prefix = player.items@.subrange(0, i as int + 1);
        let ghost total = items_total(player.items@.subrange(0, i as int), catalog.items@);
        assert(prefix.drop_last() =~= player.items@.subrange(0, i as int));
        assert(prefix.last() == player.items@[i as int]);
        let id = player.items[i];
        let found = if id == EMPTY_SLOT {
            None
        } else {
            get_item_stats(catalog, id)
        };
        match found {
            Some(s) => {
                proof {
                    lemma_merged_block_within(
                        merged@,
                        s@,
                        (2 + i) * STAT_LIMIT,
                        STAT_LIMIT as int,
                    );
                }
                merged = Stats::add_stats(&merged, &s);
                assert(merged@ =~= merged_block(start, merged_block(total, s@)));
            },
            None => {
                proof {
                    lemma_block_within_wider(merged@, (2 + i) * STAT_LIMIT, (3 + i) * STAT_LIMIT);
                    assert(merged@ =~= merged_block(start, merged_block(total, zero_block())));
                }
            },
        }
        i = i + 1;
    }
    assert(player.items@.subrange(0, INVENTORY_SLOTS as int) =~= player.items@);
    let ghost before = merged@;
    assert(stat_within(before[StatName::AttackSpeed.index()], 8 * STAT_LIMIT));
    apply_attack_speed_correction(&mut merged);
    assert forall|k: int| 0 <= k < STAT_COUNT implies #[trigger] stat_within(
        merged@[k],
        effective_limit(),
    ) by {
        assert(stat_within(before[k], 8 * STAT_LIMIT));
    }
    merged
}

/// Growth that `per_level` adds at `level`:
/// `per_level * (level - 1) * (0.7025 + 0.0175 * (level - 1))`, rounded
/// toward zero to a millionth of a stat point.
pub open spec fn level_growth(per_level: int, level: int) -> int {
    let x = per_level * ((level - 1) * (7025 + 175 * (level - 1)));
    if x >= 0 {
        x / 10000
    } else {
        -((-x) / 10000)
    }
}

/// A value shown at `level`: its base plus the growth of its per-level field.
pub open spec fn scaled_value(base: int, per_level: int, level: int) -> int {
    base + level_growth(per_level, level)
}

/// Computes [`scaled_value`].
fn scaled(base: i64, per_level: i64, level: u8) -> (r: i64)
    requires
        -effective_limit() <= base <= effective_limit(),
        -effective_limit() <= per_level <= effective_limit(),
        1 <= level <= MAX_LEVEL,
    ensures
        r == scaled_value(base as int, per_level as int, level as int),
{
    let l: i128 = level as i128 - 1;
    assert(0 <= l * (7025 + 175 * l) <= 170000) by (nonlinear_arith)
        requires
            0 <= l <= 17,
    ;
    let f: i128 = l * (7025 + 175 * l);
    let p: i128 = per_level as i128;
    assert(-effective_limit() * 170000 <= p * f <= effective_limit() * 170000) by (nonlinear_arith)
        requires
            0 <= f <= 170000,
            -effective_limit() <= p <= effective_limit(),
    ;
    let x: i128 = p * f;
    let g: i128 = if x >= 0 {
        x / 10000
    } else {
        -((-x) / 10000)
    };
    (base as i128 + g) as i64
}

/// The values shown for a build, in millionths of a stat point, paired
/// where the display shows two values together.
#[derive(Clone, Copy, Debug)]
pub struct UserStats {
    pub ability_power: i64,
    pub armor: i64,
    pub armor_penetration_and_lethality: (i64, i64),
    pub attack_damage: i64,
    pub attack_speed: i64,
    pub critical_strike_chance: i64,
    pub heal_and_shield_power: i64,
    pub health_and_regen: (i64, i64),
    pub lifesteal_and_omnivamp: (i64, i64),
    pub magic_penetration: (i64, i64),
    pub magic_resistance: i64,
    pub mana_and_regen: (i64, i64),
    pub movespeed: i64,
    pub ability_haste: i64,
    pub tenacity: i64,
}

/// `r` shows the block `m` at `level`: each value is the stat's flat field
/// (percent field for attack speed, lifesteal, omnivamp and tenacity) plus
/// the growth of its per-level field; armor penetration, lethality and magic
/// penetration are shown as they are.
pub open spec fn displayed(m: Seq<StatModel>, level: int, r: UserStats) -> bool {
    &&& r.ability_power == scaled_value(
        m[StatName::AbilityPower.index()].flat,
        m[StatName::AbilityPower.index()].per_level,
        level,
    )
    &&& r.armor == scaled_value(
        m[StatName::Armor.index()].flat,
        m[StatName::Armor.index()].per_level,
        level,
    )
    &&& r.attack_damage == scaled_value(
        m[StatName::AttackDamage.index()].flat,
        m[StatName::AttackDamage.index()].per_level,
        level,
    )
    &&& r.attack_speed == scaled_value(
        m[StatName::AttackSpeed.index()].percent,
        m[StatName::AttackSpeed.index()].per_level,
        level,
    )
    &&& r.critical_strike_chance == scaled_value(
        m[StatName::CriticalStrikeChance.index()].flat,
        m[StatName::CriticalStrikeChance.index()].per_level,
        level,
    )
    &&& r.heal_and_shield_power == scaled_value(
        m[StatName::HealAndShieldPower.index()].flat,
        m[StatName::HealAndShieldPower.index()].per_level,
        level,
    )
    &&& r.health_and_regen.0 == scaled_value(
        m[StatName::Health.index()].flat,
        m[StatName::Health.index()].per_level,
        level,
    )
    &&& r.health_and_regen.1 == scaled_value(
        m[StatName::HealthRegen.index()].flat,
        m[StatName::HealthRegen.index()].per_level,
        level,
    )
    &&& r.lifesteal_and_omnivamp.0 == scaled_value(
        m[StatName::Lifesteal.index()].percent,
        m[StatName::Lifesteal.index()].per_level,
        level,
    )
    &&& r.lifesteal_and_omnivamp.1 == scaled_value(
        m[StatName::Omnivamp.index()].percent,
        m[StatName::Omnivamp.index()].per_level,
        level,
    )
    &&& r.magic_resistance == scaled_value(
        m[StatName::MagicResistance.index()].flat,
        m[StatName::MagicResistance.index()].per_level,
        level,
    )
    &&& r.mana_and_regen.0 == scaled_value(
        m[StatName::Mana.index()].flat,
        m[StatName::Mana.index()].per_level,
        level,
    )
    &&& r.mana_and_regen.1 == scaled_value(
        m[StatName::ManaRegen.index()].flat,
        m[StatName::ManaRegen.index()].per_level,
        level,
    )
    &&& r.movespeed == scaled_value(
        m[StatName::Movespeed.index()].flat,
        m[StatName::Movespeed.index()].per_level,
        level,
    )
    &&& r.ability_haste == scaled_value(
        m[StatName::AbilityHaste.index()].flat,
        m[StatName::AbilityHaste.index()].per_level,
        level,
    )
    &&& r.tenacity == scaled_value(
        m[StatName::Tenacity.index()].percent,
        m[StatName::Tenacity.index()].per_level,
        level,
    )
    &&& r.armor_penetration_and_lethality.0 == m[StatName::ArmorPenetration.index()].percent
    &&& r.armor_penetration_and_lethality.1 == m[StatName::Lethality.index()].flat
    &&& r.magic_penetration.0 == m[StatName::MagicPenetration.index()].percent
    &&& r.magic_penetration.1 == m[StatName::MagicPenetration.index()].flat
}

/// Level-scaled display values of a merged block.
pub fn project_level_scaled_stats(merged: &Stats, level: u8) -> (r: UserStats)
    requires
        block_within(merged@, effective_limit()),
        1 <= level <= MAX_LEVEL,
    ensures
        displayed(merged@, level as int, r),
{
    assert(stat_within(merged@[0], effective_limit()));
    assert(stat_within(merged@[1], effective_limit()));
    assert(stat_within(merged@[2], effective_limit()));
    assert(stat_within(merged@[3], effective_limit()));
    assert(stat_within(merged@[4], effective_limit()));
    assert(stat_within(merged@[5], effective_limit()));
    assert(stat_within(merged@[6], effective_limit()));
    assert(stat_within(merged@[7], effective_limit()));
    assert(stat_within(merged@[8], effective_limit()));
    assert(stat_within(merged@[9], effective_limit()));
    assert(stat_within(merged@[10], effective_limit()));
    assert(stat_within(merged@[11], effective_limit()));
    assert(stat_within(merged@[12], effective_limit()));
    assert(stat_within(merged@[13], effective_limit()));
    assert(stat_within(merged@[14], effective_limit()));
    assert(stat_within(merged@[15], effective_limit()));
    assert(stat_within(merged@[16], effective_limit()));
    assert(stat_within(merged@[17], effective_limit()));
    assert(stat_within(merged@[18], effective_limit()));
    assert(stat_within(merged@[19], effective_limit()));
    assert(stat_within(merged@[20], effective_limit()));
    UserStats {
        ability_power: scaled(merged.ability_power.flat, merged.ability_power.per_level, level),
        armor: scaled(merged.armor.flat, merged.armor.per_level, level),
        armor_penetration_and_lethality: (merged.armor_penetration.percent, merged.lethality.flat),
        attack_damage: scaled(merged.attack_damage.flat, merged.attack_damage.per_level, level),
        attack_speed: scaled(merged.attack_speed.percent, merged.attack_speed.per_level, level),
        critical_strike_chance: scaled(
            merged.critical_strike_chance.flat,
            merged.critical_strike_chance.per_level,
            level,
        ),
        heal_and_shield_power: scaled(
            merged.heal_and_shield_power.flat,
            merged.heal_and_shield_power.per_level,
            level,
        ),
        health_and_regen: (
            scaled(merged.health.flat, merged.health.per_level, level),
            scaled(merged.health_regen.flat, merged.health_regen.per_level, level),
        ),
        lifesteal_and_omnivamp: (
            scaled(merged.lifesteal.percent, merged.lifesteal.per_level, level),
            scaled(merged.omnivamp.percent, merged.omnivamp.per_level, level),
        ),
        magic_penetration: (merged.magic_penetration.percent, merged.magic_penetration.flat),
        magic_resistance: scaled(
            merged.magic_resistance.flat,
            merged.magic_resistance.per_level,
            level,
        ),
        mana_and_regen: (
            scaled(merged.mana.flat, merged.mana.per_level, level),
            scaled(merged.mana_regen.flat, merged.mana_regen.per_level, level),
        ),
        movespeed: scaled(merged.movespeed.flat, merged.movespeed.per_level, level),
        ability_haste: scaled(merged.ability_haste.flat, merged.ability_haste.per_level, level),
        tenacity: scaled(merged.tenacity.percent, merged.tenacity.per_level, level),
    }
}

/// Level-scaled display values of the build's effective stats.
pub fn display_stats(player: &Player, catalog: &Catalog) -> (r: UserStats)
    requires
        player.wf(),
        catalog.wf(),
    ensures
        displayed(
            effective_model(player.base_stats@, player.stats@, player.items@, catalog.items@),
            player.level as int,
            r,
        ),
{
    let merged = effective_stats(player, catalog);
    project_level_scaled_stats(&merged, player.level)
}

/// A build's state with its effective stats, as reported to the player.
#[derive(Debug)]
pub struct PlayerStats {
    pub champion: String,
    pub level: u8,
    pub skill_points: [u8; 4],
    pub items: [u16; 6],
    pub stats: Stats,
}

/// The build's state together with its effective stats.
pub fn get_player(player: &Player, catalog: &Catalog) -> (r: PlayerStats)
    requires
        player.wf(),
        catalog.wf(),
    ensures
        r.champion@ == player.champ@,
        r.level == player.level,
        r.skill_points == player.skill_points,
        r.items == player.items,
        r.stats@ == effective_model(
            player.base_stats@,
            player.stats@,
            player.items@,
            catalog.items@,
        ),
{
    PlayerStats {
        champion: player.champ.clone(),
        level: player.level,
        skill_points: player.skill_points,
        items: player.items,
        stats: effective_stats(player, catalog),
    }
}

/// Every sum of slot contributions is a full block.
proof fn lemma_items_total_len(items: Seq<u16>, records: Seq<ItemRecord>)
    ensures
        items_total(items, records).len() == STAT_COUNT,
{
}

/// The total of a concatenation is the merge of the totals.
proof fn lemma_items_total_concat(a: Seq<u16>, b: Seq<u16>, records: Seq<ItemRecord>)
    ensures
        items_total(a + b, records) == merged_block(items_total(a, records), items_total(b, records)),
    decreases b.len(),
{
    if b.len() == 0 {
        assert(a + b =~= a);
        lemma_items_total_len(a, records);
        assert(items_total(a, records) =~= merged_block(items_total(a, records), zero_block()));
    } else {
        assert((a + b).drop_last() =~= a + b.drop_last());
        assert((a + b).last() == b.last());
        lemma_items_total_concat(a, b.drop_last(), records);
        assert(items_total(a + b, records) =~= merged_block(
            items_total(a, records),
            items_total(b, records),
        ));
    }
}

/// Replacing a slot by one with the same contribution keeps the total.
proof fn lemma_items_total_replace(items: Seq<u16>, records: Seq<ItemRecord>, slot: int, id: u16)
    requires
        0 <= slot < items.len(),
        slot_contribution(items[slot], records) == slot_contribution(id, records),
    ensures
        items_total(items.update(slot, id), records) == items_total(items, records),
    decreases items.len(),
{
    let updated = items.update(slot, id);
    if slot == items.len() - 1 {
        assert(updated.drop_last() =~= items.drop_last());
    } else {
        assert(updated.drop_last() =~= items.drop_last().update(slot, id));
        lemma_items_total_replace(items.drop_last(), records, slot, id);
    }
}

/// An item id without a record contributes nothing: putting it into an
/// empty slot leaves the build's effective stats as they were.
pub proof fn lemma_unknown_item_contributes_nothing(
    player: Player,
    catalog: Catalog,
    slot: int,
    id: u16,
)
    requires
        0 <= slot < INVENTORY_SLOTS,
        player.items@[slot] == EMPTY_SLOT,
        find_item(catalog.items@, id as int) is None,
    ensures
        effective_model(
            player.base_stats@,
            player.stats@,
            player.items@.update(slot, id),
            catalog.items@,
        ) == effective_model(player.base_stats@, player.stats@, player.items@, catalog.items@),
{
    lemma_items_total_replace(player.items@, catalog.items@, slot, id);
}

/// The order of the items does not matter: exchanging the contents of two
/// slots leaves the build's effective stats as they were.
pub proof fn lemma_item_order_irrelevant(player: Player, catalog: Catalog, i: int, j: int)
    requires
        0 <= i < INVENTORY_SLOTS,
        0 <= j < INVENTORY_SLOTS,
    ensures
        effective_model(
            player.base_stats@,
            player.stats@,
            player.items@.update(i, player.items@[j]).update(j, player.items@[i]),
            catalog.items@,
        ) == effective_model(player.base_stats@, player.stats@, player.items@, catalog.items@),
{
    let items = player.items@;
    let records = catalog.items@;
    let swapped = items.update(i, items[j]).update(j, items[i]);
    if i == j {
        assert(swapped =~= items);
    } else {
        let lo = if i < j { i } else { j };
        let hi = if i < j { j } else { i };
        let a = items.subrange(0, lo);
        let x = items.subrange(lo, lo + 1);
        let b = items.subrange(lo + 1, hi);
        let y = items.subrange(hi, hi + 1);
        let c = items.subrange(hi + 1, items.len() as int);
        assert(items =~= a + x + b + y + c);
        assert(swapped =~= a + y + b + x + c);
        lemma_items_total_concat(a + x + b + y, c, records);
        lemma_items_total_concat(a + x + b, y, records);
        lemma_items_total_concat(a + x, b, records);
        lemma_items_total_concat(a, x, records);
        lemma_items_total_concat(a + y + b + x, c, records);
        lemma_items_total_concat(a + y + b, x, records);
        lemma_items_total_concat(a + y, b, records);
        lemma_items_total_concat(a, y, records);
        assert(items_total(swapped, records) =~= items_total(items, records));
    }
}

} // verus!
