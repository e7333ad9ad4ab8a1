//! Stat records as the game-data source writes them, and an in-memory
//! catalog of champion and item records to look them up by name or id.
use vstd::prelude::*;
use crate::stats::{
    block_within, zero_block, Stat, StatModel, StatName, Stats, STAT_LIMIT,
};

verus! {

/// Whether two strings hold the same characters.
fn str_eq(a: &str, b: &str) -> (r: bool)
    ensures
        r == (a@ == b@),
{
    let x: String = a.to_owned();
    let y: String = b.to_owned();
    x == y
}

/// The stat that a record key names, if any.
pub open spec fn stat_name_of_key(key: Seq<char>) -> Option<StatName> {
    if key == "abilityPower"@ {
        Some(StatName::AbilityPower)
    } else if key == "armor"@ {
        Some(StatName::Armor)
    } else if key == "armorPenetration"@ {
        Some(StatName::ArmorPenetration)
    } else if key == "attackDamage"@ {
        Some(StatName::AttackDamage)
    } else if key == "attackSpeed"@ {
        Some(StatName::AttackSpeed)
    } else if key == "cooldownReduction"@ {
        Some(StatName::CooldownReduction)
    } else if key == "criticalStrikeChance"@ {
        Some(StatName::CriticalStrikeChance)
    } else if key == "goldPer_10"@ {
        Some(StatName::GoldPer10)
    } else if key == "healAndShieldPower"@ {
        Some(StatName::HealAndShieldPower)
    } else if key == "health"@ {
        Some(StatName::Health)
    } else if key == "healthRegen"@ {
        Some(StatName::HealthRegen)
    } else if key == "lethality"@ {
        Some(StatName::Lethality)
    } else if key == "lifesteal"@ {
        Some(StatName::Lifesteal)
    } else if key == "magicPenetration"@ {
        Some(StatName::MagicPenetration)
    } else if key == "magicResistance"@ {
        Some(StatName::MagicResistance)
    } else if key == "mana"@ {
        Some(StatName::Mana)
    } else if key == "manaRegen"@ {
        Some(StatName::ManaRegen)
    } else if key == "movespeed"@ {
        Some(StatName::Movespeed)
    } else if key == "abilityHaste"@ {
        Some(StatName::AbilityHaste)
    } else if key == "omnivamp"@ {
        Some(StatName::Omnivamp)
    } else if key == "tenacity"@ {
        Some(StatName::Tenacity)
    } else {
        None
    }
}

impl StatName {
    /// The stat that a record key names; `None` for keys outside the set.
    pub fn from_key(key: &str) -> (r: Option<StatName>)
        ensures
            r == stat_name_of_key(key@),
    {
        if str_eq(key, "abilityPower") {
            Some(StatName::AbilityPower)
        } else if str_eq(key, "armor") {
            Some(StatName::Armor)
        } else if str_eq(key, "armorPenetration") {
            Some(StatName::ArmorPenetration)
        } else if str_eq(key, "attackDamage") {
            Some(StatName::AttackDamage)
        } else if str_eq(key, "attackSpeed") {
            Some(StatName::AttackSpeed)
        } else if str_eq(key, "cooldownReduction") {
            Some(StatName::CooldownReduction)
        } else if str_eq(key, "criticalStrikeChance") {
            Some(StatName::CriticalStrikeChance)
        } else if str_eq(key, "goldPer_10") {
            Some(StatName::GoldPer10)
        } else if str_eq(key, "healAndShieldPower") {
            Some(StatName::HealAndShieldPower)
        } else if str_eq(key, "health") {
            Some(StatName::Health)
        } else if str_eq(key, "healthRegen") {
            Some(StatName::HealthRegen)
        } else if str_eq(key, "lethality") {
            Some(StatName::Lethality)
        } else if str_eq(key, "lifesteal") {
            Some(StatName::Lifesteal)
        } else if str_eq(key, "magicPenetration") {
            Some(StatName::MagicPenetration)
        } else if str_eq(key, "magicResistance") {
            Some(StatName::MagicResistance)
        } else if str_eq(key, "mana") {
            Some(StatName::Mana)
        } else if str_eq(key, "manaRegen") {
            Some(StatName::ManaRegen)
        } else if str_eq(key, "movespeed") {
            Some(StatName::Movespeed)
        } else if str_eq(key, "abilityHaste") {
            Some(StatName::AbilityHaste)
        } else if str_eq(key, "omnivamp") {
            Some(StatName::Omnivamp)
        } else if str_eq(key, "tenacity") {
            Some(StatName::Tenacity)
        } else {
            None
        }
    }
}

/// One stat of a record: the key it is stored under and its five values.
#[derive(Debug)]
pub struct StatEntry {
    pub key: String,
    pub stat: Stat,
}

/// The block that a record's entries describe: each entry whose key names a
/// stat sets that stat (a later entry wins over an earlier one); every other
/// stat is zero.
pub open spec fn entries_block(entries: Seq<StatEntry>) -> Seq<StatModel>
    decreases entries.len(),
{
    if entries.len() == 0 {
        zero_block()
    } else {
        let prev = entries_block(entries.drop_last());
        match stat_name_of_key(entries.last().key@) {
            Some(name) => prev.update(name.index(), entries.last().stat@),
            None => prev,
        }
    }
}

/// Builds the stat block of a record from its entries; keys that name no
/// stat are ignored.
pub fn map_base_stats(entries: &Vec<StatEntry>) -> (r: Stats)
    ensures
        r@ == entries_block(entries@),
{
    let mut stats = Stats::new();
    let mut i: usize = 0;
    while i < entries.len()
        invariant
            i <= entries@.len(),
            stats@ == entries_block(entries@.subrange(0, i as int)),
        decreases entries@.len() - i,
    {
        let entry = &entries[i];
        proof {
            let pre = entries@.subrange(0, i as int + 1);
            assert(pre.drop_last() =~= entries@.subrange(0, i as int));
            assert(pre.last() == entries@[i as int]);
        }
        match StatName::from_key(entry.key.as_str()) {
            Some(name) => stats.set(name, entry.stat),
            None => {},
        }
        i = i + 1;
    }
    assert(entries@.subrange(0, entries@.len() as int) =~= entries@);
    stats
}

/// A champion's record: its identifier and base stats.
#[derive(Debug)]
pub struct ChampionRecord {
    pub name: String,
    pub stats: Stats,
}

/// An item's record: its numeric id and the stats it grants.
#[derive(Debug)]
pub struct ItemRecord {
    pub id: u64,
    pub stats: Stats,
}

/// Stats of the first record named `name`.
pub open spec fn find_champion(records: Seq<ChampionRecord>, name: Seq<char>) -> Option<Stats>
    decreases records.len(),
{
    if records.len() == 0 {
        None
    } else if records[0].name@ == name {
        Some(records[0].stats)
    } else {
        find_champion(records.drop_first(), name)
    }
}

/// Stats of the first record with id `id`.
pub open spec fn find_item(records: Seq<ItemRecord>, id: int) -> Option<Stats>
    decreases records.len(),
{
    if records.len() == 0 {
        None
    } else if records[0].id == id {
        Some(records[0].stats)
    } else {
        find_item(records.drop_first(), id)
    }
}

/// Game data to resolve champion names and item ids against.
#[derive(Debug)]
pub struct Catalog {
    pub champions: Vec<ChampionRecord>,
    pub items: Vec<ItemRecord>,
}

impl Catalog {
    /// Every record's stats are bounded by [`STAT_LIMIT`].
    pub open spec fn wf(&self) -> bool {
        &&& forall|i: int|
            0 <= i < self.champions@.len() ==> block_within(
                #[trigger] self.champions@[i].stats@,
                STAT_LIMIT as int,
            )
        &&& forall|i: int|
            0 <= i < self.items@.len() ==> block_within(
                #[trigger] self.items@[i].stats@,
                STAT_LIMIT as int,
            )
    }

    /// An empty catalog.
    pub fn new() -> (r: Catalog)
        ensures
            r.wf(),
            r.champions@.len() == 0,
            r.items@.len() == 0,
    {
        Catalog { champions: Vec::new(), items: Vec::new() }
    }

    /// Adds a champion record; a record with a value beyond [`STAT_LIMIT`]
    /// is refused and the catalog left as it was.
    pub fn insert_champion(&mut self, name: String, stats: Stats) -> (r: bool)
        requires
            old(self).wf(),
        ensures
            final(self).wf(),
            r == block_within(stats@, STAT_LIMIT as int),
            r ==> final(self).champions@ == old(self).champions@.push(
                ChampionRecord { name, stats },
            ),
            !r ==> final(self).champions@ == old(self).champions@,
            final(self).items@ == old(self).items@,
    {
        if stats.is_within(STAT_LIMIT) {
            self.champions.push(ChampionRecord { name, stats });
            true
        } else {
            false
        }
    }

    /// Adds an item record; a record with a value beyond [`STAT_LIMIT`] is
    /// refused and the catalog left as it was.
    pub fn insert_item(&mut self, id: u64, stats: Stats) -> (r: bool)
        requires
            old(self).wf(),
        ensures
            final(self).wf(),
            r == block_within(stats@, STAT_LIMIT as int),
            r ==> final(self).items@ == old(self).items@.push(ItemRecord { id, stats }),
            !r ==> final(self).items@ == old(self).items@,
            final(self).champions@ == old(self).champions@,
    {
        if stats.is_within(STAT_LIMIT) {
            self.items.push(ItemRecord { id, stats });
            true
        } else {
            false
        }
    }
}

/// Base stats of the first champion record named `name`.
pub fn get_champion_stats(catalog: &Catalog, name: &String) -> (r: Option<Stats>)
    requires
        catalog.wf(),
    ensures
        r == find_champion(catalog.champions@, name@),
        r matches Some(s) ==> block_within(s@, STAT_LIMIT as int),
{
    let mut i: usize = 0;
    assert(catalog.champions@.subrange(0, catalog.champions@.len() as int) =~= catalog.champions@);
    while i < catalog.champions.len()
        invariant
            catalog.wf(),
            i <= catalog.champions@.len(),
            find_champion(catalog.champions@, name@) == find_champion(
                catalog.champions@.subrange(i as int, catalog.champions@.len() as int),
                name@,
            ),
        decreases catalog.champions@.len() - i,
    {
        let rest = Ghost(catalog.champions@.subrange(i as int, catalog.champions@.len() as int));
        assert(rest@[0] == catalog.champions@[i as int]);
        if catalog.champions[i].name == *name {
            return Some(catalog.champions[i].stats);
        }
        assert(rest@.drop_first() =~= catalog.champions@.subrange(
            i as int + 1,
            catalog.champions@.len() as int,
        ));
        i = i + 1;
    }
    None
}

/// Stats of the first item record with id `id`.
pub fn get_item_stats(catalog: &Catalog, id: u16) -> (r: Option<Stats>)
    requires
        catalog.wf(),
    ensures
        r == find_item(catalog.items@, id as int),
        r matches Some(s) ==> block_within(s@, STAT_LIMIT as int),
{
    let mut i: usize = 0;
    assert(catalog.items@.subrange(0, catalog.items@.len() as int) =~= catalog.items@);
    while i < catalog.items.len()
        invariant
            catalog.wf(),
            i <= catalog.items@.len(),
            find_item(catalog.items@, id as int) == find_item(
                catalog.items@.subrange(i as int, catalog.items@.len() as int),
                id as int,
            ),
        decreases catalog.items@.len() - i,
    {
        let rest = Ghost(catalog.items@.subrange(i as int, catalog.items@.len() as int));
        assert(rest@[0] == catalog.items@[i as int]);
        if catalog.items[i].id == id as u64 {
            return Some(catalog.items[i].stats);
        }
        assert(rest@.drop_first() =~= catalog.items@.subrange(
            i as int + 1,
            catalog.items@.len() as int,
        ));
        i = i + 1;
    }
    None
}

} // verus!
