//! The player's build: level, skill points, equipped items and champion,
//! with validated operations that change it.
use vstd::prelude::*;
use crate::catalog::{find_champion, get_champion_stats, Catalog};
use crate::stats::{block_within, zero_block, Stats, STAT_LIMIT};

verus! {

/// Number of inventory slots.
pub const INVENTORY_SLOTS: usize = 6;

/// Item id that marks an empty inventory slot.
pub const EMPTY_SLOT: u16 = 0;

/// Highest champion level.
pub const MAX_LEVEL: u8 = 18;

/// Highest ability index that takes skill points; index 0, the passive,
/// takes none.
pub const MAX_ABILITY: usize = 3;

/// Why an operation on the build was refused. A refused operation changes
/// nothing.
#[derive(Clone, Copy, Debug, PartialEq, Eq, Structural)]
pub enum PlayerError {
    /// No champion record has the requested name.
    NotFound,
    /// Every inventory slot holds an item.
    InventoryFull,
    /// No inventory slot holds an item.
    InventoryEmpty,
    /// A slot or ability index outside its domain.
    IndexOutOfRange,
    /// A skill point count that is already zero cannot be decreased.
    AlreadyZero,
}

/// Which way a skill point count moves.
#[derive(Clone, Copy, Debug, PartialEq, Eq, Structural)]
pub enum Direction {
    Increase,
    Decrease,
}

/// The direction that a request word names: `"inc"` or `"dec"`.
pub open spec fn direction_of_word(word: Seq<char>) -> Option<Direction> {
    if word == "inc"@ {
        Some(Direction::Increase)
    } else if word == "dec"@ {
        Some(Direction::Decrease)
    } else {
        None
    }
}

impl Direction {
    /// Reads `"inc"` or `"dec"`; any other word names no direction.
    pub fn parse(word: &str) -> (r: Option<Direction>)
        ensures
            r == direction_of_word(word@),
    {
        let w: String = word.to_owned();
        if w == "inc".to_owned() {
            Some(Direction::Increase)
        } else if w == "dec".to_owned() {
            Some(Direction::Decrease)
        } else {
            None
        }
    }
}

/// The player's build.
#[derive(Debug)]
pub struct Player {
    /// Champion level, from 1 to [`MAX_LEVEL`].
    pub level: u8,
    /// Skill points per ability; a cap is the caller's concern.
    pub skill_points: [u8; 4],
    /// Base stats, copied from the champion's record when it is selected.
    pub base_stats: Stats,
    /// Adjustments that come from neither the champion nor the items.
    pub stats: Stats,
    /// Item id per inventory slot; [`EMPTY_SLOT`] marks an empty one.
    pub items: [u16; 6],
    /// Selected champion, `"none"` before one is selected.
    pub champ: String,
}

/// `p` and `q` agree on everything but the inventory.
pub open spec fn same_but_items(p: Player, q: Player) -> bool {
    &&& p.level == q.level
    &&& p.skill_points == q.skill_points
    &&& p.base_stats == q.base_stats
    &&& p.stats == q.stats
    &&& p.champ == q.champ
}

/// `p` and `q` agree on everything but the skill points.
pub open spec fn same_but_skill_points(p: Player, q: Player) -> bool {
    &&& p.level == q.level
    &&& p.items == q.items
    &&& p.base_stats == q.base_stats
    &&& p.stats == q.stats
    &&& p.champ == q.champ
}

impl Player {
    /// The level lies in its domain and every stat value is bounded by
    /// [`STAT_LIMIT`].
    pub open spec fn wf(&self) -> bool {
        &&& 1 <= self.level <= MAX_LEVEL
        &&& block_within(self.base_stats@, STAT_LIMIT as int)
        &&& block_within(self.stats@, STAT_LIMIT as int)
    }

    /// A fresh build: level 1, no skill points, no champion, empty
    /// inventory, zero stats.
    pub fn new() -> (r: Player)
        ensures
            r.wf(),
            r.level == 1,
            r.skill_points@ == seq![0u8, 0u8, 0u8, 0u8],
            r.base_stats@ == zero_block(),
            r.stats@ == zero_block(),
            r.items@ == seq![EMPTY_SLOT; 6],
            r.champ@ == "none"@,
    {
        let r = Player {
            level: 1,
            skill_points: [0, 0, 0, 0],
            base_stats: Stats::new(),
            stats: Stats::new(),
            items: [EMPTY_SLOT, EMPTY_SLOT, EMPTY_SLOT, EMPTY_SLOT, EMPTY_SLOT, EMPTY_SLOT],
            champ: "none".to_owned(),
        };
        assert(r.skill_points@ =~= seq![0u8, 0u8, 0u8, 0u8]);
        assert(r.items@ =~= seq![EMPTY_SLOT; 6]);
        r
    }

    /// A fresh build, as [`Player::new`] makes it.
    pub fn create_player() -> (r: Player)
        ensures
            r.wf(),
            r.level == 1,
            r.skill_points@ == seq![0u8, 0u8, 0u8, 0u8],
            r.base_stats@ == zero_block(),
            r.stats@ == zero_block(),
            r.items@ == seq![EMPTY_SLOT; 6],
            r.champ@ == "none"@,
    {
        Player::new()
    }
}

impl Default for Player {
    fn default() -> (r: Player)
        ensures
            r.wf(),
            r.level == 1,
            r.skill_points@ == seq![0u8, 0u8, 0u8, 0u8],
            r.base_stats@ == zero_block(),
            r.stats@ == zero_block(),
            r.items@ == seq![EMPTY_SLOT; 6],
            r.champ@ == "none"@,
    {
        Player::new()
    }
}

/// Puts `item_id` into the lowest-index empty slot and returns that slot.
pub fn add_item(player: &mut Player, item_id: u16) -> (r: Result<usize, PlayerError>)
    requires
        old(player).wf(),
    ensures
        final(player).wf(),
        same_but_items(*old(player), *final(player)),
        match r {
            Ok(i) => {
                &&& i < INVENTORY_SLOTS
                &&& old(player).items@[i as int] == EMPTY_SLOT
                &&& forall|j: int| 0 <= j < i ==> old(player).items@[j] != EMPTY_SLOT
                &&& final(player).items@ == old(player).items@.update(i as int, item_id)
            },
            Err(e) => {
                &&& e == PlayerError::InventoryFull
                &&& forall|j: int| 0 <= j < INVENTORY_SLOTS ==> old(player).items@[j] != EMPTY_SLOT
                &&& *final(player) == *old(player)
            },
        },
{
    let mut i: usize = 0;
    while i < INVENTORY_SLOTS
        invariant
            i <= INVENTORY_SLOTS,
            old(player).wf(),
            *player == *old(player),
            forall|j: int| 0 <= j < i ==> old(player).items@[j] != EMPTY_SLOT,
        decreases INVENTORY_SLOTS - i,
    {
        if player.items[i] == EMPTY_SLOT {
            player.items[i] = item_id;
            return Ok(i);
        }
        i = i + 1;
    }
    Err(PlayerError::InventoryFull)
}

/// Empties the highest-index occupied slot and returns that slot.
pub fn remove_last_item(player: &mut Player) -> (r: Result<usize, PlayerError>)
    requires
        old(player).wf(),
    ensures
        final(player).wf(),
        same_but_items(*old(player), *final(player)),
        match r {
            Ok(i) => {
                &&& i < INVENTORY_SLOTS
                &&& old(player).items@[i as int] != EMPTY_SLOT
                &&& forall|j: int| i < j < INVENTORY_SLOTS ==> old(player).items@[j] == EMPTY_SLOT
                &&& final(player).items@ == old(player).items@.update(i as int, EMPTY_SLOT)
            },
            Err(e) => {
                &&& e == PlayerError::InventoryEmpty
                &&& forall|j: int| 0 <= j < INVENTORY_SLOTS ==> old(player).items@[j] == EMPTY_SLOT
                &&& *final(player) == *old(player)
            },
        },
{
    let mut i: usize = INVENTORY_SLOTS;
    while i > 0
        invariant
            i <= INVENTORY_SLOTS,
            old(player).wf(),
            *player == *old(player),
            forall|j: int| i <= j < INVENTORY_SLOTS ==> old(player).items@[j] == EMPTY_SLOT,
        decreases i,
    {
        i = i - 1;
        if player.items[i] != EMPTY_SLOT {
            player.items[i] = EMPTY_SLOT;
            return Ok(i);
        }
    }
    Err(PlayerError::InventoryEmpty)
}

/// Writes `item_id` into slot `item`, whatever it held; the empty-slot id
/// clears it.
pub fn set_item(player: &mut Player, item: usize, item_id: u16) -> (r: Result<(), PlayerError>)
    requires
        old(player).wf(),
    ensures
        final(player).wf(),
        same_but_items(*old(player), *final(player)),
        item < INVENTORY_SLOTS ==> r == Ok::<(), PlayerError>(()) && final(player).items@
            == old(player).items@.update(item as int, item_id),
        item >= INVENTORY_SLOTS ==> r == Err::<(), PlayerError>(PlayerError::IndexOutOfRange)
            && *final(player) == *old(player),
{
    if item >= INVENTORY_SLOTS {
        return Err(PlayerError::IndexOutOfRange);
    }
    player.items[item] = item_id;
    Ok(())
}

/// Moves the skill point count of ability `ability` one step and returns the
/// new count. Only abilities 1 to [`MAX_ABILITY`] take points. An increase
/// always succeeds; at `u8::MAX` the count stays where it is. A decrease of
/// a zero count is refused.
pub fn change_skill_point(player: &mut Player, ability: usize, direction: Direction) -> (r: Result<
    u8,
    PlayerError,
>)
    requires
        old(player).wf(),
    ensures
        final(player).wf(),
        same_but_skill_points(*old(player), *final(player)),
        ability == 0 || ability > MAX_ABILITY ==> r == Err::<u8, PlayerError>(
            PlayerError::IndexOutOfRange,
        ) && *final(player) == *old(player),
        1 <= ability <= MAX_ABILITY ==> {
            let before = old(player).skill_points@[ability as int];
            match direction {
                Direction::Increase => {
                    let after = if before == u8::MAX {
                        before
                    } else {
                        (before + 1) as u8
                    };
                    &&& r == Ok::<u8, PlayerError>(after)
                    &&& final(player).skill_points@ == old(player).skill_points@.update(
                        ability as int,
                        after,
                    )
                },
                Direction::Decrease => if before == 0 {
                    &&& r == Err::<u8, PlayerError>(PlayerError::AlreadyZero)
                    &&& *final(player) == *old(player)
                } else {
                    &&& r == Ok::<u8, PlayerError>((before - 1) as u8)
                    &&& final(player).skill_points@ == old(player).skill_points@.update(
                        ability as int,
                        (before - 1) as u8,
                    )
                },
            }
        },
{
    if ability == 0 || ability > MAX_ABILITY {
        return Err(PlayerError::IndexOutOfRange);
    }
    let before = player.skill_points[ability];
    match direction {
        Direction::Increase => {
            let after = if before == u8::MAX {
                before
            } else {
                before + 1
            };
            player.skill_points[ability] = after;
            Ok(after)
        },
        Direction::Decrease => {
            if before == 0 {
                Err(PlayerError::AlreadyZero)
            } else {
                player.skill_points[ability] = before - 1;
                Ok(before - 1)
            }
        },
    }
}

/// Selects the champion named `champion_name`: its record's stats become the
/// base stats and are returned. Without such a record nothing changes.
pub fn set_champion(player: &mut Player, catalog: &Catalog, champion_name: &String) -> (r: Result<
    Stats,
    PlayerError,
>)
    requires
        old(player).wf(),
        catalog.wf(),
    ensures
        final(player).wf(),
        match find_champion(catalog.champions@, champion_name@) {
            Some(s) => {
                &&& r == Ok::<Stats, PlayerError>(s)
                &&& final(player).champ@ == champion_name@
                &&& final(player).base_stats == s
                &&& final(player).level == old(player).level
                &&& final(player).skill_points == old(player).skill_points
                &&& final(player).stats == old(player).stats
                &&& final(player).items == old(player).items
            },
            None => {
                &&& r == Err::<Stats, PlayerError>(PlayerError::NotFound)
                &&& *final(player) == *old(player)
            },
        },
{
    match get_champion_stats(catalog, champion_name) {
        Some(s) => {
            player.champ = champion_name.clone();
            player.base_stats = s;
            Ok(s)
        },
        None => Err(PlayerError::NotFound),
    }
}

/// Name of the selected champion.
pub fn get_current_champion(player: &Player) -> (r: String)
    ensures
        r@ == player.champ@,
{
    player.champ.clone()
}

} // verus!
