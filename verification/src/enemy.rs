use vstd::prelude::*;
use crate::rng::GameRng;

verus! {

/// Rolls are drawn out of this many.
pub const ROLL_RANGE: u32 = 1000;
/// Rolls below this (three in four) pick a rank's common enemy.
pub const COMMON_ENEMY_ROLLS: u32 = 750;
/// For rank 3, rolls from `COMMON_ENEMY_ROLLS` up to this (one in eight)
/// pick the level-3 Enemy 1; the rest (one in eight) the level-2 Enemy 2.
pub const RANK_THREE_SPLIT_ROLLS: u32 = 875;

/// The kinds of enemy the game knows.
#[derive(Clone, Copy, Debug, PartialEq, Eq, Structural)]
pub enum EnemyKind {
    Enemy1,
    Enemy2,
    Enemy3,
}

/// One enemy to spawn: its kind and its level (1 for the plain enemy,
/// higher for mutated ones).
#[derive(Clone, Copy, Debug, PartialEq, Eq, Structural)]
pub struct EnemySpawn {
    pub kind: EnemyKind,
    pub level: u32,
}

/// Request to spawn one enemy of the given rank.
#[derive(Clone, Copy, Debug, PartialEq, Eq, Structural)]
pub struct SpawnRandomEnemyEvent {
    pub rank: u32,
}

/// What drawing an enemy for a request gave: the roll drawn (none for ranks
/// that have no enemies) and the enemy to spawn.
#[derive(Clone, Copy, Debug, PartialEq, Eq, Structural)]
pub struct EnemyDraw {
    pub roll: Option<u32>,
    pub spawn: Option<EnemySpawn>,
}

/// Whether a rank has any enemies to spawn.
pub open spec fn rank_has_enemies(rank: u32) -> bool {
    1 <= rank <= 3
}

/// The rank table, for a roll out of `ROLL_RANGE`:
/// rank 1 spawns Enemy 1 (3 in 4) or Enemy 2 (1 in 4);
/// rank 2 spawns Enemy 2 (3 in 4) or a level-2 Enemy 1 (1 in 4);
/// rank 3 spawns Enemy 3 (3 in 4), a level-3 Enemy 1 (1 in 8) or a level-2
/// Enemy 2 (1 in 8); other ranks spawn nothing.
pub open spec fn spec_choose_enemy(rank: u32, roll: u32) -> Option<EnemySpawn> {
    if rank == 1 {
        if roll < COMMON_ENEMY_ROLLS {
            Some(EnemySpawn { kind: EnemyKind::Enemy1, level: 1 })
        } else {
            Some(EnemySpawn { kind: EnemyKind::Enemy2, level: 1 })
        }
    } else if rank == 2 {
        if roll < COMMON_ENEMY_ROLLS {
            Some(EnemySpawn { kind: EnemyKind::Enemy2, level: 1 })
        } else {
            Some(EnemySpawn { kind: EnemyKind::Enemy1, level: 2 })
        }
    } else if rank == 3 {
        if roll < COMMON_ENEMY_ROLLS {
            Some(EnemySpawn { kind: EnemyKind::Enemy3, level: 1 })
        } else if roll < RANK_THREE_SPLIT_ROLLS {
            Some(EnemySpawn { kind: EnemyKind::Enemy1, level: 3 })
        } else {
            Some(EnemySpawn { kind: EnemyKind::Enemy2, level: 2 })
        }
    } else {
        None
    }
}

/// Health that each enemy kind spawns with; Enemy 3 has no health of its own.
pub open spec fn spec_initial_health(kind: EnemyKind) -> Option<u32> {
    match kind {
        EnemyKind::Enemy1 => Some(25),
        EnemyKind::Enemy2 => Some(50),
        EnemyKind::Enemy3 => None,
    }
}

impl EnemyKind {
    /// Health that this enemy kind spawns with, if it has any.
    pub fn initial_health(&self) -> (h: Option<u32>)
        ensures
            h == spec_initial_health(*self),
    {
        match self {
            EnemyKind::Enemy1 => Some(25),
            EnemyKind::Enemy2 => Some(50),
            EnemyKind::Enemy3 => None,
        }
    }
}

/// The enemy that a rank spawns for the given roll (out of `ROLL_RANGE`).
pub fn choose_enemy(rank: u32, roll: u32) -> (spawn: Option<EnemySpawn>)
    ensures
        spawn == spec_choose_enemy(rank, roll),
{
    match rank {
        1 => {
            if roll < COMMON_ENEMY_ROLLS {
                Some(EnemySpawn { kind: EnemyKind::Enemy1, level: 1 })
            } else {
                Some(EnemySpawn { kind: EnemyKind::Enemy2, level: 1 })
            }
        },
        2 => {
            if roll < COMMON_ENEMY_ROLLS {
                Some(EnemySpawn { kind: EnemyKind::Enemy2, level: 1 })
            } else {
                Some(EnemySpawn { kind: EnemyKind::Enemy1, level: 2 })
            }
        },
        3 => {
            if roll < COMMON_ENEMY_ROLLS {
                Some(EnemySpawn { kind: EnemyKind::Enemy3, level: 1 })
            } else if roll < RANK_THREE_SPLIT_ROLLS {
                Some(EnemySpawn { kind: EnemyKind::Enemy1, level: 3 })
            } else {
                Some(EnemySpawn { kind: EnemyKind::Enemy2, level: 2 })
            }
        },
        _ => None,
    }
}

/// Draws the enemy for a request: for ranks 1 to 3 a roll out of
/// `ROLL_RANGE` is drawn from `rng` and handed to `choose_enemy`; other
/// ranks draw nothing and spawn nothing.
pub fn spawn_random_enemy(event: &SpawnRandomEnemyEvent, rng: &mut GameRng) -> (d: EnemyDraw)
    ensures
        d.roll is Some <==> rank_has_enemies(event.rank),
        d.roll matches Some(r) ==> {
            &&& r < ROLL_RANGE
            &&& d.spawn == spec_choose_enemy(event.rank, r)
            &&& final(rng).draws() == old(rng).draws().push((0u32, ROLL_RANGE, r))
        },
        d.roll is None ==> d.spawn is None && final(rng).draws() == old(rng).draws(),
{
    if 1 <= event.rank && event.rank <= 3 {
        let roll = rng.draw(0, ROLL_RANGE);
        EnemyDraw { roll: Some(roll), spawn: choose_enemy(event.rank, roll) }
    } else {
        EnemyDraw { roll: None, spawn: None }
    }
}

/// Law: every rank that has enemies spawns exactly one for every roll, and
/// mutated enemies (level above 1) come only from the uncommon rolls.
pub proof fn lemma_rank_table_total(rank: u32, roll: u32)
    ensures
        spec_choose_enemy(rank, roll) is Some <==> rank_has_enemies(rank),
        spec_choose_enemy(rank, roll) matches Some(s) && s.level > 1 ==> roll >= COMMON_ENEMY_ROLLS,
{
}

/// Law: the rank table, roll by roll out of 1000. Rank 1: rolls 0 to 749
/// give Enemy 1, rolls 750 to 999 give Enemy 2. Rank 2: rolls 0 to 749 give
/// Enemy 2, the rest a level-2 Enemy 1. Rank 3: rolls 0 to 749 give Enemy 3,
/// 750 to 874 a level-3 Enemy 1, 875 to 999 a level-2 Enemy 2. Every other
/// rank gives nothing.
pub proof fn lemma_rank_table(rank: u32, roll: u32)
    requires
        roll < 1000,
    ensures
        rank == 1 && roll < 750 ==> spec_choose_enemy(rank, roll) == Some(
            EnemySpawn { kind: EnemyKind::Enemy1, level: 1 },
        ),
        rank == 1 && roll >= 750 ==> spec_choose_enemy(rank, roll) == Some(
            EnemySpawn { kind: EnemyKind::Enemy2, level: 1 },
        ),
        rank == 2 && roll < 750 ==> spec_choose_enemy(rank, roll) == Some(
            EnemySpawn { kind: EnemyKind::Enemy2, level: 1 },
        ),
        rank == 2 && roll >= 750 ==> spec_choose_enemy(rank, roll) == Some(
            EnemySpawn { kind: EnemyKind::Enemy1, level: 2 },
        ),
        rank == 3 && roll < 750 ==> spec_choose_enemy(rank, roll) == Some(
            EnemySpawn { kind: EnemyKind::Enemy3, level: 1 },
        ),
        rank == 3 && 750 <= roll < 875 ==> spec_choose_enemy(rank, roll) == Some(
            EnemySpawn { kind: EnemyKind::Enemy1, level: 3 },
        ),
        rank == 3 && roll >= 875 ==> spec_choose_enemy(rank, roll) == Some(
            EnemySpawn { kind: EnemyKind::Enemy2, level: 2 },
        ),
        !(1 <= rank <= 3) ==> spec_choose_enemy(rank, roll) is None,
{
}

} // verus!
