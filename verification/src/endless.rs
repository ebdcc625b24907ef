use vstd::prelude::*;
use crate::enemy::SpawnRandomEnemyEvent;
use crate::rng::GameRng;

verus! {

/// The record of `n` rank draws, each asking for `1..2` and giving 1.
pub open spec fn rank_draws(n: nat) -> Seq<(u32, u32, u32)> {
    Seq::new(n, |i: int| (1u32, 2u32, 1u32))
}

/// Smallest value (inclusive) of the drawn end of a wave's spawn range.
pub const WAVE_SPAWN_END_MIN: u32 = 10;
/// Largest value (exclusive) of the drawn end of a wave's spawn range.
pub const WAVE_SPAWN_END_MAX: u32 = 25;
/// The start of a wave's spawn range never goes past this.
pub const WAVE_SPAWN_START_CAP: u32 = 5;

/// Progress of an endless-mode run.
#[derive(Clone, Copy, Debug, PartialEq, Eq, Structural)]
pub struct Endless {
    pub wave: u32,
    pub points: u32,
}

/// What starting a wave did: the drawn end of the spawn range, the enemies
/// requested, in order, and the number of the wave that the run is now at.
#[derive(Clone, Debug)]
pub struct WaveReport {
    pub end: u32,
    pub spawns: Vec<SpawnRandomEnemyEvent>,
    pub wave: u32,
    pub enemy_count: u32,
}

/// Start of the spawn range of a wave: the wave number, capped.
pub open spec fn spec_spawn_start(wave: u32) -> int {
    if wave < WAVE_SPAWN_START_CAP { wave as int } else { WAVE_SPAWN_START_CAP as int }
}

/// How many enemies a wave spawns when the drawn end of its spawn range is
/// `end`: the length of the range `min(wave, 5)..end`.
pub open spec fn spec_wave_enemy_count(wave: u32, end: u32) -> nat {
    if end as int > spec_spawn_start(wave) {
        (end - spec_spawn_start(wave)) as nat
    } else {
        0
    }
}

impl Endless {
    /// A fresh run: wave 0, no points.
    pub fn new() -> (e: Endless)
        ensures
            e.wave == 0,
            e.points == 0,
    {
        Endless { wave: 0, points: 0 }
    }
}

/// Number of enemies spawned by `wave` when the drawn end of its spawn range
/// is `end`.
pub fn wave_enemy_count(wave: u32, end: u32) -> (n: u32)
    ensures
        n == spec_wave_enemy_count(wave, end),
{
    let start = if wave < WAVE_SPAWN_START_CAP { wave } else { WAVE_SPAWN_START_CAP };
    if end > start {
        end - start
    } else {
        0
    }
}

/// Starts the next wave of `endless` once the random parts are known: `end`
/// is the drawn end of the spawn range and `ranks` the drawn rank of each
/// enemy in spawn order. One spawn request is made per rank, and the wave
/// counter moves on by one.
pub fn advance_wave(endless: &mut Endless, end: u32, ranks: &Vec<u32>) -> (report: WaveReport)
    requires
        old(endless).wave < u32::MAX,
        ranks@.len() == spec_wave_enemy_count(old(endless).wave, end),
    ensures
        final(endless).wave == old(endless).wave + 1,
        final(endless).points == old(endless).points,
        report.wave == final(endless).wave,
        report.end == end,
        report.enemy_count == ranks@.len(),
        report.spawns@.len() == ranks@.len(),
        forall|i: int| 0 <= i < ranks@.len() ==> #[trigger] report.spawns@[i].rank == ranks@[i],
{
    let mut spawns: Vec<SpawnRandomEnemyEvent> = Vec::new();
    let mut enemy_count: u32 = 0;
    let n = ranks.len();
    let mut i: usize = 0;
    while i < n
        invariant
            n == ranks@.len(),
            n <= u32::MAX,
            i <= n,
            enemy_count == i,
            spawns@.len() == i,
            forall|j: int| 0 <= j < i ==> #[trigger] spawns@[j].rank == ranks@[j],
        decreases n - i,
    {
        spawns.push(SpawnRandomEnemyEvent { rank: ranks[i] });
        enemy_count = enemy_count + 1;
        i = i + 1;
    }
    endless.wave = endless.wave + 1;
    WaveReport { end, spawns, wave: endless.wave, enemy_count }
}

/// Starts the next wave of `endless`, drawing from `rng` the end of the
/// spawn range (in `10..25`) and then, for each enemy, its rank (in `1..2`).
/// Every enemy requested has rank 1, and the wave spawns
/// `end - min(wave, 5)` enemies for the drawn `end`, which the report holds.
pub fn start_next_wave(endless: &mut Endless, rng: &mut GameRng) -> (report: WaveReport)
    requires
        old(endless).wave < u32::MAX,
    ensures
        final(endless).wave == old(endless).wave + 1,
        final(endless).points == old(endless).points,
        report.wave == final(endless).wave,
        report.enemy_count == report.spawns@.len(),
        WAVE_SPAWN_END_MIN <= report.end < WAVE_SPAWN_END_MAX,
        report.enemy_count == spec_wave_enemy_count(old(endless).wave, report.end),
        forall|i: int| 0 <= i < report.spawns@.len() ==> #[trigger] report.spawns@[i].rank == 1,
        final(rng).draws() == old(rng).draws().push(
            (WAVE_SPAWN_END_MIN, WAVE_SPAWN_END_MAX, report.end),
        ) + rank_draws(report.enemy_count as nat),
{
    let end = rng.draw(WAVE_SPAWN_END_MIN, WAVE_SPAWN_END_MAX);
    let ghost after_end = rng.draws();
    let count = wave_enemy_count(endless.wave, end);
    let mut ranks: Vec<u32> = Vec::new();
    let mut i: u32 = 0;
    proof {
        assert(after_end + rank_draws(0) =~= after_end);
    }
    while i < count
        invariant
            i <= count,
            ranks@.len() == i,
            forall|j: int| 0 <= j < i ==> #[trigger] ranks@[j] == 1,
            rng.draws() == after_end + rank_draws(i as nat),
        decreases count - i,
    {
        let rank = rng.draw(1, 2);
        proof {
            assert(after_end + rank_draws((i + 1) as nat) =~= (after_end + rank_draws(i as nat)).push((1u32, 2u32, 1u32)));
        }
        ranks.push(rank);
        i = i + 1;
    }
    advance_wave(endless, end, &ranks)
}

/// Law: whatever end is drawn, a wave spawns between 5 and 24 enemies; from
/// wave 5 on, exactly `end - 5`.
pub proof fn lemma_wave_enemy_count_bounds(wave: u32, end: u32)
    requires
        WAVE_SPAWN_END_MIN <= end < WAVE_SPAWN_END_MAX,
    ensures
        5 <= spec_wave_enemy_count(wave, end) <= 24,
        wave >= WAVE_SPAWN_START_CAP ==> spec_wave_enemy_count(wave, end) == end - 5,
{
}

/// Law: for the same drawn end, a later wave never spawns more enemies than
/// an earlier one.
pub proof fn lemma_later_waves_not_larger(earlier: u32, later: u32, end: u32)
    requires
        earlier <= later,
    ensures
        spec_wave_enemy_count(later, end) <= spec_wave_enemy_count(earlier, end),
{
}

/// Law: a wave spawns one enemy for each step from `min(wave, 5)` up to
/// the drawn end: `end - wave` before wave 5, `end - 5` from then on, and
/// none when the end does not lie past that start.
pub proof fn lemma_wave_enemy_count_value(wave: u32, end: u32)
    ensures
        wave < 5 && end > wave ==> spec_wave_enemy_count(wave, end) == end - wave,
        wave >= 5 && end > 5 ==> spec_wave_enemy_count(wave, end) == end - 5,
        wave < 5 && end <= wave ==> spec_wave_enemy_count(wave, end) == 0,
        wave >= 5 && end <= 5 ==> spec_wave_enemy_count(wave, end) == 0,
{
}

/// Law: wave 0 spawns one enemy per step up to the drawn end; each wave
/// before wave 5 spawns one enemy more than the next one, and from wave 5
/// on every wave spawns the same number.
pub proof fn lemma_wave_enemy_count_steps(wave: u32, end: u32)
    ensures
        spec_wave_enemy_count(0, end) == end,
        wave < 5 && end > wave + 1 ==> spec_wave_enemy_count(wave, end) == spec_wave_enemy_count(
            (wave + 1) as u32,
            end,
        ) + 1,
        wave >= 5 ==> spec_wave_enemy_count(wave, end) == spec_wave_enemy_count(5, end),
{
}

} // verus!
