use vstd::prelude::*;

verus! {

/// Health of the Triple T boss when it is spawned, and the maximum that its
/// health bar shows when the boss has no maximum of its own.
pub const BOSS_HEALTH: u32 = 100;

/// The boss's health after one tick of its repeating damage timer: one point
/// is lost when the timer has just finished and some health is left.
pub open spec fn spec_damage_tick(health: u32, timer_finished: bool) -> u32 {
    if timer_finished && health > 0 { (health - 1) as u32 } else { health }
}

/// Health after `ticks` ticks on which the damage timer finished each time.
pub open spec fn spec_drain(health: u32, ticks: nat) -> u32
    decreases ticks,
{
    if ticks == 0 {
        health
    } else {
        spec_damage_tick(spec_drain(health, (ticks - 1) as nat), true)
    }
}

/// One tick of the boss's damage timer.
pub fn damage_tick(health: u32, timer_finished: bool) -> (h: u32)
    ensures
        h == spec_damage_tick(health, timer_finished),
        h <= health,
        health - h <= 1,
        !timer_finished ==> h == health,
        timer_finished && health > 0 ==> h + 1 == health,
{
    if timer_finished && health > 0 {
        health - 1
    } else {
        health
    }
}

/// Whether a character with this health is removed from the world.
pub fn should_despawn(health: u32) -> (dead: bool)
    ensures
        dead <==> health == 0,
{
    health <= 0
}

/// Law: after `ticks` finished timer ticks the boss has lost one point per
/// tick until it reaches zero, and stays there.
pub proof fn lemma_drain_closed_form(health: u32, ticks: nat)
    ensures
        spec_drain(health, ticks) == if ticks <= health { (health - ticks) as u32 } else { 0u32 },
    decreases ticks,
{
    if ticks > 0 {
        lemma_drain_closed_form(health, (ticks - 1) as nat);
    }
}

/// Law: a boss with `health` points is dead after exactly `health` finished
/// timer ticks and alive on every tick before.
pub proof fn lemma_boss_dies_after_health_ticks(health: u32, ticks: nat)
    ensures
        spec_drain(health, ticks) == 0 <==> ticks >= health,
{
    lemma_drain_closed_form(health, ticks);
}

/// The distance key that prey `i` is compared against: that of the prey
/// before it, or the key of distance 0 for the first one.
pub open spec fn previous_key(keys: Seq<Option<u32>>, i: int) -> Option<u32> {
    if i == 0 { Some(0u32) } else { keys[i - 1] }
}

/// Whether prey `i` takes over as the candidate target: its distance is
/// greater than the one compared against. A key `None` stands for a
/// distance that compares with nothing (not a number): such a distance is
/// never greater, and nothing is greater than it.
pub open spec fn takes_over(keys: Seq<Option<u32>>, i: int) -> bool {
    match (keys[i], previous_key(keys, i)) {
        (Some(k), Some(p)) => k > p,
        _ => false,
    }
}

/// The target a predator without one picks among prey seen in order, each
/// with an entity id and a distance key ordered as the distances are: the
/// last prey that is farther than the prey seen before it (the first one
/// counts when it is farther than 0). `None` when no prey qualifies.
pub open spec fn spec_pick_target(ids: Seq<u64>, keys: Seq<Option<u32>>) -> Option<u64>
    decreases keys.len(),
{
    if keys.len() == 0 {
        None
    } else {
        let last = keys.len() - 1;
        if takes_over(keys, last) {
            Some(ids[last])
        } else {
            spec_pick_target(ids.take(last), keys.take(last))
        }
    }
}

/// The new target of a predator: an existing target is kept; otherwise the
/// prey picked by `spec_pick_target` (possibly none).
pub open spec fn spec_find_target(current: Option<u64>, ids: Seq<u64>, keys: Seq<Option<u32>>) -> Option<u64> {
    if current is Some { current } else { spec_pick_target(ids, keys) }
}

proof fn lemma_pick_target_extend(ids: Seq<u64>, keys: Seq<Option<u32>>, n: int)
    requires
        ids.len() == keys.len(),
        0 <= n < keys.len(),
    ensures
        spec_pick_target(ids.take(n + 1), keys.take(n + 1)) == if takes_over(keys, n) {
            Some(ids[n])
        } else {
            spec_pick_target(ids.take(n), keys.take(n))
        },
{
    let i1 = ids.take(n + 1);
    let k1 = keys.take(n + 1);
    assert(i1.take(n) =~= ids.take(n));
    assert(k1.take(n) =~= keys.take(n));
    assert(takes_over(k1, n) == takes_over(keys, n));
}

/// Chooses the target of a predator. `current` is its target so far, and
/// `prey` lists each prey's entity id with a key that orders the prey by
/// distance from the predator as the distances themselves are ordered
/// (`None` for a distance that is not a number).
pub fn find_target(current: Option<u64>, prey: &Vec<(u64, Option<u32>)>) -> (target: Option<u64>)
    ensures
        target == spec_find_target(
            current,
            prey@.map_values(|p: (u64, Option<u32>)| p.0),
            prey@.map_values(|p: (u64, Option<u32>)| p.1),
        ),
{
    if current.is_some() {
        return current;
    }
    let ghost ids = prey@.map_values(|p: (u64, Option<u32>)| p.0);
    let ghost keys = prey@.map_values(|p: (u64, Option<u32>)| p.1);
    let mut result: Option<u64> = None;
    let mut prev: Option<u32> = Some(0);
    let n = prey.len();
    let mut i: usize = 0;
    proof {
        assert(ids.take(0) =~= Seq::<u64>::empty());
        assert(keys.take(0) =~= Seq::<Option<u32>>::empty());
    }
    while i < n
        invariant
            n == prey@.len(),
            ids == prey@.map_values(|p: (u64, Option<u32>)| p.0),
            keys == prey@.map_values(|p: (u64, Option<u32>)| p.1),
            i <= n,
            result == spec_pick_target(ids.take(i as int), keys.take(i as int)),
            i < n ==> prev == previous_key(keys, i as int),
        decreases n - i,
    {
        let (entity, key) = prey[i];
        proof {
            lemma_pick_target_extend(ids, keys, i as int);
        }
        let farther = match (key, prev) {
            (Some(k), Some(p)) => k > p,
            _ => false,
        };
        if farther {
            result = Some(entity);
        }
        prev = key;
        i = i + 1;
    }
    proof {
        assert(ids.take(n as int) =~= ids);
        assert(keys.take(n as int) =~= keys);
    }
    result
}

/// Law: choosing targets is idempotent; running the choice again on the
/// same prey keeps the target it chose.
pub proof fn lemma_find_target_idempotent(current: Option<u64>, ids: Seq<u64>, keys: Seq<Option<u32>>)
    ensures
        spec_find_target(spec_find_target(current, ids, keys), ids, keys)
            == spec_find_target(current, ids, keys),
{
}

/// Law: a tick on which the damage timer has not finished leaves the
/// health as it is; a finished tick takes exactly one point from a living
/// boss and leaves a dead one at zero.
pub proof fn lemma_damage_tick_behaviour(health: u32)
    ensures
        spec_damage_tick(health, false) == health,
        health > 0 ==> spec_damage_tick(health, true) + 1 == health,
        health == 0 ==> spec_damage_tick(health, true) == 0,
{
}

/// Law: when a predator has no target, the last prey decides if it is
/// farther than the prey before it (or than 0, when it is the only one):
/// it becomes the target, however many prey there are.
pub proof fn lemma_last_farther_prey_wins(ids: Seq<u64>, keys: Seq<Option<u32>>, k: u32, p: u32)
    requires
        ids.len() == keys.len(),
        keys.len() >= 1,
        keys[keys.len() - 1] == Some(k),
        keys.len() == 1 ==> p == 0,
        keys.len() > 1 ==> keys[keys.len() - 2] == Some(p),
        k > p,
    ensures
        spec_find_target(None, ids, keys) == Some(ids[ids.len() - 1]),
{
}

/// Whether prey `j` of a sequence is farther than the prey before it
/// (or than 0 for the first), written out on the keys alone.
pub open spec fn farther_than_before(keys: Seq<Option<u32>>, j: int) -> bool {
    match keys[j] {
        Some(k) => if j == 0 {
            k > 0
        } else {
            match keys[j - 1] {
                Some(p) => k > p,
                None => false,
            }
        },
        None => false,
    }
}

/// Law: without a target, a predator picks prey `i` exactly when prey `i`
/// is farther than the prey before it and no later prey is; when no prey is
/// farther than the one before it, no target is picked.
pub proof fn lemma_target_is_last_farther_prey(ids: Seq<u64>, keys: Seq<Option<u32>>)
    requires
        ids.len() == keys.len(),
    ensures
        forall|i: int|
            0 <= i < keys.len() && farther_than_before(keys, i) && (forall|j: int|
                i < j < keys.len() ==> !#[trigger] farther_than_before(keys, j))
                ==> spec_find_target(None, ids, keys) == Some(ids[i]),
        (forall|j: int| 0 <= j < keys.len() ==> !#[trigger] farther_than_before(keys, j))
            ==> spec_find_target(None, ids, keys) is None,
    decreases keys.len(),
{
    if keys.len() > 0 {
        let last = keys.len() - 1;
        let ids2 = ids.take(last);
        let keys2 = keys.take(last);
        lemma_target_is_last_farther_prey(ids2, keys2);
        assert forall|j: int| 0 <= j < last implies farther_than_before(keys2, j) == farther_than_before(keys, j) by {}
        assert(takes_over(keys, last) == farther_than_before(keys, last));
        assert forall|i: int|
            0 <= i < keys.len() && farther_than_before(keys, i) && (forall|j: int|
                i < j < keys.len() ==> !#[trigger] farther_than_before(keys, j))
            implies spec_find_target(None, ids, keys) == Some(ids[i]) by {
            if i < last {
                assert(!farther_than_before(keys, last));
                assert(forall|j: int| i < j < last ==> !#[trigger] farther_than_before(keys2, j)) by {
                    assert forall|j: int| i < j < last implies !#[trigger] farther_than_before(keys2, j) by {
                        assert(!farther_than_before(keys, j));
                    }
                }
                assert(farther_than_before(keys2, i));
                assert(ids2[i] == ids[i]);
            }
        }
        if forall|j: int| 0 <= j < keys.len() ==> !#[trigger] farther_than_before(keys, j) {
            assert forall|j: int| 0 <= j < last implies !#[trigger] farther_than_before(keys2, j) by {
                assert(!farther_than_before(keys, j));
            }
            assert(!farther_than_before(keys, last));
        }
    }
}

} // verus!
