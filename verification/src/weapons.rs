use vstd::prelude::*;

verus! {

/// Damage dealt by one pistol hit.
pub const PISTOL_DAMAGE: u32 = 10;
/// Speed added to a body along the shot for each hit.
pub const KNOCKBACK_STRENGTH: u32 = 10;
/// How far the aim point lies along the view when the view ray hits nothing.
pub const AIM_FALLBACK_DISTANCE: u32 = 1000;

/// Damage of a shot, given whether its ray hit something.
pub fn shot_damage(hit: bool) -> (damage: Option<u32>)
    ensures
        damage == if hit { Some(PISTOL_DAMAGE) } else { None },
{
    if hit { Some(PISTOL_DAMAGE) } else { None }
}

/// The weapon taken when a pick-up is touched: all its children move to the
/// toucher, and the last of them becomes the current weapon (`None` when the
/// pick-up has no children).
pub fn picked_weapon(children: &Vec<u64>) -> (weapon: Option<u64>)
    ensures
        weapon == if children@.len() == 0 { None } else { Some(children@.last()) },
{
    let mut weapon: Option<u64> = None;
    let n = children.len();
    let mut i: usize = 0;
    while i < n
        invariant
            n == children@.len(),
            i <= n,
            weapon == if i == 0 { None } else { Some(children@[i - 1]) },
        decreases n - i,
    {
        weapon = Some(children[i]);
        i = i + 1;
    }
    weapon
}

} // verus!
