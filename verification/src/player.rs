use vstd::prelude::*;

verus! {

/// Which camera the player looks through.
#[derive(Clone, Copy, Debug, PartialEq, Eq, Structural)]
pub enum CurrentCameraUser {
    Player,
    Debug,
}

/// What switching cameras does: the new user and which of the two cameras
/// render afterwards.
#[derive(Clone, Copy, Debug, PartialEq, Eq, Structural)]
pub struct CameraSwitch {
    pub next_user: CurrentCameraUser,
    pub player_camera_active: bool,
    pub debug_camera_active: bool,
}

/// Movement asked for by the keyboard in one step: each axis is -1, 0 or 1
/// (x to the right, z backwards), and whether to jump.
#[derive(Clone, Copy, Debug, PartialEq, Eq, Structural)]
pub struct MoveInput {
    pub x: i8,
    pub z: i8,
    pub jump: bool,
}

/// Movement of the free-flying debug camera in its own frame: each axis is
/// -1, 0 or 1 (x to the right, y up, z backwards).
#[derive(Clone, Copy, Debug, PartialEq, Eq, Structural)]
pub struct FlyInput {
    pub x: i8,
    pub y: i8,
    pub z: i8,
}

/// The kind of body a melee strike lands on.
#[derive(Clone, Copy, Debug, PartialEq, Eq, Structural)]
pub enum BodyKind {
    Dynamic,
    Static,
    Kinematic,
}

/// What a melee strike does to the body it hits.
#[derive(Clone, Copy, Debug, PartialEq, Eq, Structural)]
pub enum MeleeEffect {
    /// Nothing moves.
    NoEffect,
    /// A force of `MELEE_HIT_STRENGTH` along the strike pushes the body.
    Push,
    /// The body's velocity becomes `MELEE_HIT_STRENGTH` along the strike.
    SetVelocity,
}

/// What a melee strike does: whether the player recoils (a force of
/// `MELEE_RECOIL_STRENGTH` backwards) and what happens to the body hit.
#[derive(Clone, Copy, Debug, PartialEq, Eq, Structural)]
pub struct MeleeResponse {
    pub player_recoils: bool,
    pub effect: MeleeEffect,
}

/// Which way a body hit by the look ray is shoved.
#[derive(Clone, Copy, Debug, PartialEq, Eq, Structural)]
pub enum ShoveDirection {
    /// Along the view direction.
    Away,
    /// Against the view direction.
    Toward,
}

/// Reach of a melee strike.
pub const MELEE_RANGE: u32 = 5;
/// Strength of the push or velocity a melee strike gives the body hit.
pub const MELEE_HIT_STRENGTH: u32 = 20;
/// Strength of the force that pushes the player back off static bodies.
pub const MELEE_RECOIL_STRENGTH: u32 = 50;
/// Speed given to a shoved body.
pub const SHOVE_SPEED: u32 = 100;
/// Top speed of the debug camera, per second.
pub const DEBUG_CAMERA_SPEED: u32 = 10;
/// Strength of one step of walking input.
pub const WALK_INPUT_STRENGTH: u32 = 20;

/// The other camera user.
pub open spec fn spec_other_user(user: CurrentCameraUser) -> CurrentCameraUser {
    match user {
        CurrentCameraUser::Player => CurrentCameraUser::Debug,
        CurrentCameraUser::Debug => CurrentCameraUser::Player,
    }
}

/// The value of a pair of opposite keys on one axis: the first key wins and
/// gives `neg`, the second gives `-neg`, neither gives 0.
pub open spec fn spec_axis(first: bool, second: bool, neg: bool) -> i8 {
    if first {
        if neg { -1i8 } else { 1i8 }
    } else if second {
        if neg { 1i8 } else { -1i8 }
    } else {
        0i8
    }
}

/// Switches from the current camera to the other one: the camera of the new
/// user renders and the other one stops.
pub fn switch_camera(user: CurrentCameraUser) -> (s: CameraSwitch)
    ensures
        s.next_user == spec_other_user(user),
        s.player_camera_active <==> s.next_user == CurrentCameraUser::Player,
        s.debug_camera_active <==> s.next_user == CurrentCameraUser::Debug,
{
    match user {
        CurrentCameraUser::Player => CameraSwitch {
            next_user: CurrentCameraUser::Debug,
            player_camera_active: false,
            debug_camera_active: true,
        },
        CurrentCameraUser::Debug => CameraSwitch {
            next_user: CurrentCameraUser::Player,
            player_camera_active: true,
            debug_camera_active: false,
        },
    }
}

/// Law: switching cameras twice brings back the camera one started with.
pub proof fn lemma_switch_twice_restores(user: CurrentCameraUser)
    ensures
        spec_other_user(spec_other_user(user)) == user,
        spec_other_user(user) != user,
{
}

/// Walking input from the keys held: W (forward, z = -1) wins over S, A
/// (left, x = -1) wins over D; a jump needs Space just pressed while on
/// the ground.
pub fn movement_input(w: bool, s: bool, a: bool, d: bool, space_just_pressed: bool, grounded: bool) -> (m: MoveInput)
    ensures
        m.z == spec_axis(w, s, true),
        m.x == spec_axis(a, d, true),
        m.jump == (space_just_pressed && grounded),
{
    let z: i8 = if w { -1 } else if s { 1 } else { 0 };
    let x: i8 = if a { -1 } else if d { 1 } else { 0 };
    MoveInput { x, z, jump: space_just_pressed && grounded }
}

/// Whether walking input asks to move at all.
pub fn is_moving(m: &MoveInput) -> (moving: bool)
    ensures
        moving <==> (m.x != 0 || m.z != 0),
{
    m.x != 0 || m.z != 0
}

/// Flying input of the debug camera from the keys held: W/S go forward and
/// back, A/D left and right, Q/E down and up; of each pair the first key
/// wins.
pub fn fly_input(w: bool, s: bool, a: bool, d: bool, q: bool, e: bool) -> (f: FlyInput)
    ensures
        f.x == spec_axis(a, d, true),
        f.y == spec_axis(q, e, true),
        f.z == spec_axis(w, s, true),
{
    let forward: i8 = if w { 1 } else if s { -1 } else { 0 };
    let right: i8 = if a { -1 } else if d { 1 } else { 0 };
    let up: i8 = if q { -1 } else if e { 1 } else { 0 };
    FlyInput { x: right, y: up, z: -forward }
}

/// What a melee strike does to the body it hits: static bodies push the
/// player back and do not move; dynamic bodies are pushed; kinematic bodies
/// are set moving.
pub fn melee_response(kind: BodyKind) -> (r: MeleeResponse)
    ensures
        r.player_recoils <==> kind == BodyKind::Static,
        r.effect == match kind {
            BodyKind::Dynamic => MeleeEffect::Push,
            BodyKind::Kinematic => MeleeEffect::SetVelocity,
            BodyKind::Static => MeleeEffect::NoEffect,
        },
{
    match kind {
        BodyKind::Static => MeleeResponse { player_recoils: true, effect: MeleeEffect::NoEffect },
        BodyKind::Dynamic => MeleeResponse { player_recoils: false, effect: MeleeEffect::Push },
        BodyKind::Kinematic => MeleeResponse { player_recoils: false, effect: MeleeEffect::SetVelocity },
    }
}

/// Which way a body in the look ray is shoved: F (just pressed) shoves it
/// away and wins over G, which pulls it toward the viewer; ground is never
/// shoved.
pub fn shove_direction(is_ground: bool, f_just_pressed: bool, g_just_pressed: bool) -> (dir: Option<ShoveDirection>)
    ensures
        dir == if is_ground {
            None
        } else if f_just_pressed {
            Some(ShoveDirection::Away)
        } else if g_just_pressed {
            Some(ShoveDirection::Toward)
        } else {
            None
        },
{
    if is_ground {
        None
    } else if f_just_pressed {
        Some(ShoveDirection::Away)
    } else if g_just_pressed {
        Some(ShoveDirection::Toward)
    } else {
        None
    }
}

} // verus!
