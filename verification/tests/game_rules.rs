use bevy_game::boss::{damage_tick, find_target, should_despawn, BOSS_HEALTH};
use bevy_game::endless::{advance_wave, start_next_wave, wave_enemy_count, Endless};
use bevy_game::enemy::{
    choose_enemy, spawn_random_enemy, EnemyKind, EnemySpawn, SpawnRandomEnemyEvent, ROLL_RANGE,
};
use bevy_game::game::{Difficulty, GameMode, GameState};
use bevy_game::menu::{
    difficulty_selector_system, main_menu_command, main_menu_system, ButtonInteraction,
    DifficultyButtonAction, MainMenuButtonAction, MainMenuState, MenuCommand,
};
use bevy_game::player::{
    fly_input, is_moving, melee_response, movement_input, shove_direction, switch_camera,
    BodyKind, CurrentCameraUser, MeleeEffect, ShoveDirection,
};
use bevy_game::weapons::{picked_weapon, shot_damage, PISTOL_DAMAGE};
use bevy_game::rng::GameRng;
use bevy_rand::prelude::WyRand;
use rand::SeedableRng;

#[test]
fn defaults_match_the_start_of_the_game() {
    assert_eq!(GameState::default(), GameState::MainMenu);
    assert_eq!(GameMode::default(), GameMode::NotChosen);
    assert_eq!(Difficulty::default(), Difficulty::Easy);
    assert_eq!(MainMenuState::default(), MainMenuState::MainMenu);
}

fn spawn(kind: EnemyKind, level: u32) -> Option<EnemySpawn> {
    Some(EnemySpawn { kind, level })
}

#[test]
fn rank_one_prefers_enemy_one() {
    assert_eq!(choose_enemy(1, 0), spawn(EnemyKind::Enemy1, 1));
    assert_eq!(choose_enemy(1, 749), spawn(EnemyKind::Enemy1, 1));
    assert_eq!(choose_enemy(1, 750), spawn(EnemyKind::Enemy2, 1));
    assert_eq!(choose_enemy(1, 999), spawn(EnemyKind::Enemy2, 1));
}

#[test]
fn rank_two_prefers_enemy_two_else_mutated_enemy_one() {
    assert_eq!(choose_enemy(2, 100), spawn(EnemyKind::Enemy2, 1));
    assert_eq!(choose_enemy(2, 749), spawn(EnemyKind::Enemy2, 1));
    assert_eq!(choose_enemy(2, 750), spawn(EnemyKind::Enemy1, 2));
    assert_eq!(choose_enemy(2, 999), spawn(EnemyKind::Enemy1, 2));
}

#[test]
fn rank_three_splits_three_ways() {
    assert_eq!(choose_enemy(3, 0), spawn(EnemyKind::Enemy3, 1));
    assert_eq!(choose_enemy(3, 749), spawn(EnemyKind::Enemy3, 1));
    assert_eq!(choose_enemy(3, 750), spawn(EnemyKind::Enemy1, 3));
    assert_eq!(choose_enemy(3, 874), spawn(EnemyKind::Enemy1, 3));
    assert_eq!(choose_enemy(3, 875), spawn(EnemyKind::Enemy2, 2));
    assert_eq!(choose_enemy(3, 999), spawn(EnemyKind::Enemy2, 2));
}

#[test]
fn other_ranks_spawn_nothing() {
    for rank in [0u32, 4, 10, 11, 1000] {
        assert_eq!(choose_enemy(rank, 0), None);
    }
}

#[test]
fn enemy_health_values() {
    assert_eq!(EnemyKind::Enemy1.initial_health(), Some(25));
    assert_eq!(EnemyKind::Enemy2.initial_health(), Some(50));
    assert_eq!(EnemyKind::Enemy3.initial_health(), None);
}

#[test]
fn spawn_random_enemy_draws_for_ranks_one_to_three() {
    let mut rng = GameRng::new(WyRand::seed_from_u64(7));
    for _ in 0..200 {
        for rank in 1..=3u32 {
            let d = spawn_random_enemy(&SpawnRandomEnemyEvent { rank }, &mut rng);
            let roll = d.roll.expect("ranks 1 to 3 draw a roll");
            assert!(roll < ROLL_RANGE);
            assert_eq!(d.spawn, choose_enemy(rank, roll));
        }
        let d = spawn_random_enemy(&SpawnRandomEnemyEvent { rank: 4 }, &mut rng);
        assert_eq!(d.roll, None);
        assert_eq!(d.spawn, None);
    }
}

#[test]
fn spawn_random_enemy_yields_every_rank_three_enemy() {
    let mut rng = GameRng::new(WyRand::seed_from_u64(42));
    let (mut common, mut enemy1_lv3, mut enemy2_lv2) = (0, 0, 0);
    for _ in 0..4000 {
        match spawn_random_enemy(&SpawnRandomEnemyEvent { rank: 3 }, &mut rng).spawn {
            Some(EnemySpawn { kind: EnemyKind::Enemy3, level: 1 }) => common += 1,
            Some(EnemySpawn { kind: EnemyKind::Enemy1, level: 3 }) => enemy1_lv3 += 1,
            Some(EnemySpawn { kind: EnemyKind::Enemy2, level: 2 }) => enemy2_lv2 += 1,
            other => panic!("unexpected spawn {:?}", other),
        }
    }
    assert!(common > enemy1_lv3 + enemy2_lv2);
    assert!(enemy1_lv3 > 0 && enemy2_lv2 > 0);
}

#[test]
fn wave_enemy_count_values() {
    assert_eq!(wave_enemy_count(0, 10), 10);
    assert_eq!(wave_enemy_count(3, 10), 7);
    assert_eq!(wave_enemy_count(5, 24), 19);
    assert_eq!(wave_enemy_count(100, 10), 5);
    assert_eq!(wave_enemy_count(4, 3), 0);
}

#[test]
fn advance_wave_requests_one_spawn_per_rank() {
    let mut endless = Endless { wave: 2, points: 9 };
    let ranks = vec![1u32; 10];
    let report = advance_wave(&mut endless, 12, &ranks);
    assert_eq!(endless.wave, 3);
    assert_eq!(endless.points, 9);
    assert_eq!(report.wave, 3);
    assert_eq!(report.end, 12);
    assert_eq!(report.enemy_count, 10);
    assert_eq!(report.spawns.len(), 10);
    assert!(report.spawns.iter().all(|s| s.rank == 1));
}

#[test]
fn start_next_wave_stays_in_bounds() {
    let mut rng = GameRng::new(WyRand::seed_from_u64(3));
    let mut endless = Endless::new();
    for expected_wave in 1..=20u32 {
        let before = endless.wave;
        let report = start_next_wave(&mut endless, &mut rng);
        assert_eq!(endless.wave, expected_wave);
        assert_eq!(report.wave, expected_wave);
        let start = before.min(5);
        let count = report.enemy_count;
        assert!(report.end >= 10 && report.end < 25);
        assert_eq!(count, wave_enemy_count(before, report.end));
        assert_eq!(count as usize, report.spawns.len());
        assert!(count + start >= 10 && count + start < 25);
        assert!((5..=24).contains(&count));
        assert!(report.spawns.iter().all(|s| s.rank == 1));
    }
}

#[test]
fn damage_tick_loses_one_point_when_finished() {
    assert_eq!(damage_tick(100, true), 99);
    assert_eq!(damage_tick(100, false), 100);
    assert_eq!(damage_tick(0, true), 0);
}

#[test]
fn boss_dies_after_health_ticks() {
    let mut health = BOSS_HEALTH;
    let mut ticks = 0;
    while !should_despawn(health) {
        health = damage_tick(health, true);
        ticks += 1;
    }
    assert_eq!(ticks, BOSS_HEALTH);
    assert_eq!(damage_tick(health, true), 0);
}

#[test]
fn despawn_only_at_zero() {
    assert!(should_despawn(0));
    assert!(!should_despawn(1));
}

#[test]
fn find_target_keeps_existing_target() {
    let prey = vec![(1u64, Some(5u32)), (2, Some(9))];
    assert_eq!(find_target(Some(77), &prey), Some(77));
}

#[test]
fn find_target_picks_last_prey_farther_than_previous() {
    let prey = vec![(7u64, Some(5u32)), (8, Some(3)), (9, Some(4))];
    assert_eq!(find_target(None, &prey), Some(9));
    let prey = vec![(7u64, Some(5u32)), (8, Some(3)), (9, Some(2))];
    assert_eq!(find_target(None, &prey), Some(7));
    let prey = vec![(7u64, Some(0u32))];
    assert_eq!(find_target(None, &prey), None);
    assert_eq!(find_target(None, &vec![]), None);
}

#[test]
fn find_target_skips_incomparable_distances() {
    let prey = vec![(7u64, Some(5u32)), (8, None), (9, Some(6))];
    assert_eq!(find_target(None, &prey), Some(7));
    let prey = vec![(7u64, None), (8, Some(1u32))];
    assert_eq!(find_target(None, &prey), None);
}

#[test]
fn find_target_is_idempotent() {
    let prey = vec![(7u64, Some(5u32)), (8, Some(3)), (9, Some(4))];
    let once = find_target(None, &prey);
    assert_eq!(find_target(once, &prey), once);
}

#[test]
fn main_menu_buttons() {
    assert_eq!(
        main_menu_command(ButtonInteraction::Pressed, MainMenuButtonAction::Play),
        MenuCommand::GoTo(MainMenuState::DifficultySelector)
    );
    assert_eq!(
        main_menu_command(ButtonInteraction::Pressed, MainMenuButtonAction::Settings),
        MenuCommand::GoTo(MainMenuState::Settings)
    );
    assert_eq!(main_menu_command(ButtonInteraction::Pressed, MainMenuButtonAction::Exit), MenuCommand::Exit);
    assert_eq!(main_menu_command(ButtonInteraction::Hovered, MainMenuButtonAction::Exit), MenuCommand::Stay);
    assert_eq!(main_menu_command(ButtonInteraction::Idle, MainMenuButtonAction::Play), MenuCommand::Stay);
}

#[test]
fn main_menu_frame_last_state_wins() {
    let out = main_menu_system(&vec![(ButtonInteraction::Pressed, MainMenuButtonAction::Play), (ButtonInteraction::Hovered, MainMenuButtonAction::Exit), (ButtonInteraction::Pressed, MainMenuButtonAction::Settings)]);
    assert_eq!(out.next_state, Some(MainMenuState::Settings));
    assert_eq!(out.exit_requests, 0);
    let out = main_menu_system(&vec![(ButtonInteraction::Pressed, MainMenuButtonAction::Exit), (ButtonInteraction::Pressed, MainMenuButtonAction::Exit)]);
    assert_eq!(out.next_state, None);
    assert_eq!(out.exit_requests, 2);
}

#[test]
fn main_menu_frame_without_press_changes_nothing() {
    let out = main_menu_system(&vec![(ButtonInteraction::Hovered, MainMenuButtonAction::Play), (ButtonInteraction::Idle, MainMenuButtonAction::Exit)]);
    assert_eq!(out.next_state, None);
    assert_eq!(out.exit_requests, 0);
}

#[test]
fn difficulty_buttons_set_difficulty() {
    let mut d = Difficulty::Easy;
    let next = difficulty_selector_system(
        &vec![(ButtonInteraction::Pressed, DifficultyButtonAction::Hard), (ButtonInteraction::Hovered, DifficultyButtonAction::Medium)],
        &mut d,
    );
    assert_eq!(d, Difficulty::Hard);
    assert_eq!(next, Some(MainMenuState::GameModeSelector));
    let next = difficulty_selector_system(&vec![(ButtonInteraction::Hovered, DifficultyButtonAction::Easy)], &mut d);
    assert_eq!(d, Difficulty::Hard);
    assert_eq!(next, None);
    let next = difficulty_selector_system(&vec![(ButtonInteraction::Pressed, DifficultyButtonAction::Medium)], &mut d);
    assert_eq!(d, Difficulty::Medium);
    assert_eq!(next, Some(MainMenuState::GameModeSelector));
}

#[test]
fn camera_switch_toggles() {
    let s = switch_camera(CurrentCameraUser::Player);
    assert_eq!(s.next_user, CurrentCameraUser::Debug);
    assert!(s.debug_camera_active && !s.player_camera_active);
    let back = switch_camera(s.next_user);
    assert_eq!(back.next_user, CurrentCameraUser::Player);
    assert!(back.player_camera_active && !back.debug_camera_active);
}

#[test]
fn movement_input_priorities() {
    let m = movement_input(true, true, true, true, true, true);
    assert_eq!((m.x, m.z, m.jump), (-1, -1, true));
    let m = movement_input(false, true, false, true, true, false);
    assert_eq!((m.x, m.z, m.jump), (1, 1, false));
    let m = movement_input(false, false, false, false, false, true);
    assert_eq!((m.x, m.z, m.jump), (0, 0, false));
    assert!(!is_moving(&m));
    assert!(is_moving(&movement_input(false, false, true, false, false, false)));
}

#[test]
fn fly_input_axes() {
    let f = fly_input(true, false, false, true, false, true);
    assert_eq!((f.x, f.y, f.z), (1, 1, -1));
    let f = fly_input(false, true, true, false, true, false);
    assert_eq!((f.x, f.y, f.z), (-1, -1, 1));
}

#[test]
fn melee_responses() {
    let r = melee_response(BodyKind::Static);
    assert!(r.player_recoils);
    assert_eq!(r.effect, MeleeEffect::NoEffect);
    let r = melee_response(BodyKind::Dynamic);
    assert!(!r.player_recoils);
    assert_eq!(r.effect, MeleeEffect::Push);
    let r = melee_response(BodyKind::Kinematic);
    assert_eq!(r.effect, MeleeEffect::SetVelocity);
}

#[test]
fn shove_directions() {
    assert_eq!(shove_direction(false, true, true), Some(ShoveDirection::Away));
    assert_eq!(shove_direction(false, false, true), Some(ShoveDirection::Toward));
    assert_eq!(shove_direction(false, false, false), None);
    assert_eq!(shove_direction(true, true, false), None);
}

#[test]
fn pistol_damage_and_pickup() {
    assert_eq!(shot_damage(true), Some(PISTOL_DAMAGE));
    assert_eq!(shot_damage(false), None);
    assert_eq!(picked_weapon(&vec![4, 5, 6]), Some(6));
    assert_eq!(picked_weapon(&vec![]), None);
}
