use player_core::geometry::{Direction, Position};
use player_core::input::{GameAction, InputBindings, Key, KeyboardState};
use player_core::levels::{debug_switch_level, Level};
use player_core::player::{
    movement_direction, player_movement, player_state_update, tick, update_player_color, Player,
    PlayerState, Rgb,
};
use player_core::timer::{Timer, TimerMode};

const SECOND: u64 = 1_000_000_000;
const MILLI: u64 = 1_000_000;
const UNIT: i64 = 1_000_000;

fn keys_held(keys: &[Key]) -> KeyboardState {
    let mut kb = KeyboardState::new();
    for &k in keys {
        kb.hold(k);
    }
    kb
}

fn origin() -> Position {
    Position { x: 0, y: 0 }
}

/// A walking player whose roll cooldown has run out.
fn walking_ready_to_roll(bindings: &InputBindings, pos: &mut Position) -> Player {
    let mut player = Player::default();
    tick(&keys_held(&[Key::KeyD]), bindings, 350 * MILLI, &mut player, pos);
    assert_eq!(player.state, PlayerState::Walking);
    assert!(player.roll_cooldown.finished());
    player
}

#[test]
fn unbound_action_is_never_pressed() {
    let mut bindings = InputBindings::new();
    bindings.insert(GameAction::MoveLeft, vec![Key::KeyA]);
    let mut kb = KeyboardState::new();
    for k in [Key::KeyA, Key::KeyE, Key::Space, Key::ShiftLeft, Key::KeyD] {
        kb.press(k);
    }
    assert!(!bindings.is_pressed(GameAction::Attack, &kb));
    assert!(!bindings.just_pressed(GameAction::Attack, &kb));
    assert!(!bindings.is_pressed(GameAction::Roll, &kb));
    assert!(!bindings.just_pressed(GameAction::Roll, &kb));
    assert!(bindings.is_pressed(GameAction::MoveLeft, &kb));
    assert!(bindings.just_pressed(GameAction::MoveLeft, &kb));
}

#[test]
fn default_bindings_answer_for_every_key() {
    let b = InputBindings::default();
    let kb = keys_held(&[Key::ArrowLeft]);
    assert!(b.is_pressed(GameAction::MoveLeft, &kb));
    assert!(!b.just_pressed(GameAction::MoveLeft, &kb));
    assert!(!b.is_pressed(GameAction::MoveRight, &kb));
    let pairs = [
        (GameAction::MoveLeft, Key::KeyA),
        (GameAction::MoveRight, Key::KeyD),
        (GameAction::MoveRight, Key::ArrowRight),
        (GameAction::MoveUp, Key::KeyW),
        (GameAction::MoveUp, Key::ArrowUp),
        (GameAction::MoveDown, Key::KeyS),
        (GameAction::MoveDown, Key::ArrowDown),
        (GameAction::Run, Key::ShiftLeft),
        (GameAction::Attack, Key::KeyE),
        (GameAction::Roll, Key::Space),
        (GameAction::SwitchLevel1, Key::Digit1),
        (GameAction::SwitchLevel2, Key::Digit2),
    ];
    for (action, key) in pairs {
        let mut kb = KeyboardState::new();
        kb.press(key);
        assert!(b.is_pressed(action, &kb));
        assert!(b.just_pressed(action, &kb));
    }
}

#[test]
fn rebinding_replaces_keys() {
    let mut b = InputBindings::default();
    b.insert(GameAction::Attack, vec![Key::Space]);
    let mut kb = KeyboardState::new();
    kb.press(Key::KeyE);
    assert!(!b.just_pressed(GameAction::Attack, &kb));
    let mut kb = KeyboardState::new();
    kb.press(Key::Space);
    assert!(b.just_pressed(GameAction::Attack, &kb));
    assert!(b.just_pressed(GameAction::Roll, &kb));
}

#[test]
fn opposing_keys_cancel_on_their_axis() {
    let b = InputBindings::default();
    assert_eq!(movement_direction(&b, &keys_held(&[Key::KeyA, Key::KeyD])), Direction { x: 0, y: 0 });
    assert_eq!(
        movement_direction(&b, &keys_held(&[Key::KeyA, Key::ArrowRight, Key::KeyW])),
        Direction { x: 0, y: 1 }
    );
    assert_eq!(
        movement_direction(&b, &keys_held(&[Key::KeyS, Key::ArrowUp, Key::KeyD])),
        Direction { x: 1, y: 0 }
    );
    assert_eq!(
        movement_direction(&b, &keys_held(&[Key::KeyA, Key::KeyS])),
        Direction { x: -1, y: -1 }
    );
}

#[test]
fn no_keys_held_means_idle_and_still() {
    let b = InputBindings::default();
    let mut player = Player::default();
    player.state = PlayerState::Running;
    let mut pos = Position { x: 5, y: -7 };
    tick(&KeyboardState::new(), &b, 16 * MILLI, &mut player, &mut pos);
    assert_eq!(player.state, PlayerState::Idle);
    assert_eq!(pos, Position { x: 5, y: -7 });
}

#[test]
fn walking_right_for_one_second() {
    let b = InputBindings::default();
    let mut player = Player::default();
    let mut pos = origin();
    tick(&keys_held(&[Key::KeyD]), &b, SECOND, &mut player, &mut pos);
    assert_eq!(player.state, PlayerState::Walking);
    assert_eq!(pos, Position { x: 300 * UNIT, y: 0 });
}

#[test]
fn walking_right_in_small_ticks() {
    let b = InputBindings::default();
    let mut player = Player::default();
    let mut pos = origin();
    for _ in 0..100 {
        tick(&keys_held(&[Key::ArrowRight]), &b, 10 * MILLI, &mut player, &mut pos);
    }
    assert_eq!(pos, Position { x: 300 * UNIT, y: 0 });
}

#[test]
fn running_right_for_half_a_second() {
    let b = InputBindings::default();
    let mut player = Player::default();
    let mut pos = origin();
    tick(&keys_held(&[Key::KeyD, Key::ShiftLeft]), &b, 500 * MILLI, &mut player, &mut pos);
    assert_eq!(player.state, PlayerState::Running);
    assert_eq!(pos, Position { x: 300 * UNIT, y: 0 });
}

#[test]
fn diagonal_moves_at_unit_speed() {
    let b = InputBindings::default();
    let mut player = Player::default();
    let mut pos = origin();
    tick(&keys_held(&[Key::KeyD, Key::KeyW]), &b, SECOND, &mut player, &mut pos);
    assert_eq!(pos, Position { x: 212_132_034, y: 212_132_034 });
    tick(&keys_held(&[Key::KeyA, Key::KeyS, Key::ShiftLeft]), &b, SECOND, &mut player, &mut pos);
    assert_eq!(pos, Position { x: 212_132_034 - 424_264_068, y: 212_132_034 - 424_264_068 });
}

#[test]
fn position_stops_at_the_coordinate_bounds() {
    let b = InputBindings::default();
    let mut player = Player::default();
    let mut pos = Position { x: i64::MAX - 10, y: i64::MIN + 10 };
    tick(&keys_held(&[Key::KeyD, Key::KeyS]), &b, SECOND, &mut player, &mut pos);
    assert_eq!(pos, Position { x: i64::MAX, y: i64::MIN });
}

#[test]
fn roll_from_walking_then_back_to_idle() {
    let b = InputBindings::default();
    let mut pos = origin();
    let mut player = walking_ready_to_roll(&b, &mut pos);
    assert_eq!(pos.x, 105 * UNIT);

    let mut kb = keys_held(&[Key::KeyD]);
    kb.press(Key::Space);
    tick(&kb, &b, 10 * MILLI, &mut player, &mut pos);
    assert_eq!(player.state, PlayerState::Rolling);
    assert_eq!(player.roll_speed, 300 * 2 * 2);
    assert_eq!(player.roll_direction, Direction { x: 1, y: 0 });
    assert!(!player.roll_cooldown.finished());
    assert_eq!(pos.x, 108 * UNIT);

    // Holding the opposite key changes nothing while rolling.
    tick(&keys_held(&[Key::KeyA]), &b, 100 * MILLI, &mut player, &mut pos);
    assert_eq!(player.state, PlayerState::Rolling);
    assert_eq!(pos, Position { x: 228 * UNIT, y: 0 });

    tick(&KeyboardState::new(), &b, 90 * MILLI, &mut player, &mut pos);
    assert_eq!(player.state, PlayerState::Idle);
    assert_eq!(pos, Position { x: 336 * UNIT, y: 0 });

    tick(&KeyboardState::new(), &b, 100 * MILLI, &mut player, &mut pos);
    assert_eq!(player.state, PlayerState::Idle);
    assert_eq!(pos, Position { x: 336 * UNIT, y: 0 });
}

#[test]
fn roll_needs_a_direction() {
    let b = InputBindings::default();
    let mut pos = origin();
    let mut player = walking_ready_to_roll(&b, &mut pos);
    let mut kb = KeyboardState::new();
    kb.press(Key::Space);
    tick(&kb, &b, 10 * MILLI, &mut player, &mut pos);
    assert_eq!(player.state, PlayerState::Idle);
    assert!(player.roll_cooldown.finished());
}

#[test]
fn roll_needs_the_cooldown() {
    let b = InputBindings::default();
    let mut player = Player::default();
    let mut pos = origin();
    let mut kb = keys_held(&[Key::KeyD]);
    kb.press(Key::Space);
    tick(&kb, &b, 100 * MILLI, &mut player, &mut pos);
    assert_eq!(player.state, PlayerState::Walking);
    assert_eq!(pos.x, 30 * UNIT);
}

#[test]
fn roll_needs_a_fresh_press() {
    let b = InputBindings::default();
    let mut pos = origin();
    let mut player = walking_ready_to_roll(&b, &mut pos);
    tick(&keys_held(&[Key::KeyD, Key::Space]), &b, 10 * MILLI, &mut player, &mut pos);
    assert_eq!(player.state, PlayerState::Walking);
}

#[test]
fn running_roll_is_faster_and_frozen_diagonally() {
    let b = InputBindings::default();
    let mut pos = origin();
    let mut player = walking_ready_to_roll(&b, &mut pos);
    let mut kb = keys_held(&[Key::KeyA, Key::KeyW, Key::ShiftLeft]);
    kb.press(Key::Space);
    player_movement(&kb, &b, 0, &mut player, &mut pos);
    assert_eq!(player.state, PlayerState::Rolling);
    assert_eq!(player.roll_direction, Direction { x: -1, y: 1 });
    assert_eq!(player.roll_speed, 1200);
    assert_eq!(player.roll_timer.elapsed_ns, 0);
    assert_eq!(player.roll_cooldown.elapsed_ns, 0);
    let before = pos;
    player_movement(&keys_held(&[Key::KeyD, Key::KeyS]), &b, SECOND / 10, &mut player, &mut pos);
    // 120 units along the diagonal: 120 / sqrt(2) on each axis.
    assert_eq!(pos, Position { x: before.x - 84_852_813, y: before.y + 84_852_813 });
    assert_eq!(player.roll_direction, Direction { x: -1, y: 1 });
}

#[test]
fn attack_from_idle_holds_position_until_done() {
    let b = InputBindings::default();
    let mut player = Player::default();
    let mut pos = origin();
    let mut kb = KeyboardState::new();
    kb.press(Key::KeyE);
    tick(&kb, &b, 100 * MILLI, &mut player, &mut pos);
    assert_eq!(player.state, PlayerState::Attacking);

    tick(&keys_held(&[Key::KeyD, Key::ShiftLeft]), &b, 100 * MILLI, &mut player, &mut pos);
    assert_eq!(player.state, PlayerState::Attacking);
    assert_eq!(pos, origin());

    tick(&keys_held(&[Key::KeyW]), &b, 100 * MILLI, &mut player, &mut pos);
    assert_eq!(player.state, PlayerState::Idle);
    assert_eq!(pos, origin());

    tick(&keys_held(&[Key::KeyW]), &b, 100 * MILLI, &mut player, &mut pos);
    assert_eq!(player.state, PlayerState::Walking);
    assert_eq!(pos, Position { x: 0, y: 30 * UNIT });
}

#[test]
fn attack_is_not_restarted_while_attacking() {
    let b = InputBindings::default();
    let mut player = Player::default();
    player.state = PlayerState::Attacking;
    player.attack_timer.tick(200 * MILLI);
    let mut pos = origin();
    let mut kb = keys_held(&[Key::KeyD]);
    kb.press(Key::KeyE);
    player_movement(&kb, &b, 50 * MILLI, &mut player, &mut pos);
    assert_eq!(player.attack_timer.elapsed_ns, 200 * MILLI);
    assert_eq!(pos, origin());
    player_state_update(100 * MILLI, &mut player);
    assert_eq!(player.state, PlayerState::Idle);
}

#[test]
fn attack_interrupts_walking_after_the_move() {
    let b = InputBindings::default();
    let mut player = Player::default();
    let mut pos = origin();
    let mut kb = keys_held(&[Key::KeyD]);
    kb.press(Key::KeyE);
    player_movement(&kb, &b, 100 * MILLI, &mut player, &mut pos);
    assert_eq!(player.state, PlayerState::Attacking);
    assert_eq!(pos.x, 30 * UNIT);
}

#[test]
fn cooldown_advances_in_every_state() {
    let b = InputBindings::default();
    let mut player = Player::default();
    player.state = PlayerState::Attacking;
    let mut pos = origin();
    player_movement(&KeyboardState::new(), &b, 100 * MILLI, &mut player, &mut pos);
    assert_eq!(player.roll_cooldown.elapsed_ns, 100 * MILLI);
}

#[test]
fn state_update_leaves_moving_states_alone() {
    let mut player = Player::default();
    for state in [PlayerState::Idle, PlayerState::Walking, PlayerState::Running] {
        player.state = state;
        player_state_update(SECOND, &mut player);
        assert_eq!(player.state, state);
        assert_eq!(player.roll_timer.elapsed_ns, 0);
        assert_eq!(player.attack_timer.elapsed_ns, 0);
    }
}

#[test]
fn reset_of_finished_timer_is_unfinished() {
    let mut t = Timer::new(300 * MILLI, TimerMode::Once);
    t.tick(400 * MILLI);
    assert!(t.finished());
    t.reset();
    assert!(!t.finished());
    assert_eq!(t.elapsed_ns, 0);
}

#[test]
fn once_timer_stays_finished() {
    let mut t = Timer::new(100, TimerMode::Once);
    t.tick(60);
    assert!(!t.finished());
    t.tick(40);
    assert!(t.finished());
    assert_eq!(t.elapsed_ns, 100);
    t.tick(1000);
    assert!(t.finished());
    assert_eq!(t.elapsed_ns, 100);
}

#[test]
fn repeating_timer_wraps() {
    let mut t = Timer::new(100, TimerMode::Repeating);
    t.tick(250);
    assert!(t.finished());
    assert_eq!(t.elapsed_ns, 50);
    t.tick(10);
    assert!(!t.finished());
    assert_eq!(t.elapsed_ns, 60);
}

#[test]
fn zero_length_timer_finishes_on_its_first_tick() {
    let mut t = Timer::new(0, TimerMode::Once);
    assert!(!t.finished());
    t.tick(0);
    assert!(t.finished());
    t.reset();
    assert!(!t.finished());
}

#[test]
fn timer_saturates_at_the_longest_time() {
    let mut t = Timer::new(u64::MAX, TimerMode::Once);
    t.tick(u64::MAX - 1);
    assert!(!t.finished());
    t.tick(5);
    assert!(t.finished());
    assert_eq!(t.elapsed_ns, u64::MAX);
}

#[test]
fn default_player_values() {
    let p = Player::default();
    assert_eq!(p.state, PlayerState::Idle);
    assert_eq!(p.speed, 300);
    assert_eq!(p.run_speed_multiplier, 2);
    assert_eq!(p.roll_speed, 400);
    assert_eq!(p.roll_timer, Timer::new(200 * MILLI, TimerMode::Once));
    assert_eq!(p.roll_cooldown, Timer::new(350 * MILLI, TimerMode::Once));
    assert_eq!(p.attack_timer, Timer::new(300 * MILLI, TimerMode::Once));
    assert_eq!(p.roll_direction, Direction { x: 0, y: 0 });
}

#[test]
fn each_state_has_its_color() {
    let mut p = Player::default();
    let mut c = Rgb { r: 0, g: 0, b: 0 };
    let table = [
        (PlayerState::Idle, Rgb { r: 25, g: 25, b: 75 }),
        (PlayerState::Walking, Rgb { r: 25, g: 75, b: 25 }),
        (PlayerState::Running, Rgb { r: 75, g: 25, b: 25 }),
        (PlayerState::Rolling, Rgb { r: 75, g: 75, b: 25 }),
        (PlayerState::Attacking, Rgb { r: 75, g: 25, b: 75 }),
    ];
    for (state, color) in table {
        p.state = state;
        update_player_color(&p, &mut c);
        assert_eq!(c, color);
    }
}

#[test]
fn level_switch_requests() {
    let b = InputBindings::default();
    assert_eq!(debug_switch_level(&b, &KeyboardState::new()), None);
    assert_eq!(debug_switch_level(&b, &keys_held(&[Key::Digit1])), None);
    let mut kb = KeyboardState::new();
    kb.press(Key::Digit2);
    assert_eq!(debug_switch_level(&b, &kb), Some(Level::Level2));
    kb.press(Key::Digit1);
    assert_eq!(debug_switch_level(&b, &kb), Some(Level::Level1));
}
