use vstd::prelude::*;
use crate::geometry::{Direction, Position, shift, shifted, travel};
use crate::input::{GameAction, InputBindings, KeyboardState};
use crate::timer::{Timer, TimerMode};

verus! {

/// What the player is doing; exactly one holds at a time.
#[derive(Clone, Copy, Debug, PartialEq, Eq, Structural)]
pub enum PlayerState {
    Idle,
    Walking,
    Running,
    Rolling,
    Attacking,
}

/// The player aggregate. Speeds are in world units per second.
#[derive(Clone, Copy, Debug, PartialEq, Eq, Structural)]
pub struct Player {
    pub state: PlayerState,
    pub speed: u32,
    /// Whole factor applied to `speed` while running.
    pub run_speed_multiplier: u32,
    pub roll_speed: u64,
    pub roll_timer: Timer,
    pub roll_cooldown: Timer,
    pub attack_timer: Timer,
    /// The direction of travel frozen when the current roll started.
    pub roll_direction: Direction,
}

/// Duration of a roll.
pub const ROLL_DURATION_NS: u64 = 200_000_000;

/// Time between the starts of two rolls.
pub const ROLL_COOLDOWN_NS: u64 = 350_000_000;

/// Duration of an attack.
pub const ATTACK_DURATION_NS: u64 = 300_000_000;

/// The speed of a roll started by a player with these speeds.
pub open spec fn roll_speed_for(speed: u32, run_speed_multiplier: u32) -> int {
    speed * run_speed_multiplier * 2
}

/// The component along one axis of the held direction: `1` toward the
/// positive key, `-1` toward the negative one, `0` for neither or both.
pub open spec fn axis(negative: bool, positive: bool) -> i8 {
    if positive && !negative {
        1
    } else if negative && !positive {
        -1i8
    } else {
        0
    }
}

/// The direction that the held movement actions ask for.
pub open spec fn held_direction(bindings: InputBindings, keyboard: KeyboardState) -> Direction {
    Direction {
        x: axis(
            bindings.action_held(GameAction::MoveLeft, keyboard),
            bindings.action_held(GameAction::MoveRight, keyboard),
        ),
        y: axis(
            bindings.action_held(GameAction::MoveDown, keyboard),
            bindings.action_held(GameAction::MoveUp, keyboard),
        ),
    }
}

impl Player {
    pub open spec fn wf(self) -> bool {
        &&& self.roll_timer.wf()
        &&& self.roll_cooldown.wf()
        &&& self.attack_timer.wf()
        &&& self.roll_direction.wf()
        &&& roll_speed_for(self.speed, self.run_speed_multiplier) <= u64::MAX
    }

    /// The distance of a tick of `delta_ns` nanoseconds fits the coordinate
    /// range at each speed the player may move with.
    pub open spec fn tick_in_range(self, delta_ns: u64) -> bool {
        &&& travel(self.speed as int, delta_ns as int) <= i64::MAX
        &&& travel(self.speed * self.run_speed_multiplier, delta_ns as int) <= i64::MAX
        &&& travel(self.roll_speed as int, delta_ns as int) <= i64::MAX
    }

    /// Whether a tick of `delta_ns` nanoseconds stays within the coordinate
    /// range at each speed the player may move with.
    pub fn tick_fits(&self, delta_ns: u64) -> (r: bool)
        ensures
            r == self.tick_in_range(delta_ns),
    {
        let limit: u128 = i64::MAX as u128 * 1000 + 999;
        let dt: u128 = delta_ns as u128;
        let walk: u128 = self.speed as u128;
        assert((self.speed as int) * (self.run_speed_multiplier as int) <= u64::MAX) by (
        nonlinear_arith)
            requires
                self.speed <= u32::MAX,
                self.run_speed_multiplier <= u32::MAX,
        ;
        let run: u128 = self.speed as u128 * self.run_speed_multiplier as u128;
        let roll: u128 = self.roll_speed as u128;
        assert(walk * dt <= u64::MAX * u64::MAX && run * dt <= u64::MAX * u64::MAX && roll * dt
            <= u64::MAX * u64::MAX) by (nonlinear_arith)
            requires
                walk <= u64::MAX,
                run <= u64::MAX,
                roll <= u64::MAX,
                dt <= u64::MAX,
        ;
        walk * dt <= limit && run * dt <= limit && roll * dt <= limit
    }

    /// The player once a roll along `dir` has started.
    pub open spec fn roll_started(self, dir: Direction) -> Player {
        Player {
            state: PlayerState::Rolling,
            roll_timer: self.roll_timer.restarted(),
            roll_direction: dir,
            roll_speed: roll_speed_for(self.speed, self.run_speed_multiplier) as u64,
            roll_cooldown: self.roll_cooldown.restarted(),
            ..self
        }
    }

    /// The player once an attack has started.
    pub open spec fn attack_started(self) -> Player {
        Player {
            state: PlayerState::Attacking,
            attack_timer: self.attack_timer.restarted(),
            ..self
        }
    }

    /// Player and position after moving along the held direction `dir`
    /// (not zero), with a roll started where the roll action allows it.
    pub open spec fn walked(
        self,
        pos: Position,
        dir: Direction,
        bindings: InputBindings,
        keyboard: KeyboardState,
        delta_ns: u64,
    ) -> (Player, Position) {
        let run = bindings.action_held(GameAction::Run, keyboard);
        let speed = if run {
            self.speed * self.run_speed_multiplier
        } else {
            self.speed as int
        };
        let moving = Player {
            state: if run {
                PlayerState::Running
            } else {
                PlayerState::Walking
            },
            ..self
        };
        let p = if bindings.action_triggered(GameAction::Roll, keyboard)
            && self.roll_cooldown.done {
            moving.roll_started(dir)
        } else {
            moving
        };
        (p, shifted(pos, dir, speed, delta_ns as int))
    }

    /// The movement pass of a tick: player and position after it.
    ///
    /// The roll cooldown always advances. A rolling player moves along the
    /// frozen roll direction at the roll speed, and an attacking player stays
    /// put, whatever keys are held. Otherwise the held direction decides
    /// between idling and walking or running (and may start a roll), and a
    /// triggered attack then takes over.
    pub open spec fn moved(
        self,
        pos: Position,
        bindings: InputBindings,
        keyboard: KeyboardState,
        delta_ns: u64,
    ) -> (Player, Position) {
        let p = Player { roll_cooldown: self.roll_cooldown.ticked(delta_ns), ..self };
        if self.state == PlayerState::Rolling {
            (p, shifted(pos, self.roll_direction, self.roll_speed as int, delta_ns as int))
        } else if self.state == PlayerState::Attacking {
            (p, pos)
        } else {
            let dir = held_direction(bindings, keyboard);
            let resolved = if dir.is_zero() {
                (Player { state: PlayerState::Idle, ..p }, pos)
            } else {
                p.walked(pos, dir, bindings, keyboard, delta_ns)
            };
            if bindings.action_triggered(GameAction::Attack, keyboard) && resolved.0.state
                != PlayerState::Attacking {
                (resolved.0.attack_started(), resolved.1)
            } else {
                resolved
            }
        }
    }

    /// The timer pass of a tick: a roll or an attack advances its timer and
    /// gives way to idling once the timer has finished.
    pub open spec fn timers_advanced(self, delta_ns: u64) -> Player {
        match self.state {
            PlayerState::Rolling => {
                let t = self.roll_timer.ticked(delta_ns);
                Player {
                    roll_timer: t,
                    state: if t.done {
                        PlayerState::Idle
                    } else {
                        PlayerState::Rolling
                    },
                    ..self
                }
            },
            PlayerState::Attacking => {
                let t = self.attack_timer.ticked(delta_ns);
                Player {
                    attack_timer: t,
                    state: if t.done {
                        PlayerState::Idle
                    } else {
                        PlayerState::Attacking
                    },
                    ..self
                }
            },
            _ => self,
        }
    }

    /// The player the game starts with: idle, speed 300, running twice as
    /// fast, no roll yet, and its three timers fresh.
    pub fn default() -> (r: Player)
        ensures
            r.wf(),
            r.state == PlayerState::Idle,
            r.speed == 300,
            r.run_speed_multiplier == 2,
            r.roll_speed == 400,
            r.roll_timer == Timer::new_spec(ROLL_DURATION_NS, TimerMode::Once),
            r.roll_cooldown == Timer::new_spec(ROLL_COOLDOWN_NS, TimerMode::Once),
            r.attack_timer == Timer::new_spec(ATTACK_DURATION_NS, TimerMode::Once),
            r.roll_direction == (Direction { x: 0, y: 0 }),
    {
        Player {
            state: PlayerState::Idle,
            speed: 300,
            run_speed_multiplier: 2,
            roll_speed: 400,
            roll_timer: Timer::new(ROLL_DURATION_NS, TimerMode::Once),
            roll_cooldown: Timer::new(ROLL_COOLDOWN_NS, TimerMode::Once),
            attack_timer: Timer::new(ATTACK_DURATION_NS, TimerMode::Once),
            roll_direction: Direction { x: 0, y: 0 },
        }
    }
}

/// The direction that the held movement actions ask for; opposite actions
/// held together cancel.
pub fn movement_direction(bindings: &InputBindings, keyboard: &KeyboardState) -> (r: Direction)
    requires
        bindings.wf(),
    ensures
        r == held_direction(*bindings, *keyboard),
        r.wf(),
{
    let mut x: i8 = 0;
    let mut y: i8 = 0;
    let left = bindings.is_pressed(GameAction::MoveLeft, keyboard);
    let right = bindings.is_pressed(GameAction::MoveRight, keyboard);
    let up = bindings.is_pressed(GameAction::MoveUp, keyboard);
    let down = bindings.is_pressed(GameAction::MoveDown, keyboard);
    if left {
        x = x - 1;
    }
    if right {
        x = x + 1;
    }
    if up {
        y = y + 1;
    }
    if down {
        y = y - 1;
    }
    Direction { x, y }
}

/// The movement pass of a tick of `delta_ns` nanoseconds: advances the roll
/// cooldown, moves the player, and resolves its state from the input.
pub fn player_movement(
    keyboard: &KeyboardState,
    input_bindings: &InputBindings,
    delta_ns: u64,
    player: &mut Player,
    position: &mut Position,
)
    requires
        old(player).wf(),
        old(player).tick_in_range(delta_ns),
        input_bindings.wf(),
    ensures
        (*final(player), *final(position)) == old(player).moved(
            *old(position),
            *input_bindings,
            *keyboard,
            delta_ns,
        ),
        final(player).wf(),
{
    player.roll_cooldown.tick(delta_ns);

    if player.state == PlayerState::Rolling {
        *position = shift(*position, player.roll_direction, player.roll_speed, delta_ns);
        return;
    }
    if player.state == PlayerState::Attacking {
        return;
    }

    let direction = movement_direction(input_bindings, keyboard);
    if direction.x != 0 || direction.y != 0 {
        let run = input_bindings.is_pressed(GameAction::Run, keyboard);
        let speed: u64 = if run {
            player.speed as u64 * player.run_speed_multiplier as u64
        } else {
            player.speed as u64
        };
        *position = shift(*position, direction, speed, delta_ns);
        player.state = if run {
            PlayerState::Running
        } else {
            PlayerState::Walking
        };
        if input_bindings.just_pressed(GameAction::Roll, keyboard) && player.roll_cooldown.finished() {
            player.state = PlayerState::Rolling;
            player.roll_timer.reset();
            player.roll_direction = direction;
            player.roll_speed = player.speed as u64 * player.run_speed_multiplier as u64 * 2;
            player.roll_cooldown.reset();
        }
    } else {
        player.state = PlayerState::Idle;
    }

    if input_bindings.just_pressed(GameAction::Attack, keyboard) && player.state
        != PlayerState::Attacking {
        player.state = PlayerState::Attacking;
        player.attack_timer.reset();
    }
}

/// The timer pass of a tick of `delta_ns` nanoseconds: advances the timer of
/// a roll or an attack, and returns to idling once it has finished.
pub fn player_state_update(delta_ns: u64, player: &mut Player)
    requires
        old(player).wf(),
    ensures
        *final(player) == old(player).timers_advanced(delta_ns),
        final(player).wf(),
{
    match player.state {
        PlayerState::Rolling => {
            player.roll_timer.tick(delta_ns);
            if player.roll_timer.finished() {
                player.state = PlayerState::Idle;
            }
        },
        PlayerState::Attacking => {
            player.attack_timer.tick(delta_ns);
            if player.attack_timer.finished() {
                player.state = PlayerState::Idle;
            }
        },
        _ => {},
    }
}

/// One tick of `delta_ns` nanoseconds: the movement pass, then the timer pass,
/// so that a roll or attack entered during this tick is advanced by it once.
pub fn tick(
    keyboard: &KeyboardState,
    input_bindings: &InputBindings,
    delta_ns: u64,
    player: &mut Player,
    position: &mut Position,
)
    requires
        old(player).wf(),
        old(player).tick_in_range(delta_ns),
        input_bindings.wf(),
    ensures
        ({
            let m = old(player).moved(*old(position), *input_bindings, *keyboard, delta_ns);
            *final(player) == m.0.timers_advanced(delta_ns) && *final(position) == m.1
        }),
        final(player).wf(),
{
    player_movement(keyboard, input_bindings, delta_ns, player, position);
    player_state_update(delta_ns, player);
}

/// A display color, each channel in hundredths of full intensity.
#[derive(Clone, Copy, Debug, PartialEq, Eq, Structural)]
pub struct Rgb {
    pub r: u8,
    pub g: u8,
    pub b: u8,
}

/// The color that shows each state: blue, green, red, yellow and purple.
pub open spec fn state_color(state: PlayerState) -> Rgb {
    match state {
        PlayerState::Idle => Rgb { r: 25, g: 25, b: 75 },
        PlayerState::Walking => Rgb { r: 25, g: 75, b: 25 },
        PlayerState::Running => Rgb { r: 75, g: 25, b: 25 },
        PlayerState::Rolling => Rgb { r: 75, g: 75, b: 25 },
        PlayerState::Attacking => Rgb { r: 75, g: 25, b: 75 },
    }
}

/// Sets `color` to the color of the player's state.
pub fn update_player_color(player: &Player, color: &mut Rgb)
    ensures
        *final(color) == state_color(player.state),
{
    *color = match player.state {
        PlayerState::Idle => Rgb { r: 25, g: 25, b: 75 },
        PlayerState::Walking => Rgb { r: 25, g: 75, b: 25 },
        PlayerState::Running => Rgb { r: 75, g: 25, b: 25 },
        PlayerState::Rolling => Rgb { r: 75, g: 75, b: 25 },
        PlayerState::Attacking => Rgb { r: 75, g: 25, b: 75 },
    };
}

/// When the keys of one axis are held together and those of the other are
/// not, the held direction has no component along the first axis.
pub proof fn lemma_opposing_keys_cancel(bindings: InputBindings, keyboard: KeyboardState)
    ensures
        bindings.action_held(GameAction::MoveLeft, keyboard) && bindings.action_held(
            GameAction::MoveRight,
            keyboard,
        ) ==> held_direction(bindings, keyboard).x == 0,
        bindings.action_held(GameAction::MoveUp, keyboard) && bindings.action_held(
            GameAction::MoveDown,
            keyboard,
        ) ==> held_direction(bindings, keyboard).y == 0,
{
}

/// A roll starts only from walking or running (a held direction that is not
/// zero, from a player that was neither rolling nor attacking), on a
/// triggered roll action, with the roll cooldown finished. Starting it
/// restarts both the roll timer and the cooldown, sets the roll speed, and
/// freezes the roll direction to the held direction.
pub proof fn lemma_roll_start(
    player: Player,
    pos: Position,
    bindings: InputBindings,
    keyboard: KeyboardState,
    delta_ns: u64,
)
    requires
        player.wf(),
        player.state != PlayerState::Rolling,
        player.moved(pos, bindings, keyboard, delta_ns).0.state == PlayerState::Rolling,
    ensures
        ({
            let r = player.moved(pos, bindings, keyboard, delta_ns).0;
            let dir = held_direction(bindings, keyboard);
            &&& player.state != PlayerState::Attacking
            &&& !dir.is_zero()
            &&& bindings.action_triggered(GameAction::Roll, keyboard)
            &&& !bindings.action_triggered(GameAction::Attack, keyboard)
            &&& player.roll_cooldown.ticked(delta_ns).done
            &&& r.roll_timer == player.roll_timer.restarted()
            &&& r.roll_cooldown == player.roll_cooldown.ticked(delta_ns).restarted()
            &&& r.roll_direction == dir
            &&& r.roll_speed == roll_speed_for(player.speed, player.run_speed_multiplier)
        }),
{
}

/// Once a roll has started, neither pass of a tick changes its direction,
/// whatever keys are held.
pub proof fn lemma_roll_direction_frozen(
    player: Player,
    pos: Position,
    bindings: InputBindings,
    keyboard: KeyboardState,
    delta_ns: u64,
)
    requires
        player.state == PlayerState::Rolling,
    ensures
        player.moved(pos, bindings, keyboard, delta_ns).0.roll_direction == player.roll_direction,
        player.moved(pos, bindings, keyboard, delta_ns).0.timers_advanced(
            delta_ns,
        ).roll_direction == player.roll_direction,
{
}

/// A rolling player moves along its roll direction at its roll speed, and
/// the keys held do not change where it ends up.
pub proof fn lemma_rolling_ignores_keys(
    player: Player,
    pos: Position,
    bindings: InputBindings,
    keyboard: KeyboardState,
    other_bindings: InputBindings,
    other_keyboard: KeyboardState,
    delta_ns: u64,
)
    requires
        player.state == PlayerState::Rolling,
    ensures
        player.moved(pos, bindings, keyboard, delta_ns).1 == shifted(
            pos,
            player.roll_direction,
            player.roll_speed as int,
            delta_ns as int,
        ),
        player.moved(pos, bindings, keyboard, delta_ns).1 == player.moved(
            pos,
            other_bindings,
            other_keyboard,
            delta_ns,
        ).1,
{
}

/// An attacking player does not move, whatever keys are held.
pub proof fn lemma_attacking_stays_put(
    player: Player,
    pos: Position,
    bindings: InputBindings,
    keyboard: KeyboardState,
    delta_ns: u64,
)
    requires
        player.state == PlayerState::Attacking,
    ensures
        player.moved(pos, bindings, keyboard, delta_ns).1 == pos,
{
}

} // verus!
