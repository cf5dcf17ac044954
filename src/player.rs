//! The player's movement rules: input to movement state, speed, heading and
//! facing.

use crate::facing::{facing_name, snapped_facing, Facing8, IVec2};
use vstd::prelude::*;

verus! {

/// How the player moves this physics step.
#[derive(Clone, Copy, Debug, PartialEq, Eq, Structural)]
pub enum MovementState {
    Idle,
    Walking,
    Running,
}

impl Default for MovementState {
    fn default() -> (r: MovementState)
        ensures
            r == MovementState::Idle,
    {
        MovementState::Idle
    }
}

/// Speed of each movement state, in distance units per second.
pub open spec fn speed_of(state: MovementState) -> int {
    match state {
        MovementState::Idle => 0,
        MovementState::Walking => 100,
        MovementState::Running => 200,
    }
}

/// The movement keys held during one physics step.
#[derive(Clone, Copy, Debug, PartialEq, Eq, Structural)]
pub struct PlayerInput {
    pub right: bool,
    pub left: bool,
    pub down: bool,
    pub up: bool,
    pub run: bool,
}

pub open spec fn key(held: bool) -> int {
    if held { 1 } else { 0 }
}

/// The sum of the held direction keys, each adding one on its axis.
pub open spec fn input_axes(input: PlayerInput) -> (int, int) {
    (key(input.right) - key(input.left), key(input.down) - key(input.up))
}

/// The movement state that held keys ask for.
pub open spec fn movement_state_of(input: PlayerInput) -> MovementState {
    if input_axes(input) == (0int, 0int) {
        MovementState::Idle
    } else if input.run {
        MovementState::Running
    } else {
        MovementState::Walking
    }
}

/// The outcome of one physics step, for the host to carry out.
#[derive(Clone, Copy, Debug, PartialEq, Eq, Structural)]
pub struct PlayerMotion {
    pub movement_state: MovementState,
    /// Speed in distance units per second.
    pub speed: u32,
    /// The raw sum of the held direction keys. The velocity is this vector
    /// scaled to length `speed` (the zero vector stays zero), so that
    /// diagonal movement is no faster than straight movement.
    pub direction: IVec2,
    /// The new facing when the player moves: the collision shape is turned
    /// to it and the animation blend position follows `direction`.
    pub facing: Option<Facing8>,
}

struct InputResult {
    velocity: IVec2,
    run_held: bool,
}

impl InputResult {
    fn new(velocity: IVec2, run_held: bool) -> (r: InputResult)
        ensures
            r.velocity == velocity,
            r.run_held == run_held,
    {
        InputResult { velocity, run_held }
    }
}

pub struct Player {
    pub facing: Facing8,
    pub movement_state: MovementState,
    /// Whether the debug label shows the facing.
    pub debug: bool,
    /// Hit points kept on the player itself; the pools under the player are
    /// what the dispatcher and the HUD read.
    pub health: i32,
    pub stamina: i32,
}

impl Player {
    /// A player facing down, standing still, with the debug label off.
    pub fn new() -> (r: Player)
        ensures
            r.facing == Facing8::Down,
            r.movement_state == MovementState::Idle,
            !r.debug,
            r.health == 100,
            r.stamina == 200,
    {
        Player {
            facing: Facing8::default(),
            movement_state: MovementState::default(),
            debug: false,
            health: 100,
            stamina: 200,
        }
    }

    pub fn get_health(&self) -> (r: i32)
        ensures
            r == self.health,
    {
        self.health
    }

    pub fn get_stamina(&self) -> (r: i32)
        ensures
            r == self.stamina,
    {
        self.stamina
    }

    /// Per-frame update of the debug label: the facing's name while the
    /// debug display is on.
    pub fn process(&self) -> (r: Option<&'static str>)
        ensures
            self.debug <==> r.is_some(),
            r matches Some(text) ==> text@ == facing_name(self.facing),
    {
        if self.debug {
            Some(self.facing.name())
        } else {
            None
        }
    }

    /// One physics step: the movement state, speed and heading that the held
    /// keys ask for, and a new facing whenever the player moves.
    pub fn physics_process(&mut self, input: &PlayerInput) -> (r: PlayerMotion)
        ensures
            r.movement_state == movement_state_of(*input),
            r.speed == speed_of(r.movement_state),
            (r.direction.x as int, r.direction.y as int) == input_axes(*input),
            final(self).movement_state == r.movement_state,
            input_axes(*input) != (0int, 0int) ==> {
                &&& final(self).facing == snapped_facing(input_axes(*input).0, input_axes(*input).1)
                &&& r.facing == Some(final(self).facing)
            },
            input_axes(*input) == (0int, 0int) ==> {
                &&& final(self).facing == old(self).facing
                &&& r.facing.is_none()
            },
            final(self).debug == old(self).debug,
            final(self).health == old(self).health,
            final(self).stamina == old(self).stamina,
    {
        let input = Self::handle_input(input);
        self.movement_state = if !input.velocity.is_zero() {
            if input.run_held {
                MovementState::Running
            } else {
                MovementState::Walking
            }
        } else {
            MovementState::Idle
        };
        let speed: u32 = match self.movement_state {
            MovementState::Idle => 0,
            MovementState::Walking => 100,
            MovementState::Running => 200,
        };
        let facing = self.update_facing(input.velocity);
        PlayerMotion {
            movement_state: self.movement_state,
            speed,
            direction: input.velocity,
            facing,
        }
    }

    fn handle_input(input: &PlayerInput) -> (r: InputResult)
        ensures
            (r.velocity.x as int, r.velocity.y as int) == input_axes(*input),
            r.run_held == input.run,
    {
        let mut velocity = IVec2::zero();
        if input.right {
            velocity.x = velocity.x + 1;
        }
        if input.left {
            velocity.x = velocity.x - 1;
        }
        if input.down {
            velocity.y = velocity.y + 1;
        }
        if input.up {
            velocity.y = velocity.y - 1;
        }
        InputResult::new(velocity, input.run)
    }

    fn update_facing(&mut self, velocity: IVec2) -> (r: Option<Facing8>)
        ensures
            !velocity.is_zero_spec() ==> {
                &&& final(self).facing == snapped_facing(velocity.x as int, velocity.y as int)
                &&& r == Some(final(self).facing)
            },
            velocity.is_zero_spec() ==> final(self).facing == old(self).facing && r.is_none(),
            final(self).movement_state == old(self).movement_state,
            final(self).debug == old(self).debug,
            final(self).health == old(self).health,
            final(self).stamina == old(self).stamina,
    {
        if !velocity.is_zero() {
            self.facing = Facing8::from_vector(velocity);
            Some(self.facing)
        } else {
            None
        }
    }
}

} // verus!
