//! The simulation: one player, one camera, and a step that moves both.
//!
//! Time is counted in ticks, sixty to the second. A velocity is the distance
//! covered in one tick, and gravity the speed lost in one tick, so a tick adds
//! and subtracts whole numbers and nothing is ever rounded.

use crate::error::CoreError;
use crate::level::Obstacle;
use crate::units::{add_clamped, clamp, sub_clamped, ONE};
use vstd::prelude::*;

verus! {

/// How many ticks make a second.
pub const TICKS_PER_SECOND: i64 = 60;

/// The upward velocity at take-off: five world units a second.
pub const JUMP_INITIAL_VELOCITY: i64 = 503_316_480;

/// The upward velocity lost in a tick: five world units a second, each second.
pub const GRAVITY: i64 = 8_388_608;

/// The forward velocity of the scrolling world: two world units a second.
pub const SCROLL_VELOCITY: i64 = 201_326_592;

/// The forward velocity while the boost is held: five world units a second.
pub const BOOST_VELOCITY: i64 = 503_316_480;

/// The radius of the player's sphere and of every obstacle: half a world unit.
pub const SPHERE_RADIUS: i64 = 3_019_898_880;

/// Where the player starts: five world units before the origin.
pub const PLAYER_START_X: i64 = -30_198_988_800;

/// The constants above are the physical quantities they are named after.
pub proof fn constants_are_physical()
    ensures
        JUMP_INITIAL_VELOCITY * TICKS_PER_SECOND == 5 * ONE,
        GRAVITY * TICKS_PER_SECOND * TICKS_PER_SECOND == 5 * ONE,
        SCROLL_VELOCITY * TICKS_PER_SECOND == 2 * ONE,
        BOOST_VELOCITY * TICKS_PER_SECOND == 5 * ONE,
        2 * SPHERE_RADIUS == ONE,
        PLAYER_START_X == -5 * ONE,
{
}

/// Checks the rate at which the host means to step the simulation. Any rate
/// but sixty ticks a second is reported; the simulation itself steps by a
/// sixtieth of a second whatever the host does.
pub fn check_cadence(ticks_per_second: u64) -> (r: Result<(), CoreError>)
    ensures
        ticks_per_second == TICKS_PER_SECOND ==> r == Ok::<(), CoreError>(()),
        ticks_per_second != TICKS_PER_SECOND ==> r == Err::<(), CoreError>(
            CoreError::InvalidTickCadence,
        ),
{
    if ticks_per_second == 60 {
        Ok(())
    } else {
        Err(CoreError::InvalidTickCadence)
    }
}

/// What the host's input devices report for one tick.
#[derive(Clone, Copy, Debug, PartialEq, Eq, Structural)]
pub struct Input {
    /// The jump key is down.
    pub jump: bool,
    /// The boost key is down.
    pub boost: bool,
}

/// Whether the player stands or flies.
#[derive(Clone, Copy, Debug, PartialEq, Eq, Structural)]
pub enum JumpState {
    OnFloor,
    InAir,
}

/// A point of the plane in which the player moves.
#[derive(Clone, Copy, Debug, PartialEq, Eq, Structural)]
pub struct Position {
    pub x: i64,
    pub y: i64,
}

/// The player's sphere.
#[derive(Clone, Copy, Debug, PartialEq, Eq, Structural)]
pub struct Player {
    /// Where the centre of the sphere is; the floor is at height nothing.
    pub position: Position,
    /// How far the player advances in a tick.
    pub velocity_x: i64,
    /// How far the player rises in a tick, or falls where it is below nothing.
    pub velocity_y: i64,
    pub jump_state: JumpState,
    /// Set by the first contact with an obstacle, and never cleared.
    pub collided: bool,
}

/// The camera that follows the scrolling world.
#[derive(Clone, Copy, Debug, PartialEq, Eq, Structural)]
pub struct Camera {
    pub position_x: i64,
    /// How far the camera advances in a tick.
    pub velocity_x: i64,
    /// Set by the player's first contact with an obstacle, and never cleared.
    pub stopped: bool,
}

/// The forward velocity that the input asks for.
pub open spec fn speed_for(boost: bool) -> int {
    if boost {
        BOOST_VELOCITY as int
    } else {
        SCROLL_VELOCITY as int
    }
}

/// The forward velocity that the input asks for, of player and camera alike.
pub fn horizontal_speed(boost: bool) -> (v: i64)
    ensures
        v == speed_for(boost),
{
    if boost {
        BOOST_VELOCITY
    } else {
        SCROLL_VELOCITY
    }
}

impl Player {
    /// The player at the start of a run.
    pub open spec fn initial() -> Player {
        Player {
            position: Position { x: PLAYER_START_X, y: 0 },
            velocity_x: SCROLL_VELOCITY,
            velocity_y: 0,
            jump_state: JumpState::OnFloor,
            collided: false,
        }
    }

    /// The player lies below the floor and is put back on it by the next tick.
    pub open spec fn sunk(self) -> bool {
        self.position.y < 0
    }

    /// The next tick is a take-off: a jump is asked for and can be had.
    pub open spec fn takes_off(self, input: Input) -> bool {
        !self.sunk() && input.jump && self.jump_state == JumpState::OnFloor
    }

    /// Whether the player stands or flies after a tick in which it moves.
    pub open spec fn next_jump_state(self, input: Input) -> JumpState {
        if self.sunk() {
            JumpState::OnFloor
        } else if self.takes_off(input) {
            JumpState::InAir
        } else {
            self.jump_state
        }
    }

    /// The upward velocity after a tick in which the player moves: that of a
    /// landing, a take-off or the tick before, less gravity.
    pub open spec fn next_velocity_y(self, input: Input) -> int {
        let before_gravity = if self.sunk() {
            0
        } else if self.takes_off(input) {
            JUMP_INITIAL_VELOCITY as int
        } else {
            self.velocity_y as int
        };
        clamp(before_gravity - GRAVITY)
    }

    /// The height after a tick in which the player moves: none on the floor,
    /// and in the air the old height and the new upward velocity together.
    pub open spec fn next_height(self, input: Input) -> int {
        match self.next_jump_state(input) {
            JumpState::OnFloor => 0,
            JumpState::InAir => clamp(self.position.y + self.next_velocity_y(input)),
        }
    }

    /// The player one tick on. A player that has collided stays as it is.
    pub open spec fn moved(self, input: Input) -> Player {
        if self.collided {
            self
        } else {
            Player {
                position: Position {
                    x: clamp(self.position.x + speed_for(input.boost)) as i64,
                    y: self.next_height(input) as i64,
                },
                velocity_x: speed_for(input.boost) as i64,
                velocity_y: self.next_velocity_y(input) as i64,
                jump_state: self.next_jump_state(input),
                collided: false,
            }
        }
    }
}

impl Player {
    /// The player after one tick for each of the inputs, in their order, with
    /// no obstacle in its way.
    pub open spec fn after(self, inputs: Seq<Input>) -> Player
        decreases inputs.len(),
    {
        if inputs.len() == 0 {
            self
        } else {
            self.after(inputs.drop_last()).moved(inputs.last())
        }
    }
}

impl Default for Player {
    fn default() -> (player: Player)
        ensures
            player == Player::initial(),
    {
        Player {
            position: Position { x: PLAYER_START_X, y: 0 },
            velocity_x: SCROLL_VELOCITY,
            velocity_y: 0,
            jump_state: JumpState::OnFloor,
            collided: false,
        }
    }
}

/// Moves the player by one tick.
///
/// In this order: the forward velocity follows the boost and carries the player
/// on; a jump asked for on the floor becomes a take-off; a player found below
/// the floor is put back on it, at rest; gravity takes its share of the upward
/// velocity; and a player in the air rises or falls by what is left.
pub fn player_movement_system(player: &mut Player, input: Input)
    ensures
        *final(player) == old(player).moved(input),
{
    if player.collided {
        return ;
    }
    player.velocity_x = horizontal_speed(input.boost);
    player.position.x = add_clamped(player.position.x, player.velocity_x);

    if input.jump {
        match player.jump_state {
            JumpState::OnFloor => {
                player.jump_state = JumpState::InAir;
                player.velocity_y = JUMP_INITIAL_VELOCITY;
            },
            JumpState::InAir => {},
        }
    }
    if player.position.y < 0 {
        player.jump_state = JumpState::OnFloor;
        player.velocity_y = 0;
        player.position.y = 0;
    }
    player.velocity_y = sub_clamped(player.velocity_y, GRAVITY);

    match player.jump_state {
        JumpState::OnFloor => {
            player.position.y = 0;
        },
        JumpState::InAir => {
            player.position.y = add_clamped(player.position.y, player.velocity_y);
        },
    }
}

impl Camera {
    /// The camera at the start of a run.
    pub open spec fn initial() -> Camera {
        Camera { position_x: 0, velocity_x: SCROLL_VELOCITY, stopped: false }
    }

    /// The camera one tick on. A camera that has stopped stays as it is.
    pub open spec fn moved(self, input: Input) -> Camera {
        if self.stopped {
            self
        } else {
            Camera {
                position_x: clamp(self.position_x + speed_for(input.boost)) as i64,
                velocity_x: speed_for(input.boost) as i64,
                stopped: false,
            }
        }
    }
}

impl Default for Camera {
    fn default() -> (camera: Camera)
        ensures
            camera == Camera::initial(),
    {
        Camera { position_x: 0, velocity_x: SCROLL_VELOCITY, stopped: false }
    }
}

/// Moves the camera by one tick, at the forward velocity that the boost asks for.
pub fn camera_movement_system(camera: &mut Camera, input: Input)
    ensures
        *final(camera) == old(camera).moved(input),
{
    if camera.stopped {
        return ;
    }
    camera.velocity_x = horizontal_speed(input.boost);
    camera.position_x = add_clamped(camera.position_x, camera.velocity_x);
}

/// The player's sphere at `at` and the obstacle touch or overlap: their
/// centres are no further apart than the two radii together.
pub open spec fn touching(at: Position, obstacle: Obstacle) -> bool {
    (obstacle.x - at.x) * (obstacle.x - at.x) + (obstacle.y - at.y) * (obstacle.y - at.y) <= (2
        * SPHERE_RADIUS) * (2 * SPHERE_RADIUS)
}

/// How many of the obstacles the player's sphere at `at` touches.
pub open spec fn contacts(at: Position, obstacles: Seq<Obstacle>) -> nat
    decreases obstacles.len(),
{
    if obstacles.len() == 0 {
        0
    } else {
        contacts(at, obstacles.drop_last()) + if touching(at, obstacles.last()) {
            1nat
        } else {
            0nat
        }
    }
}

/// There is a contact exactly where one of the obstacles is touched.
pub proof fn contacts_found(at: Position, obstacles: Seq<Obstacle>)
    ensures
        contacts(at, obstacles) > 0 <==> exists|i: int|
            0 <= i < obstacles.len() && touching(at, #[trigger] obstacles[i]),
    decreases obstacles.len(),
{
    if obstacles.len() > 0 {
        let front = obstacles.drop_last();
        contacts_found(at, front);
        if contacts(at, front) > 0 {
            let i = choose|i: int| 0 <= i < front.len() && touching(at, #[trigger] front[i]);
            assert(touching(at, obstacles[i]));
        } else if touching(at, obstacles.last()) {
            assert(touching(at, obstacles[obstacles.len() - 1]));
        } else {
            assert forall|i: int| 0 <= i < obstacles.len() implies !touching(
                at,
                #[trigger] obstacles[i],
            ) by {
                if i < front.len() {
                    assert(!touching(at, front[i]));
                }
            }
        }
    }
}

fn touches(at: Position, obstacle: &Obstacle) -> (r: bool)
    ensures
        r == touching(at, *obstacle),
{
    let reach: i128 = 2 * SPHERE_RADIUS as i128;
    let dx: i128 = obstacle.x as i128 - at.x as i128;
    let dy: i128 = obstacle.y as i128 - at.y as i128;
    if dx > reach || dx < -reach {
        assert(dx * dx > reach * reach) by (nonlinear_arith)
            requires
                dx > reach || dx < -reach,
                reach > 0,
        ;
        assert(dy * dy >= 0) by (nonlinear_arith);
        false
    } else if dy > reach || dy < -reach {
        assert(dy * dy > reach * reach) by (nonlinear_arith)
            requires
                dy > reach || dy < -reach,
                reach > 0,
        ;
        assert(dx * dx >= 0) by (nonlinear_arith);
        false
    } else {
        assert(0 <= dx * dx <= reach * reach) by (nonlinear_arith)
            requires
                -reach <= dx <= reach,
        ;
        assert(0 <= dy * dy <= reach * reach) by (nonlinear_arith)
            requires
                -reach <= dy <= reach,
        ;
        assert(reach * reach == 36_479_156_981_701_017_600) by (nonlinear_arith)
            requires
                reach == 6_039_797_760,
        ;
        dx * dx + dy * dy <= reach * reach
    }
}

/// Looks for obstacles that the player touches, and returns how many there are.
///
/// Each of them is an event for the host. The first one ends the run: the
/// player has collided and the camera stops, and neither is undone.
pub fn check_for_collisions(
    player: &mut Player,
    camera: &mut Camera,
    obstacles: &Vec<Obstacle>,
) -> (events: usize)
    ensures
        events == contacts(old(player).position, obstacles@),
        *final(player) == (Player {
            collided: old(player).collided || events > 0,
            ..*old(player)
        }),
        *final(camera) == (Camera { stopped: old(camera).stopped || events > 0, ..*old(camera) }),
{
    let at = player.position;
    let mut events: usize = 0;
    let mut i: usize = 0;
    while i < obstacles.len()
        invariant
            i <= obstacles.len(),
            events == contacts(at, obstacles@.take(i as int)),
            events <= i,
            at == old(player).position,
            *player == (Player { collided: old(player).collided || events > 0, ..*old(player) }),
            *camera == (Camera { stopped: old(camera).stopped || events > 0, ..*old(camera) }),
        decreases obstacles.len() - i,
    {
        assert(obstacles@.take(i + 1).drop_last() =~= obstacles@.take(i as int));
        if touches(at, &obstacles[i]) {
            events += 1;
            player.collided = true;
            camera.stopped = true;
        }
        i += 1;
    }
    assert(obstacles@.take(i as int) =~= obstacles@);
    events
}

/// All that changes in a run: the player, the camera, and the count of the
/// ticks so far.
#[derive(Clone, Copy, Debug, PartialEq, Eq, Structural)]
pub struct World {
    pub player: Player,
    pub camera: Camera,
    /// The ticks so far. The count stops at the largest number it can hold.
    pub ticks: u64,
}

impl World {
    /// The world at the start of a run.
    pub open spec fn initial() -> World {
        World { player: Player::initial(), camera: Camera::initial(), ticks: 0 }
    }

    /// How many obstacles the player touches at the end of the next tick.
    pub open spec fn events(self, input: Input, obstacles: Seq<Obstacle>) -> nat {
        contacts(self.player.moved(input).position, obstacles)
    }

    /// The world one tick on: the player has moved, then the camera, and then
    /// a contact of the player with any obstacle has ended the run for both.
    pub open spec fn ticked(self, input: Input, obstacles: Seq<Obstacle>) -> World {
        let player = self.player.moved(input);
        let camera = self.camera.moved(input);
        let hit = self.events(input, obstacles) > 0;
        World {
            player: Player { collided: player.collided || hit, ..player },
            camera: Camera { stopped: camera.stopped || hit, ..camera },
            ticks: if self.ticks < u64::MAX {
                (self.ticks + 1) as u64
            } else {
                self.ticks
            },
        }
    }

    /// The world after one tick for each of the inputs, in their order.
    pub open spec fn after(self, inputs: Seq<Input>, obstacles: Seq<Obstacle>) -> World
        decreases inputs.len(),
    {
        if inputs.len() == 0 {
            self
        } else {
            self.after(inputs.drop_last(), obstacles).ticked(inputs.last(), obstacles)
        }
    }

    /// The place among the inputs of the first tick that leaves the player
    /// collided, if there is one.
    pub open spec fn first_collision(self, inputs: Seq<Input>, obstacles: Seq<Obstacle>) -> Option<
        nat,
    >
        decreases inputs.len(),
    {
        if inputs.len() == 0 {
            None
        } else {
            match self.first_collision(inputs.drop_last(), obstacles) {
                Some(tick) => Some(tick),
                None => if self.after(inputs, obstacles).player.collided {
                    Some((inputs.len() - 1) as nat)
                } else {
                    None
                },
            }
        }
    }

    /// The world at the start of a run.
    pub fn new() -> (world: World)
        ensures
            world == World::initial(),
    {
        World { player: Player::default(), camera: Camera::default(), ticks: 0 }
    }

    /// Advances the world by one tick, a sixtieth of a second, and returns how
    /// many obstacles the player touches at the end of it.
    pub fn tick(&mut self, input: Input, obstacles: &Vec<Obstacle>) -> (events: usize)
        ensures
            *final(self) == old(self).ticked(input, obstacles@),
            events == old(self).events(input, obstacles@),
    {
        player_movement_system(&mut self.player, input);
        camera_movement_system(&mut self.camera, input);
        let events = check_for_collisions(&mut self.player, &mut self.camera, obstacles);
        if self.ticks < u64::MAX {
            self.ticks += 1;
        }
        events
    }

    /// Advances the world by one tick for each of the inputs, in their order,
    /// and returns the place among them of the first tick that left the player
    /// collided.
    pub fn run(&mut self, inputs: &Vec<Input>, obstacles: &Vec<Obstacle>) -> (collision: Option<
        usize,
    >)
        ensures
            *final(self) == old(self).after(inputs@, obstacles@),
            match collision {
                Some(tick) => old(self).first_collision(inputs@, obstacles@) == Some(tick as nat),
                None => old(self).first_collision(inputs@, obstacles@) is None,
            },
    {
        let mut collision: Option<usize> = None;
        let mut i: usize = 0;
        while i < inputs.len()
            invariant
                i <= inputs.len(),
                *self == old(self).after(inputs@.take(i as int), obstacles@),
                match collision {
                    Some(tick) => old(self).first_collision(inputs@.take(i as int), obstacles@)
                        == Some(tick as nat),
                    None => old(self).first_collision(inputs@.take(i as int), obstacles@) is None,
                },
            decreases inputs.len() - i,
        {
            assert(inputs@.take(i + 1).drop_last() =~= inputs@.take(i as int));
            self.tick(inputs[i], obstacles);
            if collision.is_none() && self.player.collided {
                collision = Some(i);
            }
            i += 1;
        }
        assert(inputs@.take(i as int) =~= inputs@);
        collision
    }
}

impl Default for World {
    fn default() -> (world: World)
        ensures
            world == World::initial(),
    {
        World::new()
    }
}

} // verus!
