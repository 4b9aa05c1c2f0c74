//! What holds of every run: theorems about the step of the simulation.

use crate::game::{
    contacts_found, speed_for, touching, Input, JumpState, Player, Position, World, GRAVITY,
    JUMP_INITIAL_VELOCITY, PLAYER_START_X, SPHERE_RADIUS,
};
use crate::level::Obstacle;
use vstd::prelude::*;

verus! {

/// A run is decided by where it starts, what stands in the way and what the
/// host puts in: two runs that agree in these pass through the same worlds,
/// tick for tick, and find the player collided at the same tick.
pub proof fn same_start_same_run(
    a: World,
    b: World,
    inputs: Seq<Input>,
    obstacles: Seq<Obstacle>,
    ticks: int,
)
    requires
        a == b,
        0 <= ticks <= inputs.len(),
    ensures
        a.after(inputs.take(ticks), obstacles) == b.after(inputs.take(ticks), obstacles),
        a.first_collision(inputs, obstacles) == b.first_collision(inputs, obstacles),
{
}

/// A player that has collided stays collided, and a camera that has stopped
/// stays stopped and stays where it is.
pub proof fn the_end_is_final(world: World, input: Input, obstacles: Seq<Obstacle>)
    ensures
        world.player.collided ==> world.ticked(input, obstacles).player.collided,
        world.camera.stopped ==> world.ticked(input, obstacles).camera == world.camera,
{
}

/// After a collision nothing moves: a tick leaves a collided player and a
/// stopped camera exactly as they were.
pub proof fn collision_freezes(world: World, input: Input, obstacles: Seq<Obstacle>)
    requires
        world.player.collided,
        world.camera.stopped,
    ensures
        world.ticked(input, obstacles).player == world.player,
        world.ticked(input, obstacles).camera == world.camera,
{
}

/// After a collision nothing moves, however many ticks follow.
pub proof fn collision_freezes_for_good(
    world: World,
    inputs: Seq<Input>,
    obstacles: Seq<Obstacle>,
)
    requires
        world.player.collided,
        world.camera.stopped,
    ensures
        world.after(inputs, obstacles).player == world.player,
        world.after(inputs, obstacles).camera == world.camera,
    decreases inputs.len(),
{
    if inputs.len() > 0 {
        collision_freezes_for_good(world, inputs.drop_last(), obstacles);
        collision_freezes(world.after(inputs.drop_last(), obstacles), inputs.last(), obstacles);
    }
}

/// A tick ends the run exactly where the player, once moved, touches an
/// obstacle; the camera stops with it.
pub proof fn contact_ends_the_run(world: World, input: Input, obstacles: Seq<Obstacle>)
    requires
        !world.player.collided,
    ensures
        world.ticked(input, obstacles).player.collided <==> exists|i: int|
            0 <= i < obstacles.len() && touching(
                world.player.moved(input).position,
                #[trigger] obstacles[i],
            ),
        world.ticked(input, obstacles).player.collided ==> world.ticked(
            input,
            obstacles,
        ).camera.stopped,
{
    contacts_found(world.player.moved(input).position, obstacles);
}

/// Until the run ends, the camera keeps step with the player: a tick carries
/// both on by the same distance, as long as the numbers hold it.
pub proof fn camera_keeps_step(world: World, input: Input, obstacles: Seq<Obstacle>)
    requires
        !world.player.collided,
        !world.camera.stopped,
        world.player.position.x + speed_for(input.boost) <= i64::MAX,
        world.camera.position_x + speed_for(input.boost) <= i64::MAX,
    ensures
        world.ticked(input, obstacles).camera.position_x - world.camera.position_x == world.ticked(
            input,
            obstacles,
        ).player.position.x - world.player.position.x,
        world.ticked(input, obstacles).camera.velocity_x == world.ticked(
            input,
            obstacles,
        ).player.velocity_x,
        world.ticked(input, obstacles).camera.stopped == world.ticked(
            input,
            obstacles,
        ).player.collided,
{
}

/// An obstacle whose centre is exactly two radii from the player's touches it,
/// and one that is any further away does not.
pub proof fn contact_includes_the_boundary(at: Position, obstacle: Obstacle)
    ensures
        obstacle.x - at.x == 2 * SPHERE_RADIUS && obstacle.y == at.y ==> touching(at, obstacle),
        obstacle.x - at.x > 2 * SPHERE_RADIUS ==> !touching(at, obstacle),
{
    let dx = obstacle.x - at.x;
    let dy = obstacle.y - at.y;
    let reach = 2 * SPHERE_RADIUS;
    assert(dy * dy >= 0) by (nonlinear_arith);
    if dx > reach {
        assert(dx * dx > reach * reach) by (nonlinear_arith)
            requires
                dx > reach,
                reach > 0,
        ;
    }
}

/// A jump asked for in the air changes nothing: the tick goes as it would
/// have gone without.
pub proof fn jump_in_the_air_is_ignored(player: Player, boost: bool)
    requires
        player.jump_state == JumpState::InAir,
    ensures
        player.moved(Input { jump: true, boost }) == player.moved(Input { jump: false, boost }),
{
}

/// The player, if it is on the floor, has no height and no upward velocity.
pub open spec fn rests(player: Player) -> bool {
    player.jump_state == JumpState::OnFloor ==> player.position.y == 0 && player.velocity_y == 0
}

/// A player that a tick leaves on the floor has no height. Only a player that
/// had collided before the tick, and so is left as it was, must have had none.
pub proof fn on_the_floor_means_no_height(player: Player, input: Input)
    requires
        player.collided && player.jump_state == JumpState::OnFloor ==> player.position.y == 0,
    ensures
        player.moved(input).jump_state == JumpState::OnFloor ==> player.moved(input).position.y
            == 0,
{
}

/// A player that a tick leaves on the floor is at rest there, if it went into
/// the tick on or above the floor and with exactly the upward velocity that
/// gravity takes in a tick. No other player is: gravity takes its share on the
/// floor too. A player that had collided before the tick is left as it was.
pub proof fn on_the_floor_means_at_rest(player: Player, input: Input)
    requires
        player.collided ==> rests(player),
        !player.collided && player.moved(input).jump_state == JumpState::OnFloor
            ==> !player.sunk() && player.velocity_y == GRAVITY,
    ensures
        rests(player.moved(input)),
{
}

/// The tick lets the player fall through the floor: it leaves it in the air
/// and lower than the floor.
pub open spec fn falls_through(player: Player, input: Input) -> bool {
    &&& player.next_jump_state(input) == JumpState::InAir
    &&& player.position.y + player.next_velocity_y(input) < 0
}

/// A tick leaves the player on or above the floor, unless it lets it fall
/// through: then the player lies below the floor until the next tick puts it
/// back. A player that had collided before the tick is left as it was.
pub proof fn stays_above_the_floor(player: Player, input: Input)
    requires
        player.collided ==> player.position.y >= 0,
        !player.collided ==> !falls_through(player, input),
    ensures
        player.moved(input).position.y >= 0,
{
}

/// A player that lies below the floor is put back on it, at rest but for
/// gravity, by the next tick.
pub proof fn the_floor_catches(player: Player, input: Input)
    requires
        !player.collided,
        player.sunk(),
    ensures
        player.moved(input).jump_state == JumpState::OnFloor,
        player.moved(input).position.y == 0,
        player.moved(input).velocity_y == -GRAVITY,
{
}

/// As long as the player has not collided, the obstacles do not show in how
/// it moves.
pub proof fn unhindered(world: World, inputs: Seq<Input>, obstacles: Seq<Obstacle>)
    requires
        !world.after(inputs, obstacles).player.collided,
    ensures
        world.after(inputs, obstacles).player == world.player.after(inputs),
        world.first_collision(inputs, obstacles) is None,
    decreases inputs.len(),
{
    if inputs.len() > 0 {
        let before = world.after(inputs.drop_last(), obstacles);
        the_end_is_final(before, inputs.last(), obstacles);
        unhindered(world, inputs.drop_last(), obstacles);
    }
}

/// With the boost held or let go throughout, a player that does not collide
/// advances by the same distance in every tick, as long as the numbers hold it.
pub proof fn steady_advance(player: Player, inputs: Seq<Input>, boost: bool)
    requires
        !player.collided,
        forall|i: int| 0 <= i < inputs.len() ==> (#[trigger] inputs[i]).boost == boost,
        player.position.x + inputs.len() * speed_for(boost) <= i64::MAX,
    ensures
        player.after(inputs).position.x == player.position.x + inputs.len() * speed_for(boost),
        !player.after(inputs).collided,
    decreases inputs.len(),
{
    if inputs.len() > 0 {
        let front = inputs.drop_last();
        assert(front.len() * speed_for(boost) + speed_for(boost) == inputs.len() * speed_for(
            boost,
        )) by (nonlinear_arith)
            requires
                front.len() + 1 == inputs.len(),
        ;
        assert(inputs.last().boost == boost);
        steady_advance(player, front, boost);
    }
}

/// From the start of a run, a player that does not collide is at five world
/// units before the origin and as many steps on as there were ticks.
pub proof fn steady_run(inputs: Seq<Input>, obstacles: Seq<Obstacle>, boost: bool)
    requires
        forall|i: int| 0 <= i < inputs.len() ==> (#[trigger] inputs[i]).boost == boost,
        !World::initial().after(inputs, obstacles).player.collided,
        PLAYER_START_X + inputs.len() * speed_for(boost) <= i64::MAX,
    ensures
        World::initial().after(inputs, obstacles).player.position.x == PLAYER_START_X
            + inputs.len() * speed_for(boost),
{
    unhindered(World::initial(), inputs, obstacles);
    steady_advance(Player::initial(), inputs, boost);
}

/// The height of a jump after so many ticks in the air: the upward velocities
/// of these ticks, one after the other, added up.
pub open spec fn arc_height(ticks: nat) -> int
    decreases ticks,
{
    if ticks == 0 {
        0
    } else {
        arc_height((ticks - 1) as nat) + JUMP_INITIAL_VELOCITY - ticks * GRAVITY
    }
}

/// The height of a jump in closed form. The jump comes back to the floor
/// after 119 ticks, to the step.
pub proof fn arc_height_closed(ticks: nat)
    ensures
        2 * arc_height(ticks) == GRAVITY * (ticks * (119 - ticks)),
    decreases ticks,
{
    if ticks > 0 {
        arc_height_closed((ticks - 1) as nat);
        assert(GRAVITY * ((ticks - 1) * (119 - (ticks - 1))) + 2 * JUMP_INITIAL_VELOCITY - 2
            * ticks * GRAVITY == GRAVITY * (ticks * (119 - ticks))) by (nonlinear_arith)
            requires
                JUMP_INITIAL_VELOCITY == 60 * GRAVITY,
        ;
    } else {
        assert(GRAVITY * (0 * (119 - 0)) == 0) by (nonlinear_arith);
    }
}

/// A jump from the floor: the player leaves the floor in the tick that asks
/// for the jump, and for 120 ticks it is in the air, its upward velocity less
/// by gravity's share with every tick and its height the sum of these
/// velocities, whatever the host puts in meanwhile.
pub proof fn jump_arc(player: Player, inputs: Seq<Input>)
    requires
        !player.collided,
        player.jump_state == JumpState::OnFloor,
        player.position.y == 0,
        1 <= inputs.len() <= 120,
        inputs[0].jump,
    ensures
        player.after(inputs).jump_state == JumpState::InAir,
        player.after(inputs).velocity_y == JUMP_INITIAL_VELOCITY - inputs.len() * GRAVITY,
        player.after(inputs).position.y == arc_height(inputs.len()),
        !player.after(inputs).collided,
        inputs.len() < 120 ==> player.after(inputs).position.y >= 0,
        inputs.len() == 120 ==> player.after(inputs).position.y < 0,
    decreases inputs.len(),
{
    let ticks = inputs.len();
    arc_height_closed(ticks);
    assert(ticks < 120 ==> GRAVITY * (ticks * (119 - ticks)) >= 0) by (nonlinear_arith);
    assert(ticks == 120 ==> GRAVITY * (ticks * (119 - ticks)) < 0) by (nonlinear_arith);
    assert(-0x1_0000_0000_0000 <= GRAVITY * (ticks * (119 - ticks)) <= 0x1_0000_0000_0000)
        by (nonlinear_arith)
        requires
            1 <= ticks <= 120,
            GRAVITY == 8_388_608,
    ;
    if ticks == 1 {
        assert(inputs.drop_last().len() == 0);
        assert(player.after(inputs.drop_last()) == player);
        assert(inputs.last() == inputs[0]);
        assert(arc_height(1) == arc_height(0) + JUMP_INITIAL_VELOCITY - 1 * GRAVITY);
    } else {
        let front = inputs.drop_last();
        assert(front[0] == inputs[0]);
        jump_arc(player, front);
    }
}

/// The end of a jump: the tick after the 120 in the air puts the player back
/// on the floor.
pub proof fn jump_lands(player: Player, inputs: Seq<Input>)
    requires
        !player.collided,
        player.jump_state == JumpState::OnFloor,
        player.position.y == 0,
        inputs.len() == 121,
        inputs[0].jump,
    ensures
        player.after(inputs).jump_state == JumpState::OnFloor,
        player.after(inputs).position.y == 0,
{
    let front = inputs.drop_last();
    assert(front[0] == inputs[0]);
    jump_arc(player, front);
}

} // verus!
