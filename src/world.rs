use vstd::prelude::*;

use crate::bullet::{aim_heading, move_bullet, spawn_bullet, Bullet, Cursor, Viewport, BULLET_SPEED};
use crate::exact::Point;
use crate::input::{direction_from_keys, MovementKeys};

verus! {

/// The number of frames a world can run. Every position changes by at most
/// one step per frame, so below this bound no coordinate can overflow.
pub const MAX_FRAMES: u64 = 0x7fff_ffff_ffff_ffff;

/// Everything the world reads from the outside in one frame.
#[derive(Clone, Copy, Debug, PartialEq, Eq, Structural)]
pub struct FrameInput {
    pub keys: MovementKeys,
    /// Whether the fire (left mouse) button is held this frame.
    pub fire_held: bool,
    /// The cursor, when it is inside the window.
    pub cursor: Option<Cursor>,
    pub view: Viewport,
}

/// The game state: the one player, every bullet fired so far, and what the
/// previous frame saw of the fire button.
pub struct World {
    player: Point,
    bullets: Vec<Bullet>,
    fire_was_held: bool,
    frames: u64,
}

pub struct WorldView {
    pub player: Point,
    pub bullets: Seq<Bullet>,
    pub fire_was_held: bool,
    pub frames: nat,
}

impl View for World {
    type V = WorldView;

    closed spec fn view(&self) -> WorldView {
        WorldView {
            player: self.player,
            bullets: self.bullets@,
            fire_was_held: self.fire_was_held,
            frames: self.frames as nat,
        }
    }
}

/// Whether this frame's input starts a press of the fire button.
pub open spec fn fires(was_held: bool, input: FrameInput) -> bool {
    input.fire_held && !was_held
}

/// The player's position after one frame of movement.
pub open spec fn moved(player: Point, keys: MovementKeys) -> Point {
    player.added(keys.direction())
}

/// One frame of the game. The player moves first; if the fire button was
/// just pressed a bullet is created at the player's new position, aimed at
/// the cursor; every bullet that existed at the start of the frame advances,
/// and the new one joins the world at the end of the frame.
pub open spec fn step(v: WorldView, input: FrameInput) -> WorldView {
    let player = moved(v.player, input.keys);
    let advanced = v.bullets.map_values(|b: Bullet| b.advanced());
    let bullets = if fires(v.fire_was_held, input) {
        advanced.push(
            Bullet {
                spawn: player,
                heading: aim_heading(input.cursor, input.view),
                speed: BULLET_SPEED,
                travelled: 0,
            },
        )
    } else {
        advanced
    };
    WorldView { player, bullets, fire_was_held: input.fire_held, frames: v.frames + 1 }
}

/// The world after a sequence of frames.
pub open spec fn run(v: WorldView, inputs: Seq<FrameInput>) -> WorldView
    decreases inputs.len(),
{
    if inputs.len() == 0 {
        v
    } else {
        run(step(v, inputs[0]), inputs.drop_first())
    }
}

/// The number of presses of the fire button in a sequence of frames: the
/// frames where it is held after a frame where it was not.
pub open spec fn press_edges(was_held: bool, inputs: Seq<FrameInput>) -> nat
    decreases inputs.len(),
{
    if inputs.len() == 0 {
        0
    } else {
        (if fires(was_held, inputs[0]) { 1nat } else { 0nat }) + press_edges(
            inputs[0].fire_held,
            inputs.drop_first(),
        )
    }
}

impl WorldView {
    pub open spec fn wf(self) -> bool {
        &&& self.frames <= MAX_FRAMES
        &&& self.player.x.steps() <= self.frames
        &&& self.player.y.steps() <= self.frames
        &&& forall|i: int|
            0 <= i < self.bullets.len() ==> {
                let b = #[trigger] self.bullets[i];
                &&& b.speed == BULLET_SPEED
                &&& b.travelled <= self.frames
                &&& b.heading.is_nonzero()
            }
    }
}

/// The player's position after one frame with the given keys held.
pub fn handle_movement(player: Point, keys: &MovementKeys) -> (r: Point)
    requires
        player.x.steps() < MAX_FRAMES,
        player.y.steps() < MAX_FRAMES,
    ensures
        r == moved(player, *keys),
        r.x.steps() <= player.x.steps() + 1,
        r.y.steps() <= player.y.steps() + 1,
{
    let dir = direction_from_keys(keys);
    player.plus(dir)
}

impl World {
    pub closed spec fn wf(&self) -> bool {
        self@.wf()
    }

    /// A new world: the player at the origin, no bullets, nothing pressed.
    pub fn new() -> (w: World)
        ensures
            w.wf(),
            w@.player.is_zero(),
            w@.bullets.len() == 0,
            !w@.fire_was_held,
            w@.frames == 0,
    {
        World { player: Point::origin(), bullets: Vec::new(), fire_was_held: false, frames: 0 }
    }

    pub fn player(&self) -> (r: Point)
        ensures
            r == self@.player,
    {
        self.player
    }

    pub fn bullets(&self) -> (r: &Vec<Bullet>)
        ensures
            r@ == self@.bullets,
    {
        &self.bullets
    }

    pub fn frames(&self) -> (r: u64)
        ensures
            r == self@.frames,
    {
        self.frames
    }

    /// Runs one frame; see [`step`].
    pub fn update(&mut self, input: &FrameInput)
        requires
            old(self).wf(),
            old(self)@.frames < MAX_FRAMES,
        ensures
            final(self).wf(),
            final(self)@ == step(old(self)@, *input),
    {
        proof {
            assert forall|i: int| 0 <= i < self.bullets@.len() implies (
            #[trigger] self.bullets@[i]).can_advance() by {
                assert(self@.bullets[i] == self.bullets@[i]);
            }
        }
        let player = handle_movement(self.player, &input.keys);
        let fire = input.fire_held && !self.fire_was_held;
        move_bullet(&mut self.bullets);
        if fire {
            let b = spawn_bullet(player, input.cursor, input.view);
            self.bullets.push(b);
        }
        self.player = player;
        self.fire_was_held = input.fire_held;
        self.frames = self.frames + 1;
        proof {
            let next = step(old(self)@, *input);
            assert(self@.bullets =~= next.bullets);
            assert(self@ == next);
        }
    }
}

/// Over any sequence of frames, the number of bullets grows by exactly the
/// number of presses of the fire button, however long each press is held.
pub proof fn lemma_one_bullet_per_press(v: WorldView, inputs: Seq<FrameInput>)
    ensures
        run(v, inputs).bullets.len() == v.bullets.len() + press_edges(v.fire_was_held, inputs),
    decreases inputs.len(),
{
    if inputs.len() > 0 {
        lemma_one_bullet_per_press(step(v, inputs[0]), inputs.drop_first());
    }
}

/// Holding the fire button through any number of frames, starting from a
/// frame where it was released, is a single press.
pub proof fn lemma_held_is_one_press(inputs: Seq<FrameInput>)
    requires
        inputs.len() > 0,
        forall|i: int| 0 <= i < inputs.len() ==> (#[trigger] inputs[i]).fire_held,
    ensures
        press_edges(false, inputs) == 1,
{
    lemma_held_adds_nothing(inputs.drop_first());
}

proof fn lemma_held_adds_nothing(inputs: Seq<FrameInput>)
    requires
        forall|i: int| 0 <= i < inputs.len() ==> (#[trigger] inputs[i]).fire_held,
    ensures
        press_edges(true, inputs) == 0,
    decreases inputs.len(),
{
    if inputs.len() > 0 {
        let rest = inputs.drop_first();
        assert forall|i: int| 0 <= i < rest.len() implies (#[trigger] rest[i]).fire_held by {
            assert(rest[i] == inputs[i + 1]);
        }
        lemma_held_adds_nothing(rest);
    }
}

} // verus!
