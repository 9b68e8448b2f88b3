//! Keyboard movement of the player square: W, A, S and D move it by one and a
//! half times its speed per frame, and holding left shift makes it sprint.

use vstd::prelude::*;

verus! {

/// The player's speed while walking.
pub const WALK_SPEED: u32 = 2;

/// The player's speed while left shift is held.
pub const SPRINT_SPEED: u32 = 5;

/// The plugin that spawns the player square and moves it by these rules; a
/// host registers it with its engine.
#[derive(Clone, Copy, Debug, PartialEq, Eq, Structural)]
pub struct TestPlugin;

/// The keys the movement rules tell apart.
#[derive(Clone, Copy, Debug, PartialEq, Eq, Structural)]
pub enum Key {
    W,
    A,
    S,
    D,
    ShiftLeft,
    Other,
}

/// Where the player is and how fast it goes.
///
/// `x` and `y` are in half pixels, so that a move of one and a half times
/// the speed is a whole number of units.
#[derive(Clone, Copy, Debug, PartialEq, Eq, Structural)]
pub struct PlayerMotion {
    pub x: i64,
    pub y: i64,
    pub speed: u32,
}

/// One frame's move, in half pixels: one and a half times the speed.
pub open spec fn move_step(speed: u32) -> int {
    3 * speed
}

/// `v`, held to the range of `i64`.
pub open spec fn clamp_i64(v: int) -> i64 {
    if v > i64::MAX {
        i64::MAX
    } else if v < i64::MIN {
        i64::MIN
    } else {
        v as i64
    }
}

/// The player after one key is seen held down.
pub open spec fn on_pressed(s: PlayerMotion, k: Key) -> PlayerMotion {
    match k {
        Key::W => PlayerMotion { y: clamp_i64(s.y + move_step(s.speed)), ..s },
        Key::S => PlayerMotion { y: clamp_i64(s.y - move_step(s.speed)), ..s },
        Key::A => PlayerMotion { x: clamp_i64(s.x - move_step(s.speed)), ..s },
        Key::D => PlayerMotion { x: clamp_i64(s.x + move_step(s.speed)), ..s },
        Key::ShiftLeft => PlayerMotion { speed: SPRINT_SPEED, ..s },
        Key::Other => s,
    }
}

/// The player after one key is seen let go.
pub open spec fn on_released(s: PlayerMotion, k: Key) -> PlayerMotion {
    match k {
        Key::ShiftLeft => PlayerMotion { speed: WALK_SPEED, ..s },
        _ => s,
    }
}

/// The player after each key of `keys` is seen held down, in order.
pub open spec fn after_pressed(s: PlayerMotion, keys: Seq<Key>) -> PlayerMotion
    decreases keys.len(),
{
    if keys.len() == 0 {
        s
    } else {
        on_pressed(after_pressed(s, keys.drop_last()), keys.last())
    }
}

/// The player after each key of `keys` is seen let go, in order.
pub open spec fn after_released(s: PlayerMotion, keys: Seq<Key>) -> PlayerMotion
    decreases keys.len(),
{
    if keys.len() == 0 {
        s
    } else {
        on_released(after_released(s, keys.drop_last()), keys.last())
    }
}

/// `v + delta`, held to the range of `i64`.
fn add_clamped(v: i64, delta: i64) -> (r: i64)
    ensures
        r == clamp_i64(v + delta),
{
    let sum: i128 = v as i128 + delta as i128;
    if sum > i64::MAX as i128 {
        i64::MAX
    } else if sum < i64::MIN as i128 {
        i64::MIN
    } else {
        sum as i64
    }
}

impl PlayerMotion {
    /// The player as it is spawned: at the origin, walking.
    pub fn new() -> (r: PlayerMotion)
        ensures
            r == (PlayerMotion { x: 0, y: 0, speed: WALK_SPEED }),
    {
        PlayerMotion { x: 0, y: 0, speed: WALK_SPEED }
    }

    /// Applies one key seen held down this frame: W and S move up and down,
    /// A and D left and right, by one and a half times the speed; left shift
    /// switches to the sprint speed.
    pub fn press(&mut self, key: Key)
        ensures
            *final(self) == on_pressed(*old(self), key),
    {
        let step: i64 = 3 * self.speed as i64;
        match key {
            Key::W => self.y = add_clamped(self.y, step),
            Key::S => self.y = add_clamped(self.y, -step),
            Key::A => self.x = add_clamped(self.x, -step),
            Key::D => self.x = add_clamped(self.x, step),
            Key::ShiftLeft => self.speed = SPRINT_SPEED,
            Key::Other => {},
        }
    }

    /// Applies one key let go this frame: letting go of left shift goes back
    /// to the walking speed.
    pub fn release(&mut self, key: Key)
        ensures
            *final(self) == on_released(*old(self), key),
    {
        match key {
            Key::ShiftLeft => self.speed = WALK_SPEED,
            _ => {},
        }
    }
}

/// One frame of keyboard input: first every key held down, in the order
/// given, then every key let go this frame, in the order given.
pub fn input_keyboard(player: &mut PlayerMotion, pressed: &Vec<Key>, just_released: &Vec<Key>)
    ensures
        *final(player) == after_released(after_pressed(*old(player), pressed@), just_released@),
{
    let mut i: usize = 0;
    while i < pressed.len()
        invariant
            i <= pressed@.len(),
            *player == after_pressed(*old(player), pressed@.subrange(0, i as int)),
        decreases pressed@.len() - i,
    {
        assert(pressed@.subrange(0, i + 1).drop_last() =~= pressed@.subrange(0, i as int));
        player.press(pressed[i]);
        i += 1;
    }
    assert(pressed@.subrange(0, pressed@.len() as int) =~= pressed@);
    let ghost held = *player;
    let mut j: usize = 0;
    while j < just_released.len()
        invariant
            j <= just_released@.len(),
            *player == after_released(held, just_released@.subrange(0, j as int)),
        decreases just_released@.len() - j,
    {
        assert(just_released@.subrange(0, j + 1).drop_last() =~= just_released@.subrange(0, j as int));
        player.release(just_released[j]);
        j += 1;
    }
    assert(just_released@.subrange(0, just_released@.len() as int) =~= just_released@);
}

} // verus!
