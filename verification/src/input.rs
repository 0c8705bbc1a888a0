//! The state of the keys the game reads in one frame.

use vstd::prelude::*;

verus! {

/// The keys the game reacts to.
#[derive(Clone, Copy, Debug, PartialEq, Eq, Structural)]
pub enum GameKey {
    KeyW,
    KeyA,
    KeyS,
    KeyD,
    KeyR,
    ArrowUp,
    ArrowDown,
    ArrowLeft,
    ArrowRight,
}

/// Mathematical model of the keyboard in one frame: the keys held down, and
/// the keys that went down during this frame.
pub struct KeyboardView {
    pub pressed: Set<GameKey>,
    pub just_pressed: Set<GameKey>,
}

/// The keyboard in one frame, as lists of keys.
pub struct KeyboardState {
    pressed: Vec<GameKey>,
    just_pressed: Vec<GameKey>,
}

impl View for KeyboardState {
    type V = KeyboardView;

    closed spec fn view(&self) -> KeyboardView {
        KeyboardView {
            pressed: Set::new(|k: GameKey| self.pressed@.contains(k)),
            just_pressed: Set::new(|k: GameKey| self.just_pressed@.contains(k)),
        }
    }
}

/// Whether `key` occurs in `keys`.
fn list_contains(keys: &Vec<GameKey>, key: GameKey) -> (found: bool)
    ensures
        found == keys@.contains(key),
{
    let mut i: usize = 0;
    while i < keys.len()
        invariant
            i <= keys.len(),
            forall|j: int| 0 <= j < i ==> keys@[j] != key,
        decreases keys.len() - i,
    {
        if keys[i] == key {
            return true;
        }
        i = i + 1;
    }
    false
}

impl KeyboardState {
    /// A keyboard on which the keys of `pressed` are held down and the keys of
    /// `just_pressed` went down this frame (repetitions are harmless).
    pub fn new(pressed: Vec<GameKey>, just_pressed: Vec<GameKey>) -> (state: KeyboardState)
        ensures
            forall|k: GameKey| #[trigger] state@.pressed.contains(k) <==> pressed@.contains(k),
            forall|k: GameKey| #[trigger] state@.just_pressed.contains(k) <==> just_pressed@.contains(k),
    {
        KeyboardState { pressed, just_pressed }
    }

    /// A keyboard with no key down.
    pub fn released() -> (state: KeyboardState)
        ensures
            state@.pressed == Set::<GameKey>::empty(),
            state@.just_pressed == Set::<GameKey>::empty(),
    {
        let state = KeyboardState { pressed: Vec::new(), just_pressed: Vec::new() };
        assert(state@.pressed =~= Set::<GameKey>::empty());
        assert(state@.just_pressed =~= Set::<GameKey>::empty());
        state
    }

    /// Whether `key` is held down.
    pub fn pressed(&self, key: GameKey) -> (down: bool)
        ensures
            down == self@.pressed.contains(key),
    {
        list_contains(&self.pressed, key)
    }

    /// Whether `key` went down during this frame.
    pub fn just_pressed(&self, key: GameKey) -> (went_down: bool)
        ensures
            went_down == self@.just_pressed.contains(key),
    {
        list_contains(&self.just_pressed, key)
    }
}

} // verus!
