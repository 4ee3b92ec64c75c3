//! Held-key state and the camera movement policy.
//!
//! `W`/`S` move forward and back, `D`/`A` right and left, `E`/`Q` up and
//! down; `J`/`L` turn the yaw up and down, `I`/`K` the pitch. Keys held
//! together add up; two keys of one pair cancel.

use vstd::prelude::*;

verus! {

/// Distance, in thousandths of a scene unit, that one step moves the camera.
pub const LINEAR_SPEED_MILLI: u32 = 10;

/// Angle, in thousandths of a radian, that one step turns the camera.
pub const ANGULAR_SPEED_MILLI: u32 = 3;

/// A key that the movement policy reacts to.
#[derive(Clone, Copy, Debug, PartialEq, Eq, Structural)]
pub enum Key {
    W,
    A,
    S,
    D,
    Q,
    E,
    I,
    J,
    K,
    L,
}

/// The place of `key` among the keys, in the order of their declaration.
pub open spec fn key_place(key: Key) -> int {
    match key {
        Key::W => 0,
        Key::A => 1,
        Key::S => 2,
        Key::D => 3,
        Key::Q => 4,
        Key::E => 5,
        Key::I => 6,
        Key::J => 7,
        Key::K => 8,
        Key::L => 9,
    }
}

fn place_of(key: Key) -> (place: usize)
    ensures
        place == key_place(key),
        place < 10,
{
    match key {
        Key::W => 0,
        Key::A => 1,
        Key::S => 2,
        Key::D => 3,
        Key::Q => 4,
        Key::E => 5,
        Key::I => 6,
        Key::J => 7,
        Key::K => 8,
        Key::L => 9,
    }
}

/// A set of keys.
#[derive(Clone, Copy, Debug)]
pub struct KeySet {
    held: [bool; 10],
}

impl View for KeySet {
    type V = Set<Key>;

    closed spec fn view(&self) -> Set<Key> {
        Set::new(|key: Key| self.held@[key_place(key)])
    }
}

impl KeySet {
    /// The empty set.
    pub fn new() -> (keys: KeySet)
        ensures
            keys@ == Set::<Key>::empty(),
    {
        let keys = KeySet { held: [false; 10] };
        assert(keys@ =~= Set::<Key>::empty());
        keys
    }

    /// Tells whether `key` is in the set.
    pub fn contains(&self, key: Key) -> (held: bool)
        ensures
            held == self@.contains(key),
    {
        self.held[place_of(key)]
    }

    fn put(&mut self, key: Key, held: bool)
        ensures
            final(self)@ == (if held {
                old(self)@.insert(key)
            } else {
                old(self)@.remove(key)
            }),
    {
        let place = place_of(key);
        self.held[place] = held;
        proof {
            assert forall|other: Key| key_place(other) == place implies other == key by {}
            assert(self@ =~= (if held {
                old(self)@.insert(key)
            } else {
                old(self)@.remove(key)
            }));
        }
    }

    /// Adds `key` to the set, and tells whether it was new.
    pub fn insert(&mut self, key: Key) -> (added: bool)
        ensures
            final(self)@ == old(self)@.insert(key),
            added == !old(self)@.contains(key),
    {
        let was = self.contains(key);
        self.put(key, true);
        !was
    }

    /// Takes `key` out of the set, and tells whether it was there.
    pub fn remove(&mut self, key: Key) -> (removed: bool)
        ensures
            final(self)@ == old(self)@.remove(key),
            removed == old(self)@.contains(key),
    {
        let was = self.contains(key);
        self.put(key, false);
        was
    }
}

/// The keys that are held down, kept from one frame to the next.
#[derive(Clone, Copy, Debug)]
pub struct RetainedInput {
    pub held_keys: KeySet,
}

impl RetainedInput {
    /// No key is held.
    pub fn new() -> (input: RetainedInput)
        ensures
            input.held_keys@ == Set::<Key>::empty(),
    {
        RetainedInput { held_keys: KeySet::new() }
    }
}

impl Default for RetainedInput {
    /// No key is held.
    fn default() -> (input: RetainedInput)
        ensures
            input.held_keys@ == Set::<Key>::empty(),
    {
        RetainedInput::new()
    }
}

/// What one update asks of the camera, in whole steps: along its right,
/// forward and up vectors, and about its yaw and pitch.
#[derive(Clone, Copy, Debug, PartialEq, Eq, Structural)]
pub struct Motion {
    pub right: i8,
    pub forward: i8,
    pub up: i8,
    pub yaw: i8,
    pub pitch: i8,
}

/// The steps along one direction: one for the key that moves along it, less
/// one for the key that moves against it.
pub open spec fn axis_steps(keys: Set<Key>, positive: Key, negative: Key) -> int {
    (if keys.contains(positive) {
        1int
    } else {
        0int
    }) - (if keys.contains(negative) {
        1int
    } else {
        0int
    })
}

/// The motion that the held keys `keys` ask for.
pub open spec fn motion_of(keys: Set<Key>) -> Motion {
    Motion {
        right: axis_steps(keys, Key::D, Key::A) as i8,
        forward: axis_steps(keys, Key::W, Key::S) as i8,
        up: axis_steps(keys, Key::E, Key::Q) as i8,
        yaw: axis_steps(keys, Key::J, Key::L) as i8,
        pitch: axis_steps(keys, Key::I, Key::K) as i8,
    }
}

fn steps(keys: &KeySet, positive: Key, negative: Key) -> (count: i8)
    ensures
        count == axis_steps(keys@, positive, negative),
{
    let along: i8 = if keys.contains(positive) {
        1
    } else {
        0
    };
    let against: i8 = if keys.contains(negative) {
        1
    } else {
        0
    };
    along - against
}

impl RetainedInput {
    /// The motion that the held keys ask for.
    pub fn motion(&self) -> (motion: Motion)
        ensures
            motion == motion_of(self.held_keys@),
    {
        Motion {
            right: steps(&self.held_keys, Key::D, Key::A),
            forward: steps(&self.held_keys, Key::W, Key::S),
            up: steps(&self.held_keys, Key::E, Key::Q),
            yaw: steps(&self.held_keys, Key::J, Key::L),
            pitch: steps(&self.held_keys, Key::I, Key::K),
        }
    }
}

/// Two keys of one pair cancel: with both held the camera stays where it
/// would be with neither.
pub proof fn lemma_opposite_keys_cancel(keys: Set<Key>)
    ensures
        motion_of(keys.insert(Key::W).insert(Key::S)).forward == 0,
        motion_of(keys.insert(Key::D).insert(Key::A)).right == 0,
        motion_of(keys.insert(Key::E).insert(Key::Q)).up == 0,
        motion_of(keys.insert(Key::J).insert(Key::L)).yaw == 0,
        motion_of(keys.insert(Key::I).insert(Key::K)).pitch == 0,
{
}

} // verus!
