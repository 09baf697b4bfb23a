//! The set of movement keys that are currently held down.

use specs::BitSet;
use vstd::prelude::*;

verus! {

/// `hibitset::BitSet`, as `specs` hands it on. Nothing of its layers is
/// visible here: its contents are spoken of through [`bits`].
#[verifier::external_type_specification]
#[verifier::external_body]
pub struct ExBitSet(BitSet);

/// The indices that a `BitSet` holds.
pub uninterp spec fn bits(set: BitSet) -> Set<u32>;

/// Indices below this bound are accepted by a `BitSet` on every pointer
/// width; `BitSet::add` panics on an index beyond what the set can hold.
pub const BIT_LIMIT: u32 = 1_048_576;

/// `BitSet::new`: a set without indices.
#[verifier::external_body]
fn bitset_new() -> (set: BitSet)
    ensures
        bits(set) == Set::<u32>::empty(),
{
    BitSet::new()
}

/// `BitSet::add`: afterwards the set holds `id` besides what it held; the
/// result tells whether `id` was in it before.
#[verifier::external_body]
fn bitset_add(set: &mut BitSet, id: u32) -> (was_set: bool)
    requires
        id < BIT_LIMIT,
    ensures
        bits(*final(set)) == bits(*old(set)).insert(id),
        was_set == bits(*old(set)).contains(id),
{
    set.add(id)
}

/// `BitSet::remove`: afterwards the set holds what it held but `id`; the
/// result tells whether `id` was in it before.
#[verifier::external_body]
fn bitset_remove(set: &mut BitSet, id: u32) -> (was_set: bool)
    ensures
        bits(*final(set)) == bits(*old(set)).remove(id),
        was_set == bits(*old(set)).contains(id),
{
    set.remove(id)
}

/// `BitSet::contains`: whether the set holds `id`.
#[verifier::external_body]
fn bitset_contains(set: &BitSet, id: u32) -> (held: bool)
    ensures
        held == bits(*set).contains(id),
{
    set.contains(id)
}

/// A movement key. Each has a bit of its own in [`PressedKeys`].
#[derive(Clone, Copy, Debug, PartialEq, Eq, Structural)]
pub enum KeyboardKeys {
    KeyUp,
    KeyLeft,
    KeyRight,
    KeyDown,
}

impl KeyboardKeys {
    /// The index of the key's bit.
    pub open spec fn index(self) -> u32 {
        match self {
            KeyboardKeys::KeyUp => 0,
            KeyboardKeys::KeyLeft => 1,
            KeyboardKeys::KeyRight => 2,
            KeyboardKeys::KeyDown => 3,
        }
    }

    /// Computes [`KeyboardKeys::index`].
    pub fn bit(self) -> (i: u32)
        ensures
            i == self.index(),
            i < BIT_LIMIT,
    {
        match self {
            KeyboardKeys::KeyUp => 0,
            KeyboardKeys::KeyLeft => 1,
            KeyboardKeys::KeyRight => 2,
            KeyboardKeys::KeyDown => 3,
        }
    }
}

/// The movement keys that are held down, one bit for each. The movement
/// system reads it; input routing writes it.
pub struct PressedKeys {
    pub pressed_keys: BitSet,
}

impl View for PressedKeys {
    type V = Set<u32>;

    /// The indices of the bits that are set.
    open spec fn view(&self) -> Set<u32> {
        bits(self.pressed_keys)
    }
}

impl PressedKeys {
    /// No key held.
    pub fn new() -> (keys: PressedKeys)
        ensures
            keys@ == Set::<u32>::empty(),
    {
        PressedKeys { pressed_keys: bitset_new() }
    }

    /// Whether `key` is held, as a specification.
    pub open spec fn holds(&self, key: KeyboardKeys) -> bool {
        self@.contains(key.index())
    }

    /// Whether `key` is held.
    pub fn is_pressed(&self, key: KeyboardKeys) -> (held: bool)
        ensures
            held == self.holds(key),
    {
        bitset_contains(&self.pressed_keys, key.bit())
    }

    /// Marks `key` as held. The other keys stay as they are.
    pub fn press(&mut self, key: KeyboardKeys)
        ensures
            final(self)@ == old(self)@.insert(key.index()),
    {
        let _ = bitset_add(&mut self.pressed_keys, key.bit());
    }

    /// Marks `key` as not held. The other keys stay as they are.
    pub fn release(&mut self, key: KeyboardKeys)
        ensures
            final(self)@ == old(self)@.remove(key.index()),
    {
        let _ = bitset_remove(&mut self.pressed_keys, key.bit());
    }
}

} // verus!
