use vstd::prelude::*;

verus! {

/// The state of a keyboard key or of a pointer button.
#[derive(Clone, Copy, Debug, PartialEq, Eq, Structural)]
pub enum KeyState {
    /// The key is pressed.
    Pressed,
    /// The key is released.
    Released,
}

impl KeyState {
    /// The value that the broker uses for this state.
    pub fn code(&self) -> (r: u32)
        ensures
            r == (if *self == KeyState::Pressed { 0u32 } else { 1u32 }),
    {
        match self {
            KeyState::Pressed => 0,
            KeyState::Released => 1,
        }
    }
}

/// A scroll axis.
#[derive(Clone, Copy, Debug, PartialEq, Eq, Structural)]
pub enum Axis {
    /// Vertical axis.
    Vertical,
    /// Horizontal axis.
    Horizontal,
}

impl Axis {
    /// The value that the broker uses for this axis.
    pub fn code(&self) -> (r: u32)
        ensures
            r == (if *self == Axis::Vertical { 0u32 } else { 1u32 }),
    {
        match self {
            Axis::Vertical => 0,
            Axis::Horizontal => 1,
        }
    }
}

/// A kind of input device that a session can control.
#[derive(Clone, Copy, Debug, PartialEq, Eq, Structural)]
pub enum DeviceType {
    /// A keyboard.
    Keyboard,
    /// A mouse pointer.
    Pointer,
    /// A touchscreen.
    Touchscreen,
}

/// The bit that stands for a device kind in the broker's encoding.
pub open spec fn device_bit(d: DeviceType) -> u32 {
    match d {
        DeviceType::Keyboard => 1u32,
        DeviceType::Pointer => 2u32,
        DeviceType::Touchscreen => 4u32,
    }
}

impl DeviceType {
    /// The bit of this kind in the broker's encoding.
    pub fn bit(&self) -> (r: u32)
        ensures
            r == device_bit(*self),
    {
        match self {
            DeviceType::Keyboard => 1,
            DeviceType::Pointer => 2,
            DeviceType::Touchscreen => 4,
        }
    }
}

/// The set of every device kind.
pub open spec fn all_devices() -> Set<DeviceType> {
    set![DeviceType::Keyboard, DeviceType::Pointer, DeviceType::Touchscreen]
}

/// A set of device kinds: what a session asks for, or what the user granted.
#[derive(Clone, Copy, Debug, PartialEq, Eq, Structural)]
pub struct CapabilitySet {
    /// Keyboard access.
    pub keyboard: bool,
    /// Pointer access.
    pub pointer: bool,
    /// Touchscreen access.
    pub touchscreen: bool,
}

impl View for CapabilitySet {
    type V = Set<DeviceType>;

    open spec fn view(&self) -> Set<DeviceType> {
        Set::new(
            |d: DeviceType|
                match d {
                    DeviceType::Keyboard => self.keyboard,
                    DeviceType::Pointer => self.pointer,
                    DeviceType::Touchscreen => self.touchscreen,
                },
        )
    }
}

/// The broker's bit encoding of a set of device kinds.
pub open spec fn bits_of(s: Set<DeviceType>) -> u32 {
    (if s.contains(DeviceType::Keyboard) { 1u32 } else { 0u32 }) | (if s.contains(
        DeviceType::Pointer,
    ) {
        2u32
    } else {
        0u32
    }) | (if s.contains(DeviceType::Touchscreen) {
        4u32
    } else {
        0u32
    })
}

/// The device kinds whose bits are set in a broker bit set; other bits are ignored.
pub open spec fn set_of_bits(bits: u32) -> Set<DeviceType> {
    Set::new(|d: DeviceType| bits & device_bit(d) != 0)
}

impl CapabilitySet {
    /// The set with no device kind.
    pub fn empty() -> (r: CapabilitySet)
        ensures
            r@ == Set::<DeviceType>::empty(),
    {
        let r = CapabilitySet { keyboard: false, pointer: false, touchscreen: false };
        assert(r@ =~= Set::<DeviceType>::empty());
        r
    }

    /// The set of every device kind.
    pub fn all() -> (r: CapabilitySet)
        ensures
            r@ == all_devices(),
    {
        let r = CapabilitySet { keyboard: true, pointer: true, touchscreen: true };
        assert forall|d: DeviceType| r@.contains(d) <==> all_devices().contains(d) by {
            match d {
                DeviceType::Keyboard => {},
                DeviceType::Pointer => {},
                DeviceType::Touchscreen => {},
            }
        }
        assert(r@ =~= all_devices());
        r
    }

    /// The set holding one device kind.
    pub fn single(d: DeviceType) -> (r: CapabilitySet)
        ensures
            r@ == set![d],
    {
        let r = CapabilitySet::empty().with(d);
        assert(r@ =~= set![d]);
        r
    }

    /// This set with one more device kind.
    pub fn with(self, d: DeviceType) -> (r: CapabilitySet)
        ensures
            r@ == self@.insert(d),
    {
        let r = match d {
            DeviceType::Keyboard => CapabilitySet { keyboard: true, ..self },
            DeviceType::Pointer => CapabilitySet { pointer: true, ..self },
            DeviceType::Touchscreen => CapabilitySet { touchscreen: true, ..self },
        };
        assert(r@ =~= self@.insert(d));
        r
    }

    /// Whether the set holds a device kind.
    pub fn contains(&self, d: DeviceType) -> (r: bool)
        ensures
            r == self@.contains(d),
    {
        match d {
            DeviceType::Keyboard => self.keyboard,
            DeviceType::Pointer => self.pointer,
            DeviceType::Touchscreen => self.touchscreen,
        }
    }

    /// Whether the set holds no device kind.
    pub fn is_empty(&self) -> (r: bool)
        ensures
            r == (self@ == Set::<DeviceType>::empty()),
    {
        let r = !self.keyboard && !self.pointer && !self.touchscreen;
        if !r {
            if self.keyboard {
                assert(self@.contains(DeviceType::Keyboard));
            } else if self.pointer {
                assert(self@.contains(DeviceType::Pointer));
            } else {
                assert(self@.contains(DeviceType::Touchscreen));
            }
        } else {
            assert(self@ =~= Set::<DeviceType>::empty());
        }
        r
    }

    /// The kinds in either set.
    pub fn union(&self, other: &CapabilitySet) -> (r: CapabilitySet)
        ensures
            r@ == self@.union(other@),
    {
        let r = CapabilitySet {
            keyboard: self.keyboard || other.keyboard,
            pointer: self.pointer || other.pointer,
            touchscreen: self.touchscreen || other.touchscreen,
        };
        assert(r@ =~= self@.union(other@));
        r
    }

    /// The kinds in both sets.
    pub fn intersection(&self, other: &CapabilitySet) -> (r: CapabilitySet)
        ensures
            r@ == self@.intersect(other@),
    {
        let r = CapabilitySet {
            keyboard: self.keyboard && other.keyboard,
            pointer: self.pointer && other.pointer,
            touchscreen: self.touchscreen && other.touchscreen,
        };
        assert(r@ =~= self@.intersect(other@));
        r
    }

    /// Whether every kind of this set is in the other.
    pub fn is_subset(&self, other: &CapabilitySet) -> (r: bool)
        ensures
            r == self@.subset_of(other@),
    {
        let r = (!self.keyboard || other.keyboard) && (!self.pointer || other.pointer) && (
        !self.touchscreen || other.touchscreen);
        if !r {
            if self.keyboard && !other.keyboard {
                assert(self@.contains(DeviceType::Keyboard));
            } else if self.pointer && !other.pointer {
                assert(self@.contains(DeviceType::Pointer));
            } else {
                assert(self@.contains(DeviceType::Touchscreen));
            }
        }
        r
    }

    /// The set that a broker bit set stands for; bits of no device kind are ignored.
    pub fn from_bits(bits: u32) -> (r: CapabilitySet)
        ensures
            r@ == set_of_bits(bits),
    {
        let r = CapabilitySet {
            keyboard: bits & 1 != 0,
            pointer: bits & 2 != 0,
            touchscreen: bits & 4 != 0,
        };
        assert(r@ =~= set_of_bits(bits));
        r
    }

    /// The broker's bit encoding of this set.
    pub fn bits(&self) -> (r: u32)
        ensures
            r == bits_of(self@),
    {
        let k: u32 = if self.keyboard { 1 } else { 0 };
        let p: u32 = if self.pointer { 2 } else { 0 };
        let t: u32 = if self.touchscreen { 4 } else { 0 };
        assert(self@.contains(DeviceType::Keyboard) == self.keyboard);
        assert(self@.contains(DeviceType::Pointer) == self.pointer);
        assert(self@.contains(DeviceType::Touchscreen) == self.touchscreen);
        k | p | t
    }
}

/// Encoding a set as broker bits and decoding the bits gives the set back.
pub proof fn lemma_bits_round_trip(s: Set<DeviceType>)
    ensures
        set_of_bits(bits_of(s)) == s,
{
    let k: u32 = if s.contains(DeviceType::Keyboard) { 1u32 } else { 0u32 };
    let p: u32 = if s.contains(DeviceType::Pointer) { 2u32 } else { 0u32 };
    let t: u32 = if s.contains(DeviceType::Touchscreen) { 4u32 } else { 0u32 };
    assert((k | p | t) & 1 != 0 <==> k == 1) by (bit_vector)
        requires
            k == 0 || k == 1,
            p == 0 || p == 2,
            t == 0 || t == 4,
    ;
    assert((k | p | t) & 2 != 0 <==> p == 2) by (bit_vector)
        requires
            k == 0 || k == 1,
            p == 0 || p == 2,
            t == 0 || t == 4,
    ;
    assert((k | p | t) & 4 != 0 <==> t == 4) by (bit_vector)
        requires
            k == 0 || k == 1,
            p == 0 || p == 2,
            t == 0 || t == 4,
    ;
    assert forall|d: DeviceType| set_of_bits(bits_of(s)).contains(d) <==> s.contains(d) by {
        match d {
            DeviceType::Keyboard => {},
            DeviceType::Pointer => {},
            DeviceType::Touchscreen => {},
        }
    }
    assert(set_of_bits(bits_of(s)) =~= s);
}

} // verus!
