//! Shared scalar values: written by the event bridge, read once per frame.

use vstd::prelude::*;

verus! {

/// Number of blend equations that the pixel stage can branch on. A blend
/// index is valid when it is below this count.
pub const BLEND_MODE_COUNT: u8 = 9;

/// Blend index of a fresh render state.
pub const INITIAL_BLEND_INDEX: u8 = 0;

/// Camera speed of a fresh render state: the IEEE 754 double 0.25, as bits.
pub const INITIAL_SPEED_BITS: u64 = 0x3FD0_0000_0000_0000;

/// The names of the blend equations, by index.
pub open spec fn blend_mode_names() -> Seq<Seq<char>> {
    seq![
        "Screen"@,
        "Dodge"@,
        "Burn"@,
        "Overlay"@,
        "Multiply"@,
        "Add"@,
        "Divide"@,
        "Grain Extract"@,
        "Grain Merge"@,
    ]
}

/// The name of the blend equation at `index`, for the indices of the
/// enumeration.
pub fn blend_mode_name(index: u8) -> (name: Option<&'static str>)
    ensures
        index < BLEND_MODE_COUNT ==> (name matches Some(found) && found@
            == blend_mode_names()[index as int]),
        index >= BLEND_MODE_COUNT ==> name is None,
{
    match index {
        0 => Some("Screen"),
        1 => Some("Dodge"),
        2 => Some("Burn"),
        3 => Some("Overlay"),
        4 => Some("Multiply"),
        5 => Some("Add"),
        6 => Some("Divide"),
        7 => Some("Grain Extract"),
        8 => Some("Grain Merge"),
        _ => None,
    }
}

/// A single value with whole-value read and replace, and nothing else: no
/// operation reads and then writes, so no update can be lost.
#[derive(Debug)]
pub struct SharedScalar<T> {
    value: T,
}

impl<T> View for SharedScalar<T> {
    type V = T;

    /// The most recently committed value.
    closed spec fn view(&self) -> T {
        self.value
    }
}

impl<T: Copy> SharedScalar<T> {
    /// A cell that holds `initial`.
    pub fn new(initial: T) -> (cell: Self)
        ensures
            cell@ == initial,
    {
        SharedScalar { value: initial }
    }

    /// The latest committed value.
    pub fn read(&self) -> (value: T)
        ensures
            value == self@,
    {
        self.value
    }

    /// Replaces the value. Every value is accepted: validation belongs to
    /// the writer.
    pub fn write(&mut self, value: T)
        ensures
            final(self)@ == value,
    {
        self.value = value;
    }
}

/// A frame-scoped copy of the render state.
#[derive(Clone, Copy, Debug, PartialEq, Eq, Structural)]
pub struct Snapshot {
    /// Index of the blend equation.
    pub blend_index: u8,
    /// Camera animation speed, an IEEE 754 double as bits.
    pub speed_bits: u64,
}

/// The values that UI events mutate and the draw phase consumes.
#[derive(Debug)]
pub struct RenderState {
    blend: SharedScalar<u8>,
    speed: SharedScalar<u64>,
}

impl View for RenderState {
    type V = Snapshot;

    /// What a snapshot taken now would hold.
    closed spec fn view(&self) -> Snapshot {
        Snapshot { blend_index: self.blend@, speed_bits: self.speed@ }
    }
}

impl RenderState {
    /// The state at startup.
    pub fn new() -> (state: Self)
        ensures
            state@ == (Snapshot {
                blend_index: INITIAL_BLEND_INDEX,
                speed_bits: INITIAL_SPEED_BITS,
            }),
    {
        RenderState {
            blend: SharedScalar::new(INITIAL_BLEND_INDEX),
            speed: SharedScalar::new(INITIAL_SPEED_BITS),
        }
    }

    /// The committed blend index.
    pub fn blend_index(&self) -> (index: u8)
        ensures
            index == self@.blend_index,
    {
        self.blend.read()
    }

    /// The committed camera speed, as bits.
    pub fn speed_bits(&self) -> (bits: u64)
        ensures
            bits == self@.speed_bits,
    {
        self.speed.read()
    }

    /// Replaces the blend index and leaves the speed alone.
    pub fn set_blend_index(&mut self, index: u8)
        ensures
            final(self)@ == (Snapshot { blend_index: index, ..old(self)@ }),
    {
        self.blend.write(index);
    }

    /// Replaces the camera speed and leaves the blend index alone.
    pub fn set_speed_bits(&mut self, bits: u64)
        ensures
            final(self)@ == (Snapshot { speed_bits: bits, ..old(self)@ }),
    {
        self.speed.write(bits);
    }

    /// Copies every value at once.
    pub fn snapshot(&self) -> (snapshot: Snapshot)
        ensures
            snapshot == self@,
    {
        Snapshot { blend_index: self.blend.read(), speed_bits: self.speed.read() }
    }
}

} // verus!
