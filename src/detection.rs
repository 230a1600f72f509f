use vstd::prelude::*;

verus! {

/// Set of the detection flags that fired, held as a bit pattern.
///
/// Its model is the bit pattern: bit 0 is `RDTSC`, bit 1 `HYPERVISOR_BIT`,
/// bit 2 `HYPERVISOR_CPU_VENDOR` and bit 3 `UNEXPECTED_CPU_VENDOR`.
#[derive(Clone, Copy, Debug, PartialEq, Eq, Structural)]
pub struct Detection {
    bits: u32,
}

/// Bit of the timing flag.
pub const RDTSC: u32 = 0b0001;

/// Bit of the hypervisor-present flag.
pub const HYPERVISOR_BIT: u32 = 0b0010;

/// Bit of the hypervisor CPU vendor flag.
pub const HYPERVISOR_CPU_VENDOR: u32 = 0b0100;

/// Bit of the unexpected CPU vendor flag.
pub const UNEXPECTED_CPU_VENDOR: u32 = 0b1000;

/// Bit pattern with every defined flag set.
pub const ALL_BITS: u32 = 0b1111;

impl View for Detection {
    type V = u32;

    closed spec fn view(&self) -> u32 {
        self.bits
    }
}

impl Detection {
    /// Executing the identification instruction took suspiciously long.
    pub fn rdtsc() -> (r: Detection)
        ensures
            r@ == RDTSC,
    {
        Detection { bits: RDTSC }
    }

    /// The processor reports the hypervisor-present bit.
    pub fn hypervisor_bit() -> (r: Detection)
        ensures
            r@ == HYPERVISOR_BIT,
    {
        Detection { bits: HYPERVISOR_BIT }
    }

    /// The CPU vendor identifier is that of a known hypervisor or emulator.
    pub fn hypervisor_cpu_vendor() -> (r: Detection)
        ensures
            r@ == HYPERVISOR_CPU_VENDOR,
    {
        Detection { bits: HYPERVISOR_CPU_VENDOR }
    }

    /// The CPU vendor identifier is neither a known hypervisor nor a genuine vendor.
    pub fn unexpected_cpu_vendor() -> (r: Detection)
        ensures
            r@ == UNEXPECTED_CPU_VENDOR,
    {
        Detection { bits: UNEXPECTED_CPU_VENDOR }
    }

    /// Whether every flag of `other` is set in `self`.
    pub open spec fn has(self, other: Detection) -> bool {
        self.has_bits(other@)
    }

    /// Whether every bit of `bits` is set in `self`.
    pub open spec fn has_bits(self, bits: u32) -> bool {
        self@ & bits == bits
    }

    /// The set with no flag.
    pub fn empty() -> (r: Detection)
        ensures
            r@ == 0,
    {
        Detection { bits: 0 }
    }

    /// The set with every defined flag.
    pub fn all() -> (r: Detection)
        ensures
            r@ == ALL_BITS,
    {
        Detection { bits: ALL_BITS }
    }

    /// The bit pattern of the set.
    pub fn bits(&self) -> (r: u32)
        ensures
            r == self@,
    {
        self.bits
    }

    /// The set with the given bits, or `None` where a bit outside the defined
    /// flags is set.
    pub fn from_bits(bits: u32) -> (r: Option<Detection>)
        ensures
            r.is_some() == (bits & !ALL_BITS == 0),
            r.is_some() ==> r.unwrap()@ == bits,
    {
        if bits & !ALL_BITS == 0 {
            Some(Detection { bits })
        } else {
            None
        }
    }

    /// The set with the defined flags among `bits`; other bits are dropped.
    pub fn from_bits_truncate(bits: u32) -> (r: Detection)
        ensures
            r@ == bits & ALL_BITS,
    {
        Detection { bits: bits & ALL_BITS }
    }

    /// Whether no flag is set.
    pub fn is_empty(&self) -> (r: bool)
        ensures
            r == (self@ == 0),
    {
        self.bits == 0
    }

    /// Whether every defined flag is set.
    pub fn is_all(&self) -> (r: bool)
        ensures
            r == (self@ & ALL_BITS == ALL_BITS),
    {
        self.bits & ALL_BITS == ALL_BITS
    }

    /// Whether every flag of `other` is also set in `self`.
    pub fn contains(&self, other: Detection) -> (r: bool)
        ensures
            r == self.has(other),
    {
        self.bits & other.bits == other.bits
    }

    /// Whether `self` and `other` share a flag.
    pub fn intersects(&self, other: Detection) -> (r: bool)
        ensures
            r == (self@ & other@ != 0),
    {
        self.bits & other.bits != 0
    }

    /// The flags set in either.
    pub fn union(self, other: Detection) -> (r: Detection)
        ensures
            r@ == self@ | other@,
    {
        Detection { bits: self.bits | other.bits }
    }

    /// The flags set in both.
    pub fn intersection(self, other: Detection) -> (r: Detection)
        ensures
            r@ == self@ & other@,
    {
        Detection { bits: self.bits & other.bits }
    }

    /// The flags of `self` that `other` does not have.
    pub fn difference(self, other: Detection) -> (r: Detection)
        ensures
            r@ == self@ & !other@,
    {
        Detection { bits: self.bits & !other.bits }
    }

    /// Sets the flags of `other`.
    pub fn insert(&mut self, other: Detection)
        ensures
            final(self)@ == old(self)@ | other@,
    {
        self.bits = self.bits | other.bits;
    }

    /// Clears the flags of `other`.
    pub fn remove(&mut self, other: Detection)
        ensures
            final(self)@ == old(self)@ & !other@,
    {
        self.bits = self.bits & !other.bits;
    }
}

} // verus!
