//! Allocation-mode flags: what may later be done with an allocation.

use vstd::prelude::*;

verus! {

/// Whether every bit of `flags` is set in `bits`.
pub open spec fn has_bits(bits: u32, flags: u32) -> bool {
    bits & flags == flags
}

/// The usage flags of a WebGPU buffer that an allocation mode can ask for,
/// as the bits that WebGPU gives them.
pub struct BufferUsage;

impl BufferUsage {
    /// The buffer can be mapped for reading.
    pub const MAP_READ: u32 = 0x0001;

    /// The buffer can be mapped for writing.
    pub const MAP_WRITE: u32 = 0x0002;

    /// The buffer can be the source of a copy.
    pub const COPY_SRC: u32 = 0x0004;

    /// The buffer can be the destination of a copy.
    pub const COPY_DST: u32 = 0x0008;

    /// The buffer can be bound as a uniform buffer.
    pub const UNIFORM: u32 = 0x0040;

    /// The buffer can be bound as a storage buffer.
    pub const STORAGE: u32 = 0x0080;

    /// The six usages above together.
    pub const ALL: u32 = 0x00CF;
}

/// A set of allocation-mode flags, asked for when memory is allocated. They
/// constrain which operations are legal on the allocation afterwards.
#[derive(Debug, Clone, Copy, PartialEq, Eq, Structural)]
pub struct AllocMode {
    bits: u32,
}

impl AllocMode {
    /// The allocation can be mapped for the host to read.
    pub const MAP_READ: u32 = 1 << 0;

    /// The allocation can be mapped for the host to write.
    pub const MAP_WRITE: u32 = 1 << 1;

    /// The allocation can be the source of a copy.
    pub const COPY_SRC: u32 = 1 << 2;

    /// The allocation can be the destination of a copy.
    pub const COPY_DST: u32 = 1 << 3;

    /// The allocation can be bound as a uniform buffer.
    pub const UNIFORM: u32 = 1 << 6;

    /// The allocation can be bound as a storage buffer.
    pub const STORAGE: u32 = 1 << 7;

    /// All the flags there are.
    pub const ALL: u32 = 0xCF;

    /// The flags as bits.
    pub closed spec fn view(&self) -> u32 {
        self.bits
    }

    #[verifier::type_invariant]
    spec fn known_flags_only(&self) -> bool {
        self.bits & Self::ALL == self.bits
    }

    /// The mode that asks for nothing.
    pub fn empty() -> (m: AllocMode)
        ensures
            m@ == 0,
    {
        assert(0u32 & 0xCF == 0u32) by (bit_vector);
        AllocMode { bits: 0 }
    }

    /// The mode that asks for everything.
    pub fn all() -> (m: AllocMode)
        ensures
            m@ == Self::ALL,
    {
        assert(0xCFu32 & 0xCF == 0xCFu32) by (bit_vector);
        AllocMode { bits: Self::ALL }
    }

    /// The mode with exactly the flags `bits`, unless `bits` holds a bit that
    /// is no flag.
    pub fn from_bits(bits: u32) -> (m: Option<AllocMode>)
        ensures
            m is Some <==> bits & Self::ALL == bits,
            m matches Some(mode) ==> mode@ == bits,
    {
        if bits & Self::ALL == bits {
            Some(AllocMode { bits })
        } else {
            None
        }
    }

    /// The mode with the flags among `bits`; bits that are no flag are dropped.
    pub fn from_bits_truncate(bits: u32) -> (m: AllocMode)
        ensures
            m@ == bits & Self::ALL,
    {
        assert((bits & 0xCF) & 0xCF == bits & 0xCF) by (bit_vector);
        AllocMode { bits: bits & Self::ALL }
    }

    pub fn bits(&self) -> (b: u32)
        ensures
            b == self@,
            b & Self::ALL == b,
    {
        proof {
            use_type_invariant(self);
        }
        self.bits
    }

    pub fn is_empty(&self) -> (b: bool)
        ensures
            b == (self@ == 0),
    {
        self.bits == 0
    }

    /// Whether every flag of `flags` is asked for.
    pub fn contains(&self, flags: u32) -> (b: bool)
        ensures
            b == has_bits(self@, flags),
    {
        self.bits & flags == flags
    }

    /// The flags of both modes.
    pub fn union(self, other: AllocMode) -> (m: AllocMode)
        ensures
            m@ == self@ | other@,
    {
        proof {
            use_type_invariant(&self);
            use_type_invariant(&other);
        }
        let a = self.bits;
        let b = other.bits;
        assert((a | b) & 0xCF == a | b) by (bit_vector)
            requires
                a & 0xCF == a,
                b & 0xCF == b,
        ;
        AllocMode { bits: a | b }
    }

    /// The buffer usages that the mode asks of a WebGPU device, as one mask.
    /// The flags are numbered as WebGPU numbers the usages that they stand
    /// for, so the mask is the flags themselves.
    pub open spec fn spec_buffer_usages(self) -> u32 {
        self@ & BufferUsage::ALL
    }

    /// The buffer usages that the mode asks of a WebGPU device: for each flag
    /// the usage of the same name, and no other.
    #[verifier::when_used_as_spec(spec_buffer_usages)]
    pub fn buffer_usages(self) -> (usage: u32)
        ensures
            usage == self.spec_buffer_usages(),
            has_bits(usage, BufferUsage::MAP_READ) == has_bits(self@, Self::MAP_READ),
            has_bits(usage, BufferUsage::MAP_WRITE) == has_bits(self@, Self::MAP_WRITE),
            has_bits(usage, BufferUsage::COPY_SRC) == has_bits(self@, Self::COPY_SRC),
            has_bits(usage, BufferUsage::COPY_DST) == has_bits(self@, Self::COPY_DST),
            has_bits(usage, BufferUsage::UNIFORM) == has_bits(self@, Self::UNIFORM),
            has_bits(usage, BufferUsage::STORAGE) == has_bits(self@, Self::STORAGE),
            usage & BufferUsage::ALL == usage,
    {
        let m = self.bits;
        let r = self.contains(Self::MAP_READ);
        let w = self.contains(Self::MAP_WRITE);
        let s = self.contains(Self::COPY_SRC);
        let d = self.contains(Self::COPY_DST);
        let u = self.contains(Self::UNIFORM);
        let g = self.contains(Self::STORAGE);
        let ur: u32 = if r { BufferUsage::MAP_READ } else { 0 };
        let uw: u32 = if w { BufferUsage::MAP_WRITE } else { 0 };
        let us: u32 = if s { BufferUsage::COPY_SRC } else { 0 };
        let ud: u32 = if d { BufferUsage::COPY_DST } else { 0 };
        let uu: u32 = if u { BufferUsage::UNIFORM } else { 0 };
        let ug: u32 = if g { BufferUsage::STORAGE } else { 0 };
        let usage = ur | uw | us | ud | uu | ug;
        assert({
            &&& (usage & 0x01 == 0x01) == (m & (1u32 << 0) == (1u32 << 0))
            &&& (usage & 0x02 == 0x02) == (m & (1u32 << 1) == (1u32 << 1))
            &&& (usage & 0x04 == 0x04) == (m & (1u32 << 2) == (1u32 << 2))
            &&& (usage & 0x08 == 0x08) == (m & (1u32 << 3) == (1u32 << 3))
            &&& (usage & 0x40 == 0x40) == (m & (1u32 << 6) == (1u32 << 6))
            &&& (usage & 0x80 == 0x80) == (m & (1u32 << 7) == (1u32 << 7))
            &&& usage & 0xCF == usage
            &&& usage == m & 0xCF
        }) by (bit_vector)
            requires
                ur == 0x01 <==> m & (1u32 << 0) == (1u32 << 0),
                uw == 0x02 <==> m & (1u32 << 1) == (1u32 << 1),
                us == 0x04 <==> m & (1u32 << 2) == (1u32 << 2),
                ud == 0x08 <==> m & (1u32 << 3) == (1u32 << 3),
                uu == 0x40 <==> m & (1u32 << 6) == (1u32 << 6),
                ug == 0x80 <==> m & (1u32 << 7) == (1u32 << 7),
                ur == 0x01 || ur == 0,
                uw == 0x02 || uw == 0,
                us == 0x04 || us == 0,
                ud == 0x08 || ud == 0,
                uu == 0x40 || uu == 0,
                ug == 0x80 || ug == 0,
                usage == ur | uw | us | ud | uu | ug,
        ;
        usage
    }
}

impl vstd::std_specs::ops::BitOrSpecImpl for AllocMode {
    open spec fn obeys_bitor_spec() -> bool {
        true
    }

    open spec fn bitor_req(self, rhs: AllocMode) -> bool {
        true
    }

    closed spec fn bitor_spec(self, rhs: AllocMode) -> AllocMode {
        AllocMode { bits: self.bits | rhs.bits }
    }
}

impl core::ops::BitOr for AllocMode {
    type Output = AllocMode;

    fn bitor(self, rhs: AllocMode) -> (m: AllocMode)
        ensures
            m@ == self@ | rhs@,
    {
        self.union(rhs)
    }
}

} // verus!
