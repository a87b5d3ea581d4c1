//! The layout of a raw allocation: a byte size and an alignment.

use vstd::arithmetic::power2::is_pow2;
use vstd::prelude::*;

verus! {

/// A size and an alignment that cannot be a layout.
#[derive(Debug, Clone, Copy, PartialEq, Eq, Structural)]
pub struct LayoutError;

/// The size and alignment of an allocation, recorded when it is made and
/// handed back unchanged when it is released.
#[derive(Debug, Clone, Copy, PartialEq, Eq, Structural)]
pub struct Layout {
    size: usize,
    align: usize,
}

impl Layout {
    /// A size and an alignment make a layout when the alignment is a power of
    /// two and the size, rounded up to a multiple of the alignment, does not
    /// exceed `isize::MAX`.
    pub open spec fn valid(size: int, align: int) -> bool {
        &&& is_pow2(align)
        &&& 0 <= size <= isize::MAX - (align - 1)
    }

    pub closed spec fn spec_size(&self) -> usize {
        self.size
    }

    pub closed spec fn spec_align(&self) -> usize {
        self.align
    }

    #[verifier::type_invariant]
    spec fn well_formed(&self) -> bool {
        Self::valid(self.size as int, self.align as int)
    }

    /// The layout of `size` bytes aligned to `align`, if there is one.
    pub fn from_size_align(size: usize, align: usize) -> (r: Result<Layout, LayoutError>)
        ensures
            r is Ok <==> Self::valid(size as int, align as int),
            r matches Ok(l) ==> l.spec_size() == size && l.spec_align() == align,
    {
        if !is_power_of_two(align) {
            return Err(LayoutError);
        }
        proof {
            reveal(is_pow2);
        }
        let padding = align - 1;
        let limit = isize::MAX as usize;
        if padding > limit || size > limit - padding {
            return Err(LayoutError);
        }
        Ok(Layout { size, align })
    }

    /// The number of bytes.
    #[verifier::when_used_as_spec(spec_size)]
    pub fn size(&self) -> (n: usize)
        ensures
            n == self.spec_size(),
            Self::valid(n as int, self.spec_align() as int),
    {
        proof {
            use_type_invariant(self);
        }
        self.size
    }

    /// The alignment, a power of two.
    #[verifier::when_used_as_spec(spec_align)]
    pub fn align(&self) -> (n: usize)
        ensures
            n == self.spec_align(),
            is_pow2(n as int),
    {
        proof {
            use_type_invariant(self);
        }
        self.align
    }
}

/// Whether `n` is a power of two.
pub fn is_power_of_two(n: usize) -> (b: bool)
    ensures
        b == is_pow2(n as int),
{
    let mut m: usize = n;
    while m > 1 && m % 2 == 0
        invariant
            is_pow2(m as int) == is_pow2(n as int),
        decreases m,
    {
        proof {
            reveal(is_pow2);
        }
        m = m / 2;
    }
    proof {
        reveal(is_pow2);
    }
    m == 1
}

} // verus!
